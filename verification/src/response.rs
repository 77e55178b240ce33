use vstd::prelude::*;
use crate::payment::Coin;

verus! {

/// One outbound value transfer the host's bank module should perform.
#[derive(Debug, Clone, PartialEq, Eq)]
pub struct BankSend {
    pub to_address: String,
    pub amount: Vec<Coin>,
}

/// One observability attribute: a key-value pair for off-contract indexers.
#[derive(Debug, Clone, PartialEq, Eq)]
pub struct Attribute {
    pub key: String,
    pub value: String,
}

/// What a successful operation hands back to the host: the transfers to
/// issue and the attributes to record. Failures abort the call instead, so
/// a `Response` only ever describes a call that went through.
#[derive(Debug, Clone, PartialEq, Eq)]
pub struct Response {
    pub messages: Vec<BankSend>,
    pub attributes: Vec<Attribute>,
}

impl Response {
    /// A response with no transfers and no attributes.
    pub fn new() -> (r: Response)
        ensures
            r.messages@.len() == 0,
            r.attributes@.len() == 0,
    {
        Response { messages: Vec::new(), attributes: Vec::new() }
    }
}

/// The transfer `m` moves exactly `amount` of `denom` to `to`.
pub open spec fn sends_to(m: BankSend, to: Seq<char>, denom: Seq<char>, amount: u128) -> bool {
    &&& m.to_address@ == to
    &&& m.amount@.len() == 1
    &&& m.amount@[0].denom@ == denom
    &&& m.amount@[0].amount == amount
}

/// The attribute `a` records `key` = `value`.
pub open spec fn attr_is(a: Attribute, key: Seq<char>, value: Seq<char>) -> bool {
    a.key@ == key && a.value@ == value
}

} // verus!
