use vstd::prelude::*;

verus! {

/// One denominated amount: the shape of an attached payment and of an
/// outgoing transfer alike.
#[derive(Debug, Clone, PartialEq, Eq)]
pub struct Coin {
    pub denom: String,
    pub amount: u128,
}

/// The per-call context the host supplies: who makes the call and which
/// coins ride along with it.
#[derive(Debug, Clone, PartialEq, Eq)]
pub struct MessageInfo {
    pub sender: String,
    pub funds: Vec<Coin>,
}

/// The payment is exactly one coin of `denom` with a nonzero amount.
pub open spec fn exact_payment(funds: Seq<Coin>, denom: Seq<char>) -> bool {
    funds.len() == 1 && funds[0].denom@ == denom && funds[0].amount > 0
}

/// The amount of a one-coin payment.
pub open spec fn payment_amount(funds: Seq<Coin>) -> u128
    recommends
        funds.len() == 1,
{
    funds[0].amount
}

/// Relies on `cw_utils::must_pay`: it returns the attached amount exactly
/// when the funds are a single coin of the requested denomination with a
/// nonzero amount, and fails on empty funds, a zero amount, several coins,
/// or another denomination.
#[verifier::external_body]
pub(crate) fn must_pay(funds: &Vec<Coin>, denom: &str) -> (r: Option<u128>)
    ensures
        r is Some <==> exact_payment(funds@, denom@),
        r is Some ==> r->Some_0 == payment_amount(funds@),
{
    // must_pay reads only the funds of the message, never its sender.
    let info = cosmwasm_std::MessageInfo {
        sender: cosmwasm_std::Addr::unchecked(""),
        funds: funds
            .iter()
            .map(|c| cosmwasm_std::Coin::new(c.amount, c.denom.as_str()))
            .collect(),
    };
    match cw_utils::must_pay(&info, denom) {
        Ok(amount) => Some(amount.u128()),
        Err(_) => None,
    }
}

/// The coin list of one transfer: a single coin of `denom` over `amount`.
pub fn coins(amount: u128, denom: &String) -> (v: Vec<Coin>)
    ensures
        v@.len() == 1,
        v@[0].denom@ == denom@,
        v@[0].amount == amount,
{
    let mut v: Vec<Coin> = Vec::new();
    v.push(Coin { denom: denom.clone(), amount });
    v
}

} // verus!
