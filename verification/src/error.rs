use vstd::prelude::*;

verus! {

/// The ways a registry or distribution operation can fail.
///
/// Every failure aborts the whole call: the caller never observes a partially
/// mutated member list.
#[derive(Debug, Clone, PartialEq, Eq)]
pub enum ContractError {
    /// A raw address failed the host's format validation.
    InvalidAddress,
    /// The caller is not a current member, so it may not add members.
    Unauthorized { sender: String },
    /// The attached payment is not exactly one nonzero coin of the donation
    /// denomination.
    WrongDenomOrNoPayment,
    /// A donation cannot be split among zero members.
    EmptyRegistry,
    /// The operation reads state that only initialization writes.
    Uninitialized,
}

} // verus!
