use vstd::prelude::*;

verus! {

/// The two persisted slots of the contract, each `None` until
/// initialization writes it. The host loads this state before a call and
/// persists it afterwards as a whole-value replace; the operations here
/// never leave a partially updated list behind.
#[derive(Debug, Clone, PartialEq, Eq)]
pub struct ContractState {
    /// The ordered member list; every address in it is an admin.
    pub admins: Option<Vec<String>>,
    /// The only denomination donations are accepted in; set once.
    pub donation_denom: Option<String>,
}

impl ContractState {
    /// The member list as a mathematical sequence of addresses.
    pub open spec fn admins_model(self) -> Option<Seq<Seq<char>>> {
        self.admins.deep_view()
    }

    /// The donation denomination as a mathematical string.
    pub open spec fn denom_model(self) -> Option<Seq<char>> {
        self.donation_denom.deep_view()
    }

    /// Initialization has run: both slots are written.
    pub open spec fn is_initialized(self) -> bool {
        self.admins is Some && self.donation_denom is Some
    }

    /// The state a fresh contract starts from, with both slots empty.
    pub fn uninitialized() -> (s: ContractState)
        ensures
            s.admins is None,
            s.donation_denom is None,
    {
        ContractState { admins: None, donation_denom: None }
    }
}

} // verus!
