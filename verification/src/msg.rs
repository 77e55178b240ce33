use vstd::prelude::*;

verus! {

/// The initialization request: the raw admin addresses and the single
/// donation denomination the contract will accept for its lifetime.
#[derive(Debug, Clone, PartialEq, Eq)]
pub struct InstantiateMsg {
    pub admins: Vec<String>,
    pub donation_denom: String,
}

/// The commands the contract executes after initialization.
#[derive(Debug, Clone, PartialEq, Eq)]
pub enum ExecuteMsg {
    /// Append the given raw addresses to the member list; only a current
    /// member may do this.
    AddMembers { admins: Vec<String> },
    /// Remove every occurrence of the caller from the member list.
    Leave {},
    /// Split the attached payment evenly among the current members.
    Donate {},
}

/// The read-only questions the contract answers.
#[derive(Debug, Clone, PartialEq, Eq)]
pub enum QueryMsg {
    Greet {},
    AdminsList {},
}

/// The answer to [`QueryMsg::Greet`].
#[derive(Debug, Clone, PartialEq, Eq)]
pub struct GreetResp {
    pub message: String,
}

/// The answer to [`QueryMsg::AdminsList`]: the current member list, empty if
/// the contract was never initialized.
#[derive(Debug, Clone, PartialEq, Eq)]
pub struct AdminsListResp {
    pub admins: Vec<String>,
}

/// The answer to a [`QueryMsg`], one variant per question.
#[derive(Debug, Clone, PartialEq, Eq)]
pub enum QueryResp {
    Greet(GreetResp),
    AdminsList(AdminsListResp),
}

} // verus!
