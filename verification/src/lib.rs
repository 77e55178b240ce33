//! An authorization-gated membership registry that splits incoming donations
//! evenly among its current members.
//!
//! The crate holds the pure state-transition core of the contract: the host
//! shim loads the persisted state, validates raw addresses, hands both to the
//! functions in [`contract`], and persists the state they leave behind.

pub mod contract;
pub mod error;
pub mod laws;
pub mod msg;
pub mod numfmt;
pub mod payment;
pub mod registry;
pub mod response;
pub mod state;
