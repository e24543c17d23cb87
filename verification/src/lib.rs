//! Verified core of the Tycoon contracts: access classification, the
//! cross-contract auth matrix, upgrade governance, storage-rent budgets and
//! the decision logic of the Tycoon token, with a ledger-level model in which
//! the token's conservation laws are proved.
use vstd::prelude::*;

pub mod admin;
pub mod auth;
pub mod ledger;
pub mod migration;
pub mod storage_rent;
pub mod token;

verus! {

} // verus!
