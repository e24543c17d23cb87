//! Access tiers of contract entrypoints and the storage key of the admin.
use vstd::prelude::*;

verus! {

/// Classifies the auth requirement of a contract entrypoint.
#[derive(Clone, Copy, Debug, PartialEq, Eq, Structural)]
pub enum EntrypointAccess {
    /// Only the designated admin address may call this function.
    AdminOnly,
    /// The acting party authenticates for its own account.
    SelfAuth,
    /// A pre-approved spender acts on behalf of an owner.
    SpenderAuth,
    /// No signature required; safe for public observation.
    ReadOnly,
}

/// Storage key under which contracts keep their single admin address.
#[derive(Clone, Copy, Debug, PartialEq, Eq, Structural)]
pub enum AdminKey {
    Admin,
}

} // verus!
