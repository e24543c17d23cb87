//! Storage-rent budget: TTL constants of the storage tiers and the write
//! budget of entrypoints.
use vstd::prelude::*;

verus! {

/// Approximate ledgers per day at a five-second cadence.
pub const LEDGERS_PER_DAY: u32 = 17_280;

/// Target TTL for instance storage entries (about 30 days).
pub const INSTANCE_BUMP_LEDGERS: u32 = 518_400;

/// Threshold below which instance storage should be bumped (about 15 days).
pub const INSTANCE_BUMP_THRESHOLD: u32 = 259_200;

/// Target TTL for persistent storage entries (about 30 days).
pub const PERSISTENT_BUMP_LEDGERS: u32 = 518_400;

/// Threshold below which a persistent entry should be bumped (about 15 days).
pub const PERSISTENT_BUMP_THRESHOLD: u32 = 259_200;

/// TTL for temporary storage entries (about one day).
pub const TEMP_BUMP_LEDGERS: u32 = LEDGERS_PER_DAY;

/// The storage tier of a key.
#[derive(Clone, Copy, Debug, PartialEq, Eq, Structural)]
pub enum StorageTier {
    /// Renewed automatically on every invocation.
    Instance,
    /// Independent TTL; must be bumped to survive inactivity.
    Persistent,
    /// Ephemeral.
    Temporary,
}

/// The storage writes that one entrypoint makes, per tier.
#[derive(Clone, Debug, PartialEq, Eq)]
pub struct RentBudgetEntry {
    /// Name of the entrypoint.
    pub entrypoint: &'static str,
    /// Number of instance storage writes.
    pub instance_writes: u32,
    /// Number of persistent storage writes.
    pub persistent_writes: u32,
    /// Number of temporary storage writes.
    pub temporary_writes: u32,
}

/// All writes of an entry, across the tiers.
pub open spec fn spec_total_writes(e: RentBudgetEntry) -> int {
    e.instance_writes + e.persistent_writes + e.temporary_writes
}

impl RentBudgetEntry {
    /// Total storage writes across all tiers; the total must fit in `u32`.
    pub fn total_writes(&self) -> (total: u32)
        requires
            spec_total_writes(*self) <= u32::MAX,
        ensures
            total == spec_total_writes(*self),
            total == self.instance_writes + self.persistent_writes + self.temporary_writes,
    {
        self.instance_writes + self.persistent_writes + self.temporary_writes
    }

    /// Whether the operation writes persistent storage (and so needs TTL
    /// management).
    pub fn touches_persistent(&self) -> (touches: bool)
        ensures
            touches == (self.persistent_writes > 0),
    {
        self.persistent_writes > 0
    }
}

/// An operation that touches persistent storage writes at least once, and
/// one that writes nothing touches no persistent entry.
pub proof fn lemma_persistent_writes_count(e: RentBudgetEntry)
    ensures
        e.persistent_writes > 0 ==> spec_total_writes(e) >= 1,
        spec_total_writes(e) == 0 ==> !(e.persistent_writes > 0),
{
}

/// Each tier counts in full: one more write in any tier adds exactly one to
/// the total, and an entry that writes nothing totals zero.
pub proof fn lemma_total_writes_counts_each_tier(e: RentBudgetEntry)
    ensures
        spec_total_writes(RentBudgetEntry { instance_writes: 0, persistent_writes: 0, temporary_writes: 0, ..e }) == 0,
        e.instance_writes < u32::MAX ==> spec_total_writes(RentBudgetEntry { instance_writes: (e.instance_writes + 1) as u32, ..e }) == spec_total_writes(e) + 1,
        e.persistent_writes < u32::MAX ==> spec_total_writes(RentBudgetEntry { persistent_writes: (e.persistent_writes + 1) as u32, ..e }) == spec_total_writes(e) + 1,
        e.temporary_writes < u32::MAX ==> spec_total_writes(RentBudgetEntry { temporary_writes: (e.temporary_writes + 1) as u32, ..e }) == spec_total_writes(e) + 1,
{
}

} // verus!
