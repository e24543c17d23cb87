//! Upgrade and state-migration governance: schema versions, time-locked
//! upgrade proposals and the checks that guard them.
use vstd::prelude::*;

verus! {

/// Minimum time-lock delay for an upgrade proposal (about one day of ledgers).
pub const MIN_UPGRADE_DELAY_LEDGERS: u32 = 17_280;

/// Default time-lock delay for an upgrade proposal (about three days).
pub const DEFAULT_UPGRADE_DELAY: u32 = 51_840;

/// The state schema version of a freshly deployed contract.
pub const INITIAL_STATE_VERSION: u32 = 1;

/// A state schema version together with the ledger at which it was set.
#[derive(Clone, Debug, PartialEq, Eq, Structural)]
pub struct MigrationKey {
    /// Monotonically increasing schema version.
    pub version: u32,
    /// Ledger sequence number when this version was set.
    pub set_at_ledger: u32,
}

/// The key that `next` produces: one version up, stamped with `ledger`.
pub open spec fn spec_next(key: MigrationKey, ledger: u32) -> MigrationKey {
    MigrationKey { version: (key.version + 1) as u32, set_at_ledger: ledger }
}

/// `later` follows `earlier` directly: one version up, never at an older ledger.
pub open spec fn spec_is_valid_successor(earlier: MigrationKey, later: MigrationKey) -> bool {
    later.version == earlier.version + 1 && later.set_at_ledger >= earlier.set_at_ledger
}

impl MigrationKey {
    /// Creates the key of the initial deployment.
    pub fn initial(current_ledger: u32) -> (key: Self)
        ensures
            key.version == INITIAL_STATE_VERSION,
            key.set_at_ledger == current_ledger,
    {
        MigrationKey { version: INITIAL_STATE_VERSION, set_at_ledger: current_ledger }
    }

    /// Advances the version by one and records the current ledger.
    /// The version must not be at its maximum.
    pub fn next(&self, current_ledger: u32) -> (key: Self)
        requires
            self.version < u32::MAX,
        ensures
            key == spec_next(*self, current_ledger),
            key.version == self.version + 1,
            key.set_at_ledger == current_ledger,
    {
        MigrationKey { version: self.version + 1, set_at_ledger: current_ledger }
    }

    /// Whether `other` is a valid successor of `self`: exactly one version
    /// up and set at no older ledger. No key succeeds the maximum version.
    pub fn is_valid_successor(&self, other: &MigrationKey) -> (valid: bool)
        ensures
            valid == spec_is_valid_successor(*self, *other),
            valid == (other.version as int == self.version as int + 1
                && other.set_at_ledger >= self.set_at_ledger),
    {
        other.version as u64 == self.version as u64 + 1 && other.set_at_ledger >= self.set_at_ledger
    }
}

/// Lifecycle state of an upgrade proposal.
#[derive(Clone, Copy, Debug, PartialEq, Eq, Structural)]
pub enum MigrationState {
    /// No upgrade has ever been proposed or executed.
    NoUpgrade,
    /// An upgrade has been proposed and waits for its time-lock.
    Pending,
    /// The upgrade has been executed.
    Completed,
    /// The proposal was cancelled before execution.
    Cancelled,
}

/// An in-flight upgrade proposal. The WASM hash is held as its 32 raw bytes.
#[derive(Clone, Debug, PartialEq, Eq)]
pub struct MigrationGuard {
    /// SHA-256 hash of the new WASM blob.
    pub new_wasm_hash: [u8; 32],
    /// Ledger sequence from which the upgrade may be executed.
    pub earliest_execute_ledger: u32,
    /// The schema version that the new WASM expects.
    pub target_version: u32,
    /// Current state of the proposal.
    pub state: MigrationState,
}

/// The time-lock has expired and the pending upgrade may run at `ledger`.
pub open spec fn spec_is_executable(guard: MigrationGuard, ledger: u32) -> bool {
    guard.state == MigrationState::Pending && ledger >= guard.earliest_execute_ledger
}

/// The pending upgrade is still inside its time-lock window at `ledger`.
pub open spec fn spec_is_locked(guard: MigrationGuard, ledger: u32) -> bool {
    guard.state == MigrationState::Pending && ledger < guard.earliest_execute_ledger
}

impl MigrationGuard {
    /// Returns `true` if the time-lock has expired and the upgrade can be
    /// executed at `current_ledger`.
    pub fn is_executable(&self, current_ledger: u32) -> (executable: bool)
        ensures
            executable == spec_is_executable(*self, current_ledger),
            executable == (self.state == MigrationState::Pending
                && current_ledger >= self.earliest_execute_ledger),
    {
        self.state == MigrationState::Pending && current_ledger >= self.earliest_execute_ledger
    }

    /// Returns `true` if the proposal is still in its time-lock window.
    pub fn is_locked(&self, current_ledger: u32) -> (locked: bool)
        ensures
            locked == spec_is_locked(*self, current_ledger),
            locked == (self.state == MigrationState::Pending
                && current_ledger < self.earliest_execute_ledger),
    {
        self.state == MigrationState::Pending && current_ledger < self.earliest_execute_ledger
    }
}

/// Why a governance check refused its input.
#[derive(Clone, Copy, Debug, PartialEq, Eq, Structural)]
pub enum GovernanceError {
    /// The proposed upgrade delay is below `MIN_UPGRADE_DELAY_LEDGERS`.
    UpgradeDelayBelowMinimum,
    /// The new schema version is not the direct successor of the current one.
    InvalidVersionIncrement,
}

impl GovernanceError {
    /// The message with which a contract aborts on this error.
    pub fn message(&self) -> (msg: &'static str)
        ensures
            *self == GovernanceError::UpgradeDelayBelowMinimum ==> msg@ == "Upgrade delay below minimum"@,
            *self == GovernanceError::InvalidVersionIncrement ==> msg@ == "Invalid version increment"@,
    {
        match self {
            GovernanceError::UpgradeDelayBelowMinimum => "Upgrade delay below minimum",
            GovernanceError::InvalidVersionIncrement => "Invalid version increment",
        }
    }
}

/// Validates that a proposed upgrade delay meets the minimum time-lock.
pub fn assert_valid_upgrade_delay(delay: u32) -> (r: Result<(), GovernanceError>)
    ensures
        r is Ok <==> delay >= MIN_UPGRADE_DELAY_LEDGERS,
        r is Err ==> r == Err::<(), GovernanceError>(GovernanceError::UpgradeDelayBelowMinimum),
{
    if delay < MIN_UPGRADE_DELAY_LEDGERS {
        Err(GovernanceError::UpgradeDelayBelowMinimum)
    } else {
        Ok(())
    }
}

/// Validates that a new schema version is a strict increment of the
/// current one: exactly one more. A current version at the maximum of
/// `u32` has no valid successor.
pub fn assert_valid_version_increment(current_version: u32, new_version: u32) -> (r: Result<(), GovernanceError>)
    ensures
        r is Ok <==> new_version as int == current_version as int + 1,
        r is Err ==> r == Err::<(), GovernanceError>(GovernanceError::InvalidVersionIncrement),
{
    if current_version < u32::MAX && new_version == current_version + 1 {
        Ok(())
    } else {
        Err(GovernanceError::InvalidVersionIncrement)
    }
}

/// A key's `next` is a valid successor of it whenever the new ledger is not
/// older than the ledger at which the key was set.
pub proof fn lemma_next_is_valid_successor(key: MigrationKey, ledger: u32)
    requires
        key.version < u32::MAX,
        ledger >= key.set_at_ledger,
    ensures
        spec_is_valid_successor(key, spec_next(key, ledger)),
{
}

/// A valid successor never decrements the schema version and is accepted by
/// the version-increment check.
pub proof fn lemma_valid_successor_is_valid_increment(earlier: MigrationKey, later: MigrationKey)
    requires
        spec_is_valid_successor(earlier, later),
    ensures
        later.version > earlier.version,
        later.set_at_ledger >= earlier.set_at_ledger,
        later.version as int == earlier.version as int + 1,
{
}

/// The increment check accepts only a strictly greater version: the same, a
/// skipped or a decremented version is refused, at every current version.
pub proof fn lemma_accepted_increment_is_strict(current_version: u32, new_version: u32)
    requires
        new_version as int == current_version as int + 1,
    ensures
        new_version > current_version,
        current_version < u32::MAX,
{
}

/// A proposal is never both executable and locked at the same ledger; a
/// pending proposal is always one of the two; any other state is neither.
pub proof fn lemma_executable_and_locked_partition(guard: MigrationGuard, ledger: u32)
    ensures
        !(spec_is_executable(guard, ledger) && spec_is_locked(guard, ledger)),
        guard.state == MigrationState::Pending ==> (spec_is_executable(guard, ledger)
            || spec_is_locked(guard, ledger)),
        guard.state != MigrationState::Pending ==> (!spec_is_executable(guard, ledger)
            && !spec_is_locked(guard, ledger)),
{
}

/// Once a proposal is executable it stays executable at every later ledger,
/// and a proposal locked at some ledger was locked at every earlier one.
pub proof fn lemma_time_lock_monotone(guard: MigrationGuard, earlier: u32, later: u32)
    requires
        earlier <= later,
    ensures
        spec_is_executable(guard, earlier) ==> spec_is_executable(guard, later),
        spec_is_locked(guard, later) ==> spec_is_locked(guard, earlier),
{
}

/// `next` advances the version by exactly one and stamps the given ledger,
/// whatever the key's version or previous ledger.
pub proof fn lemma_next_stamps_ledger(key: MigrationKey, ledger: u32)
    requires
        key.version < u32::MAX,
    ensures
        spec_next(key, ledger).version == key.version + 1,
        spec_next(key, ledger).set_at_ledger == ledger,
{
}

/// Two successive `next` calls give versions two apart, each stamped with
/// its own ledger: the later stamp is never the earlier one unless the same
/// ledger was given.
pub proof fn lemma_next_twice(key: MigrationKey, first: u32, second: u32)
    requires
        key.version + 2 <= u32::MAX,
    ensures
        spec_next(spec_next(key, first), second).version == key.version + 2,
        spec_next(spec_next(key, first), second).set_at_ledger == second,
        spec_next(key, first).set_at_ledger == first,
{
}

/// For a pending proposal the time-lock alone decides: it is executable
/// exactly from `earliest_execute_ledger` on and locked exactly before it,
/// whatever its WASM hash and target version.
pub proof fn lemma_pending_guard_time_lock(guard: MigrationGuard, ledger: u32)
    requires
        guard.state == MigrationState::Pending,
    ensures
        spec_is_executable(guard, ledger) <==> ledger >= guard.earliest_execute_ledger,
        spec_is_locked(guard, ledger) <==> ledger < guard.earliest_execute_ledger,
{
}

/// The WASM hash and the target version play no part in the time-lock: two
/// proposals that agree on state and earliest ledger are executable and
/// locked at the same ledgers.
pub proof fn lemma_time_lock_ignores_payload(g1: MigrationGuard, g2: MigrationGuard, ledger: u32)
    requires
        g1.state == g2.state,
        g1.earliest_execute_ledger == g2.earliest_execute_ledger,
    ensures
        spec_is_executable(g1, ledger) == spec_is_executable(g2, ledger),
        spec_is_locked(g1, ledger) == spec_is_locked(g2, ledger),
{
}

} // verus!
