use tycoon::migration::{
    assert_valid_upgrade_delay, assert_valid_version_increment, GovernanceError, MigrationGuard,
    MigrationKey, MigrationState, DEFAULT_UPGRADE_DELAY, INITIAL_STATE_VERSION,
    MIN_UPGRADE_DELAY_LEDGERS,
};

fn dummy_hash() -> [u8; 32] {
    [0u8; 32]
}

#[test]
fn test_migration_key_initial() {
    let key = MigrationKey::initial(100);
    assert_eq!(key.version, INITIAL_STATE_VERSION);
    assert_eq!(key.set_at_ledger, 100);
}

#[test]
fn test_migration_key_next_increments_version() {
    let key = MigrationKey::initial(100);
    let next = key.next(200);
    assert_eq!(next.version, 2);
    assert_eq!(next.set_at_ledger, 200);
}

#[test]
fn test_migration_key_is_valid_successor() {
    let v1 = MigrationKey::initial(100);
    let v2 = v1.next(200);
    assert!(v1.is_valid_successor(&v2));
}

#[test]
fn test_migration_key_invalid_successor_same_version() {
    let v1 = MigrationKey::initial(100);
    let same = MigrationKey { version: 1, set_at_ledger: 200 };
    assert!(!v1.is_valid_successor(&same));
}

#[test]
fn test_migration_key_invalid_successor_skip_version() {
    let v1 = MigrationKey::initial(100);
    let skip = MigrationKey { version: 3, set_at_ledger: 200 };
    assert!(!v1.is_valid_successor(&skip));
}

#[test]
fn test_migration_key_invalid_successor_older_ledger() {
    let v1 = MigrationKey { version: 1, set_at_ledger: 200 };
    let regressed = MigrationKey { version: 2, set_at_ledger: 100 };
    assert!(!v1.is_valid_successor(&regressed));
}

#[test]
fn test_migration_key_clone() {
    let key = MigrationKey::initial(50);
    let clone = key.clone();
    assert_eq!(key, clone);
}

#[test]
fn test_migration_state_variants_are_distinct() {
    assert_ne!(MigrationState::NoUpgrade, MigrationState::Pending);
    assert_ne!(MigrationState::NoUpgrade, MigrationState::Completed);
    assert_ne!(MigrationState::NoUpgrade, MigrationState::Cancelled);
    assert_ne!(MigrationState::Pending, MigrationState::Completed);
    assert_ne!(MigrationState::Pending, MigrationState::Cancelled);
    assert_ne!(MigrationState::Completed, MigrationState::Cancelled);
}

#[test]
fn test_migration_state_used_in_match() {
    let state = MigrationState::Pending;
    let label = match state {
        MigrationState::NoUpgrade => "none",
        MigrationState::Pending => "pending",
        MigrationState::Completed => "completed",
        MigrationState::Cancelled => "cancelled",
    };
    assert_eq!(label, "pending");
}

#[test]
fn test_migration_guard_is_executable_after_lock() {
    let guard = MigrationGuard {
        new_wasm_hash: dummy_hash(),
        earliest_execute_ledger: 1000,
        target_version: 2,
        state: MigrationState::Pending,
    };
    assert!(!guard.is_executable(999));
    assert!(guard.is_executable(1000));
    assert!(guard.is_executable(1001));
}

#[test]
fn test_migration_guard_is_locked_before_deadline() {
    let guard = MigrationGuard {
        new_wasm_hash: dummy_hash(),
        earliest_execute_ledger: 500,
        target_version: 2,
        state: MigrationState::Pending,
    };
    assert!(guard.is_locked(100));
    assert!(guard.is_locked(499));
    assert!(!guard.is_locked(500));
}

#[test]
fn test_migration_guard_not_executable_if_completed() {
    let guard = MigrationGuard {
        new_wasm_hash: dummy_hash(),
        earliest_execute_ledger: 100,
        target_version: 2,
        state: MigrationState::Completed,
    };
    assert!(!guard.is_executable(200));
    assert!(!guard.is_locked(50));
}

#[test]
fn test_migration_guard_not_executable_if_cancelled() {
    let guard = MigrationGuard {
        new_wasm_hash: dummy_hash(),
        earliest_execute_ledger: 100,
        target_version: 2,
        state: MigrationState::Cancelled,
    };
    assert!(!guard.is_executable(200));
}

#[test]
fn test_assert_valid_upgrade_delay_passes_minimum() {
    assert_eq!(assert_valid_upgrade_delay(MIN_UPGRADE_DELAY_LEDGERS), Ok(()));
    assert_eq!(assert_valid_upgrade_delay(DEFAULT_UPGRADE_DELAY), Ok(()));
    assert_eq!(assert_valid_upgrade_delay(u32::MAX), Ok(()));
}

#[test]
fn test_assert_valid_upgrade_delay_rejects_below_minimum() {
    let err = assert_valid_upgrade_delay(MIN_UPGRADE_DELAY_LEDGERS - 1).unwrap_err();
    assert_eq!(err, GovernanceError::UpgradeDelayBelowMinimum);
    assert_eq!(err.message(), "Upgrade delay below minimum");
}

#[test]
fn test_assert_valid_version_increment_succeeds() {
    assert_eq!(assert_valid_version_increment(1, 2), Ok(()));
    assert_eq!(assert_valid_version_increment(5, 6), Ok(()));
}

#[test]
fn test_assert_valid_version_increment_rejects_skip() {
    let err = assert_valid_version_increment(1, 3).unwrap_err();
    assert_eq!(err, GovernanceError::InvalidVersionIncrement);
    assert_eq!(err.message(), "Invalid version increment");
}

#[test]
fn test_assert_valid_version_increment_rejects_same() {
    assert_eq!(
        assert_valid_version_increment(2, 2),
        Err(GovernanceError::InvalidVersionIncrement)
    );
}

#[test]
fn test_assert_valid_version_increment_rejects_decrement() {
    assert_eq!(
        assert_valid_version_increment(3, 2),
        Err(GovernanceError::InvalidVersionIncrement)
    );
}

#[test]
fn test_assert_valid_version_increment_rejects_same_at_max() {
    assert_eq!(
        assert_valid_version_increment(u32::MAX, u32::MAX),
        Err(GovernanceError::InvalidVersionIncrement)
    );
    assert_eq!(assert_valid_version_increment(u32::MAX - 1, u32::MAX), Ok(()));
    assert_eq!(
        assert_valid_version_increment(u32::MAX, 0),
        Err(GovernanceError::InvalidVersionIncrement)
    );
}

#[test]
fn test_migration_key_at_max_version_has_no_successor() {
    let top = MigrationKey { version: u32::MAX, set_at_ledger: 5 };
    assert!(!top.is_valid_successor(&MigrationKey { version: u32::MAX, set_at_ledger: 6 }));
    assert!(!top.is_valid_successor(&MigrationKey { version: 0, set_at_ledger: 6 }));
    let below = MigrationKey { version: u32::MAX - 1, set_at_ledger: 5 };
    assert!(below.is_valid_successor(&top));
}

#[test]
fn test_constants_are_consistent() {
    assert!(DEFAULT_UPGRADE_DELAY >= MIN_UPGRADE_DELAY_LEDGERS);
    assert!(MIN_UPGRADE_DELAY_LEDGERS > 0);
    assert_eq!(INITIAL_STATE_VERSION, 1);
}

#[test]
fn test_migration_key_chain() {
    let v1 = MigrationKey::initial(0);
    let v2 = v1.next(100);
    let v3 = v2.next(200);
    assert_eq!(v1.version, 1);
    assert_eq!(v2.version, 2);
    assert_eq!(v3.version, 3);
    assert!(v1.is_valid_successor(&v2));
    assert!(v2.is_valid_successor(&v3));
    assert!(!v1.is_valid_successor(&v3));
}

#[test]
fn test_next_then_version_increment_check_accepts() {
    let key = MigrationKey { version: 41, set_at_ledger: 7 };
    let next = key.next(7);
    assert!(key.is_valid_successor(&next));
    assert_eq!(assert_valid_version_increment(key.version, next.version), Ok(()));
}

#[test]
fn test_guard_executable_and_locked_partition() {
    let guard = MigrationGuard {
        new_wasm_hash: [7u8; 32],
        earliest_execute_ledger: 10,
        target_version: 3,
        state: MigrationState::Pending,
    };
    for ledger in [0u32, 9, 10, 11, u32::MAX] {
        assert!(guard.is_executable(ledger) != guard.is_locked(ledger));
    }
    let idle = MigrationGuard { state: MigrationState::NoUpgrade, ..guard };
    assert!(!idle.is_executable(10));
    assert!(!idle.is_locked(9));
}
