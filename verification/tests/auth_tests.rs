use tycoon::auth::{tycoon_token_auth_matrix, AuthMatrixEntry, AuthRequirement, CallerKind};

#[test]
fn test_caller_kind_variants_are_distinct() {
    assert_ne!(CallerKind::Admin, CallerKind::Owner);
    assert_ne!(CallerKind::Admin, CallerKind::Spender);
    assert_ne!(CallerKind::Admin, CallerKind::AnyContract);
    assert_ne!(CallerKind::Admin, CallerKind::NoCaller);
    assert_ne!(CallerKind::Owner, CallerKind::Spender);
    assert_ne!(CallerKind::Owner, CallerKind::AnyContract);
    assert_ne!(CallerKind::Owner, CallerKind::NoCaller);
    assert_ne!(CallerKind::Spender, CallerKind::AnyContract);
    assert_ne!(CallerKind::Spender, CallerKind::NoCaller);
    assert_ne!(CallerKind::AnyContract, CallerKind::NoCaller);
}

#[test]
fn test_auth_requirement_variants_are_distinct() {
    assert_ne!(AuthRequirement::AdminAuth, AuthRequirement::OwnerAuth);
    assert_ne!(AuthRequirement::AdminAuth, AuthRequirement::SpenderAuth);
    assert_ne!(AuthRequirement::AdminAuth, AuthRequirement::AnyAuth);
    assert_ne!(AuthRequirement::AdminAuth, AuthRequirement::NoAuth);
    assert_ne!(AuthRequirement::OwnerAuth, AuthRequirement::SpenderAuth);
    assert_ne!(AuthRequirement::OwnerAuth, AuthRequirement::NoAuth);
    assert_ne!(AuthRequirement::SpenderAuth, AuthRequirement::NoAuth);
}

#[test]
fn test_auth_matrix_entry_requires_admin() {
    let mint = AuthMatrixEntry {
        entrypoint: "mint",
        requirement: AuthRequirement::AdminAuth,
        expected_caller: CallerKind::Admin,
        is_read_only: false,
    };
    assert!(mint.requires_admin());
    assert!(!mint.is_freely_callable());
}

#[test]
fn test_auth_matrix_entry_read_only() {
    let balance = AuthMatrixEntry {
        entrypoint: "balance",
        requirement: AuthRequirement::NoAuth,
        expected_caller: CallerKind::AnyContract,
        is_read_only: true,
    };
    assert!(!balance.requires_admin());
    assert!(balance.is_freely_callable());
}

#[test]
fn test_tycoon_token_matrix_admin_entries_require_admin() {
    let matrix = tycoon_token_auth_matrix();
    let admin_fns = ["mint", "set_admin"];
    for fn_name in admin_fns {
        let entry = matrix
            .iter()
            .find(|e| e.entrypoint == fn_name)
            .unwrap_or_else(|| panic!("{fn_name} not in matrix"));
        assert!(entry.requires_admin(), "{fn_name} should require admin auth");
        assert_eq!(entry.expected_caller, CallerKind::Admin);
    }
}

#[test]
fn test_tycoon_token_matrix_read_only_entries_are_freely_callable() {
    let matrix = tycoon_token_auth_matrix();
    let read_fns = ["balance", "allowance", "total_supply", "decimals", "name", "symbol", "admin"];
    for fn_name in read_fns {
        let entry = matrix
            .iter()
            .find(|e| e.entrypoint == fn_name)
            .unwrap_or_else(|| panic!("{fn_name} not in matrix"));
        assert!(entry.is_freely_callable(), "{fn_name} should be freely callable");
        assert!(entry.is_read_only, "{fn_name} should be marked read_only");
    }
}

#[test]
fn test_tycoon_token_matrix_owner_auth_entries() {
    let matrix = tycoon_token_auth_matrix();
    let owner_fns = ["transfer", "approve", "burn"];
    for fn_name in owner_fns {
        let entry = matrix
            .iter()
            .find(|e| e.entrypoint == fn_name)
            .unwrap_or_else(|| panic!("{fn_name} not in matrix"));
        assert_eq!(entry.requirement, AuthRequirement::OwnerAuth, "{fn_name} should require OwnerAuth");
        assert_eq!(entry.expected_caller, CallerKind::Owner);
        assert!(!entry.is_read_only);
    }
}

#[test]
fn test_tycoon_token_matrix_spender_auth_entries() {
    let matrix = tycoon_token_auth_matrix();
    let spender_fns = ["transfer_from", "burn_from"];
    for fn_name in spender_fns {
        let entry = matrix
            .iter()
            .find(|e| e.entrypoint == fn_name)
            .unwrap_or_else(|| panic!("{fn_name} not in matrix"));
        assert_eq!(entry.requirement, AuthRequirement::SpenderAuth, "{fn_name} should require SpenderAuth");
        assert_eq!(entry.expected_caller, CallerKind::Spender);
    }
}

#[test]
fn test_tycoon_token_matrix_no_read_only_entry_requires_auth() {
    let matrix = tycoon_token_auth_matrix();
    for entry in matrix {
        if entry.is_read_only {
            assert_eq!(
                entry.requirement,
                AuthRequirement::NoAuth,
                "read-only entrypoint '{}' must not require auth",
                entry.entrypoint
            );
        }
    }
}

#[test]
fn test_tycoon_token_matrix_no_admin_entry_is_read_only() {
    let matrix = tycoon_token_auth_matrix();
    for entry in matrix {
        if entry.requires_admin() {
            assert!(
                !entry.is_read_only,
                "admin-only entrypoint '{}' must not be read-only",
                entry.entrypoint
            );
        }
    }
}

#[test]
fn test_caller_kind_used_in_match() {
    let kind = CallerKind::Spender;
    let label = match kind {
        CallerKind::Admin => "admin",
        CallerKind::Owner => "owner",
        CallerKind::Spender => "spender",
        CallerKind::AnyContract => "any",
        CallerKind::NoCaller => "none",
    };
    assert_eq!(label, "spender");
}

#[test]
fn test_auth_requirement_used_in_match() {
    let req = AuthRequirement::SpenderAuth;
    let requires_sig = match req {
        AuthRequirement::NoAuth => false,
        _ => true,
    };
    assert!(requires_sig);
}

#[test]
fn test_all_matrix_entries_have_consistent_read_only_flag() {
    let matrix = tycoon_token_auth_matrix();
    let write_count = matrix.iter().filter(|e| !e.is_read_only).count();
    let read_count = matrix.iter().filter(|e| e.is_read_only).count();
    assert!(write_count > 0, "expected at least one write entrypoint");
    assert!(read_count > 0, "expected at least one read-only entrypoint");
    assert_eq!(write_count + read_count, matrix.len());
}

#[test]
fn test_matrix_rows_in_order_and_initialize_is_unauthenticated_write() {
    let matrix = tycoon_token_auth_matrix();
    assert_eq!(matrix.len(), 15);
    assert_eq!(matrix[0].entrypoint, "initialize");
    assert_eq!(matrix[0].requirement, AuthRequirement::NoAuth);
    assert_eq!(matrix[0].expected_caller, CallerKind::NoCaller);
    assert!(!matrix[0].is_read_only);
    assert!(matrix[0].is_freely_callable());
    assert_eq!(matrix[14].entrypoint, "admin");
}
