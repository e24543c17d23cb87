//! The cross-contract auth matrix: who must sign for which entrypoint.
use vstd::prelude::*;

verus! {

/// The kind of entity making a cross-contract call.
#[derive(Clone, Copy, Debug, PartialEq, Eq, Structural)]
pub enum CallerKind {
    /// The designated admin of the target contract.
    Admin,
    /// The owner of a resource (such as a token balance).
    Owner,
    /// An address pre-approved by an owner via `approve`.
    Spender,
    /// An arbitrary contract address, with no pre-established trust.
    AnyContract,
    /// No caller required (read-only or public initialisation).
    NoCaller,
}

/// The auth requirement an entrypoint imposes.
#[derive(Clone, Copy, Debug, PartialEq, Eq, Structural)]
pub enum AuthRequirement {
    /// The entrypoint calls `admin.require_auth()`.
    AdminAuth,
    /// The entrypoint calls `require_auth()` on the resource owner.
    OwnerAuth,
    /// The entrypoint calls `spender.require_auth()`.
    SpenderAuth,
    /// Any authenticated caller is accepted.
    AnyAuth,
    /// No auth required (pure reads or one-time initialisation).
    NoAuth,
}

/// One row of the cross-contract auth matrix.
#[derive(Clone, Debug, PartialEq, Eq)]
pub struct AuthMatrixEntry {
    /// Name of the target entrypoint.
    pub entrypoint: &'static str,
    /// Auth requirement imposed by the entrypoint.
    pub requirement: AuthRequirement,
    /// Expected kind of cross-contract caller.
    pub expected_caller: CallerKind,
    /// Whether the entrypoint only reads.
    pub is_read_only: bool,
}

impl AuthMatrixEntry {
    /// Whether this entry requires admin-level auth.
    pub fn requires_admin(&self) -> (r: bool)
        ensures
            r == (self.requirement == AuthRequirement::AdminAuth),
    {
        self.requirement == AuthRequirement::AdminAuth
    }

    /// Whether this entrypoint can be called without a pre-arranged signature.
    pub fn is_freely_callable(&self) -> (r: bool)
        ensures
            r == (self.requirement == AuthRequirement::NoAuth),
    {
        self.requirement == AuthRequirement::NoAuth
    }
}

/// A row of the matrix.
pub open spec fn row(
    entrypoint: &'static str,
    requirement: AuthRequirement,
    expected_caller: CallerKind,
    is_read_only: bool,
) -> AuthMatrixEntry {
    AuthMatrixEntry { entrypoint, requirement, expected_caller, is_read_only }
}

/// The auth matrix of the Tycoon token, row by row.
pub open spec fn spec_token_auth_matrix() -> Seq<AuthMatrixEntry> {
    seq![
        row("initialize", AuthRequirement::NoAuth, CallerKind::NoCaller, false),
        row("mint", AuthRequirement::AdminAuth, CallerKind::Admin, false),
        row("set_admin", AuthRequirement::AdminAuth, CallerKind::Admin, false),
        row("transfer", AuthRequirement::OwnerAuth, CallerKind::Owner, false),
        row("transfer_from", AuthRequirement::SpenderAuth, CallerKind::Spender, false),
        row("approve", AuthRequirement::OwnerAuth, CallerKind::Owner, false),
        row("burn", AuthRequirement::OwnerAuth, CallerKind::Owner, false),
        row("burn_from", AuthRequirement::SpenderAuth, CallerKind::Spender, false),
        row("balance", AuthRequirement::NoAuth, CallerKind::AnyContract, true),
        row("allowance", AuthRequirement::NoAuth, CallerKind::AnyContract, true),
        row("total_supply", AuthRequirement::NoAuth, CallerKind::AnyContract, true),
        row("decimals", AuthRequirement::NoAuth, CallerKind::AnyContract, true),
        row("name", AuthRequirement::NoAuth, CallerKind::AnyContract, true),
        row("symbol", AuthRequirement::NoAuth, CallerKind::AnyContract, true),
        row("admin", AuthRequirement::NoAuth, CallerKind::AnyContract, true),
    ]
}

/// The canonical cross-contract auth matrix of the Tycoon token: a static
/// description of its entrypoints and the auth each requires. No read-only
/// entry requires auth, and no admin entry is read-only.
pub fn tycoon_token_auth_matrix() -> (m: Vec<AuthMatrixEntry>)
    ensures
        m@ == spec_token_auth_matrix(),
        forall|i: int| 0 <= i < m@.len() && #[trigger] m@[i].is_read_only ==> m@[i].requirement == AuthRequirement::NoAuth,
        forall|i: int| 0 <= i < m@.len() && #[trigger] m@[i].requirement == AuthRequirement::AdminAuth ==> !m@[i].is_read_only,
        forall|i: int| 0 <= i < m@.len() ==> caller_matches_requirement(#[trigger] m@[i]),
{
    proof {
        lemma_matrix_callers_match_requirements();
    }
    let mut m: Vec<AuthMatrixEntry> = Vec::new();
    m.push(AuthMatrixEntry { entrypoint: "initialize", requirement: AuthRequirement::NoAuth, expected_caller: CallerKind::NoCaller, is_read_only: false });
    m.push(AuthMatrixEntry { entrypoint: "mint", requirement: AuthRequirement::AdminAuth, expected_caller: CallerKind::Admin, is_read_only: false });
    m.push(AuthMatrixEntry { entrypoint: "set_admin", requirement: AuthRequirement::AdminAuth, expected_caller: CallerKind::Admin, is_read_only: false });
    m.push(AuthMatrixEntry { entrypoint: "transfer", requirement: AuthRequirement::OwnerAuth, expected_caller: CallerKind::Owner, is_read_only: false });
    m.push(AuthMatrixEntry { entrypoint: "transfer_from", requirement: AuthRequirement::SpenderAuth, expected_caller: CallerKind::Spender, is_read_only: false });
    m.push(AuthMatrixEntry { entrypoint: "approve", requirement: AuthRequirement::OwnerAuth, expected_caller: CallerKind::Owner, is_read_only: false });
    m.push(AuthMatrixEntry { entrypoint: "burn", requirement: AuthRequirement::OwnerAuth, expected_caller: CallerKind::Owner, is_read_only: false });
    m.push(AuthMatrixEntry { entrypoint: "burn_from", requirement: AuthRequirement::SpenderAuth, expected_caller: CallerKind::Spender, is_read_only: false });
    m.push(AuthMatrixEntry { entrypoint: "balance", requirement: AuthRequirement::NoAuth, expected_caller: CallerKind::AnyContract, is_read_only: true });
    m.push(AuthMatrixEntry { entrypoint: "allowance", requirement: AuthRequirement::NoAuth, expected_caller: CallerKind::AnyContract, is_read_only: true });
    m.push(AuthMatrixEntry { entrypoint: "total_supply", requirement: AuthRequirement::NoAuth, expected_caller: CallerKind::AnyContract, is_read_only: true });
    m.push(AuthMatrixEntry { entrypoint: "decimals", requirement: AuthRequirement::NoAuth, expected_caller: CallerKind::AnyContract, is_read_only: true });
    m.push(AuthMatrixEntry { entrypoint: "name", requirement: AuthRequirement::NoAuth, expected_caller: CallerKind::AnyContract, is_read_only: true });
    m.push(AuthMatrixEntry { entrypoint: "symbol", requirement: AuthRequirement::NoAuth, expected_caller: CallerKind::AnyContract, is_read_only: true });
    m.push(AuthMatrixEntry { entrypoint: "admin", requirement: AuthRequirement::NoAuth, expected_caller: CallerKind::AnyContract, is_read_only: true });
    assert(m@ =~= spec_token_auth_matrix());
    m
}

/// The caller kind a row expects follows from its auth requirement: admin
/// auth is met by the admin, owner auth by the owner, spender auth by a
/// spender; a read-only entrypoint may be called by any contract, and an
/// unauthenticated write (one-time initialisation) expects no caller.
pub open spec fn caller_matches_requirement(e: AuthMatrixEntry) -> bool {
    &&& e.requirement == AuthRequirement::AdminAuth ==> e.expected_caller == CallerKind::Admin
    &&& e.requirement == AuthRequirement::OwnerAuth ==> e.expected_caller == CallerKind::Owner
    &&& e.requirement == AuthRequirement::SpenderAuth ==> e.expected_caller == CallerKind::Spender
    &&& e.is_read_only ==> e.requirement == AuthRequirement::NoAuth && e.expected_caller == CallerKind::AnyContract
    &&& (e.requirement == AuthRequirement::NoAuth && !e.is_read_only) ==> e.expected_caller == CallerKind::NoCaller
}

/// Every row of the token's matrix expects the caller its requirement calls for.
pub proof fn lemma_matrix_callers_match_requirements()
    ensures
        forall|i: int| 0 <= i < spec_token_auth_matrix().len() ==> caller_matches_requirement(#[trigger] spec_token_auth_matrix()[i]),
{
}

/// The token's entrypoints, looked up by name: `mint` and `set_admin` need
/// the admin; `transfer`, `approve` and `burn` the owner; `transfer_from`
/// and `burn_from` a spender; `initialize` needs no signature and writes;
/// the queries are read-only and callable by any contract. Each of these
/// fifteen names has a row, and there are no others.
pub proof fn lemma_matrix_by_name()
    ensures
        forall|i: int| 0 <= i < spec_token_auth_matrix().len() ==> {
            let e = #[trigger] spec_token_auth_matrix()[i];
            &&& (e.entrypoint@ == "mint"@ || e.entrypoint@ == "set_admin"@) ==> (e.requirement
                == AuthRequirement::AdminAuth && e.expected_caller == CallerKind::Admin && !e.is_read_only)
            &&& (e.entrypoint@ == "transfer"@ || e.entrypoint@ == "approve"@ || e.entrypoint@ == "burn"@)
                ==> (e.requirement == AuthRequirement::OwnerAuth && e.expected_caller == CallerKind::Owner
                && !e.is_read_only)
            &&& (e.entrypoint@ == "transfer_from"@ || e.entrypoint@ == "burn_from"@) ==> (e.requirement
                == AuthRequirement::SpenderAuth && e.expected_caller == CallerKind::Spender && !e.is_read_only)
            &&& e.entrypoint@ == "initialize"@ ==> (e.requirement == AuthRequirement::NoAuth
                && e.expected_caller == CallerKind::NoCaller && !e.is_read_only)
            &&& (e.entrypoint@ == "balance"@ || e.entrypoint@ == "allowance"@ || e.entrypoint@ == "total_supply"@
                || e.entrypoint@ == "decimals"@ || e.entrypoint@ == "name"@ || e.entrypoint@ == "symbol"@
                || e.entrypoint@ == "admin"@) ==> (e.requirement == AuthRequirement::NoAuth
                && e.expected_caller == CallerKind::AnyContract && e.is_read_only)
        },
        spec_token_auth_matrix().len() == 15,
        spec_token_auth_matrix()[1].entrypoint@ == "mint"@,
        spec_token_auth_matrix()[2].entrypoint@ == "set_admin"@,
        spec_token_auth_matrix()[8].entrypoint@ == "balance"@,
        exists|i: int| 0 <= i < spec_token_auth_matrix().len() && #[trigger] spec_token_auth_matrix()[i].entrypoint@ == "initialize"@,
        exists|i: int| 0 <= i < spec_token_auth_matrix().len() && #[trigger] spec_token_auth_matrix()[i].entrypoint@ == "mint"@,
        exists|i: int| 0 <= i < spec_token_auth_matrix().len() && #[trigger] spec_token_auth_matrix()[i].entrypoint@ == "set_admin"@,
        exists|i: int| 0 <= i < spec_token_auth_matrix().len() && #[trigger] spec_token_auth_matrix()[i].entrypoint@ == "transfer"@,
        exists|i: int| 0 <= i < spec_token_auth_matrix().len() && #[trigger] spec_token_auth_matrix()[i].entrypoint@ == "transfer_from"@,
        exists|i: int| 0 <= i < spec_token_auth_matrix().len() && #[trigger] spec_token_auth_matrix()[i].entrypoint@ == "approve"@,
        exists|i: int| 0 <= i < spec_token_auth_matrix().len() && #[trigger] spec_token_auth_matrix()[i].entrypoint@ == "burn"@,
        exists|i: int| 0 <= i < spec_token_auth_matrix().len() && #[trigger] spec_token_auth_matrix()[i].entrypoint@ == "burn_from"@,
        exists|i: int| 0 <= i < spec_token_auth_matrix().len() && #[trigger] spec_token_auth_matrix()[i].entrypoint@ == "balance"@,
        exists|i: int| 0 <= i < spec_token_auth_matrix().len() && #[trigger] spec_token_auth_matrix()[i].entrypoint@ == "allowance"@,
        exists|i: int| 0 <= i < spec_token_auth_matrix().len() && #[trigger] spec_token_auth_matrix()[i].entrypoint@ == "total_supply"@,
        exists|i: int| 0 <= i < spec_token_auth_matrix().len() && #[trigger] spec_token_auth_matrix()[i].entrypoint@ == "decimals"@,
        exists|i: int| 0 <= i < spec_token_auth_matrix().len() && #[trigger] spec_token_auth_matrix()[i].entrypoint@ == "name"@,
        exists|i: int| 0 <= i < spec_token_auth_matrix().len() && #[trigger] spec_token_auth_matrix()[i].entrypoint@ == "symbol"@,
        exists|i: int| 0 <= i < spec_token_auth_matrix().len() && #[trigger] spec_token_auth_matrix()[i].entrypoint@ == "admin"@,
{
    reveal_strlit("initialize");
    reveal_strlit("mint");
    reveal_strlit("set_admin");
    reveal_strlit("transfer");
    reveal_strlit("transfer_from");
    reveal_strlit("approve");
    reveal_strlit("burn");
    reveal_strlit("burn_from");
    reveal_strlit("balance");
    reveal_strlit("allowance");
    reveal_strlit("total_supply");
    reveal_strlit("decimals");
    reveal_strlit("name");
    reveal_strlit("symbol");
    reveal_strlit("admin");
    let m = spec_token_auth_matrix();
    assert(m[0].entrypoint@ == "initialize"@);
    assert(m[1].entrypoint@ == "mint"@);
    assert(m[2].entrypoint@ == "set_admin"@);
    assert(m[3].entrypoint@ == "transfer"@);
    assert(m[4].entrypoint@ == "transfer_from"@);
    assert(m[5].entrypoint@ == "approve"@);
    assert(m[6].entrypoint@ == "burn"@);
    assert(m[7].entrypoint@ == "burn_from"@);
    assert(m[8].entrypoint@ == "balance"@);
    assert(m[9].entrypoint@ == "allowance"@);
    assert(m[10].entrypoint@ == "total_supply"@);
    assert(m[11].entrypoint@ == "decimals"@);
    assert(m[12].entrypoint@ == "name"@);
    assert(m[13].entrypoint@ == "symbol"@);
    assert(m[14].entrypoint@ == "admin"@);
    assert forall|i: int| 0 <= i < m.len() implies {
        let e = #[trigger] m[i];
        &&& (e.entrypoint@ == "mint"@ || e.entrypoint@ == "set_admin"@) ==> (e.requirement
            == AuthRequirement::AdminAuth && e.expected_caller == CallerKind::Admin && !e.is_read_only)
        &&& (e.entrypoint@ == "transfer"@ || e.entrypoint@ == "approve"@ || e.entrypoint@ == "burn"@)
            ==> (e.requirement == AuthRequirement::OwnerAuth && e.expected_caller == CallerKind::Owner
            && !e.is_read_only)
        &&& (e.entrypoint@ == "transfer_from"@ || e.entrypoint@ == "burn_from"@) ==> (e.requirement
            == AuthRequirement::SpenderAuth && e.expected_caller == CallerKind::Spender && !e.is_read_only)
        &&& e.entrypoint@ == "initialize"@ ==> (e.requirement == AuthRequirement::NoAuth
            && e.expected_caller == CallerKind::NoCaller && !e.is_read_only)
        &&& (e.entrypoint@ == "balance"@ || e.entrypoint@ == "allowance"@ || e.entrypoint@ == "total_supply"@
            || e.entrypoint@ == "decimals"@ || e.entrypoint@ == "name"@ || e.entrypoint@ == "symbol"@
            || e.entrypoint@ == "admin"@) ==> (e.requirement == AuthRequirement::NoAuth
            && e.expected_caller == CallerKind::AnyContract && e.is_read_only)
    } by {
        // The fifteen names differ in their length or in one of these characters.
        let n = m[i].entrypoint@;
        assert(n.len() > 0);
        assert(n[0] == m[i].entrypoint@[0]);
        if n.len() > 1 {
            assert(n[1] == m[i].entrypoint@[1]);
        }
        if n.len() > 2 {
            assert(n[2] == m[i].entrypoint@[2]);
        }
        if n.len() > 4 {
            assert(n[4] == m[i].entrypoint@[4]);
        }
        if n.len() > 8 {
            assert(n[8] == m[i].entrypoint@[8]);
        }
    }
}

} // verus!
