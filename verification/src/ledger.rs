//! A ledger-level model of the Tycoon token: the storage that the contract
//! keeps, each entrypoint as a transition of it defined by the decision
//! functions of `token`, and the laws that every transition keeps.
use vstd::prelude::*;

use crate::token::{
    allowance_expired, stored_allowance,
    spec_allowance, spec_approve, spec_burn, spec_burn_from, spec_initialize, spec_mint,
    spec_transfer, spec_transfer_from, AllowanceValue, BurnPlan, TokenError,
};

verus! {

/// The amount held under `k`, an absent entry counting as zero.
pub open spec fn amount_at<A>(m: Map<A, i128>, k: A) -> int {
    if m.contains_key(k) { m[k] as int } else { 0 }
}

/// The sum of all amounts of a finite map (0 for an infinite one).
pub open spec fn sum_balances<A>(m: Map<A, i128>) -> int
    decreases m.dom().len(),
{
    if m.dom().finite() && m.dom().len() > 0 {
        let k = m.dom().choose();
        proof {
            assert(m.remove(k).dom() =~= m.dom().remove(k));
        }
        m[k] + sum_balances(m.remove(k))
    } else {
        0
    }
}

/// Every amount of the map is at least zero.
pub open spec fn all_nonnegative<A>(m: Map<A, i128>) -> bool {
    forall|k: A| m.contains_key(k) ==> m[k] >= 0
}

/// Taking one entry out of a finite map takes its amount out of the sum.
pub proof fn lemma_sum_remove<A>(m: Map<A, i128>, k: A)
    requires
        m.dom().finite(),
    ensures
        sum_balances(m) == amount_at(m, k) + sum_balances(m.remove(k)),
    decreases m.dom().len(),
{
    if !m.contains_key(k) {
        assert(m.remove(k) =~= m);
    } else {
        assert(m.dom().len() > 0);
        let c = m.dom().choose();
        assert(m.remove(c).dom() =~= m.dom().remove(c));
        if c != k {
            assert(m.remove(k).dom() =~= m.dom().remove(k));
            lemma_sum_remove(m.remove(c), k);
            lemma_sum_remove(m.remove(k), c);
            assert(m.remove(c).remove(k) =~= m.remove(k).remove(c));
        }
    }
}

/// Setting one entry of a finite map changes the sum by the difference.
pub proof fn lemma_sum_insert<A>(m: Map<A, i128>, k: A, v: i128)
    requires
        m.dom().finite(),
    ensures
        sum_balances(m.insert(k, v)) == sum_balances(m) - amount_at(m, k) + v,
{
    lemma_sum_remove(m.insert(k, v), k);
    lemma_sum_remove(m, k);
    assert(m.insert(k, v).remove(k) =~= m.remove(k));
}

/// A finite map of non-negative amounts has a non-negative sum at least as
/// large as any one amount.
pub proof fn lemma_sum_bounds<A>(m: Map<A, i128>, k: A)
    requires
        m.dom().finite(),
        all_nonnegative(m),
    ensures
        sum_balances(m) >= 0,
        amount_at(m, k) <= sum_balances(m),
    decreases m.dom().len(),
{
    if m.dom().len() > 0 {
        let c = m.dom().choose();
        assert(m.remove(c).dom() =~= m.dom().remove(c));
        lemma_sum_bounds(m.remove(c), k);
    } else {
        assert(m.dom() =~= Set::empty());
    }
}

/// Two different entries of a finite map of non-negative amounts together
/// are at most the sum.
pub proof fn lemma_two_amounts_at_most_sum<A>(m: Map<A, i128>, a: A, b: A)
    requires
        m.dom().finite(),
        all_nonnegative(m),
        a != b,
    ensures
        amount_at(m, a) + amount_at(m, b) <= sum_balances(m),
{
    lemma_sum_remove(m, a);
    assert(m.remove(a).dom() =~= m.dom().remove(a));
    lemma_sum_bounds(m.remove(a), b);
}

/// The storage of one token contract, accounts being of type `A`.
#[verifier::reject_recursive_types(A)]
pub struct TokenLedger<A> {
    /// The one-time initialisation flag is stored.
    pub initialized: bool,
    /// The stored admin, if any.
    pub admin: Option<A>,
    /// The stored total supply, if any.
    pub total_supply: Option<i128>,
    /// The stored balance entries.
    pub balances: Map<A, i128>,
    /// The stored allowance entries, keyed by owner and spender.
    pub allowances: Map<(A, A), AllowanceValue>,
}

/// The storage of a freshly deployed contract: nothing is stored.
pub open spec fn empty_ledger<A>() -> TokenLedger<A> {
    TokenLedger {
        initialized: false,
        admin: None,
        total_supply: None,
        balances: Map::empty(),
        allowances: Map::empty(),
    }
}

/// The balance an account reads: 0 when it has no entry.
pub open spec fn balance_of<A>(l: TokenLedger<A>, id: A) -> i128 {
    if l.balances.contains_key(id) { l.balances[id] } else { 0 }
}

/// The total supply the token reports: 0 before initialisation.
pub open spec fn supply_of<A>(l: TokenLedger<A>) -> i128 {
    match l.total_supply {
        Some(s) => s,
        None => 0,
    }
}

/// The stored allowance entry of `spender` over `from`'s balance.
pub open spec fn allowance_entry<A>(l: TokenLedger<A>, from: A, spender: A) -> Option<AllowanceValue> {
    if l.allowances.contains_key((from, spender)) {
        Some(l.allowances[(from, spender)])
    } else {
        None
    }
}

/// The allowance `spender` can use over `from`'s balance at `ledger`.
pub open spec fn allowance_of<A>(l: TokenLedger<A>, from: A, spender: A, ledger: u32) -> i128 {
    spec_allowance(allowance_entry(l, from, spender), ledger)
}

/// The invariant of the token's storage: balances are finite and
/// non-negative, their sum is the total supply, allowances are
/// non-negative, and the admin, the supply and the flag are stored
/// together at initialisation, before which no balance exists.
pub open spec fn well_formed<A>(l: TokenLedger<A>) -> bool {
    &&& l.balances.dom().finite()
    &&& all_nonnegative(l.balances)
    &&& sum_balances(l.balances) == supply_of(l) as int
    &&& forall|k: (A, A)| l.allowances.contains_key(k) ==> #[trigger] l.allowances[k].amount >= 0
    &&& l.initialized == (l.admin is Some)
    &&& l.initialized == (l.total_supply is Some)
    &&& !l.initialized ==> l.balances.dom() =~= Set::<A>::empty()
}

/// `initialize(admin, initial_supply)`.
pub open spec fn ledger_initialize<A>(l: TokenLedger<A>, admin: A, initial_supply: i128) -> Result<TokenLedger<A>, TokenError> {
    match spec_initialize(l.initialized, initial_supply) {
        Err(e) => Err(e),
        Ok(s) => Ok(TokenLedger {
            initialized: true,
            admin: Some(admin),
            total_supply: Some(s),
            balances: l.balances.insert(admin, s),
            allowances: l.allowances,
        }),
    }
}

/// `mint(to, amount)`: the admin must be stored (its signature is the host's matter).
pub open spec fn ledger_mint<A>(l: TokenLedger<A>, to: A, amount: i128) -> Result<TokenLedger<A>, TokenError> {
    if l.admin is None {
        Err(TokenError::NotInitialized)
    } else {
        match spec_mint(balance_of(l, to), l.total_supply, amount) {
            Err(e) => Err(e),
            Ok(p) => Ok(TokenLedger {
                total_supply: Some(p.total_supply),
                balances: l.balances.insert(to, p.balance),
                ..l
            }),
        }
    }
}

/// `set_admin(new_admin)`: the current admin must be stored.
pub open spec fn ledger_set_admin<A>(l: TokenLedger<A>, new_admin: A) -> Result<TokenLedger<A>, TokenError> {
    if l.admin is None {
        Err(TokenError::NotInitialized)
    } else {
        Ok(TokenLedger { admin: Some(new_admin), ..l })
    }
}

/// `approve(from, spender, amount, expiration_ledger)`.
pub open spec fn ledger_approve<A>(l: TokenLedger<A>, from: A, spender: A, amount: i128, expiration_ledger: u32) -> Result<TokenLedger<A>, TokenError> {
    match spec_approve(amount, expiration_ledger) {
        Err(e) => Err(e),
        Ok(v) => Ok(TokenLedger { allowances: l.allowances.insert((from, spender), v), ..l }),
    }
}

/// `transfer(from, to, amount)`.
pub open spec fn ledger_transfer<A>(l: TokenLedger<A>, from: A, to: A, amount: i128) -> Result<TokenLedger<A>, TokenError> {
    match spec_transfer(balance_of(l, from), balance_of(l, to), from == to, amount) {
        Err(e) => Err(e),
        Ok(None) => Ok(l),
        Ok(Some(p)) => Ok(TokenLedger {
            balances: l.balances.insert(from, p.from_balance).insert(to, p.to_balance),
            ..l
        }),
    }
}

/// `transfer_from(spender, from, to, amount)` at ledger `ledger`.
pub open spec fn ledger_transfer_from<A>(l: TokenLedger<A>, spender: A, from: A, to: A, amount: i128, ledger: u32) -> Result<TokenLedger<A>, TokenError> {
    match spec_transfer_from(allowance_entry(l, from, spender), ledger, balance_of(l, from), balance_of(l, to), from == to, amount) {
        Err(e) => Err(e),
        Ok(None) => Ok(l),
        Ok(Some(p)) => Ok(TokenLedger {
            allowances: l.allowances.insert((from, spender), p.allowance),
            balances: l.balances.insert(from, p.from_balance).insert(to, p.to_balance),
            ..l
        }),
    }
}

/// The balance entries after a burn from `from`: removed when emptied.
pub open spec fn burnt_balances<A>(balances: Map<A, i128>, from: A, p: BurnPlan) -> Map<A, i128> {
    if p.clear_balance { balances.remove(from) } else { balances.insert(from, p.balance) }
}

/// `burn(from, amount)`.
pub open spec fn ledger_burn<A>(l: TokenLedger<A>, from: A, amount: i128) -> Result<TokenLedger<A>, TokenError> {
    match spec_burn(balance_of(l, from), l.total_supply, amount) {
        Err(e) => Err(e),
        Ok(p) => Ok(TokenLedger {
            total_supply: Some(p.total_supply),
            balances: burnt_balances(l.balances, from, p),
            ..l
        }),
    }
}

/// `burn_from(spender, from, amount)` at ledger `ledger`.
pub open spec fn ledger_burn_from<A>(l: TokenLedger<A>, spender: A, from: A, amount: i128, ledger: u32) -> Result<TokenLedger<A>, TokenError> {
    match spec_burn_from(allowance_entry(l, from, spender), ledger, balance_of(l, from), l.total_supply, amount) {
        Err(e) => Err(e),
        Ok(p) => Ok(TokenLedger {
            allowances: l.allowances.insert((from, spender), p.allowance),
            total_supply: Some(p.burn.total_supply),
            balances: burnt_balances(l.balances, from, p.burn),
            ..l
        }),
    }
}

/// The storage of a freshly deployed contract satisfies the invariant.
pub proof fn lemma_empty_ledger_well_formed<A>()
    ensures
        well_formed(empty_ledger::<A>()),
{
    let l = empty_ledger::<A>();
    assert(l.balances.dom() =~= Set::<A>::empty());
    assert(sum_balances(l.balances) == 0);
}

/// Initialisation keeps the invariant, gives the whole initial supply to
/// the admin, and cannot be repeated: every later initialisation is refused.
pub proof fn lemma_initialize_keeps_invariant<A>(l: TokenLedger<A>, admin: A, initial_supply: i128)
    requires
        well_formed(l),
        ledger_initialize(l, admin, initial_supply) is Ok,
    ensures
        well_formed(ledger_initialize(l, admin, initial_supply)->Ok_0),
        supply_of(ledger_initialize(l, admin, initial_supply)->Ok_0) == initial_supply,
        balance_of(ledger_initialize(l, admin, initial_supply)->Ok_0, admin) == initial_supply,
        ledger_initialize(l, admin, initial_supply)->Ok_0.admin == Some(admin),
        forall|other: A, supply: i128| #[trigger] ledger_initialize(ledger_initialize(l, admin, initial_supply)->Ok_0, other, supply)
            == Err::<TokenLedger<A>, TokenError>(TokenError::AlreadyInitialized),
{
    lemma_sum_insert(l.balances, admin, initial_supply);
    assert(amount_at(l.balances, admin) == 0);
}

/// Minting keeps the invariant, and adds `amount` to the recipient's
/// balance and to the total supply, leaving every other balance as it was.
pub proof fn lemma_mint_keeps_invariant<A>(l: TokenLedger<A>, to: A, amount: i128)
    requires
        well_formed(l),
        ledger_mint(l, to, amount) is Ok,
    ensures
        well_formed(ledger_mint(l, to, amount)->Ok_0),
        supply_of(ledger_mint(l, to, amount)->Ok_0) == supply_of(l) + amount,
        balance_of(ledger_mint(l, to, amount)->Ok_0, to) == balance_of(l, to) + amount,
        forall|a: A| a != to ==> balance_of(#[trigger] ledger_mint(l, to, amount)->Ok_0, a) == balance_of(l, a),
{
    let l2 = ledger_mint(l, to, amount)->Ok_0;
    lemma_sum_insert(l.balances, to, l2.balances[to]);
    assert(amount_at(l.balances, to) == balance_of(l, to));
    assert forall|a: A| a != to implies balance_of(l2, a) == balance_of(l, a) by {}
}

/// Rotating the admin keeps the invariant and touches nothing else.
pub proof fn lemma_set_admin_keeps_invariant<A>(l: TokenLedger<A>, new_admin: A)
    requires
        well_formed(l),
        ledger_set_admin(l, new_admin) is Ok,
    ensures
        well_formed(ledger_set_admin(l, new_admin)->Ok_0),
        ledger_set_admin(l, new_admin)->Ok_0.admin == Some(new_admin),
        ledger_set_admin(l, new_admin)->Ok_0.balances == l.balances,
        supply_of(ledger_set_admin(l, new_admin)->Ok_0) == supply_of(l),
{
}

/// Approving keeps the invariant, and what the spender can then use is the
/// approved amount, unless the approval has already expired.
pub proof fn lemma_approve_then_allowance<A>(
    l: TokenLedger<A>,
    from: A,
    spender: A,
    amount: i128,
    expiration_ledger: u32,
    ledger: u32,
)
    requires
        well_formed(l),
        ledger_approve(l, from, spender, amount, expiration_ledger) is Ok,
    ensures
        well_formed(ledger_approve(l, from, spender, amount, expiration_ledger)->Ok_0),
        allowance_of(ledger_approve(l, from, spender, amount, expiration_ledger)->Ok_0, from, spender, ledger)
            == (if expiration_ledger > 0 && ledger > expiration_ledger { 0 } else { amount }),
        ledger_approve(l, from, spender, amount, expiration_ledger)->Ok_0.balances == l.balances,
{
    let l2 = ledger_approve(l, from, spender, amount, expiration_ledger)->Ok_0;
    assert forall|k: (A, A)| l2.allowances.contains_key(k) implies #[trigger] l2.allowances[k].amount >= 0 by {
        if k != (from, spender) {
            assert(l.allowances.contains_key(k));
        }
    }
}

/// The balance entries after a move of `amount` from `from` to `to`.
proof fn lemma_move_sum<A>(m: Map<A, i128>, from: A, to: A, new_from: i128, new_to: i128)
    requires
        m.dom().finite(),
    ensures
        from != to ==> sum_balances(m.insert(from, new_from).insert(to, new_to))
            == sum_balances(m) - amount_at(m, from) - amount_at(m, to) + new_from + new_to,
        from == to ==> sum_balances(m.insert(from, new_from).insert(to, new_to))
            == sum_balances(m) - amount_at(m, from) + new_to,
{
    lemma_sum_insert(m, from, new_from);
    lemma_sum_insert(m.insert(from, new_from), to, new_to);
    if from == to {
        assert(m.insert(from, new_from).insert(to, new_to) =~= m.insert(to, new_to));
        lemma_sum_insert(m, to, new_to);
    }
}

/// A transfer keeps the invariant and the total supply: a positive amount
/// leaves the sender and reaches the recipient (a self-transfer changes
/// nothing), and every other balance stays as it was.
pub proof fn lemma_transfer_keeps_invariant<A>(l: TokenLedger<A>, from: A, to: A, amount: i128)
    requires
        well_formed(l),
        ledger_transfer(l, from, to, amount) is Ok,
    ensures
        well_formed(ledger_transfer(l, from, to, amount)->Ok_0),
        supply_of(ledger_transfer(l, from, to, amount)->Ok_0) == supply_of(l),
        from != to ==> balance_of(ledger_transfer(l, from, to, amount)->Ok_0, from) == balance_of(l, from) - amount,
        from != to ==> balance_of(ledger_transfer(l, from, to, amount)->Ok_0, to) == balance_of(l, to) + amount,
        from == to ==> balance_of(ledger_transfer(l, from, to, amount)->Ok_0, from) == balance_of(l, from),
        forall|a: A| a != from && a != to ==> balance_of(#[trigger] ledger_transfer(l, from, to, amount)->Ok_0, a) == balance_of(l, a),
{
    let l2 = ledger_transfer(l, from, to, amount)->Ok_0;
    if amount > 0 {
        let p = spec_transfer(balance_of(l, from), balance_of(l, to), from == to, amount)->Ok_0->Some_0;
        assert(p.from_balance == balance_of(l, from) - amount);
        assert(p.to_balance == if from == to { balance_of(l, from) as int } else { balance_of(l, to) + amount });
        lemma_move_sum(l.balances, from, to, p.from_balance, p.to_balance);
        assert(amount_at(l.balances, from) == balance_of(l, from));
        assert(amount_at(l.balances, to) == balance_of(l, to));
        assert(l.initialized) by {
            if !l.initialized {
                assert(!l.balances.contains_key(from));
            }
        }
    }
    assert forall|a: A| a != from && a != to implies balance_of(l2, a) == balance_of(l, a) by {}
}

/// A spend under an allowance keeps the invariant and the total supply,
/// moves the amount as a transfer does, and takes exactly the amount off
/// the allowance, whose expiration stays.
pub proof fn lemma_transfer_from_keeps_invariant<A>(l: TokenLedger<A>, spender: A, from: A, to: A, amount: i128, ledger: u32)
    requires
        well_formed(l),
        ledger_transfer_from(l, spender, from, to, amount, ledger) is Ok,
    ensures
        well_formed(ledger_transfer_from(l, spender, from, to, amount, ledger)->Ok_0),
        supply_of(ledger_transfer_from(l, spender, from, to, amount, ledger)->Ok_0) == supply_of(l),
        from != to ==> balance_of(ledger_transfer_from(l, spender, from, to, amount, ledger)->Ok_0, from) == balance_of(l, from) - amount,
        from != to ==> balance_of(ledger_transfer_from(l, spender, from, to, amount, ledger)->Ok_0, to) == balance_of(l, to) + amount,
        from == to ==> balance_of(ledger_transfer_from(l, spender, from, to, amount, ledger)->Ok_0, from) == balance_of(l, from),
        amount > 0 ==> allowance_entry(ledger_transfer_from(l, spender, from, to, amount, ledger)->Ok_0, from, spender)
            == Some(AllowanceValue {
                amount: (allowance_entry(l, from, spender)->Some_0.amount - amount) as i128,
                expiration_ledger: allowance_entry(l, from, spender)->Some_0.expiration_ledger,
            }),
        forall|a: A| a != from && a != to ==> balance_of(#[trigger] ledger_transfer_from(l, spender, from, to, amount, ledger)->Ok_0, a) == balance_of(l, a),
{
    let l2 = ledger_transfer_from(l, spender, from, to, amount, ledger)->Ok_0;
    if amount > 0 {
        let p = spec_transfer_from(allowance_entry(l, from, spender), ledger, balance_of(l, from), balance_of(l, to), from == to, amount)->Ok_0->Some_0;
        assert(p.from_balance == balance_of(l, from) - amount);
        assert(p.to_balance == if from == to { balance_of(l, from) as int } else { balance_of(l, to) + amount });
        lemma_move_sum(l.balances, from, to, p.from_balance, p.to_balance);
        assert(amount_at(l.balances, from) == balance_of(l, from));
        assert(amount_at(l.balances, to) == balance_of(l, to));
        assert(l.initialized) by {
            if !l.initialized {
                assert(!l.balances.contains_key(from));
            }
        }
        assert forall|k: (A, A)| l2.allowances.contains_key(k) implies #[trigger] l2.allowances[k].amount >= 0 by {
            if k != (from, spender) {
                assert(l.allowances.contains_key(k));
            }
        }
    }
    assert forall|a: A| a != from && a != to implies balance_of(l2, a) == balance_of(l, a) by {}
}

/// The balance entries after a burn, summed.
proof fn lemma_burn_sum<A>(m: Map<A, i128>, from: A, p: BurnPlan)
    requires
        m.dom().finite(),
        p.clear_balance ==> p.balance == 0,
    ensures
        sum_balances(burnt_balances(m, from, p)) == sum_balances(m) - amount_at(m, from) + p.balance,
{
    if p.clear_balance {
        lemma_sum_remove(m, from);
    } else {
        lemma_sum_insert(m, from, p.balance);
    }
}

/// A burn keeps the invariant and takes `amount` out of both the holder's
/// balance and the total supply; an emptied balance entry is removed.
pub proof fn lemma_burn_keeps_invariant<A>(l: TokenLedger<A>, from: A, amount: i128)
    requires
        well_formed(l),
        ledger_burn(l, from, amount) is Ok,
    ensures
        well_formed(ledger_burn(l, from, amount)->Ok_0),
        supply_of(ledger_burn(l, from, amount)->Ok_0) == supply_of(l) - amount,
        balance_of(ledger_burn(l, from, amount)->Ok_0, from) == balance_of(l, from) - amount,
        balance_of(l, from) == amount ==> !ledger_burn(l, from, amount)->Ok_0.balances.contains_key(from),
        forall|a: A| a != from ==> balance_of(#[trigger] ledger_burn(l, from, amount)->Ok_0, a) == balance_of(l, a),
{
    let l2 = ledger_burn(l, from, amount)->Ok_0;
    let p = spec_burn(balance_of(l, from), l.total_supply, amount)->Ok_0;
    lemma_burn_sum(l.balances, from, p);
    assert(amount_at(l.balances, from) == balance_of(l, from));
    assert forall|a: A| a != from implies balance_of(l2, a) == balance_of(l, a) by {}
}

/// A burn under an allowance keeps the invariant, burns as `burn` does and
/// takes exactly the amount off the allowance, whose expiration stays.
pub proof fn lemma_burn_from_keeps_invariant<A>(l: TokenLedger<A>, spender: A, from: A, amount: i128, ledger: u32)
    requires
        well_formed(l),
        ledger_burn_from(l, spender, from, amount, ledger) is Ok,
    ensures
        well_formed(ledger_burn_from(l, spender, from, amount, ledger)->Ok_0),
        supply_of(ledger_burn_from(l, spender, from, amount, ledger)->Ok_0) == supply_of(l) - amount,
        balance_of(ledger_burn_from(l, spender, from, amount, ledger)->Ok_0, from) == balance_of(l, from) - amount,
        allowance_entry(ledger_burn_from(l, spender, from, amount, ledger)->Ok_0, from, spender)
            == Some(AllowanceValue {
                amount: (allowance_entry(l, from, spender)->Some_0.amount - amount) as i128,
                expiration_ledger: allowance_entry(l, from, spender)->Some_0.expiration_ledger,
            }),
        forall|a: A| a != from ==> balance_of(#[trigger] ledger_burn_from(l, spender, from, amount, ledger)->Ok_0, a) == balance_of(l, a),
{
    let l2 = ledger_burn_from(l, spender, from, amount, ledger)->Ok_0;
    let p = spec_burn_from(allowance_entry(l, from, spender), ledger, balance_of(l, from), l.total_supply, amount)->Ok_0;
    lemma_burn_sum(l.balances, from, p.burn);
    assert(amount_at(l.balances, from) == balance_of(l, from));
    assert forall|k: (A, A)| l2.allowances.contains_key(k) implies #[trigger] l2.allowances[k].amount >= 0 by {
        if k != (from, spender) {
            assert(l.allowances.contains_key(k));
        }
    }
    assert forall|a: A| a != from implies balance_of(l2, a) == balance_of(l, a) by {}
}

/// In a well-formed ledger a balance never exceeds the total supply.
pub proof fn lemma_balance_at_most_supply<A>(l: TokenLedger<A>, id: A)
    requires
        well_formed(l),
    ensures
        0 <= balance_of(l, id) <= supply_of(l),
{
    lemma_sum_bounds(l.balances, id);
}

/// In a well-formed ledger a transfer succeeds exactly when the amount is
/// not negative and the sender holds it: no balance can overflow.
pub proof fn lemma_transfer_succeeds_iff<A>(l: TokenLedger<A>, from: A, to: A, amount: i128)
    requires
        well_formed(l),
    ensures
        ledger_transfer(l, from, to, amount) is Ok <==> 0 <= amount <= balance_of(l, from),
{
    lemma_balance_at_most_supply(l, from);
    if from != to {
        lemma_two_amounts_at_most_sum(l.balances, from, to);
    }
}

/// In a well-formed ledger a spend under an allowance succeeds exactly
/// when the amount is zero, or positive and covered both by an unexpired
/// allowance and by the owner's balance.
pub proof fn lemma_transfer_from_succeeds_iff<A>(l: TokenLedger<A>, spender: A, from: A, to: A, amount: i128, ledger: u32)
    requires
        well_formed(l),
    ensures
        ledger_transfer_from(l, spender, from, to, amount, ledger) is Ok <==> (amount == 0 || (amount > 0
            && !allowance_expired(stored_allowance(allowance_entry(l, from, spender)), ledger)
            && amount <= stored_allowance(allowance_entry(l, from, spender)).amount
            && amount <= balance_of(l, from))),
{
    lemma_balance_at_most_supply(l, from);
    if from != to {
        lemma_two_amounts_at_most_sum(l.balances, from, to);
    }
}

/// In a well-formed ledger minting succeeds exactly when the token is
/// initialised, the amount is positive and the total supply does not
/// overflow: no balance can overflow before the supply does.
pub proof fn lemma_mint_succeeds_iff<A>(l: TokenLedger<A>, to: A, amount: i128)
    requires
        well_formed(l),
    ensures
        ledger_mint(l, to, amount) is Ok <==> (l.admin is Some && amount > 0 && supply_of(l) + amount <= i128::MAX),
{
    lemma_balance_at_most_supply(l, to);
}

/// In a well-formed ledger a burn succeeds exactly when the amount is
/// positive and the holder has it: the supply cannot underflow.
pub proof fn lemma_burn_succeeds_iff<A>(l: TokenLedger<A>, from: A, amount: i128)
    requires
        well_formed(l),
    ensures
        ledger_burn(l, from, amount) is Ok <==> 0 < amount <= balance_of(l, from),
{
    lemma_balance_at_most_supply(l, from);
    if 0 < amount <= balance_of(l, from) {
        assert(l.balances.contains_key(from));
    }
}

/// In a well-formed ledger a burn under an allowance succeeds exactly when
/// the amount is positive and covered both by an unexpired allowance and
/// by the owner's balance.
pub proof fn lemma_burn_from_succeeds_iff<A>(l: TokenLedger<A>, spender: A, from: A, amount: i128, ledger: u32)
    requires
        well_formed(l),
    ensures
        ledger_burn_from(l, spender, from, amount, ledger) is Ok <==> (amount > 0
            && !allowance_expired(stored_allowance(allowance_entry(l, from, spender)), ledger)
            && amount <= stored_allowance(allowance_entry(l, from, spender)).amount
            && amount <= balance_of(l, from)),
{
    lemma_balance_at_most_supply(l, from);
    if 0 < amount <= balance_of(l, from) {
        assert(l.balances.contains_key(from));
    }
}

/// An entrypoint of the token together with the accounts that decide who
/// must sign it.
pub enum TokenOp<A> {
    Initialize,
    Mint,
    SetAdmin,
    Approve { from: A },
    Transfer { from: A },
    TransferFrom { spender: A },
    Burn { from: A },
    BurnFrom { spender: A },
    Read,
}

/// Whose signature an entrypoint requires in ledger state `l`: the stored
/// admin for `mint` and `set_admin`, the owner for the owner's own
/// operations, the spender for spends under an allowance, and nobody for
/// initialisation and reads. An admin operation on a ledger without an admin
/// has no signer that could satisfy it.
pub open spec fn required_signer<A>(l: TokenLedger<A>, op: TokenOp<A>) -> Option<A> {
    match op {
        TokenOp::Initialize => None,
        TokenOp::Mint => l.admin,
        TokenOp::SetAdmin => l.admin,
        TokenOp::Approve { from } => Some(from),
        TokenOp::Transfer { from } => Some(from),
        TokenOp::TransferFrom { spender } => Some(spender),
        TokenOp::Burn { from } => Some(from),
        TokenOp::BurnFrom { spender } => Some(spender),
        TokenOp::Read => None,
    }
}

/// Admin rotation takes effect at once: after `set_admin(new_admin)` the
/// signer that `mint` and `set_admin` require is `new_admin`, and no other
/// account, the previous admin included, is that signer.
pub proof fn lemma_set_admin_rotates_signer<A>(l: TokenLedger<A>, new_admin: A)
    requires
        ledger_set_admin(l, new_admin) is Ok,
    ensures
        required_signer(ledger_set_admin(l, new_admin)->Ok_0, TokenOp::Mint) == Some(new_admin),
        required_signer(ledger_set_admin(l, new_admin)->Ok_0, TokenOp::SetAdmin) == Some(new_admin),
        forall|other: A| other != new_admin ==> required_signer(
            ledger_set_admin(l, new_admin)->Ok_0,
            TokenOp::Mint,
        ) != Some(other),
{
}

/// Only the stored admin can mint: a mint that succeeds requires the
/// signature of the admin stored before it, and before initialisation no
/// mint succeeds at all.
pub proof fn lemma_mint_requires_admin<A>(l: TokenLedger<A>, to: A, amount: i128)
    requires
        ledger_mint(l, to, amount) is Ok,
    ensures
        l.admin is Some,
        required_signer(l, TokenOp::Mint) == l.admin,
        ledger_mint(l, to, amount)->Ok_0.admin == l.admin,
{
}

/// Only `initialize` and `set_admin` change whose signature admin
/// operations require: every other successful entrypoint keeps the admin.
pub proof fn lemma_admin_kept_by_other_operations<A>(
    l: TokenLedger<A>,
    a: A,
    b: A,
    c: A,
    amount: i128,
    expiration_ledger: u32,
    ledger: u32,
)
    ensures
        ledger_mint(l, a, amount) is Ok ==> ledger_mint(l, a, amount)->Ok_0.admin == l.admin,
        ledger_approve(l, a, b, amount, expiration_ledger) is Ok ==> ledger_approve(l, a, b, amount, expiration_ledger)->Ok_0.admin == l.admin,
        ledger_transfer(l, a, b, amount) is Ok ==> ledger_transfer(l, a, b, amount)->Ok_0.admin == l.admin,
        ledger_transfer_from(l, c, a, b, amount, ledger) is Ok ==> ledger_transfer_from(l, c, a, b, amount, ledger)->Ok_0.admin == l.admin,
        ledger_burn(l, a, amount) is Ok ==> ledger_burn(l, a, amount)->Ok_0.admin == l.admin,
        ledger_burn_from(l, c, a, amount, ledger) is Ok ==> ledger_burn_from(l, c, a, amount, ledger)->Ok_0.admin == l.admin,
{
}

/// On a ledger never initialised, initialisation succeeds exactly when the
/// initial supply is not negative, whatever its size; on an initialised
/// ledger it never succeeds.
pub proof fn lemma_initialize_succeeds_iff<A>(l: TokenLedger<A>, admin: A, initial_supply: i128)
    ensures
        !l.initialized ==> (ledger_initialize(l, admin, initial_supply) is Ok <==> initial_supply >= 0),
        l.initialized ==> ledger_initialize(l, admin, initial_supply) is Err,
{
}

/// Approval succeeds exactly on a non-negative amount, whatever its size,
/// and stores exactly the amount and expiration given.
pub proof fn lemma_approve_succeeds_iff<A>(l: TokenLedger<A>, from: A, spender: A, amount: i128, expiration_ledger: u32)
    ensures
        ledger_approve(l, from, spender, amount, expiration_ledger) is Ok <==> amount >= 0,
        amount >= 0 ==> allowance_entry(ledger_approve(l, from, spender, amount, expiration_ledger)->Ok_0, from, spender)
            == Some(AllowanceValue { amount, expiration_ledger }),
{
}

} // verus!
