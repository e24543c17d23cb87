//! Decision logic of the Tycoon token (a SEP-41 style fungible token).
//!
//! Each entrypoint of the token reads a few storage entries, decides, and
//! writes a few entries back. The functions here take the values that were
//! read and return either the error with which the entrypoint aborts or the
//! values that it writes. Authentication, storage access and events belong
//! to the host that runs the contract.
use vstd::prelude::*;

verus! {

/// An allowance: the amount a spender may still move, and the ledger after
/// which it expires (0 means it never expires).
#[derive(Clone, Copy, Debug, PartialEq, Eq, Structural)]
pub struct AllowanceValue {
    pub amount: i128,
    pub expiration_ledger: u32,
}

/// The reason a token entrypoint aborts.
#[derive(Clone, Copy, Debug, PartialEq, Eq, Structural)]
pub enum TokenError {
    /// `initialize` was already called.
    AlreadyInitialized,
    /// `initialize` got a negative initial supply.
    NegativeInitialSupply,
    /// `mint`, `burn` or `burn_from` got an amount that is zero or negative.
    AmountNotPositive,
    /// `approve`, `transfer` or `transfer_from` got a negative amount.
    NegativeAmount,
    /// The account holds less than the amount.
    InsufficientBalance,
    /// The allowance is smaller than the amount.
    InsufficientAllowance,
    /// The allowance has expired.
    AllowanceExpired,
    /// A balance would exceed the range of `i128`.
    BalanceOverflow,
    /// The total supply would exceed the range of `i128`.
    SupplyOverflow,
    /// The total supply would fall below the range of `i128`.
    SupplyUnderflow,
    /// The admin or the total supply is absent: the token was never initialised.
    NotInitialized,
}

impl TokenError {
    /// The message with which the entrypoint aborts on this error.
    pub fn message(&self) -> (msg: &'static str)
        ensures
            msg@ == spec_message(*self),
            *self == TokenError::AlreadyInitialized ==> msg@ == "Already initialized"@,
            *self == TokenError::NegativeInitialSupply ==> msg@ == "Initial supply cannot be negative"@,
            *self == TokenError::AmountNotPositive ==> msg@ == "Amount must be positive"@,
            *self == TokenError::NegativeAmount ==> msg@ == "Amount cannot be negative"@,
            *self == TokenError::InsufficientBalance ==> msg@ == "Insufficient balance"@,
            *self == TokenError::InsufficientAllowance ==> msg@ == "Insufficient allowance"@,
            *self == TokenError::AllowanceExpired ==> msg@ == "Allowance expired"@,
            *self == TokenError::BalanceOverflow ==> msg@ == "Balance overflow"@,
            *self == TokenError::SupplyOverflow ==> msg@ == "Supply overflow"@,
            *self == TokenError::SupplyUnderflow ==> msg@ == "Supply underflow"@,
            *self == TokenError::NotInitialized ==> msg@ == "called `Option::unwrap()` on a `None` value"@,
    {
        match self {
            TokenError::AlreadyInitialized => "Already initialized",
            TokenError::NegativeInitialSupply => "Initial supply cannot be negative",
            TokenError::AmountNotPositive => "Amount must be positive",
            TokenError::NegativeAmount => "Amount cannot be negative",
            TokenError::InsufficientBalance => "Insufficient balance",
            TokenError::InsufficientAllowance => "Insufficient allowance",
            TokenError::AllowanceExpired => "Allowance expired",
            TokenError::BalanceOverflow => "Balance overflow",
            TokenError::SupplyOverflow => "Supply overflow",
            TokenError::SupplyUnderflow => "Supply underflow",
            TokenError::NotInitialized => "called `Option::unwrap()` on a `None` value",
        }
    }
}

/// The abort message of each error.
pub open spec fn spec_message(e: TokenError) -> Seq<char> {
    match e {
        TokenError::AlreadyInitialized => "Already initialized"@,
        TokenError::NegativeInitialSupply => "Initial supply cannot be negative"@,
        TokenError::AmountNotPositive => "Amount must be positive"@,
        TokenError::NegativeAmount => "Amount cannot be negative"@,
        TokenError::InsufficientBalance => "Insufficient balance"@,
        TokenError::InsufficientAllowance => "Insufficient allowance"@,
        TokenError::AllowanceExpired => "Allowance expired"@,
        TokenError::BalanceOverflow => "Balance overflow"@,
        TokenError::SupplyOverflow => "Supply overflow"@,
        TokenError::SupplyUnderflow => "Supply underflow"@,
        TokenError::NotInitialized => "called `Option::unwrap()` on a `None` value"@,
    }
}

/// What `mint` writes: the recipient's new balance and the new total supply.
#[derive(Clone, Copy, Debug, PartialEq, Eq, Structural)]
pub struct MintPlan {
    pub balance: i128,
    pub total_supply: i128,
}

/// What a transfer writes: first the sender's balance, then the recipient's.
/// When sender and recipient are the same account the second write wins.
#[derive(Clone, Copy, Debug, PartialEq, Eq, Structural)]
pub struct TransferPlan {
    pub from_balance: i128,
    pub to_balance: i128,
}

/// What `transfer_from` writes: the reduced allowance, then the balances.
#[derive(Clone, Copy, Debug, PartialEq, Eq, Structural)]
pub struct TransferFromPlan {
    pub allowance: AllowanceValue,
    pub from_balance: i128,
    pub to_balance: i128,
}

/// What a burn writes: the holder's new balance (its entry is removed when
/// `clear_balance` holds, that is when nothing is left) and the new total supply.
#[derive(Clone, Copy, Debug, PartialEq, Eq, Structural)]
pub struct BurnPlan {
    pub balance: i128,
    pub clear_balance: bool,
    pub total_supply: i128,
}

/// What `burn_from` writes: the reduced allowance, then as `burn`.
#[derive(Clone, Copy, Debug, PartialEq, Eq, Structural)]
pub struct BurnFromPlan {
    pub allowance: AllowanceValue,
    pub burn: BurnPlan,
}

/// `x` is a value of `i128`.
pub open spec fn fits_i128(x: int) -> bool {
    i128::MIN <= x <= i128::MAX
}

/// An allowance with a nonzero expiration ledger is expired at every later ledger.
pub open spec fn allowance_expired(v: AllowanceValue, ledger: u32) -> bool {
    v.expiration_ledger > 0 && ledger > v.expiration_ledger
}

/// The allowance stored at a key, an absent entry reading as nothing allowed.
pub open spec fn stored_allowance(entry: Option<AllowanceValue>) -> AllowanceValue {
    match entry {
        Some(v) => v,
        None => AllowanceValue { amount: 0, expiration_ledger: 0 },
    }
}

/// The allowance a spender can use at `ledger`: 0 when absent or expired.
pub open spec fn spec_allowance(entry: Option<AllowanceValue>, ledger: u32) -> i128 {
    match entry {
        None => 0,
        Some(v) => if allowance_expired(v, ledger) { 0 } else { v.amount },
    }
}

pub open spec fn spec_initialize(already_initialized: bool, initial_supply: i128) -> Result<i128, TokenError> {
    if already_initialized {
        Err(TokenError::AlreadyInitialized)
    } else if initial_supply < 0 {
        Err(TokenError::NegativeInitialSupply)
    } else {
        Ok(initial_supply)
    }
}

pub open spec fn spec_mint(balance: i128, total_supply: Option<i128>, amount: i128) -> Result<MintPlan, TokenError> {
    if amount <= 0 {
        Err(TokenError::AmountNotPositive)
    } else if !fits_i128(balance + amount) {
        Err(TokenError::BalanceOverflow)
    } else {
        match total_supply {
            None => Err(TokenError::NotInitialized),
            Some(s) => if !fits_i128(s + amount) {
                Err(TokenError::SupplyOverflow)
            } else {
                Ok(MintPlan { balance: (balance + amount) as i128, total_supply: (s + amount) as i128 })
            },
        }
    }
}

pub open spec fn spec_approve(amount: i128, expiration_ledger: u32) -> Result<AllowanceValue, TokenError> {
    if amount < 0 {
        Err(TokenError::NegativeAmount)
    } else {
        Ok(AllowanceValue { amount, expiration_ledger })
    }
}

/// Moving a positive `amount` between balances that were read before the
/// move, `same_account` telling that both reads are of one entry.
pub open spec fn spec_move(from_balance: i128, to_balance: i128, same_account: bool, amount: i128) -> Result<TransferPlan, TokenError> {
    if from_balance < amount {
        Err(TokenError::InsufficientBalance)
    } else {
        let debited = from_balance - amount;
        let base = if same_account { debited } else { to_balance as int };
        if !fits_i128(base + amount) {
            Err(TokenError::BalanceOverflow)
        } else {
            Ok(TransferPlan { from_balance: debited as i128, to_balance: (base + amount) as i128 })
        }
    }
}

pub open spec fn spec_transfer(from_balance: i128, to_balance: i128, same_account: bool, amount: i128) -> Result<Option<TransferPlan>, TokenError> {
    if amount < 0 {
        Err(TokenError::NegativeAmount)
    } else if amount == 0 {
        Ok(None)
    } else {
        match spec_move(from_balance, to_balance, same_account, amount) {
            Ok(p) => Ok(Some(p)),
            Err(e) => Err(e),
        }
    }
}

/// Spending a positive `amount` of an allowance at `ledger`.
pub open spec fn spec_spend(entry: Option<AllowanceValue>, ledger: u32, amount: i128) -> Result<AllowanceValue, TokenError> {
    let v = stored_allowance(entry);
    if allowance_expired(v, ledger) {
        Err(TokenError::AllowanceExpired)
    } else if v.amount < amount {
        Err(TokenError::InsufficientAllowance)
    } else {
        Ok(AllowanceValue { amount: (v.amount - amount) as i128, expiration_ledger: v.expiration_ledger })
    }
}

pub open spec fn spec_transfer_from(
    entry: Option<AllowanceValue>,
    ledger: u32,
    from_balance: i128,
    to_balance: i128,
    same_account: bool,
    amount: i128,
) -> Result<Option<TransferFromPlan>, TokenError> {
    if amount < 0 {
        Err(TokenError::NegativeAmount)
    } else if amount == 0 {
        Ok(None)
    } else {
        match spec_spend(entry, ledger, amount) {
            Err(e) => Err(e),
            Ok(a) => match spec_move(from_balance, to_balance, same_account, amount) {
                Err(e) => Err(e),
                Ok(p) => Ok(Some(TransferFromPlan { allowance: a, from_balance: p.from_balance, to_balance: p.to_balance })),
            },
        }
    }
}

/// Burning a positive `amount` from a balance, after the amount was checked.
pub open spec fn spec_debit_supply(balance: i128, total_supply: Option<i128>, amount: i128) -> Result<BurnPlan, TokenError> {
    if balance < amount {
        Err(TokenError::InsufficientBalance)
    } else {
        match total_supply {
            None => Err(TokenError::NotInitialized),
            Some(s) => if !fits_i128(s - amount) {
                Err(TokenError::SupplyUnderflow)
            } else {
                Ok(BurnPlan {
                    balance: (balance - amount) as i128,
                    clear_balance: balance == amount,
                    total_supply: (s - amount) as i128,
                })
            },
        }
    }
}

pub open spec fn spec_burn(balance: i128, total_supply: Option<i128>, amount: i128) -> Result<BurnPlan, TokenError> {
    if amount <= 0 {
        Err(TokenError::AmountNotPositive)
    } else {
        spec_debit_supply(balance, total_supply, amount)
    }
}

pub open spec fn spec_burn_from(
    entry: Option<AllowanceValue>,
    ledger: u32,
    balance: i128,
    total_supply: Option<i128>,
    amount: i128,
) -> Result<BurnFromPlan, TokenError> {
    if amount <= 0 {
        Err(TokenError::AmountNotPositive)
    } else {
        match spec_spend(entry, ledger, amount) {
            Err(e) => Err(e),
            Ok(a) => match spec_debit_supply(balance, total_supply, amount) {
                Err(e) => Err(e),
                Ok(b) => Ok(BurnFromPlan { allowance: a, burn: b }),
            },
        }
    }
}

/// Whether an allowance has expired at `current_ledger`.
pub fn is_allowance_expired(v: &AllowanceValue, current_ledger: u32) -> (expired: bool)
    ensures
        expired == allowance_expired(*v, current_ledger),
{
    v.expiration_ledger > 0 && current_ledger > v.expiration_ledger
}

/// The Tycoon token. Its entrypoints decide here; the contract that the host
/// runs does the reads, the writes, the auth checks and the events.
pub struct TycoonToken;

impl TycoonToken {
    /// One-time initialisation: `already_initialized` tells whether the
    /// initialised flag is stored. On success the result is the supply that
    /// becomes both the total supply and the admin's balance.
    pub fn initialize(already_initialized: bool, initial_supply: i128) -> (r: Result<i128, TokenError>)
        ensures
            r == spec_initialize(already_initialized, initial_supply),
    {
        if already_initialized {
            return Err(TokenError::AlreadyInitialized);
        }
        if initial_supply < 0 {
            return Err(TokenError::NegativeInitialSupply);
        }
        Ok(initial_supply)
    }

    /// Minting `amount` to an account holding `balance`, the total supply
    /// being `total_supply` (absent before initialisation).
    pub fn mint(balance: i128, total_supply: Option<i128>, amount: i128) -> (r: Result<MintPlan, TokenError>)
        ensures
            r == spec_mint(balance, total_supply, amount),
    {
        if amount <= 0 {
            return Err(TokenError::AmountNotPositive);
        }
        let new_balance = match balance.checked_add(amount) {
            Some(b) => b,
            None => return Err(TokenError::BalanceOverflow),
        };
        let supply = match total_supply {
            Some(s) => s,
            None => return Err(TokenError::NotInitialized),
        };
        match supply.checked_add(amount) {
            Some(s) => Ok(MintPlan { balance: new_balance, total_supply: s }),
            None => Err(TokenError::SupplyOverflow),
        }
    }

    /// The allowance readable for a spender at `current_ledger`, given the
    /// stored entry: 0 when there is none or when it has expired.
    pub fn allowance(entry: Option<AllowanceValue>, current_ledger: u32) -> (amount: i128)
        ensures
            amount == spec_allowance(entry, current_ledger),
    {
        match entry {
            None => 0,
            Some(v) => {
                if is_allowance_expired(&v, current_ledger) {
                    0
                } else {
                    v.amount
                }
            },
        }
    }

    /// Approving a spender for `amount` until `expiration_ledger`: the entry to store.
    pub fn approve(amount: i128, expiration_ledger: u32) -> (r: Result<AllowanceValue, TokenError>)
        ensures
            r == spec_approve(amount, expiration_ledger),
    {
        if amount < 0 {
            return Err(TokenError::NegativeAmount);
        }
        Ok(AllowanceValue { amount, expiration_ledger })
    }

    /// Moves a positive `amount` once the allowance (if any) was settled.
    fn move_balance(from_balance: i128, to_balance: i128, same_account: bool, amount: i128) -> (r: Result<TransferPlan, TokenError>)
        requires
            amount > 0,
        ensures
            r == spec_move(from_balance, to_balance, same_account, amount),
    {
        if from_balance < amount {
            return Err(TokenError::InsufficientBalance);
        }
        let debited = from_balance - amount;
        let base = if same_account { debited } else { to_balance };
        match base.checked_add(amount) {
            Some(credited) => Ok(TransferPlan { from_balance: debited, to_balance: credited }),
            None => Err(TokenError::BalanceOverflow),
        }
    }

    /// Transferring `amount` from one account to another, given both
    /// balances as read before the call. `None` means nothing is written
    /// (a zero amount).
    pub fn transfer(from_balance: i128, to_balance: i128, same_account: bool, amount: i128) -> (r: Result<Option<TransferPlan>, TokenError>)
        ensures
            r == spec_transfer(from_balance, to_balance, same_account, amount),
    {
        if amount < 0 {
            return Err(TokenError::NegativeAmount);
        }
        if amount == 0 {
            return Ok(None);
        }
        match Self::move_balance(from_balance, to_balance, same_account, amount) {
            Ok(p) => Ok(Some(p)),
            Err(e) => Err(e),
        }
    }

    /// Spends a positive `amount` of the allowance stored at `entry`.
    fn spend_allowance(entry: Option<AllowanceValue>, current_ledger: u32, amount: i128) -> (r: Result<AllowanceValue, TokenError>)
        requires
            amount > 0,
        ensures
            r == spec_spend(entry, current_ledger, amount),
    {
        let v = match entry {
            Some(v) => v,
            None => AllowanceValue { amount: 0, expiration_ledger: 0 },
        };
        if is_allowance_expired(&v, current_ledger) {
            return Err(TokenError::AllowanceExpired);
        }
        if v.amount < amount {
            return Err(TokenError::InsufficientAllowance);
        }
        Ok(AllowanceValue { amount: v.amount - amount, expiration_ledger: v.expiration_ledger })
    }

    /// A spender moving `amount` from an owner to a recipient under the
    /// allowance stored at `entry`, at ledger `current_ledger`.
    pub fn transfer_from(
        entry: Option<AllowanceValue>,
        current_ledger: u32,
        from_balance: i128,
        to_balance: i128,
        same_account: bool,
        amount: i128,
    ) -> (r: Result<Option<TransferFromPlan>, TokenError>)
        ensures
            r == spec_transfer_from(entry, current_ledger, from_balance, to_balance, same_account, amount),
    {
        if amount < 0 {
            return Err(TokenError::NegativeAmount);
        }
        if amount == 0 {
            return Ok(None);
        }
        let allowance = match Self::spend_allowance(entry, current_ledger, amount) {
            Ok(a) => a,
            Err(e) => return Err(e),
        };
        match Self::move_balance(from_balance, to_balance, same_account, amount) {
            Ok(p) => Ok(Some(TransferFromPlan { allowance, from_balance: p.from_balance, to_balance: p.to_balance })),
            Err(e) => Err(e),
        }
    }

    /// Takes a positive `amount` out of a balance and out of the supply.
    fn debit_supply(balance: i128, total_supply: Option<i128>, amount: i128) -> (r: Result<BurnPlan, TokenError>)
        requires
            amount > 0,
        ensures
            r == spec_debit_supply(balance, total_supply, amount),
    {
        if balance < amount {
            return Err(TokenError::InsufficientBalance);
        }
        let supply = match total_supply {
            Some(s) => s,
            None => return Err(TokenError::NotInitialized),
        };
        match supply.checked_sub(amount) {
            Some(s) => Ok(BurnPlan { balance: balance - amount, clear_balance: balance == amount, total_supply: s }),
            None => Err(TokenError::SupplyUnderflow),
        }
    }

    /// A holder burning `amount` of its own `balance`.
    pub fn burn(balance: i128, total_supply: Option<i128>, amount: i128) -> (r: Result<BurnPlan, TokenError>)
        ensures
            r == spec_burn(balance, total_supply, amount),
    {
        if amount <= 0 {
            return Err(TokenError::AmountNotPositive);
        }
        Self::debit_supply(balance, total_supply, amount)
    }

    /// A spender burning `amount` of an owner's `balance` under the
    /// allowance stored at `entry`, at ledger `current_ledger`.
    pub fn burn_from(
        entry: Option<AllowanceValue>,
        current_ledger: u32,
        balance: i128,
        total_supply: Option<i128>,
        amount: i128,
    ) -> (r: Result<BurnFromPlan, TokenError>)
        ensures
            r == spec_burn_from(entry, current_ledger, balance, total_supply, amount),
    {
        if amount <= 0 {
            return Err(TokenError::AmountNotPositive);
        }
        let allowance = match Self::spend_allowance(entry, current_ledger, amount) {
            Ok(a) => a,
            Err(e) => return Err(e),
        };
        match Self::debit_supply(balance, total_supply, amount) {
            Ok(burn) => Ok(BurnFromPlan { allowance, burn }),
            Err(e) => Err(e),
        }
    }

    /// Number of decimal places of the token.
    pub fn decimals() -> (d: u32)
        ensures
            d == 18,
    {
        18
    }

    /// Name of the token.
    pub fn name() -> (n: &'static str)
        ensures
            n@ == "Tycoon"@,
    {
        "Tycoon"
    }

    /// Ticker symbol of the token.
    pub fn symbol() -> (s: &'static str)
        ensures
            s@ == "TYC"@,
    {
        "TYC"
    }
}

/// Initialisation succeeds exactly once, on a non-negative supply, and then
/// hands back that supply unchanged; a second call is refused as such, a
/// negative supply as such.
pub proof fn lemma_initialize_outcome(already_initialized: bool, initial_supply: i128)
    ensures
        spec_initialize(already_initialized, initial_supply) is Ok <==> (!already_initialized && initial_supply >= 0),
        spec_initialize(already_initialized, initial_supply) is Ok ==> spec_initialize(already_initialized, initial_supply)->Ok_0 == initial_supply,
        already_initialized ==> spec_initialize(already_initialized, initial_supply) == Err::<i128, TokenError>(TokenError::AlreadyInitialized),
        !already_initialized && initial_supply < 0 ==> spec_initialize(already_initialized, initial_supply) == Err::<i128, TokenError>(TokenError::NegativeInitialSupply),
{
}

/// Approval succeeds exactly on a non-negative amount, and stores the amount
/// and expiration ledger it was given; a negative amount is refused as such.
pub proof fn lemma_approve_outcome(amount: i128, expiration_ledger: u32)
    ensures
        spec_approve(amount, expiration_ledger) is Ok <==> amount >= 0,
        spec_approve(amount, expiration_ledger) is Ok ==> spec_approve(amount, expiration_ledger)->Ok_0.amount == amount
            && spec_approve(amount, expiration_ledger)->Ok_0.expiration_ledger == expiration_ledger,
        amount < 0 ==> spec_approve(amount, expiration_ledger) == Err::<AllowanceValue, TokenError>(TokenError::NegativeAmount),
{
}

/// What a spender can use: nothing without an entry; the stored amount while
/// the entry never expires (expiration 0) or the ledger has not passed its
/// expiration (the expiration ledger itself included); nothing afterwards.
pub proof fn lemma_allowance_reading(entry: Option<AllowanceValue>, ledger: u32)
    ensures
        entry is None ==> spec_allowance(entry, ledger) == 0,
        entry is Some && (entry->Some_0.expiration_ledger == 0 || ledger <= entry->Some_0.expiration_ledger)
            ==> spec_allowance(entry, ledger) == entry->Some_0.amount,
        entry is Some && entry->Some_0.expiration_ledger > 0 && ledger > entry->Some_0.expiration_ledger
            ==> spec_allowance(entry, ledger) == 0,
{
}

/// Minting: a non-positive amount, then an overflowing balance, then a
/// missing supply, then an overflowing supply are refused, in that order;
/// otherwise the amount is added to both the balance and the supply.
pub proof fn lemma_mint_outcome(balance: i128, total_supply: Option<i128>, amount: i128)
    ensures
        amount <= 0 ==> spec_mint(balance, total_supply, amount) == Err::<MintPlan, TokenError>(TokenError::AmountNotPositive),
        amount > 0 && balance + amount > i128::MAX ==> spec_mint(balance, total_supply, amount) == Err::<MintPlan, TokenError>(TokenError::BalanceOverflow),
        amount > 0 && balance + amount <= i128::MAX && total_supply is None ==> spec_mint(balance, total_supply, amount) == Err::<MintPlan, TokenError>(TokenError::NotInitialized),
        amount > 0 && balance + amount <= i128::MAX && total_supply is Some && total_supply->Some_0 + amount > i128::MAX
            ==> spec_mint(balance, total_supply, amount) == Err::<MintPlan, TokenError>(TokenError::SupplyOverflow),
        spec_mint(balance, total_supply, amount) is Ok <==> (amount > 0 && balance + amount <= i128::MAX
            && total_supply is Some && total_supply->Some_0 + amount <= i128::MAX),
        spec_mint(balance, total_supply, amount) is Ok ==> spec_mint(balance, total_supply, amount)->Ok_0.balance == balance + amount
            && spec_mint(balance, total_supply, amount)->Ok_0.total_supply == total_supply->Some_0 + amount,
{
}

/// Transferring: a negative amount is refused, a zero amount writes
/// nothing, a positive one is refused when the sender lacks it or the
/// recipient would overflow, and otherwise leaves the sender short by the
/// amount and the recipient up by it (a self-transfer keeps the balance).
pub proof fn lemma_transfer_outcome(from_balance: i128, to_balance: i128, same_account: bool, amount: i128)
    ensures
        amount < 0 ==> spec_transfer(from_balance, to_balance, same_account, amount) == Err::<Option<TransferPlan>, TokenError>(TokenError::NegativeAmount),
        amount == 0 ==> spec_transfer(from_balance, to_balance, same_account, amount) == Ok::<Option<TransferPlan>, TokenError>(None),
        amount > 0 && from_balance < amount ==> spec_transfer(from_balance, to_balance, same_account, amount) == Err::<Option<TransferPlan>, TokenError>(TokenError::InsufficientBalance),
        amount > 0 && from_balance >= amount && !same_account && to_balance + amount > i128::MAX
            ==> spec_transfer(from_balance, to_balance, same_account, amount) == Err::<Option<TransferPlan>, TokenError>(TokenError::BalanceOverflow),
        amount > 0 && from_balance >= amount && (same_account || to_balance + amount <= i128::MAX)
            ==> spec_transfer(from_balance, to_balance, same_account, amount) == Ok::<Option<TransferPlan>, TokenError>(Some(TransferPlan {
                from_balance: (from_balance - amount) as i128,
                to_balance: if same_account { from_balance } else { (to_balance + amount) as i128 },
            })),
{
}

/// The allowance stored at `entry`, an absent entry allowing nothing.
pub open spec fn entry_or_nothing(entry: Option<AllowanceValue>) -> AllowanceValue {
    match entry {
        Some(v) => v,
        None => AllowanceValue { amount: 0, expiration_ledger: 0 },
    }
}

/// Spending under an allowance: a negative amount is refused, a zero amount
/// writes nothing; a positive one is refused when the allowance has expired,
/// then when it is too small, then as a transfer would be; otherwise the
/// allowance drops by the amount, keeps its expiration, and the balances
/// move as in a transfer.
pub proof fn lemma_transfer_from_outcome(
    entry: Option<AllowanceValue>,
    ledger: u32,
    from_balance: i128,
    to_balance: i128,
    same_account: bool,
    amount: i128,
)
    ensures
        amount < 0 ==> spec_transfer_from(entry, ledger, from_balance, to_balance, same_account, amount)
            == Err::<Option<TransferFromPlan>, TokenError>(TokenError::NegativeAmount),
        amount == 0 ==> spec_transfer_from(entry, ledger, from_balance, to_balance, same_account, amount)
            == Ok::<Option<TransferFromPlan>, TokenError>(None),
        amount > 0 && entry_or_nothing(entry).expiration_ledger > 0 && ledger > entry_or_nothing(entry).expiration_ledger
            ==> spec_transfer_from(entry, ledger, from_balance, to_balance, same_account, amount)
            == Err::<Option<TransferFromPlan>, TokenError>(TokenError::AllowanceExpired),
        amount > 0 && (entry_or_nothing(entry).expiration_ledger == 0 || ledger <= entry_or_nothing(entry).expiration_ledger)
            && entry_or_nothing(entry).amount < amount
            ==> spec_transfer_from(entry, ledger, from_balance, to_balance, same_account, amount)
            == Err::<Option<TransferFromPlan>, TokenError>(TokenError::InsufficientAllowance),
        amount > 0 && (entry_or_nothing(entry).expiration_ledger == 0 || ledger <= entry_or_nothing(entry).expiration_ledger)
            && entry_or_nothing(entry).amount >= amount
            ==> match spec_transfer(from_balance, to_balance, same_account, amount) {
                Err(e) => spec_transfer_from(entry, ledger, from_balance, to_balance, same_account, amount)
                    == Err::<Option<TransferFromPlan>, TokenError>(e),
                Ok(None) => false,
                Ok(Some(p)) => spec_transfer_from(entry, ledger, from_balance, to_balance, same_account, amount)
                    == Ok::<Option<TransferFromPlan>, TokenError>(Some(TransferFromPlan {
                        allowance: AllowanceValue {
                            amount: (entry_or_nothing(entry).amount - amount) as i128,
                            expiration_ledger: entry_or_nothing(entry).expiration_ledger,
                        },
                        from_balance: p.from_balance,
                        to_balance: p.to_balance,
                    })),
            },
{
    lemma_transfer_outcome(from_balance, to_balance, same_account, amount);
}

/// Burning: a non-positive amount is refused, then a balance short of it,
/// then a missing supply, then an underflowing supply; otherwise the amount
/// leaves both the balance and the supply, and an emptied balance is cleared.
pub proof fn lemma_burn_outcome(balance: i128, total_supply: Option<i128>, amount: i128)
    ensures
        amount <= 0 ==> spec_burn(balance, total_supply, amount) == Err::<BurnPlan, TokenError>(TokenError::AmountNotPositive),
        amount > 0 && balance < amount ==> spec_burn(balance, total_supply, amount) == Err::<BurnPlan, TokenError>(TokenError::InsufficientBalance),
        amount > 0 && balance >= amount && total_supply is None ==> spec_burn(balance, total_supply, amount) == Err::<BurnPlan, TokenError>(TokenError::NotInitialized),
        amount > 0 && balance >= amount && total_supply is Some && total_supply->Some_0 - amount < i128::MIN
            ==> spec_burn(balance, total_supply, amount) == Err::<BurnPlan, TokenError>(TokenError::SupplyUnderflow),
        spec_burn(balance, total_supply, amount) is Ok <==> (amount > 0 && balance >= amount && total_supply is Some
            && total_supply->Some_0 - amount >= i128::MIN),
        spec_burn(balance, total_supply, amount) is Ok ==> spec_burn(balance, total_supply, amount)->Ok_0.balance == balance - amount
            && spec_burn(balance, total_supply, amount)->Ok_0.total_supply == total_supply->Some_0 - amount
            && spec_burn(balance, total_supply, amount)->Ok_0.clear_balance == (balance == amount),
{
}

/// Burning under an allowance: a non-positive amount is refused; then an
/// expired allowance, then a too small one; then as `burn`; on success the
/// allowance drops by the amount and keeps its expiration, and the burn is
/// that of `burn`.
pub proof fn lemma_burn_from_outcome(
    entry: Option<AllowanceValue>,
    ledger: u32,
    balance: i128,
    total_supply: Option<i128>,
    amount: i128,
)
    ensures
        amount <= 0 ==> spec_burn_from(entry, ledger, balance, total_supply, amount)
            == Err::<BurnFromPlan, TokenError>(TokenError::AmountNotPositive),
        amount > 0 && entry_or_nothing(entry).expiration_ledger > 0 && ledger > entry_or_nothing(entry).expiration_ledger
            ==> spec_burn_from(entry, ledger, balance, total_supply, amount)
            == Err::<BurnFromPlan, TokenError>(TokenError::AllowanceExpired),
        amount > 0 && (entry_or_nothing(entry).expiration_ledger == 0 || ledger <= entry_or_nothing(entry).expiration_ledger)
            && entry_or_nothing(entry).amount < amount
            ==> spec_burn_from(entry, ledger, balance, total_supply, amount)
            == Err::<BurnFromPlan, TokenError>(TokenError::InsufficientAllowance),
        amount > 0 && (entry_or_nothing(entry).expiration_ledger == 0 || ledger <= entry_or_nothing(entry).expiration_ledger)
            && entry_or_nothing(entry).amount >= amount
            ==> match spec_burn(balance, total_supply, amount) {
                Err(e) => spec_burn_from(entry, ledger, balance, total_supply, amount) == Err::<BurnFromPlan, TokenError>(e),
                Ok(b) => spec_burn_from(entry, ledger, balance, total_supply, amount) == Ok::<BurnFromPlan, TokenError>(BurnFromPlan {
                    allowance: AllowanceValue {
                        amount: (entry_or_nothing(entry).amount - amount) as i128,
                        expiration_ledger: entry_or_nothing(entry).expiration_ledger,
                    },
                    burn: b,
                }),
            },
{
    lemma_burn_outcome(balance, total_supply, amount);
}

} // verus!
