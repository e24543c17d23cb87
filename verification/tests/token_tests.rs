use std::collections::HashMap;

use tycoon::token::{
    is_allowance_expired, AllowanceValue, BurnFromPlan, BurnPlan, MintPlan, TokenError,
    TransferFromPlan, TransferPlan, TycoonToken,
};

const SUPPLY: i128 = 1_000_000_000_000_000_000_000_000_000;

fn allowance(amount: i128, expiration_ledger: u32) -> Option<AllowanceValue> {
    Some(AllowanceValue { amount, expiration_ledger })
}

#[test]
fn test_initialize_accepts_once_and_rejects_negative_supply() {
    assert_eq!(TycoonToken::initialize(false, SUPPLY), Ok(SUPPLY));
    assert_eq!(TycoonToken::initialize(false, 0), Ok(0));
    assert_eq!(TycoonToken::initialize(true, SUPPLY), Err(TokenError::AlreadyInitialized));
    assert_eq!(TycoonToken::initialize(false, -1), Err(TokenError::NegativeInitialSupply));
    assert_eq!(TycoonToken::initialize(true, -1), Err(TokenError::AlreadyInitialized));
}

#[test]
fn test_mint_adds_to_balance_and_supply() {
    let amount: i128 = 1_000_000_000_000_000_000_000;
    assert_eq!(
        TycoonToken::mint(0, Some(SUPPLY), amount),
        Ok(MintPlan { balance: amount, total_supply: SUPPLY + amount })
    );
    assert_eq!(
        TycoonToken::mint(5, Some(10), 7),
        Ok(MintPlan { balance: 12, total_supply: 17 })
    );
}

#[test]
fn test_mint_rejects_non_positive_amounts() {
    assert_eq!(TycoonToken::mint(0, Some(SUPPLY), 0), Err(TokenError::AmountNotPositive));
    assert_eq!(TycoonToken::mint(0, Some(SUPPLY), -5), Err(TokenError::AmountNotPositive));
}

#[test]
fn test_mint_supply_overflow_is_refused() {
    let supply: i128 = 1_000;
    let amount = i128::MAX - supply + 1;
    assert_eq!(TycoonToken::mint(0, Some(supply), amount), Err(TokenError::SupplyOverflow));
    assert_eq!(TycoonToken::mint(1, Some(supply), i128::MAX), Err(TokenError::BalanceOverflow));
}

#[test]
fn test_mint_before_initialisation_is_refused() {
    assert_eq!(TycoonToken::mint(0, None, 10), Err(TokenError::NotInitialized));
}

#[test]
fn test_allowance_reads_zero_when_absent_or_expired() {
    assert_eq!(TycoonToken::allowance(None, 100), 0);
    assert_eq!(TycoonToken::allowance(allowance(50, 0), u32::MAX), 50);
    assert_eq!(TycoonToken::allowance(allowance(50, 100), 100), 50);
    assert_eq!(TycoonToken::allowance(allowance(50, 100), 101), 0);
    assert_eq!(TycoonToken::allowance(allowance(50, 100), 99), 50);
}

#[test]
fn test_is_allowance_expired_boundaries() {
    let v = AllowanceValue { amount: 1, expiration_ledger: 20 };
    assert!(!is_allowance_expired(&v, 20));
    assert!(is_allowance_expired(&v, 21));
    let permanent = AllowanceValue { amount: 1, expiration_ledger: 0 };
    assert!(!is_allowance_expired(&permanent, u32::MAX));
}

#[test]
fn test_approve_builds_entry_and_rejects_negative() {
    assert_eq!(
        TycoonToken::approve(500, 42),
        Ok(AllowanceValue { amount: 500, expiration_ledger: 42 })
    );
    assert_eq!(TycoonToken::approve(0, 0), Ok(AllowanceValue { amount: 0, expiration_ledger: 0 }));
    assert_eq!(TycoonToken::approve(-1, 0), Err(TokenError::NegativeAmount));
}

#[test]
fn test_approve_then_allowance_reads_back() {
    let entry = TycoonToken::approve(300, 50).unwrap();
    assert_eq!(TycoonToken::allowance(Some(entry), 50), 300);
    assert_eq!(TycoonToken::allowance(Some(entry), 51), 0);
}

#[test]
fn test_transfer_moves_amount() {
    let amount: i128 = 100_000_000_000_000_000_000_000_000;
    assert_eq!(
        TycoonToken::transfer(SUPPLY, 0, false, amount),
        Ok(Some(TransferPlan { from_balance: SUPPLY - amount, to_balance: amount }))
    );
}

#[test]
fn test_transfer_zero_is_noop_and_negative_rejected() {
    assert_eq!(TycoonToken::transfer(0, 0, false, 0), Ok(None));
    assert_eq!(TycoonToken::transfer(10, 0, false, -1), Err(TokenError::NegativeAmount));
}

#[test]
fn test_transfer_insufficient_balance() {
    assert_eq!(TycoonToken::transfer(9, 0, false, 10), Err(TokenError::InsufficientBalance));
}

#[test]
fn test_transfer_recipient_overflow() {
    assert_eq!(TycoonToken::transfer(10, i128::MAX, false, 1), Err(TokenError::BalanceOverflow));
}

#[test]
fn test_self_transfer_conserves_balance() {
    assert_eq!(
        TycoonToken::transfer(100, 100, true, 40),
        Ok(Some(TransferPlan { from_balance: 60, to_balance: 100 }))
    );
    assert_eq!(
        TycoonToken::transfer(i128::MAX, i128::MAX, true, i128::MAX),
        Ok(Some(TransferPlan { from_balance: 0, to_balance: i128::MAX }))
    );
}

#[test]
fn test_transfer_from_spends_allowance_and_moves() {
    assert_eq!(
        TycoonToken::transfer_from(allowance(100, 0), 5, 1_000, 0, false, 60),
        Ok(Some(TransferFromPlan {
            allowance: AllowanceValue { amount: 40, expiration_ledger: 0 },
            from_balance: 940,
            to_balance: 60,
        }))
    );
}

#[test]
fn test_transfer_from_errors_in_order() {
    assert_eq!(
        TycoonToken::transfer_from(allowance(100, 0), 5, 1_000, 0, false, -1),
        Err(TokenError::NegativeAmount)
    );
    assert_eq!(TycoonToken::transfer_from(None, 5, 0, 0, false, 0), Ok(None));
    assert_eq!(
        TycoonToken::transfer_from(allowance(100, 4), 5, 0, 0, false, 200),
        Err(TokenError::AllowanceExpired)
    );
    assert_eq!(
        TycoonToken::transfer_from(None, 5, 1_000, 0, false, 1),
        Err(TokenError::InsufficientAllowance)
    );
    assert_eq!(
        TycoonToken::transfer_from(allowance(100, 5), 5, 10, 0, false, 50),
        Err(TokenError::InsufficientBalance)
    );
    assert_eq!(
        TycoonToken::transfer_from(allowance(100, 0), 5, 10, i128::MAX, false, 5),
        Err(TokenError::BalanceOverflow)
    );
}

#[test]
fn test_transfer_from_expiry_boundary() {
    assert!(TycoonToken::transfer_from(allowance(10, 7), 7, 10, 0, false, 1).is_ok());
    assert_eq!(
        TycoonToken::transfer_from(allowance(10, 7), 8, 10, 0, false, 1),
        Err(TokenError::AllowanceExpired)
    );
}

#[test]
fn test_burn_reduces_balance_and_supply() {
    let amount: i128 = 100_000_000_000_000_000_000_000_000;
    assert_eq!(
        TycoonToken::burn(SUPPLY, Some(SUPPLY), amount),
        Ok(BurnPlan { balance: SUPPLY - amount, clear_balance: false, total_supply: SUPPLY - amount })
    );
}

#[test]
fn test_burn_full_balance_clears_entry() {
    assert_eq!(
        TycoonToken::burn(25, Some(100), 25),
        Ok(BurnPlan { balance: 0, clear_balance: true, total_supply: 75 })
    );
}

#[test]
fn test_burn_errors() {
    assert_eq!(TycoonToken::burn(10, Some(10), 0), Err(TokenError::AmountNotPositive));
    assert_eq!(TycoonToken::burn(10, Some(10), 11), Err(TokenError::InsufficientBalance));
    assert_eq!(TycoonToken::burn(10, None, 5), Err(TokenError::NotInitialized));
    assert_eq!(TycoonToken::burn(10, Some(i128::MIN), 5), Err(TokenError::SupplyUnderflow));
}

#[test]
fn test_burn_from_spends_allowance_and_burns() {
    let amt: i128 = 100_000_000_000_000_000_000_000_000;
    assert_eq!(
        TycoonToken::burn_from(allowance(amt, 0), 1, SUPPLY, Some(SUPPLY), amt),
        Ok(BurnFromPlan {
            allowance: AllowanceValue { amount: 0, expiration_ledger: 0 },
            burn: BurnPlan { balance: SUPPLY - amt, clear_balance: false, total_supply: SUPPLY - amt },
        })
    );
}

#[test]
fn test_burn_from_errors_in_order() {
    assert_eq!(
        TycoonToken::burn_from(allowance(10, 0), 1, 10, Some(10), 0),
        Err(TokenError::AmountNotPositive)
    );
    assert_eq!(
        TycoonToken::burn_from(allowance(10, 1), 2, 10, Some(10), 5),
        Err(TokenError::AllowanceExpired)
    );
    assert_eq!(
        TycoonToken::burn_from(None, 2, 10, Some(10), 5),
        Err(TokenError::InsufficientAllowance)
    );
    assert_eq!(
        TycoonToken::burn_from(allowance(10, 0), 2, 3, Some(10), 5),
        Err(TokenError::InsufficientBalance)
    );
}

#[test]
fn test_metadata() {
    assert_eq!(TycoonToken::decimals(), 18);
    assert_eq!(TycoonToken::name(), "Tycoon");
    assert_eq!(TycoonToken::symbol(), "TYC");
}

#[test]
fn test_error_messages() {
    assert_eq!(TokenError::AlreadyInitialized.message(), "Already initialized");
    assert_eq!(TokenError::NegativeInitialSupply.message(), "Initial supply cannot be negative");
    assert_eq!(TokenError::AmountNotPositive.message(), "Amount must be positive");
    assert_eq!(TokenError::NegativeAmount.message(), "Amount cannot be negative");
    assert_eq!(TokenError::InsufficientBalance.message(), "Insufficient balance");
    assert_eq!(TokenError::InsufficientAllowance.message(), "Insufficient allowance");
    assert_eq!(TokenError::AllowanceExpired.message(), "Allowance expired");
    assert_eq!(TokenError::BalanceOverflow.message(), "Balance overflow");
    assert_eq!(TokenError::SupplyOverflow.message(), "Supply overflow");
    assert_eq!(TokenError::SupplyUnderflow.message(), "Supply underflow");
}

/// A storage made of plain maps, driven through the decision functions
/// exactly as the contract drives its storage.
struct Store {
    supply: Option<i128>,
    balances: HashMap<u32, i128>,
    allowances: HashMap<(u32, u32), AllowanceValue>,
}

impl Store {
    fn balance(&self, id: u32) -> i128 {
        *self.balances.get(&id).unwrap_or(&0)
    }

    fn sum(&self) -> i128 {
        self.balances.values().sum()
    }

    fn transfer(&mut self, from: u32, to: u32, amount: i128) -> Result<(), TokenError> {
        if let Some(p) = TycoonToken::transfer(self.balance(from), self.balance(to), from == to, amount)? {
            self.balances.insert(from, p.from_balance);
            self.balances.insert(to, p.to_balance);
        }
        Ok(())
    }

    fn transfer_from(&mut self, spender: u32, from: u32, to: u32, amount: i128, ledger: u32) -> Result<(), TokenError> {
        let entry = self.allowances.get(&(from, spender)).copied();
        if let Some(p) = TycoonToken::transfer_from(entry, ledger, self.balance(from), self.balance(to), from == to, amount)? {
            self.allowances.insert((from, spender), p.allowance);
            self.balances.insert(from, p.from_balance);
            self.balances.insert(to, p.to_balance);
        }
        Ok(())
    }

    fn mint(&mut self, to: u32, amount: i128) -> Result<(), TokenError> {
        let p = TycoonToken::mint(self.balance(to), self.supply, amount)?;
        self.balances.insert(to, p.balance);
        self.supply = Some(p.total_supply);
        Ok(())
    }

    fn burn(&mut self, from: u32, amount: i128) -> Result<(), TokenError> {
        let p = TycoonToken::burn(self.balance(from), self.supply, amount)?;
        if p.clear_balance {
            self.balances.remove(&from);
        } else {
            self.balances.insert(from, p.balance);
        }
        self.supply = Some(p.total_supply);
        Ok(())
    }
}

#[test]
fn test_supply_equals_sum_of_balances_through_a_session() {
    let admin = 1u32;
    let mut store = Store { supply: None, balances: HashMap::new(), allowances: HashMap::new() };
    let initial = TycoonToken::initialize(false, 1_000).unwrap();
    store.supply = Some(initial);
    store.balances.insert(admin, initial);
    assert_eq!(store.sum(), store.supply.unwrap());

    store.mint(2, 500).unwrap();
    store.transfer(admin, 3, 300).unwrap();
    store.transfer(3, 3, 100).unwrap();
    store.allowances.insert((admin, 4), TycoonToken::approve(200, 0).unwrap());
    store.transfer_from(4, admin, 2, 150, 10).unwrap();
    assert_eq!(store.transfer_from(4, admin, 2, 100, 10), Err(TokenError::InsufficientAllowance));
    store.burn(2, 650).unwrap();
    assert_eq!(store.burn(3, 301), Err(TokenError::InsufficientBalance));

    assert_eq!(store.balance(admin), 550);
    assert_eq!(store.balance(2), 0);
    assert!(!store.balances.contains_key(&2));
    assert_eq!(store.balance(3), 300);
    assert_eq!(store.allowances[&(admin, 4)].amount, 50);
    assert_eq!(store.supply, Some(850));
    assert_eq!(store.sum(), store.supply.unwrap());
}
