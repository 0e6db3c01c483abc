//! The token's entry points.
//!
//! An entry point of this module is the part of the contract's entry point that
//! computes. The contract asks the host for the authorization that the operation
//! needs, reads the entries that the operation touches, and hands them over as they
//! were read, `None` for an entry that is absent. The function returns every value
//! that is to be written, each together with the key that it goes under, and the
//! contract writes them. A function that returns `Err(Trap)` has the contract abort
//! the invocation, and nothing is written.
//!
//! The authorizations to ask for: that of `from` for `approve`, `transfer` and `burn`,
//! that of `spender` for `transfer_from` and `burn_from`, and for `mint` that of the
//! address which `mint_authority` returns.
use crate::errors::Sep0041Error;
use crate::errors::Trap;
use crate::host::key_of_address;
use crate::host::key_of_pair;
use crate::host::key_of_tag;
use crate::host::same_address;
use crate::storage::required;
use crate::storage::required_outcome;
use crate::token_rules::stored_allowance;
use crate::token_rules::stored_allowance_outcome;
use crate::token_rules::stored_amount;
use crate::token_rules::stored_amount_outcome;
use crate::token_rules::stored_decimals;
use crate::token_rules::stored_decimals_outcome;
use crate::token_rules::AllowanaceDetails;
use crate::token_steps::approval;
use crate::token_steps::approve_step;
use crate::token_steps::burn_change;
use crate::token_steps::burn_step;
use crate::token_steps::construction;
use crate::token_steps::construction_step;
use crate::token_steps::draw;
use crate::token_steps::draw_step;
use crate::token_steps::drawn_burn;
use crate::token_steps::drawn_burn_step;
use crate::token_steps::mint_change;
use crate::token_steps::mint_step;
use crate::token_steps::movement;
use crate::token_steps::transfer_step;
use crate::token_steps::Draw;
use crate::token_steps::DrawnBurn;
use crate::token_steps::Metadata;
use crate::token_steps::Movement;
use crate::token_steps::SupplyChange;
use vstd::prelude::*;

verus! {

/// The entries of the token's storage.
#[derive(Debug, PartialEq, Eq)]
pub enum DataKey {
    Balance(soroban_sdk::Address),
    Name,
    Symbol,
    Decimal,
    Admin,
    TotalSupply,
    Allowance(soroban_sdk::Address, soroban_sdk::Address),
}

impl DataKey {
    /// The host value under which the entry is stored: its tag, then its addresses.
    pub fn to_val(&self, env: &soroban_sdk::Env) -> (key: soroban_sdk::Val) {
        proof {
            reveal_strlit("Balance");
            reveal_strlit("Name");
            reveal_strlit("Symbol");
            reveal_strlit("Decimal");
            reveal_strlit("Admin");
            reveal_strlit("TotalSupply");
            reveal_strlit("Allowance");
        }
        match self {
            DataKey::Balance(id) => key_of_address(env, "Balance", id),
            DataKey::Name => key_of_tag(env, "Name"),
            DataKey::Symbol => key_of_tag(env, "Symbol"),
            DataKey::Decimal => key_of_tag(env, "Decimal"),
            DataKey::Admin => key_of_tag(env, "Admin"),
            DataKey::TotalSupply => key_of_tag(env, "TotalSupply"),
            DataKey::Allowance(from, spender) => key_of_pair(env, "Allowance", from, spender),
        }
    }
}

/// The token contract.
pub struct Sep0041;

/// The interface of the token.
pub trait ISep0041 {
    /// The balance that the entry of an address stands for: zero where there is none.
    /// A balance is never negative: an entry that is counts as malformed.
    fn balance(entry: Option<i128>) -> (r: Result<i128, Trap>)
        ensures
            r == stored_amount_outcome(entry),
    ;

    /// The name that the token was constructed with, given its entry.
    fn name(entry: Option<soroban_sdk::String>) -> (r: Result<soroban_sdk::String, Trap>)
        ensures
            r == required_outcome(entry),
    ;

    /// The decimals of the token, given their entry: `DECIMALS`, once the constructor
    /// has written them. An entry that holds another number counts as malformed.
    fn decimals(entry: Option<u32>) -> (r: Result<u32, Trap>)
        ensures
            r == stored_decimals_outcome(entry),
    ;

    /// The symbol that the token was constructed with, given its entry.
    fn symbol(entry: Option<soroban_sdk::String>) -> (r: Result<soroban_sdk::String, Trap>)
        ensures
            r == required_outcome(entry),
    ;

    /// Credits `amount` to `to` and to the total supply, given the entries of the
    /// balance of `to` and of the total supply. An amount that is not positive is
    /// refused with the token's error.
    fn mint(
        to: soroban_sdk::Address,
        amount: i128,
        balance: Option<i128>,
        total_supply: Option<i128>,
    ) -> (r: Result<Result<SupplyChange, Sep0041Error>, Trap>)
        ensures
            r == mint_step(to, balance, total_supply, amount),
    ;

    /// What `spender` may still draw on `from`'s balance, given the entry of the
    /// allowance of the pair as amount and deadline. Where `from` never approved
    /// `spender`, there is no entry. An allowance is never negative.
    fn allowance(entry: Option<(i128, u64)>) -> (r: Result<i128, Trap>)
        ensures
            r == match stored_allowance_outcome(entry) {
                Ok(details) => Ok::<i128, Trap>(details.amount),
                Err(trap) => Err(trap),
            },
    ;

    /// Lets `spender` draw up to `amount` on `from`'s balance until
    /// `live_until_ledger` units of `SECONDS_IN_TIME` seconds after the ledger time
    /// `now`. An earlier allowance of the pair is overwritten.
    fn approve(
        from: soroban_sdk::Address,
        spender: soroban_sdk::Address,
        amount: i128,
        live_until_ledger: u32,
        now: u64,
    ) -> (r: Result<(DataKey, AllowanaceDetails), Trap>)
        ensures
            r == approve_step(from, spender, now, amount, live_until_ledger),
    ;

    /// Moves `amount` from `from` to `to`, given the entries of their balances.
    fn transfer(
        from: soroban_sdk::Address,
        to: soroban_sdk::Address,
        amount: i128,
        from_balance: Option<i128>,
        to_balance: Option<i128>,
    ) -> (r: Result<Movement, Trap>)
        ensures
            r == transfer_step(from, to, from_balance, to_balance, amount, from == to),
    ;

    /// Takes `amount` from `from`'s balance and from the total supply, given their
    /// entries.
    fn burn(
        from: soroban_sdk::Address,
        amount: i128,
        balance: Option<i128>,
        total_supply: Option<i128>,
    ) -> (r: Result<SupplyChange, Trap>)
        ensures
            r == burn_step(from, balance, total_supply, amount),
    ;

    /// Moves `amount` from `from` to `to` out of the allowance that `from` gave to
    /// `spender`, which shrinks by `amount`, at the ledger time `now`, given the
    /// entries of the allowance and of the two balances.
    fn transfer_from(
        spender: soroban_sdk::Address,
        from: soroban_sdk::Address,
        to: soroban_sdk::Address,
        amount: i128,
        allowance: Option<(i128, u64)>,
        now: u64,
        from_balance: Option<i128>,
        to_balance: Option<i128>,
    ) -> (r: Result<Draw, Trap>)
        ensures
            r == draw_step(
                spender,
                from,
                to,
                allowance,
                now,
                from_balance,
                to_balance,
                amount,
                from == to,
            ),
    ;

    /// Takes `amount` from `from`'s balance and from the total supply out of the
    /// allowance that `from` gave to `spender`, which shrinks by `amount`, at the
    /// ledger time `now`, given the entries of the allowance, the balance and the
    /// total supply.
    fn burn_from(
        spender: soroban_sdk::Address,
        from: soroban_sdk::Address,
        amount: i128,
        allowance: Option<(i128, u64)>,
        now: u64,
        balance: Option<i128>,
        total_supply: Option<i128>,
    ) -> (r: Result<DrawnBurn, Trap>)
        ensures
            r == drawn_burn_step(spender, from, allowance, now, balance, total_supply, amount),
    ;
}

impl Sep0041 {
    /// What the constructor writes: the administrator, the name, the symbol and the
    /// decimals, each under its key.
    pub fn __constructor(
        admin: soroban_sdk::Address,
        name: soroban_sdk::String,
        symbol: soroban_sdk::String,
    ) -> (r: Metadata)
        ensures
            r == construction_step(admin, name, symbol),
    {
        construction(admin, name, symbol)
    }

    /// The address that has to authorize a mint: the administrator, given its entry.
    pub fn mint_authority(admin: Option<soroban_sdk::Address>) -> (r: Result<
        soroban_sdk::Address,
        Trap,
    >)
        ensures
            r == required_outcome(admin),
    {
        required(admin)
    }

    /// The sum of all balances, given its entry: zero before the first mint. A supply
    /// is never negative: an entry that is counts as malformed.
    pub fn total_supply(entry: Option<i128>) -> (r: Result<i128, Trap>)
        ensures
            r == stored_amount_outcome(entry),
    {
        Self::_total_supply(entry)
    }
}

impl ISep0041 for Sep0041 {
    fn balance(entry: Option<i128>) -> (r: Result<i128, Trap>) {
        Self::_balance(entry)
    }

    fn name(entry: Option<soroban_sdk::String>) -> (r: Result<soroban_sdk::String, Trap>) {
        required(entry)
    }

    fn decimals(entry: Option<u32>) -> (r: Result<u32, Trap>) {
        stored_decimals(entry)
    }

    fn symbol(entry: Option<soroban_sdk::String>) -> (r: Result<soroban_sdk::String, Trap>) {
        required(entry)
    }

    fn mint(
        to: soroban_sdk::Address,
        amount: i128,
        balance: Option<i128>,
        total_supply: Option<i128>,
    ) -> (r: Result<Result<SupplyChange, Sep0041Error>, Trap>) {
        mint_change(to, balance, total_supply, amount)
    }

    fn allowance(entry: Option<(i128, u64)>) -> (r: Result<i128, Trap>) {
        let details = Self::_allowance(entry)?;
        Ok(details.amount)
    }

    fn approve(
        from: soroban_sdk::Address,
        spender: soroban_sdk::Address,
        amount: i128,
        live_until_ledger: u32,
        now: u64,
    ) -> (r: Result<(DataKey, AllowanaceDetails), Trap>) {
        approval(from, spender, now, amount, live_until_ledger)
    }

    fn transfer(
        from: soroban_sdk::Address,
        to: soroban_sdk::Address,
        amount: i128,
        from_balance: Option<i128>,
        to_balance: Option<i128>,
    ) -> (r: Result<Movement, Trap>) {
        Self::_check_for_zero_amount(amount)?;
        Self::_transfer(from, to, amount, from_balance, to_balance)
    }

    fn burn(
        from: soroban_sdk::Address,
        amount: i128,
        balance: Option<i128>,
        total_supply: Option<i128>,
    ) -> (r: Result<SupplyChange, Trap>) {
        Self::_check_for_zero_amount(amount)?;
        Self::_burn(from, amount, balance, total_supply)
    }

    fn transfer_from(
        spender: soroban_sdk::Address,
        from: soroban_sdk::Address,
        to: soroban_sdk::Address,
        amount: i128,
        allowance: Option<(i128, u64)>,
        now: u64,
        from_balance: Option<i128>,
        to_balance: Option<i128>,
    ) -> (r: Result<Draw, Trap>) {
        let same_account = same_address(&from, &to);
        draw(spender, from, to, allowance, now, from_balance, to_balance, amount, same_account)
    }

    fn burn_from(
        spender: soroban_sdk::Address,
        from: soroban_sdk::Address,
        amount: i128,
        allowance: Option<(i128, u64)>,
        now: u64,
        balance: Option<i128>,
        total_supply: Option<i128>,
    ) -> (r: Result<DrawnBurn, Trap>) {
        drawn_burn(spender, from, allowance, now, balance, total_supply, amount)
    }
}

impl Sep0041 {
    /// Accepts an amount that is strictly positive, and no other.
    pub fn _check_for_zero_amount(amount: i128) -> (r: Result<(), Trap>)
        ensures
            r == if amount > 0 {
                Ok::<(), Trap>(())
            } else {
                Err(Trap::InvalidAmount)
            },
    {
        if amount > 0 {
            Ok(())
        } else {
            Err(Trap::InvalidAmount)
        }
    }

    /// The allowance record of `amount` that lasts until `deadline`.
    pub fn _create_allowance_details(amount: i128, deadline: u64) -> (details: AllowanaceDetails)
        ensures
            details == (AllowanaceDetails { amount, deadline }),
    {
        AllowanaceDetails { amount, deadline }
    }

    /// What a burn of `amount` writes, given the entries of the balance of `from` and
    /// of the total supply.
    fn _burn(
        from: soroban_sdk::Address,
        amount: i128,
        from_balance: Option<i128>,
        total_supply: Option<i128>,
    ) -> (r: Result<SupplyChange, Trap>)
        ensures
            r == burn_step(from, from_balance, total_supply, amount),
    {
        burn_change(from, from_balance, total_supply, amount)
    }

    /// What a transfer of `amount` writes, given the entries of the two balances. A
    /// transfer from an account to itself leaves its balance as it is.
    fn _transfer(
        from: soroban_sdk::Address,
        to: soroban_sdk::Address,
        amount: i128,
        from_balance: Option<i128>,
        to_balance: Option<i128>,
    ) -> (r: Result<Movement, Trap>)
        ensures
            r == transfer_step(from, to, from_balance, to_balance, amount, from == to),
    {
        let same_account = same_address(&from, &to);
        movement(from, to, from_balance, to_balance, amount, same_account)
    }

    fn _balance(entry: Option<i128>) -> (r: Result<i128, Trap>)
        ensures
            r == stored_amount_outcome(entry),
    {
        stored_amount(entry)
    }

    fn _allowance(entry: Option<(i128, u64)>) -> (r: Result<AllowanaceDetails, Trap>)
        ensures
            r == stored_allowance_outcome(entry),
    {
        stored_allowance(entry)
    }

    fn _total_supply(entry: Option<i128>) -> (r: Result<i128, Trap>)
        ensures
            r == stored_amount_outcome(entry),
    {
        stored_amount(entry)
    }
}

} // verus!
