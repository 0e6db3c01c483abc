//! What each entry point of the token computes.
//!
//! A step takes the arguments of an entry point and the entries that the contract has
//! read for it, `None` for an entry that is absent, and gives every value that the
//! contract is to write, each together with the key that it goes under. The entry
//! points of `token` are these steps under the names of the contract's interface; the
//! model in `token_model` is built from the same specifications.
use crate::errors::Sep0041Error;
use crate::errors::Trap;
use crate::token::DataKey;
use crate::token_rules::approval_details;
use crate::token_rules::approve_outcome;
use crate::token_rules::burn_amounts;
use crate::token_rules::burn_outcome;
use crate::token_rules::mint_amounts;
use crate::token_rules::mint_outcome;
use crate::token_rules::spend_allowance;
use crate::token_rules::spend_outcome;
use crate::token_rules::stored_allowance;
use crate::token_rules::stored_allowance_outcome;
use crate::token_rules::stored_amount;
use crate::token_rules::stored_amount_outcome;
use crate::token_rules::transfer_amounts;
use crate::token_rules::transfer_outcome;
use crate::token_rules::AllowanaceDetails;
use crate::token_rules::DECIMALS;
use vstd::prelude::*;

verus! {

/// What the constructor writes.
#[derive(Debug, PartialEq, Eq)]
pub struct Metadata {
    pub admin: (DataKey, soroban_sdk::Address),
    pub name: (DataKey, soroban_sdk::String),
    pub symbol: (DataKey, soroban_sdk::String),
    pub decimals: (DataKey, u32),
}

/// What a mint or a burn writes: a balance and the total supply.
#[derive(Debug, PartialEq, Eq)]
pub struct SupplyChange {
    pub balance: (DataKey, i128),
    pub total_supply: (DataKey, i128),
}

/// What a transfer writes: the balance that was debited and the one that was credited.
#[derive(Debug, PartialEq, Eq)]
pub struct Movement {
    pub debit: (DataKey, i128),
    pub credit: (DataKey, i128),
}

/// What a `transfer_from` writes: the two balances and what is left of the allowance.
#[derive(Debug, PartialEq, Eq)]
pub struct Draw {
    pub debit: (DataKey, i128),
    pub credit: (DataKey, i128),
    pub allowance: (DataKey, AllowanaceDetails),
}

/// What a `burn_from` writes: the balance, the total supply and what is left of the
/// allowance.
#[derive(Debug, PartialEq, Eq)]
pub struct DrawnBurn {
    pub balance: (DataKey, i128),
    pub total_supply: (DataKey, i128),
    pub allowance: (DataKey, AllowanaceDetails),
}

/// The constructor: the administrator, the name, the symbol and 18 decimals, each
/// under its key.
pub open spec fn construction_step(
    admin: soroban_sdk::Address,
    name: soroban_sdk::String,
    symbol: soroban_sdk::String,
) -> Metadata {
    Metadata {
        admin: (DataKey::Admin, admin),
        name: (DataKey::Name, name),
        symbol: (DataKey::Symbol, symbol),
        decimals: (DataKey::Decimal, DECIMALS),
    }
}

/// Computes what the constructor writes.
pub fn construction(admin: soroban_sdk::Address, name: soroban_sdk::String, symbol: soroban_sdk::String) -> (r:
    Metadata)
    ensures
        r == construction_step(admin, name, symbol),
{
    Metadata {
        admin: (DataKey::Admin, admin),
        name: (DataKey::Name, name),
        symbol: (DataKey::Symbol, symbol),
        decimals: (DataKey::Decimal, DECIMALS),
    }
}

/// `mint`, given the entries of the balance of `to` and of the total supply: the new
/// balance under the key of `to` and the new total supply under its key.
pub open spec fn mint_step(
    to: soroban_sdk::Address,
    balance: Option<i128>,
    total_supply: Option<i128>,
    amount: i128,
) -> Result<Result<SupplyChange, Sep0041Error>, Trap> {
    if amount <= 0 {
        Ok(Err(Sep0041Error::InsufficientBalance))
    } else {
        match (stored_amount_outcome(balance), stored_amount_outcome(total_supply)) {
            (Ok(held), Ok(supply)) => match mint_outcome(held as int, supply as int, amount as int) {
                Ok(Ok((new_balance, new_supply))) => Ok(
                    Ok(
                        SupplyChange {
                            balance: (DataKey::Balance(to), new_balance as i128),
                            total_supply: (DataKey::TotalSupply, new_supply as i128),
                        },
                    ),
                ),
                Ok(Err(e)) => Ok(Err(e)),
                Err(trap) => Err(trap),
            },
            _ => Err(Trap::MalformedEntry),
        }
    }
}

/// Computes what a mint writes.
pub fn mint_change(to: soroban_sdk::Address, balance: Option<i128>, total_supply: Option<i128>, amount: i128) -> (r:
    Result<Result<SupplyChange, Sep0041Error>, Trap>)
    ensures
        r == mint_step(to, balance, total_supply, amount),
{
    if amount <= 0 {
        return Ok(Err(Sep0041Error::InsufficientBalance));
    }
    let held = stored_amount(balance)?;
    let supply = stored_amount(total_supply)?;
    match mint_amounts(held, supply, amount)? {
        Ok((new_balance, new_supply)) => Ok(
            Ok(
                SupplyChange {
                    balance: (DataKey::Balance(to), new_balance),
                    total_supply: (DataKey::TotalSupply, new_supply),
                },
            ),
        ),
        Err(e) => Ok(Err(e)),
    }
}

/// `approve` at ledger time `now`: the allowance under the key of `from` and
/// `spender`.
pub open spec fn approve_step(
    from: soroban_sdk::Address,
    spender: soroban_sdk::Address,
    now: u64,
    amount: i128,
    live_until_ledger: u32,
) -> Result<(DataKey, AllowanaceDetails), Trap> {
    match approve_outcome(now as int, amount as int, live_until_ledger as int) {
        Ok((granted, deadline)) => Ok(
            (
                DataKey::Allowance(from, spender),
                AllowanaceDetails { amount: granted as i128, deadline: deadline as u64 },
            ),
        ),
        Err(trap) => Err(trap),
    }
}

/// Computes what an approval writes.
pub fn approval(
    from: soroban_sdk::Address,
    spender: soroban_sdk::Address,
    now: u64,
    amount: i128,
    live_until_ledger: u32,
) -> (r: Result<(DataKey, AllowanaceDetails), Trap>)
    ensures
        r == approve_step(from, spender, now, amount, live_until_ledger),
{
    let details = approval_details(now, amount, live_until_ledger)?;
    Ok((DataKey::Allowance(from, spender), details))
}

/// `transfer`, given the entries of the two balances and whether `from` and `to` are
/// one account: the new balance of `from` under its key and that of `to` under its
/// key. For one account both are its balance, unchanged.
pub open spec fn transfer_step(
    from: soroban_sdk::Address,
    to: soroban_sdk::Address,
    from_balance: Option<i128>,
    to_balance: Option<i128>,
    amount: i128,
    same_account: bool,
) -> Result<Movement, Trap> {
    if amount <= 0 {
        Err(Trap::InvalidAmount)
    } else {
        match (stored_amount_outcome(from_balance), stored_amount_outcome(to_balance)) {
            (Ok(held), Ok(other)) => match transfer_outcome(
                held as int,
                other as int,
                amount as int,
                same_account,
            ) {
                Ok((debited, credited)) => Ok(
                    Movement {
                        debit: (DataKey::Balance(from), debited as i128),
                        credit: (DataKey::Balance(to), credited as i128),
                    },
                ),
                Err(trap) => Err(trap),
            },
            _ => Err(Trap::MalformedEntry),
        }
    }
}

/// Computes what a transfer writes.
pub fn movement(
    from: soroban_sdk::Address,
    to: soroban_sdk::Address,
    from_balance: Option<i128>,
    to_balance: Option<i128>,
    amount: i128,
    same_account: bool,
) -> (r: Result<Movement, Trap>)
    ensures
        r == transfer_step(from, to, from_balance, to_balance, amount, same_account),
{
    if amount <= 0 {
        return Err(Trap::InvalidAmount);
    }
    let held = stored_amount(from_balance)?;
    let other = stored_amount(to_balance)?;
    let (debited, credited) = transfer_amounts(held, other, amount, same_account)?;
    Ok(Movement { debit: (DataKey::Balance(from), debited), credit: (DataKey::Balance(to), credited) })
}

/// `burn`, given the entries of the balance of `from` and of the total supply.
pub open spec fn burn_step(
    from: soroban_sdk::Address,
    balance: Option<i128>,
    total_supply: Option<i128>,
    amount: i128,
) -> Result<SupplyChange, Trap> {
    if amount <= 0 {
        Err(Trap::InvalidAmount)
    } else {
        match (stored_amount_outcome(balance), stored_amount_outcome(total_supply)) {
            (Ok(held), Ok(supply)) => match burn_outcome(held as int, supply as int, amount as int) {
                Ok((new_balance, new_supply)) => Ok(
                    SupplyChange {
                        balance: (DataKey::Balance(from), new_balance as i128),
                        total_supply: (DataKey::TotalSupply, new_supply as i128),
                    },
                ),
                Err(trap) => Err(trap),
            },
            _ => Err(Trap::MalformedEntry),
        }
    }
}

/// Computes what a burn writes.
pub fn burn_change(from: soroban_sdk::Address, balance: Option<i128>, total_supply: Option<i128>, amount: i128) -> (r:
    Result<SupplyChange, Trap>)
    ensures
        r == burn_step(from, balance, total_supply, amount),
{
    if amount <= 0 {
        return Err(Trap::InvalidAmount);
    }
    let held = stored_amount(balance)?;
    let supply = stored_amount(total_supply)?;
    let (new_balance, new_supply) = burn_amounts(held, supply, amount)?;
    Ok(
        SupplyChange {
            balance: (DataKey::Balance(from), new_balance),
            total_supply: (DataKey::TotalSupply, new_supply),
        },
    )
}

/// What is left of the allowance that `from` gave to `spender` after a draw of
/// `amount` at ledger time `now`, under the key of the pair.
pub open spec fn spend_step(
    spender: soroban_sdk::Address,
    from: soroban_sdk::Address,
    allowance: Option<(i128, u64)>,
    now: u64,
    amount: i128,
) -> Result<(DataKey, AllowanaceDetails), Trap> {
    if amount <= 0 {
        Err(Trap::InvalidAmount)
    } else {
        match stored_allowance_outcome(allowance) {
            Err(trap) => Err(trap),
            Ok(details) => match spend_outcome(Some(details), now as int, amount as int) {
                Err(trap) => Err(trap),
                Ok(left) => Ok((DataKey::Allowance(from, spender), left)),
            },
        }
    }
}

/// Computes what is left of an allowance after a draw.
pub fn spending(
    spender: soroban_sdk::Address,
    from: soroban_sdk::Address,
    allowance: Option<(i128, u64)>,
    now: u64,
    amount: i128,
) -> (r: Result<(DataKey, AllowanaceDetails), Trap>)
    ensures
        r == spend_step(spender, from, allowance, now, amount),
{
    if amount <= 0 {
        return Err(Trap::InvalidAmount);
    }
    let details = stored_allowance(allowance)?;
    let left = spend_allowance(Some(details), now, amount)?;
    Ok((DataKey::Allowance(from, spender), left))
}

/// `transfer_from` at ledger time `now`, given the entries of the allowance and of the
/// two balances: the allowance has to cover the amount and not to be past its
/// deadline, then the balances change as in a transfer.
pub open spec fn draw_step(
    spender: soroban_sdk::Address,
    from: soroban_sdk::Address,
    to: soroban_sdk::Address,
    allowance: Option<(i128, u64)>,
    now: u64,
    from_balance: Option<i128>,
    to_balance: Option<i128>,
    amount: i128,
    same_account: bool,
) -> Result<Draw, Trap> {
    match spend_step(spender, from, allowance, now, amount) {
        Err(trap) => Err(trap),
        Ok(left) => match transfer_step(from, to, from_balance, to_balance, amount, same_account) {
            Err(trap) => Err(trap),
            Ok(moved) => Ok(Draw { debit: moved.debit, credit: moved.credit, allowance: left }),
        },
    }
}

/// Computes what a `transfer_from` writes.
pub fn draw(
    spender: soroban_sdk::Address,
    from: soroban_sdk::Address,
    to: soroban_sdk::Address,
    allowance: Option<(i128, u64)>,
    now: u64,
    from_balance: Option<i128>,
    to_balance: Option<i128>,
    amount: i128,
    same_account: bool,
) -> (r: Result<Draw, Trap>)
    ensures
        r == draw_step(
            spender,
            from,
            to,
            allowance,
            now,
            from_balance,
            to_balance,
            amount,
            same_account,
        ),
{
    let left = spending(spender, from.clone(), allowance, now, amount)?;
    let moved = movement(from, to, from_balance, to_balance, amount, same_account)?;
    Ok(Draw { debit: moved.debit, credit: moved.credit, allowance: left })
}

/// `burn_from` at ledger time `now`, given the entries of the allowance, of the
/// balance of `from` and of the total supply.
pub open spec fn drawn_burn_step(
    spender: soroban_sdk::Address,
    from: soroban_sdk::Address,
    allowance: Option<(i128, u64)>,
    now: u64,
    balance: Option<i128>,
    total_supply: Option<i128>,
    amount: i128,
) -> Result<DrawnBurn, Trap> {
    match spend_step(spender, from, allowance, now, amount) {
        Err(trap) => Err(trap),
        Ok(left) => match burn_step(from, balance, total_supply, amount) {
            Err(trap) => Err(trap),
            Ok(burned) => Ok(
                DrawnBurn {
                    balance: burned.balance,
                    total_supply: burned.total_supply,
                    allowance: left,
                },
            ),
        },
    }
}

/// Computes what a `burn_from` writes.
pub fn drawn_burn(
    spender: soroban_sdk::Address,
    from: soroban_sdk::Address,
    allowance: Option<(i128, u64)>,
    now: u64,
    balance: Option<i128>,
    total_supply: Option<i128>,
    amount: i128,
) -> (r: Result<DrawnBurn, Trap>)
    ensures
        r == drawn_burn_step(spender, from, allowance, now, balance, total_supply, amount),
{
    let left = spending(spender, from.clone(), allowance, now, amount)?;
    let burned = burn_change(from, balance, total_supply, amount)?;
    Ok(DrawnBurn { balance: burned.balance, total_supply: burned.total_supply, allowance: left })
}

} // verus!
