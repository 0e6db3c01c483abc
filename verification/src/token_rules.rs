//! The arithmetic of the token: what each operation does to the numbers it touches.
//!
//! Every function here takes plain numbers and hands plain numbers back. Each has a
//! specification over unbounded integers, and the executable function computes
//! exactly that.
use crate::errors::Sep0041Error;
use crate::errors::Trap;
use vstd::prelude::*;

verus! {

/// The decimals of every token of this kind.
pub const DECIMALS: u32 = 18;

/// Seconds of ledger time that one unit of an approval's lifetime stands for.
pub const SECONDS_IN_TIME: u64 = 60;

/// What a spender may still move, and until when.
#[derive(Clone, Copy, Debug, PartialEq, Eq, Structural)]
pub struct AllowanaceDetails {
    pub amount: i128,
    pub deadline: u64,
}

/// The balance or the total supply that a stored entry stands for: zero where there
/// is no entry. A number below zero is no balance and no supply.
pub open spec fn stored_amount_outcome(entry: Option<i128>) -> Result<i128, Trap> {
    match entry {
        None => Ok(0),
        Some(amount) => if amount < 0 {
            Err(Trap::MalformedEntry)
        } else {
            Ok(amount)
        },
    }
}

/// Reads a stored entry as a balance or a total supply.
pub fn stored_amount(entry: Option<i128>) -> (r: Result<i128, Trap>)
    ensures
        r == stored_amount_outcome(entry),
        r matches Ok(amount) ==> amount >= 0,
{
    match entry {
        None => Ok(0),
        Some(amount) => {
            if amount < 0 {
                Err(Trap::MalformedEntry)
            } else {
                Ok(amount)
            }
        },
    }
}

/// The allowance that a stored pair of an amount and a deadline stands for. Where
/// there is no entry there is no allowance, and an amount below zero is none either.
pub open spec fn stored_allowance_outcome(entry: Option<(i128, u64)>) -> Result<
    AllowanaceDetails,
    Trap,
> {
    match entry {
        None => Err(Trap::MissingEntry),
        Some((amount, deadline)) => if amount < 0 {
            Err(Trap::MalformedEntry)
        } else {
            Ok(AllowanaceDetails { amount, deadline })
        },
    }
}

/// Reads a stored entry as an allowance.
pub fn stored_allowance(entry: Option<(i128, u64)>) -> (r: Result<AllowanaceDetails, Trap>)
    ensures
        r == stored_allowance_outcome(entry),
        r matches Ok(details) ==> details.amount >= 0,
{
    match entry {
        None => Err(Trap::MissingEntry),
        Some((amount, deadline)) => {
            if amount < 0 {
                Err(Trap::MalformedEntry)
            } else {
                Ok(AllowanaceDetails { amount, deadline })
            }
        },
    }
}

/// The decimals that a stored entry stands for: `DECIMALS`, which is all that the
/// constructor ever writes. Before construction there is no entry.
pub open spec fn stored_decimals_outcome(entry: Option<u32>) -> Result<u32, Trap> {
    match entry {
        None => Err(Trap::MissingEntry),
        Some(decimals) => if decimals == DECIMALS {
            Ok(DECIMALS)
        } else {
            Err(Trap::MalformedEntry)
        },
    }
}

/// Reads a stored entry as the token's decimals.
pub fn stored_decimals(entry: Option<u32>) -> (r: Result<u32, Trap>)
    ensures
        r == stored_decimals_outcome(entry),
        r matches Ok(decimals) ==> decimals == DECIMALS,
{
    match entry {
        None => Err(Trap::MissingEntry),
        Some(decimals) => {
            if decimals == DECIMALS {
                Ok(DECIMALS)
            } else {
                Err(Trap::MalformedEntry)
            }
        },
    }
}

/// A pair of machine integers as unbounded ones.
pub open spec fn widen_pair(r: Result<(i128, i128), Trap>) -> Result<(int, int), Trap> {
    match r {
        Ok((first, second)) => Ok((first as int, second as int)),
        Err(trap) => Err(trap),
    }
}

/// What minting `amount` does to the credited balance and to the total supply, in
/// that order. An amount that is not positive is refused with the token's error; a
/// sum beyond the largest `i128` aborts.
pub open spec fn mint_outcome(balance: int, total_supply: int, amount: int) -> Result<
    Result<(int, int), Sep0041Error>,
    Trap,
> {
    if amount <= 0 {
        Ok(Err(Sep0041Error::InsufficientBalance))
    } else if balance + amount > i128::MAX || total_supply + amount > i128::MAX {
        Err(Trap::Overflow)
    } else {
        Ok(Ok((balance + amount, total_supply + amount)))
    }
}

/// Computes the balance and the total supply after a mint of `amount`.
pub fn mint_amounts(balance: i128, total_supply: i128, amount: i128) -> (r: Result<
    Result<(i128, i128), Sep0041Error>,
    Trap,
>)
    ensures
        match r {
            Ok(Ok((b, t))) => mint_outcome(balance as int, total_supply as int, amount as int)
                == Ok::<Result<(int, int), Sep0041Error>, Trap>(Ok((b as int, t as int))),
            Ok(Err(e)) => mint_outcome(balance as int, total_supply as int, amount as int) == Ok::<
                Result<(int, int), Sep0041Error>,
                Trap,
            >(Err(e)),
            Err(t) => mint_outcome(balance as int, total_supply as int, amount as int) == Err::<
                Result<(int, int), Sep0041Error>,
                Trap,
            >(t),
        },
{
    if amount <= 0 {
        return Ok(Err(Sep0041Error::InsufficientBalance));
    }
    match (balance.checked_add(amount), total_supply.checked_add(amount)) {
        (Some(b), Some(t)) => Ok(Ok((b, t))),
        _ => Err(Trap::Overflow),
    }
}

/// The allowance that an approval of `amount` creates at ledger time `now`, when it is
/// to live for `live_until_ledger` units of `SECONDS_IN_TIME` seconds: the amount and
/// the deadline. The lifetime in seconds has to exceed `now` itself.
pub open spec fn approve_outcome(now: int, amount: int, live_until_ledger: int) -> Result<
    (int, int),
    Trap,
> {
    if amount <= 0 {
        Err(Trap::InvalidAmount)
    } else if live_until_ledger * 60 <= now {
        Err(Trap::InvalidDeadline)
    } else {
        Ok((amount, now + live_until_ledger * 60))
    }
}

/// Computes the allowance record that an approval creates.
pub fn approval_details(now: u64, amount: i128, live_until_ledger: u32) -> (r: Result<
    AllowanaceDetails,
    Trap,
>)
    ensures
        match r {
            Ok(details) => approve_outcome(now as int, amount as int, live_until_ledger as int)
                == Ok::<(int, int), Trap>((details.amount as int, details.deadline as int)),
            Err(trap) => approve_outcome(now as int, amount as int, live_until_ledger as int)
                == Err::<(int, int), Trap>(trap),
        },
{
    if amount <= 0 {
        return Err(Trap::InvalidAmount);
    }
    let lifetime: u64 = live_until_ledger as u64 * SECONDS_IN_TIME;
    if lifetime <= now {
        return Err(Trap::InvalidDeadline);
    }
    Ok(AllowanaceDetails { amount, deadline: now + lifetime })
}

/// What moving `amount` does to the debited and to the credited balance, in that
/// order. Where both are the balance of one account (`same_account`), `to_balance` is
/// not looked at and the balance stays as it is.
pub open spec fn transfer_outcome(
    from_balance: int,
    to_balance: int,
    amount: int,
    same_account: bool,
) -> Result<(int, int), Trap> {
    if amount <= 0 {
        Err(Trap::InvalidAmount)
    } else if from_balance < amount {
        Err(Trap::InsufficientBalance)
    } else if same_account {
        Ok((from_balance, from_balance))
    } else if to_balance + amount > i128::MAX {
        Err(Trap::Overflow)
    } else {
        Ok((from_balance - amount, to_balance + amount))
    }
}

/// Computes the two balances after a transfer of `amount`.
pub fn transfer_amounts(from_balance: i128, to_balance: i128, amount: i128, same_account: bool) -> (r:
    Result<(i128, i128), Trap>)
    ensures
        widen_pair(r) == transfer_outcome(
            from_balance as int,
            to_balance as int,
            amount as int,
            same_account,
        ),
{
    if amount <= 0 {
        return Err(Trap::InvalidAmount);
    }
    if from_balance < amount {
        return Err(Trap::InsufficientBalance);
    }
    if same_account {
        return Ok((from_balance, from_balance));
    }
    match to_balance.checked_add(amount) {
        Some(credited) => Ok((from_balance - amount, credited)),
        None => Err(Trap::Overflow),
    }
}

/// What burning `amount` does to the debited balance and to the total supply, in that
/// order.
pub open spec fn burn_outcome(balance: int, total_supply: int, amount: int) -> Result<
    (int, int),
    Trap,
> {
    if amount <= 0 {
        Err(Trap::InvalidAmount)
    } else if balance < amount {
        Err(Trap::InsufficientBalance)
    } else if total_supply < amount {
        Err(Trap::InsufficientSupply)
    } else {
        Ok((balance - amount, total_supply - amount))
    }
}

/// Computes the balance and the total supply after a burn of `amount`.
pub fn burn_amounts(balance: i128, total_supply: i128, amount: i128) -> (r: Result<
    (i128, i128),
    Trap,
>)
    ensures
        widen_pair(r) == burn_outcome(balance as int, total_supply as int, amount as int),
{
    if amount <= 0 {
        return Err(Trap::InvalidAmount);
    }
    if balance < amount {
        return Err(Trap::InsufficientBalance);
    }
    if total_supply < amount {
        return Err(Trap::InsufficientSupply);
    }
    Ok((balance - amount, total_supply - amount))
}

/// What is left of `allowance` once a spender has drawn `amount` on it at ledger time
/// `now`. The allowance has to be there, to cover the amount, and to have a deadline
/// that is not before `now`; the deadline stays.
pub open spec fn spend_outcome(allowance: Option<AllowanaceDetails>, now: int, amount: int) -> Result<
    AllowanaceDetails,
    Trap,
> {
    if amount <= 0 {
        Err(Trap::InvalidAmount)
    } else {
        match allowance {
            None => Err(Trap::MissingEntry),
            Some(details) => if details.amount < amount {
                Err(Trap::InsufficientAllowance)
            } else if details.deadline < now {
                Err(Trap::AllowanceExpired)
            } else {
                Ok(
                    AllowanaceDetails {
                        amount: (details.amount - amount) as i128,
                        deadline: details.deadline,
                    },
                )
            },
        }
    }
}

/// Computes the allowance that is left after a spender has drawn `amount` on it.
pub fn spend_allowance(allowance: Option<AllowanaceDetails>, now: u64, amount: i128) -> (r: Result<
    AllowanaceDetails,
    Trap,
>)
    ensures
        r == spend_outcome(allowance, now as int, amount as int),
        r matches Ok(left) ==> allowance matches Some(details) && left.amount == details.amount
            - amount && left.deadline == details.deadline,
{
    if amount <= 0 {
        return Err(Trap::InvalidAmount);
    }
    match allowance {
        None => Err(Trap::MissingEntry),
        Some(details) => {
            if details.amount < amount {
                Err(Trap::InsufficientAllowance)
            } else if details.deadline < now {
                Err(Trap::AllowanceExpired)
            } else {
                Ok(AllowanaceDetails { amount: details.amount - amount, deadline: details.deadline })
            }
        },
    }
}

} // verus!
