//! The rules of the payroll: ranks, the head count and the amount to pay.
use crate::errors::EmployeeContractError;
use crate::errors::Trap;
use vstd::prelude::*;

verus! {

/// Seniority of an employee.
#[allow(non_camel_case_types)]
#[derive(Clone, Copy, Debug, PartialEq, Eq, Structural)]
pub enum Rank {
    Level_1,
    Level_2,
    Level_3,
}

/// The rank that a promotion to `level` gives: the second for 1, the third for 2, the
/// first for every other level.
pub open spec fn rank_for_level(level: int) -> Rank {
    if level == 1 {
        Rank::Level_2
    } else if level == 2 {
        Rank::Level_3
    } else {
        Rank::Level_1
    }
}

impl Rank {
    /// The rank that a promotion to `level` gives.
    pub fn check_level(level: u8) -> (rank: Rank)
        ensures
            rank == rank_for_level(level as int),
    {
        match level {
            1 => Rank::Level_2,
            2 => Rank::Level_3,
            _ => Rank::Level_1,
        }
    }

    /// The rank that a promotion to `level` gives, for a level of any size.
    pub fn of_level(level: u32) -> (rank: Rank)
        ensures
            rank == rank_for_level(level as int),
    {
        if level <= 255 {
            Self::check_level(level as u8)
        } else {
            Rank::Level_1
        }
    }
}

/// Whether a payroll may be constructed: once, so not where it has an owner already.
pub open spec fn construction_outcome(constructed: bool) -> Result<(), Trap> {
    if constructed {
        Err(Trap::AlreadyInitialized)
    } else {
        Ok(())
    }
}

/// Decides whether a payroll may be constructed.
pub fn first_construction(constructed: bool) -> (r: Result<(), Trap>)
    ensures
        r == construction_outcome(constructed),
{
    if constructed {
        Err(Trap::AlreadyInitialized)
    } else {
        Ok(())
    }
}

/// The head count after an address is hired: one more, unless the address is
/// employed already or the count is at the largest `u128`.
pub open spec fn hire_outcome(employed: bool, count: int) -> Result<int, Trap> {
    if employed {
        Err(Trap::AlreadyEmployee)
    } else if count + 1 > u128::MAX {
        Err(Trap::Overflow)
    } else {
        Ok(count + 1)
    }
}

/// Computes the head count after a hire.
pub fn count_after_hire(employed: bool, count: u128) -> (r: Result<u128, Trap>)
    ensures
        match r {
            Ok(next) => hire_outcome(employed, count as int) == Ok::<int, Trap>(next as int),
            Err(trap) => hire_outcome(employed, count as int) == Err::<int, Trap>(trap),
        },
{
    if employed {
        return Err(Trap::AlreadyEmployee);
    }
    match count.checked_add(1) {
        Some(next) => Ok(next),
        None => Err(Trap::Overflow),
    }
}

/// The head count after an address is removed: one less. An address that is not
/// employed is refused with the payroll's error; a count that is absent or zero while
/// somebody is employed aborts.
pub open spec fn removal_outcome(employed: bool, count: Option<int>) -> Result<
    Result<int, EmployeeContractError>,
    Trap,
> {
    if !employed {
        Ok(Err(EmployeeContractError::NotAnEmployee))
    } else {
        match count {
            None => Err(Trap::MissingEntry),
            Some(number) => if number <= 0 {
                Err(Trap::Overflow)
            } else {
                Ok(Ok(number - 1))
            },
        }
    }
}

/// The count as an unbounded integer.
pub open spec fn widen_count(count: Option<u128>) -> Option<int> {
    match count {
        Some(number) => Some(number as int),
        None => None,
    }
}

/// Computes the head count after a removal.
pub fn count_after_removal(employed: bool, count: Option<u128>) -> (r: Result<
    Result<u128, EmployeeContractError>,
    Trap,
>)
    ensures
        match r {
            Ok(Ok(next)) => removal_outcome(employed, widen_count(count)) == Ok::<
                Result<int, EmployeeContractError>,
                Trap,
            >(Ok(next as int)),
            Ok(Err(e)) => removal_outcome(employed, widen_count(count)) == Ok::<
                Result<int, EmployeeContractError>,
                Trap,
            >(Err(e)),
            Err(trap) => removal_outcome(employed, widen_count(count)) == Err::<
                Result<int, EmployeeContractError>,
                Trap,
            >(trap),
        },
{
    if !employed {
        return Ok(Err(EmployeeContractError::NotAnEmployee));
    }
    match count {
        None => Err(Trap::MissingEntry),
        Some(number) => {
            if number == 0 {
                Err(Trap::Overflow)
            } else {
                Ok(Ok(number - 1))
            }
        },
    }
}

/// The pay as an amount of the token: itself, unless it is beyond the largest `i128`.
pub open spec fn pay_outcome(pay: int) -> Result<int, Trap> {
    if pay > i128::MAX {
        Err(Trap::Overflow)
    } else {
        Ok(pay)
    }
}

/// Converts a pay into an amount of the token.
pub fn pay_amount(pay: u128) -> (r: Result<i128, Trap>)
    ensures
        match r {
            Ok(amount) => pay_outcome(pay as int) == Ok::<int, Trap>(amount as int),
            Err(trap) => pay_outcome(pay as int) == Err::<int, Trap>(trap),
        },
{
    if pay > i128::MAX as u128 {
        Err(Trap::Overflow)
    } else {
        Ok(pay as i128)
    }
}

} // verus!
