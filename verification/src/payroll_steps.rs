//! What each entry point of the payroll computes.
//!
//! A step takes the arguments of an entry point and the entries that the contract has
//! read for it, `None` for an entry that is absent, and gives every value that the
//! contract is to write, each together with the key that it goes under, the event that
//! it is to publish, and, for a pay, the call that it is to make into the token. The
//! entry points of `payroll` are built from these steps; the model in `payroll_model`
//! is built from the same specifications.
use crate::errors::EmployeeContractError;
use crate::errors::Trap;
use crate::events::EmployeePaid;
use crate::events::EmployeeRemoved;
use crate::events::EmployeeSuspended;
use crate::payroll::promotion;
use crate::payroll::promotion_outcome;
use crate::payroll::DataKey;
use crate::payroll::Employee;
use crate::payroll_rules::construction_outcome;
use crate::payroll_rules::count_after_hire;
use crate::payroll_rules::count_after_removal;
use crate::payroll_rules::first_construction;
use crate::payroll_rules::hire_outcome;
use crate::payroll_rules::pay_amount;
use crate::payroll_rules::pay_outcome;
use crate::payroll_rules::removal_outcome;
use crate::payroll_rules::widen_count;
use crate::payroll_rules::Rank;
use crate::storage::or_absent;
use vstd::prelude::*;

verus! {

/// What the constructor writes.
#[derive(Debug, PartialEq, Eq)]
pub struct Founding {
    pub owner: (DataKey, soroban_sdk::Address),
    pub token: (DataKey, soroban_sdk::Address),
}

/// What a hire writes.
#[derive(Debug, PartialEq, Eq)]
pub struct Hire {
    pub record: (DataKey, Employee),
    pub exist: (DataKey, bool),
    pub count: (DataKey, u128),
}

/// What a removal deletes, writes and publishes.
#[derive(Debug, PartialEq, Eq)]
pub struct Removal {
    /// The key of the record to delete.
    pub record: DataKey,
    pub exist: (DataKey, bool),
    pub count: (DataKey, u128),
    pub event: EmployeeRemoved,
}

/// The call into the token that a pay makes, and what it publishes once the call has
/// gone through: `transfer_from(spender, from, to, amount)` on the contract at
/// `token`.
#[derive(Debug, PartialEq, Eq)]
pub struct Payment {
    pub token: soroban_sdk::Address,
    pub spender: soroban_sdk::Address,
    pub from: soroban_sdk::Address,
    pub to: soroban_sdk::Address,
    pub amount: i128,
    pub event: EmployeePaid,
}

/// What a suspension writes and publishes.
#[derive(Debug, PartialEq, Eq)]
pub struct Suspension {
    pub flag: (DataKey, bool),
    pub event: EmployeeSuspended,
}

/// Whether an existence flag, as it was read, is set.
pub open spec fn is_set(exist: Option<bool>) -> bool {
    match exist {
        Some(flag) => flag,
        None => false,
    }
}

/// The head count that an entry, as it was read, stands for.
pub open spec fn count_of(count: Option<u128>) -> u128 {
    match count {
        Some(number) => number,
        None => 0,
    }
}

/// The constructor, given whether there is an owner already: the owner and the
/// token's address, each under its key.
pub open spec fn founding_step(
    admin: soroban_sdk::Address,
    token: soroban_sdk::Address,
    constructed: bool,
) -> Result<Founding, Trap> {
    match construction_outcome(constructed) {
        Err(trap) => Err(trap),
        Ok(_) => Ok(Founding { owner: (DataKey::Owner, admin), token: (DataKey::Contract, token) }),
    }
}

/// Computes what the constructor writes.
pub fn founding(admin: soroban_sdk::Address, token: soroban_sdk::Address, constructed: bool) -> (r:
    Result<Founding, Trap>)
    ensures
        r == founding_step(admin, token, constructed),
{
    first_construction(constructed)?;
    Ok(Founding { owner: (DataKey::Owner, admin), token: (DataKey::Contract, token) })
}

/// `add_employee`, given the existence flag of the address and the head count: the
/// record at the first rank under the key of the address, the flag set, and the
/// count one higher.
pub open spec fn hire_step(
    name: soroban_sdk::String,
    address: soroban_sdk::Address,
    pay: u128,
    exist: Option<bool>,
    count: Option<u128>,
) -> Result<Hire, Trap> {
    match hire_outcome(is_set(exist), count_of(count) as int) {
        Err(trap) => Err(trap),
        Ok(next) => Ok(
            Hire {
                record: (
                    DataKey::Employee(address),
                    Employee { name, address, pay, rank: Rank::Level_1 },
                ),
                exist: (DataKey::Exist(address), true),
                count: (DataKey::EmployeeCount, next as u128),
            },
        ),
    }
}

/// Computes what a hire writes.
pub fn hire(
    name: soroban_sdk::String,
    address: soroban_sdk::Address,
    pay: u128,
    exist: Option<bool>,
    count: Option<u128>,
) -> (r: Result<Hire, Trap>)
    ensures
        r == hire_step(name, address, pay, exist, count),
{
    let next = count_after_hire(or_absent(exist, false), or_absent(count, 0))?;
    Ok(
        Hire {
            record: (
                DataKey::Employee(address.clone()),
                Employee::hired(name, address.clone(), pay),
            ),
            exist: (DataKey::Exist(address), true),
            count: (DataKey::EmployeeCount, next),
        },
    )
}

/// Whom to ask before a removal, given the existence flag of the address and the
/// owner: the owner, or the payroll's error for an address that is not employed.
pub open spec fn removal_authority_step(exist: Option<bool>, owner: Option<soroban_sdk::Address>) -> Result<
    Result<soroban_sdk::Address, EmployeeContractError>,
    Trap,
> {
    if !is_set(exist) {
        Ok(Err(EmployeeContractError::NotAnEmployee))
    } else {
        match owner {
            Some(address) => Ok(Ok(address)),
            None => Err(Trap::MissingEntry),
        }
    }
}

/// Decides whom to ask before a removal.
pub fn removal_grant(exist: Option<bool>, owner: Option<soroban_sdk::Address>) -> (r: Result<
    Result<soroban_sdk::Address, EmployeeContractError>,
    Trap,
>)
    ensures
        r == removal_authority_step(exist, owner),
{
    if !or_absent(exist, false) {
        return Ok(Err(EmployeeContractError::NotAnEmployee));
    }
    match owner {
        Some(address) => Ok(Ok(address)),
        None => Err(Trap::MissingEntry),
    }
}

/// `remove_employee`, given the existence flag of the address and the head count: the
/// key of the record to delete, the flag cleared, the count one lower, and the event.
pub open spec fn removal_step(address: soroban_sdk::Address, exist: Option<bool>, count: Option<u128>) -> Result<
    Result<Removal, EmployeeContractError>,
    Trap,
> {
    match removal_outcome(is_set(exist), widen_count(count)) {
        Err(trap) => Err(trap),
        Ok(Err(e)) => Ok(Err(e)),
        Ok(Ok(next)) => Ok(
            Ok(
                Removal {
                    record: DataKey::Employee(address),
                    exist: (DataKey::Exist(address), false),
                    count: (DataKey::EmployeeCount, next as u128),
                    event: EmployeeRemoved { employee: address },
                },
            ),
        ),
    }
}

/// Computes what a removal does.
pub fn removal(address: soroban_sdk::Address, exist: Option<bool>, count: Option<u128>) -> (r: Result<
    Result<Removal, EmployeeContractError>,
    Trap,
>)
    ensures
        r == removal_step(address, exist, count),
{
    match count_after_removal(or_absent(exist, false), count)? {
        Err(e) => Ok(Err(e)),
        Ok(next) => Ok(
            Ok(
                Removal {
                    record: DataKey::Employee(address.clone()),
                    exist: (DataKey::Exist(address.clone()), false),
                    count: (DataKey::EmployeeCount, next),
                    event: EmployeeRemoved { employee: address },
                },
            ),
        ),
    }
}

/// `pay_employee` by the payroll contract at `this`, given the record of the address
/// and the token's address: the token is to move the pay from `admin` to the address
/// in the record, with the payroll contract as the spender.
pub open spec fn pay_step(
    this: soroban_sdk::Address,
    admin: soroban_sdk::Address,
    address: soroban_sdk::Address,
    record: Option<Employee>,
    token: Option<soroban_sdk::Address>,
) -> Result<Payment, Trap> {
    match (record, token) {
        (Some(employee), Some(contract)) => match pay_outcome(employee.pay as int) {
            Err(trap) => Err(trap),
            Ok(amount) => Ok(
                Payment {
                    token: contract,
                    spender: this,
                    from: admin,
                    to: employee.address,
                    amount: amount as i128,
                    event: EmployeePaid { employee: address, amount: employee.pay },
                },
            ),
        },
        _ => Err(Trap::MissingEntry),
    }
}

/// Computes the call and the event of a pay.
pub fn payment(
    this: soroban_sdk::Address,
    admin: soroban_sdk::Address,
    address: soroban_sdk::Address,
    record: Option<Employee>,
    token: Option<soroban_sdk::Address>,
) -> (r: Result<Payment, Trap>)
    ensures
        r == pay_step(this, admin, address, record, token),
{
    match (record, token) {
        (Some(employee), Some(contract)) => {
            let amount = pay_amount(employee.pay)?;
            Ok(
                Payment {
                    token: contract,
                    spender: this,
                    from: admin,
                    to: employee.address,
                    amount,
                    event: EmployeePaid { employee: address, amount: employee.pay },
                },
            )
        },
        _ => Err(Trap::MissingEntry),
    }
}

/// `suspend_employee`, given whom the payroll has under the address: the suspension
/// flag set under the key of the address, and the event.
pub open spec fn suspension_step(
    address: soroban_sdk::Address,
    found: Result<Employee, EmployeeContractError>,
) -> Result<Suspension, EmployeeContractError> {
    match found {
        Err(e) => Err(e),
        Ok(_) => Ok(
            Suspension {
                flag: (DataKey::Suspended(address), true),
                event: EmployeeSuspended { employee: address },
            },
        ),
    }
}

/// Computes what a suspension does.
pub fn suspension(address: soroban_sdk::Address, found: Result<Employee, EmployeeContractError>) -> (r:
    Result<Suspension, EmployeeContractError>)
    ensures
        r == suspension_step(address, found),
{
    match found {
        Err(e) => Err(e),
        Ok(_) => Ok(
            Suspension {
                flag: (DataKey::Suspended(address.clone()), true),
                event: EmployeeSuspended { employee: address },
            },
        ),
    }
}

/// `promote_employee`, given whom the payroll has under the address: the record with
/// the rank of `level`, under the key of the address.
pub open spec fn promotion_step(
    address: soroban_sdk::Address,
    found: Result<Employee, EmployeeContractError>,
    level: u32,
) -> Result<(DataKey, Employee), Trap> {
    match promotion_outcome(found, level) {
        Err(trap) => Err(trap),
        Ok(promoted) => Ok((DataKey::Employee(address), promoted)),
    }
}

/// Computes what a promotion writes.
pub fn promotion_write(
    address: soroban_sdk::Address,
    found: Result<Employee, EmployeeContractError>,
    level: u32,
) -> (r: Result<(DataKey, Employee), Trap>)
    ensures
        r == promotion_step(address, found, level),
{
    let promoted = promotion(found, level)?;
    Ok((DataKey::Employee(address), promoted))
}

} // verus!
