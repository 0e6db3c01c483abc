//! The payroll's entry points.
//!
//! The payroll holds no tokens. Its owner approves the payroll contract as a spender
//! on the token, and a pay has the token move the pay from the owner to the employee
//! out of that allowance.
//!
//! An entry point of this module is the part of the contract's entry point that
//! computes. The contract asks the host for the authorization that the operation
//! needs, reads the entries that the operation touches, and hands them over as they
//! were read, `None` for an entry that is absent. The function returns every value
//! that is to be written, each together with the key that it goes under, the event
//! that is to be published and, for a pay, the call that is to be made into the
//! token; the contract does what is returned. A function that returns `Err(Trap)` has
//! the contract abort the invocation, and nothing is written.
//!
//! The authorizations to ask for: that of `admin` for `add_employee` and
//! `pay_employee`, and for `remove_employee` that of the address which
//! `removal_authority` returns.
use crate::errors::EmployeeContractError;
use crate::errors::Trap;
use crate::host::key_of_address;
use crate::host::key_of_tag;
use crate::host::same_address;
use crate::payroll_rules::rank_for_level;
use crate::payroll_rules::Rank;
use crate::payroll_steps::count_of;
use crate::payroll_steps::founding;
use crate::payroll_steps::founding_step;
use crate::payroll_steps::hire;
use crate::payroll_steps::hire_step;
use crate::payroll_steps::is_set;
use crate::payroll_steps::pay_step;
use crate::payroll_steps::payment;
use crate::payroll_steps::promotion_step;
use crate::payroll_steps::promotion_write;
use crate::payroll_steps::removal;
use crate::payroll_steps::removal_authority_step;
use crate::payroll_steps::removal_grant;
use crate::payroll_steps::removal_step;
use crate::payroll_steps::suspension;
use crate::payroll_steps::suspension_step;
use crate::payroll_steps::Founding;
use crate::payroll_steps::Hire;
use crate::payroll_steps::Payment;
use crate::payroll_steps::Removal;
use crate::payroll_steps::Suspension;
use crate::storage::or_absent;
use crate::storage::required;
use crate::storage::required_outcome;
use vstd::prelude::*;

verus! {

/// An employee's record.
#[derive(Clone, Debug, PartialEq, Eq)]
pub struct Employee {
    pub name: soroban_sdk::String,
    pub address: soroban_sdk::Address,
    pub pay: u128,
    pub rank: Rank,
}

impl Employee {
    /// The record of somebody who was just hired: at the first rank.
    pub fn hired(name: soroban_sdk::String, address: soroban_sdk::Address, pay: u128) -> (employee:
        Employee)
        ensures
            employee == (Employee { name, address, pay, rank: Rank::Level_1 }),
    {
        Employee { name, address, pay, rank: Rank::Level_1 }
    }

    /// The record after a promotion to `level`: the rank changes, nothing else does.
    pub fn promoted(self, level: u32) -> (employee: Employee)
        ensures
            employee == (Employee { rank: rank_for_level(level as int), ..self }),
    {
        Employee { name: self.name, address: self.address, pay: self.pay, rank: Rank::of_level(level) }
    }
}

/// The record that an entry under the key of `address` stands for. A record is stored
/// under its own address: one that holds another address is malformed.
pub open spec fn keyed_record(address: soroban_sdk::Address, entry: Option<Employee>) -> Result<
    Option<Employee>,
    Trap,
> {
    match entry {
        None => Ok(None),
        Some(employee) => if employee.address == address {
            Ok(Some(employee))
        } else {
            Err(Trap::MalformedEntry)
        },
    }
}

/// Whom the payroll has under `address`, given the entries of the existence flag and
/// of the record of the address.
pub open spec fn check_step(
    address: soroban_sdk::Address,
    exist: Option<bool>,
    record: Option<Employee>,
) -> Result<Result<Employee, EmployeeContractError>, Trap> {
    if !is_set(exist) {
        Ok(Err(EmployeeContractError::NotAnEmployee))
    } else {
        match keyed_record(address, record) {
            Err(trap) => Err(trap),
            Ok(found) => employee_or_refusal_outcome(true, found),
        }
    }
}

/// Whom the payroll has under an address, given whether the existence flag of the
/// address is set and the record that is stored under it: the record of an employee,
/// the payroll's error for an address that is not employed. A flag without a record
/// aborts.
pub open spec fn employee_or_refusal_outcome(employed: bool, record: Option<Employee>) -> Result<
    Result<Employee, EmployeeContractError>,
    Trap,
> {
    if !employed {
        Ok(Err(EmployeeContractError::NotAnEmployee))
    } else {
        match record {
            Some(employee) => Ok(Ok(employee)),
            None => Err(Trap::MissingEntry),
        }
    }
}

/// Decides whom the payroll has under an address.
pub fn employee_or_refusal(employed: bool, record: Option<Employee>) -> (r: Result<
    Result<Employee, EmployeeContractError>,
    Trap,
>)
    ensures
        r == employee_or_refusal_outcome(employed, record),
{
    if !employed {
        return Ok(Err(EmployeeContractError::NotAnEmployee));
    }
    match record {
        Some(employee) => Ok(Ok(employee)),
        None => Err(Trap::MissingEntry),
    }
}

/// The record that a promotion to `level` writes, given whom the payroll has under
/// the address: there is nobody to promote at an address that is not employed.
pub open spec fn promotion_outcome(
    found: Result<Employee, EmployeeContractError>,
    level: u32,
) -> Result<Employee, Trap> {
    match found {
        Ok(employee) => Ok(Employee { rank: rank_for_level(level as int), ..employee }),
        Err(_) => Err(Trap::MissingEntry),
    }
}

/// Computes the record that a promotion writes.
pub fn promotion(found: Result<Employee, EmployeeContractError>, level: u32) -> (r: Result<
    Employee,
    Trap,
>)
    ensures
        r == promotion_outcome(found, level),
{
    match found {
        Ok(employee) => Ok(employee.promoted(level)),
        Err(_) => Err(Trap::MissingEntry),
    }
}

/// The entries of the payroll's storage.
#[derive(Debug, PartialEq, Eq)]
pub enum DataKey {
    Owner,
    Contract,
    EmployeeCount,
    Employee(soroban_sdk::Address),
    Exist(soroban_sdk::Address),
    Suspended(soroban_sdk::Address),
}

impl DataKey {
    /// The host value under which the entry is stored: its tag, then its address.
    pub fn to_val(&self, env: &soroban_sdk::Env) -> (key: soroban_sdk::Val) {
        proof {
            reveal_strlit("Owner");
            reveal_strlit("Contract");
            reveal_strlit("EmployeeCount");
            reveal_strlit("Employee");
            reveal_strlit("Exist");
            reveal_strlit("Suspended");
        }
        match self {
            DataKey::Owner => key_of_tag(env, "Owner"),
            DataKey::Contract => key_of_tag(env, "Contract"),
            DataKey::EmployeeCount => key_of_tag(env, "EmployeeCount"),
            DataKey::Employee(address) => key_of_address(env, "Employee", address),
            DataKey::Exist(address) => key_of_address(env, "Exist", address),
            DataKey::Suspended(address) => key_of_address(env, "Suspended", address),
        }
    }
}

/// The payroll contract.
pub struct EmployeeContract;

impl EmployeeContract {
    /// What the constructor writes, given whether there is an owner already: the
    /// owner and the token's address. A payroll is constructed once.
    pub fn __constructor(
        admin: soroban_sdk::Address,
        token_contract_address: soroban_sdk::Address,
        constructed: bool,
    ) -> (r: Result<Founding, Trap>)
        ensures
            r == founding_step(admin, token_contract_address, constructed),
    {
        founding(admin, token_contract_address, constructed)
    }

    /// The owner that the payroll was constructed with, given its entry.
    pub fn get_owner(entry: Option<soroban_sdk::Address>) -> (r: Result<soroban_sdk::Address, Trap>)
        ensures
            r == required_outcome(entry),
    {
        Self::_get_owner(entry)
    }

    /// How many addresses are employed, given the entry of the head count: zero
    /// before the first hire.
    pub fn get_employee_count(entry: Option<u128>) -> (count: u128)
        ensures
            count == count_of(entry),
    {
        or_absent(entry, 0)
    }

    /// The record of `address`, given its entry. A record is stored under its own
    /// address.
    pub fn get_employee(address: soroban_sdk::Address, entry: Option<Employee>) -> (r: Result<
        Option<Employee>,
        Trap,
    >)
        ensures
            r == keyed_record(address, entry),
    {
        Self::_get_employee(&address, entry)
    }

    /// Hires `new_employee_address` at the first rank, given the entries of its
    /// existence flag and of the head count. An address that is employed already is
    /// not hired again.
    pub fn add_employee(
        new_employee_name: soroban_sdk::String,
        new_employee_address: soroban_sdk::Address,
        employee_pay: u128,
        exist: Option<bool>,
        present_count: Option<u128>,
    ) -> (r: Result<Hire, Trap>)
        ensures
            r == hire_step(
                new_employee_name,
                new_employee_address,
                employee_pay,
                exist,
                present_count,
            ),
    {
        hire(new_employee_name, new_employee_address, employee_pay, exist, present_count)
    }

    /// The address that has to authorize the removal of an address, given the entries
    /// of its existence flag and of the owner: the owner. An address that is not
    /// employed is refused with the payroll's error, and there is nobody to ask.
    pub fn removal_authority(exist: Option<bool>, owner: Option<soroban_sdk::Address>) -> (r: Result<
        Result<soroban_sdk::Address, EmployeeContractError>,
        Trap,
    >)
        ensures
            r == removal_authority_step(exist, owner),
    {
        removal_grant(exist, owner)
    }

    /// Takes `employee_address` off the payroll, given the entries of its existence
    /// flag and of the head count. An address that is not employed is refused with
    /// the payroll's error.
    pub fn remove_employee(
        employee_address: soroban_sdk::Address,
        exist: Option<bool>,
        current_employee_count: Option<u128>,
    ) -> (r: Result<Result<Removal, EmployeeContractError>, Trap>)
        ensures
            r == removal_step(employee_address, exist, current_employee_count),
    {
        removal(employee_address, exist, current_employee_count)
    }

    /// The call into the token that pays `employee_address`, and the event to publish
    /// once the call has gone through, given the address of the payroll contract and
    /// the entries of the record and of the token's address: the token is to move the
    /// pay from `admin` to the address in the record, with the payroll contract as the
    /// spender.
    pub fn pay_employee(
        contract_address: soroban_sdk::Address,
        admin: soroban_sdk::Address,
        employee_address: soroban_sdk::Address,
        employee_details: Option<Employee>,
        token_address: Option<soroban_sdk::Address>,
    ) -> (r: Result<Payment, Trap>)
        ensures
            r == match keyed_record(employee_address, employee_details) {
                Err(trap) => Err(trap),
                Ok(record) => pay_step(contract_address, admin, employee_address, record, token_address),
            },
    {
        let record = Self::_get_employee(&employee_address, employee_details)?;
        payment(contract_address, admin, employee_address, record, token_address)
    }

    /// Whether an address was suspended, given the entry of its suspension flag:
    /// `None` where it never was.
    pub fn is_employee_suspended(entry: Option<bool>) -> (r: Option<bool>)
        ensures
            r == entry,
    {
        Self::_get_employee_suspension_status(entry)
    }

    /// Marks `employee_address` as suspended, given the entries of its existence flag
    /// and of its record. An address that is not employed is refused with the
    /// payroll's error.
    pub fn suspend_employee(
        employee_address: soroban_sdk::Address,
        exist: Option<bool>,
        record: Option<Employee>,
    ) -> (r: Result<Result<Suspension, EmployeeContractError>, Trap>)
        ensures
            r == match check_step(employee_address, exist, record) {
                Err(trap) => Err(trap),
                Ok(found) => Ok(suspension_step(employee_address, found)),
            },
    {
        let found = Self::_check_if_address_is_an_employee(&employee_address, exist, record)?;
        Ok(suspension(employee_address, found))
    }

    /// Gives the employee at `address` the rank of `level`, given the entries of the
    /// existence flag and of the record of the address.
    pub fn promote_employee(
        address: soroban_sdk::Address,
        level: u32,
        exist: Option<bool>,
        record: Option<Employee>,
    ) -> (r: Result<(DataKey, Employee), Trap>)
        ensures
            r == match check_step(address, exist, record) {
                Err(trap) => Err(trap),
                Ok(found) => promotion_step(address, found, level),
            },
    {
        let found = Self::_check_if_address_is_an_employee(&address, exist, record)?;
        promotion_write(address, found, level)
    }

    fn _get_owner(entry: Option<soroban_sdk::Address>) -> (r: Result<soroban_sdk::Address, Trap>)
        ensures
            r == required_outcome(entry),
    {
        required(entry)
    }

    /// The record of `employee_address`, or the payroll's error where the address is
    /// not employed.
    fn _check_if_address_is_an_employee(
        employee_address: &soroban_sdk::Address,
        exist: Option<bool>,
        record: Option<Employee>,
    ) -> (r: Result<Result<Employee, EmployeeContractError>, Trap>)
        ensures
            r == check_step(*employee_address, exist, record),
    {
        let is_employee = or_absent(exist, false);
        if !is_employee {
            return Ok(Err(EmployeeContractError::NotAnEmployee));
        }
        let found = Self::_get_employee(employee_address, record)?;
        employee_or_refusal(is_employee, found)
    }

    fn _get_employee_suspension_status(entry: Option<bool>) -> (r: Option<bool>)
        ensures
            r == entry,
    {
        entry
    }

    fn _get_employee(address: &soroban_sdk::Address, entry: Option<Employee>) -> (r: Result<
        Option<Employee>,
        Trap,
    >)
        ensures
            r == keyed_record(*address, entry),
    {
        match entry {
            None => Ok(None),
            Some(employee) => {
                if same_address(&employee.address, address) {
                    Ok(Some(employee))
                } else {
                    Err(Trap::MalformedEntry)
                }
            },
        }
    }
}

} // verus!
