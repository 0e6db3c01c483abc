//! The events that the payroll publishes.
//!
//! Each event has one topic, its name, and a record of named fields as its data.
use crate::host::publish;
use crate::host::record_of_one;
use crate::host::record_of_two;
use crate::host::val_of_address;
use crate::host::val_of_u128;
use vstd::prelude::*;

verus! {

/// An approval of `spender` by `from`.
#[derive(Debug, PartialEq, Eq)]
pub struct Approve {
    pub from: soroban_sdk::Address,
    pub spender: soroban_sdk::Address,
}

/// An employee was taken off the payroll.
#[derive(Debug, PartialEq, Eq)]
pub struct EmployeeRemoved {
    pub employee: soroban_sdk::Address,
}

/// An employee was suspended.
#[derive(Debug, PartialEq, Eq)]
pub struct EmployeeSuspended {
    pub employee: soroban_sdk::Address,
}

/// An employee was paid `amount`.
#[derive(Debug, PartialEq, Eq)]
pub struct EmployeePaid {
    pub employee: soroban_sdk::Address,
    pub amount: u128,
}

/// Publishes `employee_paid` with the employee and the amount.
pub fn emit_employee_paid(env: &soroban_sdk::Env, address: soroban_sdk::Address, amount: u128) {
    let employee_paid: EmployeePaid = EmployeePaid { employee: address, amount };
    proof {
        reveal_strlit("employee");
        reveal_strlit("amount");
    }
    let employee = val_of_address(env, &employee_paid.employee);
    let paid = val_of_u128(env, employee_paid.amount);
    let data = record_of_two(env, "employee", &employee, "amount", &paid);
    publish(env, "employee_paid", &data);
}

/// Publishes `employee_removed` with the employee.
pub fn emit_remove_employee(env: &soroban_sdk::Env, address: soroban_sdk::Address) {
    let employee_removed: EmployeeRemoved = EmployeeRemoved { employee: address };
    proof {
        reveal_strlit("employee");
    }
    let employee = val_of_address(env, &employee_removed.employee);
    let data = record_of_one(env, "employee", &employee);
    publish(env, "employee_removed", &data);
}

/// Publishes `employee_suspended` with the employee.
pub fn emit_employee_suspended(env: &soroban_sdk::Env, address: &soroban_sdk::Address) {
    proof {
        reveal_strlit("employee");
    }
    let employee = val_of_address(env, address);
    let data = record_of_one(env, "employee", &employee);
    publish(env, "employee_suspended", &data);
}

} // verus!
