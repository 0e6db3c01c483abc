//! The payroll's registry as a mathematical value, and what each entry point does to
//! it and, when it pays, to the token's ledger.
//!
//! A transition takes from the registry the entries that the contract reads for the
//! entry point, applies the step of `payroll_steps` that the entry point computes, and
//! does what the step returns. What it adds is the authorization: a transition takes
//! the set of addresses that have authorized the invocation, which the contract asks
//! the host for before it calls the entry point.
use crate::errors::EmployeeContractError;
use crate::errors::Trap;
use crate::payroll::check_step;
use crate::payroll::keyed_record;
use crate::payroll::DataKey;
use crate::payroll::Employee;
use crate::payroll_steps::founding_step;
use crate::payroll_steps::hire_step;
use crate::payroll_steps::pay_step;
use crate::payroll_steps::promotion_step;
use crate::payroll_steps::removal_authority_step;
use crate::payroll_steps::removal_step;
use crate::payroll_steps::suspension_step;
use crate::token_model::TokenState;
use vstd::prelude::*;

verus! {

/// Everything that the payroll keeps in storage.
pub struct PayrollState {
    pub owner: soroban_sdk::Address,
    /// The address of the token that pays are made in.
    pub token: soroban_sdk::Address,
    /// The head count; zero stands for an entry that was never written.
    pub employee_count: u128,
    pub employees: Map<soroban_sdk::Address, Employee>,
    /// The existence flags that were ever written.
    pub exist: Map<soroban_sdk::Address, bool>,
    /// The suspension flags that were ever written.
    pub suspended: Map<soroban_sdk::Address, bool>,
}

impl PayrollState {
    /// The registry that the constructor leaves where there was none.
    pub open spec fn constructed(owner: soroban_sdk::Address, token: soroban_sdk::Address) -> PayrollState {
        let written = founding_step(owner, token, false)->Ok_0;
        PayrollState {
            owner: written.owner.1,
            token: written.token.1,
            employee_count: 0,
            employees: Map::empty(),
            exist: Map::empty(),
            suspended: Map::empty(),
        }
    }

    /// Whether the existence flag of `address` is set.
    pub open spec fn is_employed(self, address: soroban_sdk::Address) -> bool {
        self.exist.contains_key(address) && self.exist[address]
    }

    /// The addresses whose existence flag is set.
    pub open spec fn employed(self) -> Set<soroban_sdk::Address> {
        Set::new(|address: soroban_sdk::Address| self.is_employed(address))
    }

    /// The record of `address`, if there is one.
    pub open spec fn employee(self, address: soroban_sdk::Address) -> Option<Employee> {
        if self.employees.contains_key(address) {
            Some(self.employees[address])
        } else {
            None
        }
    }

    /// Whether `address` was suspended, if that was ever written.
    pub open spec fn suspension(self, address: soroban_sdk::Address) -> Option<bool> {
        if self.suspended.contains_key(address) {
            Some(self.suspended[address])
        } else {
            None
        }
    }

    /// The entry of the existence flag of `address`, as the contract reads it.
    pub open spec fn exist_entry(self, address: soroban_sdk::Address) -> Option<bool> {
        if self.exist.contains_key(address) {
            Some(self.exist[address])
        } else {
            None
        }
    }

    /// The entry of the head count, as the contract reads it.
    pub open spec fn count_entry(self) -> Option<u128> {
        Some(self.employee_count)
    }

    /// The registry after a record was written under the key of an address.
    pub open spec fn written_record(self, write: (DataKey, Employee)) -> PayrollState {
        match write.0 {
            DataKey::Employee(address) => PayrollState {
                employees: self.employees.insert(address, write.1),
                ..self
            },
            _ => self,
        }
    }

    /// The registry after a flag was written under a key: an existence flag or a
    /// suspension flag under the key of an address.
    pub open spec fn written_flag(self, write: (DataKey, bool)) -> PayrollState {
        match write.0 {
            DataKey::Exist(address) => PayrollState {
                exist: self.exist.insert(address, write.1),
                ..self
            },
            DataKey::Suspended(address) => PayrollState {
                suspended: self.suspended.insert(address, write.1),
                ..self
            },
            _ => self,
        }
    }

    /// The registry after the head count was written under its key.
    pub open spec fn written_count(self, write: (DataKey, u128)) -> PayrollState {
        match write.0 {
            DataKey::EmployeeCount => PayrollState { employee_count: write.1, ..self },
            _ => self,
        }
    }

    /// The registry after the entry under a key was deleted: the record of an address.
    pub open spec fn deleted(self, key: DataKey) -> PayrollState {
        match key {
            DataKey::Employee(address) => PayrollState {
                employees: self.employees.remove(address),
                ..self
            },
            _ => self,
        }
    }

    /// What holds of every registry that the entry points can reach: an address has a
    /// record exactly if its existence flag is set, the count is the number of such
    /// addresses, and every record holds the address that it is stored under.
    pub open spec fn wf(self) -> bool {
        &&& self.employees.dom().finite()
        &&& forall|address: soroban_sdk::Address|
            self.is_employed(address) <==> #[trigger] self.employees.contains_key(address)
        &&& self.employee_count == self.employees.dom().len()
        &&& forall|address: soroban_sdk::Address|
            self.employees.contains_key(address) ==> (#[trigger] self.employees[address]).address
                == address
    }

    /// `add_employee`: needs the authorization of `admin`.
    pub open spec fn add_employee(
        self,
        authorized: Set<soroban_sdk::Address>,
        admin: soroban_sdk::Address,
        name: soroban_sdk::String,
        address: soroban_sdk::Address,
        pay: u128,
    ) -> Result<PayrollState, Trap> {
        if !authorized.contains(admin) {
            Err(Trap::Unauthorized)
        } else {
            match hire_step(name, address, pay, self.exist_entry(address), self.count_entry()) {
                Err(trap) => Err(trap),
                Ok(hired) => Ok(
                    self.written_record(hired.record).written_flag(hired.exist).written_count(
                        hired.count,
                    ),
                ),
            }
        }
    }

    /// `remove_employee`: needs the authorization of the address that
    /// `removal_authority` gives, the owner, once the address is known to be employed.
    pub open spec fn remove_employee(self, authorized: Set<soroban_sdk::Address>, address: soroban_sdk::Address) -> Result<
        Result<PayrollState, EmployeeContractError>,
        Trap,
    > {
        match removal_authority_step(self.exist_entry(address), Some(self.owner)) {
            Err(trap) => Err(trap),
            Ok(Err(e)) => Ok(Err(e)),
            Ok(Ok(asked)) => if !authorized.contains(asked) {
                Err(Trap::Unauthorized)
            } else {
                match removal_step(address, self.exist_entry(address), self.count_entry()) {
                    Err(trap) => Err(trap),
                    Ok(Err(e)) => Ok(Err(e)),
                    Ok(Ok(removed)) => Ok(
                        Ok(
                            self.deleted(removed.record).written_flag(removed.exist).written_count(
                                removed.count,
                            ),
                        ),
                    ),
                }
            },
        }
    }

    /// `suspend_employee`: needs no authorization.
    pub open spec fn suspend_employee(self, address: soroban_sdk::Address) -> Result<
        Result<PayrollState, EmployeeContractError>,
        Trap,
    > {
        match check_step(address, self.exist_entry(address), self.employee(address)) {
            Err(trap) => Err(trap),
            Ok(found) => match suspension_step(address, found) {
                Err(e) => Ok(Err(e)),
                Ok(suspended) => Ok(Ok(self.written_flag(suspended.flag))),
            },
        }
    }

    /// `promote_employee`: needs no authorization.
    pub open spec fn promote_employee(self, address: soroban_sdk::Address, level: u32) -> Result<
        PayrollState,
        Trap,
    > {
        match check_step(address, self.exist_entry(address), self.employee(address)) {
            Err(trap) => Err(trap),
            Ok(found) => match promotion_step(address, found, level) {
                Err(trap) => Err(trap),
                Ok(promoted) => Ok(self.written_record(promoted)),
            },
        }
    }

    /// `pay_employee` by the payroll contract at address `this`, at ledger time `now`,
    /// on the token's ledger `token`: needs the authorization of `admin`. The registry
    /// stays as it is; the result is the token's ledger after the pay. The token sees
    /// the payroll contract as the spender, authorized by being the caller.
    pub open spec fn pay_employee(
        self,
        authorized: Set<soroban_sdk::Address>,
        now: u64,
        this: soroban_sdk::Address,
        token: TokenState,
        admin: soroban_sdk::Address,
        address: soroban_sdk::Address,
    ) -> Result<TokenState, Trap> {
        if !authorized.contains(admin) {
            Err(Trap::Unauthorized)
        } else {
            match match keyed_record(address, self.employee(address)) {
                Err(trap) => Err(trap),
                Ok(record) => pay_step(this, admin, address, record, Some(self.token)),
            } {
                Err(trap) => Err(trap),
                Ok(due) => match token.transfer_from(
                    authorized.insert(this),
                    now,
                    due.spender,
                    due.from,
                    due.to,
                    due.amount,
                ) {
                    Err(_) => Err(Trap::TokenCallFailed),
                    Ok(paid) => Ok(paid),
                },
            }
        }
    }
}

} // verus!
