//! What holds of the payroll's registry after every operation, and across several.
use crate::errors::EmployeeContractError;
use crate::errors::Trap;
use crate::payroll::Employee;
use crate::payroll_model::PayrollState;
use crate::payroll_rules::rank_for_level;
use crate::payroll_rules::Rank;
use crate::token_laws::transfer_from_keeps_ledger_sound;
use crate::token_model::TokenState;
use crate::token_rules::AllowanaceDetails;
use vstd::prelude::*;

verus! {

/// The constructor leaves a sound registry with nobody employed.
pub proof fn constructed_registry_is_sound(owner: soroban_sdk::Address, token: soroban_sdk::Address)
    ensures
        PayrollState::constructed(owner, token).wf(),
        PayrollState::constructed(owner, token).employee_count == 0,
        PayrollState::constructed(owner, token).owner == owner,
        PayrollState::constructed(owner, token).token == token,
        forall|address: soroban_sdk::Address|
            !PayrollState::constructed(owner, token).is_employed(address),
{
    let s = PayrollState::constructed(owner, token);
    assert(s.employees.dom() =~= Set::empty());
}

/// In a sound registry the count is the number of addresses whose existence flag is
/// set, and those are the addresses that have a record.
pub proof fn count_is_number_of_employed(s: PayrollState)
    requires
        s.wf(),
    ensures
        s.employed().finite(),
        s.employee_count == s.employed().len(),
        s.employed() == s.employees.dom(),
        forall|address: soroban_sdk::Address|
            s.is_employed(address) <==> s.employee(address) is Some,
{
    assert(s.employed() =~= s.employees.dom());
}

/// A hire that succeeds leaves a sound registry with one employee more: the address
/// is employed at the first rank with the given name and pay, and every other record
/// and flag is as it was.
pub proof fn add_employee_keeps_registry_sound(
    s: PayrollState,
    authorized: Set<soroban_sdk::Address>,
    admin: soroban_sdk::Address,
    name: soroban_sdk::String,
    address: soroban_sdk::Address,
    pay: u128,
)
    requires
        s.wf(),
    ensures
        s.add_employee(authorized, admin, name, address, pay) matches Ok(next) ==> {
            &&& next.wf()
            &&& !s.is_employed(address)
            &&& next.is_employed(address)
            &&& next.employee_count == s.employee_count + 1
            &&& next.employee(address) == Some(Employee { name, address, pay, rank: Rank::Level_1 })
            &&& next.suspended == s.suspended
            &&& forall|other: soroban_sdk::Address|
                other != address ==> next.employee(other) == s.employee(other)
                    && next.is_employed(other) == s.is_employed(other)
        },
        s.is_employed(address) && authorized.contains(admin) ==> s.add_employee(
            authorized,
            admin,
            name,
            address,
            pay,
        ) == Err::<PayrollState, Trap>(Trap::AlreadyEmployee),
{
    if let Ok(next) = s.add_employee(authorized, admin, name, address, pay) {
        assert(!s.employees.contains_key(address));
        assert(next.employees.dom() == s.employees.dom().insert(address));
        assert forall|other: soroban_sdk::Address|
            next.is_employed(other) <==> #[trigger] next.employees.contains_key(other) by {
            if other != address {
                assert(s.is_employed(other) <==> s.employees.contains_key(other));
            }
        }
    }
}

/// A removal that succeeds leaves a sound registry with one employee less: the
/// address has no record and is not employed, and every other record and flag is as it
/// was. An address that is not employed is refused, whoever asks.
pub proof fn remove_employee_keeps_registry_sound(
    s: PayrollState,
    authorized: Set<soroban_sdk::Address>,
    address: soroban_sdk::Address,
)
    requires
        s.wf(),
    ensures
        s.remove_employee(authorized, address) matches Ok(Ok(next)) ==> {
            &&& next.wf()
            &&& s.is_employed(address)
            &&& !next.is_employed(address)
            &&& next.employee(address) is None
            &&& next.employee_count == s.employee_count - 1
            &&& next.suspended == s.suspended
            &&& forall|other: soroban_sdk::Address|
                other != address ==> next.employee(other) == s.employee(other)
                    && next.is_employed(other) == s.is_employed(other)
        },
        !s.is_employed(address) <==> s.remove_employee(authorized, address) == Ok::<
            Result<PayrollState, EmployeeContractError>,
            Trap,
        >(Err(EmployeeContractError::NotAnEmployee)),
        s.is_employed(address) && authorized.contains(s.owner) ==> s.remove_employee(
            authorized,
            address,
        ) matches Ok(Ok(_)),
{
    if s.is_employed(address) {
        assert(s.employees.contains_key(address));
        assert(s.employees.dom().len() > 0) by {
            if s.employees.dom().len() == 0 {
                assert(s.employees.dom() =~= Set::empty());
            }
        }
    }
    if let Ok(Ok(next)) = s.remove_employee(authorized, address) {
        assert(next.employees.dom() == s.employees.dom().remove(address));
        assert forall|other: soroban_sdk::Address|
            next.is_employed(other) <==> #[trigger] next.employees.contains_key(other) by {
            if other != address {
                assert(s.is_employed(other) <==> s.employees.contains_key(other));
            }
        }
    }
}

/// A suspension that succeeds leaves a sound registry in which the address is marked
/// as suspended and nothing else has changed. An address that is not employed is
/// refused.
pub proof fn suspend_employee_keeps_registry_sound(s: PayrollState, address: soroban_sdk::Address)
    requires
        s.wf(),
    ensures
        s.is_employed(address) ==> (s.suspend_employee(address) matches Ok(Ok(next)) && {
            &&& next.wf()
            &&& next.suspension(address) == Some(true)
            &&& next.employees == s.employees
            &&& next.exist == s.exist
            &&& next.employee_count == s.employee_count
            &&& forall|other: soroban_sdk::Address|
                other != address ==> next.suspension(other) == s.suspension(other)
        }),
        !s.is_employed(address) ==> s.suspend_employee(address) == Ok::<
            Result<PayrollState, EmployeeContractError>,
            Trap,
        >(Err(EmployeeContractError::NotAnEmployee)),
{
    if s.is_employed(address) {
        assert(s.employees.contains_key(address));
    }
}

/// A promotion of an employee leaves a sound registry in which the employee has the
/// rank of the level and the name, address and pay of before, and nothing else has
/// changed. There is nobody to promote at an address that is not employed.
pub proof fn promote_employee_keeps_registry_sound(
    s: PayrollState,
    address: soroban_sdk::Address,
    level: u32,
)
    requires
        s.wf(),
    ensures
        s.is_employed(address) ==> (s.promote_employee(address, level) matches Ok(next) && {
            &&& next.wf()
            &&& next.employee(address) == Some(
                Employee { rank: rank_for_level(level as int), ..s.employees[address] },
            )
            &&& next.exist == s.exist
            &&& next.suspended == s.suspended
            &&& next.employee_count == s.employee_count
            &&& forall|other: soroban_sdk::Address|
                other != address ==> next.employee(other) == s.employee(other)
        }),
        !s.is_employed(address) ==> s.promote_employee(address, level) == Err::<PayrollState, Trap>(
            Trap::MissingEntry,
        ),
{
    if s.is_employed(address) {
        assert(s.employees.contains_key(address));
        let next = s.promote_employee(address, level)->Ok_0;
        assert(next.employees.dom() =~= s.employees.dom());
        assert forall|other: soroban_sdk::Address|
            next.is_employed(other) <==> #[trigger] next.employees.contains_key(other) by {
            assert(s.is_employed(other) <==> s.employees.contains_key(other));
        }
    }
}

/// Hiring an address and then removing it restores the count, leaves the address
/// without a record and not employed, and leaves every other address as it was: in a
/// sound registry the removal succeeds whenever the owner authorizes it.
pub proof fn add_then_remove_restores(
    s: PayrollState,
    hiring: Set<soroban_sdk::Address>,
    removing: Set<soroban_sdk::Address>,
    admin: soroban_sdk::Address,
    name: soroban_sdk::String,
    address: soroban_sdk::Address,
    pay: u128,
)
    requires
        s.wf(),
        removing.contains(s.owner),
    ensures
        s.add_employee(hiring, admin, name, address, pay) matches Ok(hired) ==> {
            &&& hired.remove_employee(removing, address) matches Ok(Ok(removed)) && {
                &&& removed.wf()
                &&& removed.employee_count == s.employee_count
                &&& removed.employee(address) is None
                &&& !removed.is_employed(address)
                &&& removed.employees == s.employees
                &&& forall|other: soroban_sdk::Address|
                    removed.is_employed(other) == s.is_employed(other)
            }
        },
{
    if let Ok(hired) = s.add_employee(hiring, admin, name, address, pay) {
        add_employee_keeps_registry_sound(s, hiring, admin, name, address, pay);
        remove_employee_keeps_registry_sound(hired, removing, address);
        let removed = hired.remove_employee(removing, address)->Ok_0->Ok_0;
        assert(!s.employees.contains_key(address));
        assert(removed.employees =~= s.employees);
    }
}

/// An address that was removed is not an employee: a second removal is refused.
pub proof fn removed_employee_is_gone(
    s: PayrollState,
    first: Set<soroban_sdk::Address>,
    second: Set<soroban_sdk::Address>,
    address: soroban_sdk::Address,
)
    ensures
        s.remove_employee(first, address) matches Ok(Ok(next)) ==> next.remove_employee(
            second,
            address,
        ) == Ok::<Result<PayrollState, EmployeeContractError>, Trap>(
            Err(EmployeeContractError::NotAnEmployee),
        ),
{
}

/// The owner and the token's address are written by the constructor and by nothing
/// else, and a suspension is never lifted: every operation leaves the owner and the
/// token's address as they were, and whoever was suspended stays suspended.
pub proof fn owner_token_and_suspensions_stay(
    s: PayrollState,
    authorized: Set<soroban_sdk::Address>,
    admin: soroban_sdk::Address,
    name: soroban_sdk::String,
    address: soroban_sdk::Address,
    pay: u128,
    level: u32,
    suspended: soroban_sdk::Address,
)
    requires
        s.suspension(suspended) == Some(true),
    ensures
        s.add_employee(authorized, admin, name, address, pay) matches Ok(next) ==> stays(
            s,
            next,
            suspended,
        ),
        s.remove_employee(authorized, address) matches Ok(Ok(next)) ==> stays(s, next, suspended),
        s.suspend_employee(address) matches Ok(Ok(next)) ==> stays(s, next, suspended),
        s.promote_employee(address, level) matches Ok(next) ==> stays(s, next, suspended),
{
}

/// Whether `second` has the owner and the token's address of `first`, and `address`
/// suspended.
pub open spec fn stays(first: PayrollState, second: PayrollState, address: soroban_sdk::Address) -> bool {
    &&& first.owner == second.owner
    &&& first.token == second.token
    &&& second.suspension(address) == Some(true)
}

/// No hire and no pay succeeds unless the address given as the administrator has
/// authorized it, and no removal unless the owner has.
pub proof fn payroll_success_needs_authorization(
    s: PayrollState,
    authorized: Set<soroban_sdk::Address>,
    now: u64,
    this: soroban_sdk::Address,
    token: TokenState,
    admin: soroban_sdk::Address,
    name: soroban_sdk::String,
    address: soroban_sdk::Address,
    pay: u128,
)
    ensures
        s.add_employee(authorized, admin, name, address, pay) is Ok ==> authorized.contains(admin),
        s.remove_employee(authorized, address) matches Ok(Ok(_)) ==> authorized.contains(s.owner),
        s.pay_employee(authorized, now, this, token, admin, address) is Ok ==> authorized.contains(
            admin,
        ),
{
}

/// A pay that succeeds leaves a sound ledger of the token with the same total supply:
/// the employee's pay has moved from the administrator's balance to the balance of the
/// address in the employee's record, out of the allowance that the administrator gave
/// to the payroll contract, which was not past its deadline and has shrunk by the pay.
pub proof fn pay_employee_moves_the_pay(
    s: PayrollState,
    authorized: Set<soroban_sdk::Address>,
    now: u64,
    this: soroban_sdk::Address,
    token: TokenState,
    admin: soroban_sdk::Address,
    address: soroban_sdk::Address,
)
    requires
        token.wf(),
    ensures
        s.pay_employee(authorized, now, this, token, admin, address) matches Ok(paid) ==> {
            &&& s.employee(address) matches Some(employee) && {
                &&& 0 < employee.pay <= i128::MAX
                &&& paid.wf()
                &&& paid.total_supply == token.total_supply
                &&& admin != employee.address ==> paid.balance(admin) == token.balance(admin)
                    - employee.pay && paid.balance(employee.address) == token.balance(
                    employee.address,
                ) + employee.pay
                &&& admin == employee.address ==> paid.balance(admin) == token.balance(admin)
                &&& forall|id: soroban_sdk::Address|
                    id != admin && id != employee.address ==> paid.balance(id) == token.balance(id)
                &&& token.allowance(admin, this) matches Some(before) && {
                    &&& employee.pay <= before.amount
                    &&& now <= before.deadline
                    &&& paid.allowance(admin, this) == Some(
                        AllowanaceDetails {
                            amount: (before.amount - employee.pay) as i128,
                            deadline: before.deadline,
                        },
                    )
                }
            }
        },
{
    if let Ok(paid) = s.pay_employee(authorized, now, this, token, admin, address) {
        let employee = s.employees[address];
        transfer_from_keeps_ledger_sound(
            token,
            authorized.insert(this),
            now,
            this,
            admin,
            employee.address,
            employee.pay as i128,
        );
    }
}

} // verus!
