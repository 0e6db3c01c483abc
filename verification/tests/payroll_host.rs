use core::fmt::Debug;
use employee_payroll::payroll::employee_or_refusal;
use employee_payroll::payroll::promotion;
use employee_payroll::payroll::DataKey;
use employee_payroll::Employee;
use employee_payroll::EmployeeContract;
use employee_payroll::EmployeeContractError;
use employee_payroll::ISep0041;
use employee_payroll::Rank;
use employee_payroll::Sep0041;
use employee_payroll::Trap;
use soroban_sdk::testutils::Address as _;
use soroban_sdk::testutils::ContractFunctionSet;
use soroban_sdk::testutils::EnvTestConfig;
use soroban_sdk::testutils::Events as _;
use soroban_sdk::testutils::Ledger as _;
use soroban_sdk::xdr::ContractEventBody;
use soroban_sdk::xdr::ScVal;
use soroban_sdk::Address;
use soroban_sdk::Env;
use soroban_sdk::IntoVal;
use soroban_sdk::String;
use soroban_sdk::Symbol;
use soroban_sdk::TryFromVal;
use soroban_sdk::Val;

fn token_read<V>(env: &Env, key: employee_payroll::token::DataKey) -> Option<V>
where
    V: TryFromVal<Env, Val>,
    V::Error: Debug,
{
    env.storage().instance().get::<Val, V>(&key.to_val(env))
}

fn token_write<V: IntoVal<Env, Val>>(env: &Env, key: &employee_payroll::token::DataKey, value: &V) {
    env.storage().instance().set::<Val, V>(&key.to_val(env), value)
}

fn balance_entry(env: &Env, id: &Address) -> Option<i128> {
    token_read(env, employee_payroll::token::DataKey::Balance(id.clone()))
}

fn allowance_entry(env: &Env, from: &Address, spender: &Address) -> Option<(i128, u64)> {
    token_read(
        env,
        employee_payroll::token::DataKey::Allowance(from.clone(), spender.clone()),
    )
}

/// The token contract's `transfer_from`: asks the spender, reads, computes, writes.
fn transfer_from_entry(
    env: &Env,
    spender: &Address,
    from: &Address,
    to: &Address,
    amount: i128,
) -> Result<(), Trap> {
    spender.require_auth();
    let allowance = allowance_entry(env, from, spender);
    let now = env.ledger().timestamp();
    let from_balance = balance_entry(env, from);
    let to_balance = balance_entry(env, to);
    let drawn = Sep0041::transfer_from(
        spender.clone(),
        from.clone(),
        to.clone(),
        amount,
        allowance,
        now,
        from_balance,
        to_balance,
    )?;
    token_write(env, &drawn.debit.0, &drawn.debit.1);
    token_write(env, &drawn.credit.0, &drawn.credit.1);
    token_write(
        env,
        &drawn.allowance.0,
        &(drawn.allowance.1.amount, drawn.allowance.1.deadline),
    );
    Ok(())
}

/// The token as the host sees it: the entry point that the payroll calls, dispatched
/// by name, aborting where the library reports a trap.
struct Token;

impl ContractFunctionSet for Token {
    fn call(&self, func: &str, env: Env, args: &[Val]) -> Option<Val> {
        if func != "transfer_from" || args.len() != 4 {
            return None;
        }
        let spender = Address::try_from_val(&env, &args[0]).unwrap();
        let from = Address::try_from_val(&env, &args[1]).unwrap();
        let to = Address::try_from_val(&env, &args[2]).unwrap();
        let amount = i128::try_from_val(&env, &args[3]).unwrap();
        transfer_from_entry(&env, &spender, &from, &to, amount).unwrap();
        Some(().into_val(&env))
    }
}

struct Payroll;

impl ContractFunctionSet for Payroll {
    fn call(&self, _func: &str, _env: Env, _args: &[Val]) -> Option<Val> {
        None
    }
}

fn generate_addresses(env: &Env) -> (Address, Address, Address) {
    let first_address: Address = Address::generate(env);
    let second_address: Address = Address::generate(env);
    let third_address: Address = Address::generate(env);

    (first_address, second_address, third_address)
}

fn read<V>(env: &Env, key: DataKey) -> Option<V>
where
    V: TryFromVal<Env, Val>,
    V::Error: Debug,
{
    env.storage().instance().get::<Val, V>(&key.to_val(env))
}

fn write<V: IntoVal<Env, Val>>(env: &Env, key: &DataKey, value: &V) {
    env.storage().instance().set::<Val, V>(&key.to_val(env), value)
}

fn rank_number(rank: Rank) -> u32 {
    match rank {
        Rank::Level_1 => 0,
        Rank::Level_2 => 1,
        Rank::Level_3 => 2,
    }
}

fn rank_of_number(number: u32) -> Rank {
    match number {
        0 => Rank::Level_1,
        1 => Rank::Level_2,
        2 => Rank::Level_3,
        other => panic!("no rank has the number {}", other),
    }
}

fn record_entry(env: &Env, address: &Address) -> Option<Employee> {
    read::<(String, Address, u128, u32)>(env, DataKey::Employee(address.clone())).map(
        |(name, address, pay, rank)| Employee {
            name,
            address,
            pay,
            rank: rank_of_number(rank),
        },
    )
}

fn write_record(env: &Env, record: &(DataKey, Employee)) {
    let entry = (
        record.1.name.clone(),
        record.1.address.clone(),
        record.1.pay,
        rank_number(record.1.rank),
    );
    write(env, &record.0, &entry);
}

fn exist_entry(env: &Env, address: &Address) -> Option<bool> {
    read(env, DataKey::Exist(address.clone()))
}

fn count_entry(env: &Env) -> Option<u128> {
    read(env, DataKey::EmployeeCount)
}

/// The payroll contract's constructor.
fn construct_entry(env: &Env, admin: &Address, token: &Address) -> Result<(), Trap> {
    let constructed = env.storage().instance().has(&DataKey::Owner.to_val(env));
    let written = EmployeeContract::__constructor(admin.clone(), token.clone(), constructed)?;
    write(env, &written.owner.0, &written.owner.1);
    write(env, &written.token.0, &written.token.1);
    Ok(())
}

fn construct(env: &Env, payroll: &Address, admin: &Address, token: &Address) -> Result<(), Trap> {
    env.as_contract(payroll, || construct_entry(env, admin, token))
}

fn construct_token(env: &Env, token: &Address, admin: &Address) {
    env.as_contract(token, || {
        let metadata = Sep0041::__constructor(
            admin.clone(),
            String::from_str(env, "loaded"),
            String::from_str(env, "lsd"),
        );
        token_write(env, &metadata.admin.0, &metadata.admin.1);
        token_write(env, &metadata.name.0, &metadata.name.1);
        token_write(env, &metadata.symbol.0, &metadata.symbol.1);
        token_write(env, &metadata.decimals.0, &metadata.decimals.1);
    });
}

/// The host, the payroll's address, the token's administrator, the payroll's owner and
/// the token's address.
fn setup() -> (Env, Address, Address, Address, Address) {
    let env = Env::new_with_config(EnvTestConfig {
        capture_snapshot_at_drop: false,
    });

    let (admin, second_admin, _) = generate_addresses(&env);
    let token = env.register(Token, ());
    let payroll = env.register(Payroll, ());
    env.mock_all_auths();
    construct_token(&env, &token, &admin);
    assert_eq!(construct(&env, &payroll, &second_admin, &token), Ok(()));

    (env, payroll, admin, second_admin, token)
}

fn get_owner(env: &Env, payroll: &Address) -> Result<Address, Trap> {
    env.as_contract(payroll, || {
        EmployeeContract::get_owner(read(env, DataKey::Owner))
    })
}

/// The payroll contract's `add_employee`.
fn hire_entry(
    env: &Env,
    admin: &Address,
    name: &String,
    address: &Address,
    pay: u128,
) -> Result<(), Trap> {
    admin.require_auth();
    let hired = EmployeeContract::add_employee(
        name.clone(),
        address.clone(),
        pay,
        exist_entry(env, address),
        count_entry(env),
    )?;
    write_record(env, &hired.record);
    write(env, &hired.exist.0, &hired.exist.1);
    write(env, &hired.count.0, &hired.count.1);
    Ok(())
}

fn add_employee(
    env: &Env,
    payroll: &Address,
    admin: &Address,
    name: &String,
    address: &Address,
    pay: u128,
) -> Result<(), Trap> {
    env.as_contract(payroll, || hire_entry(env, admin, name, address, pay))
}

fn removal_authority(
    env: &Env,
    payroll: &Address,
    address: &Address,
) -> Result<Result<Address, EmployeeContractError>, Trap> {
    env.as_contract(payroll, || {
        EmployeeContract::removal_authority(exist_entry(env, address), read(env, DataKey::Owner))
    })
}

/// The payroll contract's `remove_employee`.
fn removal_entry(env: &Env, address: &Address) -> Result<Result<(), EmployeeContractError>, Trap> {
    let exist = exist_entry(env, address);
    match EmployeeContract::removal_authority(exist, read(env, DataKey::Owner))? {
        Err(refusal) => return Ok(Err(refusal)),
        Ok(owner) => owner.require_auth(),
    }
    match EmployeeContract::remove_employee(address.clone(), exist, count_entry(env))? {
        Err(refusal) => Ok(Err(refusal)),
        Ok(removed) => {
            env.storage().instance().remove(&removed.record.to_val(env));
            write(env, &removed.exist.0, &removed.exist.1);
            write(env, &removed.count.0, &removed.count.1);
            employee_payroll::emit_remove_employee(env, removed.event.employee);
            Ok(Ok(()))
        }
    }
}

fn remove_employee(
    env: &Env,
    payroll: &Address,
    address: &Address,
) -> Result<Result<(), EmployeeContractError>, Trap> {
    env.as_contract(payroll, || removal_entry(env, address))
}

fn get_employee_count(env: &Env, payroll: &Address) -> u128 {
    env.as_contract(payroll, || {
        EmployeeContract::get_employee_count(count_entry(env))
    })
}

fn try_get_employee(
    env: &Env,
    payroll: &Address,
    address: &Address,
) -> Result<Option<Employee>, Trap> {
    env.as_contract(payroll, || {
        EmployeeContract::get_employee(address.clone(), record_entry(env, address))
    })
}

fn get_employee(env: &Env, payroll: &Address, address: &Address) -> Option<Employee> {
    try_get_employee(env, payroll, address).unwrap()
}

/// The payroll contract's `pay_employee`.
fn pay_entry(env: &Env, admin: &Address, address: &Address) -> Result<(), Trap> {
    admin.require_auth();
    let due = EmployeeContract::pay_employee(
        env.current_contract_address(),
        admin.clone(),
        address.clone(),
        record_entry(env, address),
        read(env, DataKey::Contract),
    )?;
    let arguments = soroban_sdk::Vec::<Val>::from_array(
        env,
        [
            due.spender.into_val(env),
            due.from.into_val(env),
            due.to.into_val(env),
            due.amount.into_val(env),
        ],
    );
    let called = env.try_invoke_contract::<Val, soroban_sdk::Error>(
        &due.token,
        &Symbol::new(env, "transfer_from"),
        arguments,
    );
    if !matches!(called, Ok(Ok(_))) {
        return Err(Trap::TokenCallFailed);
    }
    employee_payroll::emit_employee_paid(env, due.event.employee, due.event.amount);
    Ok(())
}

fn pay_employee(
    env: &Env,
    payroll: &Address,
    admin: &Address,
    address: &Address,
) -> Result<(), Trap> {
    env.as_contract(payroll, || pay_entry(env, admin, address))
}

fn is_suspended(env: &Env, payroll: &Address, address: &Address) -> Option<bool> {
    env.as_contract(payroll, || {
        EmployeeContract::is_employee_suspended(read(env, DataKey::Suspended(address.clone())))
    })
}

/// The payroll contract's `suspend_employee`.
fn suspend(
    env: &Env,
    payroll: &Address,
    address: &Address,
) -> Result<Result<(), EmployeeContractError>, Trap> {
    env.as_contract(payroll, || {
        let suspended = EmployeeContract::suspend_employee(
            address.clone(),
            exist_entry(env, address),
            record_entry(env, address),
        )?;
        match suspended {
            Err(refusal) => Ok(Err(refusal)),
            Ok(suspended) => {
                write(env, &suspended.flag.0, &suspended.flag.1);
                employee_payroll::emit_employee_suspended(env, &suspended.event.employee);
                Ok(Ok(()))
            }
        }
    })
}

/// The payroll contract's `promote_employee`.
fn promote(env: &Env, payroll: &Address, address: &Address, level: u32) -> Result<(), Trap> {
    env.as_contract(payroll, || {
        let promoted = EmployeeContract::promote_employee(
            address.clone(),
            level,
            exist_entry(env, address),
            record_entry(env, address),
        )?;
        write_record(env, &promoted);
        Ok(())
    })
}

fn balance(env: &Env, token: &Address, id: &Address) -> i128 {
    env.as_contract(token, || Sep0041::balance(balance_entry(env, id)))
        .unwrap()
}

fn try_allowance(
    env: &Env,
    token: &Address,
    from: &Address,
    spender: &Address,
) -> Result<i128, Trap> {
    env.as_contract(token, || {
        Sep0041::allowance(allowance_entry(env, from, spender))
    })
}

fn mint(env: &Env, token: &Address, to: &Address, amount: i128) {
    env.as_contract(token, || {
        let admin = token_read(env, employee_payroll::token::DataKey::Admin);
        Sep0041::mint_authority(admin).unwrap().require_auth();
        let balance = balance_entry(env, to);
        let total_supply = token_read(env, employee_payroll::token::DataKey::TotalSupply);
        let change = Sep0041::mint(to.clone(), amount, balance, total_supply)
            .unwrap()
            .unwrap();
        token_write(env, &change.balance.0, &change.balance.1);
        token_write(env, &change.total_supply.0, &change.total_supply.1);
    });
}

fn approve(env: &Env, token: &Address, from: &Address, spender: &Address, amount: i128, live: u32) {
    env.as_contract(token, || {
        from.require_auth();
        let now = env.ledger().timestamp();
        let granted = Sep0041::approve(from.clone(), spender.clone(), amount, live, now).unwrap();
        token_write(
            env,
            &granted.0,
            &(granted.1.amount, granted.1.deadline),
        );
    });
}

/// The topic and the data of the events that `contract` has published.
fn published(env: &Env, contract: &Address) -> Vec<(std::string::String, soroban_sdk::Map<Symbol, Val>)> {
    let mut found = Vec::new();
    for event in env.events().all().filter_by_contract(contract).events() {
        let ContractEventBody::V0(body) = &event.body;
        assert_eq!(body.topics.len(), 1);
        let topic = match &body.topics[0] {
            ScVal::String(text) => text.to_utf8_string().unwrap(),
            other => panic!("topic is no text: {:?}", other),
        };
        let data = soroban_sdk::Map::<Symbol, Val>::try_from_val(env, &body.data).unwrap();
        found.push((topic, data));
    }
    found
}

#[test]
fn test_deploy_employee() {
    let (env, payroll, _, sec_admin, _) = setup();
    assert_eq!(
        get_owner(&env, &payroll),
        Ok(sec_admin)
    )
}

#[test]
fn test_add_employee() {
    let (env, payroll, _, sec_admin, _) = setup();
    let (a, b, _) = generate_addresses(&env);
    let employee_name = String::from_str(&env, "dele");

    // add an employee
    add_employee(&env, &payroll, &sec_admin, &employee_name, &a, 2000).unwrap();

    // count is :::
    assert_eq!(get_employee_count(&env, &payroll), 1);

    add_employee(&env, &payroll, &sec_admin, &employee_name, &b, 2000).unwrap();
    assert_eq!(get_employee_count(&env, &payroll), 2);
}

#[test]
fn test_pay_employee() {
    let (env, payroll, _, sec_admin, token) = setup();
    let (a, b, _) = generate_addresses(&env);
    let employee_name = String::from_str(&env, "dele");

    // add an employe
    add_employee(&env, &payroll, &sec_admin, &employee_name, &a, 2000).unwrap();
    //first mint
    mint(&env, &token, &sec_admin, 10_000);
    //check the balance of both the employer and employee
    let employer_balance = balance(&env, &token, &sec_admin);
    let employee_balance = balance(&env, &token, &b);
    //
    assert_eq!(employer_balance, 10_000);
    assert_eq!(employee_balance, 0);

    // approve the contract
    approve(&env, &token, &sec_admin, &payroll, 2000, 3);

    // employer pays employee
    pay_employee(&env, &payroll, &sec_admin, &a).unwrap();
    // confirm balance changes
    let employer_balance = balance(&env, &token, &sec_admin);
    let employee_balance = balance(&env, &token, &a);

    assert_eq!(employer_balance, 8_000);
    assert_eq!(employee_balance, 2_000);
}

#[test]
fn pay_employee_publishes_the_employee_and_the_amount() {
    let (env, payroll, _, owner, token) = setup();
    let (employee, _, _) = generate_addresses(&env);
    let name = String::from_str(&env, "dele");
    add_employee(&env, &payroll, &owner, &name, &employee, 2000).unwrap();
    mint(&env, &token, &owner, 10_000);
    approve(&env, &token, &owner, &payroll, 2000, 3);

    assert_eq!(pay_employee(&env, &payroll, &owner, &employee), Ok(()));

    let events = published(&env, &payroll);
    assert_eq!(events.len(), 1);
    let (topic, data) = &events[0];
    assert_eq!(topic.as_str(), "employee_paid");
    assert_eq!(data.len(), 2);
    let paid_to = data.get(Symbol::new(&env, "employee")).unwrap();
    assert_eq!(Address::try_from_val(&env, &paid_to), Ok(employee.clone()));
    let amount = data.get(Symbol::new(&env, "amount")).unwrap();
    assert_eq!(u128::try_from_val(&env, &amount), Ok(2000_u128));

    assert_eq!(try_allowance(&env, &token, &owner, &payroll), Ok(0));
}

#[test]
fn pay_employee_without_an_allowance_fails_and_moves_nothing() {
    let (env, payroll, _, owner, token) = setup();
    let (employee, _, _) = generate_addresses(&env);
    let name = String::from_str(&env, "dele");
    add_employee(&env, &payroll, &owner, &name, &employee, 2000).unwrap();
    mint(&env, &token, &owner, 10_000);

    assert_eq!(
        pay_employee(&env, &payroll, &owner, &employee),
        Err(Trap::TokenCallFailed)
    );
    assert_eq!(balance(&env, &token, &owner), 10_000);
    assert_eq!(balance(&env, &token, &employee), 0);

    approve(&env, &token, &owner, &payroll, 1999, 3);
    assert_eq!(
        pay_employee(&env, &payroll, &owner, &employee),
        Err(Trap::TokenCallFailed)
    );
    assert_eq!(balance(&env, &token, &owner), 10_000);
}

#[test]
fn pay_employee_after_the_allowance_expired_fails() {
    let (env, payroll, _, owner, token) = setup();
    let (employee, _, _) = generate_addresses(&env);
    let name = String::from_str(&env, "dele");
    add_employee(&env, &payroll, &owner, &name, &employee, 2000).unwrap();
    mint(&env, &token, &owner, 10_000);
    approve(&env, &token, &owner, &payroll, 2000, 3);
    env.ledger().set_timestamp(181);
    assert_eq!(
        pay_employee(&env, &payroll, &owner, &employee),
        Err(Trap::TokenCallFailed)
    );
    assert_eq!(balance(&env, &token, &employee), 0);
}

#[test]
fn pay_employee_needs_a_record_and_a_pay_that_the_token_can_hold() {
    let (env, payroll, _, owner, token) = setup();
    let (employee, stranger, _) = generate_addresses(&env);
    let name = String::from_str(&env, "dele");
    assert_eq!(
        pay_employee(&env, &payroll, &owner, &stranger),
        Err(Trap::MissingEntry)
    );
    let too_much = i128::MAX as u128 + 1;
    add_employee(&env, &payroll, &owner, &name, &employee, too_much).unwrap();
    assert_eq!(
        pay_employee(&env, &payroll, &owner, &employee),
        Err(Trap::Overflow)
    );
    assert_eq!(balance(&env, &token, &employee), 0);
}

#[test]
fn add_then_remove_restores_the_count_and_removes_the_record() {
    let (env, payroll, _, owner, _) = setup();
    let (employee, other, _) = generate_addresses(&env);
    let name = String::from_str(&env, "dele");
    add_employee(&env, &payroll, &owner, &name, &other, 10).unwrap();
    add_employee(&env, &payroll, &owner, &name, &employee, 2000).unwrap();
    assert_eq!(
        get_employee(&env, &payroll, &employee),
        Some(Employee {
            name: name.clone(),
            address: employee.clone(),
            pay: 2000,
            rank: Rank::Level_1,
        })
    );

    assert_eq!(remove_employee(&env, &payroll, &employee), Ok(Ok(())));
    let events = published(&env, &payroll);
    assert_eq!(events.len(), 1);
    let (topic, data) = &events[0];
    assert_eq!(topic.as_str(), "employee_removed");
    assert_eq!(data.len(), 1);
    let removed = data.get(Symbol::new(&env, "employee")).unwrap();
    assert_eq!(Address::try_from_val(&env, &removed), Ok(employee.clone()));
    assert_eq!(get_employee_count(&env, &payroll), 1);
    assert_eq!(get_employee(&env, &payroll, &employee), None);
    assert_eq!(get_employee(&env, &payroll, &other).unwrap().pay, 10);

    assert_eq!(
        remove_employee(&env, &payroll, &employee),
        Ok(Err(EmployeeContractError::NotAnEmployee))
    );
    assert_eq!(get_employee_count(&env, &payroll), 1);
}

#[test]
fn remove_of_the_only_employee_leaves_nobody() {
    let (env, payroll, _, owner, _) = setup();
    let (employee, _, _) = generate_addresses(&env);
    let name = String::from_str(&env, "dele");
    add_employee(&env, &payroll, &owner, &name, &employee, 2000).unwrap();
    assert_eq!(remove_employee(&env, &payroll, &employee), Ok(Ok(())));
    assert_eq!(get_employee_count(&env, &payroll), 0);
    assert_eq!(
        remove_employee(&env, &payroll, &employee),
        Ok(Err(EmployeeContractError::NotAnEmployee))
    );
}

#[test]
fn an_employee_is_hired_once_and_can_be_hired_again_after_removal() {
    let (env, payroll, _, owner, _) = setup();
    let (employee, _, _) = generate_addresses(&env);
    let name = String::from_str(&env, "dele");
    add_employee(&env, &payroll, &owner, &name, &employee, 2000).unwrap();
    assert_eq!(
        add_employee(&env, &payroll, &owner, &name, &employee, 1),
        Err(Trap::AlreadyEmployee)
    );
    assert_eq!(get_employee_count(&env, &payroll), 1);
    assert_eq!(get_employee(&env, &payroll, &employee).unwrap().pay, 2000);

    remove_employee(&env, &payroll, &employee).unwrap().unwrap();
    assert_eq!(add_employee(&env, &payroll, &owner, &name, &employee, 7), Ok(()));
    assert_eq!(get_employee_count(&env, &payroll), 1);
    assert_eq!(get_employee(&env, &payroll, &employee).unwrap().pay, 7);
}

#[test]
fn promote_maps_the_level_to_a_rank() {
    let (env, payroll, _, owner, _) = setup();
    let (employee, stranger, _) = generate_addresses(&env);
    let name = String::from_str(&env, "dele");
    add_employee(&env, &payroll, &owner, &name, &employee, 2000).unwrap();
    let promote = |address: &Address, level: u32| promote(&env, &payroll, address, level);
    for (level, rank) in [
        (1_u32, Rank::Level_2),
        (2, Rank::Level_3),
        (0, Rank::Level_1),
        (3, Rank::Level_1),
        (257, Rank::Level_1),
        (258, Rank::Level_1),
        (u32::MAX, Rank::Level_1),
    ] {
        assert_eq!(promote(&employee, 1), Ok(()));
        assert_eq!(promote(&employee, level), Ok(()));
        let record = get_employee(&env, &payroll, &employee).unwrap();
        assert_eq!(record.rank, rank);
        assert_eq!(record.pay, 2000);
        assert_eq!(record.name, name);
        assert_eq!(record.address, employee);
    }
    assert_eq!(promote(&stranger, 1), Err(Trap::MissingEntry));
    assert_eq!(get_employee_count(&env, &payroll), 1);
}

#[test]
fn the_count_is_the_number_of_employed_addresses() {
    let (env, payroll, _, owner, _) = setup();
    let (first, second, third) = generate_addresses(&env);
    let name = String::from_str(&env, "dele");
    let employed = |env: &Env| {
        let mut number = 0_u128;
        for address in [&first, &second, &third] {
            if get_employee(env, &payroll, address).is_some() {
                number += 1;
            }
        }
        number
    };
    assert_eq!(get_employee_count(&env, &payroll), employed(&env));
    add_employee(&env, &payroll, &owner, &name, &first, 1).unwrap();
    add_employee(&env, &payroll, &owner, &name, &second, 2).unwrap();
    add_employee(&env, &payroll, &owner, &name, &third, 3).unwrap();
    assert_eq!(employed(&env), 3);
    assert_eq!(get_employee_count(&env, &payroll), 3);
    remove_employee(&env, &payroll, &second).unwrap().unwrap();
    assert_eq!(employed(&env), 2);
    assert_eq!(get_employee_count(&env, &payroll), 2);
    assert_eq!(
        add_employee(&env, &payroll, &owner, &name, &first, 9),
        Err(Trap::AlreadyEmployee)
    );
    assert_eq!(
        remove_employee(&env, &payroll, &second),
        Ok(Err(EmployeeContractError::NotAnEmployee))
    );
    assert_eq!(get_employee_count(&env, &payroll), employed(&env));
}

#[test]
fn an_address_is_an_employee_or_refused() {
    let (env, _, _, _, _) = setup();
    let (employee, _, _) = generate_addresses(&env);
    let record = Employee::hired(String::from_str(&env, "dele"), employee.clone(), 2000);
    assert_eq!(
        employee_or_refusal(true, Some(record.clone())),
        Ok(Ok(record.clone()))
    );
    assert_eq!(
        employee_or_refusal(false, Some(record.clone())),
        Ok(Err(EmployeeContractError::NotAnEmployee))
    );
    assert_eq!(
        employee_or_refusal(false, None),
        Ok(Err(EmployeeContractError::NotAnEmployee))
    );
    assert_eq!(employee_or_refusal(true, None), Err(Trap::MissingEntry));

    let promoted = promotion(Ok(record.clone()), 2).unwrap();
    assert_eq!(promoted.rank, Rank::Level_3);
    assert_eq!(promoted.pay, 2000);
    assert_eq!(promoted.address, employee);
    assert_eq!(promoted.name, record.name);
    assert_eq!(promotion(Ok(record.clone()), 9).unwrap().rank, Rank::Level_1);
    assert_eq!(
        promotion(Err(EmployeeContractError::NotAnEmployee), 1),
        Err(Trap::MissingEntry)
    );
}


#[test]
fn suspend_marks_an_employee_and_refuses_a_stranger() {
    let (env, payroll, _, owner, _) = setup();
    let (employee, stranger, _) = generate_addresses(&env);
    let name = String::from_str(&env, "dele");
    add_employee(&env, &payroll, &owner, &name, &employee, 2000).unwrap();
    assert_eq!(is_suspended(&env, &payroll, &employee), None);

    assert_eq!(suspend(&env, &payroll, &employee), Ok(Ok(())));
    let events = published(&env, &payroll);
    assert_eq!(events.len(), 1);
    let (topic, data) = &events[0];
    assert_eq!(topic.as_str(), "employee_suspended");
    assert_eq!(data.len(), 1);
    let marked = data.get(Symbol::new(&env, "employee")).unwrap();
    assert_eq!(Address::try_from_val(&env, &marked), Ok(employee.clone()));
    assert_eq!(is_suspended(&env, &payroll, &employee), Some(true));

    assert_eq!(
        suspend(&env, &payroll, &stranger),
        Ok(Err(EmployeeContractError::NotAnEmployee))
    );
    assert_eq!(published(&env, &payroll).len(), 0);
    assert_eq!(is_suspended(&env, &payroll, &stranger), None);
}

#[test]
fn a_payroll_is_constructed_once() {
    let (env, payroll, admin, owner, token) = setup();
    assert_eq!(
        construct(&env, &payroll, &admin, &token),
        Err(Trap::AlreadyInitialized)
    );
    assert_eq!(get_owner(&env, &payroll), Ok(owner));
}

#[test]
fn an_unconstructed_payroll_has_no_owner() {
    let env = Env::new_with_config(EnvTestConfig {
        capture_snapshot_at_drop: false,
    });
    let payroll = env.register(Payroll, ());
    env.mock_all_auths();
    assert_eq!(get_owner(&env, &payroll), Err(Trap::MissingEntry));
    assert_eq!(get_employee_count(&env, &payroll), 0);
}

#[test]
fn a_record_under_another_address_is_malformed() {
    let (env, payroll, _, owner, _) = setup();
    let (employee, other, _) = generate_addresses(&env);
    let name = String::from_str(&env, "dele");
    add_employee(&env, &payroll, &owner, &name, &employee, 2000).unwrap();
    assert_eq!(
        get_employee(&env, &payroll, &employee).unwrap().address,
        employee
    );
    env.as_contract(&payroll, || {
        let key = (Symbol::new(&env, "Employee"), employee.clone());
        let entry = (name.clone(), other.clone(), 2000_u128, 0_u32);
        env.storage().instance().set(&key, &entry);
    });
    assert_eq!(
        try_get_employee(&env, &payroll, &employee),
        Err(Trap::MalformedEntry)
    );
    assert_eq!(
        pay_employee(&env, &payroll, &owner, &employee),
        Err(Trap::MalformedEntry)
    );
    assert_eq!(
        suspend(&env, &payroll, &employee),
        Err(Trap::MalformedEntry)
    );
    assert_eq!(
        promote(&env, &payroll, &employee, 1),
        Err(Trap::MalformedEntry)
    );
}

#[test]
fn a_removal_asks_the_owner_or_refuses() {
    let (env, payroll, _, owner, _) = setup();
    let (employee, stranger, _) = generate_addresses(&env);
    let name = String::from_str(&env, "dele");
    add_employee(&env, &payroll, &owner, &name, &employee, 2000).unwrap();
    assert_eq!(
        removal_authority(&env, &payroll, &employee),
        Ok(Ok(owner.clone()))
    );
    assert_eq!(
        removal_authority(&env, &payroll, &stranger),
        Ok(Err(EmployeeContractError::NotAnEmployee))
    );
    assert_eq!(get_employee_count(&env, &payroll), 1);
}

#[test]
fn entries_lie_under_their_tag_and_their_address() {
    let (env, payroll, _, owner, token) = setup();
    let (employee, _, _) = generate_addresses(&env);
    let name = String::from_str(&env, "dele");
    add_employee(&env, &payroll, &owner, &name, &employee, 2000).unwrap();
    suspend(&env, &payroll, &employee).unwrap().unwrap();
    env.as_contract(&payroll, || {
        let storage = env.storage().instance();
        let key = (Symbol::new(&env, "Owner"),);
        assert_eq!(storage.get::<_, Address>(&key), Some(owner.clone()));
        let key = (Symbol::new(&env, "Contract"),);
        assert_eq!(storage.get::<_, Address>(&key), Some(token.clone()));
        let key = (Symbol::new(&env, "EmployeeCount"),);
        assert_eq!(storage.get::<_, u128>(&key), Some(1));
        let key = (Symbol::new(&env, "Exist"), employee.clone());
        assert_eq!(storage.get::<_, bool>(&key), Some(true));
        let key = (Symbol::new(&env, "Suspended"), employee.clone());
        assert_eq!(storage.get::<_, bool>(&key), Some(true));
        let key = (Symbol::new(&env, "Employee"), employee.clone());
        assert!(storage.has(&key));
        let key = (Symbol::new(&env, "Employee"), owner.clone());
        assert!(!storage.has(&key));
    });
}

#[test]
fn a_payroll_that_asks_first_does_nothing_without_authorization() {
    let env = Env::new_with_config(EnvTestConfig {
        capture_snapshot_at_drop: false,
    });
    let (admin, owner, employee) = generate_addresses(&env);
    let token = env.register(Token, ());
    let payroll = env.register(Payroll, ());
    construct_token(&env, &token, &admin);
    construct(&env, &payroll, &owner, &token).unwrap();
    let name = String::from_str(&env, "dele");

    let hired = env.try_as_contract::<_, soroban_sdk::Error>(&payroll, || {
        hire_entry(&env, &owner, &name, &employee, 2000)
    });
    assert!(hired.is_err());
    assert_eq!(get_employee_count(&env, &payroll), 0);
    assert_eq!(get_employee(&env, &payroll, &employee), None);

    env.mock_all_auths();
    add_employee(&env, &payroll, &owner, &name, &employee, 2000).unwrap();
    mint(&env, &token, &owner, 10_000);
    approve(&env, &token, &owner, &payroll, 2000, 3);
    env.set_auths(&[]);

    assert_eq!(
        removal_authority(&env, &payroll, &employee),
        Ok(Ok(owner.clone()))
    );
    let removed =
        env.try_as_contract::<_, soroban_sdk::Error>(&payroll, || removal_entry(&env, &employee));
    assert!(removed.is_err());
    let paid = env.try_as_contract::<_, soroban_sdk::Error>(&payroll, || {
        pay_entry(&env, &owner, &employee)
    });
    assert!(paid.is_err());
    assert_eq!(get_employee_count(&env, &payroll), 1);
    assert_eq!(balance(&env, &token, &owner), 10_000);
    assert_eq!(balance(&env, &token, &employee), 0);

    let stranger = Address::generate(&env);
    assert_eq!(
        remove_employee(&env, &payroll, &stranger),
        Ok(Err(EmployeeContractError::NotAnEmployee))
    );
}
