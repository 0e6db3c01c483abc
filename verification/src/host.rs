//! The calls into `soroban_sdk`.
//!
//! Nothing here is proved: each function is a call into the crate, with the
//! conversions that the call needs, and states of it only what the crate's source and
//! documentation give. None of them reads or writes the ledger: they compare and copy
//! addresses, build the host values of keys and of event data, and publish an event.
use soroban_sdk::IntoVal;
use vstd::prelude::*;

verus! {

#[verifier::external_type_specification]
#[verifier::external_body]
pub struct ExEnv(soroban_sdk::Env);

#[verifier::external_type_specification]
#[verifier::external_body]
pub struct ExAddress(soroban_sdk::Address);

#[verifier::external_type_specification]
#[verifier::external_body]
pub struct ExString(soroban_sdk::String);

#[verifier::external_type_specification]
#[verifier::external_body]
pub struct ExVal(soroban_sdk::Val);

/// Whether `text` can be the name of a host symbol: at most 32 characters, each a
/// letter, a digit or an underscore.
pub open spec fn is_symbol_text(text: Seq<char>) -> bool {
    &&& text.len() <= 32
    &&& forall|i: int|
        0 <= i < text.len() ==> {
            let c = #[trigger] text[i];
            ('a' <= c && c <= 'z') || ('A' <= c && c <= 'Z') || ('0' <= c && c <= '9') || c == '_'
        }
}

/// `Symbol::new` and the conversion of a one-element tuple into a host value: the
/// storage key of an entry that has a tag and nothing else. `Symbol::new` rejects
/// text that is no symbol, which `requires` leaves out.
#[verifier::external_body]
pub(crate) fn key_of_tag(env: &soroban_sdk::Env, tag: &str) -> (key: soroban_sdk::Val)
    requires
        is_symbol_text(tag@),
{
    (soroban_sdk::Symbol::new(env, tag),).into_val(env)
}

/// As `key_of_tag`, for an entry that belongs to one address.
#[verifier::external_body]
pub(crate) fn key_of_address(
    env: &soroban_sdk::Env,
    tag: &str,
    address: &soroban_sdk::Address,
) -> (key: soroban_sdk::Val)
    requires
        is_symbol_text(tag@),
{
    (soroban_sdk::Symbol::new(env, tag), address.clone()).into_val(env)
}

/// As `key_of_tag`, for an entry that belongs to an ordered pair of addresses.
#[verifier::external_body]
pub(crate) fn key_of_pair(
    env: &soroban_sdk::Env,
    tag: &str,
    first: &soroban_sdk::Address,
    second: &soroban_sdk::Address,
) -> (key: soroban_sdk::Val)
    requires
        is_symbol_text(tag@),
{
    (soroban_sdk::Symbol::new(env, tag), first.clone(), second.clone()).into_val(env)
}

/// `Clone::clone` of an address: a second handle to the same address.
pub assume_specification[ <soroban_sdk::Address as Clone>::clone ](
    address: &soroban_sdk::Address,
) -> (copy: soroban_sdk::Address)
    ensures
        copy == *address,
;

/// `Clone::clone` of a host string: a second handle to the same text.
pub assume_specification[ <soroban_sdk::String as Clone>::clone ](
    text: &soroban_sdk::String,
) -> (copy: soroban_sdk::String)
    ensures
        copy == *text,
;

/// The conversion of an address into a host value.
#[verifier::external_body]
pub(crate) fn val_of_address(env: &soroban_sdk::Env, address: &soroban_sdk::Address) -> (value:
    soroban_sdk::Val) {
    address.into_val(env)
}

/// The conversion of a `u128` into a host value.
#[verifier::external_body]
pub(crate) fn val_of_u128(env: &soroban_sdk::Env, number: u128) -> (value: soroban_sdk::Val) {
    number.into_val(env)
}

/// `PartialEq::eq` of two addresses: whether they name the same account or contract.
#[verifier::external_body]
pub(crate) fn same_address(first: &soroban_sdk::Address, second: &soroban_sdk::Address) -> (same:
    bool)
    ensures
        same == (*first == *second),
{
    first == second
}

/// `Map::from_array` on one field and the conversion of the map into a host value: a
/// record with the field `name`.
#[verifier::external_body]
pub(crate) fn record_of_one(env: &soroban_sdk::Env, name: &str, value: &soroban_sdk::Val) -> (record:
    soroban_sdk::Val)
    requires
        is_symbol_text(name@),
{
    let fields = [(soroban_sdk::Symbol::new(env, name), *value)];
    soroban_sdk::Map::<soroban_sdk::Symbol, soroban_sdk::Val>::from_array(env, fields).into_val(env)
}

/// As `record_of_one`, for a record with two fields.
#[verifier::external_body]
pub(crate) fn record_of_two(
    env: &soroban_sdk::Env,
    first_name: &str,
    first: &soroban_sdk::Val,
    second_name: &str,
    second: &soroban_sdk::Val,
) -> (record: soroban_sdk::Val)
    requires
        is_symbol_text(first_name@),
        is_symbol_text(second_name@),
{
    let fields = [
        (soroban_sdk::Symbol::new(env, first_name), *first),
        (soroban_sdk::Symbol::new(env, second_name), *second),
    ];
    soroban_sdk::Map::<soroban_sdk::Symbol, soroban_sdk::Val>::from_array(env, fields).into_val(env)
}

/// `Events::publish`: publishes `data` as an event of the running contract, with
/// `topic` as its only topic.
#[verifier::external_body]
#[allow(deprecated)]
pub(crate) fn publish(env: &soroban_sdk::Env, topic: &str, data: &soroban_sdk::Val) {
    env.events().publish((topic,), *data)
}

} // verus!
