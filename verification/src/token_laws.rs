//! What holds of the token's ledger after every operation, and across several.
use crate::errors::Sep0041Error;
use crate::errors::Trap;
use crate::ledger_sum::lemma_sum_after_write;
use crate::ledger_sum::lemma_sum_bounds;
use crate::ledger_sum::lemma_sum_without;
use crate::ledger_sum::sum_of;
use crate::ledger_sum::value_at;
use crate::token::DataKey;
use crate::token_model::TokenState;
use crate::token_rules::AllowanaceDetails;
use vstd::prelude::*;

verus! {

/// The constructor leaves a sound ledger: nobody holds anything, nothing is approved,
/// the total supply is zero and the decimals are 18.
pub proof fn constructed_ledger_is_sound(
    admin: soroban_sdk::Address,
    name: soroban_sdk::String,
    symbol: soroban_sdk::String,
)
    ensures
        TokenState::constructed(admin, name, symbol).wf(),
        TokenState::constructed(admin, name, symbol).allowances_positive(),
        TokenState::constructed(admin, name, symbol).decimals == 18,
        TokenState::constructed(admin, name, symbol).total_supply == 0,
        forall|id: soroban_sdk::Address|
            TokenState::constructed(admin, name, symbol).balance(id) == 0,
{
    let s = TokenState::constructed(admin, name, symbol);
    assert(s.balances.dom() =~= Set::empty());
}

/// In a sound ledger no balance is negative and none exceeds the total supply.
pub proof fn balance_within_supply(s: TokenState, id: soroban_sdk::Address)
    requires
        s.wf(),
    ensures
        0 <= s.balance(id) <= s.total_supply,
{
    lemma_sum_bounds(s.balances, id);
}

/// In a sound ledger the balances of two different addresses together do not exceed
/// the total supply.
pub proof fn two_balances_within_supply(
    s: TokenState,
    first: soroban_sdk::Address,
    second: soroban_sdk::Address,
)
    requires
        s.wf(),
        first != second,
    ensures
        s.balance(first) + s.balance(second) <= s.total_supply,
{
    if s.balances.contains_key(first) {
        let rest = s.balances.remove(first);
        lemma_sum_without(s.balances, first);
        assert forall|k: soroban_sdk::Address| rest.contains_key(k) implies rest[k] >= 0 by {
            assert(s.balances.contains_key(k));
        }
        lemma_sum_bounds(rest, second);
    } else {
        lemma_sum_bounds(s.balances, second);
    }
}

/// A mint that succeeds leaves a sound ledger, with the amount added to the balance of
/// `to` and to the total supply, and every other balance and all allowances as they
/// were.
pub proof fn mint_keeps_ledger_sound(
    s: TokenState,
    authorized: Set<soroban_sdk::Address>,
    to: soroban_sdk::Address,
    amount: i128,
)
    requires
        s.wf(),
    ensures
        s.mint(authorized, to, amount) matches Ok(Ok(next)) ==> {
            &&& next.wf()
            &&& next.balance(to) == s.balance(to) + amount
            &&& next.total_supply == s.total_supply + amount
            &&& next.allowances == s.allowances
            &&& forall|id: soroban_sdk::Address| id != to ==> next.balance(id) == s.balance(id)
        },
{
    if let Ok(Ok(next)) = s.mint(authorized, to, amount) {
        lemma_sum_after_write(s.balances, to, (s.balance(to) + amount) as i128);
        lemma_sum_bounds(s.balances, to);
    }
}

/// An approval that succeeds leaves a sound ledger in which every balance is as it
/// was, and stores an allowance of exactly the approved, positive amount.
pub proof fn approve_keeps_ledger_sound(
    s: TokenState,
    authorized: Set<soroban_sdk::Address>,
    now: u64,
    from: soroban_sdk::Address,
    spender: soroban_sdk::Address,
    amount: i128,
    live_until_ledger: u32,
)
    requires
        s.wf(),
    ensures
        s.approve(authorized, now, from, spender, amount, live_until_ledger) matches Ok(next) ==> {
            &&& next.wf()
            &&& next.balances == s.balances
            &&& next.total_supply == s.total_supply
            &&& next.allowance(from, spender) == Some(
                AllowanaceDetails {
                    amount,
                    deadline: (now + live_until_ledger * 60) as u64,
                },
            )
            &&& amount > 0
            &&& now + live_until_ledger * 60 <= u64::MAX
            &&& s.allowances_positive() ==> next.allowances_positive()
        },
{
}

/// A transfer that succeeds leaves a sound ledger with the same total supply and the
/// same allowances.
pub proof fn transfer_keeps_ledger_sound(
    s: TokenState,
    authorized: Set<soroban_sdk::Address>,
    from: soroban_sdk::Address,
    to: soroban_sdk::Address,
    amount: i128,
)
    requires
        s.wf(),
    ensures
        s.transfer(authorized, from, to, amount) matches Ok(next) ==> {
            &&& next.wf()
            &&& next.total_supply == s.total_supply
            &&& next.allowances == s.allowances
            &&& from != to ==> next.balance(from) == s.balance(from) - amount && next.balance(to)
                == s.balance(to) + amount
            &&& from == to ==> next.balance(from) == s.balance(from)
            &&& forall|id: soroban_sdk::Address|
                id != from && id != to ==> next.balance(id) == s.balance(id)
        },
{
    if let Ok(next) = s.transfer(authorized, from, to, amount) {
        lemma_moved_balances_sum(s, from, to, amount as int);
    }
}

/// The sum of the balances after `amount` has moved from `from` to `to`.
proof fn lemma_moved_balances_sum(
    s: TokenState,
    from: soroban_sdk::Address,
    to: soroban_sdk::Address,
    amount: int,
)
    requires
        s.wf(),
        0 < amount <= s.balance(from),
        from != to ==> s.balance(to) + amount <= i128::MAX,
    ensures
        ({
            let debited = if from == to {
                s.balance(from)
            } else {
                s.balance(from) - amount
            };
            let credited = if from == to {
                s.balance(from)
            } else {
                s.balance(to) + amount
            };
            let next = s.written_amount((DataKey::Balance(from), debited as i128)).written_amount(
                (DataKey::Balance(to), credited as i128),
            );
            &&& sum_of(next.balances) == s.total_supply
            &&& next.balances.dom().finite()
            &&& forall|id: soroban_sdk::Address|
                next.balances.contains_key(id) ==> #[trigger] next.balances[id] >= 0
        }),
{
    let debited = if from == to {
        s.balance(from)
    } else {
        s.balance(from) - amount
    };
    let credited = if from == to {
        s.balance(from)
    } else {
        s.balance(to) + amount
    };
    lemma_sum_bounds(s.balances, to);
    lemma_sum_bounds(s.balances, from);
    let first = s.balances.insert(from, debited as i128);
    lemma_sum_after_write(s.balances, from, debited as i128);
    lemma_sum_after_write(first, to, credited as i128);
}

/// In a sound ledger a transfer never fails for want of room in the credited balance.
pub proof fn transfer_never_overflows(
    s: TokenState,
    authorized: Set<soroban_sdk::Address>,
    from: soroban_sdk::Address,
    to: soroban_sdk::Address,
    amount: i128,
)
    requires
        s.wf(),
    ensures
        s.transfer(authorized, from, to, amount) != Err::<TokenState, Trap>(Trap::Overflow),
{
    if from != to {
        two_balances_within_supply(s, from, to);
    }
}

/// A burn that succeeds leaves a sound ledger, with the amount taken from the balance
/// of `from` and from the total supply.
pub proof fn burn_keeps_ledger_sound(
    s: TokenState,
    authorized: Set<soroban_sdk::Address>,
    from: soroban_sdk::Address,
    amount: i128,
)
    requires
        s.wf(),
    ensures
        s.burn(authorized, from, amount) matches Ok(next) ==> {
            &&& next.wf()
            &&& next.balance(from) == s.balance(from) - amount
            &&& next.total_supply == s.total_supply - amount
            &&& next.allowances == s.allowances
            &&& forall|id: soroban_sdk::Address| id != from ==> next.balance(id) == s.balance(id)
        },
{
    if let Ok(next) = s.burn(authorized, from, amount) {
        lemma_sum_after_write(s.balances, from, (s.balance(from) - amount) as i128);
    }
}

/// In a sound ledger a burn never fails for want of supply: who holds the amount can
/// burn it.
pub proof fn burn_never_lacks_supply(
    s: TokenState,
    authorized: Set<soroban_sdk::Address>,
    from: soroban_sdk::Address,
    amount: i128,
)
    requires
        s.wf(),
    ensures
        s.burn(authorized, from, amount) != Err::<TokenState, Trap>(Trap::InsufficientSupply),
{
    balance_within_supply(s, from);
}

/// A `transfer_from` that succeeds leaves a sound ledger with the same total supply,
/// and of the allowance exactly what was not spent, with its deadline. Where less than
/// the whole allowance was spent, every stored allowance stays positive.
pub proof fn transfer_from_keeps_ledger_sound(
    s: TokenState,
    authorized: Set<soroban_sdk::Address>,
    now: u64,
    spender: soroban_sdk::Address,
    from: soroban_sdk::Address,
    to: soroban_sdk::Address,
    amount: i128,
)
    requires
        s.wf(),
    ensures
        s.transfer_from(authorized, now, spender, from, to, amount) matches Ok(next) ==> {
            &&& next.wf()
            &&& next.total_supply == s.total_supply
            &&& s.allowance(from, spender) matches Some(before) && next.allowance(from, spender)
                == Some(
                AllowanaceDetails {
                    amount: (before.amount - amount) as i128,
                    deadline: before.deadline,
                },
            ) && amount <= before.amount && now <= before.deadline && (s.allowances_positive()
                && amount < before.amount ==> next.allowances_positive())
            &&& from != to ==> next.balance(from) == s.balance(from) - amount && next.balance(to)
                == s.balance(to) + amount
            &&& from == to ==> next.balance(from) == s.balance(from)
            &&& forall|id: soroban_sdk::Address|
                id != from && id != to ==> next.balance(id) == s.balance(id)
        },
{
    if let Ok(next) = s.transfer_from(authorized, now, spender, from, to, amount) {
        lemma_moved_balances_sum(s, from, to, amount as int);
    }
}

/// A `burn_from` that succeeds leaves a sound ledger, with the amount taken from the
/// balance of `from`, from the total supply and from the allowance. Where less than
/// the whole allowance was spent, every stored allowance stays positive.
pub proof fn burn_from_keeps_ledger_sound(
    s: TokenState,
    authorized: Set<soroban_sdk::Address>,
    now: u64,
    spender: soroban_sdk::Address,
    from: soroban_sdk::Address,
    amount: i128,
)
    requires
        s.wf(),
    ensures
        s.burn_from(authorized, now, spender, from, amount) matches Ok(next) ==> {
            &&& next.wf()
            &&& next.balance(from) == s.balance(from) - amount
            &&& next.total_supply == s.total_supply - amount
            &&& s.allowance(from, spender) matches Some(before) && next.allowance(from, spender)
                == Some(
                AllowanaceDetails {
                    amount: (before.amount - amount) as i128,
                    deadline: before.deadline,
                },
            ) && amount <= before.amount && now <= before.deadline && (s.allowances_positive()
                && amount < before.amount ==> next.allowances_positive())
            &&& forall|id: soroban_sdk::Address| id != from ==> next.balance(id) == s.balance(id)
        },
{
    if let Ok(next) = s.burn_from(authorized, now, spender, from, amount) {
        lemma_sum_after_write(s.balances, from, (s.balance(from) - amount) as i128);
    }
}

/// The administrator, the name, the symbol and the decimals are written by the
/// constructor and by nothing else: every operation leaves them as they were.
pub proof fn metadata_never_changes(
    s: TokenState,
    authorized: Set<soroban_sdk::Address>,
    now: u64,
    spender: soroban_sdk::Address,
    from: soroban_sdk::Address,
    to: soroban_sdk::Address,
    amount: i128,
    live_until_ledger: u32,
)
    ensures
        s.mint(authorized, to, amount) matches Ok(Ok(next)) ==> same_metadata(s, next),
        s.approve(authorized, now, from, spender, amount, live_until_ledger) matches Ok(next)
            ==> same_metadata(s, next),
        s.transfer(authorized, from, to, amount) matches Ok(next) ==> same_metadata(s, next),
        s.burn(authorized, from, amount) matches Ok(next) ==> same_metadata(s, next),
        s.transfer_from(authorized, now, spender, from, to, amount) matches Ok(next)
            ==> same_metadata(s, next),
        s.burn_from(authorized, now, spender, from, amount) matches Ok(next) ==> same_metadata(
            s,
            next,
        ),
{
}

/// Whether two ledgers have the same administrator, name, symbol and decimals.
pub open spec fn same_metadata(first: TokenState, second: TokenState) -> bool {
    &&& first.admin == second.admin
    &&& first.name == second.name
    &&& first.symbol == second.symbol
    &&& first.decimals == second.decimals
}

/// No operation that moves, creates or destroys tokens, or approves a spender,
/// succeeds unless the address that it is done for has authorized it: the
/// administrator for a mint, `from` for an approval, a transfer and a burn, and the
/// spender for a `transfer_from` and a `burn_from`.
pub proof fn success_needs_authorization(
    s: TokenState,
    authorized: Set<soroban_sdk::Address>,
    now: u64,
    spender: soroban_sdk::Address,
    from: soroban_sdk::Address,
    to: soroban_sdk::Address,
    amount: i128,
    live_until_ledger: u32,
)
    ensures
        s.mint(authorized, to, amount) is Ok ==> authorized.contains(s.admin),
        s.approve(authorized, now, from, spender, amount, live_until_ledger) is Ok
            ==> authorized.contains(from),
        s.transfer(authorized, from, to, amount) is Ok ==> authorized.contains(from),
        s.burn(authorized, from, amount) is Ok ==> authorized.contains(from),
        s.transfer_from(authorized, now, spender, from, to, amount) is Ok ==> authorized.contains(
            spender,
        ),
        s.burn_from(authorized, now, spender, from, amount) is Ok ==> authorized.contains(spender),
{
}

/// An amount that is zero or negative is rejected by every operation that takes one,
/// whoever authorized it and whatever the ledger holds: a mint refuses it with the
/// token's error, the others abort.
pub proof fn amount_must_be_positive(
    s: TokenState,
    authorized: Set<soroban_sdk::Address>,
    now: u64,
    spender: soroban_sdk::Address,
    from: soroban_sdk::Address,
    to: soroban_sdk::Address,
    amount: i128,
    live_until_ledger: u32,
)
    requires
        amount <= 0,
    ensures
        !(s.mint(authorized, to, amount) matches Ok(Ok(_))),
        authorized.contains(s.admin) ==> s.mint(authorized, to, amount) == Ok::<
            Result<TokenState, Sep0041Error>,
            Trap,
        >(Err(Sep0041Error::InsufficientBalance)),
        s.approve(authorized, now, from, spender, amount, live_until_ledger) is Err,
        s.transfer(authorized, from, to, amount) is Err,
        s.burn(authorized, from, amount) is Err,
        s.transfer_from(authorized, now, spender, from, to, amount) is Err,
        s.burn_from(authorized, now, spender, from, amount) is Err,
        authorized.contains(from) ==> {
            &&& s.approve(authorized, now, from, spender, amount, live_until_ledger) == Err::<
                TokenState,
                Trap,
            >(Trap::InvalidAmount)
            &&& s.transfer(authorized, from, to, amount) == Err::<TokenState, Trap>(
                Trap::InvalidAmount,
            )
            &&& s.burn(authorized, from, amount) == Err::<TokenState, Trap>(Trap::InvalidAmount)
        },
        authorized.contains(spender) ==> {
            &&& s.transfer_from(authorized, now, spender, from, to, amount) == Err::<
                TokenState,
                Trap,
            >(Trap::InvalidAmount)
            &&& s.burn_from(authorized, now, spender, from, amount) == Err::<TokenState, Trap>(
                Trap::InvalidAmount,
            )
        },
{
}

/// Minting an amount to an address and then burning the same amount from it restores
/// every balance and the total supply: in a sound ledger the burn succeeds whenever
/// the address authorizes it.
pub proof fn mint_then_burn_restores(
    s: TokenState,
    minting: Set<soroban_sdk::Address>,
    burning: Set<soroban_sdk::Address>,
    holder: soroban_sdk::Address,
    amount: i128,
)
    requires
        s.wf(),
        burning.contains(holder),
    ensures
        s.mint(minting, holder, amount) matches Ok(Ok(minted)) ==> {
            &&& minted.burn(burning, holder, amount) matches Ok(burned) && {
                &&& burned.total_supply == s.total_supply
                &&& burned.allowances == s.allowances
                &&& forall|id: soroban_sdk::Address| burned.balance(id) == s.balance(id)
            }
        },
{
    if let Ok(Ok(minted)) = s.mint(minting, holder, amount) {
        mint_keeps_ledger_sound(s, minting, holder, amount);
        balance_within_supply(s, holder);
        burn_keeps_ledger_sound(minted, burning, holder, amount);
        balance_within_supply(minted, holder);
    }
}

/// After an approval of `approved` and a `transfer_from` of `spent` on it, the
/// allowance is exactly `approved - spent`.
pub proof fn approve_then_transfer_from_leaves_difference(
    s: TokenState,
    approving: Set<soroban_sdk::Address>,
    spending: Set<soroban_sdk::Address>,
    approved_at: u64,
    spent_at: u64,
    spender: soroban_sdk::Address,
    from: soroban_sdk::Address,
    to: soroban_sdk::Address,
    approved: i128,
    live_until_ledger: u32,
    spent: i128,
)
    ensures
        s.approve(approving, approved_at, from, spender, approved, live_until_ledger) matches Ok(
            granted,
        ) ==> (granted.transfer_from(spending, spent_at, spender, from, to, spent) matches Ok(
            drawn,
        ) ==> {
            &&& spent <= approved
            &&& drawn.allowance(from, spender) matches Some(left) && left.amount == approved
                - spent
        }),
{
}

/// Two draws on one approval cannot take more than was approved: after an approval of
/// `approved`, a `transfer_from` of `first` and one of `second` on it succeed only if
/// `first + second` is at most `approved`, and the allowance is then what is left.
pub proof fn draws_stay_within_the_approval(
    s: TokenState,
    approving: Set<soroban_sdk::Address>,
    spending: Set<soroban_sdk::Address>,
    approved_at: u64,
    first_at: u64,
    second_at: u64,
    spender: soroban_sdk::Address,
    from: soroban_sdk::Address,
    first_to: soroban_sdk::Address,
    second_to: soroban_sdk::Address,
    approved: i128,
    live_until_ledger: u32,
    first: i128,
    second: i128,
)
    ensures
        s.approve(approving, approved_at, from, spender, approved, live_until_ledger) matches Ok(
            granted,
        ) ==> (granted.transfer_from(spending, first_at, spender, from, first_to, first) matches Ok(
            once,
        ) ==> (once.transfer_from(spending, second_at, spender, from, second_to, second) matches Ok(
            twice,
        ) ==> {
            &&& first + second <= approved
            &&& twice.allowance(from, spender) matches Some(left) && left.amount == approved - first
                - second
        })),
{
}

/// A transfer from one address to another and a transfer of the same amount back
/// restore both balances, and every other: in a sound ledger the way back succeeds
/// whenever the receiver authorizes it.
pub proof fn transfer_there_and_back_restores(
    s: TokenState,
    there: Set<soroban_sdk::Address>,
    back: Set<soroban_sdk::Address>,
    first: soroban_sdk::Address,
    second: soroban_sdk::Address,
    amount: i128,
)
    requires
        s.wf(),
        back.contains(second),
    ensures
        s.transfer(there, first, second, amount) matches Ok(moved) ==> {
            &&& moved.transfer(back, second, first, amount) matches Ok(restored) && {
                &&& restored.total_supply == s.total_supply
                &&& restored.allowances == s.allowances
                &&& forall|id: soroban_sdk::Address| restored.balance(id) == s.balance(id)
            }
        },
{
    if let Ok(moved) = s.transfer(there, first, second, amount) {
        transfer_keeps_ledger_sound(s, there, first, second, amount);
        transfer_never_overflows(moved, back, second, first, amount);
        balance_within_supply(s, second);
        transfer_keeps_ledger_sound(moved, back, second, first, amount);
    }
}

/// A `transfer_from` exactly at the allowance's deadline is permitted: with the
/// spender's authorization, an allowance and a balance that cover the amount, it
/// succeeds in a sound ledger.
pub proof fn transfer_from_at_deadline_is_permitted(
    s: TokenState,
    authorized: Set<soroban_sdk::Address>,
    spender: soroban_sdk::Address,
    from: soroban_sdk::Address,
    to: soroban_sdk::Address,
    amount: i128,
)
    requires
        s.wf(),
        authorized.contains(spender),
        s.allowances.contains_key((from, spender)),
        0 < amount <= s.allowances[(from, spender)].amount,
        amount <= s.balance(from),
    ensures
        s.transfer_from(authorized, s.allowances[(from, spender)].deadline, spender, from, to, amount)
            is Ok,
{
    if from != to {
        two_balances_within_supply(s, from, to);
    }
}

/// A `transfer_from` one second past the allowance's deadline, or later, is rejected.
pub proof fn transfer_from_past_deadline_is_rejected(
    s: TokenState,
    authorized: Set<soroban_sdk::Address>,
    now: u64,
    spender: soroban_sdk::Address,
    from: soroban_sdk::Address,
    to: soroban_sdk::Address,
    amount: i128,
)
    requires
        s.allowances.contains_key((from, spender)),
        now > s.allowances[(from, spender)].deadline,
    ensures
        s.transfer_from(authorized, now, spender, from, to, amount) is Err,
        authorized.contains(spender) && 0 < amount <= s.allowances[(from, spender)].amount
            ==> s.transfer_from(authorized, now, spender, from, to, amount) == Err::<
            TokenState,
            Trap,
        >(Trap::AllowanceExpired),
{
}

/// A transfer of the whole balance is permitted and leaves zero.
pub proof fn transfer_of_whole_balance_leaves_zero(
    s: TokenState,
    authorized: Set<soroban_sdk::Address>,
    from: soroban_sdk::Address,
    to: soroban_sdk::Address,
    amount: i128,
)
    requires
        s.wf(),
        authorized.contains(from),
        amount > 0,
        s.balance(from) == amount,
        from != to,
    ensures
        s.transfer(authorized, from, to, amount) matches Ok(next) && next.balance(from) == 0
            && next.balance(to) == s.balance(to) + amount,
{
    two_balances_within_supply(s, from, to);
    transfer_keeps_ledger_sound(s, authorized, from, to, amount);
}

/// A transfer of more than the balance is rejected, be it by one token.
pub proof fn transfer_beyond_balance_is_rejected(
    s: TokenState,
    authorized: Set<soroban_sdk::Address>,
    from: soroban_sdk::Address,
    to: soroban_sdk::Address,
    amount: i128,
)
    requires
        s.wf(),
        s.balance(from) < amount,
    ensures
        s.transfer(authorized, from, to, amount) is Err,
        authorized.contains(from) && amount > 0 ==> s.transfer(authorized, from, to, amount)
            == Err::<TokenState, Trap>(Trap::InsufficientBalance),
{
}

} // verus!
