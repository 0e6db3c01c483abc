//! The sum of the balances of a ledger, and how it changes with one entry.
use vstd::prelude::*;

verus! {

/// The sum of all values of `balances`, for a ledger with finitely many entries.
pub open spec fn sum_of<K>(balances: Map<K, i128>) -> int
    decreases balances.dom().len(),
    when balances.dom().finite()
    via sum_of_decreases::<K>
{
    if balances.dom().len() == 0 {
        0
    } else {
        let key = balances.dom().choose();
        balances[key] + sum_of(balances.remove(key))
    }
}

#[via_fn]
proof fn sum_of_decreases<K>(balances: Map<K, i128>) {
    if balances.dom().len() != 0 {
        let key = balances.dom().choose();
        assert(balances.dom().contains(key));
        assert(balances.remove(key).dom() == balances.dom().remove(key));
    }
}

/// The value of an entry, zero where there is none.
pub open spec fn value_at<K>(balances: Map<K, i128>, key: K) -> int {
    if balances.contains_key(key) {
        balances[key] as int
    } else {
        0
    }
}

/// The sum is the value of any one entry plus the sum of the others.
pub proof fn lemma_sum_without<K>(balances: Map<K, i128>, key: K)
    requires
        balances.dom().finite(),
        balances.contains_key(key),
    ensures
        sum_of(balances) == balances[key] + sum_of(balances.remove(key)),
    decreases balances.dom().len(),
{
    let chosen = balances.dom().choose();
    assert(balances.dom().len() != 0) by {
        if balances.dom().len() == 0 {
            assert(balances.dom() =~= Set::empty());
        }
    }
    if chosen != key {
        let rest = balances.remove(chosen);
        assert(rest.dom() == balances.dom().remove(chosen));
        lemma_sum_without(rest, key);
        let other = balances.remove(key);
        assert(other.dom() == balances.dom().remove(key));
        lemma_sum_without(other, chosen);
        assert(rest.remove(key) == other.remove(chosen));
    }
}

/// Writing one entry changes the sum by the difference between the new value and what
/// the entry held, zero where there was none.
pub proof fn lemma_sum_after_write<K>(balances: Map<K, i128>, key: K, value: i128)
    requires
        balances.dom().finite(),
    ensures
        sum_of(balances.insert(key, value)) == sum_of(balances) - value_at(balances, key) + value,
{
    let written = balances.insert(key, value);
    lemma_sum_without(written, key);
    assert(written.remove(key) == balances.remove(key));
    if balances.contains_key(key) {
        lemma_sum_without(balances, key);
    } else {
        assert(balances.remove(key) == balances);
    }
}

/// Where no entry is negative, no entry exceeds the sum, and the sum is not negative.
pub proof fn lemma_sum_bounds<K>(balances: Map<K, i128>, key: K)
    requires
        balances.dom().finite(),
        forall|k: K| balances.contains_key(k) ==> balances[k] >= 0,
    ensures
        0 <= value_at(balances, key) <= sum_of(balances),
    decreases balances.dom().len(),
{
    if balances.dom().len() != 0 {
        let chosen = balances.dom().choose();
        let rest = balances.remove(chosen);
        assert(balances.contains_key(chosen));
        assert(rest.dom() == balances.dom().remove(chosen));
        assert forall|k: K| rest.contains_key(k) implies rest[k] >= 0 by {
            assert(balances.contains_key(k));
        }
        lemma_sum_bounds(rest, key);
        lemma_sum_bounds(rest, chosen);
    } else {
        assert(!balances.contains_key(key)) by {
            assert(balances.dom() =~= Set::empty());
        }
    }
}

} // verus!
