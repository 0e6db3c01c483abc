//! What becomes of an entry that was read from storage.
//!
//! The contract reads an entry and hands it over as `None` where the host has none.
use crate::errors::Trap;
use vstd::prelude::*;

verus! {

/// An entry that may be absent: `absent` stands for it where it is.
pub fn or_absent<T>(entry: Option<T>, absent: T) -> (value: T)
    ensures
        value == match entry {
            Some(stored) => stored,
            None => absent,
        },
{
    match entry {
        Some(stored) => stored,
        None => absent,
    }
}

/// An entry that must be there: `Trap::MissingEntry` where it is not.
pub open spec fn required_outcome<T>(entry: Option<T>) -> Result<T, Trap> {
    match entry {
        Some(value) => Ok(value),
        None => Err(Trap::MissingEntry),
    }
}

/// Requires an entry to be there.
pub fn required<T>(entry: Option<T>) -> (r: Result<T, Trap>)
    ensures
        r == required_outcome(entry),
{
    match entry {
        Some(value) => Ok(value),
        None => Err(Trap::MissingEntry),
    }
}

} // verus!
