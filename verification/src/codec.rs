//! The leap-second codec.
//!
//! chrono writes a leap second as second 59 with a nanosecond of one billion
//! or more. Python keeps the microsecond below one million and has a `fold`
//! flag, which stands for the leap second here.

use vstd::prelude::*;

verus! {

/// Nanoseconds in one second: the offset that marks a leap second.
pub const NANOS_PER_SECOND: u32 = 1_000_000_000;

/// Microseconds in one second: what `fold` adds to the microsecond.
pub const MICROS_PER_SECOND: u32 = 1_000_000;

/// The microsecond and fold flag that stand for a nanosecond of the second.
/// Whole microseconds only: what is below a microsecond is dropped.
pub open spec fn micros_and_fold(nanosecond: int) -> (int, bool) {
    if nanosecond >= 1_000_000_000 {
        ((nanosecond - 1_000_000_000) / 1000, true)
    } else {
        (nanosecond / 1000, false)
    }
}

/// The microsecond of the second, possibly one million or more, that a
/// microsecond and a fold flag stand for.
pub open spec fn folded_micros(microsecond: int, fold: bool) -> int {
    if fold {
        microsecond + 1_000_000
    } else {
        microsecond
    }
}

/// Splits chrono's nanosecond of the second into Python's microsecond and
/// fold flag.
pub fn chrono_to_micros_and_fold(nanosecond: u32) -> (r: (u32, bool))
    ensures
        (r.0 as int, r.1) == micros_and_fold(nanosecond as int),
        nanosecond < 2_000_000_000 ==> r.0 < 1_000_000,
{
    if nanosecond >= NANOS_PER_SECOND {
        ((nanosecond - NANOS_PER_SECOND) / 1000, true)
    } else {
        (nanosecond / 1000, false)
    }
}

/// Joins Python's microsecond and fold flag into the microsecond that chrono
/// takes, where a leap second is one million or more.
pub fn py_to_micros(microsecond: u32, fold: bool) -> (r: u32)
    requires
        fold ==> microsecond <= u32::MAX - 1_000_000,
    ensures
        r as int == folded_micros(microsecond as int, fold),
{
    if fold {
        microsecond + MICROS_PER_SECOND
    } else {
        microsecond
    }
}

/// A whole number of microseconds, in a leap second or not, is split into
/// exactly that number and the leap flag.
pub proof fn lemma_split_whole_micros(k: int, leap: bool)
    requires
        0 <= k < 1_000_000,
    ensures
        micros_and_fold(k * 1000 + if leap { 1_000_000_000int } else { 0int }) == (k, leap),
{
}

/// Joining what a split gave returns the nanosecond in whole microseconds.
pub proof fn lemma_join_after_split(nanosecond: int)
    requires
        0 <= nanosecond < 2_000_000_000,
    ensures
        folded_micros(micros_and_fold(nanosecond).0, micros_and_fold(nanosecond).1) == nanosecond
            / 1000,
        0 <= micros_and_fold(nanosecond).0 < 1_000_000,
{
}

/// Splitting what a join gave, taken as nanoseconds, returns the microsecond
/// and the flag.
pub proof fn lemma_split_after_join(microsecond: int, fold: bool)
    requires
        0 <= microsecond < 1_000_000,
    ensures
        micros_and_fold(folded_micros(microsecond, fold) * 1000) == (microsecond, fold),
{
}

} // verus!
