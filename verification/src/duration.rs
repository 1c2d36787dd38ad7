//! The duration adapter and its range rule.
//!
//! A Python duration is days, seconds and microseconds, up to a billion days
//! either way. Here a duration is one signed 64-bit count of microseconds,
//! some 292,000 years either way. What lies beyond becomes the nearest end
//! of that range.

use vstd::prelude::*;
use crate::native::{ConversionError, PyDelta, PyValue};

verus! {

pub const SECONDS_PER_DAY: i64 = 86_400;

pub const MICROSECONDS_PER_SECOND: i64 = 1_000_000;

pub const MICROSECONDS_PER_DAY: i64 = 86_400_000_000;

/// The nearest value to `v` that a signed 64-bit integer holds.
pub open spec fn clamp_i64(v: int) -> int {
    if v > i64::MAX {
        i64::MAX as int
    } else if v < i64::MIN {
        i64::MIN as int
    } else {
        v
    }
}

/// The microseconds of a Python duration, without a bound.
pub open spec fn exact_micros(days: int, seconds: int, microseconds: int) -> int {
    (days * 86_400 + seconds) * 1_000_000 + microseconds
}

/// The microseconds of a Python duration as the adapter counts them: the
/// whole seconds are brought to microseconds and held to the 64-bit range,
/// then the microseconds are added and the sum is held to it again.
pub open spec fn clamped_micros(days: int, seconds: int, microseconds: int) -> int {
    clamp_i64(clamp_i64((days * 86_400 + seconds) * 1_000_000) + microseconds)
}

/// `a / b` rounded towards zero, for a positive `b`.
pub open spec fn div_towards_zero(a: int, b: int) -> int {
    if a >= 0 {
        a / b
    } else {
        -((-a) / b)
    }
}

/// What `a / b` rounded towards zero leaves over: it has the sign of `a`.
pub open spec fn rem_towards_zero(a: int, b: int) -> int {
    a - b * div_towards_zero(a, b)
}

/// The product, held to the 64-bit range.
pub fn saturating_mul(a: i64, b: i64) -> (r: i64)
    ensures
        r as int == clamp_i64(a * b),
{
    match a.checked_mul(b) {
        Some(v) => v,
        None => {
            if (a < 0) == (b < 0) {
                proof {
                    assert(a * b >= 0) by (nonlinear_arith)
                        requires
                            (a < 0) == (b < 0),
                    ;
                }
                i64::MAX
            } else {
                proof {
                    assert(a * b <= 0) by (nonlinear_arith)
                        requires
                            (a < 0) != (b < 0),
                    ;
                }
                i64::MIN
            }
        },
    }
}

/// The sum, held to the 64-bit range.
pub fn saturating_add(a: i64, b: i64) -> (r: i64)
    ensures
        r as int == clamp_i64(a + b),
{
    match a.checked_add(b) {
        Some(v) => v,
        None => if b > 0 {
            i64::MAX
        } else {
            i64::MIN
        },
    }
}

/// Calls `chrono::Duration::microseconds` and reads the new duration back
/// with `num_microseconds`. Believed of chrono: every 64-bit count of
/// microseconds makes a duration, and that duration has this count and no
/// overflow.
#[verifier::external_body]
pub(crate) fn whole_microseconds(microseconds: i64) -> (r: Option<i64>)
    ensures
        r == Some(microseconds),
{
    chrono::Duration::microseconds(microseconds).num_microseconds()
}

/// A signed span of time, as whole microseconds.
#[derive(Debug, Clone, Copy, PartialEq, Eq, PartialOrd, Ord, Structural)]
pub struct Duration {
    pub micros: i64,
}

impl Duration {
    /// The duration that the fields of a Python duration give.
    pub open spec fn of_py(d: PyDelta) -> Duration {
        Duration {
            micros: clamped_micros(d.days as int, d.seconds as int, d.microseconds as int) as i64,
        }
    }

    /// What `extract` returns.
    pub open spec fn extracted(ob: PyValue) -> Result<Duration, ConversionError> {
        match ob.delta_part() {
            Some(d) => Ok(Self::of_py(d)),
            None => Err(ConversionError::TypeMismatch),
        }
    }

    /// The fields that Python's constructor is given: the whole days, no
    /// seconds, and in the microseconds all that is less than a day.
    pub open spec fn py_fields(self) -> PyDelta {
        PyDelta {
            days: div_towards_zero(self.micros as int, 86_400_000_000) as i32,
            seconds: 0,
            microseconds: rem_towards_zero(self.micros as int, 86_400_000_000) as i64,
        }
    }

    /// What `to_object` returns.
    pub open spec fn rendered(self) -> Result<PyValue, ConversionError> {
        Ok(PyValue::Delta(self.py_fields()))
    }

    /// The duration of a number of microseconds, as chrono makes it.
    pub fn microseconds(microseconds: i64) -> (r: Duration)
        ensures
            r.micros == microseconds,
    {
        Self::from_num_microseconds(whole_microseconds(microseconds))
    }

    /// The duration of what `chrono::Duration::num_microseconds` gave: where
    /// chrono had no 64-bit count for it, the longest duration.
    pub fn from_num_microseconds(count: Option<i64>) -> (r: Duration)
        ensures
            r.micros == match count {
                Some(v) => v,
                None => i64::MAX,
            },
    {
        match count {
            Some(v) => Duration { micros: v },
            None => Duration { micros: i64::MAX },
        }
    }

    /// The whole microseconds of the duration.
    pub fn num_microseconds(&self) -> (r: i64)
        ensures
            r == self.micros,
    {
        self.micros
    }

    /// Reads a duration from a Python object, held to the 64-bit range of
    /// microseconds. Any object but a `datetime.timedelta` is a type
    /// mismatch.
    pub fn extract(ob: &PyValue) -> (r: Result<Duration, ConversionError>)
        ensures
            r == Self::extracted(*ob),
            r is Ok <==> ob.delta_part() is Some,
    {
        match ob {
            PyValue::Delta(d) => {
                let total_days: i64 = d.days as i64;
                let total_seconds: i64 = total_days * SECONDS_PER_DAY + d.seconds as i64;
                let whole: i64 = saturating_mul(total_seconds, MICROSECONDS_PER_SECOND);
                Ok(Self::microseconds(saturating_add(whole, d.microseconds)))
            },
            _ => Err(ConversionError::TypeMismatch),
        }
    }

    /// Gives the fields from which Python builds this duration. The days
    /// always fit in 32 bits, and no duration is refused.
    pub fn to_object(&self) -> (r: Result<PyValue, ConversionError>)
        ensures
            r == self.rendered(),
            r matches Ok(v) && v matches PyValue::Delta(d) && exact_micros(
                d.days as int,
                d.seconds as int,
                d.microseconds as int,
            ) == self.micros,
    {
        let total: i64 = self.micros;
        proof {
            lemma_split_days(total as int);
        }
        let days: i64 = total / MICROSECONDS_PER_DAY;
        let rest: i64 = total % MICROSECONDS_PER_DAY;
        Ok(PyValue::Delta(PyDelta { days: days as i32, seconds: 0, microseconds: rest }))
    }

    /// As `to_object`, by value.
    pub fn into_py(self) -> (r: Result<PyValue, ConversionError>)
        ensures
            r == self.rendered(),
    {
        self.to_object()
    }

    /// Every duration is read back unchanged from the fields it was turned
    /// into.
    pub proof fn lemma_round_trip(self)
        ensures
            Self::extracted(self.rendered().unwrap()) == Ok::<Duration, ConversionError>(self),
    {
        lemma_split_days(self.micros as int);
    }
}

/// The whole days of a 64-bit count of microseconds fit in 32 bits, the rest
/// is less than a day, and the two add up to the count without reaching the
/// bounds.
pub proof fn lemma_split_days(total: int)
    requires
        i64::MIN <= total <= i64::MAX,
    ensures
        -106_751_991 <= div_towards_zero(total, 86_400_000_000) <= 106_751_991,
        -86_400_000_000 < rem_towards_zero(total, 86_400_000_000) < 86_400_000_000,
        total >= 0 ==> rem_towards_zero(total, 86_400_000_000) >= 0,
        total <= 0 ==> rem_towards_zero(total, 86_400_000_000) <= 0,
        exact_micros(
            div_towards_zero(total, 86_400_000_000),
            0,
            rem_towards_zero(total, 86_400_000_000),
        ) == total,
        clamped_micros(
            div_towards_zero(total, 86_400_000_000),
            0,
            rem_towards_zero(total, 86_400_000_000),
        ) == total,
{
}

/// Where the whole seconds, in microseconds, and the sum with the
/// microseconds both fit in 64 bits, the count is exact.
pub proof fn lemma_exact_in_range(days: int, seconds: int, microseconds: int)
    requires
        i64::MIN <= (days * 86_400 + seconds) * 1_000_000 <= i64::MAX,
        i64::MIN <= exact_micros(days, seconds, microseconds) <= i64::MAX,
    ensures
        clamped_micros(days, seconds, microseconds) == exact_micros(days, seconds, microseconds),
{
}

/// A duration in Python's canonical split that is longer than the range
/// gives the nearest end of the range.
pub proof fn lemma_saturates(days: int, seconds: int, microseconds: int)
    requires
        0 <= microseconds < 1_000_000,
    ensures
        exact_micros(days, seconds, microseconds) >= i64::MAX ==> clamped_micros(
            days,
            seconds,
            microseconds,
        ) == i64::MAX,
        (days * 86_400 + seconds) * 1_000_000 <= i64::MIN && microseconds == 0 ==> clamped_micros(
            days,
            seconds,
            microseconds,
        ) == i64::MIN,
{
}

} // verus!
