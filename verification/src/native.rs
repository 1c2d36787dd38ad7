//! Python's date/time objects as plain values: what their accessors return
//! and what their constructors take.

use vstd::prelude::*;
use crate::calendar::{checked_date, checked_time, is_calendar_date, is_clock_time};
use crate::codec::{folded_micros, py_to_micros, MICROS_PER_SECOND};

verus! {

/// Why a conversion did not give a value.
#[derive(Debug, Clone, Copy, PartialEq, Eq, Structural)]
pub enum ConversionError {
    /// The object is not of the Python type that the adapter reads.
    TypeMismatch,
    /// Python cannot build an object from the fields.
    NativeConstructionFailure,
}

/// The first year of a Python date.
pub const PY_MIN_YEAR: i32 = 1;

/// The last year of a Python date.
pub const PY_MAX_YEAR: i32 = 9999;

/// The fields of a `datetime.date`.
#[derive(Debug, Clone, Copy, PartialEq, Eq, Structural)]
pub struct PyDate {
    pub year: i32,
    pub month: u8,
    pub day: u8,
}

/// The fields of a `datetime.time`, without its time zone.
#[derive(Debug, Clone, Copy, PartialEq, Eq, Structural)]
pub struct PyTime {
    pub hour: u8,
    pub minute: u8,
    pub second: u8,
    pub microsecond: u32,
    pub fold: bool,
}

/// The fields of a `datetime.datetime`, without its time zone.
#[derive(Debug, Clone, Copy, PartialEq, Eq, Structural)]
pub struct PyDateTime {
    pub date: PyDate,
    pub time: PyTime,
}

/// The fields of a `datetime.timedelta`. What the adapter reads is in
/// Python's canonical split. What it builds is handed to Python's
/// constructor, which normalises: there the seconds are 0 and the
/// microseconds hold all that is less than a day, which needs more than 32
/// bits.
#[derive(Debug, Clone, Copy, PartialEq, Eq, Structural)]
pub struct PyDelta {
    pub days: i32,
    pub seconds: i32,
    pub microseconds: i64,
}

/// A Python object, as far as the adapters tell objects apart.
#[derive(Debug, Clone, Copy, PartialEq, Eq, Structural)]
pub enum PyValue {
    Date(PyDate),
    DateTime(PyDateTime),
    Time(PyTime),
    Delta(PyDelta),
    /// An object of any other type.
    Other,
}

impl PyDate {
    /// The date exists in the calendar.
    pub open spec fn is_convertible(self) -> bool {
        is_calendar_date(self.year as int, self.month as int, self.day as int)
    }

    /// The date is one that Python itself can hold.
    pub open spec fn is_canonical(self) -> bool {
        self.is_convertible() && PY_MIN_YEAR <= self.year <= PY_MAX_YEAR
    }

    /// Asks chrono whether it has this date.
    pub fn check_convertible(&self) -> (b: bool)
        ensures
            b == self.is_convertible(),
    {
        checked_date(self.year, self.month as u32, self.day as u32).is_some()
    }
}

impl PyTime {
    /// The microsecond that chrono is given: one million more with `fold`.
    pub open spec fn joined_micros(self) -> int {
        folded_micros(self.microsecond as int, self.fold)
    }

    /// chrono has this time of day: the fields are in range, and `fold` is
    /// set only in second 59, where chrono has its leap second.
    pub open spec fn is_convertible(self) -> bool {
        is_clock_time(
            self.hour as int,
            self.minute as int,
            self.second as int,
            self.joined_micros(),
        )
    }

    /// As `is_convertible`, with the microsecond below one million, as Python
    /// keeps it.
    pub open spec fn is_canonical(self) -> bool {
        self.is_convertible() && self.microsecond < 1_000_000
    }

    /// Asks chrono whether it has this time of day.
    pub fn check_convertible(&self) -> (b: bool)
        ensures
            b == self.is_convertible(),
    {
        if self.fold && self.microsecond > u32::MAX - MICROS_PER_SECOND {
            false
        } else {
            checked_time(
                self.hour as u32,
                self.minute as u32,
                self.second as u32,
                py_to_micros(self.microsecond, self.fold),
            ).is_some()
        }
    }
}

impl PyDateTime {
    pub open spec fn is_convertible(self) -> bool {
        self.date.is_convertible() && self.time.is_convertible()
    }

    pub open spec fn is_canonical(self) -> bool {
        self.date.is_canonical() && self.time.is_canonical()
    }

    /// Asks chrono whether it has this date and this time of day.
    pub fn check_convertible(&self) -> (b: bool)
        ensures
            b == self.is_convertible(),
    {
        self.date.check_convertible() && self.time.check_convertible()
    }
}

impl PyValue {
    /// The date of a date-like object. A `datetime.datetime` is a
    /// `datetime.date` too.
    pub open spec fn date_part(self) -> Option<PyDate> {
        match self {
            PyValue::Date(d) => Some(d),
            PyValue::DateTime(dt) => Some(dt.date),
            _ => None,
        }
    }

    pub open spec fn time_part(self) -> Option<PyTime> {
        match self {
            PyValue::Time(t) => Some(t),
            _ => None,
        }
    }

    pub open spec fn datetime_part(self) -> Option<PyDateTime> {
        match self {
            PyValue::DateTime(dt) => Some(dt),
            _ => None,
        }
    }

    pub open spec fn delta_part(self) -> Option<PyDelta> {
        match self {
            PyValue::Delta(d) => Some(d),
            _ => None,
        }
    }
}

} // verus!
