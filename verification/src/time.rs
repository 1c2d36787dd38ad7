//! The time-of-day adapter.

use vstd::prelude::*;
use crate::calendar::{checked_time, is_clock_time};
use crate::codec::{chrono_to_micros_and_fold, micros_and_fold, py_to_micros};
use crate::native::{ConversionError, PyTime, PyValue};

verus! {

/// A time of day, with the fields of a `chrono::NaiveTime`. A nanosecond of
/// one billion or more is a leap second.
#[derive(Debug, Clone, Copy, PartialEq, Eq, PartialOrd, Ord, Structural)]
pub struct NaiveTime {
    pub hour: u32,
    pub minute: u32,
    pub second: u32,
    pub nanosecond: u32,
}

impl NaiveTime {
    /// The fields are in range, and only second 59 has a leap second.
    pub open spec fn wf(self) -> bool {
        &&& self.hour < 24
        &&& self.minute < 60
        &&& self.second < 60
        &&& self.nanosecond < 2_000_000_000
        &&& (self.nanosecond >= 1_000_000_000 ==> self.second == 59)
    }

    /// Nothing is below a microsecond: all that a Python time can carry.
    pub open spec fn is_whole_micros(self) -> bool {
        self.nanosecond % 1000 == 0
    }

    /// The time that the fields of a Python time give.
    pub open spec fn of_py(t: PyTime) -> NaiveTime {
        NaiveTime {
            hour: t.hour as u32,
            minute: t.minute as u32,
            second: t.second as u32,
            nanosecond: (t.joined_micros() * 1000) as u32,
        }
    }

    /// What `extract` returns.
    pub open spec fn extracted(ob: PyValue) -> Result<NaiveTime, ConversionError> {
        match ob.time_part() {
            Some(t) => Ok(Self::of_py(t)),
            None => Err(ConversionError::TypeMismatch),
        }
    }

    /// The fields that Python's constructor is given.
    pub open spec fn py_fields(self) -> PyTime {
        PyTime {
            hour: self.hour as u8,
            minute: self.minute as u8,
            second: self.second as u8,
            microsecond: micros_and_fold(self.nanosecond as int).0 as u32,
            fold: micros_and_fold(self.nanosecond as int).1,
        }
    }

    /// What `to_object` returns.
    pub open spec fn rendered(self) -> Result<PyValue, ConversionError> {
        Ok(PyValue::Time(self.py_fields()))
    }

    /// The time of an hour, minute, second and microsecond, where there is
    /// such a time. A microsecond of one million or more is a leap second.
    pub fn from_hms_micro_opt(hour: u32, minute: u32, second: u32, microsecond: u32) -> (r: Option<
        NaiveTime,
    >)
        ensures
            r == if is_clock_time(hour as int, minute as int, second as int, microsecond as int) {
                Some(NaiveTime { hour, minute, second, nanosecond: (microsecond * 1000) as u32 })
            } else {
                None
            },
            r matches Some(t) ==> t.wf() && t.is_whole_micros(),
    {
        match checked_time(hour, minute, second, microsecond) {
            Some((h, m, s, n)) => Some(NaiveTime { hour: h, minute: m, second: s, nanosecond: n }),
            None => None,
        }
    }

    /// Whether there is such a time of day: chrono is asked for the time in
    /// whole microseconds, and what is below a microsecond changes nothing.
    pub fn is_valid(&self) -> (b: bool)
        ensures
            b == self.wf(),
    {
        checked_time(self.hour, self.minute, self.second, self.nanosecond / 1000).is_some()
    }

    /// As `from_hms_micro_opt`, for a time that is known to exist.
    pub fn from_hms_micro(hour: u32, minute: u32, second: u32, microsecond: u32) -> (r: NaiveTime)
        requires
            is_clock_time(hour as int, minute as int, second as int, microsecond as int),
        ensures
            r == (NaiveTime { hour, minute, second, nanosecond: (microsecond * 1000) as u32 }),
            r.wf(),
            r.is_whole_micros(),
    {
        Self::from_hms_micro_opt(hour, minute, second, microsecond).unwrap()
    }

    /// The fields of a Python time, read into a time.
    pub(crate) fn from_py(t: &PyTime) -> (r: NaiveTime)
        requires
            t.is_convertible(),
        ensures
            r == Self::of_py(*t),
            r.wf(),
            r.is_whole_micros(),
    {
        Self::from_hms_micro(
            t.hour as u32,
            t.minute as u32,
            t.second as u32,
            py_to_micros(t.microsecond, t.fold),
        )
    }

    /// Reads a time from a Python object: `fold` becomes a leap second. Any
    /// object but a `datetime.time` is a type mismatch.
    pub fn extract(ob: &PyValue) -> (r: Result<NaiveTime, ConversionError>)
        requires
            ob.time_part() matches Some(t) ==> t.is_convertible(),
        ensures
            r == Self::extracted(*ob),
            r matches Ok(t) ==> t.wf() && t.is_whole_micros(),
            r is Ok <==> ob.time_part() is Some,
    {
        match ob {
            PyValue::Time(t) => Ok(Self::from_py(t)),
            _ => Err(ConversionError::TypeMismatch),
        }
    }

    /// The fields for Python's constructor: a leap second becomes `fold`,
    /// and what is below a microsecond is dropped.
    pub(crate) fn to_py(&self) -> (r: PyTime)
        requires
            self.wf(),
        ensures
            r == self.py_fields(),
            r.is_canonical(),
            self.is_whole_micros() ==> Self::of_py(r) == *self,
    {
        let (microsecond, fold) = chrono_to_micros_and_fold(self.nanosecond);
        PyTime {
            hour: self.hour as u8,
            minute: self.minute as u8,
            second: self.second as u8,
            microsecond,
            fold,
        }
    }

    /// Gives the Python time of this time of day.
    pub fn to_object(&self) -> (r: Result<PyValue, ConversionError>)
        requires
            self.wf(),
        ensures
            r == self.rendered(),
    {
        Ok(PyValue::Time(self.to_py()))
    }

    /// As `to_object`, by value.
    pub fn into_py(self) -> (r: Result<PyValue, ConversionError>)
        requires
            self.wf(),
        ensures
            r == self.rendered(),
    {
        self.to_object()
    }

    /// A time in whole microseconds, leap second or not, is read back
    /// unchanged from the object it was turned into.
    pub proof fn lemma_round_trip(self)
        requires
            self.wf(),
            self.is_whole_micros(),
        ensures
            self.py_fields().is_canonical(),
            Self::extracted(self.rendered().unwrap()) == Ok::<NaiveTime, ConversionError>(self),
    {
    }

    /// A Python time is built again unchanged from the time it was read
    /// into.
    pub proof fn lemma_round_trip_py(t: PyTime)
        requires
            t.is_canonical(),
        ensures
            Self::of_py(t).wf(),
            Self::of_py(t).is_whole_micros(),
            Self::of_py(t).py_fields() == t,
            Self::extracted(PyValue::Time(t)).unwrap().rendered() == Ok::<
                PyValue,
                ConversionError,
            >(PyValue::Time(t)),
    {
    }
}

} // verus!
