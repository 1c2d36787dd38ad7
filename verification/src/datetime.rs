//! The date-and-time adapter.

use vstd::prelude::*;
use crate::date::NaiveDate;
use crate::native::{ConversionError, PyDateTime, PyValue};
use crate::time::NaiveTime;

verus! {

/// A date and a time of day, as a `chrono::NaiveDateTime` holds them.
#[derive(Debug, Clone, Copy, PartialEq, Eq, PartialOrd, Ord, Structural)]
pub struct NaiveDateTime {
    pub date: NaiveDate,
    pub time: NaiveTime,
}

impl NaiveDateTime {
    pub open spec fn wf(self) -> bool {
        self.date.wf() && self.time.wf()
    }

    /// The date and time that the fields of a Python datetime give.
    pub open spec fn of_py(dt: PyDateTime) -> NaiveDateTime {
        NaiveDateTime { date: NaiveDate::of_py(dt.date), time: NaiveTime::of_py(dt.time) }
    }

    /// What `extract` returns.
    pub open spec fn extracted(ob: PyValue) -> Result<NaiveDateTime, ConversionError> {
        match ob.datetime_part() {
            Some(dt) => Ok(Self::of_py(dt)),
            None => Err(ConversionError::TypeMismatch),
        }
    }

    /// The fields that Python's constructor is given.
    pub open spec fn py_fields(self) -> PyDateTime {
        PyDateTime { date: self.date.py_fields(), time: self.time.py_fields() }
    }

    /// What `to_object` returns.
    pub open spec fn rendered(self) -> Result<PyValue, ConversionError> {
        if self.date.in_py_range() {
            Ok(PyValue::DateTime(self.py_fields()))
        } else {
            Err(ConversionError::NativeConstructionFailure)
        }
    }

    /// Puts a date and a time of day together.
    pub fn new(date: NaiveDate, time: NaiveTime) -> (r: NaiveDateTime)
        ensures
            r == (NaiveDateTime { date, time }),
    {
        NaiveDateTime { date, time }
    }

    /// Whether chrono has this date and this time of day.
    pub fn is_valid(&self) -> (b: bool)
        ensures
            b == self.wf(),
    {
        self.date.is_valid() && self.time.is_valid()
    }

    /// Reads a date and time from a Python object: `fold` becomes a leap
    /// second. Any object but a `datetime.datetime` is a type mismatch.
    pub fn extract(ob: &PyValue) -> (r: Result<NaiveDateTime, ConversionError>)
        requires
            ob.datetime_part() matches Some(dt) ==> dt.is_convertible(),
        ensures
            r == Self::extracted(*ob),
            r matches Ok(dt) ==> dt.wf() && dt.time.is_whole_micros(),
            r is Ok <==> ob.datetime_part() is Some,
    {
        match ob {
            PyValue::DateTime(dt) => Ok(
                NaiveDateTime {
                    date: NaiveDate::from_py(&dt.date),
                    time: NaiveTime::from_py(&dt.time),
                },
            ),
            _ => Err(ConversionError::TypeMismatch),
        }
    }

    /// Gives the Python datetime of this value: a leap second becomes
    /// `fold`, and what is below a microsecond is dropped. Python has the
    /// years 1 to 9999: for any other year its constructor fails, and so
    /// does this.
    pub fn to_object(&self) -> (r: Result<PyValue, ConversionError>)
        requires
            self.wf(),
        ensures
            r == self.rendered(),
            r is Ok <==> self.date.in_py_range(),
    {
        match self.date.to_py() {
            Some(date) => Ok(PyValue::DateTime(PyDateTime { date, time: self.time.to_py() })),
            None => Err(ConversionError::NativeConstructionFailure),
        }
    }

    /// As `to_object`, by value.
    pub fn into_py(self) -> (r: Result<PyValue, ConversionError>)
        requires
            self.wf(),
        ensures
            r == self.rendered(),
    {
        self.to_object()
    }

    /// A date and time in whole microseconds, in a year that Python has, is
    /// read back unchanged from the object it was turned into, leap second
    /// or not.
    pub proof fn lemma_round_trip(self)
        requires
            self.wf(),
            self.date.in_py_range(),
            self.time.is_whole_micros(),
        ensures
            self.rendered() == Ok::<PyValue, ConversionError>(PyValue::DateTime(self.py_fields())),
            self.py_fields().is_canonical(),
            Self::extracted(self.rendered().unwrap()) == Ok::<NaiveDateTime, ConversionError>(
                self,
            ),
    {
        self.date.lemma_round_trip();
        self.time.lemma_round_trip();
    }

    /// A Python datetime is built again unchanged from the value it was
    /// read into.
    pub proof fn lemma_round_trip_py(dt: PyDateTime)
        requires
            dt.is_canonical(),
        ensures
            Self::of_py(dt).wf(),
            Self::of_py(dt).time.is_whole_micros(),
            Self::extracted(PyValue::DateTime(dt)).unwrap().rendered() == Ok::<
                PyValue,
                ConversionError,
            >(PyValue::DateTime(dt)),
    {
        NaiveDate::lemma_round_trip_py(dt.date);
        NaiveTime::lemma_round_trip_py(dt.time);
    }
}

} // verus!
