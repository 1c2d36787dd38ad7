//! The date adapter.

use vstd::prelude::*;
use crate::calendar::{checked_date, is_calendar_date};
use crate::native::{ConversionError, PyDate, PyValue, PY_MAX_YEAR, PY_MIN_YEAR};

verus! {

/// A calendar day, with the fields of a `chrono::NaiveDate`.
#[derive(Debug, Clone, Copy, PartialEq, Eq, PartialOrd, Ord, Structural)]
pub struct NaiveDate {
    pub year: i32,
    pub month: u32,
    pub day: u32,
}

impl NaiveDate {
    /// The day exists in the calendar.
    pub open spec fn wf(self) -> bool {
        is_calendar_date(self.year as int, self.month as int, self.day as int)
    }

    /// The date that the fields of a Python date give.
    pub open spec fn of_py(d: PyDate) -> NaiveDate {
        NaiveDate { year: d.year, month: d.month as u32, day: d.day as u32 }
    }

    /// What `extract` returns.
    pub open spec fn extracted(ob: PyValue) -> Result<NaiveDate, ConversionError> {
        match ob.date_part() {
            Some(d) => Ok(Self::of_py(d)),
            None => Err(ConversionError::TypeMismatch),
        }
    }

    /// Python can hold the date.
    pub open spec fn in_py_range(self) -> bool {
        PY_MIN_YEAR <= self.year <= PY_MAX_YEAR
    }

    /// The fields that Python's constructor is given.
    pub open spec fn py_fields(self) -> PyDate {
        PyDate { year: self.year, month: self.month as u8, day: self.day as u8 }
    }

    /// What `to_object` returns.
    pub open spec fn rendered(self) -> Result<PyValue, ConversionError> {
        if self.in_py_range() {
            Ok(PyValue::Date(self.py_fields()))
        } else {
            Err(ConversionError::NativeConstructionFailure)
        }
    }

    /// The date of a year, month and day, where the calendar has that day.
    pub fn from_ymd_opt(year: i32, month: u32, day: u32) -> (r: Option<NaiveDate>)
        ensures
            r == if is_calendar_date(year as int, month as int, day as int) {
                Some(NaiveDate { year, month, day })
            } else {
                None
            },
            r matches Some(d) ==> d.wf(),
    {
        match checked_date(year, month, day) {
            Some((y, m, d)) => Some(NaiveDate { year: y, month: m, day: d }),
            None => None,
        }
    }

    /// Asks chrono whether the calendar has this day.
    pub fn is_valid(&self) -> (b: bool)
        ensures
            b == self.wf(),
    {
        checked_date(self.year, self.month, self.day).is_some()
    }

    /// As `from_ymd_opt`, for a day that is known to exist.
    pub fn from_ymd(year: i32, month: u32, day: u32) -> (r: NaiveDate)
        requires
            is_calendar_date(year as int, month as int, day as int),
        ensures
            r == (NaiveDate { year, month, day }),
            r.wf(),
    {
        Self::from_ymd_opt(year, month, day).unwrap()
    }

    /// The fields of a Python date, read into a date.
    pub(crate) fn from_py(d: &PyDate) -> (r: NaiveDate)
        requires
            d.is_convertible(),
        ensures
            r == Self::of_py(*d),
            r.wf(),
    {
        Self::from_ymd(d.year, d.month as u32, d.day as u32)
    }

    /// Reads a date from a Python object. A `datetime.date` gives its date,
    /// and so does a `datetime.datetime`, which is one too; any other object
    /// is a type mismatch.
    pub fn extract(ob: &PyValue) -> (r: Result<NaiveDate, ConversionError>)
        requires
            ob.date_part() matches Some(d) ==> d.is_convertible(),
        ensures
            r == Self::extracted(*ob),
            r matches Ok(d) ==> d.wf(),
            r is Ok <==> ob.date_part() is Some,
    {
        match ob {
            PyValue::Date(d) => Ok(Self::from_py(d)),
            PyValue::DateTime(dt) => Ok(Self::from_py(&dt.date)),
            _ => Err(ConversionError::TypeMismatch),
        }
    }

    /// The fields for Python's constructor, where Python can hold the year.
    pub(crate) fn to_py(&self) -> (r: Option<PyDate>)
        requires
            self.wf(),
        ensures
            r == if self.in_py_range() {
                Some(self.py_fields())
            } else {
                None
            },
            r matches Some(d) ==> d.is_canonical() && Self::of_py(d) == *self,
    {
        if PY_MIN_YEAR <= self.year && self.year <= PY_MAX_YEAR {
            Some(PyDate { year: self.year, month: self.month as u8, day: self.day as u8 })
        } else {
            None
        }
    }

    /// Gives the Python date of this day. Python has the years 1 to 9999:
    /// for any other year its constructor fails, and so does this.
    pub fn to_object(&self) -> (r: Result<PyValue, ConversionError>)
        requires
            self.wf(),
        ensures
            r == self.rendered(),
            r is Ok <==> self.in_py_range(),
    {
        match self.to_py() {
            Some(d) => Ok(PyValue::Date(d)),
            None => Err(ConversionError::NativeConstructionFailure),
        }
    }

    /// As `to_object`, by value.
    pub fn into_py(self) -> (r: Result<PyValue, ConversionError>)
        requires
            self.wf(),
        ensures
            r == self.rendered(),
    {
        self.to_object()
    }

    /// A date that Python can hold is read back unchanged from the object it
    /// was turned into.
    pub proof fn lemma_round_trip(self)
        requires
            self.wf(),
            self.in_py_range(),
        ensures
            self.rendered() == Ok::<PyValue, ConversionError>(PyValue::Date(self.py_fields())),
            self.py_fields().is_canonical(),
            Self::extracted(self.rendered().unwrap()) == Ok::<NaiveDate, ConversionError>(self),
    {
    }

    /// A Python date is built again unchanged from the date it was read
    /// into.
    pub proof fn lemma_round_trip_py(d: PyDate)
        requires
            d.is_canonical(),
        ensures
            Self::extracted(PyValue::Date(d)) is Ok,
            Self::extracted(PyValue::Date(d)).unwrap().wf(),
            Self::extracted(PyValue::Date(d)).unwrap().rendered() == Ok::<
                PyValue,
                ConversionError,
            >(PyValue::Date(d)),
    {
    }
}

} // verus!
