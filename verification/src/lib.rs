//! Conversions between calendar values (date, time of day, date and time,
//! duration) and the date/time objects of an embedded Python runtime.
//!
//! Python has no leap seconds and chrono has no `fold`; Python's durations
//! reach further than a signed 64-bit count of microseconds. The `codec` and
//! `duration` modules hold the two rules that bridge these differences, and
//! the four adapters apply them field by field.

pub mod calendar;
pub mod codec;
pub mod date;
pub mod datetime;
pub mod duration;
pub mod native;
pub mod time;

pub use crate::date::NaiveDate;
pub use crate::datetime::NaiveDateTime;
pub use crate::duration::Duration;
pub use crate::native::{ConversionError, PyDate, PyDateTime, PyDelta, PyTime, PyValue};
pub use crate::time::NaiveTime;
