use pyo3_chrono::{
    ConversionError, Duration, NaiveDate, NaiveDateTime, NaiveTime, PyDate, PyDateTime, PyDelta,
    PyTime, PyValue,
};

/// The microseconds of a Python duration, as Python compares durations.
fn py_delta_total(d: &PyDelta) -> i128 {
    (d.days as i128 * 86_400 + d.seconds as i128) * 1_000_000 + d.microseconds as i128
}

/// Assert that a Python-native object is equal to a converted Rust object
fn assert_py_eq(native_python_object: &PyValue, foreign_object: &PyValue) {
    let equal = match (native_python_object, foreign_object) {
        (PyValue::Delta(a), PyValue::Delta(b)) => py_delta_total(a) == py_delta_total(b),
        (a, b) => a == b,
    };
    if !equal {
        panic!(
            "assertion failed: converted Rust object is not equal to Python reference object\n         Python: `{:?}`\n Converted Rust: `{:?}`",
            native_python_object, foreign_object,
        );
    }
}

#[test]
fn test_datetime() {
    for &(year, month, day, hour, min, sec, micro, is_leap) in &[
        (2021, 1u8, 20u8, 22u8, 39u8, 46u8, 186605u32, false),
        (2020, 2, 29, 0, 0, 0, 0, false),
        (2016, 12, 31, 23, 59, 59, 123456, false),
        (2016, 12, 31, 23, 59, 59, 123456, true),
        (1156, 3, 31, 11, 22, 33, 445566, false),
        (1, 1, 1, 0, 0, 0, 0, false),
        (3000, 6, 5, 4, 3, 2, 1, false),
        (9999, 12, 31, 23, 59, 59, 999999, false),
    ] {
        // Check if date conversion works

        let py_date = PyValue::Date(PyDate { year, month, day });
        let chrono_date = NaiveDate::from_ymd(year, month.into(), day.into());

        assert_eq!(NaiveDate::extract(&py_date).unwrap(), chrono_date);
        assert_py_eq(&py_date, &chrono_date.to_object().unwrap());

        // Check if time conversion works

        let py_time = PyValue::Time(PyTime {
            hour,
            minute: min,
            second: sec,
            microsecond: micro,
            fold: is_leap,
        });
        let chrono_time = NaiveTime::from_hms_micro(
            hour.into(),
            min.into(),
            sec.into(),
            micro + if is_leap { 1_000_000 } else { 0 },
        );

        assert_eq!(NaiveTime::extract(&py_time).unwrap(), chrono_time);
        assert_py_eq(&py_time, &chrono_time.to_object().unwrap());

        // Check if datetime conversion works

        let py_datetime = PyValue::DateTime(PyDateTime {
            date: PyDate { year, month, day },
            time: PyTime { hour, minute: min, second: sec, microsecond: micro, fold: is_leap },
        });
        let chrono_datetime = NaiveDateTime::new(chrono_date, chrono_time);

        assert_eq!(NaiveDateTime::extract(&py_datetime).unwrap(), chrono_datetime);
        assert_py_eq(&py_datetime, &chrono_datetime.to_object().unwrap())
    }
}

#[test]
fn test_duration() {
    for &(days, seconds, micros, total_micros, test_to_python_conversion) in &[
        (0, 0, 0, 0, true),
        (0, 0, 1, 1, true),
        (0, 0, -1, -1, true),
        (156, 32, 415178, 13478432415178, true),
        (-10000, 0, 0, -864000000000000, true),
        (0, 0, 999_999, 999_999, true),
        (0, 0, 1_000_000, 1_000_000, true),
        (0, 36 * 60, 0, 36 * 60 * 1_000_000, true),
        (0, 0, i32::MAX, i32::MAX as i64, true),
        (0, 0, i32::MIN, i32::MIN as i64, true),
        (999999999, 86399, 999999, i64::MAX, false),
        (-999999999, 0, 0, i64::MIN, false),
    ] {
        let py_duration =
            PyValue::Delta(PyDelta { days, seconds, microseconds: i64::from(micros) });
        let chrono_duration = Duration::microseconds(total_micros);

        assert_eq!(Duration::extract(&py_duration).unwrap(), chrono_duration);
        if test_to_python_conversion {
            assert_py_eq(&py_duration, &chrono_duration.to_object().unwrap());
        }
    }
}

#[test]
fn date_fields_are_carried_over() {
    let d = NaiveDate::from_ymd(2021, 1, 20);
    assert_eq!((d.year, d.month, d.day), (2021, 1, 20));
    assert_eq!(
        d.to_object(),
        Ok(PyValue::Date(PyDate { year: 2021, month: 1, day: 20 }))
    );
    assert_eq!(d.into_py(), d.to_object());
}

#[test]
fn boundary_dates_round_trip() {
    for &(year, month, day) in &[(1, 1u8, 1u8), (9999, 12, 31)] {
        let py = PyValue::Date(PyDate { year, month, day });
        let host = NaiveDate::extract(&py).unwrap();
        assert_eq!(host, NaiveDate { year, month: month.into(), day: day.into() });
        assert_eq!(host.to_object(), Ok(py));
        assert_eq!(NaiveDate::extract(&host.to_object().unwrap()), Ok(host));
    }
}

#[test]
fn years_outside_python_fail_to_build() {
    let early = NaiveDate::from_ymd(0, 12, 31);
    assert_eq!(early.to_object(), Err(ConversionError::NativeConstructionFailure));
    let late = NaiveDate::from_ymd(10000, 1, 1);
    assert_eq!(late.to_object(), Err(ConversionError::NativeConstructionFailure));
    let time = NaiveTime::from_hms_micro(0, 0, 0, 0);
    assert_eq!(
        NaiveDateTime::new(late, time).to_object(),
        Err(ConversionError::NativeConstructionFailure)
    );
    assert_eq!(
        NaiveDateTime::new(early, time).into_py(),
        Err(ConversionError::NativeConstructionFailure)
    );
}

#[test]
fn date_from_duration_object_is_type_mismatch() {
    let delta = PyValue::Delta(PyDelta { days: 1, seconds: 2, microseconds: 3 });
    assert_eq!(NaiveDate::extract(&delta), Err(ConversionError::TypeMismatch));
    assert_eq!(NaiveTime::extract(&delta), Err(ConversionError::TypeMismatch));
    assert_eq!(NaiveDateTime::extract(&delta), Err(ConversionError::TypeMismatch));
}

#[test]
fn other_shapes_are_type_mismatch() {
    let date = PyValue::Date(PyDate { year: 2021, month: 1, day: 20 });
    let time = PyValue::Time(PyTime { hour: 1, minute: 2, second: 3, microsecond: 4, fold: false });
    assert_eq!(NaiveDate::extract(&PyValue::Other), Err(ConversionError::TypeMismatch));
    assert_eq!(NaiveDate::extract(&time), Err(ConversionError::TypeMismatch));
    assert_eq!(NaiveTime::extract(&date), Err(ConversionError::TypeMismatch));
    assert_eq!(NaiveTime::extract(&PyValue::Other), Err(ConversionError::TypeMismatch));
    assert_eq!(NaiveDateTime::extract(&date), Err(ConversionError::TypeMismatch));
    assert_eq!(NaiveDateTime::extract(&time), Err(ConversionError::TypeMismatch));
    assert_eq!(NaiveDateTime::extract(&PyValue::Other), Err(ConversionError::TypeMismatch));
    assert_eq!(Duration::extract(&date), Err(ConversionError::TypeMismatch));
    assert_eq!(Duration::extract(&time), Err(ConversionError::TypeMismatch));
    assert_eq!(Duration::extract(&PyValue::Other), Err(ConversionError::TypeMismatch));
}

#[test]
fn datetime_object_is_date_like() {
    let py = PyValue::DateTime(PyDateTime {
        date: PyDate { year: 2016, month: 12, day: 31 },
        time: PyTime { hour: 23, minute: 59, second: 59, microsecond: 5, fold: true },
    });
    assert_eq!(NaiveDate::extract(&py), Ok(NaiveDate { year: 2016, month: 12, day: 31 }));
}

#[test]
fn leap_second_becomes_fold_and_back() {
    let host = NaiveTime { hour: 23, minute: 59, second: 59, nanosecond: 1_123_456_000 };
    assert!(host.is_valid());
    let py = PyTime { hour: 23, minute: 59, second: 59, microsecond: 123_456, fold: true };
    assert_eq!(host.to_object(), Ok(PyValue::Time(py)));
    assert_eq!(host.into_py(), Ok(PyValue::Time(py)));
    assert_eq!(NaiveTime::extract(&PyValue::Time(py)), Ok(host));
}

#[test]
fn time_below_a_microsecond_is_dropped() {
    let host = NaiveTime { hour: 1, minute: 2, second: 3, nanosecond: 4_999 };
    assert!(host.is_valid());
    let py = PyTime { hour: 1, minute: 2, second: 3, microsecond: 4, fold: false };
    assert_eq!(host.to_object(), Ok(PyValue::Time(py)));
    assert_eq!(
        NaiveTime::extract(&PyValue::Time(py)),
        Ok(NaiveTime { hour: 1, minute: 2, second: 3, nanosecond: 4_000 })
    );
}

#[test]
fn datetime_round_trips_with_leap_second() {
    let host = NaiveDateTime::new(
        NaiveDate::from_ymd(2016, 12, 31),
        NaiveTime::from_hms_micro(23, 59, 59, 1_999_999),
    );
    assert!(host.is_valid());
    let py = host.to_object().unwrap();
    assert_eq!(
        py,
        PyValue::DateTime(PyDateTime {
            date: PyDate { year: 2016, month: 12, day: 31 },
            time: PyTime { hour: 23, minute: 59, second: 59, microsecond: 999_999, fold: true },
        })
    );
    assert_eq!(NaiveDateTime::extract(&py), Ok(host));
}

#[test]
fn convertibility_is_what_chrono_accepts() {
    assert!(PyDate { year: 2020, month: 2, day: 29 }.check_convertible());
    assert!(!PyDate { year: 2021, month: 2, day: 29 }.check_convertible());
    assert!(!PyDate { year: 2021, month: 13, day: 1 }.check_convertible());
    assert!(!PyDate { year: 2021, month: 0, day: 1 }.check_convertible());
    assert!(!PyDate { year: 2021, month: 4, day: 0 }.check_convertible());
    let midday = PyTime { hour: 12, minute: 0, second: 0, microsecond: 0, fold: false };
    assert!(midday.check_convertible());
    assert!(!PyTime { fold: true, ..midday }.check_convertible());
    assert!(PyTime { second: 59, fold: true, ..midday }.check_convertible());
    assert!(!PyTime { hour: 24, ..midday }.check_convertible());
    assert!(!PyTime { minute: 60, ..midday }.check_convertible());
    assert!(!PyTime { second: 60, ..midday }.check_convertible());
    assert!(!PyTime { second: 59, microsecond: 1_000_000, fold: true, ..midday }
        .check_convertible());
    assert!(!PyTime { second: 59, microsecond: u32::MAX, fold: true, ..midday }
        .check_convertible());
    let date = PyDate { year: 2020, month: 2, day: 29 };
    assert!(PyDateTime { date, time: midday }.check_convertible());
    assert!(!PyDateTime { date, time: PyTime { hour: 24, ..midday } }.check_convertible());
    assert!(!PyDateTime { date: PyDate { day: 30, ..date }, time: midday }.check_convertible());
}

#[test]
fn ordering_follows_the_fields() {
    assert!(NaiveDate::from_ymd(2020, 12, 31) < NaiveDate::from_ymd(2021, 1, 1));
    assert!(NaiveDate::from_ymd(2021, 1, 31) < NaiveDate::from_ymd(2021, 2, 1));
    assert!(NaiveTime::from_hms_micro(23, 59, 59, 999_999) < NaiveTime::from_hms_micro(23, 59, 59, 1_000_000));
    assert!(NaiveTime::from_hms_micro(1, 59, 59, 0) < NaiveTime::from_hms_micro(2, 0, 0, 0));
    assert!(Duration::microseconds(-1) < Duration::microseconds(0));
    assert_eq!(Duration::microseconds(5), Duration::microseconds(5));
}
