use sheet_values::cell::{
    coerce, CellValue, DateParts, DateTimeParts, DurationParts, RawCell, SerialValue, TimeParts,
};

fn serial(v: f64) -> SerialValue {
    SerialValue {
        bits: v.to_bits(),
        is_duration: false,
        lt_one: v < 1.0,
        integral: v == (v as u64) as f64,
        time: None,
        date: None,
        datetime: None,
        duration: None,
    }
}

#[test]
fn int_round_trips() {
    assert_eq!(coerce(&RawCell::Int(-42)), CellValue::Int(-42));
}

#[test]
fn float_round_trips() {
    let bits = f64::to_bits(2.75);
    assert_eq!(coerce(&RawCell::Float(bits)), CellValue::Float(bits));
}

#[test]
fn string_round_trips() {
    assert_eq!(
        coerce(&RawCell::String("hello".to_string())),
        CellValue::String("hello".to_string())
    );
}

#[test]
fn bool_round_trips() {
    assert_eq!(coerce(&RawCell::Bool(true)), CellValue::Bool(true));
}

#[test]
fn empty_round_trips() {
    assert_eq!(coerce(&RawCell::Empty), CellValue::Empty);
}

#[test]
fn error_marker_degrades_to_empty() {
    assert_eq!(coerce(&RawCell::Error), CellValue::Empty);
}

#[test]
fn serial_below_one_is_time() {
    let t = TimeParts { hour: 6, minute: 0, second: 0, nanosecond: 0 };
    let mut sv = serial(0.25);
    sv.time = Some(t);
    assert!(sv.lt_one);
    assert_eq!(coerce(&RawCell::Serial(sv)), CellValue::Time(t));
}

#[test]
fn serial_integral_is_date() {
    let d = DateParts { year: 2025, month: 10, day: 13 };
    let mut sv = serial(45943.0);
    sv.date = Some(d);
    assert!(!sv.lt_one && sv.integral);
    assert_eq!(coerce(&RawCell::Serial(sv)), CellValue::Date(d));
}

#[test]
fn serial_fractional_is_datetime() {
    let dt = DateTimeParts {
        date: DateParts { year: 2025, month: 10, day: 13 },
        time: TimeParts { hour: 12, minute: 0, second: 0, nanosecond: 0 },
    };
    let mut sv = serial(45943.5);
    sv.datetime = Some(dt);
    assert!(!sv.lt_one && !sv.integral);
    assert_eq!(coerce(&RawCell::Serial(sv)), CellValue::DateTime(dt));
}

#[test]
fn serial_year_out_of_range_falls_back_to_float() {
    // The serial for a year past 9999 still converts to a date, but the
    // classification demotes it to the untouched float payload.
    let v = 5000000.0;
    let mut sv = serial(v);
    sv.date = Some(DateParts { year: 15588, month: 1, day: 1 });
    assert_eq!(coerce(&RawCell::Serial(sv)), CellValue::Float(v.to_bits()));
}

#[test]
fn serial_failed_conversion_falls_back_to_float() {
    let v = 45943.5;
    let sv = serial(v);
    assert_eq!(coerce(&RawCell::Serial(sv)), CellValue::Float(v.to_bits()));
}

#[test]
fn serial_duration_is_timedelta() {
    let v = 1.5;
    let mut sv = serial(v);
    sv.is_duration = true;
    sv.duration = Some(DurationParts { milliseconds: 129_600_000 });
    assert_eq!(
        coerce(&RawCell::Serial(sv)),
        CellValue::Timedelta(DurationParts { milliseconds: 129_600_000 })
    );
}

#[test]
fn iso_text_with_t_parses_as_datetime() {
    let got = coerce(&RawCell::IsoDateTime("2021-03-04T05:06:07".to_string()));
    assert_eq!(
        got,
        CellValue::DateTime(DateTimeParts {
            date: DateParts { year: 2021, month: 3, day: 4 },
            time: TimeParts { hour: 5, minute: 6, second: 7, nanosecond: 0 },
        })
    );
}

#[test]
fn iso_text_with_colon_parses_as_time() {
    let got = coerce(&RawCell::IsoDateTime("05:06:07".to_string()));
    assert_eq!(
        got,
        CellValue::Time(TimeParts { hour: 5, minute: 6, second: 7, nanosecond: 0 })
    );
}

#[test]
fn iso_plain_text_parses_as_date() {
    let got = coerce(&RawCell::IsoDateTime("2021-03-04".to_string()));
    assert_eq!(got, CellValue::Date(DateParts { year: 2021, month: 3, day: 4 }));
}

#[test]
fn iso_year_zero_falls_back_to_string() {
    // Year 0 parses but sits outside the canonical year range, so the text
    // survives unchanged.
    let text = "0000-01-01T00:00:00";
    let got = coerce(&RawCell::IsoDateTime(text.to_string()));
    assert_eq!(got, CellValue::String(text.to_string()));
}

#[test]
fn iso_unparsable_text_falls_back_to_string() {
    let got = coerce(&RawCell::IsoDateTime("not-a-date".to_string()));
    assert_eq!(got, CellValue::String("not-a-date".to_string()));
}

#[test]
fn iso_duration_parses_as_time() {
    let got = coerce(&RawCell::IsoDuration("PT12H30M5S".to_string()));
    assert_eq!(
        got,
        CellValue::Time(TimeParts { hour: 12, minute: 30, second: 5, nanosecond: 0 })
    );
}

#[test]
fn iso_duration_unparsable_falls_back_to_string() {
    let got = coerce(&RawCell::IsoDuration("P1DT2H".to_string()));
    assert_eq!(got, CellValue::String("P1DT2H".to_string()));
}
