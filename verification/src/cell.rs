use vstd::prelude::*;
use vstd::string::StrSliceExecFns;
use calamine::Data;
use calamine::DataType;
use chrono::Datelike;
use chrono::Timelike;

verus! {

/// Smallest year a date-carrying canonical value may hold.
pub const MINYEAR: i32 = 1;

/// Largest year a date-carrying canonical value may hold.
pub const MAXYEAR: i32 = 9999;

/// A calendar date split into plain components.
#[derive(Debug, Clone, Copy, PartialEq, Eq)]
pub struct DateParts {
    pub year: i32,
    pub month: u32,
    pub day: u32,
}

/// A time of day split into plain components.
#[derive(Debug, Clone, Copy, PartialEq, Eq)]
pub struct TimeParts {
    pub hour: u32,
    pub minute: u32,
    pub second: u32,
    pub nanosecond: u32,
}

/// A calendar date together with a time of day.
#[derive(Debug, Clone, Copy, PartialEq, Eq)]
pub struct DateTimeParts {
    pub date: DateParts,
    pub time: TimeParts,
}

/// A signed span of time. Serial durations convert with millisecond
/// precision, so milliseconds are the unit kept here.
#[derive(Debug, Clone, Copy, PartialEq, Eq)]
pub struct DurationParts {
    pub milliseconds: i64,
}

/// A serial-numeric date/time cell, as the format decoder hands it over.
///
/// The decoder owns the floating-point serial number; this crate keeps its
/// bit pattern untouched (so that no fallback loses the payload) together
/// with the plain facts the classification reads: the duration flag of the
/// cell's number format, where the number sits relative to one, whether it
/// is integral, and what the decoder's calendar conversions produced.
#[derive(Debug, Clone, Copy, PartialEq, Eq)]
pub struct SerialValue {
    /// IEEE-754 bit pattern of the raw serial number.
    pub bits: u64,
    /// The decoder flagged the cell's number format as a duration.
    pub is_duration: bool,
    /// The serial number is strictly below one: a bare time of day.
    pub lt_one: bool,
    /// The serial number has no fractional part.
    pub integral: bool,
    /// The serial number as a time of day, if that conversion succeeded.
    pub time: Option<TimeParts>,
    /// The serial number as a date, if that conversion succeeded.
    pub date: Option<DateParts>,
    /// The serial number as a date and time, if that conversion succeeded.
    pub datetime: Option<DateTimeParts>,
    /// The serial number as a duration, if that conversion succeeded.
    pub duration: Option<DurationParts>,
}

/// One decoded cell, already classified into a primitive kind by the
/// upstream format decoder. This crate never mutates it.
#[derive(Debug, Clone, PartialEq)]
pub enum RawCell {
    Int(i64),
    /// IEEE-754 bit pattern of a plain floating-point cell.
    Float(u64),
    String(String),
    /// A serial-numeric date, time, datetime or duration.
    Serial(SerialValue),
    /// A date, time or datetime in ISO 8601 text.
    IsoDateTime(String),
    /// A duration in ISO 8601 text.
    IsoDuration(String),
    Bool(bool),
    /// An unrecoverable error marker.
    Error,
    Empty,
}

/// Mathematical image of a [`RawCell`]: text becomes a character sequence.
pub ghost enum RawCellV {
    Int(i64),
    Float(u64),
    String(Seq<char>),
    Serial(SerialValue),
    IsoDateTime(Seq<char>),
    IsoDuration(Seq<char>),
    Bool(bool),
    Error,
    Empty,
}

impl View for RawCell {
    type V = RawCellV;

    open spec fn view(&self) -> RawCellV {
        match self {
            RawCell::Int(v) => RawCellV::Int(*v),
            RawCell::Float(b) => RawCellV::Float(*b),
            RawCell::String(s) => RawCellV::String(s@),
            RawCell::Serial(sv) => RawCellV::Serial(*sv),
            RawCell::IsoDateTime(s) => RawCellV::IsoDateTime(s@),
            RawCell::IsoDuration(s) => RawCellV::IsoDuration(s@),
            RawCell::Bool(b) => RawCellV::Bool(*b),
            RawCell::Error => RawCellV::Error,
            RawCell::Empty => RawCellV::Empty,
        }
    }
}

/// The canonical, unified value model every sheet and table read produces.
#[derive(Debug, Clone, PartialEq)]
pub enum CellValue {
    Int(i64),
    /// IEEE-754 bit pattern of the floating-point payload.
    Float(u64),
    String(String),
    Time(TimeParts),
    Date(DateParts),
    DateTime(DateTimeParts),
    Timedelta(DurationParts),
    Bool(bool),
    Empty,
}

/// Mathematical image of a [`CellValue`].
pub ghost enum CellValueV {
    Int(i64),
    Float(u64),
    String(Seq<char>),
    Time(TimeParts),
    Date(DateParts),
    DateTime(DateTimeParts),
    Timedelta(DurationParts),
    Bool(bool),
    Empty,
}

impl View for CellValue {
    type V = CellValueV;

    open spec fn view(&self) -> CellValueV {
        match self {
            CellValue::Int(v) => CellValueV::Int(*v),
            CellValue::Float(b) => CellValueV::Float(*b),
            CellValue::String(s) => CellValueV::String(s@),
            CellValue::Time(t) => CellValueV::Time(*t),
            CellValue::Date(d) => CellValueV::Date(*d),
            CellValue::DateTime(dt) => CellValueV::DateTime(*dt),
            CellValue::Timedelta(d) => CellValueV::Timedelta(*d),
            CellValue::Bool(b) => CellValueV::Bool(*b),
            CellValue::Empty => CellValueV::Empty,
        }
    }
}

/// Whether a year fits the range a date or datetime value may hold.
pub open spec fn spec_year_in_range(y: i32) -> bool {
    MINYEAR <= y && y <= MAXYEAR
}

/// Values whose year falls outside [`MINYEAR`, `MAXYEAR`] are demoted
/// rather than kept as dates.
fn year_in_range(y: i32) -> (r: bool)
    ensures
        r == spec_year_in_range(y),
{
    MINYEAR <= y && y <= MAXYEAR
}

/// What the decoder's ISO datetime parse returns for a given text.
pub uninterp spec fn iso_datetime_of(s: Seq<char>) -> Option<DateTimeParts>;

/// What the decoder's ISO time parse returns for a given text.
pub uninterp spec fn iso_time_of(s: Seq<char>) -> Option<TimeParts>;

/// What the decoder's ISO date parse returns for a given text.
pub uninterp spec fn iso_date_of(s: Seq<char>) -> Option<DateParts>;

/// What the decoder's ISO duration parse returns for a given text, as a
/// time-of-day shape.
pub uninterp spec fn iso_duration_time_of(s: Seq<char>) -> Option<TimeParts>;

/// Relies on calamine's `DataType::as_datetime` on a `Data::DateTimeIso`
/// value: per its source it parses the text as a `chrono::NaiveDateTime`
/// (ISO 8601), a function of the text alone. The chrono accessors only
/// split the parsed value into plain components.
#[verifier::external_body]
fn parse_iso_datetime(s: &str) -> (r: Option<DateTimeParts>)
    ensures
        r == iso_datetime_of(s@),
{
    let d = Data::DateTimeIso(s.to_string());
    d.as_datetime().map(|dt| DateTimeParts {
        date: DateParts { year: dt.year(), month: dt.month(), day: dt.day() },
        time: TimeParts {
            hour: dt.hour(),
            minute: dt.minute(),
            second: dt.second(),
            nanosecond: dt.nanosecond(),
        },
    })
}

/// Relies on calamine's `DataType::as_time` on a `Data::DateTimeIso` value:
/// per its source it parses the text as a `chrono::NaiveDateTime` and takes
/// its time, or else parses the text as a bare `chrono::NaiveTime` — a
/// function of the text alone.
#[verifier::external_body]
fn parse_iso_time(s: &str) -> (r: Option<TimeParts>)
    ensures
        r == iso_time_of(s@),
{
    let d = Data::DateTimeIso(s.to_string());
    d.as_time().map(|t| TimeParts {
        hour: t.hour(),
        minute: t.minute(),
        second: t.second(),
        nanosecond: t.nanosecond(),
    })
}

/// Relies on calamine's `DataType::as_date` on a `Data::DateTimeIso` value:
/// per its source it parses the text as a `chrono::NaiveDateTime` and takes
/// its date, or else parses the text as a bare `chrono::NaiveDate` — a
/// function of the text alone.
#[verifier::external_body]
fn parse_iso_date(s: &str) -> (r: Option<DateParts>)
    ensures
        r == iso_date_of(s@),
{
    let d = Data::DateTimeIso(s.to_string());
    d.as_date().map(|dt| DateParts { year: dt.year(), month: dt.month(), day: dt.day() })
}

/// Relies on calamine's `DataType::as_time` on a `Data::DurationIso` value:
/// per its source it parses the text against the ISO duration shape
/// `PT..H..M..S` into a `chrono::NaiveTime`, a function of the text alone.
#[verifier::external_body]
fn parse_iso_duration(s: &str) -> (r: Option<TimeParts>)
    ensures
        r == iso_duration_time_of(s@),
{
    let d = Data::DurationIso(s.to_string());
    d.as_time().map(|t| TimeParts {
        hour: t.hour(),
        minute: t.minute(),
        second: t.second(),
        nanosecond: t.nanosecond(),
    })
}

/// Whether the text holds the given character.
fn contains_char(s: &str, c: char) -> (r: bool)
    ensures
        r == s@.contains(c),
{
    let n: usize = s.unicode_len();
    let mut i: usize = 0;
    let mut found: bool = false;
    while i < n
        invariant
            n == s@.len(),
            i <= n,
            found == exists|k: int| 0 <= k < i && s@[k] == c,
        decreases n - i,
    {
        if s.get_char(i) == c {
            found = true;
        }
        i += 1;
    }
    found
}

/// What coercion makes of a serial-numeric cell: a duration-formatted
/// number is a duration; a number below one is a bare time of day; an
/// integral number is a date; anything else is a date and time. Whenever
/// the conversion is missing or the year falls out of range, the original
/// number survives unchanged as a float.
pub open spec fn spec_coerce_serial(sv: SerialValue) -> CellValueV {
    if sv.is_duration {
        match sv.duration {
            Some(d) => CellValueV::Timedelta(d),
            None => CellValueV::Float(sv.bits),
        }
    } else if sv.lt_one {
        match sv.time {
            Some(t) => CellValueV::Time(t),
            None => CellValueV::Float(sv.bits),
        }
    } else if sv.integral {
        match sv.date {
            Some(d) => if spec_year_in_range(d.year) {
                CellValueV::Date(d)
            } else {
                CellValueV::Float(sv.bits)
            },
            None => CellValueV::Float(sv.bits),
        }
    } else {
        match sv.datetime {
            Some(dt) => if spec_year_in_range(dt.date.year) {
                CellValueV::DateTime(dt)
            } else {
                CellValueV::Float(sv.bits)
            },
            None => CellValueV::Float(sv.bits),
        }
    }
}

/// The full coercion map from raw decoded cells to canonical values.
///
/// Primitive kinds map one to one (an error marker empties); serial
/// numbers classify as [`spec_coerce_serial`]; ISO text with a `T` is a
/// datetime, with a `:` a time, otherwise a date, and on parse failure or
/// an out-of-range year the text survives unchanged as a string.
pub open spec fn spec_coerce(raw: RawCellV) -> CellValueV {
    match raw {
        RawCellV::Int(v) => CellValueV::Int(v),
        RawCellV::Float(b) => CellValueV::Float(b),
        RawCellV::String(t) => CellValueV::String(t),
        RawCellV::Bool(b) => CellValueV::Bool(b),
        RawCellV::Error => CellValueV::Empty,
        RawCellV::Empty => CellValueV::Empty,
        RawCellV::Serial(sv) => spec_coerce_serial(sv),
        RawCellV::IsoDateTime(t) => if t.contains('T') {
            match iso_datetime_of(t) {
                Some(dt) => if spec_year_in_range(dt.date.year) {
                    CellValueV::DateTime(dt)
                } else {
                    CellValueV::String(t)
                },
                None => CellValueV::String(t),
            }
        } else if t.contains(':') {
            match iso_time_of(t) {
                Some(tm) => CellValueV::Time(tm),
                None => CellValueV::String(t),
            }
        } else {
            match iso_date_of(t) {
                Some(d) => if spec_year_in_range(d.year) {
                    CellValueV::Date(d)
                } else {
                    CellValueV::String(t)
                },
                None => CellValueV::String(t),
            }
        },
        RawCellV::IsoDuration(t) => match iso_duration_time_of(t) {
            Some(tm) => CellValueV::Time(tm),
            None => CellValueV::String(t),
        },
    }
}

/// Coerce one raw decoded cell into its canonical value.
///
/// Total: classification ambiguity is never an error, every fallback keeps
/// the original payload.
pub fn coerce(raw: &RawCell) -> (r: CellValue)
    ensures
        r@ == spec_coerce(raw@),
{
    match raw {
        RawCell::Int(v) => CellValue::Int(*v),
        RawCell::Float(b) => CellValue::Float(*b),
        RawCell::String(s) => CellValue::String(s.clone()),
        RawCell::Bool(b) => CellValue::Bool(*b),
        RawCell::Error => CellValue::Empty,
        RawCell::Empty => CellValue::Empty,
        RawCell::Serial(sv) => {
            if sv.is_duration {
                match sv.duration {
                    Some(d) => CellValue::Timedelta(d),
                    None => CellValue::Float(sv.bits),
                }
            } else if sv.lt_one {
                match sv.time {
                    Some(t) => CellValue::Time(t),
                    None => CellValue::Float(sv.bits),
                }
            } else if sv.integral {
                match sv.date {
                    Some(d) => if year_in_range(d.year) {
                        CellValue::Date(d)
                    } else {
                        CellValue::Float(sv.bits)
                    },
                    None => CellValue::Float(sv.bits),
                }
            } else {
                match sv.datetime {
                    Some(dt) => if year_in_range(dt.date.year) {
                        CellValue::DateTime(dt)
                    } else {
                        CellValue::Float(sv.bits)
                    },
                    None => CellValue::Float(sv.bits),
                }
            }
        },
        RawCell::IsoDateTime(s) => {
            if contains_char(s.as_str(), 'T') {
                match parse_iso_datetime(s.as_str()) {
                    Some(dt) => if year_in_range(dt.date.year) {
                        CellValue::DateTime(dt)
                    } else {
                        CellValue::String(s.clone())
                    },
                    None => CellValue::String(s.clone()),
                }
            } else if contains_char(s.as_str(), ':') {
                match parse_iso_time(s.as_str()) {
                    Some(tm) => CellValue::Time(tm),
                    None => CellValue::String(s.clone()),
                }
            } else {
                match parse_iso_date(s.as_str()) {
                    Some(d) => if year_in_range(d.year) {
                        CellValue::Date(d)
                    } else {
                        CellValue::String(s.clone())
                    },
                    None => CellValue::String(s.clone()),
                }
            }
        },
        RawCell::IsoDuration(s) => {
            match parse_iso_duration(s.as_str()) {
                Some(tm) => CellValue::Time(tm),
                None => CellValue::String(s.clone()),
            }
        },
    }
}

/// Serial numbers classify by the duration flag, the below-one test and
/// integrality; whenever the needed conversion is present and (for dates
/// and datetimes) its year is in range, the classified value comes out,
/// and otherwise the original number survives unchanged as a float.
pub proof fn lemma_serial_classification(sv: SerialValue)
    requires
        !sv.is_duration,
    ensures
        sv.lt_one ==> (sv.time matches Some(t) ==> spec_coerce(RawCellV::Serial(sv))
            == CellValueV::Time(t)),
        sv.lt_one && sv.time is None ==> spec_coerce(RawCellV::Serial(sv))
            == CellValueV::Float(sv.bits),
        !sv.lt_one && sv.integral ==> (sv.date matches Some(d)
            ==> spec_coerce(RawCellV::Serial(sv)) == if spec_year_in_range(d.year) {
                CellValueV::Date(d)
            } else {
                CellValueV::Float(sv.bits)
            }),
        !sv.lt_one && sv.integral && sv.date is None ==> spec_coerce(RawCellV::Serial(sv))
            == CellValueV::Float(sv.bits),
        !sv.lt_one && !sv.integral ==> (sv.datetime matches Some(dt)
            ==> spec_coerce(RawCellV::Serial(sv)) == if spec_year_in_range(dt.date.year) {
                CellValueV::DateTime(dt)
            } else {
                CellValueV::Float(sv.bits)
            }),
        !sv.lt_one && !sv.integral && sv.datetime is None ==> spec_coerce(RawCellV::Serial(sv))
            == CellValueV::Float(sv.bits),
{
}

/// The canonical model's invariant on years: any date- or datetime-carrying
/// value holds a year inside [`MINYEAR`, `MAXYEAR`]; out-of-range values
/// were demoted before they could become dates.
pub open spec fn spec_value_year_ok(v: CellValueV) -> bool {
    match v {
        CellValueV::Date(d) => spec_year_in_range(d.year),
        CellValueV::DateTime(dt) => spec_year_in_range(dt.date.year),
        _ => true,
    }
}

/// Every coerced value keeps the year invariant, whatever the raw cell
/// held: coercion checks the year of every conversion it accepts as a
/// date or datetime, and demotes the rest.
pub proof fn lemma_coerce_year_ok(raw: RawCellV)
    ensures
        spec_value_year_ok(spec_coerce(raw)),
{
}

/// Empty, boolean, integer, float and string cells coerce to themselves
/// with no information loss.
pub proof fn lemma_plain_round_trip(raw: RawCellV)
    ensures
        raw matches RawCellV::Int(v) ==> spec_coerce(raw) == CellValueV::Int(v),
        raw matches RawCellV::Float(b) ==> spec_coerce(raw) == CellValueV::Float(b),
        raw matches RawCellV::String(t) ==> spec_coerce(raw) == CellValueV::String(t),
        raw matches RawCellV::Bool(b) ==> spec_coerce(raw) == CellValueV::Bool(b),
        raw is Empty ==> spec_coerce(raw) == CellValueV::Empty,
{
}

} // verus!
