//! Instants: what the notifier stores of a site's last visit and reads off an item's date.

use vstd::prelude::*;

verus! {

/// The first second that a calendar date exists for: midnight of January 1st, 262144 BCE, UTC.
pub const MIN_SECONDS: i64 = -8334601228800;

/// The last second that a calendar date exists for: the end of December 31st, 262142 CE, UTC.
pub const MAX_SECONDS: i64 = 8210266876799;

/// Whether `nanos` nanoseconds into the second `seconds` (counted from 1970, UTC) is an instant.
///
/// A leap second has no number of its own: it prolongs the second before it, the last one of a
/// minute, whose nanoseconds then go on past a billion.
pub open spec fn is_instant(seconds: int, nanos: int) -> bool {
    &&& MIN_SECONDS <= seconds <= MAX_SECONDS
    &&& 0 <= nanos < 2_000_000_000
    &&& nanos >= 1_000_000_000 ==> seconds % 60 == 59
}

/// Whether the instant `a` comes after the instant `b`.
pub open spec fn later(a: (int, int), b: (int, int)) -> bool {
    a.0 > b.0 || (a.0 == b.0 && a.1 > b.1)
}

/// The first instant of the calendar.
pub open spec fn beginning() -> (int, int) {
    (MIN_SECONDS as int, 0)
}

/// Whether an instant is one that a clock can show: not before 1970, and in no leap second.
pub open spec fn is_clock_time(instant: (int, int)) -> bool {
    instant.0 >= 0 && instant.1 < 1_000_000_000
}

/// An instant in UTC: seconds since 1970, and nanoseconds into that second.
#[derive(Debug, Clone, Copy, PartialEq, Eq)]
pub struct Timestamp {
    seconds: i64,
    nanos: u32,
}

impl View for Timestamp {
    type V = (int, int);

    closed spec fn view(&self) -> (int, int) {
        (self.seconds as int, self.nanos as int)
    }
}

impl Timestamp {
    #[verifier::type_invariant]
    spec fn well_formed(self) -> bool {
        is_instant(self.seconds as int, self.nanos as int)
    }

    /// The instant `nanos` nanoseconds into the second `seconds`, if there is one.
    pub fn new(seconds: i64, nanos: u32) -> (instant: Option<Timestamp>)
        ensures
            instant is Some <==> is_instant(seconds as int, nanos as int),
            instant is Some ==> instant->0@ == (seconds as int, nanos as int),
    {
        if seconds < MIN_SECONDS || seconds > MAX_SECONDS || nanos >= 2_000_000_000 {
            return None;
        }
        if nanos >= 1_000_000_000 {
            // The remainder of a negative number is negative or zero here, unlike in `is_instant`.
            let remainder: i64 = seconds % 60;
            if remainder != 59 && remainder != -1 {
                return None;
            }
        }
        Some(Timestamp { seconds, nanos })
    }

    /// The seconds since 1970.
    pub fn seconds(&self) -> (seconds: i64)
        ensures
            seconds == self@.0,
    {
        self.seconds
    }

    /// The nanoseconds into the second.
    pub fn nanos(&self) -> (nanos: u32)
        ensures
            nanos == self@.1,
    {
        self.nanos
    }

    /// Whether this instant comes after `other`.
    pub fn is_later_than(&self, other: &Timestamp) -> (answer: bool)
        ensures
            answer == later(self@, other@),
            self@.0 > other@.0 ==> answer,
            self@.0 < other@.0 ==> !answer,
            self@.0 == other@.0 ==> answer == (self@.1 > other@.1),
    {
        self.seconds > other.seconds || (self.seconds == other.seconds && self.nanos
            > other.nanos)
    }
}

/// A timestamp stands for the instant that its fields say.
proof fn timestamp_is_its_fields(timestamp: Timestamp)
    ensures
        timestamp@.0 == timestamp.seconds,
        timestamp@.1 == timestamp.nanos,
{
}

/// Two timestamps that stand for one instant are one value.
pub proof fn timestamp_is_its_instant(a: Timestamp, b: Timestamp)
    ensures
        a@ == b@ ==> a == b,
{
}

/// What `chrono::DateTime::parse_from_rfc2822` reads `text` as: the instant in UTC, or `None`
/// where `text` is no date.
pub uninterp spec fn rfc2822_instant(text: Seq<char>) -> Option<(int, int)>;

/// The error of a text that is no date.
#[verifier::external_type_specification]
#[verifier::external_body]
pub struct ExParseError(chrono::ParseError);

/// `chrono::DateTime::parse_from_rfc2822`, whose result is brought to UTC.
///
/// Trusted: the outcome depends on `text` alone, and a date that is read is an instant of the
/// calendar, as `is_instant` has it, later than its beginning: the year is written without a
/// sign.
#[verifier::external_body]
pub(crate) fn parse_from_rfc2822(text: &str) -> (date: Result<Timestamp, chrono::ParseError>)
    ensures
        date is Ok <==> rfc2822_instant(text@) is Some,
        date is Ok ==> Some(date->Ok_0@) == rfc2822_instant(text@),
        date is Ok ==> later(date->Ok_0@, beginning()),
{
    chrono::DateTime::parse_from_rfc2822(text).map(
        |date| Timestamp { seconds: date.timestamp(), nanos: date.timestamp_subsec_nanos() },
    )
}

/// `chrono::MIN_DATE.and_hms(0, 0, 0)`: the beginning of the calendar.
///
/// Trusted: that midnight is the first instant there is.
#[verifier::external_body]
pub(crate) fn min_date_midnight() -> (instant: Timestamp)
    ensures
        instant@ == beginning(),
{
    #[allow(deprecated)]
    let date = chrono::MIN_DATE.and_hms(0, 0, 0);
    Timestamp { seconds: date.timestamp(), nanos: date.timestamp_subsec_nanos() }
}

/// What the clock has shown, once. Only reading the clock gives one.
#[derive(Debug)]
pub struct Reading {
    time: Timestamp,
}

impl View for Reading {
    type V = (int, int);

    closed spec fn view(&self) -> (int, int) {
        self.time@
    }
}

impl Reading {
    /// The instant that the clock has shown.
    pub fn time(&self) -> (time: Timestamp)
        ensures
            time@ == self@,
    {
        self.time
    }
}

/// A reading stands for the instant that the clock has shown, to the nanosecond.
proof fn reading_is_its_time(reading: Reading)
    ensures
        reading@.0 == reading.time.seconds,
        reading@.1 == reading.time.nanos,
{
}

/// `chrono::Utc::now`: what the machine's clock shows.
///
/// Trusted: the clock shows no time before 1970 (the call panics on a clock set to an
/// earlier time), no leap second, and an instant of the calendar. Nothing more is said of the
/// time: the clock may be set, forward or back, between two readings.
#[verifier::external_body]
pub(crate) fn utc_now() -> (now: Reading)
    ensures
        is_clock_time(now@),
{
    let now = chrono::Utc::now();
    Reading {
        time: Timestamp { seconds: now.timestamp(), nanos: now.timestamp_subsec_nanos() },
    }
}

/// How `chrono::DateTime::<Utc>::to_rfc3339_opts` writes an instant, with as many decimals as
/// it needs and a `Z` for the offset.
pub uninterp spec fn rfc3339_text(seconds: int, nanos: int) -> Seq<char>;

/// `chrono::DateTime::from_timestamp` and `to_rfc3339_opts`: the instant as text, the way
/// `chrono` serializes it.
///
/// Trusted: the text depends on the instant alone.
#[verifier::external_body]
fn to_rfc3339(seconds: i64, nanos: u32) -> (text: String)
    requires
        is_instant(seconds as int, nanos as int),
    ensures
        text@ == rfc3339_text(seconds as int, nanos as int),
{
    let date = chrono::DateTime::from_timestamp(seconds, nanos).unwrap();
    date.to_rfc3339_opts(chrono::SecondsFormat::AutoSi, true)
}

impl Timestamp {
    /// The instant as text, as in `2020-05-17T12:30:00Z`.
    pub fn to_text(&self) -> (text: String)
        ensures
            text@ == rfc3339_text(self@.0, self@.1),
    {
        proof {
            use_type_invariant(self);
        }
        to_rfc3339(self.seconds, self.nanos)
    }
}

} // verus!
