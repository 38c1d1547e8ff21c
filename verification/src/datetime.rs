//! Timestamps and their normalisation from the encodings that e-reader
//! exports use.

use vstd::prelude::*;

verus! {

/// An instant without a time zone: whole seconds since 1970-01-01T00:00:00 and
/// the nanoseconds past that second (one thousand million or more only inside
/// a leap second).
#[derive(Clone, Copy, Debug, PartialEq, Eq, Structural)]
pub struct Timestamp {
    pub secs: i64,
    pub nanos: u32,
}

/// The reason why a text was not recognised as a date and time.
#[derive(Debug, Clone, PartialEq, Eq)]
pub struct InvalidTimestamp {
    pub reason: String,
}

/// Seconds from 1970-01-01T00:00:00 to 2001-01-01T00:00:00, the instant from
/// which Core Data counts.
pub const CORE_DATA_EPOCH_OFFSET: i64 = 978_307_200;

/// First second of the year -262143, the earliest that a timestamp can name.
pub const EARLIEST_SECOND: i64 = -8_334_601_228_800;

/// Last second of the year 262142, the latest that a timestamp can name.
pub const LATEST_SECOND: i64 = 8_210_266_876_799;

/// Whether `secs` and `nanos` name an instant: the second lies between the
/// two ends of the calendar, and the nanoseconds stay under one second, or
/// under two in the last second of a minute (a leap second).
pub open spec fn unix_instant_valid(secs: int, nanos: int) -> bool {
    &&& EARLIEST_SECOND <= secs <= LATEST_SECOND
    &&& 0 <= nanos
    &&& nanos < 1_000_000_000 || (nanos < 2_000_000_000 && secs % 60 == 59)
}

/// What `chrono::NaiveDateTime::parse_from_str` makes of `text` under the
/// strftime pattern `format`: the instant, or chrono's words for the failure.
pub uninterp spec fn strptime(text: Seq<char>, format: Seq<char>) -> Result<Timestamp, Seq<char>>;

/// A parse result with the failure's text taken as a sequence of characters.
pub open spec fn outcome_of(got: Result<Timestamp, String>) -> Result<Timestamp, Seq<char>> {
    match got {
        Ok(t) => Ok(t),
        Err(m) => Err(m@),
    }
}

/// Calls `chrono::NaiveDateTime::parse_from_str`. The contract names the
/// result after the two arguments and claims nothing else: parsing depends on
/// the text and the pattern alone. A date and time that parsed is handed back
/// as seconds and nanoseconds, a failure as the text of chrono's error.
#[verifier::external_body]
fn parse_with_format(text: &str, format: &str) -> (r: Result<Timestamp, String>)
    ensures
        outcome_of(r) == strptime(text@, format@),
{
    match chrono::NaiveDateTime::parse_from_str(text, format) {
        Ok(dt) => Ok(Timestamp {
            secs: dt.and_utc().timestamp(),
            nanos: dt.and_utc().timestamp_subsec_nanos(),
        }),
        Err(e) => Err(e.to_string()),
    }
}

/// Calls `chrono::DateTime::from_timestamp`. chrono accepts exactly the
/// instants of `unix_instant_valid` and hands an accepted one back with the
/// same seconds and nanoseconds.
#[verifier::external_body]
fn instant_from_unix(secs: i64, nanos: u32) -> (r: Option<Timestamp>)
    ensures
        r == (if unix_instant_valid(secs as int, nanos as int) {
            Some(Timestamp { secs, nanos })
        } else {
            None
        }),
{
    match chrono::DateTime::from_timestamp(secs, nanos) {
        Some(dt) => Some(Timestamp { secs: dt.timestamp(), nanos: dt.timestamp_subsec_nanos() }),
        None => None,
    }
}

/// The instant that lies `seconds` and `nanos` after the Core Data epoch, if
/// the calendar reaches that far.
pub open spec fn core_data_instant(seconds: int, nanos: int) -> Option<Timestamp> {
    let secs = seconds + CORE_DATA_EPOCH_OFFSET;
    if unix_instant_valid(secs, nanos) {
        Some(Timestamp { secs: secs as i64, nanos: nanos as u32 })
    } else {
        None
    }
}

/// Rebases a Core Data offset, given as whole seconds and the nanoseconds
/// past them, onto 1970.
pub fn core_data_to_naive_datetime(seconds: i64, nanos: u32) -> (r: Option<Timestamp>)
    ensures
        r == core_data_instant(seconds as int, nanos as int),
{
    match seconds.checked_add(CORE_DATA_EPOCH_OFFSET) {
        Some(secs) => instant_from_unix(secs, nanos),
        None => None,
    }
}

/// ISO 8601 with a fraction of a second, as in `2020-11-22T10:11:42.000`.
pub const FORMAT_ISO_FRACTION: &'static str = "%Y-%m-%dT%H:%M:%S%.3f";

/// ISO 8601 with a closing `Z`, as in `2020-11-22T10:11:42Z`.
pub const FORMAT_ISO_ZULU: &'static str = "%Y-%m-%dT%H:%M:%SZ";

/// Date, a space and time, as in `2020-11-22 10:11:42`.
pub const FORMAT_SQL: &'static str = "%Y-%m-%d %H:%M:%S";

/// Day before month, as in `Saturday, 26 March 2016 14:59:39`.
pub const FORMAT_LONG_DAY_FIRST: &'static str = "%A, %e %B %Y %H:%M:%S";

/// Month before day with a twelve-hour clock, as in
/// `Saturday, March 26, 2016, 02:59 PM`.
pub const FORMAT_LONG_MONTH_FIRST: &'static str = "%A, %B %d, %Y, %I:%M %p";

/// Of two attempts in the order in which they were made, the one that counts:
/// the first that succeeded, and the first failure where both failed.
pub open spec fn preferred(
    first: Result<Timestamp, Seq<char>>,
    later: Result<Timestamp, Seq<char>>,
) -> Result<Timestamp, Seq<char>> {
    if first is Ok || later is Err {
        first
    } else {
        later
    }
}

/// The instant that `text` names under the first of the five recognised
/// patterns that accepts it; the failure under the first pattern where none
/// does.
pub open spec fn normalized(text: Seq<char>) -> Result<Timestamp, Seq<char>> {
    preferred(
        preferred(
            preferred(
                preferred(
                    strptime(text, FORMAT_ISO_FRACTION@),
                    strptime(text, FORMAT_ISO_ZULU@),
                ),
                strptime(text, FORMAT_SQL@),
            ),
            strptime(text, FORMAT_LONG_DAY_FIRST@),
        ),
        strptime(text, FORMAT_LONG_MONTH_FIRST@),
    )
}

/// Chooses between an earlier and a later attempt at one text.
pub fn prefer(first: Result<Timestamp, String>, later: Result<Timestamp, String>) -> (r: Result<
    Timestamp,
    String,
>)
    ensures
        outcome_of(r) == preferred(outcome_of(first), outcome_of(later)),
        first is Ok || later is Err ==> r == first,
        first is Err && later is Ok ==> r == later,
{
    match first {
        Ok(t) => Ok(t),
        Err(m) => match later {
            Ok(t) => Ok(t),
            Err(_) => Err(m),
        },
    }
}

/// Tries one more pattern on `text`, unless an earlier one has succeeded.
fn try_next(best: Result<Timestamp, String>, text: &str, format: &str) -> (r: Result<
    Timestamp,
    String,
>)
    ensures
        outcome_of(r) == preferred(outcome_of(best), strptime(text@, format@)),
{
    if best.is_ok() {
        best
    } else {
        let later = parse_with_format(text, format);
        prefer(best, later)
    }
}

/// Normalises a timestamp written in one of the five recognised patterns,
/// which are tried in their order.
pub fn parse_datetime(s: &str) -> (r: Result<Timestamp, InvalidTimestamp>)
    ensures
        match normalized(s@) {
            Ok(t) => r == Ok::<Timestamp, InvalidTimestamp>(t),
            Err(reason) => r is Err && r->Err_0.reason@ == reason,
        },
{
    let best = parse_with_format(s, FORMAT_ISO_FRACTION);
    let best = try_next(best, s, FORMAT_ISO_ZULU);
    let best = try_next(best, s, FORMAT_SQL);
    let best = try_next(best, s, FORMAT_LONG_DAY_FIRST);
    let best = try_next(best, s, FORMAT_LONG_MONTH_FIRST);
    match best {
        Ok(t) => Ok(t),
        Err(reason) => Err(InvalidTimestamp { reason }),
    }
}

} // verus!
