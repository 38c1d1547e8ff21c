use chrono::{DateTime, NaiveDate, NaiveDateTime};
use litforge_notes::datetime::{
    core_data_to_naive_datetime, parse_datetime, prefer, Timestamp, CORE_DATA_EPOCH_OFFSET,
    EARLIEST_SECOND, FORMAT_ISO_FRACTION, LATEST_SECOND,
};

fn at(secs: i64) -> Timestamp {
    Timestamp { secs, nanos: 0 }
}

fn naive(t: Timestamp) -> NaiveDateTime {
    DateTime::from_timestamp(t.secs, t.nanos).unwrap().naive_utc()
}

#[test]
fn iso_with_fraction_is_recognised() {
    assert_eq!(parse_datetime("2020-11-22T10:11:42.000").unwrap(), at(1_606_039_902));
}

#[test]
fn iso_with_fraction_keeps_the_milliseconds() {
    assert_eq!(
        parse_datetime("2020-11-22T10:11:42.250").unwrap(),
        Timestamp { secs: 1_606_039_902, nanos: 250_000_000 }
    );
}

#[test]
fn iso_with_zulu_is_recognised() {
    assert_eq!(parse_datetime("2020-11-22T10:11:42Z").unwrap(), at(1_606_039_902));
}

#[test]
fn sql_form_is_recognised() {
    assert_eq!(parse_datetime("2020-11-22 10:11:42").unwrap(), at(1_606_039_902));
}

#[test]
fn long_form_with_day_first_is_recognised() {
    assert_eq!(parse_datetime("Saturday, 26 March 2016 14:59:39").unwrap(), at(1_459_004_379));
}

#[test]
fn long_form_with_month_first_is_recognised() {
    assert_eq!(parse_datetime("Saturday, March 26, 2016, 02:59 PM").unwrap(), at(1_459_004_340));
}

#[test]
fn every_encoding_of_one_instant_gives_one_value() {
    let expected = at(1_459_004_340);
    assert_eq!(parse_datetime("2016-03-26T14:59:00.000").unwrap(), expected);
    assert_eq!(parse_datetime("2016-03-26T14:59:00Z").unwrap(), expected);
    assert_eq!(parse_datetime("2016-03-26 14:59:00").unwrap(), expected);
    assert_eq!(parse_datetime("Saturday, 26 March 2016 14:59:00").unwrap(), expected);
    assert_eq!(parse_datetime("Saturday, March 26, 2016, 02:59 PM").unwrap(), expected);
    assert_eq!(
        core_data_to_naive_datetime(1_459_004_340 - CORE_DATA_EPOCH_OFFSET, 0),
        Some(expected)
    );
    assert_eq!(
        naive(expected),
        NaiveDate::from_ymd_opt(2016, 3, 26).unwrap().and_hms_opt(14, 59, 0).unwrap()
    );
}

#[test]
fn parsed_value_is_what_chrono_parses() {
    let text = "2012-12-24T20:06:50.000";
    let expected = NaiveDateTime::parse_from_str(text, FORMAT_ISO_FRACTION).unwrap();
    assert_eq!(naive(parse_datetime(text).unwrap()), expected);
    assert_eq!(parse_datetime(text).unwrap(), at(1_356_379_610));
}

#[test]
fn unknown_text_fails_with_the_reason_of_the_first_pattern() {
    let failure = parse_datetime("yesterday").unwrap_err();
    let expected = NaiveDateTime::parse_from_str("yesterday", FORMAT_ISO_FRACTION).unwrap_err();
    assert_eq!(failure.reason, expected.to_string());
    assert_eq!(failure.reason, "input contains invalid characters");
}

#[test]
fn empty_text_fails() {
    assert_eq!(parse_datetime("").unwrap_err().reason, "premature end of input");
}

#[test]
fn date_without_time_fails() {
    assert!(parse_datetime("2020-11-22").is_err());
}

#[test]
fn impossible_day_fails() {
    assert!(parse_datetime("2021-02-30 10:00:00").is_err());
}

#[test]
fn weekday_that_contradicts_the_date_fails() {
    assert!(parse_datetime("Monday, 26 March 2016 14:59:39").is_err());
}

#[test]
fn prefer_keeps_the_first_success() {
    assert_eq!(prefer(Ok(at(1)), Ok(at(2))), Ok(at(1)));
    assert_eq!(prefer(Ok(at(1)), Err("later".to_string())), Ok(at(1)));
}

#[test]
fn prefer_takes_a_later_success_over_a_failure() {
    assert_eq!(prefer(Err("first".to_string()), Ok(at(2))), Ok(at(2)));
}

#[test]
fn prefer_keeps_the_first_failure() {
    assert_eq!(
        prefer(Err("first".to_string()), Err("later".to_string())),
        Err("first".to_string())
    );
}

#[test]
fn core_data_zero_is_the_first_second_of_2001() {
    let t = core_data_to_naive_datetime(0, 0).unwrap();
    assert_eq!(t, at(978_307_200));
    assert_eq!(
        naive(t),
        NaiveDate::from_ymd_opt(2001, 1, 1).unwrap().and_hms_opt(0, 0, 0).unwrap()
    );
}

#[test]
fn core_data_offset_is_added_to_the_seconds() {
    assert_eq!(core_data_to_naive_datetime(357_350_400, 0), Some(at(1_335_657_600)));
    assert_eq!(
        naive(at(1_335_657_600)),
        NaiveDate::from_ymd_opt(2012, 4, 29).unwrap().and_hms_opt(0, 0, 0).unwrap()
    );
    assert_eq!(
        core_data_to_naive_datetime(978_307_200, 0),
        Some(at(978_307_200 + 978_307_200))
    );
}

#[test]
fn core_data_before_its_epoch_is_before_2001() {
    assert_eq!(core_data_to_naive_datetime(-978_307_200, 0), Some(at(0)));
    assert_eq!(
        core_data_to_naive_datetime(-1, 500_000_000),
        Some(Timestamp { secs: 978_307_199, nanos: 500_000_000 })
    );
}

#[test]
fn core_data_keeps_the_nanoseconds() {
    assert_eq!(
        core_data_to_naive_datetime(10, 123_456_789),
        Some(Timestamp { secs: 978_307_210, nanos: 123_456_789 })
    );
}

#[test]
fn core_data_beyond_the_calendar_is_nothing() {
    assert_eq!(core_data_to_naive_datetime(i64::MAX, 0), None);
    assert_eq!(core_data_to_naive_datetime(i64::MIN, 0), None);
    assert_eq!(core_data_to_naive_datetime(i64::MAX - CORE_DATA_EPOCH_OFFSET, 0), None);
}

#[test]
fn the_calendar_ends_where_chrono_ends() {
    let last = LATEST_SECOND - CORE_DATA_EPOCH_OFFSET;
    assert_eq!(core_data_to_naive_datetime(last, 0), Some(at(LATEST_SECOND)));
    assert_eq!(core_data_to_naive_datetime(last, 999_999_999).map(|t| t.secs), Some(LATEST_SECOND));
    assert_eq!(core_data_to_naive_datetime(last + 1, 0), None);
    assert!(DateTime::from_timestamp(LATEST_SECOND, 0).is_some());
    assert!(DateTime::from_timestamp(LATEST_SECOND + 1, 0).is_none());
    assert_eq!(
        naive(Timestamp { secs: LATEST_SECOND, nanos: 999_999_999 }),
        NaiveDateTime::MAX
    );
}

#[test]
fn the_calendar_begins_where_chrono_begins() {
    let first = EARLIEST_SECOND - CORE_DATA_EPOCH_OFFSET;
    assert_eq!(core_data_to_naive_datetime(first, 0), Some(at(EARLIEST_SECOND)));
    assert_eq!(core_data_to_naive_datetime(first - 1, 0), None);
    assert!(DateTime::from_timestamp(EARLIEST_SECOND, 0).is_some());
    assert!(DateTime::from_timestamp(EARLIEST_SECOND - 1, 0).is_none());
    assert_eq!(naive(at(EARLIEST_SECOND)), NaiveDateTime::MIN);
}

#[test]
fn nanoseconds_of_a_second_or_more_need_a_leap_second() {
    assert_eq!(core_data_to_naive_datetime(0, 1_000_000_000), None);
    assert_eq!(core_data_to_naive_datetime(0, 2_000_000_000), None);
    assert_eq!(
        core_data_to_naive_datetime(59, 1_000_000_000),
        Some(Timestamp { secs: 978_307_259, nanos: 1_000_000_000 })
    );
    assert_eq!(
        core_data_to_naive_datetime(59, 1_999_999_999),
        Some(Timestamp { secs: 978_307_259, nanos: 1_999_999_999 })
    );
    assert_eq!(core_data_to_naive_datetime(59, 2_000_000_000), None);
    assert_eq!(
        core_data_to_naive_datetime(-1, 1_500_000_000),
        Some(Timestamp { secs: 978_307_199, nanos: 1_500_000_000 })
    );
    assert_eq!(core_data_to_naive_datetime(58, 1_000_000_000), None);
}

#[test]
fn validity_agrees_with_chrono_on_a_grid() {
    let seconds = [
        i64::MIN / 2,
        EARLIEST_SECOND - 60,
        EARLIEST_SECOND,
        -86_401,
        -61,
        -1,
        0,
        59,
        60,
        119,
        1_606_039_902,
        LATEST_SECOND - 59,
        LATEST_SECOND,
        LATEST_SECOND + 60,
    ];
    let nanos = [0u32, 1, 999_999_999, 1_000_000_000, 1_999_999_999, 2_000_000_000, u32::MAX];
    for s in seconds {
        for n in nanos {
            let expected = DateTime::from_timestamp(s, n)
                .map(|d| Timestamp { secs: d.timestamp(), nanos: d.timestamp_subsec_nanos() });
            let got = match s.checked_sub(CORE_DATA_EPOCH_OFFSET) {
                Some(core) => core_data_to_naive_datetime(core, n),
                None => None,
            };
            assert_eq!(got, expected, "seconds {} nanoseconds {}", s, n);
            if let Some(t) = got {
                assert_eq!(t, Timestamp { secs: s, nanos: n });
            }
        }
    }
}

#[test]
fn leap_second_in_a_text_is_kept() {
    assert_eq!(
        parse_datetime("2015-06-30 23:59:60").unwrap(),
        Timestamp { secs: 1_435_708_799, nanos: 1_000_000_000 }
    );
}
