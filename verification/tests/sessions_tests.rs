use ib_async_dx::sessions::{parse_sessions, read_stamp, session_stamps, CivilStamp, TradingSession};
use ib_async_dx::Error;

fn value_text(r: Result<Vec<TradingSession>, Error>) -> String {
    match r {
        Err(Error::Value(m)) => m,
        other => panic!("expected Err(Value), got {other:?}"),
    }
}

/// A contract's trading hours and, with 09:30 for 04:00 and 16:00 for
/// 20:00, its liquid hours, as `(trading, liquid)` sessions in `zone`.
fn trading(zone: &str, hours: &str) -> Result<Vec<TradingSession>, Error> {
    parse_sessions(hours, zone)
}

fn liquid(zone: &str, hours: &str) -> Result<Vec<TradingSession>, Error> {
    parse_sessions(&hours.replace("0400", "0930").replace("2000", "1600"), zone)
}

#[test]
fn sessions_in_zoned() {
    let hours = "20240721:CLOSED;20240722:0400-20240722:2000;\
                 20240723:0400-20240723:2000";
    let s = trading("US/Eastern", hours).unwrap();
    assert_eq!(s.len(), 2);
    assert_eq!(s[0].start.time_zone().iana_name(), Some("US/Eastern"));
    assert_eq!(
        s[0].start.to_string(),
        "2024-07-22T04:00:00-04:00[US/Eastern]"
    );
    assert_eq!(s[0].end.timestamp().as_second(), 1721692800);
    assert_eq!(
        s[1].end.to_string(),
        "2024-07-23T20:00:00-04:00[US/Eastern]"
    );
    let l = liquid("US/Eastern", hours).unwrap();
    assert_eq!(
        l[0].start.to_string(),
        "2024-07-22T09:30:00-04:00[US/Eastern]"
    );

    // Empty entries are skipped, as is anything naming CLOSED.
    let s = trading("America/New_York", ";20240722:0400-20240722:2000;;x CLOSED y").unwrap();
    assert_eq!(s.len(), 1);

    // A wall time in the spring gap names the instant Python's fold=0
    // does: 1710055800, 07:30 UTC.
    let s = trading("America/New_York", "20240310:0230-20240310:0300").unwrap();
    assert_eq!(s[0].start.timestamp().as_second(), 1710055800);
    // In the repeated hour, the first occurrence.
    let s = trading("America/New_York", "20241103:0130-20241103:0200").unwrap();
    assert_eq!(s[0].start.offset().seconds(), -4 * 3600);

    // The short forms CPython's strptime accepts.
    let s = trading("UTC", "2024722:400-2024111:0400").unwrap();
    assert_eq!(s[0].start.to_string(), "2024-07-22T04:00:00+00:00[UTC]");
    assert_eq!(s[0].end.to_string(), "2024-11-01T04:00:00+00:00[UTC]");
    let s = trading("UTC", "20240722: 400-20240722:04").unwrap();
    assert_eq!(s[0].start.to_string(), "2024-07-22T04:00:00+00:00[UTC]");
    assert_eq!(s[0].end.to_string(), "2024-07-22T00:04:00+00:00[UTC]");
}

#[test]
fn sessions_empty_and_errors() {
    // Nothing to read only when both the hours and the zone are empty.
    assert_eq!(trading("", "").unwrap(), Vec::new());
    assert_eq!(trading("UTC", "").unwrap(), Vec::new());
    value_text(trading("Bogus/Zone", ""));
    value_text(trading("", "20240722:0400-20240722:2000"));

    let err = |hours: &str| value_text(trading("UTC", hours));
    assert_eq!(
        err("20240722:0400x-20240722:2000"),
        "unconverted data remains: x"
    );
    assert_eq!(
        err("20240722:2400-20240722:2000"),
        "unconverted data remains: 0"
    );
    assert_eq!(
        err("2024-07-22"),
        "time data '2024' does not match format '%Y%m%d:%H%M'"
    );
    assert_eq!(
        err("20240230:0400-20240722:2000"),
        "day 30 must be in range 1..29 for month 2 in year 2024"
    );
    assert_eq!(
        err("00000722:0400-20240722:2000"),
        "year must be in 1..9999, not 0"
    );
    // A stamp fails before the pair is counted.
    assert_eq!(
        err("20240722:0400-bad-x"),
        "time data 'bad' does not match format '%Y%m%d:%H%M'"
    );
    assert_eq!(
        err("20240723:0930"),
        "TradingSession.__new__() missing 1 required positional argument: 'end'"
    );
    assert_eq!(
        err("20240722:0400-20240722:2000-20240722:2100"),
        "TradingSession.__new__() takes 3 positional arguments but 4 were given"
    );
    // A time the zone cannot represent.
    value_text(trading("Asia/Tokyo", "99991231:2359-99991231:2359"));
}

#[test]
fn the_hours_split_into_sessions_and_stamps() {
    let s = session_stamps("20240721:CLOSED;;a-b;c;d-e-f;");
    assert_eq!(
        s,
        vec![
            vec!["a".to_owned(), "b".to_owned()],
            vec!["c".to_owned()],
            vec!["d".to_owned(), "e".to_owned(), "f".to_owned()],
        ]
    );
    assert!(session_stamps("").is_empty());
    assert_eq!(session_stamps("-"), vec![vec![String::new(), String::new()]]);
}

#[test]
fn a_stamp_reads_as_pythons_strptime_reads_it() {
    let at = |year, month, day, hour, minute| CivilStamp { year, month, day, hour, minute };
    assert_eq!(read_stamp("20240722:0400").unwrap(), at(2024, 7, 22, 4, 0));
    assert_eq!(read_stamp("2024111:0400").unwrap(), at(2024, 11, 1, 4, 0));
    assert_eq!(read_stamp("202412 1:05").unwrap(), at(2024, 12, 1, 0, 5));
    assert!(read_stamp("202412 1:5").is_err());
    assert_eq!(read_stamp("20240229:2359").unwrap(), at(2024, 2, 29, 23, 59));
    assert!(matches!(read_stamp("20230229:0000"), Err(Error::Value(m))
        if m == "day 29 must be in range 1..28 for month 2 in year 2023"));
    assert!(matches!(read_stamp("19000229:0000"), Err(Error::Value(m))
        if m == "day 29 must be in range 1..28 for month 2 in year 1900"));
    assert!(matches!(read_stamp("20240431:0000"), Err(Error::Value(m))
        if m == "day 31 must be in range 1..30 for month 4 in year 2024"));
    assert!(matches!(read_stamp(""), Err(Error::Value(m))
        if m == "time data '' does not match format '%Y%m%d:%H%M'"));
}
