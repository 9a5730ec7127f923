use alfred_time::convert::{
    convert_to_date_time, ms_ts_to_date_time, sec_ts_to_date_time, str_to_date_time, ConvertError,
};
use alfred_time::instant::Instant;
use alfred_time::output::{alfred_time_workflow_output, Output};
use alfred_time::text::{digits_to_i64, is_date, is_number};
use alfred_time::workflow::{alfred_time_workflow, parse_args, sum, Args};

const DATE_TIME_STR: &str = "2022-10-04 13:24:54";
const DATE_STR: &str = "2022-10-04";
const MS_STR: &str = "1664861094000";
const SEC_STR: &str = "1664861094";

fn values(outputs: &[Output]) -> Vec<String> {
    outputs.iter().map(|o| o.value.clone()).collect()
}

fn titles(outputs: &[Output]) -> Vec<String> {
    outputs.iter().map(|o| o.title.clone()).collect()
}

fn shown(query: &str) -> Vec<String> {
    let outputs = alfred_time_workflow(Args { query: String::from(query) }).unwrap();
    values(&outputs)
}

#[test]
fn sum_test() {
    assert_eq!(sum(1, 2), 3);
}

#[test]
fn test() {
    let date_time = convert_to_date_time(&String::from(DATE_TIME_STR)).unwrap();
    let date_time_by_ms = convert_to_date_time(&String::from(MS_STR)).unwrap();
    let date_time_by_sec = convert_to_date_time(&String::from(SEC_STR)).unwrap();
    let date = convert_to_date_time(&String::from(DATE_STR)).unwrap();
    println!("date: {:?}", date);
    println!(
        "0: {}, 1: {}, 2:{}",
        date_time.secs, date_time_by_ms.secs, date_time_by_sec.secs
    );
    assert_eq!(date_time, date_time_by_ms);
    assert_eq!(date_time, date_time_by_sec);
    println!("date_time: {:?}", date_time);
    let date0 = convert_to_date_time(&String::from("1000")).unwrap();
    println!("date0: {:?}", date0);
}

#[test]
fn test_alfred() {
    assert!(alfred_time_workflow(Args { query: String::from(DATE_TIME_STR) }).is_ok());
    assert!(alfred_time_workflow(Args { query: String::from(MS_STR) }).is_ok());
    assert!(alfred_time_workflow(Args { query: String::from(SEC_STR) }).is_ok());
}

#[test]
fn ms_ts_to_date_time_test() {
    // 2022-10-04 13:24:54 1664861094 1664861094_000
    let ts = Instant { secs: 1664861094, nanos: 0 };
    let ms_c_time = ms_ts_to_date_time(&String::from(MS_STR));
    assert_eq!(ts, ms_c_time);
}

#[test]
fn str_to_date_time_test() {
    let d0 = str_to_date_time(&String::from("2022-10-04 13:24:54"));
    println!("d0: {:?}", d0);
    let d1 = str_to_date_time(&String::from("2022-10-04"));
    println!("d1: {:?}", d1);
    assert_eq!(d0, Ok(Instant { secs: 1664861094, nanos: 0 }));
    assert_eq!(d1, Ok(Instant { secs: 1664812800, nanos: 0 }));
}

#[test]
fn date_time_string_is_shown_in_both_zones() {
    let outputs = alfred_time_workflow(Args { query: String::from(DATE_TIME_STR) }).unwrap();
    assert_eq!(titles(&outputs), vec!["timestamp (milliseconds)", "UTC+8", "UTC"]);
    assert_eq!(
        values(&outputs),
        vec!["1664861094000", "2022-10-04 13:24:54", "2022-10-04 05:24:54"]
    );
}

#[test]
fn seconds_string_gives_the_same_millis() {
    assert_eq!(shown(SEC_STR)[0], "1664861094000");
}

#[test]
fn millis_string_is_sliced() {
    let i = ms_ts_to_date_time(&String::from("1664861094123"));
    assert_eq!(i, Instant { secs: 1664861094, nanos: 23 });
    assert_eq!(i.timestamp_millis(), 1664861094000);
    assert_eq!(
        shown("1664861094123"),
        vec!["1664861094000", "2022-10-04 13:24:54", "2022-10-04 05:24:54"]
    );
}

#[test]
fn empty_query_is_the_epoch() {
    assert_eq!(convert_to_date_time(&String::new()), Ok(Instant::epoch()));
    assert_eq!(shown(""), vec!["0", "1970-01-01 08:00:00", "1970-01-01 00:00:00"]);
}

#[test]
fn unparsable_date_falls_back_to_the_epoch() {
    assert_eq!(
        convert_to_date_time(&String::from("not-a-date")),
        Err(ConvertError::Unparsable)
    );
    assert_eq!(shown("not-a-date"), vec!["0", "1970-01-01 08:00:00", "1970-01-01 00:00:00"]);
}

#[test]
fn same_instant_three_ways() {
    let a = shown(DATE_TIME_STR);
    assert_eq!(a, shown(SEC_STR));
    assert_eq!(a, shown(MS_STR));
}

#[test]
fn date_is_midnight() {
    let a = convert_to_date_time(&String::from("2022-10-04")).unwrap();
    let b = convert_to_date_time(&String::from("2022-10-04 00:00:00")).unwrap();
    assert_eq!(a, b);
    assert_eq!(shown("2022-10-04"), shown("2022-10-04 00:00:00"));
    assert_eq!(shown("2022-10-04"), vec!["1664812800000", "2022-10-04 00:00:00", "2022-10-03 16:00:00"]);
}

#[test]
fn millis_round_trip() {
    let i = Instant { secs: 1664861094, nanos: 123_456_789 };
    let ms = i.timestamp_millis();
    assert_eq!(ms, 1664861094123);
    let j = Instant::from_timestamp_millis(ms).unwrap();
    assert_eq!(j, Instant { secs: 1664861094, nanos: 123_000_000 });
    assert_eq!(j.timestamp_millis(), ms);
    let a = alfred_time_workflow_output(&i).unwrap();
    let b = alfred_time_workflow_output(&j).unwrap();
    assert_eq!(values(&a), values(&b));
}

#[test]
fn negative_millis_round_down() {
    let j = Instant::from_timestamp_millis(-1).unwrap();
    assert_eq!(j, Instant { secs: -1, nanos: 999_000_000 });
    assert_eq!(j.timestamp_millis(), -1);
    let out = alfred_time_workflow_output(&j).unwrap();
    assert_eq!(values(&out), vec!["-1", "1970-01-01 07:59:59", "1969-12-31 23:59:59"]);
    assert_eq!(Instant::from_timestamp_millis(i128::MAX), None);
}

#[test]
fn other_digit_lengths_are_seconds() {
    assert_eq!(
        convert_to_date_time(&String::from("1000")),
        Ok(Instant { secs: 1000, nanos: 0 })
    );
    assert_eq!(
        convert_to_date_time(&String::from("123456789")),
        Ok(Instant { secs: 123456789, nanos: 0 })
    );
    assert_eq!(shown("1000"), vec!["1000000", "1970-01-01 08:16:40", "1970-01-01 00:16:40"]);
}

#[test]
fn too_long_timestamp_is_rejected() {
    let q = String::from("99999999999999999999");
    assert_eq!(convert_to_date_time(&q), Err(ConvertError::InvalidTimestamp));
    assert_eq!(sec_ts_to_date_time(&q), Err(ConvertError::InvalidTimestamp));
    assert!(matches!(
        alfred_time_workflow(Args { query: q }),
        Err(ConvertError::InvalidTimestamp)
    ));
    assert_eq!(
        sec_ts_to_date_time(&String::from("9223372036854775807")),
        Ok(Instant { secs: i64::MAX, nanos: 0 })
    );
}

#[test]
fn far_instant_is_out_of_range() {
    let q = String::from("9999999999999999");
    assert_eq!(
        convert_to_date_time(&q),
        Ok(Instant { secs: 9999999999999999, nanos: 0 })
    );
    assert!(matches!(
        alfred_time_workflow(Args { query: q }),
        Err(ConvertError::OutOfRange)
    ));
}

#[test]
fn classifies_strings() {
    assert!(is_number(&String::from("0123456789")));
    assert!(is_number(&String::new()));
    assert!(!is_number(&String::from("12a")));
    assert!(is_date(&String::from("2022-10-04")));
    assert!(!is_date(&String::from("2022-10-04 00:00:00")));
    assert!(!is_date(&String::from("20221004")));
}

#[test]
fn reads_digits() {
    assert_eq!(digits_to_i64("x0042y", 1, 5), Some(42));
    assert_eq!(digits_to_i64("", 0, 0), Some(0));
    assert_eq!(digits_to_i64("9223372036854775808", 0, 19), None);
}

#[test]
fn reads_the_query_argument() {
    let args = |v: &[&str]| v.iter().map(|s| s.to_string()).collect::<Vec<String>>();
    assert_eq!(parse_args(&args(&["prog", "-q", "2022-10-04"])).unwrap().query, "2022-10-04");
    assert_eq!(parse_args(&args(&["prog", "-q", "a", "-q", "b"])).unwrap().query, "b");
    assert_eq!(parse_args(&args(&["prog", "-x", "a"])).unwrap().query, "");
    assert_eq!(parse_args(&args(&[])).unwrap().query, "");
    assert!(parse_args(&args(&["prog", "-q"])).is_none());
}
