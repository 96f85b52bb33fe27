use traderd::strutil::fmt_u64;
use traderd::supervisor::{join_comma, missing_tables_message, tick_payload, Heartbeat};

#[test]
fn formats_decimals_exactly() {
    assert_eq!(fmt_u64(0), "0");
    assert_eq!(fmt_u64(7), "7");
    assert_eq!(fmt_u64(10), "10");
    assert_eq!(fmt_u64(409), "409");
    assert_eq!(fmt_u64(1000000), "1000000");
    assert_eq!(fmt_u64(u64::MAX), "18446744073709551615");
}

#[test]
fn tick_payload_is_one_json_object() {
    assert_eq!(tick_payload(1), "{\"tick\":1}");
    assert_eq!(tick_payload(0), "{\"tick\":0}");
    assert_eq!(tick_payload(123456), "{\"tick\":123456}");
}

#[test]
fn heartbeat_ticks_count_up_from_one() {
    let mut hb = Heartbeat::new();
    assert_eq!(hb.tick, 0);
    assert_eq!(hb.next(), "{\"tick\":1}");
    assert_eq!(hb.next(), "{\"tick\":2}");
    assert_eq!(hb.next(), "{\"tick\":3}");
    assert_eq!(hb.tick, 3);
}

#[test]
fn schema_warning_lists_missing_tables() {
    let missing = vec!["raw_events".to_string(), "incidents".to_string()];
    assert_eq!(
        missing_tables_message(&missing),
        "sqlite missing required tables: raw_events, incidents"
    );
    assert_eq!(
        missing_tables_message(&vec!["runs".to_string()]),
        "sqlite missing required tables: runs"
    );
}

#[test]
fn joins_names_with_comma_and_space() {
    assert_eq!(join_comma(&Vec::new()), "");
    assert_eq!(join_comma(&vec!["a".to_string()]), "a");
    assert_eq!(
        join_comma(&vec!["a".to_string(), "b".to_string(), "c".to_string()]),
        "a, b, c"
    );
}
