use paris_logger::clock::{Timestamp, format_timestamp};
use paris_logger::text::{dec_u32, dec2_u32, dec_usize, split_lines, join_lines};

fn ts() -> Timestamp {
    Timestamp { year: 2024, month: 1, day: 5, hour: 3, minute: 4, second: 5 }
}

#[test]
fn timestamp_padded_renders_fixed_reading() {
    assert_eq!(format_timestamp(&ts(), true), "[2024-01-05 03:04:05]");
}

#[test]
fn timestamp_unpadded_renders_fixed_reading() {
    assert_eq!(format_timestamp(&ts(), false), "[2024-1-5 3:4:5]");
}

#[test]
fn timestamp_keeps_true_month() {
    let t = Timestamp { year: 2023, month: 12, day: 31, hour: 23, minute: 59, second: 59 };
    assert_eq!(format_timestamp(&t, true), "[2023-12-31 23:59:59]");
    let t2 = Timestamp { year: 2024, month: 11, day: 2, hour: 10, minute: 20, second: 30 };
    assert_eq!(format_timestamp(&t2, false), "[2024-11-2 10:20:30]");
}

#[test]
fn timestamp_negative_year() {
    let t = Timestamp { year: -44, month: 3, day: 15, hour: 12, minute: 0, second: 0 };
    assert_eq!(format_timestamp(&t, true), "[-44-03-15 12:00:00]");
}

#[test]
fn decimal_rendering() {
    assert_eq!(dec_u32(0), "0");
    assert_eq!(dec_u32(7), "7");
    assert_eq!(dec_u32(12345), "12345");
    assert_eq!(dec_u32(4294967295), "4294967295");
    assert_eq!(dec_usize(1000001), "1000001");
    assert_eq!(dec2_u32(0), "00");
    assert_eq!(dec2_u32(9), "09");
    assert_eq!(dec2_u32(10), "10");
    assert_eq!(dec2_u32(123), "123");
}

#[test]
fn split_cuts_at_newlines() {
    assert_eq!(split_lines("a\nb"), vec!["a", "b"]);
    assert_eq!(split_lines(""), vec![""]);
    assert_eq!(split_lines("a\n"), vec!["a", ""]);
    assert_eq!(split_lines("\n"), vec!["", ""]);
    assert_eq!(split_lines("one"), vec!["one"]);
    assert_eq!(split_lines("a\nb\nc"), vec!["a", "b", "c"]);
}

#[test]
fn join_inserts_newlines_between_lines() {
    let lines: Vec<String> = vec!["a".to_string(), "b".to_string(), "c".to_string()];
    assert_eq!(join_lines(&lines), "a\nb\nc");
    let one: Vec<String> = vec!["only".to_string()];
    assert_eq!(join_lines(&one), "only");
    let none: Vec<String> = Vec::new();
    assert_eq!(join_lines(&none), "");
}

#[test]
fn split_then_join_restores_text() {
    let text = "alpha\n\nbeta\n";
    assert_eq!(join_lines(&split_lines(text)), text);
}
