use watcher::log::log_line;
use watcher::outcome::{ProbeOutcome, Status};
use watcher::text::{decimal, signed_decimal};

#[test]
fn log_record_columns() {
    let o = ProbeOutcome::new(1_700_000_000, 123_000_000, Status::Http(200));
    let line = log_line(&o, "https://example.com/");
    let expected = format!(" 1700000000, 200,    123, https://example.com/{}", " ".repeat(30));
    assert_eq!(line, expected);
}

#[test]
fn log_record_transport_failure() {
    let o = ProbeOutcome::new(5, 10_000_000_000, Status::TransportFailure);
    let line = log_line(&o, "https://a.test/down");
    assert_eq!(line, format!("          5,  -1,  10000, https://a.test/down{}", " ".repeat(31)));
}

#[test]
fn log_record_cuts_long_url() {
    let url = format!("https://a.test/{}", "x".repeat(60));
    let o = ProbeOutcome::new(1_700_000_000, 0, Status::Http(404));
    let line = log_line(&o, &url);
    assert_eq!(line, format!(" 1700000000, 404,      0, {}", &url[..50]));
}

#[test]
fn log_record_counts_characters_not_bytes() {
    let url = "https://ddr0.ca/\u{2682}/";
    let o = ProbeOutcome::new(1, 1_000_000, Status::Http(200));
    let line = log_line(&o, url);
    assert_eq!(line.chars().count(), 11 + 2 + 3 + 2 + 6 + 2 + 50);
    assert!(line.ends_with(&format!("{}{}", url, " ".repeat(50 - 18))));
}

#[test]
fn log_record_wide_values_are_not_cut() {
    let o = ProbeOutcome::new(123_456_789_012, 1_234_567 * 1_000_000, Status::Http(200));
    let line = log_line(&o, "https://a.test/");
    assert!(line.starts_with("123456789012, 200, 1234567, https://a.test/"));
}

#[test]
fn decimal_rendering() {
    assert_eq!(decimal(0), "0");
    assert_eq!(decimal(7), "7");
    assert_eq!(decimal(10), "10");
    assert_eq!(decimal(u64::MAX), u64::MAX.to_string());
    assert_eq!(signed_decimal(-1), "-1");
    assert_eq!(signed_decimal(0), "0");
    assert_eq!(signed_decimal(i64::MIN), i64::MIN.to_string());
    assert_eq!(signed_decimal(i64::MAX), i64::MAX.to_string());
}
