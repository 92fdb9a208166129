use tuxsplit::defaults::{DEFAULT_TIME_FORMAT, format_duration, format_duration_opt};
use tuxsplit::render::{format_time_span, format_time_span_opt};

#[test]
fn utils_test_format_basic() {
    let t = 3_145;
    assert_eq!(format_time_span(t, "s"), "3");
    assert_eq!(format_time_span(t, "s.d"), "3.1");
    assert_eq!(format_time_span(t, "s.dd"), "3.14");
    assert_eq!(format_time_span(t, "s.ddd"), "3.145");
}

#[test]
fn utils_test_minutes_seconds() {
    let t = 125_340;
    assert_eq!(format_time_span(t, "m:s"), "2:05");
    assert_eq!(format_time_span(t, "m:s.dd"), "2:05.34");
}

#[test]
fn utils_test_hours_minutes_seconds() {
    let t = 3_845_999;
    assert_eq!(format_time_span(t, "h:m:s"), "1:04:05");
    assert_eq!(format_time_span(t, "h:m:s.ddd"), "1:04:05.999");
}

#[test]
fn utils_test_negative() {
    let t = -61_230;
    assert_eq!(format_time_span(t, "m:s.dd"), "1:01.23");
}

#[test]
fn utils_test_option() {
    assert_eq!(format_time_span_opt(None, DEFAULT_TIME_FORMAT), "--");
    let t = 10_000;
    assert_eq!(format_time_span_opt(Some(t), "m:s"), "10");
}

#[test]
fn utils_test_format_duration_basic() {
    let d = 3_145;
    assert_eq!(format_duration(d), "3.14");
}

#[test]
fn utils_test_format_duration_min_sec() {
    let d = 125_340;
    assert_eq!(format_duration(d), "2:05.34");
}

#[test]
fn utils_test_format_duration_hours() {
    let d = 3_845_999;
    assert_eq!(format_duration(d), "1:04:05.99");
}

#[test]
fn utils_test_format_duration_negative() {
    let d = -61_230;
    assert_eq!(format_duration(d), "1:01.23");
}

#[test]
fn utils_test_format_duration_option() {
    assert_eq!(format_duration_opt(None), "--");
    let d = 10_000;
    assert_eq!(format_duration_opt(Some(d)), "10.00");
}
