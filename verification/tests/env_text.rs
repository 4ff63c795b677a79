use modkit::datetime::TimeDiff;
use modkit::env_config::{parse_bool, parse_i64, EnvReader};
use modkit::text::u64_to_string;

#[test]
fn parse_bool_accepts_the_documented_forms() {
    for s in ["true", "TRUE", "True", "1", "yes", "YES", "on", "On"] {
        assert_eq!(parse_bool(s), Some(true), "{}", s);
    }
    for s in ["false", "FALSE", "0", "no", "No", "off", "OFF"] {
        assert_eq!(parse_bool(s), Some(false), "{}", s);
    }
    for s in ["", "2", "truee", "y", "maybe"] {
        assert_eq!(parse_bool(s), None, "{}", s);
    }
}

#[test]
fn parse_i64_handles_signs_zeros_and_limits() {
    assert_eq!(parse_i64("0"), Some(0));
    assert_eq!(parse_i64("42"), Some(42));
    assert_eq!(parse_i64("+42"), Some(42));
    assert_eq!(parse_i64("-42"), Some(-42));
    assert_eq!(parse_i64("00042"), Some(42));
    assert_eq!(parse_i64("-0000"), Some(0));
    assert_eq!(parse_i64("9223372036854775807"), Some(i64::MAX));
    assert_eq!(parse_i64("-9223372036854775808"), Some(i64::MIN));
    assert_eq!(parse_i64("9223372036854775808"), None);
    assert_eq!(parse_i64("-9223372036854775809"), None);
    assert_eq!(parse_i64("999999999999999999999999"), None);
    assert_eq!(parse_i64(""), None);
    assert_eq!(parse_i64("-"), None);
    assert_eq!(parse_i64("+"), None);
    assert_eq!(parse_i64("12a"), None);
    assert_eq!(parse_i64(" 12"), None);
    assert_eq!(parse_i64("1_2"), None);
}

fn reader() -> EnvReader {
    EnvReader::new().prefix("APP_").vars(vec![
        ("APP_NAME".to_string(), "demo".to_string()),
        ("APP_PORT".to_string(), "8080".to_string()),
        ("APP_DEBUG".to_string(), "Yes".to_string()),
        ("APP_RATE".to_string(), "not a number".to_string()),
        ("OTHER".to_string(), "hidden".to_string()),
    ])
}

#[test]
fn env_reader_reads_with_prefix() {
    let env = reader();
    assert_eq!(env.get("NAME"), Some("demo".to_string()));
    assert_eq!(env.get("OTHER"), None, "unprefixed keys are not visible");
    assert_eq!(env.get("MISSING"), None);
    assert!(env.has_key("PORT"));
    assert!(!env.has_key("MISSING"));
}

#[test]
fn env_reader_parses_and_defaults() {
    let env = reader();
    assert_eq!(env.get_int("PORT"), Some(8080));
    assert_eq!(env.get_int("NAME"), None);
    assert_eq!(env.get_int_or("PORT", 1), 8080);
    assert_eq!(env.get_int_or("MISSING", 7), 7);
    assert_eq!(env.get_int_or("RATE", 7), 7);
    assert_eq!(env.get_bool("DEBUG"), Some(true));
    assert_eq!(env.get_bool_or("MISSING", false), false);
    assert_eq!(env.get_or("NAME", "fallback"), "demo");
    assert_eq!(env.get_or("MISSING", "fallback"), "fallback");
    assert_eq!(env.require("NAME"), Ok("demo".to_string()));
    assert_eq!(env.require("MISSING"), Err("环境变量 APP_MISSING 未设置".to_string()));
}

#[test]
fn env_reader_takes_the_first_match() {
    let env = EnvReader::new().vars(vec![
        ("KEY".to_string(), "first".to_string()),
        ("KEY".to_string(), "second".to_string()),
    ]);
    assert_eq!(env.get("KEY"), Some("first".to_string()));
}

#[test]
fn decimal_rendering() {
    assert_eq!(u64_to_string(0), "0");
    assert_eq!(u64_to_string(7), "7");
    assert_eq!(u64_to_string(120034), "120034");
    assert_eq!(u64_to_string(u64::MAX), "18446744073709551615");
}

#[test]
fn time_diff_splits_units() {
    let d = TimeDiff::from_seconds(2 * 86400 + 3 * 3600 + 4 * 60 + 5);
    assert_eq!(d.days(), 2);
    assert_eq!(d.hours(), 3);
    assert_eq!(d.minutes(), 4);
    assert_eq!(d.seconds(), 5);
    assert_eq!(d.total_hours(), 51);
    assert_eq!(d.total_minutes(), 51 * 60 + 4);
}

#[test]
fn time_diff_negative_truncates_toward_zero() {
    let d = TimeDiff::from_seconds(-90061);
    assert_eq!(d.days(), -1);
    assert_eq!(d.hours(), -1);
    assert_eq!(d.minutes(), -1);
    assert_eq!(d.seconds(), -1);
    let edge = TimeDiff::from_seconds(i64::MIN);
    assert_eq!(edge.days(), i64::MIN / 86400);
}

#[test]
fn time_diff_humanize_picks_units() {
    assert_eq!(TimeDiff::from_seconds(45).humanize(), "45秒");
    assert_eq!(TimeDiff::from_seconds(5 * 60 + 9).humanize(), "5分钟9秒");
    assert_eq!(TimeDiff::from_seconds(2 * 3600 + 10 * 60).humanize(), "2小时10分钟");
    assert_eq!(TimeDiff::from_seconds(86400 + 3600 + 60).humanize(), "1天1小时1分钟");
}
