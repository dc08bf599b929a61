use panopticonbot::config::{ConfigError, Settings};
use panopticonbot::decimal::{parse_i32, parse_i64, push_decimal, render_decimal, split_field};
use panopticonbot::errors::Error;
use panopticonbot::models::MappingChat;

#[test]
fn new_keeps_the_four_values() {
    let m = MappingChat::new(11, 22, 33, 44);
    assert_eq!(m.sender_chat, 11);
    assert_eq!(m.recipient_chat, 22);
    assert_eq!(m.last_private, 33);
    assert_eq!(m.last_topic, 44);
}

#[test]
fn sync_moves_the_cursors_only() {
    let mut m = MappingChat::new(11, 22, 33, 44);
    m.sync(50, 60);
    assert_eq!(m, MappingChat::new(11, 22, 50, 60));
}

#[test]
fn unique_id_is_the_smaller_endpoint() {
    assert_eq!(MappingChat::new(7, 3, 0, 0).unique_id(), 3);
    assert_eq!(MappingChat::new(3, 7, 0, 0).unique_id(), 3);
    assert_eq!(MappingChat::new(5, 5, 0, 0).unique_id(), 5);
    assert_eq!(MappingChat::new(-9, 4, 0, 0).unique_id(), -9);
    assert_eq!(MappingChat::new(i64::MAX, i64::MIN, 0, 0).unique_id(), i64::MIN);
}

#[test]
fn both_views_share_the_unique_id() {
    let m = MappingChat::new(42, 1000, 1, 2);
    assert_eq!(m.unique_id(), m.mirrored().unique_id());
    assert_eq!(m.mirrored().mirrored(), m);
    assert_eq!(m.mirrored(), MappingChat::new(1000, 42, 1, 2));
}

#[test]
fn seen_from_resolves_relative_to_the_asked_side() {
    let m = MappingChat::new(1, 2, 3, 4);
    assert_eq!(m.seen_from(1), m);
    assert_eq!(m.seen_from(2), MappingChat::new(2, 1, 3, 4));
    assert_eq!(m.seen_from(9), m);
    assert!(m.touches(1));
    assert!(m.touches(2));
    assert!(!m.touches(3));
}

#[test]
fn tuple_conversions_round_trip() {
    let m = MappingChat::from((1i64, 2i64, 3i32, 4i32));
    assert_eq!(m, MappingChat::new(1, 2, 3, 4));
    let t: (i64, i64, i32, i32) = m.into();
    assert_eq!(t, (1, 2, 3, 4));
}

#[test]
fn render_decimal_exact_values() {
    assert_eq!(render_decimal(0), "0");
    assert_eq!(render_decimal(7), "7");
    assert_eq!(render_decimal(10), "10");
    assert_eq!(render_decimal(-1), "-1");
    assert_eq!(render_decimal(1234567890), "1234567890");
    assert_eq!(render_decimal(i64::MAX), "9223372036854775807");
    assert_eq!(render_decimal(i64::MIN), "-9223372036854775808");
}

#[test]
fn render_decimal_agrees_with_the_standard_text() {
    for v in [0i64, 1, -1, 9, 10, 99, 100, -100, 4096, -4097, i64::MAX, i64::MIN, i64::MIN + 1] {
        assert_eq!(render_decimal(v), v.to_string());
    }
}

#[test]
fn push_decimal_appends() {
    let mut s = String::from("id=");
    push_decimal(&mut s, -305);
    assert_eq!(s, "id=-305");
}

#[test]
fn parse_i64_accepts_signs_and_leading_zeros() {
    assert_eq!(parse_i64("0"), Some(0));
    assert_eq!(parse_i64("-0"), Some(0));
    assert_eq!(parse_i64("+5"), Some(5));
    assert_eq!(parse_i64("-5"), Some(-5));
    assert_eq!(parse_i64("007"), Some(7));
    assert_eq!(parse_i64("9223372036854775807"), Some(i64::MAX));
    assert_eq!(parse_i64("-9223372036854775808"), Some(i64::MIN));
}

#[test]
fn parse_i64_rejects_what_is_no_integer() {
    assert_eq!(parse_i64(""), None);
    assert_eq!(parse_i64("-"), None);
    assert_eq!(parse_i64("+"), None);
    assert_eq!(parse_i64("--1"), None);
    assert_eq!(parse_i64("1 "), None);
    assert_eq!(parse_i64(" 1"), None);
    assert_eq!(parse_i64("12a"), None);
    assert_eq!(parse_i64("1:2"), None);
    assert_eq!(parse_i64("٣"), None);
    assert_eq!(parse_i64("9223372036854775808"), None);
    assert_eq!(parse_i64("-9223372036854775809"), None);
    assert_eq!(parse_i64("99999999999999999999999999999999999999999999"), None);
}

#[test]
fn parse_agrees_with_the_standard_parser() {
    for text in ["0", "-0", "+0", "12", "-12", "+12", "", "-", "+", "1-", "0x10", "2147483648",
        "-2147483649", "9223372036854775808", "00000000000000000000001"] {
        assert_eq!(parse_i64(text), text.parse::<i64>().ok());
        assert_eq!(parse_i32(text), text.parse::<i32>().ok());
    }
}

#[test]
fn parse_i32_checks_the_range() {
    assert_eq!(parse_i32("2147483647"), Some(i32::MAX));
    assert_eq!(parse_i32("-2147483648"), Some(i32::MIN));
    assert_eq!(parse_i32("2147483648"), None);
    assert_eq!(parse_i32("-2147483649"), None);
}

#[test]
fn parse_reads_back_what_render_wrote() {
    for v in [0i64, 5, -5, 1000, i64::MAX, i64::MIN] {
        assert_eq!(parse_i64(&render_decimal(v)), Some(v));
    }
}

#[test]
fn split_field_at_the_first_colon() {
    assert_eq!(split_field("12:34:56"), ("12", Some("34:56")));
    assert_eq!(split_field("12"), ("12", None));
    assert_eq!(split_field(""), ("", None));
    assert_eq!(split_field(":"), ("", Some("")));
    assert_eq!(split_field("a:"), ("a", Some("")));
    assert_eq!(split_field(":b"), ("", Some("b")));
}

#[test]
fn error_messages_name_the_failure() {
    assert_eq!(Error::Sqlite.message(), "the durable store failed");
    assert_eq!(Error::Redis.message(), "the cache failed");
    assert_eq!(Error::ParseInt.message(), "invalid digit found in string");
}

fn settings(url: Option<&str>, listener: Option<&str>) -> Settings {
    Settings {
        bot_token: String::from("token"),
        forum_id: -100,
        sqlite_path: String::from("db.sqlite"),
        redis_url: String::from("redis://127.0.0.1/"),
        webhook_url: url.map(String::from),
        webhook_listener: listener.map(String::from),
    }
}

#[test]
fn settings_with_a_webhook_need_a_listener() {
    let r = settings(Some("https://example.org/hook"), None).validate();
    match r {
        Err(ConfigError::Invalid(why)) => assert_eq!(
            why,
            "WEBHOOK_URL is set, but the address that the bot will listen to (WEBHOOK_LISTENER) is not"
        ),
        Ok(_) => panic!("a webhook without a listener was accepted"),
    }
}

#[test]
fn settings_without_a_webhook_are_valid() {
    assert!(settings(None, None).validate().is_ok());
    assert!(settings(None, Some("0.0.0.0:8080")).validate().is_ok());
    let r = settings(Some("https://example.org/hook"), Some("0.0.0.0:8080")).validate();
    assert_eq!(r.unwrap().webhook_listener.as_deref(), Some("0.0.0.0:8080"));
}
