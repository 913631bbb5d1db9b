use ynsrvcs::exception::error::BotError;
use ynsrvcs::http::outcome;
use ynsrvcs::text::{joined, decimal_text, parse_u64, same, split, starts_with};

#[test]
fn numbers_are_written_in_base_ten() {
    assert_eq!(decimal_text(0), "0");
    assert_eq!(decimal_text(9), "9");
    assert_eq!(decimal_text(10), "10");
    assert_eq!(decimal_text(18446744073709551615), "18446744073709551615");
}

#[test]
fn numbers_are_read_back() {
    assert_eq!(parse_u64(decimal_text(1234567890).as_str()), Some(1234567890));
    assert_eq!(parse_u64("0007"), Some(7));
    assert_eq!(parse_u64("+7"), Some(7));
    assert_eq!(parse_u64("18446744073709551615"), Some(18446744073709551615));
}

#[test]
fn what_is_no_number_is_refused() {
    assert_eq!(parse_u64(""), None);
    assert_eq!(parse_u64("+"), None);
    assert_eq!(parse_u64("-1"), None);
    assert_eq!(parse_u64("1 "), None);
    assert_eq!(parse_u64("1.0"), None);
    assert_eq!(parse_u64("++1"), None);
    assert_eq!(parse_u64("18446744073709551616"), None);
    assert_eq!(parse_u64("99999999999999999999999999"), None);
}

#[test]
fn parsing_agrees_with_the_standard_library() {
    for s in ["0", "+0", "12x", "x12", "", "+", "007", "4294967296", "18446744073709551616"] {
        assert_eq!(parse_u64(s), s.parse::<u64>().ok());
    }
}

#[test]
fn a_text_is_split_at_every_separator() {
    assert_eq!(split("a,b", ','), vec!["a", "b"]);
    assert_eq!(split("", ','), vec![""]);
    assert_eq!(split(",", ','), vec!["", ""]);
    assert_eq!(split("a,,b,", ','), vec!["a", "", "b", ""]);
    assert_eq!(split("a,,b,", ',').join(","), "a,,b,");
}

#[test]
fn texts_are_compared_and_joined() {
    assert!(same("a", "a"));
    assert!(!same("a", "A"));
    assert!(starts_with("abc", "ab"));
    assert!(starts_with("abc", ""));
    assert!(!starts_with("ab", "abc"));
    assert_eq!(joined("a", "b"), "ab");
}

#[test]
fn errors_name_their_part() {
    assert_eq!(BotError::Config("x".to_string()).fmt(), "Config error: x");
    assert_eq!(BotError::Wasm("x".to_string()).fmt(), "Wasm error: x");
    assert_eq!(BotError::Discord("x".to_string()).fmt(), "Discord error: x");
    assert_eq!(BotError::Other("x".to_string()).fmt(), "x");
}

#[test]
fn a_text_becomes_an_error() {
    assert!(matches!(BotError::from("x".to_string()), BotError::Other(s) if s == "x"));
}

#[test]
fn a_foreign_error_becomes_an_error() {
    let e = BotError::from(anyhow::Error::msg("out of cheese"));
    assert!(matches!(e, BotError::Other(s) if s == "out of cheese"));
}

#[test]
fn an_outcome_follows_the_status() {
    assert_eq!(outcome("call", 200, ""), Ok(()));
    assert_eq!(outcome("call", 204, "ignored"), Ok(()));
    assert_eq!(outcome("call", 299, ""), Ok(()));
    assert_eq!(outcome("call", 199, "a"), Err("call failed (199): a".to_string()));
    assert_eq!(outcome("call", 300, "a"), Err("call failed (300): a".to_string()));
    assert_eq!(outcome("call", 404, "no"), Err("call failed (404): no".to_string()));
}
