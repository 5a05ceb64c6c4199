use fccli::error::{SanitizedCause, SanitizedMessage};
use fccli::model::{is_spot_index_token, Timeframe};
use fccli::saturate::{difference, product, sum};
use fccli::text::{
    chars_of, i64_text, matches_text, parse_i64, parse_u64, same_text, to_lower, u64_text,
};

#[test]
fn numerals_read_back() {
    for number in [0, 7, 10, 999, 1_000_000, u64::MAX] {
        assert_eq!(u64_text(number), number.to_string());
        assert_eq!(parse_u64(&u64_text(number)), Some(number));
    }
    for number in [0, -1, 42, i64::MAX, i64::MIN] {
        assert_eq!(i64_text(number), number.to_string());
        assert_eq!(parse_i64(&i64_text(number)), Some(number));
    }
}

#[test]
fn only_numerals_are_numbers() {
    assert_eq!(parse_u64(""), None);
    assert_eq!(parse_u64("+1"), None);
    assert_eq!(parse_u64("1 "), None);
    assert_eq!(parse_u64("18446744073709551616"), None);
    assert_eq!(parse_u64("007"), Some(7));
    assert_eq!(parse_i64("+5"), Some(5));
    assert_eq!(parse_i64("-"), None);
    assert_eq!(parse_i64("+"), None);
    assert_eq!(parse_i64("9223372036854775808"), None);
    assert_eq!(parse_i64("-9223372036854775809"), None);
    assert_eq!(parse_i64("1.5"), None);
}

#[test]
fn texts_compare_by_their_characters() {
    assert!(same_text("a/β", "a/β"));
    assert!(!same_text("a", "ab"));
    assert!(!same_text("ab", "aB"));
    assert!(matches_text(&Some("x".to_owned()), "x"));
    assert!(!matches_text(&Some("x".to_owned()), "y"));
    assert!(!matches_text(&None, "x"));
    assert_eq!(chars_of("aβ"), ['a', 'β']);
    assert_eq!(to_lower("BTCUSDT1k"), "btcusdt1k");
}

#[test]
fn spot_indices_are_an_at_sign_and_digits() {
    assert!(is_spot_index_token("@142"));
    assert!(!is_spot_index_token("@"));
    assert!(!is_spot_index_token("142"));
    assert!(!is_spot_index_token("@1a"));
    assert!(!is_spot_index_token(""));
}

#[test]
fn arithmetic_stops_at_the_ends() {
    assert_eq!(sum(i64::MAX, 1), i64::MAX);
    assert_eq!(sum(-3, 5), 2);
    assert_eq!(difference(i64::MIN, 1), i64::MIN);
    assert_eq!(difference(3, 5), -2);
    assert_eq!(product(i64::MAX, 2), i64::MAX);
    assert_eq!(product(i64::MAX, -2), i64::MIN);
    assert_eq!(product(-4, 5), -20);
}

#[test]
fn words_are_kept_as_they_come() {
    assert_eq!(Timeframe::Month1.as_str(), "1M");
    assert_eq!(Timeframe::Minute1.as_str(), "1m");
    assert_eq!(SanitizedCause::Other.as_str(), "other failure");
    assert_eq!(
        SanitizedMessage::new("no such coin"),
        SanitizedMessage::Provided("no such coin".to_owned())
    );
}
