use pizza_freak::error::{Failure, ParseError};
use pizza_freak::phone::PhoneNumber;

fn parse(raw: &str) -> PhoneNumber {
    PhoneNumber::try_parse(raw).unwrap()
}

fn why(raw: &str) -> ParseError {
    match PhoneNumber::try_parse(raw) {
        Err(Failure::Parse(e)) => e,
        other => panic!("expected a parse error, got {:?}", other),
    }
}

#[test]
fn ten_digits_parse() {
    let p = parse("5551234567");
    assert_eq!(p.dashes_string(), "555-123-4567");
    assert_eq!(p.to_string(), "5551234567");
}

#[test]
fn dashed_and_undashed_give_the_same_number() {
    assert_eq!(parse("555-123-4567"), parse("5551234567"));
    assert!(parse("555-123-4567").same_as(&parse("5551234567")));
}

#[test]
fn dots_separate_too() {
    assert_eq!(parse("555.123.4567"), parse("5551234567"));
    assert_eq!(parse("555.123-4567"), parse("5551234567"));
}

#[test]
fn one_separator_after_the_area_code() {
    assert_eq!(parse("555-1234567"), parse("5551234567"));
}

#[test]
fn nine_characters_are_too_short() {
    assert_eq!(why("555123456"), ParseError::TooShort { found: 9 });
}

#[test]
fn six_characters_are_too_short() {
    assert!(PhoneNumber::try_parse("555-12").is_err());
    assert_eq!(why("555-12"), ParseError::TooShort { found: 6 });
}

#[test]
fn empty_text_is_too_short() {
    assert_eq!(why(""), ParseError::TooShort { found: 0 });
}

#[test]
fn separator_after_area_code_needs_eleven() {
    assert_eq!(why("555-123456"), ParseError::ShortAfterAreaCode);
    assert_eq!(why("555.123456"), ParseError::ShortAfterAreaCode);
}

#[test]
fn separator_after_prefix_needs_twelve() {
    assert_eq!(why("555-123-456"), ParseError::ShortAfterPrefix);
    assert_eq!(why("555123-4567"), ParseError::ShortAfterPrefix);
    assert_eq!(why("555123.456"), ParseError::ShortAfterPrefix);
}

#[test]
fn what_follows_the_suffix_is_ignored() {
    assert_eq!(parse("555-123-4567 ext. 9"), parse("5551234567"));
    assert_eq!(parse("55512345678"), parse("5551234567"));
}

#[test]
fn characters_need_not_be_digits() {
    let p = parse("abc-def-ghij");
    assert_eq!(p.dashes_string(), "abc-def-ghij");
    assert_eq!(p.to_string(), "abcdefghij");
}

#[test]
fn characters_are_counted_not_bytes() {
    let p = parse("५५५१२३४५६७");
    assert_eq!(p.to_string(), "५५५१२३४५६७");
    assert_eq!(p.dashes_string(), "५५५-१२३-४५६७");
    assert_eq!(why("५५५१२३४५६"), ParseError::TooShort { found: 9 });
}

#[test]
fn different_numbers_differ() {
    assert!(!parse("5551234567").same_as(&parse("5551234568")));
    assert_ne!(parse("5551234567"), parse("5551234568"));
}

#[test]
fn clone_is_the_same_number() {
    let p = parse("555-123-4567");
    let q = p.clone();
    assert!(p.same_as(&q));
    assert_eq!(p, q);
}

#[test]
fn error_messages() {
    assert_eq!(
        why("555123456").message(),
        "Phone numbers must be at least 10 digits found 9"
    );
    assert_eq!(
        ParseError::TooShort { found: 0 }.message(),
        "Phone numbers must be at least 10 digits found 0"
    );
    assert_eq!(
        ParseError::TooShort { found: 1207 }.message(),
        "Phone numbers must be at least 10 digits found 1207"
    );
    assert_eq!(
        ParseError::ShortAfterAreaCode.message(),
        "Phone number not long enough after area code"
    );
    assert_eq!(
        ParseError::ShortAfterPrefix.message(),
        "Phone number not long enough after prefix"
    );
    assert_eq!(
        Failure::Parse(ParseError::ShortAfterPrefix).message(),
        "Phone number not long enough after prefix"
    );
}

#[test]
fn a_parse_error_becomes_a_failure() {
    let failure = Failure::from(ParseError::ShortAfterAreaCode);
    assert!(matches!(failure, Failure::Parse(ParseError::ShortAfterAreaCode)));
}
