use openai_resources::error::ErrorKind;
use openai_resources::ids::{encode_path_id, path_id, validate_path_id, validate_trimmed_path_id};
use openai_resources::text::{is_blank, parse_u64, trim, u64_to_string, ParseIntErrorKind};

#[test]
fn blank_detection() {
    assert!(is_blank(""));
    assert!(is_blank(" \t\n"));
    assert!(!is_blank(" a "));
}

#[test]
fn trim_both_ends() {
    assert_eq!(trim("  run_1 \n"), "run_1");
    assert_eq!(trim(""), "");
}

#[test]
fn decimal_rendering() {
    assert_eq!(u64_to_string(0), "0");
    assert_eq!(u64_to_string(1800000), "1800000");
    assert_eq!(u64_to_string(u64::MAX), "18446744073709551615");
}

#[test]
fn parse_u64_results() {
    assert_eq!(parse_u64("250"), Ok(250));
    assert_eq!(parse_u64(""), Err(ParseIntErrorKind::Empty));
    assert_eq!(parse_u64("12a"), Err(ParseIntErrorKind::InvalidDigit));
    assert_eq!(parse_u64("18446744073709551616"), Err(ParseIntErrorKind::PosOverflow));
}

#[test]
fn blank_ids_are_refused_with_label() {
    let err = validate_path_id("thread_id", "   ").unwrap_err();
    assert_eq!(err.kind, ErrorKind::Validation);
    assert_eq!(err.message, "thread_id cannot be blank");
    assert_eq!(validate_path_id("thread_id", " t1 ").unwrap(), " t1 ");
    assert_eq!(validate_trimmed_path_id("model_id", " gpt-x ").unwrap(), "gpt-x");
}

#[test]
fn path_ids_are_percent_encoded() {
    assert_eq!(encode_path_id("file-abc"), "file-abc");
    assert_eq!(encode_path_id("a b/c?d"), "a%20b%2Fc%3Fd");
    assert_eq!(encode_path_id("x:y@z"), "x:y@z");
    assert_eq!(path_id("file_id", "é").unwrap(), "%C3%A9");
}
