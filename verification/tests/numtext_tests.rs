use hue_cli::decimal::usize_to_decimal;
use hue_cli::numtext::check_json_number;

#[test]
fn integers_are_json_numbers() {
    assert!(check_json_number("0"));
    assert!(check_json_number("7"));
    assert!(check_json_number("10"));
    assert!(check_json_number("-0"));
    assert!(check_json_number("-250"));
}

#[test]
fn fractions_and_exponents_are_json_numbers() {
    assert!(check_json_number("0.5"));
    assert!(check_json_number("-0.25"));
    assert!(check_json_number("3.14159"));
    assert!(check_json_number("1e5"));
    assert!(check_json_number("1e+5"));
    assert!(check_json_number("1E-5"));
    assert!(check_json_number("2.5e-10"));
}

#[test]
fn leading_zeros_are_rejected() {
    assert!(!check_json_number("01"));
    assert!(!check_json_number("-01.5"));
    assert!(check_json_number("0.1"));
}

#[test]
fn incomplete_numbers_are_rejected() {
    assert!(!check_json_number(""));
    assert!(!check_json_number("-"));
    assert!(!check_json_number("1."));
    assert!(!check_json_number(".5"));
    assert!(!check_json_number("1e"));
    assert!(!check_json_number("1e+"));
    assert!(!check_json_number("1.e5"));
}

#[test]
fn non_numbers_are_rejected() {
    assert!(!check_json_number("+1"));
    assert!(!check_json_number("1.5.2"));
    assert!(!check_json_number("NaN"));
    assert!(!check_json_number("inf"));
    assert!(!check_json_number("0x10"));
    assert!(!check_json_number("1 "));
    assert!(!check_json_number(" 1"));
}

#[test]
fn decimal_rendering_is_exact() {
    assert_eq!(usize_to_decimal(0), "0");
    assert_eq!(usize_to_decimal(7), "7");
    assert_eq!(usize_to_decimal(10), "10");
    assert_eq!(usize_to_decimal(12345), "12345");
    assert_eq!(usize_to_decimal(usize::MAX), usize::MAX.to_string());
}
