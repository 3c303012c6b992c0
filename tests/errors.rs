use pricer::cli::{ensure_not_expired, OptionType};
use pricer::result::{
    decimal_string, failed_to_create_gaussian_error, make_not_implemented_error, too_many_rf_err,
    PricerError,
};

#[test]
fn decimal_rendering() {
    assert_eq!(decimal_string(0), "0");
    assert_eq!(decimal_string(7), "7");
    assert_eq!(decimal_string(10), "10");
    assert_eq!(decimal_string(1234567890), "1234567890");
    assert_eq!(decimal_string(u64::MAX), "18446744073709551615");
}

#[test]
fn describe_error() {
    let e = PricerError::new(String::from("Something"), 42);
    assert_eq!(e.describe(), "Code: 42, Message: Something");
}

#[test]
fn not_implemented_error() {
    let e = make_not_implemented_error();
    assert_eq!(e.code, 999);
    assert_eq!(e.message, "Behaviour not implemented yet");
}

#[test]
fn gaussian_error() {
    let e = failed_to_create_gaussian_error();
    assert_eq!(e.code, 2);
}

#[test]
fn cardinality_error_text() {
    let e = too_many_rf_err(3);
    assert_eq!(e.code, 1);
    assert_eq!(e.message, "Provided 3 risk factors, when 1 was expected");
}

#[test]
fn parse_option_type() {
    assert_eq!(OptionType::parse("call").ok(), Some(OptionType::CALL));
    assert_eq!(OptionType::parse("put").ok(), Some(OptionType::PUT));
    let parsed: Result<OptionType, PricerError> = "put".parse();
    assert_eq!(parsed.ok(), Some(OptionType::PUT));
    let err = OptionType::parse("Call").err().unwrap();
    assert_eq!(err.code, 2);
    assert_eq!(err.message, "Tried to parse invalid type of option");
}

#[test]
fn expiry_check() {
    assert!(ensure_not_expired(100, 100).is_ok());
    assert!(ensure_not_expired(101, 100).is_ok());
    let err = ensure_not_expired(99, 100).err().unwrap();
    assert_eq!(err.code, 1);
    assert_eq!(err.message, "Attempted to price expired option");
}
