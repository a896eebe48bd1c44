use ledger_envelope::dec::u64_to_dec;
use ledger_envelope::error::ApiError;
use ledger_envelope::error::ErrorKind;

#[test]
fn zero_renders_as_one_digit() {
    assert_eq!(u64_to_dec(0), "0");
}

#[test]
fn single_digits_render_without_padding() {
    assert_eq!(u64_to_dec(7), "7");
}

#[test]
fn multi_digit_values_render_most_significant_first() {
    assert_eq!(u64_to_dec(999999), "999999");
    assert_eq!(u64_to_dec(1000), "1000");
}

#[test]
fn largest_value_renders_exactly() {
    assert_eq!(u64_to_dec(u64::MAX), "18446744073709551615");
}

#[test]
fn api_error_keeps_its_parts() {
    let err = ApiError::new(ErrorKind::Timeout, 504, "too late".to_string());
    assert_eq!(err.kind, ErrorKind::Timeout);
    assert_eq!(err.status_code, 504);
    assert_eq!(err.message, "too late");
}
