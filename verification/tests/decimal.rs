use workshop_transfer::decimal::{
    chars_of, decimal_string, parse_digits, signed_decimal_string, DigitsError,
};

#[test]
fn decimal_string_of_single_digits() {
    assert_eq!(decimal_string(0), "0");
    assert_eq!(decimal_string(7), "7");
    assert_eq!(decimal_string(9), "9");
}

#[test]
fn decimal_string_of_longer_numbers() {
    assert_eq!(decimal_string(10), "10");
    assert_eq!(decimal_string(403), "403");
    assert_eq!(decimal_string(123456789), "123456789");
    assert_eq!(decimal_string(1000000), "1000000");
}

#[test]
fn decimal_string_of_the_largest_number() {
    assert_eq!(decimal_string(u128::MAX), "340282366920938463463374607431768211455");
}

#[test]
fn signed_decimal_string_of_both_signs() {
    assert_eq!(signed_decimal_string(0), "0");
    assert_eq!(signed_decimal_string(2669101904), "2669101904");
    assert_eq!(signed_decimal_string(-1), "-1");
    assert_eq!(signed_decimal_string(-294100), "-294100");
}

#[test]
fn signed_decimal_string_at_the_limits() {
    assert_eq!(signed_decimal_string(i64::MAX), "9223372036854775807");
    assert_eq!(signed_decimal_string(i64::MIN), "-9223372036854775808");
}

#[test]
fn chars_of_keeps_every_character() {
    assert_eq!(chars_of(""), Vec::<char>::new());
    assert_eq!(chars_of("a1"), vec!['a', '1']);
    assert_eq!(chars_of("né€"), vec!['n', 'é', '€']);
}

#[test]
fn parse_digits_reads_a_number() {
    assert_eq!(parse_digits("123456789", u64::MAX), Ok(123456789));
    assert_eq!(parse_digits("0", u64::MAX), Ok(0));
    assert_eq!(parse_digits("007", u64::MAX), Ok(7));
}

#[test]
fn parse_digits_refuses_no_characters() {
    assert_eq!(parse_digits("", u64::MAX), Err(DigitsError::Empty));
    assert_eq!(parse_digits("", 0), Err(DigitsError::Empty));
}

#[test]
fn parse_digits_refuses_other_characters() {
    assert_eq!(parse_digits("12a", u64::MAX), Err(DigitsError::NotDigit));
    assert_eq!(parse_digits("-5", u64::MAX), Err(DigitsError::NotDigit));
    assert_eq!(parse_digits("+5", u64::MAX), Err(DigitsError::NotDigit));
    assert_eq!(parse_digits("1 2", u64::MAX), Err(DigitsError::NotDigit));
    assert_eq!(parse_digits("١", u64::MAX), Err(DigitsError::NotDigit));
}

#[test]
fn parse_digits_keeps_to_the_bound() {
    assert_eq!(parse_digits("255", 255), Ok(255));
    assert_eq!(parse_digits("256", 255), Err(DigitsError::TooLarge));
    assert_eq!(parse_digits("0", 0), Ok(0));
    assert_eq!(parse_digits("1", 0), Err(DigitsError::TooLarge));
    assert_eq!(
        parse_digits("18446744073709551615", u64::MAX),
        Ok(u64::MAX)
    );
    assert_eq!(
        parse_digits("18446744073709551616", u64::MAX),
        Err(DigitsError::TooLarge)
    );
    assert_eq!(
        parse_digits("99999999999999999999999999", u64::MAX),
        Err(DigitsError::TooLarge)
    );
}

#[test]
fn parse_digits_names_a_stray_character_before_the_size() {
    assert_eq!(
        parse_digits("99999999999999999999999999x", u64::MAX),
        Err(DigitsError::NotDigit)
    );
}
