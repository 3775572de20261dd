use spot_gitlab_driver::number::{parse_i32, parse_u64, IntError};

#[test]
fn unsigned_numbers() {
    assert_eq!(parse_u64("0"), Ok(0));
    assert_eq!(parse_u64("3600"), Ok(3600));
    assert_eq!(parse_u64("+42"), Ok(42));
    assert_eq!(parse_u64("007"), Ok(7));
    assert_eq!(parse_u64("18446744073709551615"), Ok(u64::MAX));
}

#[test]
fn unsigned_faults() {
    assert_eq!(parse_u64(""), Err(IntError::Empty));
    assert_eq!(parse_u64("+"), Err(IntError::InvalidDigit));
    assert_eq!(parse_u64("-"), Err(IntError::InvalidDigit));
    assert_eq!(parse_u64("-1"), Err(IntError::InvalidDigit));
    assert_eq!(parse_u64(" 1"), Err(IntError::InvalidDigit));
    assert_eq!(parse_u64("1h"), Err(IntError::InvalidDigit));
    assert_eq!(parse_u64("1_000"), Err(IntError::InvalidDigit));
    assert_eq!(parse_u64("++1"), Err(IntError::InvalidDigit));
    assert_eq!(parse_u64("18446744073709551616"), Err(IntError::PosOverflow));
    assert_eq!(parse_u64("99999999999999999999x"), Err(IntError::PosOverflow));
    assert_eq!(parse_u64("9999999999999999999x"), Err(IntError::InvalidDigit));
    assert_eq!(parse_u64("\u{661}"), Err(IntError::InvalidDigit));
}

#[test]
fn signed_numbers() {
    assert_eq!(parse_i32("1"), Ok(1));
    assert_eq!(parse_i32("+17"), Ok(17));
    assert_eq!(parse_i32("-17"), Ok(-17));
    assert_eq!(parse_i32("-0"), Ok(0));
    assert_eq!(parse_i32("2147483647"), Ok(i32::MAX));
    assert_eq!(parse_i32("-2147483648"), Ok(i32::MIN));
}

#[test]
fn signed_faults() {
    assert_eq!(parse_i32(""), Err(IntError::Empty));
    assert_eq!(parse_i32("-"), Err(IntError::InvalidDigit));
    assert_eq!(parse_i32("+"), Err(IntError::InvalidDigit));
    assert_eq!(parse_i32("--1"), Err(IntError::InvalidDigit));
    assert_eq!(parse_i32("one"), Err(IntError::InvalidDigit));
    assert_eq!(parse_i32("2147483648"), Err(IntError::PosOverflow));
    assert_eq!(parse_i32("-2147483649"), Err(IntError::NegOverflow));
}

/// The same texts, read by the standard library.
#[test]
fn numbers_are_read_as_the_standard_library_reads_them() {
    let texts = [
        "", "+", "-", "0", "+0", "-0", "12", "+12", "-12", "1-", "1+", "x", "1x", "é", "2147483647",
        "2147483648", "-2147483648", "-2147483649", "18446744073709551615", "18446744073709551616",
        "99999999999999999999x", "9999999999999999999x", "+18446744073709551616",
    ];
    for text in texts {
        let unsigned = text.parse::<u64>().map_err(|e| e.kind().clone());
        let signed = text.parse::<i32>().map_err(|e| e.kind().clone());
        assert_eq!(format!("{:?}", parse_u64(text)), format!("{:?}", unsigned), "{}", text);
        assert_eq!(
            parse_i32(text).map_err(|e| e.message()),
            text.parse::<i32>().map_err(|e| e.to_string())
        );
        assert_eq!(format!("{:?}", parse_i32(text)), format!("{:?}", signed), "{}", text);
    }
}

#[test]
fn faults_in_words() {
    assert_eq!(IntError::Empty.message(), "cannot parse integer from empty string");
    assert_eq!(IntError::InvalidDigit.message(), "invalid digit found in string");
    assert_eq!(IntError::PosOverflow.message(), "number too large to fit in target type");
    assert_eq!(IntError::NegOverflow.message(), "number too small to fit in target type");
}
