use gritea::decimal::{i64_to_decimal, u64_to_decimal};

#[test]
fn unsigned_decimal() {
    assert_eq!(u64_to_decimal(0), "0");
    assert_eq!(u64_to_decimal(9), "9");
    assert_eq!(u64_to_decimal(10), "10");
    assert_eq!(u64_to_decimal(404), "404");
    assert_eq!(u64_to_decimal(u64::MAX), "18446744073709551615");
}

#[test]
fn signed_decimal() {
    assert_eq!(i64_to_decimal(-1), "-1");
    assert_eq!(i64_to_decimal(-120), "-120");
    assert_eq!(i64_to_decimal(i64::MIN), "-9223372036854775808");
}
