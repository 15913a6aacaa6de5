use lambda_telemetry::numeric::{check_numeric_text, parse_i32, parse_u64};

#[test]
fn parse_u64_reads_digit_strings_exactly() {
    assert_eq!(parse_u64("0"), Some(0));
    assert_eq!(parse_u64("42"), Some(42));
    assert_eq!(parse_u64("007"), Some(7));
    assert_eq!(parse_u64("18446744073709551615"), Some(u64::MAX));
}

#[test]
fn parse_u64_accepts_a_leading_plus() {
    assert_eq!(parse_u64("+1"), Some(1));
    assert_eq!(parse_u64("+0"), Some(0));
    assert_eq!(parse_u64("+18446744073709551615"), Some(u64::MAX));
}

#[test]
fn parse_u64_rejects_minus_blanks_and_overflow() {
    assert_eq!(parse_u64(""), None);
    assert_eq!(parse_u64("-1"), None);
    assert_eq!(parse_u64("+"), None);
    assert_eq!(parse_u64("++1"), None);
    assert_eq!(parse_u64("1 "), None);
    assert_eq!(parse_u64("4a"), None);
    assert_eq!(parse_u64("18446744073709551616"), None);
    assert_eq!(parse_u64("99999999999999999999999"), None);
}

#[test]
fn parse_i32_covers_the_exact_range() {
    assert_eq!(parse_i32("0"), Some(0));
    assert_eq!(parse_i32("-0"), Some(0));
    assert_eq!(parse_i32("+42"), Some(42));
    assert_eq!(parse_i32("2147483647"), Some(i32::MAX));
    assert_eq!(parse_i32("-2147483648"), Some(i32::MIN));
    assert_eq!(parse_i32("2147483648"), None);
    assert_eq!(parse_i32("-2147483649"), None);
    assert_eq!(parse_i32("--1"), None);
    assert_eq!(parse_i32("+-1"), None);
    assert_eq!(parse_i32("-"), None);
    assert_eq!(parse_i32("+"), None);
}

#[test]
fn numeric_text_matches_the_float_parse_accept_set() {
    for good in [
        "0",
        "21.5",
        "-3.25",
        "+3.25",
        "007",
        "-0.0",
        "123456789.000001",
        "5.",
        ".5",
        "-.5",
        "+.5",
        "1e5",
        "1E5",
        "2.5E-3",
        "1e+300",
        "5.e3",
        ".5e2",
        "inf",
        "+inf",
        "-inf",
        "Infinity",
        "INFINITY",
        "NaN",
        "nan",
        "-NAN",
    ] {
        assert!(check_numeric_text(good), "{:?} should be numeric", good);
    }
    for bad in [
        "",
        "-",
        "+",
        ".",
        "-.",
        "e5",
        "5e",
        "5e+",
        "5e-",
        "1e5.5",
        "2.3.4",
        "1,5",
        " 1",
        "1 ",
        "++1",
        "+-1",
        "infinityx",
        "in",
        "na",
        "n an",
        "0x10",
    ] {
        assert!(!check_numeric_text(bad), "{:?} should not be numeric", bad);
    }
}
