use helix_agent::numbers::{decimal_string, parse_i64, zero_padded};
use helix_agent::timestamp::{now_ts, timestamp_text};

#[test]
fn decimal_text() {
    assert_eq!(decimal_string(0), "0");
    assert_eq!(decimal_string(7), "7");
    assert_eq!(decimal_string(1234567890), "1234567890");
    assert_eq!(decimal_string(u128::MAX), u128::MAX.to_string());
}

#[test]
fn zero_padding() {
    assert_eq!(zero_padded(42, 5), "00042");
    assert_eq!(zero_padded(123456, 3), "123456");
    assert_eq!(zero_padded(0, 0), "0");
}

#[test]
fn timestamp_is_fifteen_digits() {
    assert_eq!(timestamp_text(42), "000000000000042");
    assert_eq!(timestamp_text(1_700_000_000_000), "001700000000000");
    assert_eq!(timestamp_text(1_700_000_000_000), format!("{:015}", 1_700_000_000_000u128));
}

#[test]
fn timestamps_sort_as_text() {
    let a = timestamp_text(999);
    let b = timestamp_text(1000);
    assert!(a < b);
    let c = timestamp_text(1_699_999_999_999);
    let d = timestamp_text(1_700_000_000_000);
    assert!(c < d);
}

#[test]
fn now_timestamp_shape() {
    let ts = now_ts();
    assert_eq!(ts.len(), 15);
    assert!(ts.chars().all(|c| c.is_ascii_digit()));
    assert!(ts > timestamp_text(1_600_000_000_000));
}

#[test]
fn parse_i64_like_std() {
    let cases = [
        "0", "42", "+42", "-42", "007", "", "-", "+", "12a", " 1", "1 ",
        "9223372036854775807", "9223372036854775808", "-9223372036854775808",
        "-9223372036854775809", "99999999999999999999999", "--1", "+-1", "١٢",
    ];
    for c in cases {
        assert_eq!(parse_i64(c), c.parse::<i64>().ok(), "input {c:?}");
    }
}

#[test]
fn decimal_reads_back() {
    for n in [0i64, 1, 9, 10, 12345, i64::MAX] {
        assert_eq!(parse_i64(&decimal_string(n as u128)), Some(n));
    }
}
