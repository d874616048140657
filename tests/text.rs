use hyper_traq::text::{bool_str, i64_text, join, u64_text};
use hyper_traq::Uuid;

#[test]
fn decimal_text() {
    assert_eq!(u64_text(0), "0");
    assert_eq!(u64_text(7), "7");
    assert_eq!(u64_text(10), "10");
    assert_eq!(u64_text(1203), "1203");
    assert_eq!(u64_text(u64::MAX), "18446744073709551615");
    assert_eq!(i64_text(0), "0");
    assert_eq!(i64_text(-1), "-1");
    assert_eq!(i64_text(-90), "-90");
    assert_eq!(i64_text(i64::MIN), "-9223372036854775808");
}

#[test]
fn bool_literals() {
    assert_eq!(bool_str(true), "true");
    assert_eq!(bool_str(false), "false");
}

#[test]
fn join_with_separator() {
    assert_eq!(join(&vec![], "&"), "");
    assert_eq!(join(&vec!["a=1".to_string()], "&"), "a=1");
    assert_eq!(
        join(&vec!["a=1".to_string(), "".to_string(), "c=3".to_string()], "&"),
        "a=1&&c=3"
    );
}

#[test]
fn uuid_text() {
    let id = Uuid::from_u128(0xa1a2a3a4b1b2c1c2d1d2d3d4d5d6d7d8);
    assert_eq!(id.hyphenated(), "a1a2a3a4-b1b2-c1c2-d1d2-d3d4d5d6d7d8");
    assert_eq!(id.as_u128(), 0xa1a2a3a4b1b2c1c2d1d2d3d4d5d6d7d8);
    assert_eq!(Uuid::from_u128(0).hyphenated(), "00000000-0000-0000-0000-000000000000");
}
