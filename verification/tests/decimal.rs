use sysfs_led::decimal::{decimal_string, parse_u32};
use sysfs_led::errors::Error;

#[test]
fn test_parse_u32_accepts_plain_decimals() {
    assert_eq!(0, parse_u32("0").unwrap());
    assert_eq!(128, parse_u32("128").unwrap());
    assert_eq!(255, parse_u32("255").unwrap());
    assert_eq!(7, parse_u32("007").unwrap());
    assert_eq!(4_294_967_295, parse_u32("4294967295").unwrap());
}

#[test]
fn test_parse_u32_rejects_non_numbers() {
    assert!(matches!(parse_u32(""), Err(Error::Parse(_))));
    assert!(matches!(parse_u32("12x"), Err(Error::Parse(_))));
    assert!(matches!(parse_u32("-1"), Err(Error::Parse(_))));
    assert!(matches!(parse_u32("+1"), Err(Error::Parse(_))));
    assert!(matches!(parse_u32(" 1"), Err(Error::Parse(_))));
    assert!(matches!(parse_u32("4294967296"), Err(Error::Parse(_))));
    assert!(matches!(parse_u32("99999999999999999999"), Err(Error::Parse(_))));
}

#[test]
fn test_parse_error_carries_the_text() {
    match parse_u32("blinken") {
        Err(Error::Parse(text)) => assert_eq!("blinken", text),
        other => panic!("expected parse failure, got {:?}", other),
    }
}

#[test]
fn test_decimal_string_round_trip() {
    assert_eq!("0", decimal_string(0));
    assert_eq!("9", decimal_string(9));
    assert_eq!("10", decimal_string(10));
    assert_eq!("128", decimal_string(128));
    assert_eq!("4294967295", decimal_string(4_294_967_295));
    for n in [0u32, 1, 42, 99, 100, 101, 65535, 1_000_000] {
        assert_eq!(Ok(n), parse_u32(&decimal_string(n as u64)));
    }
}

#[test]
fn test_error_messages_name_their_kind() {
    assert_eq!(
        "parse failure: zz",
        Error::Parse(String::from("zz")).message()
    );
    assert_eq!(
        "invalid device path: /dev/led9",
        Error::InvalidDevicePath(String::from("/dev/led9")).message()
    );
    assert_eq!(
        "trigger unsupported: timer",
        Error::UnsupportedTrigger(String::from("timer")).message()
    );
    assert_eq!("i/o failure: gone", Error::Io(String::from("gone")).message());
}
