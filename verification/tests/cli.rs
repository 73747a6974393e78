use yclip::cli::{connect_command, duration_from_millis, log_level, LogLevel, ParseMillisError};

#[test]
fn milliseconds() {
    assert_eq!(duration_from_millis("0"), Ok(0));
    assert_eq!(duration_from_millis("200"), Ok(200));
    assert_eq!(duration_from_millis("+10000"), Ok(10000));
    assert_eq!(duration_from_millis("007"), Ok(7));
    assert_eq!(duration_from_millis("18446744073709551615"), Ok(u64::MAX));
    assert_eq!(duration_from_millis("000018446744073709551615"), Ok(u64::MAX));
}

#[test]
fn no_milliseconds() {
    assert_eq!(duration_from_millis(""), Err(ParseMillisError::Empty));
    for text in ["+", "-", "-1", "++1", "1 ", " 1", "1ms", "1.5", "é", "٣"] {
        assert_eq!(duration_from_millis(text), Err(ParseMillisError::InvalidDigit));
    }
    assert_eq!(duration_from_millis("18446744073709551616"), Err(ParseMillisError::PosOverflow));
    assert_eq!(duration_from_millis("99999999999999999999x"), Err(ParseMillisError::PosOverflow));
    assert_eq!(duration_from_millis("9999x9999999999999999"), Err(ParseMillisError::InvalidDigit));
}

#[test]
fn milliseconds_are_those_of_std() {
    for text in [
        "", "+", "-", "+0", "12", "x", "1x", "18446744073709551615", "18446744073709551616",
        "184467440737095516150", "99999999999999999999x", "1844674407370955161x",
        "18446744073709551615x", "-0", "+-1",
    ] {
        match (text.parse::<u64>(), duration_from_millis(text)) {
            (Ok(a), Ok(b)) => assert_eq!(a, b),
            (Err(a), Err(b)) => assert_eq!(format!("{:?}", a.kind()), format!("{b:?}")),
            (a, b) => panic!("{text}: {a:?} and {b:?}"),
        }
    }
}

#[test]
fn verbosity() {
    assert_eq!(log_level(0), Some(LogLevel::Info));
    assert_eq!(log_level(1), Some(LogLevel::Debug));
    assert_eq!(log_level(2), Some(LogLevel::Trace));
    assert_eq!(log_level(3), None);
    assert_eq!(log_level(255), None);
}

#[test]
fn the_command_to_connect() {
    assert_eq!(connect_command("192.168.0.2", 40321, None), "yclip 192.168.0.2:40321");
    assert_eq!(connect_command("10.0.0.1", 0, Some("hunter2")), "yclip 10.0.0.1:0 -p hunter2");
    assert_eq!(connect_command("10.0.0.1", 65535, Some("")), "yclip 10.0.0.1:65535 -p ");
}
