use gax::rpc::Duration;

#[test]
fn whole_seconds_parse() {
    assert_eq!(Duration::parse("30s"), Some(Duration { seconds: 30, nanos: 0 }));
    assert_eq!(Duration::parse("0s"), Some(Duration { seconds: 0, nanos: 0 }));
}

#[test]
fn fractional_seconds_scale_to_nanos() {
    assert_eq!(Duration::parse("1.5s"), Some(Duration { seconds: 1, nanos: 500000000 }));
    assert_eq!(Duration::parse("3.000000001s"), Some(Duration { seconds: 3, nanos: 1 }));
    assert_eq!(Duration::parse("2.25s"), Some(Duration { seconds: 2, nanos: 250000000 }));
}

#[test]
fn negative_durations_carry_sign_in_both_parts() {
    assert_eq!(Duration::parse("-1.5s"), Some(Duration { seconds: -1, nanos: -500000000 }));
    assert_eq!(Duration::parse("-0.5s"), Some(Duration { seconds: 0, nanos: -500000000 }));
    assert_eq!(Duration::parse("-7s"), Some(Duration { seconds: -7, nanos: 0 }));
}

#[test]
fn malformed_durations_are_rejected() {
    assert_eq!(Duration::parse(""), None);
    assert_eq!(Duration::parse("s"), None);
    assert_eq!(Duration::parse("1"), None);
    assert_eq!(Duration::parse("1.s"), None);
    assert_eq!(Duration::parse("1.0000000001s"), None);
    assert_eq!(Duration::parse("abc"), None);
    assert_eq!(Duration::parse("1.5sx"), None);
    assert_eq!(Duration::parse("--1s"), None);
}

#[test]
fn out_of_range_seconds_are_rejected() {
    assert_eq!(Duration::parse("315576000000s"), Some(Duration { seconds: 315576000000, nanos: 0 }));
    assert_eq!(Duration::parse("315576000001s"), None);
    assert_eq!(Duration::parse("999999999999999999999s"), None);
}
