use sidecar_bridge::event::{Channel, ExitInfo};
use sidecar_bridge::greet::greet;
use sidecar_bridge::text::{push_decimal, push_option, push_signed};

#[derive(Debug)]
#[allow(dead_code)]
struct TerminatedPayload {
    code: Option<i32>,
    signal: Option<i32>,
}

fn decimal(n: u64) -> String {
    let mut out = String::new();
    push_decimal(&mut out, n);
    out
}

fn signed(n: i32) -> String {
    let mut out = String::new();
    push_signed(&mut out, n);
    out
}

fn option(value: Option<i32>) -> String {
    let mut out = String::new();
    push_option(&mut out, value);
    out
}

fn payload(info: ExitInfo) -> String {
    let mut out = String::new();
    info.push_payload(&mut out);
    out
}

#[test]
fn decimal_of_single_digits() {
    assert_eq!(decimal(0), "0");
    assert_eq!(decimal(5), "5");
    assert_eq!(decimal(9), "9");
}

#[test]
fn decimal_of_longer_numbers() {
    assert_eq!(decimal(10), "10");
    assert_eq!(decimal(42), "42");
    assert_eq!(decimal(100), "100");
    assert_eq!(decimal(1234567890), "1234567890");
    assert_eq!(decimal(u64::MAX), "18446744073709551615");
}

#[test]
fn decimal_appends_to_what_is_there() {
    let mut out = String::from("in ");
    push_decimal(&mut out, 305);
    assert_eq!(out, "in 305");
}

#[test]
fn decimal_agrees_with_the_standard_library() {
    let samples: Vec<u64> = vec![0, 1, 9, 10, 11, 99, 100, 101, 999, 1000, 65535, 4294967296, u64::MAX];
    for n in samples {
        assert_eq!(decimal(n), format!("{}", n));
    }
}

#[test]
fn signed_numbers_carry_their_sign() {
    assert_eq!(signed(0), "0");
    assert_eq!(signed(7), "7");
    assert_eq!(signed(-1), "-1");
    assert_eq!(signed(-130), "-130");
    assert_eq!(signed(i32::MAX), "2147483647");
    assert_eq!(signed(i32::MIN), "-2147483648");
}

#[test]
fn signed_agrees_with_the_standard_library() {
    let samples: Vec<i32> = vec![i32::MIN, -1000, -10, -9, -1, 0, 1, 9, 10, 255, i32::MAX];
    for n in samples {
        assert_eq!(signed(n), format!("{}", n));
    }
}

#[test]
fn option_text_of_none_and_some() {
    assert_eq!(option(None), "None");
    assert_eq!(option(Some(0)), "Some(0)");
    assert_eq!(option(Some(-15)), "Some(-15)");
    assert_eq!(option(Some(101)), format!("{:?}", Some(101)));
    assert_eq!(option(None), format!("{:?}", None::<i32>));
}

#[test]
fn payload_text_names_both_fields() {
    assert_eq!(
        payload(ExitInfo { code: Some(0), signal: None }),
        "TerminatedPayload { code: Some(0), signal: None }"
    );
    assert_eq!(
        payload(ExitInfo { code: None, signal: Some(9) }),
        "TerminatedPayload { code: None, signal: Some(9) }"
    );
    assert_eq!(
        payload(ExitInfo { code: Some(-1), signal: Some(15) }),
        "TerminatedPayload { code: Some(-1), signal: Some(15) }"
    );
    assert_eq!(
        payload(ExitInfo { code: None, signal: None }),
        "TerminatedPayload { code: None, signal: None }"
    );
}

#[test]
fn payload_text_is_the_derived_debug_form() {
    let cases: Vec<(Option<i32>, Option<i32>)> = vec![
        (Some(0), None),
        (Some(1), None),
        (None, Some(11)),
        (Some(i32::MIN), Some(i32::MAX)),
        (None, None),
    ];
    for (code, signal) in cases {
        assert_eq!(
            payload(ExitInfo { code, signal }),
            format!("{:?}", TerminatedPayload { code, signal })
        );
    }
}

#[test]
fn channel_names() {
    assert_eq!(Channel::Output.name(), "core-output");
    assert_eq!(Channel::Error.name(), "core-error");
    assert_eq!(Channel::Message.name(), "core-message");
    assert_eq!(Channel::Terminated.name(), "core-terminated");
}

#[test]
fn greeting_wraps_the_name() {
    assert_eq!(greet("Ada"), "Hello, Ada! You've been greeted from Rust!");
    assert_eq!(greet(""), "Hello, ! You've been greeted from Rust!");
}
