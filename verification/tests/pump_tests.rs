use sidecar_bridge::event::{Channel, ExitInfo, UiEvent, WorkerEvent};
use sidecar_bridge::pump::{
    command_error_event, output_event, pump, stderr_event, terminated_event, translate,
};

fn ui(channel: Channel, body: &str) -> UiEvent {
    UiEvent { channel, body: body.to_string() }
}

#[test]
fn stdout_line_goes_to_output_unchanged() {
    let event = WorkerEvent::StdoutLine(b"ready\n".to_vec());
    assert_eq!(translate(&event), ui(Channel::Output, "ready\n"));
}

#[test]
fn stdout_line_keeps_multibyte_text() {
    let event = WorkerEvent::StdoutLine("gr\u{fc}\u{df}e \u{4e16}\u{754c}".as_bytes().to_vec());
    assert_eq!(translate(&event), ui(Channel::Output, "gr\u{fc}\u{df}e \u{4e16}\u{754c}"));
}

#[test]
fn empty_stdout_line_gives_an_empty_body() {
    let event = WorkerEvent::StdoutLine(Vec::new());
    assert_eq!(translate(&event), ui(Channel::Output, ""));
}

#[test]
fn invalid_utf8_on_stdout_is_replaced_not_fatal() {
    let event = WorkerEvent::StdoutLine(vec![b'a', b'b', 0xff, b'c', b'd']);
    let translated = translate(&event);
    assert_eq!(translated.channel, Channel::Output);
    assert_eq!(translated.body, "ab\u{fffd}cd");
}

#[test]
fn truncated_sequence_on_stdout_is_replaced() {
    let event = WorkerEvent::StdoutLine(vec![b'o', b'k', 0xe4, 0xb8]);
    assert_eq!(translate(&event), ui(Channel::Output, "ok\u{fffd}"));
}

#[test]
fn only_invalid_bytes_give_only_replacements() {
    let event = WorkerEvent::StdoutLine(vec![0x80, 0xfe]);
    assert_eq!(translate(&event), ui(Channel::Output, "\u{fffd}\u{fffd}"));
}

#[test]
fn stderr_line_goes_to_error_with_prefix() {
    let event = WorkerEvent::StderrLine(b"disk full".to_vec());
    assert_eq!(translate(&event), ui(Channel::Error, "stderr: disk full"));
}

#[test]
fn invalid_utf8_on_stderr_is_replaced() {
    let event = WorkerEvent::StderrLine(vec![0xc3, 0x28]);
    assert_eq!(translate(&event), ui(Channel::Error, "stderr: \u{fffd}("));
}

#[test]
fn command_error_goes_to_error_with_prefix() {
    let event = WorkerEvent::LaunchError("broken pipe".to_string());
    assert_eq!(translate(&event), ui(Channel::Error, "error: broken pipe"));
}

#[test]
fn termination_goes_to_terminated_with_payload() {
    let event = WorkerEvent::Terminated(ExitInfo { code: Some(1), signal: None });
    assert_eq!(
        translate(&event),
        ui(
            Channel::Terminated,
            "Sidecar terminated with payload: TerminatedPayload { code: Some(1), signal: None }"
        )
    );
}

#[test]
fn termination_by_signal_names_the_signal() {
    let event = WorkerEvent::Terminated(ExitInfo { code: None, signal: Some(9) });
    assert_eq!(
        translate(&event).body,
        "Sidecar terminated with payload: TerminatedPayload { code: None, signal: Some(9) }"
    );
}

#[test]
fn event_builders_on_decoded_text() {
    assert_eq!(output_event("x".to_string()), ui(Channel::Output, "x"));
    assert_eq!(stderr_event("x"), ui(Channel::Error, "stderr: x"));
    assert_eq!(command_error_event("x"), ui(Channel::Error, "error: x"));
    assert_eq!(
        terminated_event(ExitInfo { code: Some(0), signal: None }),
        ui(
            Channel::Terminated,
            "Sidecar terminated with payload: TerminatedPayload { code: Some(0), signal: None }"
        )
    );
}

#[test]
fn is_terminated_tells_the_exit_apart() {
    assert!(WorkerEvent::Terminated(ExitInfo { code: None, signal: None }).is_terminated());
    assert!(!WorkerEvent::StdoutLine(Vec::new()).is_terminated());
    assert!(!WorkerEvent::StderrLine(Vec::new()).is_terminated());
    assert!(!WorkerEvent::LaunchError(String::new()).is_terminated());
}

#[test]
fn pump_of_an_empty_stream_emits_nothing() {
    let report = pump(&[]);
    assert_eq!(report.emitted, Vec::<UiEvent>::new());
    assert_eq!(report.consumed, 0);
    assert!(!report.terminated);
}

#[test]
fn pump_keeps_the_order_of_arrival() {
    let stream = vec![
        WorkerEvent::StdoutLine(b"one".to_vec()),
        WorkerEvent::StderrLine(b"two".to_vec()),
        WorkerEvent::StdoutLine(b"three".to_vec()),
        WorkerEvent::LaunchError("four".to_string()),
    ];
    let report = pump(&stream);
    assert_eq!(
        report.emitted,
        vec![
            ui(Channel::Output, "one"),
            ui(Channel::Error, "stderr: two"),
            ui(Channel::Output, "three"),
            ui(Channel::Error, "error: four"),
        ]
    );
    assert_eq!(report.consumed, 4);
    assert!(!report.terminated);
}

#[test]
fn pump_stops_at_the_exit() {
    let stream = vec![
        WorkerEvent::StdoutLine(b"last words".to_vec()),
        WorkerEvent::Terminated(ExitInfo { code: Some(3), signal: None }),
        WorkerEvent::StdoutLine(b"never seen".to_vec()),
        WorkerEvent::Terminated(ExitInfo { code: Some(4), signal: None }),
    ];
    let report = pump(&stream);
    assert_eq!(
        report.emitted,
        vec![
            ui(Channel::Output, "last words"),
            ui(
                Channel::Terminated,
                "Sidecar terminated with payload: TerminatedPayload { code: Some(3), signal: None }"
            ),
        ]
    );
    assert_eq!(report.consumed, 2);
    assert!(report.terminated);
}

#[test]
fn pump_of_an_immediate_exit_takes_one_event() {
    let stream = vec![WorkerEvent::Terminated(ExitInfo { code: Some(127), signal: None })];
    let report = pump(&stream);
    assert_eq!(report.consumed, 1);
    assert!(report.terminated);
    assert_eq!(report.emitted.len(), 1);
    assert_eq!(report.emitted[0].channel, Channel::Terminated);
}

#[test]
fn pump_emits_what_translate_gives() {
    let stream = vec![
        WorkerEvent::StdoutLine(vec![0xff]),
        WorkerEvent::StderrLine(b"e".to_vec()),
        WorkerEvent::Terminated(ExitInfo { code: None, signal: Some(15) }),
    ];
    let report = pump(&stream);
    assert_eq!(report.emitted.len(), 3);
    for i in 0..3 {
        assert_eq!(report.emitted[i], translate(&stream[i]));
    }
}
