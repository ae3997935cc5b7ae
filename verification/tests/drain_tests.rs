use sidecar_supervisor::config::BACKEND_SIDECAR_NAME;
use sidecar_supervisor::drain::{
    drain_step, entry_with_text, line_entry, log_entry, spawned_entry, terminated_entry, DrainStep,
    LogEntry, OutputEvent, Severity,
};
use sidecar_supervisor::text::{append_decimal, append_optional_number, append_signed};

fn entry(severity: Severity, message: &str) -> LogEntry {
    LogEntry { severity, message: String::from(message) }
}

#[test]
fn stdout_line_is_forwarded_at_info() {
    let event = OutputEvent::StdoutLine(b"hello-out".to_vec());
    assert_eq!(
        log_entry(BACKEND_SIDECAR_NAME, &event),
        Some(entry(Severity::Info, "[verse-backend] hello-out"))
    );
}

#[test]
fn stderr_line_is_forwarded_at_error() {
    let event = OutputEvent::StderrLine(b"hello-err".to_vec());
    assert_eq!(
        log_entry(BACKEND_SIDECAR_NAME, &event),
        Some(entry(Severity::Error, "[verse-backend] hello-err"))
    );
}

#[test]
fn failure_is_forwarded_at_error() {
    let event = OutputEvent::Failure(String::from("broken pipe"));
    assert_eq!(
        log_entry(BACKEND_SIDECAR_NAME, &event),
        Some(entry(Severity::Error, "[verse-backend] broken pipe"))
    );
}

#[test]
fn termination_is_forwarded_at_info_with_code_and_signal() {
    let event = OutputEvent::Terminated { code: Some(0), signal: None };
    assert_eq!(
        log_entry(BACKEND_SIDECAR_NAME, &event),
        Some(entry(Severity::Info, "[verse-backend] terminated: code=Some(0), signal=None"))
    );
}

#[test]
fn termination_by_signal_has_no_code() {
    assert_eq!(
        terminated_entry("verse-backend", None, Some(9)),
        entry(Severity::Info, "[verse-backend] terminated: code=None, signal=Some(9)")
    );
}

#[test]
fn termination_with_negative_code() {
    assert_eq!(
        terminated_entry("helper", Some(-1), Some(15)),
        entry(Severity::Info, "[helper] terminated: code=Some(-1), signal=Some(15)")
    );
    assert_eq!(
        terminated_entry("helper", Some(i32::MIN), Some(i32::MAX)),
        entry(
            Severity::Info,
            "[helper] terminated: code=Some(-2147483648), signal=Some(2147483647)"
        )
    );
}

#[test]
fn termination_message_matches_debug_rendering() {
    for code in [None, Some(0), Some(1), Some(-7), Some(10), Some(255), Some(i32::MIN)] {
        for signal in [None, Some(2), Some(11), Some(i32::MAX)] {
            let expected =
                format!("[verse-backend] terminated: code={:?}, signal={:?}", code, signal);
            assert_eq!(terminated_entry("verse-backend", code, signal).message, expected);
        }
    }
}

#[test]
fn invalid_bytes_are_replaced_not_refused() {
    let event = OutputEvent::StdoutLine(vec![b'a', 0xff, b'b']);
    assert_eq!(
        log_entry(BACKEND_SIDECAR_NAME, &event),
        Some(entry(Severity::Info, "[verse-backend] a\u{fffd}b"))
    );
    let event = OutputEvent::StderrLine(vec![0xe2, 0x82]);
    assert_eq!(
        log_entry(BACKEND_SIDECAR_NAME, &event),
        Some(entry(Severity::Error, "[verse-backend] \u{fffd}"))
    );
}

#[test]
fn valid_multibyte_text_is_kept() {
    let event = OutputEvent::StdoutLine("gr\u{fc}\u{df}e \u{2713}".as_bytes().to_vec());
    assert_eq!(
        log_entry("srv", &event),
        Some(entry(Severity::Info, "[srv] gr\u{fc}\u{df}e \u{2713}"))
    );
}

#[test]
fn empty_line_leaves_only_the_prefix() {
    let event = OutputEvent::StdoutLine(Vec::new());
    assert_eq!(log_entry("srv", &event), Some(entry(Severity::Info, "[srv] ")));
}

#[test]
fn unknown_event_is_not_logged() {
    assert_eq!(log_entry(BACKEND_SIDECAR_NAME, &OutputEvent::Other), None);
    assert_eq!(entry_with_text(BACKEND_SIDECAR_NAME, &OutputEvent::Other, "text"), None);
}

#[test]
fn entry_with_text_uses_the_given_text_for_lines_only() {
    let out = OutputEvent::StdoutLine(b"raw".to_vec());
    let err = OutputEvent::StderrLine(b"raw".to_vec());
    let failure = OutputEvent::Failure(String::from("lost"));
    let ended = OutputEvent::Terminated { code: Some(3), signal: None };
    assert_eq!(entry_with_text("s", &out, "decoded"), Some(entry(Severity::Info, "[s] decoded")));
    assert_eq!(entry_with_text("s", &err, "decoded"), Some(entry(Severity::Error, "[s] decoded")));
    assert_eq!(entry_with_text("s", &failure, "decoded"), Some(entry(Severity::Error, "[s] lost")));
    assert_eq!(
        entry_with_text("s", &ended, "decoded"),
        Some(entry(Severity::Info, "[s] terminated: code=Some(3), signal=None"))
    );
}

#[test]
fn line_entry_puts_the_text_behind_the_prefix() {
    assert_eq!(line_entry("a", Severity::Info, "b"), entry(Severity::Info, "[a] b"));
    assert_eq!(line_entry("", Severity::Error, ""), entry(Severity::Error, "[] "));
}

#[test]
fn spawned_entry_names_the_pid() {
    assert_eq!(
        spawned_entry(BACKEND_SIDECAR_NAME, 4242),
        entry(Severity::Info, "[verse-backend] spawned with pid 4242")
    );
    assert_eq!(spawned_entry("h", 0), entry(Severity::Info, "[h] spawned with pid 0"));
    assert_eq!(
        spawned_entry("h", u32::MAX),
        entry(Severity::Info, "[h] spawned with pid 4294967295")
    );
}

#[test]
fn drain_step_stops_when_the_stream_has_ended() {
    assert_eq!(drain_step(BACKEND_SIDECAR_NAME, None), DrainStep::Finished);
}

#[test]
fn drain_step_skips_unknown_events() {
    assert_eq!(drain_step(BACKEND_SIDECAR_NAME, Some(OutputEvent::Other)), DrainStep::Skip);
}

#[test]
fn drain_forwards_output_then_termination() {
    let stream = vec![
        OutputEvent::StdoutLine(b"hello-out".to_vec()),
        OutputEvent::StderrLine(b"hello-err".to_vec()),
        OutputEvent::Terminated { code: Some(0), signal: None },
    ];
    let mut forwarded: Vec<LogEntry> = Vec::new();
    let mut events = stream.into_iter();
    loop {
        match drain_step(BACKEND_SIDECAR_NAME, events.next()) {
            DrainStep::Forward(entry) => forwarded.push(entry),
            DrainStep::Skip => {}
            DrainStep::Finished => break,
        }
    }
    assert_eq!(forwarded.len(), 3);
    assert_eq!(forwarded[0].severity, Severity::Info);
    assert!(forwarded[0].message.contains("hello-out"));
    assert_eq!(forwarded[1].severity, Severity::Error);
    assert!(forwarded[1].message.contains("hello-err"));
    assert_eq!(forwarded[2].severity, Severity::Info);
    assert_eq!(forwarded[2].message, "[verse-backend] terminated: code=Some(0), signal=None");
}

#[test]
fn append_decimal_writes_the_digits() {
    for n in [0u64, 1, 9, 10, 11, 99, 100, 101, 4242, 1_000_000, u64::MAX] {
        let mut out = String::from("n=");
        append_decimal(&mut out, n);
        assert_eq!(out, format!("n={}", n));
    }
}

#[test]
fn append_signed_writes_sign_and_digits() {
    for n in [0i32, 1, -1, 9, -9, 10, -10, 12345, -12345, i32::MAX, i32::MIN] {
        let mut out = String::new();
        append_signed(&mut out, n);
        assert_eq!(out, format!("{}", n));
    }
}

#[test]
fn append_optional_number_writes_some_or_none() {
    let mut out = String::from("x");
    append_optional_number(&mut out, Some(-3));
    append_optional_number(&mut out, None);
    append_optional_number(&mut out, Some(130));
    assert_eq!(out, "xSome(-3)NoneSome(130)");
}
