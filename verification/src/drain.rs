//! What the drain task does with each event of the helper's output stream:
//! the log entry it forwards to the logging sink.

use vstd::prelude::*;
use vstd::string::*;
use vstd::utf8::*;
use crate::text::{append_decimal, append_optional_number, decimal, optional_number};

verus! {

/// The severity of a log entry.
#[derive(Clone, Copy, Debug, PartialEq, Eq, Structural)]
pub enum Severity {
    Info,
    Error,
}

/// One entry for the logging sink.
#[derive(Debug, PartialEq, Eq)]
pub struct LogEntry {
    pub severity: Severity,
    pub message: String,
}

/// A log entry as a plain value.
pub struct LogEntryView {
    pub severity: Severity,
    pub message: Seq<char>,
}

impl View for LogEntry {
    type V = LogEntryView;

    open spec fn view(&self) -> LogEntryView {
        LogEntryView { severity: self.severity, message: self.message@ }
    }
}

/// One event of a helper's output stream.
#[derive(Debug, PartialEq, Eq)]
pub enum OutputEvent {
    /// A line that the helper wrote to its standard output.
    StdoutLine(Vec<u8>),
    /// A line that the helper wrote to its standard error.
    StderrLine(Vec<u8>),
    /// An error of spawning the helper or of reading its streams.
    Failure(String),
    /// The helper ended. Exit code and signal may each be unknown.
    Terminated { code: Option<i32>, signal: Option<i32> },
    /// An event of a kind that the supervisor does not know.
    Other,
}

/// An output event as a plain value.
pub enum OutputEventView {
    StdoutLine(Seq<u8>),
    StderrLine(Seq<u8>),
    Failure(Seq<char>),
    Terminated { code: Option<i32>, signal: Option<i32> },
    Other,
}

impl View for OutputEvent {
    type V = OutputEventView;

    open spec fn view(&self) -> OutputEventView {
        match *self {
            OutputEvent::StdoutLine(bytes) => OutputEventView::StdoutLine(bytes@),
            OutputEvent::StderrLine(bytes) => OutputEventView::StderrLine(bytes@),
            OutputEvent::Failure(message) => OutputEventView::Failure(message@),
            OutputEvent::Terminated { code, signal } => OutputEventView::Terminated { code, signal },
            OutputEvent::Other => OutputEventView::Other,
        }
    }
}

/// What the drain task does after one receive from the stream.
#[derive(Debug, PartialEq, Eq)]
pub enum DrainStep {
    /// Forward the entry to the logging sink, then receive again.
    Forward(LogEntry),
    /// Nothing to log; receive again.
    Skip,
    /// The stream has ended: the task is done.
    Finished,
}

/// A step of the drain task as a plain value.
pub enum DrainStepView {
    Forward(LogEntryView),
    Skip,
    Finished,
}

impl View for DrainStep {
    type V = DrainStepView;

    open spec fn view(&self) -> DrainStepView {
        match *self {
            DrainStep::Forward(entry) => DrainStepView::Forward(entry@),
            DrainStep::Skip => DrainStepView::Skip,
            DrainStep::Finished => DrainStepView::Finished,
        }
    }
}

/// The text that lossy decoding makes of `bytes`: the text itself where the
/// bytes are valid UTF-8, and otherwise the text with U+FFFD in place of each
/// invalid sequence.
pub uninterp spec fn lossy_text(bytes: Seq<u8>) -> Seq<char>;

/// Decodes `bytes` as text with `String::from_utf8_lossy`. The result is a
/// function of the bytes alone, and valid UTF-8 decodes to the text it
/// encodes; of invalid input only the name of the result is stated.
#[verifier::external_body]
fn decode_lossy(bytes: &[u8]) -> (text: String)
    ensures
        text@ == lossy_text(bytes@),
        valid_utf8(bytes@) ==> text@ == decode_utf8(bytes@),
{
    String::from_utf8_lossy(bytes).into_owned()
}

/// The mark that opens every message about the helper named `sidecar`:
/// the name in square brackets, then a space.
pub open spec fn source_prefix(sidecar: Seq<char>) -> Seq<char> {
    seq!['['] + sidecar + seq![']', ' ']
}

/// The words `terminated: code=`.
pub open spec fn code_label() -> Seq<char> {
    seq!['t', 'e', 'r', 'm', 'i', 'n', 'a', 't', 'e', 'd', ':', ' ', 'c', 'o', 'd', 'e', '=']
}

/// The words `, signal=`.
pub open spec fn signal_label() -> Seq<char> {
    seq![',', ' ', 's', 'i', 'g', 'n', 'a', 'l', '=']
}

/// The words `spawned with pid `.
pub open spec fn pid_label() -> Seq<char> {
    seq!['s', 'p', 'a', 'w', 'n', 'e', 'd', ' ', 'w', 'i', 't', 'h', ' ', 'p', 'i', 'd', ' ']
}

/// The message that reports the end of the helper: the source prefix, then
/// `terminated: code=`, the exit code, `, signal=` and the signal.
pub open spec fn terminated_message(
    sidecar: Seq<char>,
    code: Option<i32>,
    signal: Option<i32>,
) -> Seq<char> {
    source_prefix(sidecar) + code_label() + optional_number(code) + signal_label()
        + optional_number(signal)
}

/// The message that reports a successful spawn: the source prefix, then
/// `spawned with pid ` and the process identifier in decimal.
pub open spec fn spawned_message(sidecar: Seq<char>, pid: u32) -> Seq<char> {
    source_prefix(sidecar) + pid_label() + decimal(pid as nat)
}

/// The entry that an event of the helper named `sidecar` becomes, where
/// `text` is the decoded text of a line event (it is not read for the other
/// events). An event of an unknown kind becomes none.
pub open spec fn entry_for(
    sidecar: Seq<char>,
    event: OutputEventView,
    text: Seq<char>,
) -> Option<LogEntryView> {
    match event {
        OutputEventView::StdoutLine(_) => Some(
            LogEntryView { severity: Severity::Info, message: source_prefix(sidecar) + text },
        ),
        OutputEventView::StderrLine(_) => Some(
            LogEntryView { severity: Severity::Error, message: source_prefix(sidecar) + text },
        ),
        OutputEventView::Failure(message) => Some(
            LogEntryView { severity: Severity::Error, message: source_prefix(sidecar) + message },
        ),
        OutputEventView::Terminated { code, signal } => Some(
            LogEntryView {
                severity: Severity::Info,
                message: terminated_message(sidecar, code, signal),
            },
        ),
        OutputEventView::Other => None,
    }
}

/// The view of an entry that may be absent.
pub open spec fn entry_view(entry: Option<LogEntry>) -> Option<LogEntryView> {
    match entry {
        Some(entry) => Some(entry@),
        None => None,
    }
}

/// The bytes of a line event; empty for the other events.
pub open spec fn line_bytes(event: OutputEventView) -> Seq<u8> {
    match event {
        OutputEventView::StdoutLine(bytes) => bytes,
        OutputEventView::StderrLine(bytes) => bytes,
        _ => Seq::<u8>::empty(),
    }
}

/// The entry that the drain task forwards for `event`: the one of
/// [`entry_for`], with the bytes of a line decoded lossily.
pub open spec fn forwarded_for(sidecar: Seq<char>, event: OutputEventView) -> Option<LogEntryView> {
    entry_for(sidecar, event, lossy_text(line_bytes(event)))
}

/// What the drain task does after a receive that yielded `received`: it
/// stops when the stream has ended, forwards the event's entry if it has
/// one, and otherwise goes on to the next receive.
pub open spec fn step_for(sidecar: Seq<char>, received: Option<OutputEventView>) -> DrainStepView {
    match received {
        None => DrainStepView::Finished,
        Some(event) => match forwarded_for(sidecar, event) {
            Some(entry) => DrainStepView::Forward(entry),
            None => DrainStepView::Skip,
        },
    }
}

/// The view of an event that may be absent.
pub open spec fn received_view(received: Option<OutputEvent>) -> Option<OutputEventView> {
    match received {
        Some(event) => Some(event@),
        None => None,
    }
}

/// Every entry names its source and has the severity of its kind: the
/// message opens with the source prefix, and the severity is `Error` for
/// standard error and failures, `Info` for standard output and the end of
/// the helper.
pub proof fn lemma_entry_prefix_and_severity(
    sidecar: Seq<char>,
    event: OutputEventView,
    text: Seq<char>,
)
    requires
        event !is Other,
    ensures
        entry_for(sidecar, event, text) is Some,
        ({
            let entry = entry_for(sidecar, event, text)->Some_0;
            &&& source_prefix(sidecar).is_prefix_of(entry.message)
            &&& entry.severity == Severity::Error <==> event is StderrLine || event is Failure
            &&& entry.severity == Severity::Info <==> event is StdoutLine || event is Terminated
        }),
{
    let prefix = source_prefix(sidecar);
    let entry = entry_for(sidecar, event, text)->Some_0;
    match event {
        OutputEventView::Terminated { code, signal } => {
            let rest = code_label() + optional_number(code) + signal_label() + optional_number(
                signal,
            );
            assert(entry.message =~= prefix + rest);
        },
        _ => {},
    }
    assert(entry.message.subrange(0, prefix.len() as int) =~= prefix);
}

fn prefixed(sidecar: &str) -> (message: String)
    ensures
        message@ == source_prefix(sidecar@),
{
    proof {
        reveal_strlit("[");
        reveal_strlit("] ");
    }
    let mut message = String::new();
    message.append("[");
    message.append(sidecar);
    message.append("] ");
    message
}

/// The entry for a line of the helper's output whose text is already
/// decoded: the text behind the source prefix, at the given severity.
pub fn line_entry(sidecar: &str, severity: Severity, text: &str) -> (entry: LogEntry)
    ensures
        entry@ == (LogEntryView { severity, message: source_prefix(sidecar@) + text@ }),
{
    let mut message = prefixed(sidecar);
    message.append(text);
    LogEntry { severity, message }
}

/// The entry that reports the end of the helper, at info severity.
pub fn terminated_entry(sidecar: &str, code: Option<i32>, signal: Option<i32>) -> (entry: LogEntry)
    ensures
        entry@ == (LogEntryView {
            severity: Severity::Info,
            message: terminated_message(sidecar@, code, signal),
        }),
{
    proof {
        reveal_strlit("terminated: code=");
        reveal_strlit(", signal=");
        assert("terminated: code="@ =~= code_label());
        assert(", signal="@ =~= signal_label());
    }
    let mut message = prefixed(sidecar);
    message.append("terminated: code=");
    append_optional_number(&mut message, code);
    message.append(", signal=");
    append_optional_number(&mut message, signal);
    LogEntry { severity: Severity::Info, message }
}

/// The entry that reports a successful spawn, at info severity.
pub fn spawned_entry(sidecar: &str, pid: u32) -> (entry: LogEntry)
    ensures
        entry@ == (LogEntryView {
            severity: Severity::Info,
            message: spawned_message(sidecar@, pid),
        }),
{
    proof {
        reveal_strlit("spawned with pid ");
        assert("spawned with pid "@ =~= pid_label());
    }
    let mut message = prefixed(sidecar);
    message.append("spawned with pid ");
    append_decimal(&mut message, pid as u64);
    LogEntry { severity: Severity::Info, message }
}

/// The entry for an event whose line, if it is one, has been decoded to
/// `text`: standard output and the end of the helper at info severity,
/// standard error and failures at error severity, none for an event of an
/// unknown kind.
pub fn entry_with_text(sidecar: &str, event: &OutputEvent, text: &str) -> (entry: Option<LogEntry>)
    ensures
        entry_view(entry) == entry_for(sidecar@, event@, text@),
{
    match event {
        OutputEvent::StdoutLine(_) => Some(line_entry(sidecar, Severity::Info, text)),
        OutputEvent::StderrLine(_) => Some(line_entry(sidecar, Severity::Error, text)),
        OutputEvent::Failure(message) => Some(
            line_entry(sidecar, Severity::Error, message.as_str()),
        ),
        OutputEvent::Terminated { code, signal } => Some(terminated_entry(sidecar, *code, *signal)),
        OutputEvent::Other => None,
    }
}

/// The entry that the drain task forwards for `event`. The bytes of a line
/// are decoded lossily: invalid sequences are replaced, never refused.
pub fn log_entry(sidecar: &str, event: &OutputEvent) -> (entry: Option<LogEntry>)
    ensures
        entry_view(entry) == forwarded_for(sidecar@, event@),
        valid_utf8(line_bytes(event@)) ==> entry_view(entry) == entry_for(
            sidecar@,
            event@,
            decode_utf8(line_bytes(event@)),
        ),
{
    match event {
        OutputEvent::StdoutLine(bytes) | OutputEvent::StderrLine(bytes) => {
            let text = decode_lossy(bytes.as_slice());
            entry_with_text(sidecar, event, text.as_str())
        },
        _ => entry_with_text(sidecar, event, ""),
    }
}

/// One step of the drain task: `received` is what the receive from the
/// helper's stream yielded, `None` once the stream has ended.
pub fn drain_step(sidecar: &str, received: Option<OutputEvent>) -> (step: DrainStep)
    ensures
        step@ == step_for(sidecar@, received_view(received)),
{
    match received {
        None => DrainStep::Finished,
        Some(event) => match log_entry(sidecar, &event) {
            Some(entry) => DrainStep::Forward(entry),
            None => DrainStep::Skip,
        },
    }
}

} // verus!
