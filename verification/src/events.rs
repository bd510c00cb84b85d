//! What the app reports: status changes, log lines, the answer to the
//! window's bootstrap request, and how a child process ended.

use vstd::prelude::*;
use crate::text::{digits_value, i64_to_decimal, lemma_signed_decimal_denotes, signed_decimal};

verus! {

/// A status change shown by the loading screen.
pub struct StatusEvent {
    pub phase: String,
    pub message: String,
    pub detail: Option<String>,
}

/// What a status change says.
pub struct StatusView {
    pub phase: Seq<char>,
    pub message: Seq<char>,
    pub detail: Option<Seq<char>>,
}

impl View for StatusEvent {
    type V = StatusView;

    open spec fn view(&self) -> StatusView {
        StatusView {
            phase: self.phase@,
            message: self.message@,
            detail: match self.detail {
                Some(d) => Some(d@),
                None => None,
            },
        }
    }
}

/// The status change with the given texts.
pub open spec fn status_of(
    phase: Seq<char>,
    message: Seq<char>,
    detail: Option<Seq<char>>,
) -> StatusView {
    StatusView { phase, message, detail }
}

impl StatusEvent {
    /// A status change with the given phase, message and detail.
    pub fn new(phase: &str, message: &str, detail: Option<String>) -> (e: StatusEvent)
        ensures
            e@ == status_of(
                phase@,
                message@,
                match detail {
                    Some(d) => Some(d@),
                    None => None,
                },
            ),
    {
        StatusEvent { phase: String::from_str(phase), message: String::from_str(message), detail }
    }
}

/// A line that the server wrote, or a note of the app's own.
pub struct LogEvent {
    pub stream: String,
    pub line: String,
}

/// What a log line says.
pub struct LogView {
    pub stream: Seq<char>,
    pub line: Seq<char>,
}

impl View for LogEvent {
    type V = LogView;

    open spec fn view(&self) -> LogView {
        LogView { stream: self.stream@, line: self.line@ }
    }
}

impl LogEvent {
    /// A log line on the named stream.
    pub fn new(stream: &str, line: String) -> (e: LogEvent)
        ensures
            e@ == (LogView { stream: stream@, line: line@ }),
    {
        LogEvent { stream: String::from_str(stream), line }
    }

    /// The line as echoed on the console: `[<stream>] <line>`.
    pub fn console_line(&self) -> (s: String)
        ensures
            s@ == "["@ + self.stream@ + "] "@ + self.line@,
    {
        let mut s = String::from_str("[");
        s.append(self.stream.as_str());
        s.append("] ");
        s.append(self.line.as_str());
        s
    }
}

/// The answer to the window: where the server is, and whether it was
/// already running (`existing`) or started by this app (`spawned`).
pub struct BootstrapResponse {
    pub url: String,
    pub source: String,
}

/// What a bootstrap answer says.
pub struct ResponseView {
    pub url: Seq<char>,
    pub source: Seq<char>,
}

impl View for BootstrapResponse {
    type V = ResponseView;

    open spec fn view(&self) -> ResponseView {
        ResponseView { url: self.url@, source: self.source@ }
    }
}

/// What inspecting the started server process found.
pub enum ChildStatus {
    /// No process is recorded.
    NotTracked,
    /// The process is still running.
    Running,
    /// The process ended, with its exit code (`None` when a signal ended
    /// it) and the time since it was started, as text.
    Exited { code: Option<i32>, elapsed: String },
    /// The process could not be inspected; the error text.
    InspectFailed(String),
}

/// How an exit is described: the exit code, or `signal`.
pub open spec fn exit_code_text_of(code: Option<i32>) -> Seq<char> {
    match code {
        Some(c) => signed_decimal(c as int),
        None => "signal"@,
    }
}

/// Describes an exit: the exit code in decimal, or `signal` when a signal
/// ended the process.
pub fn exit_code_text(code: Option<i32>) -> (s: String)
    ensures
        s@ == exit_code_text_of(code),
{
    match code {
        Some(c) => i64_to_decimal(c as i64),
        None => String::from_str("signal"),
    }
}


/// An exit is described by its code, read back exactly (with a minus sign
/// for a negative code), or by `signal` when there is no code.
pub proof fn lemma_exit_code_text_denotes(code: Option<i32>)
    ensures
        code matches Some(c) ==> (c < 0 ==> exit_code_text_of(code)[0] == '-' && digits_value(
            exit_code_text_of(code).drop_first(),
        ) == -c) && (c >= 0 ==> digits_value(exit_code_text_of(code)) == c),
        code is None ==> exit_code_text_of(code) == "signal"@,
{
    if let Some(c) = code {
        lemma_signed_decimal_denotes(c as int);
    }
}

} // verus!
