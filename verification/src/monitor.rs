//! Watching the started server after it answered: when it stops, the window
//! is told, and the process is forgotten.

use vstd::prelude::*;
use crate::events::{ChildStatus, LogEvent, LogView, StatusEvent, StatusView, exit_code_text, exit_code_text_of, status_of};

verus! {

/// Pause between two looks at the process, in milliseconds.
pub const MONITOR_INTERVAL_MS: u64 = 1000;

/// Where the watch stands.
#[derive(Clone, Copy, PartialEq, Eq, Structural)]
pub enum MonitorPhase {
    /// Pausing before the next look.
    Sleeping,
    /// Waiting for the state of the process.
    Inspecting,
    /// The watch is over.
    Stopped,
}

/// What happened when the app carried out the last request.
pub enum MonitorEvent {
    Slept,
    Child(ChildStatus),
}

/// What the app is asked to do next.
#[derive(PartialEq, Eq, Structural)]
pub enum MonitorRequest {
    /// Sleep this many milliseconds and report `Slept`.
    Sleep(u64),
    /// Inspect the recorded process and report `Child`.
    InspectChild,
    /// End the watch.
    Stop,
    /// Nothing to do: the event was not the one awaited.
    Idle,
}

/// One step of the watch: a status and a log line to emit first, whether to
/// forget the recorded process, and the next request.
pub struct MonitorStep {
    pub status: Option<StatusEvent>,
    pub log: Option<LogEvent>,
    pub clear_process: bool,
    pub request: MonitorRequest,
}

/// What a watch step says.
pub struct MonitorStepView {
    pub status: Option<StatusView>,
    pub log: Option<LogView>,
    pub clear_process: bool,
    pub request: MonitorRequest,
}

impl View for MonitorStep {
    type V = MonitorStepView;

    open spec fn view(&self) -> MonitorStepView {
        MonitorStepView {
            status: match self.status {
                Some(s) => Some(s@),
                None => None,
            },
            log: match self.log {
                Some(l) => Some(l@),
                None => None,
            },
            clear_process: self.clear_process,
            request: self.request,
        }
    }
}

/// The watch over the server at `url`.
pub struct ExitMonitor {
    pub phase: MonitorPhase,
    pub url: String,
}

/// The status shown when the server stopped on its own.
pub open spec fn stopped_status(url: Seq<char>, elapsed: Seq<char>, code: Option<i32>) -> StatusView {
    status_of(
        "error"@,
        "OpenCode stopped unexpectedly"@,
        Some(
            "The OpenCode server at "@ + url + " exited after "@ + elapsed + " with status "@
                + exit_code_text_of(code) + "."@,
        ),
    )
}

/// A watch step that only makes `request`.
pub open spec fn plain(request: MonitorRequest) -> MonitorStepView {
    MonitorStepView { status: None, log: None, clear_process: false, request }
}

/// The transition of the watch.
pub open spec fn monitor_next(m: ExitMonitor, e: MonitorEvent) -> (ExitMonitor, MonitorStepView) {
    match (m.phase, e) {
        (MonitorPhase::Sleeping, MonitorEvent::Slept) => (
            ExitMonitor { phase: MonitorPhase::Inspecting, ..m },
            plain(MonitorRequest::InspectChild),
        ),
        (MonitorPhase::Inspecting, MonitorEvent::Child(c)) => match c {
            ChildStatus::NotTracked => (
                ExitMonitor { phase: MonitorPhase::Stopped, ..m },
                plain(MonitorRequest::Stop),
            ),
            ChildStatus::Running => (
                ExitMonitor { phase: MonitorPhase::Sleeping, ..m },
                plain(MonitorRequest::Sleep(MONITOR_INTERVAL_MS)),
            ),
            ChildStatus::Exited { code, elapsed } => (
                ExitMonitor { phase: MonitorPhase::Stopped, ..m },
                MonitorStepView {
                    status: Some(stopped_status(m.url@, elapsed@, code)),
                    log: None,
                    clear_process: true,
                    request: MonitorRequest::Stop,
                },
            ),
            ChildStatus::InspectFailed(t) => (
                ExitMonitor { phase: MonitorPhase::Stopped, ..m },
                MonitorStepView {
                    status: None,
                    log: Some(LogView { stream: "stderr"@, line: "OpenCode monitor failed: "@ + t@ }),
                    clear_process: true,
                    request: MonitorRequest::Stop,
                },
            ),
        },
        _ => (m, plain(MonitorRequest::Idle)),
    }
}

impl ExitMonitor {
    /// Begins watching the server at `url`: first a pause.
    pub fn start(url: String) -> (r: (ExitMonitor, MonitorStep))
        ensures
            r.0.phase == MonitorPhase::Sleeping,
            r.0.url == url,
            r.1@ == plain(MonitorRequest::Sleep(MONITOR_INTERVAL_MS)),
    {
        (
            ExitMonitor { phase: MonitorPhase::Sleeping, url },
            MonitorStep {
                status: None,
                log: None,
                clear_process: false,
                request: MonitorRequest::Sleep(MONITOR_INTERVAL_MS),
            },
        )
    }

    /// Takes in what happened and says what to do next.
    pub fn step(&mut self, event: MonitorEvent) -> (out: MonitorStep)
        ensures
            (*final(self), out@) == monitor_next(*old(self), event),
    {
        let nothing = MonitorStep {
            status: None,
            log: None,
            clear_process: false,
            request: MonitorRequest::Idle,
        };
        match self.phase {
            MonitorPhase::Sleeping => match event {
                MonitorEvent::Slept => {
                    self.phase = MonitorPhase::Inspecting;
                    MonitorStep {
                        status: None,
                        log: None,
                        clear_process: false,
                        request: MonitorRequest::InspectChild,
                    }
                },
                _ => nothing,
            },
            MonitorPhase::Inspecting => match event {
                MonitorEvent::Child(c) => match c {
                    ChildStatus::NotTracked => {
                        self.phase = MonitorPhase::Stopped;
                        MonitorStep {
                            status: None,
                            log: None,
                            clear_process: false,
                            request: MonitorRequest::Stop,
                        }
                    },
                    ChildStatus::Running => {
                        self.phase = MonitorPhase::Sleeping;
                        MonitorStep {
                            status: None,
                            log: None,
                            clear_process: false,
                            request: MonitorRequest::Sleep(MONITOR_INTERVAL_MS),
                        }
                    },
                    ChildStatus::Exited { code, elapsed } => {
                        self.phase = MonitorPhase::Stopped;
                        let mut detail = String::from_str("The OpenCode server at ");
                        detail.append(self.url.as_str());
                        detail.append(" exited after ");
                        detail.append(elapsed.as_str());
                        detail.append(" with status ");
                        let code_text = exit_code_text(code);
                        detail.append(code_text.as_str());
                        detail.append(".");
                        let st = StatusEvent::new(
                            "error",
                            "OpenCode stopped unexpectedly",
                            Some(detail),
                        );
                        MonitorStep {
                            status: Some(st),
                            log: None,
                            clear_process: true,
                            request: MonitorRequest::Stop,
                        }
                    },
                    ChildStatus::InspectFailed(t) => {
                        self.phase = MonitorPhase::Stopped;
                        let mut line = String::from_str("OpenCode monitor failed: ");
                        line.append(t.as_str());
                        MonitorStep {
                            status: None,
                            log: Some(LogEvent::new("stderr", line)),
                            clear_process: true,
                            request: MonitorRequest::Stop,
                        }
                    },
                },
                _ => nothing,
            },
            MonitorPhase::Stopped => nothing,
        }
    }
}


/// The process is forgotten only when inspecting it found that it ended or
/// that it cannot be inspected.
pub proof fn lemma_forget_only_ended(m: ExitMonitor, e: MonitorEvent)
    requires
        monitor_next(m, e).1.clear_process,
    ensures
        m.phase == MonitorPhase::Inspecting,
        e matches MonitorEvent::Child(c) && (c is Exited || c is InspectFailed),
        monitor_next(m, e).1.request == MonitorRequest::Stop,
{
}

/// The window hears of a stop only when the process actually exited, and
/// the report names the server's URL.
pub proof fn lemma_stop_reported_on_exit(m: ExitMonitor, e: MonitorEvent)
    requires
        monitor_next(m, e).1.status is Some,
    ensures
        e matches MonitorEvent::Child(c) && c is Exited,
        monitor_next(m, e).1.status == Some(
            stopped_status(m.url@, e->Child_0->elapsed@, e->Child_0->code),
        ),
{
}

/// While the process runs, the watch goes on: a look that finds it running
/// is followed by a pause and another look.
pub proof fn lemma_watch_continues_while_running(m: ExitMonitor)
    requires
        m.phase == MonitorPhase::Inspecting,
    ensures
        monitor_next(m, MonitorEvent::Child(ChildStatus::Running)).1 == plain(
            MonitorRequest::Sleep(MONITOR_INTERVAL_MS),
        ),
        monitor_next(
            monitor_next(m, MonitorEvent::Child(ChildStatus::Running)).0,
            MonitorEvent::Slept,
        ).1 == plain(MonitorRequest::InspectChild),
{
}

/// A stopped watch does nothing more.
pub proof fn lemma_stopped_is_final(m: ExitMonitor, e: MonitorEvent)
    requires
        m.phase == MonitorPhase::Stopped,
    ensures
        monitor_next(m, e) == (m, plain(MonitorRequest::Idle)),
{
}

} // verus!
