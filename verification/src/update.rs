//! The update check at startup: look for a newer release, install it and
//! restart, logging each outcome.

use vstd::prelude::*;
use crate::events::{LogEvent, LogView};

verus! {

/// Where the update check stands.
#[derive(Clone, Copy, PartialEq, Eq, Structural)]
pub enum UpdatePhase {
    /// Waiting for the updater.
    Opening,
    /// Waiting for the result of the check.
    Checking,
    /// Waiting for the installation.
    Installing,
    /// The check is over.
    Stopped,
}

/// A release newer than the running one.
pub struct UpdateInfo {
    pub current_version: String,
    pub version: String,
}

/// What happened when the app carried out the last request.
pub enum UpdateEvent {
    /// The updater could not be set up; the error text.
    UpdaterUnavailable(String),
    /// The updater is ready.
    UpdaterReady,
    /// The check found a release, found none, or failed with the error text.
    Checked(Result<Option<UpdateInfo>, String>),
    /// The release was installed, or the error text.
    Installed(Result<(), String>),
}

/// What the app is asked to do next.
#[derive(PartialEq, Eq, Structural)]
pub enum UpdateRequest {
    /// Set up the updater and report `UpdaterReady` or `UpdaterUnavailable`.
    OpenUpdater,
    /// Check for a release and report `Checked`.
    Check,
    /// Download and install the release found, and report `Installed`.
    Install,
    /// Restart the app.
    Restart,
    /// End the check.
    Stop,
    /// Nothing to do: the event was not the one awaited.
    Idle,
}

/// One step of the update check: a log line to emit first, and the next
/// request.
pub struct UpdateStep {
    pub log: Option<LogEvent>,
    pub request: UpdateRequest,
}

/// What an update step says.
pub struct UpdateStepView {
    pub log: Option<LogView>,
    pub request: UpdateRequest,
}

impl View for UpdateStep {
    type V = UpdateStepView;

    open spec fn view(&self) -> UpdateStepView {
        UpdateStepView {
            log: match self.log {
                Some(l) => Some(l@),
                None => None,
            },
            request: self.request,
        }
    }
}

/// The state of the update check.
pub struct UpdateCheck {
    pub phase: UpdatePhase,
}

/// An update step that logs `line` on `stream` and makes `request`.
pub open spec fn logged(stream: Seq<char>, line: Seq<char>, request: UpdateRequest) -> UpdateStepView {
    UpdateStepView { log: Some(LogView { stream, line }), request }
}

/// The transition of the update check.
pub open spec fn update_next(u: UpdateCheck, e: UpdateEvent) -> (UpdateCheck, UpdateStepView) {
    let stopped = UpdateCheck { phase: UpdatePhase::Stopped };
    match (u.phase, e) {
        (UpdatePhase::Opening, UpdateEvent::UpdaterUnavailable(t)) => (
            stopped,
            logged("stderr"@, "update checker unavailable: "@ + t@, UpdateRequest::Stop),
        ),
        (UpdatePhase::Opening, UpdateEvent::UpdaterReady) => (
            UpdateCheck { phase: UpdatePhase::Checking },
            UpdateStepView { log: None, request: UpdateRequest::Check },
        ),
        (UpdatePhase::Checking, UpdateEvent::Checked(r)) => match r {
            Ok(Some(info)) => (
                UpdateCheck { phase: UpdatePhase::Installing },
                logged(
                    "stdout"@,
                    "update available: "@ + info.current_version@ + " -> "@ + info.version@,
                    UpdateRequest::Install,
                ),
            ),
            Ok(None) => (stopped, logged("stdout"@, "no update available"@, UpdateRequest::Stop)),
            Err(t) => (stopped, logged("stderr"@, "update check failed: "@ + t@, UpdateRequest::Stop)),
        },
        (UpdatePhase::Installing, UpdateEvent::Installed(r)) => match r {
            Ok(_) => (stopped, UpdateStepView { log: None, request: UpdateRequest::Restart }),
            Err(t) => (
                stopped,
                logged("stderr"@, "update install failed: "@ + t@, UpdateRequest::Stop),
            ),
        },
        _ => (u, UpdateStepView { log: None, request: UpdateRequest::Idle }),
    }
}

fn log_step(stream: &str, prefix: &str, text: &str, request: UpdateRequest) -> (s: UpdateStep)
    ensures
        s@ == logged(stream@, prefix@ + text@, request),
{
    let mut line = String::from_str(prefix);
    line.append(text);
    UpdateStep { log: Some(LogEvent::new(stream, line)), request }
}

impl UpdateCheck {
    /// Begins the update check: the updater is set up first.
    pub fn start() -> (r: (UpdateCheck, UpdateStep))
        ensures
            r.0.phase == UpdatePhase::Opening,
            r.1@ == (UpdateStepView { log: None, request: UpdateRequest::OpenUpdater }),
    {
        (
            UpdateCheck { phase: UpdatePhase::Opening },
            UpdateStep { log: None, request: UpdateRequest::OpenUpdater },
        )
    }

    /// Takes in what happened and says what to do next.
    pub fn step(&mut self, event: UpdateEvent) -> (out: UpdateStep)
        ensures
            (*final(self), out@) == update_next(*old(self), event),
    {
        match self.phase {
            UpdatePhase::Opening => match event {
                UpdateEvent::UpdaterUnavailable(t) => {
                    self.phase = UpdatePhase::Stopped;
                    log_step(
                        "stderr",
                        "update checker unavailable: ",
                        t.as_str(),
                        UpdateRequest::Stop,
                    )
                },
                UpdateEvent::UpdaterReady => {
                    self.phase = UpdatePhase::Checking;
                    UpdateStep { log: None, request: UpdateRequest::Check }
                },
                _ => UpdateStep { log: None, request: UpdateRequest::Idle },
            },
            UpdatePhase::Checking => match event {
                UpdateEvent::Checked(r) => match r {
                    Ok(Some(info)) => {
                        self.phase = UpdatePhase::Installing;
                        let mut line = String::from_str("update available: ");
                        line.append(info.current_version.as_str());
                        line.append(" -> ");
                        line.append(info.version.as_str());
                        UpdateStep {
                            log: Some(LogEvent::new("stdout", line)),
                            request: UpdateRequest::Install,
                        }
                    },
                    Ok(None) => {
                        self.phase = UpdatePhase::Stopped;
                        UpdateStep {
                            log: Some(
                                LogEvent::new("stdout", String::from_str("no update available")),
                            ),
                            request: UpdateRequest::Stop,
                        }
                    },
                    Err(t) => {
                        self.phase = UpdatePhase::Stopped;
                        log_step("stderr", "update check failed: ", t.as_str(), UpdateRequest::Stop)
                    },
                },
                _ => UpdateStep { log: None, request: UpdateRequest::Idle },
            },
            UpdatePhase::Installing => match event {
                UpdateEvent::Installed(r) => match r {
                    Ok(_) => {
                        self.phase = UpdatePhase::Stopped;
                        UpdateStep { log: None, request: UpdateRequest::Restart }
                    },
                    Err(t) => {
                        self.phase = UpdatePhase::Stopped;
                        log_step(
                            "stderr",
                            "update install failed: ",
                            t.as_str(),
                            UpdateRequest::Stop,
                        )
                    },
                },
                _ => UpdateStep { log: None, request: UpdateRequest::Idle },
            },
            UpdatePhase::Stopped => UpdateStep { log: None, request: UpdateRequest::Idle },
        }
    }
}


/// The app restarts only after a release was installed without error.
pub proof fn lemma_restart_only_after_install(u: UpdateCheck, e: UpdateEvent)
    requires
        update_next(u, e).1.request == UpdateRequest::Restart,
    ensures
        u.phase == UpdatePhase::Installing,
        e matches UpdateEvent::Installed(r) && r is Ok,
{
}

/// A release is installed only when the check found one, and the versions
/// are logged first.
pub proof fn lemma_install_only_when_found(u: UpdateCheck, e: UpdateEvent)
    requires
        update_next(u, e).1.request == UpdateRequest::Install,
    ensures
        u.phase == UpdatePhase::Checking,
        e matches UpdateEvent::Checked(r) && r matches Ok(found) && found is Some,
        update_next(u, e).1.log == Some(
            LogView {
                stream: "stdout"@,
                line: "update available: "@ + e->Checked_0->Ok_0->Some_0.current_version@
                    + " -> "@ + e->Checked_0->Ok_0->Some_0.version@,
            },
        ),
{
}

/// Every failure is logged on the error stream and ends the check.
pub proof fn lemma_failures_logged(u: UpdateCheck, e: UpdateEvent)
    requires
        u.phase != UpdatePhase::Stopped,
        e is UpdaterUnavailable || (e matches UpdateEvent::Checked(r) && r is Err) || (
        e matches UpdateEvent::Installed(r) && r is Err),
        update_next(u, e).1.request != UpdateRequest::Idle,
    ensures
        update_next(u, e).1.request == UpdateRequest::Stop,
        update_next(u, e).1.log matches Some(l) && l.stream == "stderr"@,
        update_next(u, e).0.phase == UpdatePhase::Stopped,
{
}


/// How far the update check has come.
pub open spec fn update_progress(phase: UpdatePhase) -> int {
    match phase {
        UpdatePhase::Opening => 0,
        UpdatePhase::Checking => 1,
        UpdatePhase::Installing => 2,
        UpdatePhase::Stopped => 3,
    }
}

/// The update check always moves forward: every step that asks for
/// something other than nothing advances it, so it asks at most three times
/// after it began and never checks or installs twice.
pub proof fn lemma_update_check_moves_forward(u: UpdateCheck, e: UpdateEvent)
    requires
        update_next(u, e).1.request != UpdateRequest::Idle,
    ensures
        update_progress(update_next(u, e).0.phase) > update_progress(u.phase),
{
}

/// A check is asked for only right after the updater became ready, and a
/// check that finds no release logs `no update available` and ends the
/// update check.
pub proof fn lemma_no_release_ends_check(u: UpdateCheck, e: UpdateEvent)
    ensures
        update_next(u, e).1.request == UpdateRequest::Check ==> u.phase == UpdatePhase::Opening
            && e is UpdaterReady,
        u.phase == UpdatePhase::Checking ==> ({
            let after = update_next(u, UpdateEvent::Checked(Ok(None)));
            &&& after.1.request == UpdateRequest::Stop
            &&& after.0.phase == UpdatePhase::Stopped
            &&& after.1.log == Some(LogView { stream: "stdout"@, line: "no update available"@ })
        }),
{
}

} // verus!
