//! The bootstrap of the local server as a state machine. The app performs
//! each request (probing the URL, taking the launch lock, spawning the
//! process, sleeping) and hands back what happened; the machine decides what
//! comes next.

use vstd::prelude::*;
use crate::config::{AppConfig, local_url, local_url_of, opt_str};
use crate::error::BootError;
use crate::events::{
    BootstrapResponse, ChildStatus, ResponseView, StatusEvent, StatusView, exit_code_text,
    exit_code_text_of, status_of,
};
use crate::launch::{LaunchCommand, LaunchView, launch_command, launch_plan};
use crate::text::{decimal, u64_to_decimal};

verus! {

/// Pause between two probes of the URL, in milliseconds.
pub const PROBE_INTERVAL_MS: u64 = 250;

/// How long the server is given to answer, in seconds.
pub const STARTUP_TIMEOUT_SECS: u64 = 30;

/// The same, in nanoseconds.
pub const STARTUP_TIMEOUT_NS: u64 = 30_000_000_000;

/// Where a bootstrap stands: each phase waits for one kind of event.
#[derive(Clone, Copy, PartialEq, Eq, Structural)]
pub enum BootPhase {
    /// Waiting for the first probe of the URL.
    Probing,
    /// Waiting to learn whether this request may launch the server.
    Claiming,
    /// The launch is claimed elsewhere; pausing before probing again.
    Backoff,
    /// The launch is claimed elsewhere; waiting for a probe of the URL, so
    /// that a server started meanwhile is reused.
    Reprobing,
    /// Waiting for the configuration to launch with.
    Configuring,
    /// Waiting to learn whether the launch lock was taken.
    Locking,
    /// Another instance holds the lock; waiting for a probe of the URL.
    AwaitingOther,
    /// Another instance holds the lock; pausing between probes.
    OtherBackoff,
    /// The lock is held; waiting for one more probe before launching.
    Rechecking,
    /// Waiting for the binary to launch.
    Resolving,
    /// Waiting for the browser opener shims.
    PreparingShims,
    /// Waiting for the process to start.
    Spawning,
    /// The process runs; waiting for a probe of the URL.
    AwaitingReady,
    /// The server did not answer; waiting for the state of the process.
    Inspecting,
    /// The process runs; pausing between probes.
    ReadyBackoff,
    /// The server never answered; waiting for the process to be stopped.
    ShuttingDown,
    /// The bootstrap has answered the window.
    Done,
}

/// What happened when the app carried out the last request.
pub enum BootEvent {
    /// The URL was probed: whether OpenCode answered.
    Probed(bool),
    /// Whether this request may launch (no launch under way, no process).
    Claimed(bool),
    /// The pause is over.
    Slept,
    /// The configuration to launch with.
    Config(AppConfig),
    /// Whether the launch lock was taken.
    LockAcquired(bool),
    /// The binary to launch, or why there is none.
    BinaryResolved(Result<String, BootError>),
    /// The shims directory is ready; the inherited search path.
    ShimsReady { dir: String, inherited_path: Option<String> },
    /// The shims could not be prepared.
    ShimsFailed(BootError),
    /// The process started (and is now recorded), or the error text.
    Spawned(Result<(), String>),
    /// What inspecting the process found.
    Child(ChildStatus),
    /// The process was stopped.
    ShutDown,
}

/// What the app is asked to do next.
pub enum BootRequest {
    /// Probe the URL and report `Probed`.
    Probe,
    /// Try to claim the launch and report `Claimed`.
    ClaimLaunch,
    /// Sleep this many milliseconds and report `Slept`.
    Sleep(u64),
    /// Report the current configuration as `Config`.
    ReadConfig,
    /// Try to take the launch lock and report `LockAcquired`.
    AcquireLock,
    /// Find the binary, given the configured path, and report
    /// `BinaryResolved`.
    ResolveBinary(Option<String>),
    /// Prepare the opener shims and report `ShimsReady` or `ShimsFailed`.
    PrepareShims,
    /// Start this command, record the process (together with the launch
    /// lock when `with_lock`), and report `Spawned`.
    Spawn { command: LaunchCommand, with_lock: bool },
    /// Inspect the recorded process and report `Child`.
    InspectChild,
    /// Stop the recorded process and report `ShutDown`.
    Shutdown,
    /// Answer the window; release the launch claim and start watching the
    /// process as told. Nothing follows.
    Finish { outcome: Result<BootstrapResponse, BootError>, release_claim: bool, start_monitor: bool },
    /// Nothing to do: the event was not the one awaited.
    Idle,
}

/// What a request says.
pub enum RequestView {
    Probe,
    ClaimLaunch,
    Sleep(u64),
    ReadConfig,
    AcquireLock,
    ResolveBinary(Option<Seq<char>>),
    PrepareShims,
    Spawn { command: LaunchView, with_lock: bool },
    InspectChild,
    Shutdown,
    Finish { outcome: Result<ResponseView, Seq<char>>, release_claim: bool, start_monitor: bool },
    Idle,
}

impl View for BootRequest {
    type V = RequestView;

    open spec fn view(&self) -> RequestView {
        match self {
            BootRequest::Probe => RequestView::Probe,
            BootRequest::ClaimLaunch => RequestView::ClaimLaunch,
            BootRequest::Sleep(ms) => RequestView::Sleep(*ms),
            BootRequest::ReadConfig => RequestView::ReadConfig,
            BootRequest::AcquireLock => RequestView::AcquireLock,
            BootRequest::ResolveBinary(p) => RequestView::ResolveBinary(opt_str(*p)),
            BootRequest::PrepareShims => RequestView::PrepareShims,
            BootRequest::Spawn { command, with_lock } => RequestView::Spawn {
                command: command@,
                with_lock: *with_lock,
            },
            BootRequest::InspectChild => RequestView::InspectChild,
            BootRequest::Shutdown => RequestView::Shutdown,
            BootRequest::Finish { outcome, release_claim, start_monitor } => RequestView::Finish {
                outcome: match outcome {
                    Ok(r) => Ok(r@),
                    Err(e) => Err(e@),
                },
                release_claim: *release_claim,
                start_monitor: *start_monitor,
            },
            BootRequest::Idle => RequestView::Idle,
        }
    }
}

/// One step of the machine: a status to show first, whether to forget the
/// recorded process, and the next request.
pub struct BootStep {
    pub status: Option<StatusEvent>,
    pub clear_process: bool,
    pub request: BootRequest,
}

/// What a step says.
pub struct StepView {
    pub status: Option<StatusView>,
    pub clear_process: bool,
    pub request: RequestView,
}

impl View for BootStep {
    type V = StepView;

    open spec fn view(&self) -> StepView {
        StepView {
            status: match self.status {
                Some(s) => Some(s@),
                None => None,
            },
            clear_process: self.clear_process,
            request: self.request@,
        }
    }
}

/// The state of one bootstrap.
pub struct BootMachine {
    pub phase: BootPhase,
    /// The URL of the local server.
    pub url: String,
    /// The configuration to launch with, once read.
    pub config: AppConfig,
    /// The binary to launch, once found.
    pub binary: String,
    /// This bootstrap holds the launch claim.
    pub claimed: bool,
    /// This bootstrap holds the launch lock.
    pub lock_held: bool,
    /// This bootstrap started the server process.
    pub spawned: bool,
    /// When the current wait for an answer began, in nanoseconds.
    pub since: u64,
}

/// More than the startup timeout has passed since `since`.
pub open spec fn timed_out(since: u64, now: u64) -> bool {
    now > since && now - since > STARTUP_TIMEOUT_NS
}

/// The error when the server did not answer in time.
pub open spec fn timeout_message() -> Seq<char> {
    "OpenCode did not answer within "@ + decimal(STARTUP_TIMEOUT_SECS as nat) + " seconds."@
}

/// The answer for a server this app did not start.
pub open spec fn existing_answer(url: Seq<char>) -> ResponseView {
    ResponseView { url, source: "existing"@ }
}

/// The answer for a server this app started.
pub open spec fn spawned_answer(url: Seq<char>) -> ResponseView {
    ResponseView { url, source: "spawned"@ }
}

/// The status shown while probing first.
pub open spec fn checking_status() -> StatusView {
    status_of("checking"@, "Checking OpenCode"@, Some("Probing the local server first."@))
}

/// The status shown when a running server is reused.
pub open spec fn reused_status() -> StatusView {
    status_of("ready"@, "OpenCode is already running"@, Some("Reusing the existing local instance."@))
}

/// The status shown while the binary is looked for.
pub open spec fn resolving_status() -> StatusView {
    status_of(
        "resolving"@,
        "Locating OpenCode"@,
        Some("Searching PATH and common macOS locations."@),
    )
}

/// The status shown while another instance launches the server.
pub open spec fn waiting_other_status() -> StatusView {
    status_of(
        "waiting"@,
        "Waiting for OpenCode"@,
        Some("Another OpenCode UI instance is starting the server."@),
    )
}

/// The status shown when the other instance's server answered.
pub open spec fn other_ready_status() -> StatusView {
    status_of("ready"@, "OpenCode is ready"@, Some("The existing launch finished successfully."@))
}

/// The status shown when the launch begins.
pub open spec fn starting_status(binary: Seq<char>) -> StatusView {
    status_of("starting"@, "Starting OpenCode"@, Some("Launching "@ + binary))
}

/// The status shown while the started server comes up.
pub open spec fn waiting_ready_status(url: Seq<char>) -> StatusView {
    status_of("waiting"@, "Waiting for OpenCode"@, Some("Waiting for "@ + url + " to respond."@))
}

/// The status shown when the started server answered.
pub open spec fn spawned_ready_status() -> StatusView {
    status_of("ready"@, "OpenCode is ready"@, Some("Loading the local OpenCode web UI."@))
}

/// A step that shows `status` (if any) and makes `request`.
pub open spec fn ask(status: Option<StatusView>, request: RequestView) -> StepView {
    StepView { status, clear_process: false, request }
}

/// A step that answers the window.
pub open spec fn answer(
    status: Option<StatusView>,
    clear_process: bool,
    outcome: Result<ResponseView, Seq<char>>,
    release_claim: bool,
    start_monitor: bool,
) -> StepView {
    StepView {
        status,
        clear_process,
        request: RequestView::Finish { outcome, release_claim, start_monitor },
    }
}

/// The step for an event that is not the one awaited.
pub open spec fn idle_step() -> StepView {
    StepView { status: None, clear_process: false, request: RequestView::Idle }
}

/// The machine after answering: nothing held any more.
pub open spec fn finished(m: BootMachine) -> BootMachine {
    BootMachine { phase: BootPhase::Done, claimed: false, lock_held: false, ..m }
}

/// The machine in `phase`, all else unchanged.
pub open spec fn moved(m: BootMachine, phase: BootPhase) -> BootMachine {
    BootMachine { phase, ..m }
}

/// The inherited search path (absent counts as empty).
pub open spec fn inherited_of(p: Option<String>) -> Seq<char> {
    match p {
        Some(s) => s@,
        None => Seq::empty(),
    }
}

/// The transition of the machine: given the event that answers the pending
/// request, and the time it arrived, the next state and step.
pub open spec fn boot_next(m: BootMachine, e: BootEvent, now: u64) -> (BootMachine, StepView) {
    match (m.phase, e) {
        (BootPhase::Probing, BootEvent::Probed(up)) => if up {
            (finished(m), answer(Some(reused_status()), false, Ok(existing_answer(m.url@)), false, false))
        } else {
            (moved(m, BootPhase::Claiming), ask(None, RequestView::ClaimLaunch))
        },
        (BootPhase::Claiming, BootEvent::Claimed(granted)) => if granted {
            (
                BootMachine { phase: BootPhase::Configuring, claimed: true, ..m },
                ask(None, RequestView::ReadConfig),
            )
        } else {
            (moved(m, BootPhase::Backoff), ask(None, RequestView::Sleep(PROBE_INTERVAL_MS)))
        },
        (BootPhase::Backoff, BootEvent::Slept) => (
            moved(m, BootPhase::Reprobing),
            ask(None, RequestView::Probe),
        ),
        (BootPhase::Reprobing, BootEvent::Probed(up)) => if up {
            (finished(m), answer(Some(reused_status()), false, Ok(existing_answer(m.url@)), false, false))
        } else {
            (moved(m, BootPhase::Claiming), ask(None, RequestView::ClaimLaunch))
        },
        (BootPhase::Configuring, BootEvent::Config(c)) => (
            BootMachine { phase: BootPhase::Locking, config: c, ..m },
            ask(Some(resolving_status()), RequestView::AcquireLock),
        ),
        (BootPhase::Locking, BootEvent::LockAcquired(taken)) => if taken {
            (
                BootMachine { phase: BootPhase::Rechecking, lock_held: true, ..m },
                ask(None, RequestView::Probe),
            )
        } else {
            (
                BootMachine { phase: BootPhase::AwaitingOther, since: now, ..m },
                ask(Some(waiting_other_status()), RequestView::Probe),
            )
        },
        (BootPhase::AwaitingOther, BootEvent::Probed(up)) => if up {
            (
                finished(m),
                answer(Some(other_ready_status()), false, Ok(existing_answer(m.url@)), m.claimed, false),
            )
        } else if timed_out(m.since, now) {
            (finished(m), answer(None, false, Err(timeout_message()), m.claimed, false))
        } else {
            (moved(m, BootPhase::OtherBackoff), ask(None, RequestView::Sleep(PROBE_INTERVAL_MS)))
        },
        (BootPhase::OtherBackoff, BootEvent::Slept) => (
            moved(m, BootPhase::AwaitingOther),
            ask(None, RequestView::Probe),
        ),
        (BootPhase::Rechecking, BootEvent::Probed(up)) => if up {
            (finished(m), answer(None, false, Ok(existing_answer(m.url@)), m.claimed, false))
        } else {
            (
                moved(m, BootPhase::Resolving),
                ask(None, RequestView::ResolveBinary(opt_str(m.config.binary_path))),
            )
        },
        (BootPhase::Resolving, BootEvent::BinaryResolved(r)) => match r {
            Ok(b) => (
                BootMachine { phase: BootPhase::PreparingShims, binary: b, ..m },
                ask(None, RequestView::PrepareShims),
            ),
            Err(err) => (finished(m), answer(None, false, Err(err@), m.claimed, false)),
        },
        (BootPhase::PreparingShims, BootEvent::ShimsReady { dir, inherited_path }) => (
            moved(m, BootPhase::Spawning),
            ask(
                Some(starting_status(m.binary@)),
                RequestView::Spawn {
                    command: launch_plan(m.config@, m.binary@, dir@, inherited_of(inherited_path)),
                    with_lock: m.lock_held,
                },
            ),
        ),
        (BootPhase::PreparingShims, BootEvent::ShimsFailed(err)) => (
            finished(m),
            answer(None, false, Err(err@), m.claimed, false),
        ),
        (BootPhase::Spawning, BootEvent::Spawned(r)) => match r {
            Ok(_) => (
                BootMachine { phase: BootPhase::AwaitingReady, spawned: true, since: now, ..m },
                ask(Some(waiting_ready_status(m.url@)), RequestView::Probe),
            ),
            Err(t) => (
                finished(m),
                answer(None, false, Err("Failed to launch OpenCode: "@ + t@), m.claimed, false),
            ),
        },
        (BootPhase::AwaitingReady, BootEvent::Probed(up)) => if up {
            (
                finished(m),
                answer(Some(spawned_ready_status()), false, Ok(spawned_answer(m.url@)), m.claimed, true),
            )
        } else {
            (moved(m, BootPhase::Inspecting), ask(None, RequestView::InspectChild))
        },
        (BootPhase::Inspecting, BootEvent::Child(c)) => match c {
            ChildStatus::Exited { code, elapsed } => (
                finished(m),
                answer(
                    None,
                    true,
                    Err(
                        "OpenCode exited after "@ + elapsed@ + " with status "@
                            + exit_code_text_of(code) + "."@,
                    ),
                    m.claimed,
                    false,
                ),
            ),
            ChildStatus::InspectFailed(t) => (
                finished(m),
                answer(None, true, Err("Failed to inspect OpenCode process: "@ + t@), m.claimed, false),
            ),
            _ => if timed_out(m.since, now) {
                (moved(m, BootPhase::ShuttingDown), ask(None, RequestView::Shutdown))
            } else {
                (moved(m, BootPhase::ReadyBackoff), ask(None, RequestView::Sleep(PROBE_INTERVAL_MS)))
            },
        },
        (BootPhase::ReadyBackoff, BootEvent::Slept) => (
            moved(m, BootPhase::AwaitingReady),
            ask(None, RequestView::Probe),
        ),
        (BootPhase::ShuttingDown, BootEvent::ShutDown) => (
            finished(m),
            answer(None, false, Err(timeout_message()), m.claimed, false),
        ),
        _ => (m, idle_step()),
    }
}


fn status_event(phase: &str, message: &str, detail: String) -> (e: StatusEvent)
    ensures
        e@ == status_of(phase@, message@, Some(detail@)),
{
    StatusEvent::new(phase, message, Some(detail))
}

fn asking(status: Option<StatusEvent>, request: BootRequest) -> (s: BootStep)
    ensures
        s@ == ask(
            match status {
                Some(e) => Some(e@),
                None => None,
            },
            request@,
        ),
{
    BootStep { status, clear_process: false, request }
}

fn answering(
    status: Option<StatusEvent>,
    clear_process: bool,
    outcome: Result<BootstrapResponse, BootError>,
    release_claim: bool,
    start_monitor: bool,
) -> (s: BootStep)
    ensures
        s@ == answer(
            match status {
                Some(e) => Some(e@),
                None => None,
            },
            clear_process,
            match outcome {
                Ok(r) => Ok(r@),
                Err(e) => Err(e@),
            },
            release_claim,
            start_monitor,
        ),
{
    BootStep {
        status,
        clear_process,
        request: BootRequest::Finish { outcome, release_claim, start_monitor },
    }
}

fn idle() -> (s: BootStep)
    ensures
        s@ == idle_step(),
{
    BootStep { status: None, clear_process: false, request: BootRequest::Idle }
}

fn response(url: &String, source: &str) -> (r: BootstrapResponse)
    ensures
        r@ == (ResponseView { url: url@, source: source@ }),
{
    BootstrapResponse { url: url.clone(), source: String::from_str(source) }
}

fn message_error(prefix: &str, text: &str) -> (e: BootError)
    ensures
        e@ == prefix@ + text@,
{
    let mut m = String::from_str(prefix);
    m.append(text);
    BootError::Message(m)
}

/// Whether more than the startup timeout has passed since `since`.
pub fn is_timed_out(since: u64, now: u64) -> (b: bool)
    ensures
        b == timed_out(since, now),
{
    now > since && now - since > STARTUP_TIMEOUT_NS
}

/// The error when the server did not answer in time.
pub fn timeout_error() -> (e: BootError)
    ensures
        e@ == timeout_message(),
{
    let mut m = String::from_str("OpenCode did not answer within ");
    let secs = u64_to_decimal(STARTUP_TIMEOUT_SECS);
    m.append(secs.as_str());
    m.append(" seconds.");
    BootError::Message(m)
}

/// The status shown when the window opens, naming the server's URL.
pub fn target_status(port: u16) -> (e: StatusEvent)
    ensures
        e@ == status_of(
            "checking"@,
            "Checking OpenCode"@,
            Some("Local server target: "@ + local_url_of(port) + "."@),
        ),
{
    let mut detail = String::from_str("Local server target: ");
    let url = local_url(port);
    detail.append(url.as_str());
    detail.append(".");
    status_event("checking", "Checking OpenCode", detail)
}

/// Claims the launch for one bootstrap: granted when no launch is under way
/// and no process is recorded, and then marked as under way.
pub fn claim_launch(booting: &mut bool, process_running: bool) -> (granted: bool)
    ensures
        granted == launch_granted(*old(booting), process_running),
        *final(booting) == (*old(booting) || granted),
{
    if *booting || process_running {
        false
    } else {
        *booting = true;
        true
    }
}

impl BootMachine {
    /// Begins a bootstrap for the server on `port`: shows the checking
    /// status and probes the URL.
    pub fn start(port: u16) -> (r: (BootMachine, BootStep))
        ensures
            r.0.phase == BootPhase::Probing,
            r.0.url@ == local_url_of(port),
            !r.0.claimed,
            !r.0.lock_held,
            !r.0.spawned,
            boot_invariant(r.0),
            r.1@ == ask(Some(checking_status()), RequestView::Probe),
    {
        let m = BootMachine {
            phase: BootPhase::Probing,
            url: local_url(port),
            config: AppConfig::defaults(None),
            binary: String::new(),
            claimed: false,
            lock_held: false,
            spawned: false,
            since: 0,
        };
        let status = status_event(
            "checking",
            "Checking OpenCode",
            String::from_str("Probing the local server first."),
        );
        (m, asking(Some(status), BootRequest::Probe))
    }

    fn finish(&mut self)
        ensures
            *final(self) == finished(*old(self)),
    {
        self.phase = BootPhase::Done;
        self.claimed = false;
        self.lock_held = false;
    }

    /// Takes in what happened, at time `now` (nanoseconds on a monotonic
    /// clock), and says what to do next.
    pub fn step(&mut self, event: BootEvent, now: u64) -> (out: BootStep)
        ensures
            (*final(self), out@) == boot_next(*old(self), event, now),
    {
        match self.phase {
            BootPhase::Probing => match event {
                BootEvent::Probed(up) => {
                    if up {
                        let st = status_event(
                            "ready",
                            "OpenCode is already running",
                            String::from_str("Reusing the existing local instance."),
                        );
                        let r = response(&self.url, "existing");
                        self.finish();
                        answering(Some(st), false, Ok(r), false, false)
                    } else {
                        self.phase = BootPhase::Claiming;
                        asking(None, BootRequest::ClaimLaunch)
                    }
                },
                _ => idle(),
            },
            BootPhase::Claiming => match event {
                BootEvent::Claimed(granted) => {
                    if granted {
                        self.phase = BootPhase::Configuring;
                        self.claimed = true;
                        asking(None, BootRequest::ReadConfig)
                    } else {
                        self.phase = BootPhase::Backoff;
                        asking(None, BootRequest::Sleep(PROBE_INTERVAL_MS))
                    }
                },
                _ => idle(),
            },
            BootPhase::Backoff => match event {
                BootEvent::Slept => {
                    self.phase = BootPhase::Reprobing;
                    asking(None, BootRequest::Probe)
                },
                _ => idle(),
            },
            BootPhase::Reprobing => match event {
                BootEvent::Probed(up) => {
                    if up {
                        let st = status_event(
                            "ready",
                            "OpenCode is already running",
                            String::from_str("Reusing the existing local instance."),
                        );
                        let r = response(&self.url, "existing");
                        self.finish();
                        answering(Some(st), false, Ok(r), false, false)
                    } else {
                        self.phase = BootPhase::Claiming;
                        asking(None, BootRequest::ClaimLaunch)
                    }
                },
                _ => idle(),
            },
            BootPhase::Configuring => match event {
                BootEvent::Config(c) => {
                    self.phase = BootPhase::Locking;
                    self.config = c;
                    let st = status_event(
                        "resolving",
                        "Locating OpenCode",
                        String::from_str("Searching PATH and common macOS locations."),
                    );
                    asking(Some(st), BootRequest::AcquireLock)
                },
                _ => idle(),
            },
            BootPhase::Locking => match event {
                BootEvent::LockAcquired(taken) => {
                    if taken {
                        self.phase = BootPhase::Rechecking;
                        self.lock_held = true;
                        asking(None, BootRequest::Probe)
                    } else {
                        self.phase = BootPhase::AwaitingOther;
                        self.since = now;
                        let st = status_event(
                            "waiting",
                            "Waiting for OpenCode",
                            String::from_str("Another OpenCode UI instance is starting the server."),
                        );
                        asking(Some(st), BootRequest::Probe)
                    }
                },
                _ => idle(),
            },
            BootPhase::AwaitingOther => match event {
                BootEvent::Probed(up) => {
                    if up {
                        let st = status_event(
                            "ready",
                            "OpenCode is ready",
                            String::from_str("The existing launch finished successfully."),
                        );
                        let r = response(&self.url, "existing");
                        let release = self.claimed;
                        self.finish();
                        answering(Some(st), false, Ok(r), release, false)
                    } else if is_timed_out(self.since, now) {
                        let release = self.claimed;
                        self.finish();
                        answering(None, false, Err(timeout_error()), release, false)
                    } else {
                        self.phase = BootPhase::OtherBackoff;
                        asking(None, BootRequest::Sleep(PROBE_INTERVAL_MS))
                    }
                },
                _ => idle(),
            },
            BootPhase::OtherBackoff => match event {
                BootEvent::Slept => {
                    self.phase = BootPhase::AwaitingOther;
                    asking(None, BootRequest::Probe)
                },
                _ => idle(),
            },
            BootPhase::Rechecking => match event {
                BootEvent::Probed(up) => {
                    if up {
                        let r = response(&self.url, "existing");
                        let release = self.claimed;
                        self.finish();
                        answering(None, false, Ok(r), release, false)
                    } else {
                        self.phase = BootPhase::Resolving;
                        let configured = match &self.config.binary_path {
                            Some(p) => Some(p.clone()),
                            None => None,
                        };
                        asking(None, BootRequest::ResolveBinary(configured))
                    }
                },
                _ => idle(),
            },
            BootPhase::Resolving => match event {
                BootEvent::BinaryResolved(r) => match r {
                    Ok(b) => {
                        self.phase = BootPhase::PreparingShims;
                        self.binary = b;
                        asking(None, BootRequest::PrepareShims)
                    },
                    Err(err) => {
                        let release = self.claimed;
                        self.finish();
                        answering(None, false, Err(err), release, false)
                    },
                },
                _ => idle(),
            },
            BootPhase::PreparingShims => match event {
                BootEvent::ShimsReady { dir, inherited_path } => {
                    self.phase = BootPhase::Spawning;
                    let mut detail = String::from_str("Launching ");
                    detail.append(self.binary.as_str());
                    let st = status_event("starting", "Starting OpenCode", detail);
                    let cmd = launch_command(
                        &self.config,
                        self.binary.as_str(),
                        dir.as_str(),
                        &inherited_path,
                    );
                    asking(Some(st), BootRequest::Spawn { command: cmd, with_lock: self.lock_held })
                },
                BootEvent::ShimsFailed(err) => {
                    let release = self.claimed;
                    self.finish();
                    answering(None, false, Err(err), release, false)
                },
                _ => idle(),
            },
            BootPhase::Spawning => match event {
                BootEvent::Spawned(r) => match r {
                    Ok(_) => {
                        self.phase = BootPhase::AwaitingReady;
                        self.spawned = true;
                        self.since = now;
                        let mut detail = String::from_str("Waiting for ");
                        detail.append(self.url.as_str());
                        detail.append(" to respond.");
                        let st = status_event("waiting", "Waiting for OpenCode", detail);
                        asking(Some(st), BootRequest::Probe)
                    },
                    Err(t) => {
                        let release = self.claimed;
                        self.finish();
                        let e = message_error("Failed to launch OpenCode: ", t.as_str());
                        answering(None, false, Err(e), release, false)
                    },
                },
                _ => idle(),
            },
            BootPhase::AwaitingReady => match event {
                BootEvent::Probed(up) => {
                    if up {
                        let st = status_event(
                            "ready",
                            "OpenCode is ready",
                            String::from_str("Loading the local OpenCode web UI."),
                        );
                        let r = response(&self.url, "spawned");
                        let release = self.claimed;
                        self.finish();
                        answering(Some(st), false, Ok(r), release, true)
                    } else {
                        self.phase = BootPhase::Inspecting;
                        asking(None, BootRequest::InspectChild)
                    }
                },
                _ => idle(),
            },
            BootPhase::Inspecting => match event {
                BootEvent::Child(c) => match c {
                    ChildStatus::Exited { code, elapsed } => {
                        let release = self.claimed;
                        self.finish();
                        let mut m = String::from_str("OpenCode exited after ");
                        m.append(elapsed.as_str());
                        m.append(" with status ");
                        let code_text = exit_code_text(code);
                        m.append(code_text.as_str());
                        m.append(".");
                        answering(None, true, Err(BootError::Message(m)), release, false)
                    },
                    ChildStatus::InspectFailed(t) => {
                        let release = self.claimed;
                        self.finish();
                        let e = message_error("Failed to inspect OpenCode process: ", t.as_str());
                        answering(None, true, Err(e), release, false)
                    },
                    _ => {
                        if is_timed_out(self.since, now) {
                            self.phase = BootPhase::ShuttingDown;
                            asking(None, BootRequest::Shutdown)
                        } else {
                            self.phase = BootPhase::ReadyBackoff;
                            asking(None, BootRequest::Sleep(PROBE_INTERVAL_MS))
                        }
                    },
                },
                _ => idle(),
            },
            BootPhase::ReadyBackoff => match event {
                BootEvent::Slept => {
                    self.phase = BootPhase::AwaitingReady;
                    asking(None, BootRequest::Probe)
                },
                _ => idle(),
            },
            BootPhase::ShuttingDown => match event {
                BootEvent::ShutDown => {
                    let release = self.claimed;
                    self.finish();
                    answering(None, false, Err(timeout_error()), release, false)
                },
                _ => idle(),
            },
            BootPhase::Done => idle(),
        }
    }
}


/// What each phase holds: before the launch is claimed nothing is held;
/// while waiting on the lock or on another instance only the claim is held;
/// from the lock on both are held, and from the start of the process it is
/// this bootstrap's own; after answering nothing is held.
pub open spec fn boot_invariant(m: BootMachine) -> bool {
    match m.phase {
        BootPhase::Probing | BootPhase::Claiming | BootPhase::Backoff
        | BootPhase::Reprobing => !m.claimed && !m.lock_held
            && !m.spawned,
        BootPhase::Configuring | BootPhase::Locking | BootPhase::AwaitingOther
        | BootPhase::OtherBackoff => m.claimed && !m.lock_held && !m.spawned,
        BootPhase::Rechecking | BootPhase::Resolving | BootPhase::PreparingShims
        | BootPhase::Spawning => m.claimed && m.lock_held && !m.spawned,
        BootPhase::AwaitingReady | BootPhase::Inspecting | BootPhase::ReadyBackoff
        | BootPhase::ShuttingDown => m.claimed && m.lock_held && m.spawned,
        BootPhase::Done => !m.claimed && !m.lock_held,
    }
}

/// A bootstrap begins in a state that meets the invariant.
pub proof fn lemma_start_invariant(m: BootMachine)
    requires
        m.phase == BootPhase::Probing,
        !m.claimed,
        !m.lock_held,
        !m.spawned,
    ensures
        boot_invariant(m),
{
}

/// Every step keeps the invariant.
pub proof fn lemma_step_keeps_invariant(m: BootMachine, e: BootEvent, now: u64)
    requires
        boot_invariant(m),
    ensures
        boot_invariant(boot_next(m, e, now).0),
{
}

/// The window is switched to the server only once it answered: a
/// successful answer follows a probe that found OpenCode.
pub proof fn lemma_ready_only_after_answer(m: BootMachine, e: BootEvent, now: u64)
    requires
        boot_next(m, e, now).1.request matches RequestView::Finish { outcome, .. } && outcome is Ok,
    ensures
        e matches BootEvent::Probed(up) && up,
{
}

/// A server already answering is reused: when the first probe finds
/// OpenCode, the answer is the existing server at the machine's URL, the
/// reuse is shown, and nothing is claimed or launched.
pub proof fn lemma_running_server_reused(m: BootMachine, now: u64)
    requires
        m.phase == BootPhase::Probing,
    ensures
        boot_next(m, BootEvent::Probed(true), now).1 == answer(
            Some(reused_status()),
            false,
            Ok(existing_answer(m.url@)),
            false,
            false,
        ),
        boot_next(m, BootEvent::Probed(true), now).0.phase == BootPhase::Done,
{
}

/// One launch at a time: the server is only started by a bootstrap that
/// holds both the launch claim of this app and the launch lock shared by all
/// instances, and the process is recorded together with that lock.
pub proof fn lemma_spawn_needs_claim_and_lock(m: BootMachine, e: BootEvent, now: u64)
    requires
        boot_invariant(m),
        boot_next(m, e, now).1.request is Spawn,
    ensures
        m.claimed,
        m.lock_held,
        !m.spawned,
        boot_next(m, e, now).1.request->with_lock,
{
}

/// Only the process started by this bootstrap is stopped or forgotten.
pub proof fn lemma_only_own_process_touched(m: BootMachine, e: BootEvent, now: u64)
    requires
        boot_invariant(m),
        boot_next(m, e, now).1.clear_process || boot_next(m, e, now).1.request is Shutdown,
    ensures
        m.spawned,
{
}

/// Every answer is final and gives back what the bootstrap held: the launch
/// claim is released exactly when it was taken, and afterwards nothing is
/// held.
pub proof fn lemma_answer_releases_claim(m: BootMachine, e: BootEvent, now: u64)
    requires
        boot_invariant(m),
        boot_next(m, e, now).1.request is Finish,
    ensures
        boot_next(m, e, now).1.request->release_claim == m.claimed,
        boot_next(m, e, now).0.phase == BootPhase::Done,
        !boot_next(m, e, now).0.claimed,
        !boot_next(m, e, now).0.lock_held,
{
}

/// A successful answer names the machine's URL, and says `spawned` exactly
/// when this bootstrap started the server; only then is the process
/// watched.
pub proof fn lemma_answer_names_source(m: BootMachine, e: BootEvent, now: u64)
    requires
        boot_invariant(m),
        boot_next(m, e, now).1.request matches RequestView::Finish { outcome, .. } && outcome is Ok,
    ensures
        boot_next(m, e, now).1.request->outcome->Ok_0.url == m.url@,
        boot_next(m, e, now).1.request->outcome->Ok_0.source == (if m.spawned {
            "spawned"@
        } else {
            "existing"@
        }),
        boot_next(m, e, now).1.request->start_monitor == m.spawned,
{
}

/// No wait gives up early: the server is stopped, or a wait ends in an
/// error after an unanswered probe, only once the startup timeout has passed
/// since the wait began.
pub proof fn lemma_gives_up_only_after_timeout(m: BootMachine, e: BootEvent, now: u64)
    requires
        boot_next(m, e, now).1.request is Shutdown || (e is Probed && (boot_next(
            m,
            e,
            now,
        ).1.request matches RequestView::Finish { outcome, .. } && outcome is Err)),
    ensures
        timed_out(m.since, now),
{
}

/// While the deadline has not passed, an unanswered probe is followed by a
/// pause and another probe.
pub proof fn lemma_keeps_waiting_before_timeout(m: BootMachine, now: u64)
    requires
        m.phase == BootPhase::AwaitingOther,
        !timed_out(m.since, now),
    ensures
        boot_next(m, BootEvent::Probed(false), now).1 == ask(
            None,
            RequestView::Sleep(PROBE_INTERVAL_MS),
        ),
        boot_next(boot_next(m, BootEvent::Probed(false), now).0, BootEvent::Slept, now).1 == ask(
            None,
            RequestView::Probe,
        ),
{
}

/// A finished bootstrap does nothing more, whatever it is told.
pub proof fn lemma_done_is_final(m: BootMachine, e: BootEvent, now: u64)
    requires
        m.phase == BootPhase::Done,
    ensures
        boot_next(m, e, now) == (m, idle_step()),
{
}

/// The URL never changes during a bootstrap, so every answer names the
/// server the bootstrap began with.
pub proof fn lemma_url_fixed(m: BootMachine, e: BootEvent, now: u64)
    ensures
        boot_next(m, e, now).0.url == m.url,
{
}

/// The binary that is launched is the one the search returned, run with
/// the configuration read when the launch was claimed.
pub proof fn lemma_launches_resolved_binary(
    m: BootMachine,
    binary: String,
    dir: String,
    inherited_path: Option<String>,
    first: u64,
    second: u64,
)
    requires
        m.phase == BootPhase::Resolving,
    ensures
        ({
            let after = boot_next(m, BootEvent::BinaryResolved(Ok(binary)), first);
            let launch = boot_next(
                after.0,
                BootEvent::ShimsReady { dir, inherited_path },
                second,
            );
            &&& after.1 == ask(None, RequestView::PrepareShims)
            &&& launch.1 == ask(
                Some(starting_status(binary@)),
                RequestView::Spawn {
                    command: launch_plan(m.config@, binary@, dir@, inherited_of(inherited_path)),
                    with_lock: m.lock_held,
                },
            )
        }),
{
}

/// A bootstrap whose launch claim is refused keeps checking the server: it
/// pauses, probes the URL, and reuses a server that answers; only when
/// nothing answers does it ask for the claim again.
pub proof fn lemma_refused_claim_reprobes(m: BootMachine, first: u64, second: u64, third: u64)
    requires
        m.phase == BootPhase::Claiming,
    ensures
        ({
            let refused = boot_next(m, BootEvent::Claimed(false), first);
            let paused = boot_next(refused.0, BootEvent::Slept, second);
            let found = boot_next(paused.0, BootEvent::Probed(true), third);
            let missed = boot_next(paused.0, BootEvent::Probed(false), third);
            &&& refused.1 == ask(None, RequestView::Sleep(PROBE_INTERVAL_MS))
            &&& paused.1 == ask(None, RequestView::Probe)
            &&& found.1 == answer(
                Some(reused_status()),
                false,
                Ok(existing_answer(m.url@)),
                false,
                false,
            )
            &&& found.0.phase == BootPhase::Done
            &&& missed.1 == ask(None, RequestView::ClaimLaunch)
            &&& missed.0.phase == BootPhase::Claiming
        }),
{
}

/// The event that carries out a request.
pub open spec fn answers_request(r: RequestView, e: BootEvent) -> bool {
    match r {
        RequestView::Probe => e is Probed,
        RequestView::ClaimLaunch => e is Claimed,
        RequestView::Sleep(_) => e is Slept,
        RequestView::ReadConfig => e is Config,
        RequestView::AcquireLock => e is LockAcquired,
        RequestView::ResolveBinary(_) => e is BinaryResolved,
        RequestView::PrepareShims => e is ShimsReady || e is ShimsFailed,
        RequestView::Spawn { .. } => e is Spawned,
        RequestView::InspectChild => e is Child,
        RequestView::Shutdown => e is ShutDown,
        RequestView::Finish { .. } => false,
        RequestView::Idle => false,
    }
}

/// The first request of a bootstrap is carried out by a probe, and a probe
/// result is never ignored there.
pub proof fn lemma_first_request_answerable(m: BootMachine, e: BootEvent, now: u64)
    requires
        m.phase == BootPhase::Probing,
        answers_request(RequestView::Probe, e),
    ensures
        !(boot_next(m, e, now).1.request is Idle),
{
}

/// The event that carries out a request is always the one the machine
/// awaits: it is never ignored, so a driver that answers each request never
/// sees `Idle`.
pub proof fn lemma_requests_answerable(
    m: BootMachine,
    e: BootEvent,
    now: u64,
    reply: BootEvent,
    later: u64,
)
    requires
        answers_request(boot_next(m, e, now).1.request, reply),
    ensures
        !(boot_next(boot_next(m, e, now).0, reply, later).1.request is Idle),
{
}

/// The started server gets thirty seconds from its launch to answer: after
/// the process started at `launched`, an unanswered probe at `probed` and a
/// look at `looked` that finds it running (or no longer recorded) lead to
/// another pause of 250 ms while at most thirty seconds have passed since
/// the launch, and to stopping the server once more have passed.
pub proof fn lemma_startup_wait_timed_from_launch(
    m: BootMachine,
    launched: u64,
    probed: u64,
    looked: u64,
    child: ChildStatus,
)
    requires
        m.phase == BootPhase::Spawning,
        launched <= probed <= looked,
        child is Running || child is NotTracked,
    ensures
        ({
            let started = boot_next(m, BootEvent::Spawned(Ok(())), launched);
            let unanswered = boot_next(started.0, BootEvent::Probed(false), probed);
            let looked_at = boot_next(unanswered.0, BootEvent::Child(child), looked);
            &&& started.0.since == launched
            &&& started.1.request == RequestView::Probe
            &&& unanswered.1.request == RequestView::InspectChild
            &&& looked - launched <= 30_000_000_000 ==> looked_at.1.request == RequestView::Sleep(
                250,
            ) && looked_at.0.phase == BootPhase::ReadyBackoff
            &&& looked - launched > 30_000_000_000 ==> looked_at.1.request
                == RequestView::Shutdown
        }),
{
}

/// Waiting for another instance's server is timed from the moment the lock
/// was found taken: an unanswered probe leads to another pause of 250 ms
/// while at most thirty seconds have passed since then, and to the timeout
/// error once more have passed.
pub proof fn lemma_other_wait_timed_from_lock(
    m: BootMachine,
    refused: u64,
    probed: u64,
)
    requires
        m.phase == BootPhase::Locking,
        refused <= probed,
    ensures
        ({
            let waiting = boot_next(m, BootEvent::LockAcquired(false), refused);
            let unanswered = boot_next(waiting.0, BootEvent::Probed(false), probed);
            &&& waiting.0.since == refused
            &&& waiting.1.request == RequestView::Probe
            &&& probed - refused <= 30_000_000_000 ==> unanswered.1.request
                == RequestView::Sleep(250)
            &&& probed - refused > 30_000_000_000 ==> unanswered.1.request == RequestView::Finish {
                outcome: Err(timeout_message()),
                release_claim: m.claimed,
                start_monitor: false,
            }
        }),
{
}

/// The timeout error names thirty seconds.
pub proof fn lemma_timeout_message_text()
    ensures
        timeout_message() == "OpenCode did not answer within 30 seconds."@,
{
    reveal_strlit("OpenCode did not answer within ");
    reveal_strlit(" seconds.");
    reveal_strlit("OpenCode did not answer within 30 seconds.");
    assert(decimal(3) == seq!['3']);
    assert(decimal(30) == seq!['3', '0']);
    assert(timeout_message() =~= "OpenCode did not answer within 30 seconds."@);
}

/// Whether a launch may be claimed: no launch is under way and no process
/// is recorded.
pub open spec fn launch_granted(booting: bool, process_running: bool) -> bool {
    !(booting || process_running)
}

/// Two bootstraps cannot both claim the launch: once one claim is granted,
/// the next is refused until the claim is released.
pub proof fn lemma_claims_exclusive(booting: bool, running: bool, running_later: bool)
    requires
        launch_granted(booting, running),
    ensures
        !launch_granted(booting || launch_granted(booting, running), running_later),
{
}

} // verus!
