use opencode_ui::boot::{
    claim_launch, is_timed_out, timeout_error, BootEvent, BootMachine, BootPhase, BootRequest,
    BootStep, PROBE_INTERVAL_MS, STARTUP_TIMEOUT_NS,
};
use opencode_ui::config::AppConfig;
use opencode_ui::error::BootError;
use opencode_ui::events::{exit_code_text, ChildStatus, LogEvent, StatusEvent};
use opencode_ui::launch::{
    launch_command, noop_shim_script, ChildIo, setup_error, shim_names, shim_path, SetupStep, SHIM_MODE,
};
use opencode_ui::monitor::{ExitMonitor, MonitorEvent, MonitorRequest, MONITOR_INTERVAL_MS};
use opencode_ui::update::{UpdateCheck, UpdateEvent, UpdateInfo, UpdateRequest};

fn s(x: &str) -> String {
    x.to_string()
}

fn status_texts(st: &Option<StatusEvent>) -> Option<(String, String, Option<String>)> {
    st.as_ref().map(|e| (e.phase.clone(), e.message.clone(), e.detail.clone()))
}

fn finish_of(step: BootStep) -> (Result<(String, String), String>, bool, bool) {
    match step.request {
        BootRequest::Finish { outcome, release_claim, start_monitor } => (
            outcome.map(|r| (r.url, r.source)).map_err(|e| e.message()),
            release_claim,
            start_monitor,
        ),
        _ => panic!("expected an answer"),
    }
}

const SEC: u64 = 1_000_000_000;

#[test]
fn running_server_is_reused() {
    let (mut m, first) = BootMachine::start(4096);
    assert_eq!(
        status_texts(&first.status),
        Some((s("checking"), s("Checking OpenCode"), Some(s("Probing the local server first."))))
    );
    assert!(matches!(first.request, BootRequest::Probe));
    let step = m.step(BootEvent::Probed(true), 0);
    assert_eq!(
        status_texts(&step.status),
        Some((s("ready"), s("OpenCode is already running"), Some(s("Reusing the existing local instance."))))
    );
    assert_eq!(
        finish_of(step),
        (Ok((s("http://127.0.0.1:4096/"), s("existing"))), false, false)
    );
    assert!(m.phase == BootPhase::Done);
    assert!(matches!(m.step(BootEvent::Probed(true), 1).request, BootRequest::Idle));
}

fn config() -> AppConfig {
    let mut c = AppConfig::defaults(Some(s("secret")));
    c.extra_args = vec![s("--port"), s("4096")];
    c.working_dir = Some(s("/work"));
    c.binary_path = Some(s("/opt/oc"));
    c
}

#[test]
fn launch_until_ready() {
    let (mut m, _) = BootMachine::start(4096);
    assert!(matches!(m.step(BootEvent::Probed(false), 0).request, BootRequest::ClaimLaunch));
    assert!(matches!(m.step(BootEvent::Claimed(false), 0).request, BootRequest::Sleep(PROBE_INTERVAL_MS)));
    assert!(matches!(m.step(BootEvent::Slept, 0).request, BootRequest::Probe));
    assert!(matches!(m.step(BootEvent::Probed(false), 0).request, BootRequest::ClaimLaunch));
    assert!(matches!(m.step(BootEvent::Claimed(true), 0).request, BootRequest::ReadConfig));
    let st = m.step(BootEvent::Config(config()), 0);
    assert_eq!(
        status_texts(&st.status),
        Some((s("resolving"), s("Locating OpenCode"), Some(s("Searching PATH and common macOS locations."))))
    );
    assert!(matches!(st.request, BootRequest::AcquireLock));
    assert!(matches!(m.step(BootEvent::LockAcquired(true), 0).request, BootRequest::Probe));
    match m.step(BootEvent::Probed(false), 0).request {
        BootRequest::ResolveBinary(p) => assert_eq!(p, Some(s("/opt/oc"))),
        _ => panic!("expected a binary lookup"),
    }
    assert!(matches!(m.step(BootEvent::BinaryResolved(Ok(s("/opt/oc"))), 0).request, BootRequest::PrepareShims));
    let st = m.step(
        BootEvent::ShimsReady { dir: s("/d/opencode-ui/opener-shims"), inherited_path: Some(s("/usr/bin")) },
        0,
    );
    assert_eq!(
        status_texts(&st.status),
        Some((s("starting"), s("Starting OpenCode"), Some(s("Launching /opt/oc"))))
    );
    match st.request {
        BootRequest::Spawn { command: cmd, with_lock } => {
            assert!(with_lock);
            assert!(cmd.stdin == ChildIo::Null);
            assert!(cmd.stdout == ChildIo::Piped);
            assert!(cmd.stderr == ChildIo::Piped);
            assert_eq!(cmd.program, "/opt/oc");
            assert_eq!(cmd.args, vec![s("web"), s("--port"), s("4096")]);
            assert_eq!(cmd.working_dir, Some(s("/work")));
            let env: Vec<(String, String)> = cmd.env.into_iter().map(|e| (e.name, e.value)).collect();
            assert_eq!(
                env,
                vec![
                    (s("OPENCODE_SERVER_PASSWORD"), s("secret")),
                    (s("BROWSER"), s("/d/opencode-ui/opener-shims/open")),
                    (s("PATH"), s("/d/opencode-ui/opener-shims:/usr/bin")),
                ]
            );
        }
        _ => panic!("expected a spawn"),
    }
    let st = m.step(BootEvent::Spawned(Ok(())), 10 * SEC);
    assert_eq!(
        status_texts(&st.status),
        Some((s("waiting"), s("Waiting for OpenCode"), Some(s("Waiting for http://127.0.0.1:4096/ to respond."))))
    );
    assert!(matches!(m.step(BootEvent::Probed(false), 11 * SEC).request, BootRequest::InspectChild));
    assert!(matches!(
        m.step(BootEvent::Child(ChildStatus::Running), 11 * SEC).request,
        BootRequest::Sleep(PROBE_INTERVAL_MS)
    ));
    assert!(matches!(m.step(BootEvent::Slept, 11 * SEC).request, BootRequest::Probe));
    let st = m.step(BootEvent::Probed(true), 12 * SEC);
    assert_eq!(
        status_texts(&st.status),
        Some((s("ready"), s("OpenCode is ready"), Some(s("Loading the local OpenCode web UI."))))
    );
    assert_eq!(finish_of(st), (Ok((s("http://127.0.0.1:4096/"), s("spawned"))), true, true));
}

fn to_locked(port: u16) -> BootMachine {
    let (mut m, _) = BootMachine::start(port);
    m.step(BootEvent::Probed(false), 0);
    m.step(BootEvent::Claimed(true), 0);
    m.step(BootEvent::Config(AppConfig::defaults(None)), 0);
    m
}

#[test]
fn another_instance_launches() {
    let mut m = to_locked(4096);
    let st = m.step(BootEvent::LockAcquired(false), 5 * SEC);
    assert_eq!(
        status_texts(&st.status),
        Some((s("waiting"), s("Waiting for OpenCode"), Some(s("Another OpenCode UI instance is starting the server."))))
    );
    assert!(matches!(st.request, BootRequest::Probe));
    // Exactly thirty seconds is not yet too long.
    assert!(matches!(m.step(BootEvent::Probed(false), 35 * SEC).request, BootRequest::Sleep(250)));
    assert!(matches!(m.step(BootEvent::Slept, 35 * SEC).request, BootRequest::Probe));
    let st = m.step(BootEvent::Probed(true), 36 * SEC);
    assert_eq!(
        status_texts(&st.status),
        Some((s("ready"), s("OpenCode is ready"), Some(s("The existing launch finished successfully."))))
    );
    assert_eq!(finish_of(st), (Ok((s("http://127.0.0.1:4096/"), s("existing"))), true, false));
}

#[test]
fn another_instance_never_answers() {
    let mut m = to_locked(4096);
    m.step(BootEvent::LockAcquired(false), 5 * SEC);
    let st = m.step(BootEvent::Probed(false), 35 * SEC + 1);
    assert!(st.status.is_none());
    assert_eq!(
        finish_of(st),
        (Err(s("OpenCode did not answer within 30 seconds.")), true, false)
    );
}

#[test]
fn server_appears_while_lock_is_taken() {
    let mut m = to_locked(8080);
    m.step(BootEvent::LockAcquired(true), 0);
    let st = m.step(BootEvent::Probed(true), 0);
    assert!(st.status.is_none());
    assert_eq!(finish_of(st), (Ok((s("http://127.0.0.1:8080/"), s("existing"))), true, false));
}

#[test]
fn launch_failures_are_reported() {
    let mut m = to_locked(4096);
    m.step(BootEvent::LockAcquired(true), 0);
    m.step(BootEvent::Probed(false), 0);
    let st = m.step(BootEvent::BinaryResolved(Err(BootError::Message(s("nope")))), 0);
    assert_eq!(finish_of(st), (Err(s("nope")), true, false));

    let mut m = to_locked(4096);
    m.step(BootEvent::LockAcquired(true), 0);
    m.step(BootEvent::Probed(false), 0);
    m.step(BootEvent::BinaryResolved(Ok(s("/bin/oc"))), 0);
    let st = m.step(BootEvent::ShimsFailed(BootError::Message(s("no shims"))), 0);
    assert_eq!(finish_of(st), (Err(s("no shims")), true, false));

    let mut m = to_locked(4096);
    m.step(BootEvent::LockAcquired(true), 0);
    m.step(BootEvent::Probed(false), 0);
    m.step(BootEvent::BinaryResolved(Ok(s("/bin/oc"))), 0);
    m.step(BootEvent::ShimsReady { dir: s("/s"), inherited_path: None }, 0);
    let st = m.step(BootEvent::Spawned(Err(s("permission denied"))), 0);
    assert_eq!(finish_of(st), (Err(s("Failed to launch OpenCode: permission denied")), true, false));
}

fn to_waiting_ready() -> BootMachine {
    let mut m = to_locked(4096);
    m.step(BootEvent::LockAcquired(true), 0);
    m.step(BootEvent::Probed(false), 0);
    m.step(BootEvent::BinaryResolved(Ok(s("/bin/oc"))), 0);
    m.step(BootEvent::ShimsReady { dir: s("/s"), inherited_path: None }, 0);
    m.step(BootEvent::Spawned(Ok(())), 2 * SEC);
    m
}

#[test]
fn server_exits_during_startup() {
    let mut m = to_waiting_ready();
    m.step(BootEvent::Probed(false), 3 * SEC);
    let st = m.step(
        BootEvent::Child(ChildStatus::Exited { code: Some(1), elapsed: s("1.5s") }),
        3 * SEC,
    );
    assert!(st.clear_process);
    assert_eq!(finish_of(st), (Err(s("OpenCode exited after 1.5s with status 1.")), true, false));

    let mut m = to_waiting_ready();
    m.step(BootEvent::Probed(false), 3 * SEC);
    let st = m.step(BootEvent::Child(ChildStatus::Exited { code: None, elapsed: s("2s") }), 3 * SEC);
    assert_eq!(finish_of(st), (Err(s("OpenCode exited after 2s with status signal.")), true, false));

    let mut m = to_waiting_ready();
    m.step(BootEvent::Probed(false), 3 * SEC);
    let st = m.step(BootEvent::Child(ChildStatus::InspectFailed(s("gone"))), 3 * SEC);
    assert!(st.clear_process);
    assert_eq!(finish_of(st), (Err(s("Failed to inspect OpenCode process: gone")), true, false));
}

#[test]
fn startup_timeout_stops_the_server() {
    let mut m = to_waiting_ready();
    m.step(BootEvent::Probed(false), 40 * SEC);
    let st = m.step(BootEvent::Child(ChildStatus::Running), 40 * SEC);
    assert!(matches!(st.request, BootRequest::Shutdown));
    let st = m.step(BootEvent::ShutDown, 41 * SEC);
    assert!(!st.clear_process);
    assert_eq!(finish_of(st), (Err(s("OpenCode did not answer within 30 seconds.")), true, false));
}

#[test]
fn unexpected_events_change_nothing() {
    let (mut m, _) = BootMachine::start(4096);
    let st = m.step(BootEvent::Slept, 0);
    assert!(matches!(st.request, BootRequest::Idle));
    assert!(m.phase == BootPhase::Probing);
}

#[test]
fn timeout_arithmetic() {
    assert_eq!(STARTUP_TIMEOUT_NS, 30 * SEC);
    assert!(!is_timed_out(0, 30 * SEC));
    assert!(is_timed_out(0, 30 * SEC + 1));
    assert!(!is_timed_out(10, 5));
    assert_eq!(timeout_error().message(), "OpenCode did not answer within 30 seconds.");
}

#[test]
fn one_launch_claim_at_a_time() {
    let mut booting = false;
    assert!(claim_launch(&mut booting, false));
    assert!(booting);
    assert!(!claim_launch(&mut booting, false));
    assert!(booting);
    let mut idle = false;
    assert!(!claim_launch(&mut idle, true));
    assert!(!idle);
}

#[test]
fn launch_command_without_password() {
    let mut c = AppConfig::defaults(None);
    c.extra_args = vec![];
    let cmd = launch_command(&c, "/bin/oc", "/s/", &Some(s("/a:/b")));
    assert_eq!(cmd.args, vec![s("web")]);
    assert_eq!(cmd.working_dir, None);
    let env: Vec<(String, String)> = cmd.env.into_iter().map(|e| (e.name, e.value)).collect();
    assert_eq!(env, vec![(s("BROWSER"), s("/s/open")), (s("PATH"), s("/s/"))]);
}

#[test]
fn opener_shims() {
    assert_eq!(shim_names(false), vec![s("open"), s("xdg-open")]);
    assert_eq!(shim_names(true), vec![s("open"), s("xdg-open"), s("start")]);
    assert_eq!(shim_path("/d/shims", "xdg-open"), "/d/shims/xdg-open");
    assert_eq!(noop_shim_script(false), b"#!/bin/sh\nexit 0\n".to_vec());
    assert_eq!(noop_shim_script(true), b"@echo off\r\nexit /b 0\r\n".to_vec());
    assert_eq!(SHIM_MODE, 0o755);
}

#[test]
fn setup_failure_messages() {
    let m = |step, path: &str, err: &str| setup_error(step, path, err).message();
    assert_eq!(m(SetupStep::CreateDataDir, "", "denied"), "Failed to create app data directory: denied");
    assert_eq!(m(SetupStep::OpenLock, "", "e"), "Failed to open launch lock: e");
    assert_eq!(
        m(SetupStep::TakeLock, "", "busy"),
        "Another OpenCode UI instance is already managing the server: busy"
    );
    assert_eq!(m(SetupStep::CreateShimDir, "", "e"), "Failed to create browser shim directory: e");
    assert_eq!(m(SetupStep::PrepareShimParent, "", "e"), "Failed to prepare opener shim directory: e");
    assert_eq!(m(SetupStep::WriteShim, "/s/open", "e"), "Failed to write opener shim /s/open: e");
    assert_eq!(m(SetupStep::InspectShim, "/s/open", "e"), "Failed to inspect opener shim /s/open: e");
    assert_eq!(
        m(SetupStep::MarkShimExecutable, "/s/open", "e"),
        "Failed to mark opener shim executable /s/open: e"
    );
}

#[test]
fn exit_descriptions_and_log_lines() {
    assert_eq!(exit_code_text(Some(0)), "0");
    assert_eq!(exit_code_text(Some(-9)), "-9");
    assert_eq!(exit_code_text(None), "signal");
    let l = LogEvent::new("stderr", s("boom"));
    assert_eq!(l.console_line(), "[stderr] boom");
}

#[test]
fn watching_the_server() {
    let (mut w, first) = ExitMonitor::start(s("http://127.0.0.1:4096/"));
    assert!(first.request == MonitorRequest::Sleep(MONITOR_INTERVAL_MS));
    assert!(w.step(MonitorEvent::Slept).request == MonitorRequest::InspectChild);
    assert!(w.step(MonitorEvent::Child(ChildStatus::Running)).request == MonitorRequest::Sleep(1000));
    w.step(MonitorEvent::Slept);
    let st = w.step(MonitorEvent::Child(ChildStatus::Exited { code: Some(0), elapsed: s("5s") }));
    assert!(st.clear_process);
    assert!(st.request == MonitorRequest::Stop);
    assert_eq!(
        status_texts(&st.status),
        Some((
            s("error"),
            s("OpenCode stopped unexpectedly"),
            Some(s("The OpenCode server at http://127.0.0.1:4096/ exited after 5s with status 0."))
        ))
    );
    assert!(w.step(MonitorEvent::Slept).request == MonitorRequest::Idle);

    let (mut w, _) = ExitMonitor::start(s("u"));
    w.step(MonitorEvent::Slept);
    let st = w.step(MonitorEvent::Child(ChildStatus::NotTracked));
    assert!(!st.clear_process && st.status.is_none() && st.log.is_none());
    assert!(st.request == MonitorRequest::Stop);

    let (mut w, _) = ExitMonitor::start(s("u"));
    w.step(MonitorEvent::Slept);
    let st = w.step(MonitorEvent::Child(ChildStatus::InspectFailed(s("io"))));
    assert!(st.clear_process);
    let log = st.log.unwrap();
    assert_eq!((log.stream, log.line), (s("stderr"), s("OpenCode monitor failed: io")));
}

fn log_of(st: &opencode_ui::update::UpdateStep) -> Option<(String, String)> {
    st.log.as_ref().map(|l| (l.stream.clone(), l.line.clone()))
}

#[test]
fn update_check_outcomes() {
    let (mut u, first) = UpdateCheck::start();
    assert!(first.request == UpdateRequest::OpenUpdater);
    assert!(u.step(UpdateEvent::UpdaterReady).request == UpdateRequest::Check);
    let st = u.step(UpdateEvent::Checked(Ok(Some(UpdateInfo { current_version: s("0.1.0"), version: s("0.2.0") }))));
    assert!(st.request == UpdateRequest::Install);
    assert_eq!(log_of(&st), Some((s("stdout"), s("update available: 0.1.0 -> 0.2.0"))));
    let st = u.step(UpdateEvent::Installed(Ok(())));
    assert!(st.request == UpdateRequest::Restart && st.log.is_none());

    let (mut u, _) = UpdateCheck::start();
    let st = u.step(UpdateEvent::UpdaterUnavailable(s("no config")));
    assert_eq!(log_of(&st), Some((s("stderr"), s("update checker unavailable: no config"))));
    assert!(st.request == UpdateRequest::Stop);

    let (mut u, _) = UpdateCheck::start();
    u.step(UpdateEvent::UpdaterReady);
    let st = u.step(UpdateEvent::Checked(Ok(None)));
    assert_eq!(log_of(&st), Some((s("stdout"), s("no update available"))));

    let (mut u, _) = UpdateCheck::start();
    u.step(UpdateEvent::UpdaterReady);
    let st = u.step(UpdateEvent::Checked(Err(s("offline"))));
    assert_eq!(log_of(&st), Some((s("stderr"), s("update check failed: offline"))));

    let (mut u, _) = UpdateCheck::start();
    u.step(UpdateEvent::UpdaterReady);
    u.step(UpdateEvent::Checked(Ok(Some(UpdateInfo { current_version: s("1"), version: s("2") }))));
    let st = u.step(UpdateEvent::Installed(Err(s("bad signature"))));
    assert_eq!(log_of(&st), Some((s("stderr"), s("update install failed: bad signature"))));
    assert!(st.request == UpdateRequest::Stop);
}

#[test]
fn refused_claim_reuses_a_server_started_meanwhile() {
    let (mut m, _) = BootMachine::start(4096);
    m.step(BootEvent::Probed(false), 0);
    assert!(matches!(m.step(BootEvent::Claimed(false), 0).request, BootRequest::Sleep(PROBE_INTERVAL_MS)));
    assert!(matches!(m.step(BootEvent::Slept, 0).request, BootRequest::Probe));
    assert!(matches!(m.step(BootEvent::Probed(false), 0).request, BootRequest::ClaimLaunch));
    assert!(matches!(m.step(BootEvent::Claimed(false), 0).request, BootRequest::Sleep(PROBE_INTERVAL_MS)));
    assert!(matches!(m.step(BootEvent::Slept, 0).request, BootRequest::Probe));
    let st = m.step(BootEvent::Probed(true), 0);
    assert_eq!(
        status_texts(&st.status),
        Some((s("ready"), s("OpenCode is already running"), Some(s("Reusing the existing local instance."))))
    );
    assert_eq!(finish_of(st), (Ok((s("http://127.0.0.1:4096/"), s("existing"))), false, false));
    assert!(m.phase == BootPhase::Done);
}
