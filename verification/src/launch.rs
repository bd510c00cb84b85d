//! How the server is launched: its command line and environment, the no-op
//! browser openers it is given, and the texts of setup failures.

use vstd::prelude::*;
use crate::config::{AppConfig, ConfigView};
use crate::error::BootError;
use crate::paths::{join, join_path, prepend_path, prepend_search_path};
use crate::text::string_views;

verus! {

/// One environment variable set for the child.
pub struct EnvVar {
    pub name: String,
    pub value: String,
}

/// How one of the child's standard streams is connected.
#[derive(Clone, Copy, PartialEq, Eq, Structural)]
pub enum ChildIo {
    /// Connected to nothing.
    Null,
    /// Captured by the app.
    Piped,
}

/// The command that starts the server.
pub struct LaunchCommand {
    pub program: String,
    pub args: Vec<String>,
    pub working_dir: Option<String>,
    pub env: Vec<EnvVar>,
    pub stdin: ChildIo,
    pub stdout: ChildIo,
    pub stderr: ChildIo,
}

/// What a launch command says.
pub struct LaunchView {
    pub program: Seq<char>,
    pub args: Seq<Seq<char>>,
    pub working_dir: Option<Seq<char>>,
    pub env: Seq<(Seq<char>, Seq<char>)>,
    pub stdin: ChildIo,
    pub stdout: ChildIo,
    pub stderr: ChildIo,
}

/// Views of environment variables.
pub open spec fn env_views(v: Seq<EnvVar>) -> Seq<(Seq<char>, Seq<char>)> {
    v.map_values(|e: EnvVar| (e.name@, e.value@))
}

impl View for LaunchCommand {
    type V = LaunchView;

    open spec fn view(&self) -> LaunchView {
        LaunchView {
            program: self.program@,
            args: string_views(self.args@),
            working_dir: match self.working_dir {
                Some(d) => Some(d@),
                None => None,
            },
            env: env_views(self.env@),
            stdin: self.stdin,
            stdout: self.stdout,
            stderr: self.stderr,
        }
    }
}

/// The no-op opener the child uses as its browser.
pub open spec fn browser_shim(shims: Seq<char>) -> Seq<char> {
    join(shims, "open"@)
}

/// The server's environment additions, in the order they are set: the
/// configured password (when there is one), the browser opener, and the
/// search path with the shims directory in front.
pub open spec fn launch_env(
    password: Option<Seq<char>>,
    shims: Seq<char>,
    inherited_path: Seq<char>,
) -> Seq<(Seq<char>, Seq<char>)> {
    let first: Seq<(Seq<char>, Seq<char>)> = match password {
        Some(p) => seq![("OPENCODE_SERVER_PASSWORD"@, p)],
        None => Seq::empty(),
    };
    first + seq![
        ("BROWSER"@, browser_shim(shims)),
        ("PATH"@, prepend_search_path(shims, inherited_path)),
    ]
}

/// The command that starts the server: `<binary> web <extra args...>`, in
/// the configured working directory, with the launch environment, standard
/// input closed and both output streams captured.
pub open spec fn launch_plan(
    config: ConfigView,
    binary: Seq<char>,
    shims: Seq<char>,
    inherited_path: Seq<char>,
) -> LaunchView {
    LaunchView {
        program: binary,
        args: seq!["web"@] + config.extra_args,
        working_dir: config.working_dir,
        env: launch_env(config.server_password, shims, inherited_path),
        stdin: ChildIo::Null,
        stdout: ChildIo::Piped,
        stderr: ChildIo::Piped,
    }
}

fn env_var(name: &str, value: String) -> (e: EnvVar)
    ensures
        e.name@ == name@,
        e.value@ == value@,
{
    EnvVar { name: String::from_str(name), value }
}

/// Builds the command that starts the server with `binary`, given the
/// configuration, the shims directory and the inherited search path
/// (absent counts as empty).
pub fn launch_command(
    config: &AppConfig,
    binary: &str,
    shims: &str,
    inherited_path: &Option<String>,
) -> (c: LaunchCommand)
    ensures
        c@ == launch_plan(
            config@,
            binary@,
            shims@,
            match *inherited_path {
                Some(s) => s@,
                None => Seq::empty(),
            },
        ),
{
    let mut args: Vec<String> = Vec::new();
    args.push(String::from_str("web"));
    let mut i: usize = 0;
    while i < config.extra_args.len()
        invariant
            i <= config.extra_args@.len(),
            string_views(args@) == seq!["web"@] + string_views(config.extra_args@).take(i as int),
        decreases config.extra_args@.len() - i,
    {
        let ghost before = args@;
        args.push(config.extra_args[i].clone());
        assert(args@ =~= before.push(config.extra_args@[i as int]));
        assert(string_views(args@) =~= string_views(before).push(config.extra_args@[i as int]@));
        assert(string_views(config.extra_args@).take(i + 1) =~= string_views(
            config.extra_args@,
        ).take(i as int).push(config.extra_args@[i as int]@));
        i = i + 1;
    }
    assert(string_views(config.extra_args@).take(i as int) =~= string_views(config.extra_args@));
    let working_dir = match &config.working_dir {
        Some(d) => Some(d.clone()),
        None => None,
    };
    let mut env: Vec<EnvVar> = Vec::new();
    if let Some(p) = &config.server_password {
        env.push(env_var("OPENCODE_SERVER_PASSWORD", p.clone()));
    }
    let ghost first = env_views(env@);
    env.push(env_var("BROWSER", join_path(shims, "open")));
    env.push(env_var("PATH", prepend_path(shims, inherited_path)));
    proof {
        let p = match inherited_path {
            Some(s) => s@,
            None => Seq::<char>::empty(),
        };
        assert(env_views(env@) =~= launch_env(config@.server_password, shims@, p));
    }
    LaunchCommand {
        program: String::from_str(binary),
        args,
        working_dir,
        env,
        stdin: ChildIo::Null,
        stdout: ChildIo::Piped,
        stderr: ChildIo::Piped,
    }
}

/// The server is always started as `<binary> web` followed by the
/// configured arguments; a configured password is handed over in
/// `OPENCODE_SERVER_PASSWORD`, the browser it opens is the no-op shim, its
/// input is closed and its output is captured.
pub proof fn lemma_launch_runs_web(
    config: ConfigView,
    binary: Seq<char>,
    shims: Seq<char>,
    inherited_path: Seq<char>,
)
    ensures
        launch_plan(config, binary, shims, inherited_path).program == binary,
        launch_plan(config, binary, shims, inherited_path).stdin == ChildIo::Null,
        launch_plan(config, binary, shims, inherited_path).stdout == ChildIo::Piped,
        launch_plan(config, binary, shims, inherited_path).stderr == ChildIo::Piped,
        launch_plan(config, binary, shims, inherited_path).args[0] == "web"@,
        launch_plan(config, binary, shims, inherited_path).args.drop_first() == config.extra_args,
        config.server_password matches Some(p) ==> launch_plan(
            config,
            binary,
            shims,
            inherited_path,
        ).env[0] == ("OPENCODE_SERVER_PASSWORD"@, p),
        launch_plan(config, binary, shims, inherited_path).env.contains(
            ("BROWSER"@, browser_shim(shims)),
        ),
{
    let plan = launch_plan(config, binary, shims, inherited_path);
    assert(plan.args.drop_first() =~= config.extra_args);
    let env = plan.env;
    let k = env.len() - 2;
    assert(env[k] == ("BROWSER"@, browser_shim(shims)));
}

/// The names of the no-op browser openers: `open` and `xdg-open`, and on
/// Windows also `start`.
pub open spec fn shim_names_on(windows: bool) -> Seq<Seq<char>> {
    if windows {
        seq!["open"@, "xdg-open"@, "start"@]
    } else {
        seq!["open"@, "xdg-open"@]
    }
}

/// The names of the no-op browser openers put in the shims directory, on
/// Windows (`windows`) or elsewhere.
pub fn shim_names(windows: bool) -> (names: Vec<String>)
    ensures
        string_views(names@) == shim_names_on(windows),
{
    let mut names: Vec<String> = Vec::new();
    names.push(String::from_str("open"));
    names.push(String::from_str("xdg-open"));
    if windows {
        names.push(String::from_str("start"));
    }
    assert(string_views(names@) =~= shim_names_on(windows));
    names
}

/// Where the shim named `name` lives in the shims directory.
pub fn shim_path(shims: &str, name: &str) -> (p: String)
    ensures
        p@ == join(shims@, name@),
{
    join_path(shims, name)
}

/// The bytes of a no-op opener: on Windows the batch script
/// `@echo off\r\nexit /b 0\r\n`, elsewhere the shell script
/// `#!/bin/sh\nexit 0\n`.
pub open spec fn noop_script(windows: bool) -> Seq<u8> {
    if windows {
        seq![
            64u8, 101, 99, 104, 111, 32, 111, 102, 102, 13, 10, 101, 120, 105, 116, 32, 47, 98,
            32, 48, 13, 10,
        ]
    } else {
        seq![35u8, 33, 47, 98, 105, 110, 47, 115, 104, 10, 101, 120, 105, 116, 32, 48, 10]
    }
}

/// The bytes of a no-op opener, on Windows (`windows`) or elsewhere.
pub fn noop_shim_script(windows: bool) -> (b: Vec<u8>)
    ensures
        b@ == noop_script(windows),
{
    if windows {
        let b: Vec<u8> = vec![
            64u8, 101, 99, 104, 111, 32, 111, 102, 102, 13, 10, 101, 120, 105, 116, 32, 47, 98,
            32, 48, 13, 10,
        ];
        assert(b@ =~= noop_script(true));
        b
    } else {
        let b: Vec<u8> = vec![35u8, 33, 47, 98, 105, 110, 47, 115, 104, 10, 101, 120, 105, 116, 32, 48, 10];
        assert(b@ =~= noop_script(false));
        b
    }
}

/// The permission bits a shim is given on Unix: `rwxr-xr-x`.
pub const SHIM_MODE: u32 = 0o755;

/// The step of preparing the launch that failed.
#[derive(Clone, Copy, PartialEq, Eq, Structural)]
pub enum SetupStep {
    CreateDataDir,
    OpenLock,
    TakeLock,
    CreateShimDir,
    PrepareShimParent,
    WriteShim,
    InspectShim,
    MarkShimExecutable,
}

/// The text of a setup failure; `path` names the shim for the steps on a
/// single shim and `err` is the system's description of the error.
pub open spec fn setup_message(step: SetupStep, path: Seq<char>, err: Seq<char>) -> Seq<char> {
    match step {
        SetupStep::CreateDataDir => "Failed to create app data directory: "@ + err,
        SetupStep::OpenLock => "Failed to open launch lock: "@ + err,
        SetupStep::TakeLock => "Another OpenCode UI instance is already managing the server: "@ + err,
        SetupStep::CreateShimDir => "Failed to create browser shim directory: "@ + err,
        SetupStep::PrepareShimParent => "Failed to prepare opener shim directory: "@ + err,
        SetupStep::WriteShim => "Failed to write opener shim "@ + path + ": "@ + err,
        SetupStep::InspectShim => "Failed to inspect opener shim "@ + path + ": "@ + err,
        SetupStep::MarkShimExecutable => "Failed to mark opener shim executable "@ + path + ": "@
            + err,
    }
}

/// The error for a failed setup step.
pub fn setup_error(step: SetupStep, path: &str, err: &str) -> (e: BootError)
    ensures
        e@ == setup_message(step, path@, err@),
{
    let mut m = match step {
        SetupStep::CreateDataDir => String::from_str("Failed to create app data directory: "),
        SetupStep::OpenLock => String::from_str("Failed to open launch lock: "),
        SetupStep::TakeLock => String::from_str(
            "Another OpenCode UI instance is already managing the server: ",
        ),
        SetupStep::CreateShimDir => String::from_str("Failed to create browser shim directory: "),
        SetupStep::PrepareShimParent => String::from_str(
            "Failed to prepare opener shim directory: ",
        ),
        SetupStep::WriteShim => {
            let mut s = String::from_str("Failed to write opener shim ");
            s.append(path);
            s.append(": ");
            s
        },
        SetupStep::InspectShim => {
            let mut s = String::from_str("Failed to inspect opener shim ");
            s.append(path);
            s.append(": ");
            s
        },
        SetupStep::MarkShimExecutable => {
            let mut s = String::from_str("Failed to mark opener shim executable ");
            s.append(path);
            s.append(": ");
            s
        },
    };
    m.append(err);
    BootError::Message(m)
}

} // verus!
