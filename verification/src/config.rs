//! The app's configuration and the URL of the local server it names.

use vstd::prelude::*;
use crate::text::{decimal, digits_value, is_digit, is_whitespace, string_views, trim, trim_str, u64_to_decimal};

verus! {

/// The port the local server listens on unless configured otherwise.
pub const DEFAULT_PORT: u16 = 4096;

/// The configuration kept in `config.json`.
pub struct AppConfig {
    pub port: u16,
    pub binary_path: Option<String>,
    pub working_dir: Option<String>,
    pub extra_args: Vec<String>,
    pub server_password: Option<String>,
}

/// What a configuration holds, as plain values.
pub struct ConfigView {
    pub port: u16,
    pub binary_path: Option<Seq<char>>,
    pub working_dir: Option<Seq<char>>,
    pub extra_args: Seq<Seq<char>>,
    pub server_password: Option<Seq<char>>,
}

/// View of an optional string.
pub open spec fn opt_str(o: Option<String>) -> Option<Seq<char>> {
    match o {
        Some(s) => Some(s@),
        None => None,
    }
}

impl View for AppConfig {
    type V = ConfigView;

    open spec fn view(&self) -> ConfigView {
        ConfigView {
            port: self.port,
            binary_path: opt_str(self.binary_path),
            working_dir: opt_str(self.working_dir),
            extra_args: string_views(self.extra_args@),
            server_password: opt_str(self.server_password),
        }
    }
}

/// The configuration of a first start: default port, no custom binary, no
/// working directory, no extra arguments, and the given server password.
pub open spec fn default_config(server_password: Option<Seq<char>>) -> ConfigView {
    ConfigView {
        port: DEFAULT_PORT,
        binary_path: None,
        working_dir: None,
        extra_args: Seq::empty(),
        server_password,
    }
}

/// The configuration in use after loading: what was read (or the defaults
/// when nothing could be read), with the password from the environment
/// filling in where none is configured.
pub open spec fn loaded_config(
    read: Option<ConfigView>,
    env_password: Option<Seq<char>>,
) -> ConfigView {
    match read {
        Some(c) => ConfigView {
            server_password: match c.server_password {
                Some(p) => Some(p),
                None => env_password,
            },
            ..c
        },
        None => default_config(env_password),
    }
}

/// The stored binary path after the user entered `path`: the entry without
/// surrounding whitespace, or none when nothing but whitespace is left.
pub open spec fn entered_binary_path(path: Seq<char>) -> Option<Seq<char>> {
    if trim(path).len() == 0 {
        None
    } else {
        Some(trim(path))
    }
}

/// The port used when the configuration names none.
pub fn default_port() -> (p: u16)
    ensures
        p == DEFAULT_PORT,
{
    DEFAULT_PORT
}

fn clone_opt(o: &Option<String>) -> (r: Option<String>)
    ensures
        opt_str(r) == opt_str(*o),
{
    match o {
        Some(s) => Some(s.clone()),
        None => None,
    }
}

fn clone_strings(v: &Vec<String>) -> (r: Vec<String>)
    ensures
        string_views(r@) == string_views(v@),
{
    let mut r: Vec<String> = Vec::new();
    let mut i: usize = 0;
    while i < v.len()
        invariant
            i <= v@.len(),
            string_views(r@) == string_views(v@).take(i as int),
        decreases v@.len() - i,
    {
        let ghost before = r@;
        r.push(v[i].clone());
        assert(r@ =~= before.push(v@[i as int]));
        assert(string_views(r@) =~= string_views(before).push(v@[i as int]@));
        assert(string_views(v@).take(i + 1) =~= string_views(v@).take(i as int).push(
            v@[i as int]@,
        ));
        i = i + 1;
    }
    assert(string_views(v@).take(i as int) =~= string_views(v@));
    r
}

impl AppConfig {
    /// The configuration of a first start, with the given server password.
    pub fn defaults(server_password: Option<String>) -> (c: AppConfig)
        ensures
            c@ == default_config(opt_str(server_password)),
    {
        let c = AppConfig {
            port: DEFAULT_PORT,
            binary_path: None,
            working_dir: None,
            extra_args: Vec::new(),
            server_password,
        };
        assert(c@.extra_args =~= Seq::<Seq<char>>::empty());
        c
    }

    /// The configuration in use after loading: `read` is what the
    /// configuration file held (`None` when there is no configuration
    /// directory, the file cannot be read, or it does not parse), and
    /// `env_password` is `OPENCODE_SERVER_PASSWORD`.
    pub fn from_loaded(read: Option<AppConfig>, env_password: Option<String>) -> (c: AppConfig)
        ensures
            c@ == loaded_config(
                match read {
                    Some(r) => Some(r@),
                    None => None,
                },
                opt_str(env_password),
            ),
    {
        match read {
            Some(mut c) => {
                if c.server_password.is_none() {
                    c.server_password = env_password;
                }
                c
            },
            None => AppConfig::defaults(env_password),
        }
    }

    /// Stores the binary path the user entered: trimmed, or cleared when
    /// only whitespace was entered. Nothing else changes.
    pub fn set_binary_path(&mut self, path: &str)
        ensures
            final(self)@ == (ConfigView { binary_path: entered_binary_path(path@), ..old(self)@ }),
    {
        let trimmed = trim_str(path);
        if trimmed.as_str().unicode_len() == 0 {
            self.binary_path = None;
        } else {
            self.binary_path = Some(trimmed);
        }
    }

    /// A copy of this configuration.
    pub fn duplicate(&self) -> (c: AppConfig)
        ensures
            c@ == self@,
    {
        AppConfig {
            port: self.port,
            binary_path: clone_opt(&self.binary_path),
            working_dir: clone_opt(&self.working_dir),
            extra_args: clone_strings(&self.extra_args),
            server_password: clone_opt(&self.server_password),
        }
    }
}

/// `http://127.0.0.1:<port>/`, the address of the local server.
pub open spec fn local_url_of(port: u16) -> Seq<char> {
    "http://127.0.0.1:"@ + decimal(port as nat) + "/"@
}

/// The address of the local server on `port`.
pub fn local_url(port: u16) -> (u: String)
    ensures
        u@ == local_url_of(port),
{
    let mut u = String::from_str("http://127.0.0.1:");
    let digits = u64_to_decimal(port as u64);
    u.append(digits.as_str());
    u.append("/");
    u
}


/// Entering the stored binary path again leaves it as it is.
pub proof fn lemma_reentered_path_unchanged(path: Seq<char>)
    requires
        entered_binary_path(path) is Some,
    ensures
        entered_binary_path(entered_binary_path(path)->0) == entered_binary_path(path),
{
    crate::text::lemma_trim_idempotent(path);
}

/// An entry that holds anything but whitespace is stored, whatever its
/// first character (a relative path is kept and resolved later): what is
/// stored is the entry from its first to its last character that is not
/// whitespace. An entry of whitespace alone clears the stored path.
pub proof fn lemma_entry_stored_trimmed(path: Seq<char>)
    ensures
        (exists|k: int| 0 <= k < path.len() && !is_whitespace(#[trigger] path[k]))
            ==> entered_binary_path(path) is Some,
        (forall|k: int| 0 <= k < path.len() ==> is_whitespace(#[trigger] path[k]))
            ==> entered_binary_path(path) is None,
        entered_binary_path(path) matches Some(t) ==> t.len() > 0 && !is_whitespace(t[0])
            && !is_whitespace(t.last()) && exists|i: int, j: int|
            #![trigger path.subrange(i, j)]
            0 <= i <= j <= path.len() && t == path.subrange(i, j) && (forall|k: int|
                0 <= k < i ==> is_whitespace(#[trigger] path[k])) && (forall|k: int|
                j <= k < path.len() ==> is_whitespace(#[trigger] path[k])),
{
    crate::text::lemma_trim_is_core(path);
    if forall|k: int| 0 <= k < path.len() ==> is_whitespace(#[trigger] path[k]) {
        if trim(path).len() > 0 {
            let k = choose|k: int| 0 <= k < path.len() && !is_whitespace(#[trigger] path[k]);
            assert(is_whitespace(path[k]));
        }
    }
}

/// A password in the configuration wins over `OPENCODE_SERVER_PASSWORD`;
/// the environment only fills in a missing one, and everything else is as
/// read (or the defaults when nothing could be read).
pub proof fn lemma_configured_password_wins(
    read: Option<ConfigView>,
    env_password: Option<Seq<char>>,
)
    ensures
        read matches Some(c) ==> (c.server_password is Some ==> loaded_config(
            read,
            env_password,
        ).server_password == c.server_password),
        read matches Some(c) ==> (c.server_password is None ==> loaded_config(
            read,
            env_password,
        ).server_password == env_password),
        read is None ==> loaded_config(read, env_password) == default_config(env_password),
        read matches Some(c) ==> loaded_config(read, env_password).port == c.port
            && loaded_config(read, env_password).binary_path == c.binary_path
            && loaded_config(read, env_password).working_dir == c.working_dir
            && loaded_config(read, env_password).extra_args == c.extra_args,
{
}


/// The local URL is `http://127.0.0.1:`, then the port's decimal digits,
/// then `/`: it names exactly the configured port on the loopback host.
pub proof fn lemma_url_names_port(port: u16)
    ensures
        ({
            let u = local_url_of(port);
            &&& u.len() >= 19
            &&& u.subrange(0, 17) == "http://127.0.0.1:"@
            &&& u.last() == '/'
            &&& digits_value(u.subrange(17, u.len() - 1)) == port
            &&& forall|k: int| 17 <= k < u.len() - 1 ==> is_digit(#[trigger] u[k])
        }),
{
    reveal_strlit("http://127.0.0.1:");
    reveal_strlit("/");
    crate::text::lemma_decimal_denotes(port as nat);
    let u = local_url_of(port);
    let d = decimal(port as nat);
    assert(u.subrange(0, 17) =~= "http://127.0.0.1:"@);
    assert(u.subrange(17, u.len() - 1) =~= d);
    assert forall|k: int| 17 <= k < u.len() - 1 implies is_digit(#[trigger] u[k]) by {
        assert(u[k] == d[k - 17]);
    }
}

} // verus!
