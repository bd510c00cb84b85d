//! Paths as the app lays them out: joining, the user directories it uses,
//! the places it looks for the `opencode` binary, and the search path that
//! child processes inherit.

use vstd::prelude::*;
use crate::error::BootError;
use crate::text::{split_on, split_str, string_views};

verus! {

/// A Unix path is absolute when it starts at the root.
pub open spec fn is_absolute(p: Seq<char>) -> bool {
    p.len() > 0 && p[0] == '/'
}

/// `base` joined with `p`, as `Path::join` does on Unix: an absolute `p`
/// replaces `base`; otherwise a separator is put between them unless `base`
/// is empty or already ends with one.
pub open spec fn join(base: Seq<char>, p: Seq<char>) -> Seq<char> {
    if is_absolute(p) {
        p
    } else if base.len() == 0 || base.last() == '/' {
        base + p
    } else {
        base + seq!['/'] + p
    }
}

/// Whether `p` is absolute.
pub fn path_is_absolute(p: &str) -> (b: bool)
    ensures
        b == is_absolute(p@),
{
    let n = p.unicode_len();
    n > 0 && p.get_char(0) == '/'
}

/// Joins `p` onto `base`.
pub fn join_path(base: &str, p: &str) -> (r: String)
    ensures
        r@ == join(base@, p@),
{
    if path_is_absolute(p) {
        return String::from_str(p);
    }
    let n = base.unicode_len();
    let mut r = String::from_str(base);
    if n > 0 && base.get_char(n - 1) != '/' {
        proof { reveal_strlit("/"); }
        r.append("/");
    }
    r.append(p);
    r
}


/// The name of the directory the app keeps its own files in.
pub open spec fn app_dir_name() -> Seq<char> {
    "opencode-ui"@
}

/// `<base>/opencode-ui/config.json`, where the configuration is stored.
pub open spec fn config_file_in(base: Seq<char>) -> Seq<char> {
    join(join(base, app_dir_name()), "config.json"@)
}

/// `<base>/opencode-ui`, the app's local data directory.
pub open spec fn app_data_dir_in(base: Seq<char>) -> Seq<char> {
    join(base, app_dir_name())
}

/// `<base>/opencode-ui/launch.lock`, the file whose lock marks the one
/// instance allowed to launch the server.
pub open spec fn launch_lock_in(base: Seq<char>) -> Seq<char> {
    join(app_data_dir_in(base), "launch.lock"@)
}

/// `<base>/opencode-ui/opener-shims`, where the no-op browser openers live.
pub open spec fn opener_shims_in(base: Seq<char>) -> Seq<char> {
    join(app_data_dir_in(base), "opener-shims"@)
}

/// Calls `dirs::config_dir`. The directory comes from the environment (on
/// Linux `XDG_CONFIG_HOME` or `$HOME/.config`, on macOS
/// `$HOME/Library/Application Support`), so nothing is stated of it; a path
/// that is not valid UTF-8 comes back as `None`.
#[verifier::external_body]
fn user_config_dir() -> (dir: Option<String>) {
    match dirs::config_dir() {
        Some(p) => p.into_os_string().into_string().ok(),
        None => None,
    }
}

/// Calls `dirs::data_local_dir`. The directory comes from the environment
/// (on Linux `XDG_DATA_HOME` or `$HOME/.local/share`), so nothing is stated
/// of it; a path that is not valid UTF-8 comes back as `None`.
#[verifier::external_body]
fn user_data_local_dir() -> (dir: Option<String>) {
    match dirs::data_local_dir() {
        Some(p) => p.into_os_string().into_string().ok(),
        None => None,
    }
}

/// Calls `dirs::home_dir`. The directory comes from `$HOME` or the password
/// database, so nothing is stated of it; a path that is not valid UTF-8
/// comes back as `None`.
#[verifier::external_body]
fn user_home_dir() -> (dir: Option<String>) {
    match dirs::home_dir() {
        Some(p) => p.into_os_string().into_string().ok(),
        None => None,
    }
}

/// Where the configuration file lives, given the user's configuration
/// directory.
pub fn config_file_path_in(base: &Option<String>) -> (p: Option<String>)
    ensures
        match *base {
            Some(b) => p is Some && p->0@ == config_file_in(b@),
            None => p is None,
        },
{
    match base {
        Some(b) => {
            let dir = join_path(b.as_str(), "opencode-ui");
            Some(join_path(dir.as_str(), "config.json"))
        },
        None => None,
    }
}

/// Where the configuration file lives: `None` when the user has no
/// configuration directory.
pub fn config_file_path() -> (p: Option<String>)
    ensures
        p matches Some(path) ==> exists|base: Seq<char>| path@ == config_file_in(base),
{
    let base = user_config_dir();
    let p = config_file_path_in(&base);
    proof {
        if let Some(b) = base {
            assert(p->0@ == config_file_in(b@));
        }
    }
    p
}

/// The error for a user without a local data directory.
pub fn no_data_dir_error() -> (e: BootError)
    ensures
        e@ == "Unable to resolve a local data directory."@,
{
    BootError::Message(String::from_str("Unable to resolve a local data directory."))
}

/// The app's local data directory, given the user's one.
pub fn app_data_dir(base: &str) -> (p: String)
    ensures
        p@ == app_data_dir_in(base@),
{
    join_path(base, "opencode-ui")
}

/// The launch lock file, given the user's local data directory.
pub fn launch_lock_path_in(base: &str) -> (p: String)
    ensures
        p@ == launch_lock_in(base@),
{
    let dir = app_data_dir(base);
    join_path(dir.as_str(), "launch.lock")
}

/// The directory of the browser opener shims, given the user's local data
/// directory.
pub fn opener_shims_dir_in(base: &str) -> (p: String)
    ensures
        p@ == opener_shims_in(base@),
{
    let dir = app_data_dir(base);
    join_path(dir.as_str(), "opener-shims")
}

/// The base directory for the app's local data, given the user's local
/// data directory: that directory, or the error that there is none.
pub fn data_base_from(dir: Option<String>) -> (r: Result<String, BootError>)
    ensures
        match dir {
            Some(d) => r matches Ok(b) && b == d,
            None => r matches Err(e) && e@ == "Unable to resolve a local data directory."@,
        },
{
    match dir {
        Some(b) => Ok(b),
        None => Err(no_data_dir_error()),
    }
}

/// The user's local data directory, or the error that there is none.
pub fn local_data_base() -> (r: Result<String, BootError>)
    ensures
        r matches Err(e) ==> e@ == "Unable to resolve a local data directory."@,
{
    data_base_from(user_data_local_dir())
}

/// The binary locations that a `PATH` value names: `opencode` in each of its
/// entries, in order.
pub open spec fn search_path_candidates(path_var: Option<Seq<char>>) -> Seq<Seq<char>> {
    match path_var {
        Some(v) => split_on(v, ':').map_values(|e: Seq<char>| join(e, "opencode"@)),
        None => Seq::empty(),
    }
}

/// The binary locations under the user's home directory.
pub open spec fn home_candidates(home: Option<Seq<char>>) -> Seq<Seq<char>> {
    match home {
        Some(h) => seq![join(h, ".cargo/bin/opencode"@), join(h, ".local/bin/opencode"@)],
        None => Seq::empty(),
    }
}

/// The well-known install locations, tried last.
pub open spec fn fixed_candidates() -> Seq<Seq<char>> {
    seq![
        "/opt/homebrew/bin/opencode"@,
        "/usr/local/bin/opencode"@,
        "/usr/bin/opencode"@,
        "/Applications/OpenCode.app/Contents/MacOS/opencode"@,
    ]
}

/// Every place the binary is looked for, in the order they are tried: the
/// `OPENCODE_BIN` value, then each `PATH` entry, then the home directory,
/// then the well-known locations.
pub open spec fn candidate_list(
    bin_var: Option<Seq<char>>,
    path_var: Option<Seq<char>>,
    home: Option<Seq<char>>,
) -> Seq<Seq<char>> {
    let first = match bin_var {
        Some(b) => seq![b],
        None => Seq::empty(),
    };
    first + search_path_candidates(path_var) + home_candidates(home) + fixed_candidates()
}

/// View of an optional string.
pub open spec fn opt_view(o: Option<String>) -> Option<Seq<char>> {
    match o {
        Some(s) => Some(s@),
        None => None,
    }
}

fn push_str(v: &mut Vec<String>, s: &str)
    ensures
        string_views(final(v)@) == string_views(old(v)@).push(s@),
{
    let ghost before = v@;
    v.push(String::from_str(s));
    assert(string_views(v@) =~= string_views(before).push(s@));
}

/// The candidate locations, given the `OPENCODE_BIN` and `PATH` values and
/// the home directory.
pub fn candidate_paths_from(
    bin_var: &Option<String>,
    path_var: &Option<String>,
    home: &Option<String>,
) -> (paths: Vec<String>)
    ensures
        string_views(paths@) == candidate_list(opt_view(*bin_var), opt_view(*path_var), opt_view(*home)),
{
    let mut paths: Vec<String> = Vec::new();
    let ghost first: Seq<Seq<char>> = match bin_var {
        Some(b) => seq![b@],
        None => Seq::empty(),
    };
    if let Some(b) = bin_var {
        push_str(&mut paths, b.as_str());
    }
    assert(string_views(paths@) =~= first);
    let ghost from_path = search_path_candidates(opt_view(*path_var));
    if let Some(v) = path_var {
        let parts = split_str(v.as_str(), ':');
        let ghost pieces = string_views(parts@);
        let mut i: usize = 0;
        while i < parts.len()
            invariant
                i <= parts@.len(),
                pieces == string_views(parts@),
                pieces == split_on(v@, ':'),
                from_path == pieces.map_values(|e: Seq<char>| join(e, "opencode"@)),
                string_views(paths@) == first + from_path.take(i as int),
            decreases parts@.len() - i,
        {
            let entry = join_path(parts[i].as_str(), "opencode");
            let ghost before = string_views(paths@);
            push_str(&mut paths, entry.as_str());
            assert(pieces[i as int] == parts@[i as int]@);
            assert(from_path.take(i + 1) =~= from_path.take(i as int).push(entry@));
            i = i + 1;
        }
        assert(from_path.take(i as int) =~= from_path);
    } else {
        assert(from_path =~= Seq::<Seq<char>>::empty());
    }
    assert(string_views(paths@) =~= first + from_path);
    if let Some(h) = home {
        let cargo = join_path(h.as_str(), ".cargo/bin/opencode");
        push_str(&mut paths, cargo.as_str());
        let local = join_path(h.as_str(), ".local/bin/opencode");
        push_str(&mut paths, local.as_str());
    }
    assert(string_views(paths@) =~= first + from_path + home_candidates(opt_view(*home)));
    push_str(&mut paths, "/opt/homebrew/bin/opencode");
    push_str(&mut paths, "/usr/local/bin/opencode");
    push_str(&mut paths, "/usr/bin/opencode");
    push_str(&mut paths, "/Applications/OpenCode.app/Contents/MacOS/opencode");
    assert(string_views(paths@) =~= first + from_path + home_candidates(opt_view(*home))
        + fixed_candidates());
    paths
}

/// The candidate locations, given the `OPENCODE_BIN` and `PATH` values; the
/// home directory is asked of the system.
pub fn candidate_paths(bin_var: &Option<String>, path_var: &Option<String>) -> (paths: Vec<String>)
    ensures
        exists|home: Option<Seq<char>>|
            string_views(paths@) == candidate_list(opt_view(*bin_var), opt_view(*path_var), home),
{
    let home = user_home_dir();
    candidate_paths_from(bin_var, path_var, &home)
}

/// The search path handed to a child: `prefix` in front of the inherited
/// value. Joining refuses an entry that holds the separator `:`, and then
/// `prefix` alone is used, so an inherited value of several entries is
/// replaced by `prefix`.
pub open spec fn prepend_search_path(prefix: Seq<char>, inherited: Seq<char>) -> Seq<char> {
    if inherited.len() == 0 {
        prefix
    } else if prefix.contains(':') || inherited.contains(':') {
        prefix
    } else {
        prefix + seq![':'] + inherited
    }
}

/// Puts `prefix` in front of the inherited search path (absent counts as
/// empty).
pub fn prepend_path(prefix: &str, inherited: &Option<String>) -> (r: String)
    ensures
        r@ == prepend_search_path(
            prefix@,
            match *inherited {
                Some(s) => s@,
                None => Seq::empty(),
            },
        ),
{
    match inherited {
        None => String::from_str(prefix),
        Some(cur) => {
            let n = cur.as_str().unicode_len();
            if n == 0 {
                String::from_str(prefix)
            } else if crate::text::str_has_char(prefix, ':') || crate::text::str_has_char(
                cur.as_str(),
                ':',
            ) {
                String::from_str(prefix)
            } else {
                let mut r = String::from_str(prefix);
                proof { reveal_strlit(":"); }
                r.append(":");
                r.append(cur.as_str());
                r
            }
        },
    }
}


/// The shims directory always comes first in a child's search path, so its
/// no-op openers shadow the real ones; the inherited value follows only
/// when it is a single entry.
pub proof fn lemma_shims_searched_first(prefix: Seq<char>, inherited: Seq<char>)
    ensures
        prepend_search_path(prefix, inherited).len() >= prefix.len(),
        prepend_search_path(prefix, inherited).subrange(0, prefix.len() as int) == prefix,
        inherited.len() > 0 && !prefix.contains(':') && !inherited.contains(':')
            ==> prepend_search_path(prefix, inherited) == prefix + seq![':'] + inherited,
{
    let r = prepend_search_path(prefix, inherited);
    assert(r.subrange(0, prefix.len() as int) =~= prefix);
}

/// `OPENCODE_BIN` is tried before anything else, and the well-known
/// install locations after everything else.
pub proof fn lemma_candidate_order(
    bin_var: Option<Seq<char>>,
    path_var: Option<Seq<char>>,
    home: Option<Seq<char>>,
)
    ensures
        bin_var matches Some(b) ==> candidate_list(bin_var, path_var, home)[0] == b,
        candidate_list(bin_var, path_var, home).len() >= 4,
        candidate_list(bin_var, path_var, home).subrange(
            candidate_list(bin_var, path_var, home).len() - 4,
            candidate_list(bin_var, path_var, home).len() as int,
        ) == fixed_candidates(),
{
    let c = candidate_list(bin_var, path_var, home);
    let first: Seq<Seq<char>> = match bin_var {
        Some(b) => seq![b],
        None => Seq::empty(),
    };
    let head = first + search_path_candidates(path_var) + home_candidates(home);
    assert(c == head + fixed_candidates());
    assert(c.subrange(c.len() - 4, c.len() as int) =~= fixed_candidates());
    if bin_var is Some {
        assert(c[0] == first[0]);
    }
}

} // verus!
