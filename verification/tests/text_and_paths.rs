use opencode_ui::binary::{custom_candidate, executable_exists, resolve_binary, CandidateFile, FileMeta};
use opencode_ui::config::{default_port, local_url, AppConfig, DEFAULT_PORT};
use opencode_ui::paths::{
    app_data_dir, candidate_paths, candidate_paths_from, config_file_path, config_file_path_in,
    data_base_from, local_data_base, join_path, launch_lock_path_in,
    opener_shims_dir_in, path_is_absolute, prepend_path,
};
use opencode_ui::probe::{looks_like_opencode, mentions_opencode, status_is_success, ProbeResponse};
use opencode_ui::text::{i64_to_decimal, split_str, str_contains, str_has_char, trim_str, u64_to_decimal};

fn s(x: &str) -> String {
    x.to_string()
}

#[test]
fn decimal_rendering() {
    assert_eq!(u64_to_decimal(0), "0");
    assert_eq!(u64_to_decimal(7), "7");
    assert_eq!(u64_to_decimal(4096), "4096");
    assert_eq!(u64_to_decimal(u64::MAX), "18446744073709551615");
    assert_eq!(i64_to_decimal(-1), "-1");
    assert_eq!(i64_to_decimal(i64::MIN), "-9223372036854775808");
    assert_eq!(i64_to_decimal(137), "137");
}

#[test]
fn local_url_on_default_port() {
    assert_eq!(default_port(), 4096);
    assert_eq!(DEFAULT_PORT, 4096);
    assert_eq!(local_url(default_port()), "http://127.0.0.1:4096/");
    assert_eq!(local_url(0), "http://127.0.0.1:0/");
    assert_eq!(local_url(65535), "http://127.0.0.1:65535/");
}

#[test]
fn trimming_whitespace() {
    assert_eq!(trim_str("  /usr/bin/opencode \n"), "/usr/bin/opencode");
    assert_eq!(trim_str("\t\u{3000}x y\u{a0}"), "x y");
    assert_eq!(trim_str("   "), "");
    assert_eq!(trim_str(""), "");
    assert_eq!(trim_str("abc"), "abc");
    let once = trim_str(" a b ");
    assert_eq!(trim_str(&once), once);
}

#[test]
fn searching_and_splitting() {
    assert!(str_contains("hello opencode web", "opencode"));
    assert!(!str_contains("open code", "opencode"));
    assert!(str_contains("abc", ""));
    assert!(!str_contains("ab", "abc"));
    assert!(str_has_char("a:b", ':'));
    assert!(!str_has_char("ab", ':'));
    assert_eq!(split_str("/usr/bin:/bin", ':'), vec![s("/usr/bin"), s("/bin")]);
    assert_eq!(split_str("", ':'), vec![s("")]);
    assert_eq!(split_str(":a::", ':'), vec![s(""), s("a"), s(""), s("")]);
}

#[test]
fn joining_paths() {
    assert!(path_is_absolute("/a"));
    assert!(!path_is_absolute("a/b"));
    assert!(!path_is_absolute(""));
    assert_eq!(join_path("/home/u", "x"), "/home/u/x");
    assert_eq!(join_path("/home/u/", "x"), "/home/u/x");
    assert_eq!(join_path("/home/u", "/abs"), "/abs");
    assert_eq!(join_path("", "opencode"), "opencode");
    assert_eq!(join_path("/a", ""), "/a/");
}

#[test]
fn app_file_locations() {
    assert_eq!(
        config_file_path_in(&Some(s("/home/u/.config"))),
        Some(s("/home/u/.config/opencode-ui/config.json"))
    );
    assert_eq!(config_file_path_in(&None), None);
    assert_eq!(app_data_dir("/d"), "/d/opencode-ui");
    assert_eq!(launch_lock_path_in("/d"), "/d/opencode-ui/launch.lock");
    assert_eq!(opener_shims_dir_in("/d/"), "/d/opencode-ui/opener-shims");
}

#[test]
fn candidate_locations_in_order() {
    let c = candidate_paths_from(&Some(s("/custom/oc")), &Some(s("/usr/bin:/opt/x/")), &Some(s("/home/u")));
    assert_eq!(
        c,
        vec![
            s("/custom/oc"),
            s("/usr/bin/opencode"),
            s("/opt/x/opencode"),
            s("/home/u/.cargo/bin/opencode"),
            s("/home/u/.local/bin/opencode"),
            s("/opt/homebrew/bin/opencode"),
            s("/usr/local/bin/opencode"),
            s("/usr/bin/opencode"),
            s("/Applications/OpenCode.app/Contents/MacOS/opencode"),
        ]
    );
    let bare = candidate_paths_from(&None, &None, &None);
    assert_eq!(bare.len(), 4);
    assert_eq!(bare[0], "/opt/homebrew/bin/opencode");
    let empty_entry = candidate_paths_from(&None, &Some(s("")), &None);
    assert_eq!(empty_entry[0], "opencode");
}

#[test]
fn search_path_for_child() {
    assert_eq!(prepend_path("/shims", &None), "/shims");
    assert_eq!(prepend_path("/shims", &Some(s(""))), "/shims");
    assert_eq!(prepend_path("/shims", &Some(s("/usr/bin"))), "/shims:/usr/bin");
    // Joining refuses a value that already holds the separator.
    assert_eq!(prepend_path("/shims", &Some(s("/usr/bin:/bin"))), "/shims");
    assert_eq!(prepend_path("/a:b", &Some(s("/usr/bin"))), "/a:b");
}

#[test]
fn executable_detection() {
    assert!(executable_exists(Some(FileMeta { is_file: true, mode: 0o100755 })));
    assert!(executable_exists(Some(FileMeta { is_file: true, mode: 0o001 })));
    assert!(!executable_exists(Some(FileMeta { is_file: true, mode: 0o644 })));
    assert!(!executable_exists(Some(FileMeta { is_file: false, mode: 0o755 })));
    assert!(!executable_exists(None));
}

#[test]
fn custom_binary_location() {
    assert_eq!(custom_candidate("/opt/oc", &Some(s("/work"))), "/opt/oc");
    assert_eq!(custom_candidate("bin/oc", &Some(s("/work"))), "/work/bin/oc");
    assert_eq!(custom_candidate("bin/oc", &None), "bin/oc");
}

fn file(path: &str, meta: Option<FileMeta>) -> CandidateFile {
    CandidateFile { path: s(path), meta }
}

const EXEC: Option<FileMeta> = Some(FileMeta { is_file: true, mode: 0o755 });
const PLAIN: Option<FileMeta> = Some(FileMeta { is_file: true, mode: 0o644 });

#[test]
fn resolving_the_binary() {
    let search = vec![file("/a", None), file("/b", PLAIN), file("/c", EXEC), file("/d", EXEC)];
    assert_eq!(resolve_binary(&None, &search).ok(), Some(s("/c")));
    let none = vec![file("/a", None), file("/b", PLAIN)];
    assert_eq!(
        resolve_binary(&None, &none).err().map(|e| e.message()),
        Some(s("OpenCode binary not found. Set OPENCODE_BIN or use a custom path."))
    );
    assert_eq!(resolve_binary(&Some(file("/mine", EXEC)), &search).ok(), Some(s("/mine")));
    // A configured path that is not executable does not fall back to the search.
    assert_eq!(
        resolve_binary(&Some(file("/mine", PLAIN)), &search).err().map(|e| e.message()),
        Some(s("Custom OpenCode path is not executable: /mine"))
    );
}

#[test]
fn probing_the_server() {
    assert!(status_is_success(200));
    assert!(status_is_success(299));
    assert!(!status_is_success(300));
    assert!(!status_is_success(199));
    assert!(mentions_opencode("<title>opencode</title>"));
    assert!(!mentions_opencode("<title>OpenCode</title>"));
    let page = |status: u16, body: Option<&str>| Some(ProbeResponse { status, body: body.map(s) });
    // The body is lowercased before it is searched.
    assert!(looks_like_opencode(&page(200, Some("<title>OpenCode</title>"))));
    assert!(looks_like_opencode(&page(204, Some("OPENCODE"))));
    assert!(!looks_like_opencode(&page(200, Some("nginx welcome"))));
    assert!(!looks_like_opencode(&page(404, Some("opencode"))));
    assert!(!looks_like_opencode(&page(200, None)));
    assert!(!looks_like_opencode(&None));
}

#[test]
fn configuration_defaults_and_loading() {
    let d = AppConfig::defaults(Some(s("pw")));
    assert_eq!(d.port, 4096);
    assert_eq!(d.binary_path, None);
    assert_eq!(d.working_dir, None);
    assert!(d.extra_args.is_empty());
    assert_eq!(d.server_password, Some(s("pw")));

    let none = AppConfig::from_loaded(None, Some(s("env")));
    assert_eq!(none.port, 4096);
    assert_eq!(none.server_password, Some(s("env")));

    let mut read = AppConfig::defaults(None);
    read.port = 5000;
    read.extra_args = vec![s("--x")];
    let filled = AppConfig::from_loaded(Some(read), Some(s("env")));
    assert_eq!(filled.port, 5000);
    assert_eq!(filled.extra_args, vec![s("--x")]);
    assert_eq!(filled.server_password, Some(s("env")));

    let own = AppConfig::defaults(Some(s("mine")));
    let kept = AppConfig::from_loaded(Some(own), Some(s("env")));
    assert_eq!(kept.server_password, Some(s("mine")));
}

#[test]
fn entering_a_binary_path() {
    let mut c = AppConfig::defaults(None);
    c.port = 1234;
    c.set_binary_path("  /usr/local/bin/opencode  ");
    assert_eq!(c.binary_path, Some(s("/usr/local/bin/opencode")));
    assert_eq!(c.port, 1234);
    let stored = c.binary_path.clone().unwrap();
    c.set_binary_path(&stored);
    assert_eq!(c.binary_path, Some(stored));
    c.set_binary_path(" \t ");
    assert_eq!(c.binary_path, None);
    let copy = c.duplicate();
    assert_eq!(copy.port, 1234);
    assert_eq!(copy.binary_path, None);
}

#[test]
fn user_directories_shape() {
    if let Some(p) = config_file_path() {
        assert!(p.ends_with("/opencode-ui/config.json"));
    }
    match local_data_base() {
        Ok(base) => assert!(!base.is_empty()),
        Err(e) => assert_eq!(e.message(), "Unable to resolve a local data directory."),
    }
    let c = candidate_paths(&Some(s("/x/oc")), &Some(s("/bin")));
    assert_eq!(c[0], "/x/oc");
    assert_eq!(c[1], "/bin/opencode");
    assert_eq!(c[c.len() - 1], "/Applications/OpenCode.app/Contents/MacOS/opencode");
}

#[test]
fn data_directory_or_error() {
    assert_eq!(data_base_from(Some(s("/d"))).ok(), Some(s("/d")));
    assert_eq!(
        data_base_from(None).err().map(|e| e.message()),
        Some(s("Unable to resolve a local data directory."))
    );
}
