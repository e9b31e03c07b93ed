use scie_pants::{
    base_name, decode_output, env_version, find_pants_installation, get_pants_from_sources_process,
    get_pants_process, invoked_as_basename, issue_link, lines, pants_process, path_as_str, resolve_version, PathError,
    select_entry, BuildRoot, Config, Entry, EnvValue, EnvView, FsView, LaunchError, PantsBootstrap,
    PantsConfig, Platform, Process, ScieBoot, SourcesTrigger, SpecifiedPath,
};

fn env_of(vars: &[(&str, &str)]) -> EnvView {
    let mut env = EnvView::new();
    for (k, v) in vars {
        env.push(k.to_string(), EnvValue::Text(v.to_string()));
    }
    env
}

fn fs_of(files: &[&str], texts: &[(&str, &str)]) -> FsView {
    FsView {
        files: files.iter().map(|f| f.to_string()).collect(),
        texts: texts.iter().map(|(p, t)| (p.to_string(), t.to_string())).collect(),
    }
}

fn text_var(p: &Process, name: &str) -> Option<String> {
    p.env.iter().find(|(k, _)| k == name).and_then(|(_, v)| match v {
        EnvValue::Text(s) => Some(s.clone()),
        EnvValue::NonUtf8(_) => None,
    })
}

fn names(p: &Process) -> Vec<String> {
    p.env.iter().map(|(k, _)| k.clone()).collect()
}

fn installation(root: &str, toml: &str) -> Option<PantsConfig> {
    let path = format!("{root}/pants.toml");
    let fs = fs_of(&[path.as_str()], &[(path.as_str(), toml)]);
    find_pants_installation(root, &fs).unwrap()
}

#[test]
fn root_found_at_marker_depth() {
    let fs = fs_of(&["/a/BUILDROOT"], &[]);
    let root = BuildRoot::find("/a/b/c/d", &fs).ok().unwrap();
    assert_eq!(root.path, "/a");
    let fs = fs_of(&["/x/y/pants.toml"], &[]);
    assert_eq!(BuildRoot::find("/x/y", &fs).ok().unwrap().path, "/x/y");
}

#[test]
fn root_nearest_marker_wins() {
    let fs = fs_of(&["/a/pants.toml", "/a/b/BUILD_ROOT"], &[]);
    assert_eq!(BuildRoot::find("/a/b/c", &fs).ok().unwrap().path, "/a/b");
}

#[test]
fn root_not_found() {
    let fs = fs_of(&["/elsewhere/pants.toml"], &[]);
    match BuildRoot::find("/a/b", &fs) {
        Err(LaunchError::RootNotFound { start }) => assert_eq!(start, "/a/b"),
        _ => panic!("expected RootNotFound"),
    }
}

#[test]
fn root_at_filesystem_root() {
    let fs = fs_of(&["/pants.toml"], &[]);
    assert_eq!(BuildRoot::find("/a/b", &fs).ok().unwrap().path, "/");
}

#[test]
fn probe_paths_walk_up() {
    let probes = BuildRoot::probe_paths("/a");
    assert_eq!(
        probes,
        vec![
            "/a/pants.toml",
            "/a/BUILDROOT",
            "/a/BUILD_ROOT",
            "/a/.pants.bootstrap",
            "/pants.toml",
            "/BUILDROOT",
            "/BUILD_ROOT",
            "/.pants.bootstrap",
        ]
    );
}

fn load(before: &str, after: &str) -> PantsBootstrap {
    PantsBootstrap::load(
        "/r/.pants.bootstrap",
        true,
        Some(0),
        String::new(),
        before.as_bytes().to_vec(),
        after.as_bytes().to_vec(),
    )
    .ok()
    .unwrap()
}

#[test]
fn bootstrap_empty_script_gives_empty_diff() {
    let before = "HOME=/root\nPATH=/bin\n";
    let after = "BASH_ARGC=([0]=\"0\")\nHOME=/root\nPATH=/bin\nPIPESTATUS=([0]=\"0\")\n_=/r/.pants.bootstrap\n";
    assert!(load(before, after).env.is_empty());
}

#[test]
fn bootstrap_export_gives_only_that_variable() {
    let before = "HOME=/root\n";
    let after = "BASH_ARGC=()\nFOO=bar\nHOME=/root\nPIPESTATUS=([0]=\"0\")\n_=x\n";
    let b = load(before, after);
    assert_eq!(b.env, vec![("FOO".to_string(), "bar".to_string())]);
}

#[test]
fn bootstrap_unchanged_value_is_omitted() {
    let before = "FOO=bar\nHOME=/root\n";
    let after = "FOO=bar\nHOME=/home\n";
    let b = load(before, after);
    assert_eq!(b.env, vec![("HOME".to_string(), "/home".to_string())]);
}

#[test]
fn bootstrap_value_split_at_first_equals() {
    let b = load("", "OPTS=a=b=c\n");
    assert_eq!(b.env, vec![("OPTS".to_string(), "a=b=c".to_string())]);
}

#[test]
fn bootstrap_unparsable_lines_are_skipped() {
    let b = load("junk\n", "more junk\nX=1\n");
    assert_eq!(b.env, vec![("X".to_string(), "1".to_string())]);
    assert_eq!(b.skipped, vec!["junk".to_string(), "more junk".to_string()]);
}

#[test]
fn bootstrap_failure_reports_output() {
    let r = PantsBootstrap::load("/r/.pants.bootstrap", false, Some(3), "oops".to_string(), vec![], vec![]);
    match r {
        Err(LaunchError::BootstrapScriptFailure { script, code, output }) => {
            assert_eq!(script, "/r/.pants.bootstrap");
            assert_eq!(code, Some(3));
            assert_eq!(output, "oops");
        }
        _ => panic!("expected BootstrapScriptFailure"),
    }
}

#[test]
fn bootstrap_non_utf8_dump_is_an_error() {
    let r = PantsBootstrap::load("/s", true, Some(0), String::new(), vec![0xff], vec![]);
    assert!(matches!(r, Err(LaunchError::BootstrapOutputNotUtf8 { .. })));
}

#[test]
fn bootstrap_export_sets_and_replaces() {
    let b = load("A=1\n", "A=2\nB=3\n");
    let mut env = env_of(&[("A", "1"), ("C", "4")]);
    b.export_env(&mut env);
    let get = |n: &str| match env.get(n) {
        Some(EnvValue::Text(s)) => s.clone(),
        _ => panic!("missing {n}"),
    };
    assert_eq!(get("A"), "2");
    assert_eq!(get("B"), "3");
    assert_eq!(get("C"), "4");
}

#[test]
fn bootstrap_probe_command_text() {
    assert_eq!(
        PantsBootstrap::probe_command("/r/.pants.bootstrap", "/tmp/cap"),
        "(set -o posix; IFS=$'\\0'; set >&2); source \"/r/.pants.bootstrap\" >\"/tmp/cap\" 2>&1; set -o posix; IFS=$'\\0'; set"
    );
}

#[test]
fn version_from_config() {
    assert_eq!(resolve_version(&env_of(&[]), Some("1.2.3".to_string())).ok().unwrap(), Some("1.2.3".to_string()));
}

#[test]
fn version_override_wins() {
    let env = env_of(&[("PANTS_VERSION", "2.0.0")]);
    assert_eq!(resolve_version(&env, Some("1.2.3".to_string())).ok().unwrap(), Some("2.0.0".to_string()));
}

#[test]
fn version_selectors_conflict() {
    let env = env_of(&[("PANTS_VERSION", "2.0.0"), ("PANTS_SHA", "abc123")]);
    assert!(matches!(
        resolve_version(&env, Some("1.2.3".to_string())),
        Err(LaunchError::ConflictingVersionSelectors)
    ));
}

#[test]
fn version_revision_override_means_none() {
    let env = env_of(&[("PANTS_SHA", "abc123")]);
    assert_eq!(resolve_version(&env, Some("1.2.3".to_string())).ok().unwrap(), None);
}

#[test]
fn version_empty_override_is_unset() {
    let env = env_of(&[("PANTS_VERSION", ""), ("PANTS_SHA", "")]);
    assert_eq!(resolve_version(&env, Some("1.2.3".to_string())).ok().unwrap(), Some("1.2.3".to_string()));
}

#[test]
fn version_non_utf8_override() {
    let mut env = EnvView::new();
    env.push("PANTS_VERSION".to_string(), EnvValue::NonUtf8(vec![0xff, 0xfe]));
    match env_version(&env, "PANTS_VERSION") {
        Err(LaunchError::NonUtf8EnvironmentValue { name }) => assert_eq!(name, "PANTS_VERSION"),
        _ => panic!("expected NonUtf8EnvironmentValue"),
    }
}

#[test]
fn config_reads_all_settings() {
    let c = Config::from_toml(
        "[GLOBAL]\npants_version = \"2.18.0\"\n[debugpy]\nversion = \"1.6.0\"\n[DEFAULT]\ndelegate_bootstrap = true\n",
    )
    .unwrap();
    assert_eq!(c.pants_version, Some("2.18.0".to_string()));
    assert_eq!(c.debugpy_version, Some("1.6.0".to_string()));
    assert_eq!(c.delegate_bootstrap, Some(true));
}

#[test]
fn config_missing_sections_default() {
    let c = Config::from_toml("[other]\nx = 1\n").unwrap();
    assert_eq!(c.pants_version, None);
    assert_eq!(c.debugpy_version, None);
    assert_eq!(c.delegate_bootstrap, None);
}

#[test]
fn config_wrong_type_is_rejected() {
    assert!(Config::from_toml("[GLOBAL]\npants_version = 2\n").is_none());
    assert!(Config::from_toml("GLOBAL = 3\n").is_none());
    assert!(Config::from_toml("[DEFAULT]\ndelegate_bootstrap = \"yes\"\n").is_none());
}

#[test]
fn config_parse_error_names_file() {
    let fs = fs_of(&["/p/pants.toml"], &[("/p/pants.toml", "[GLOBAL\n")]);
    match find_pants_installation("/p/q", &fs) {
        Err(LaunchError::ConfigParseError { path }) => assert_eq!(path, "/p/pants.toml"),
        _ => panic!("expected ConfigParseError"),
    }
}

#[test]
fn config_read_error_names_file() {
    let fs = fs_of(&["/p/BUILDROOT"], &[]);
    match find_pants_installation("/p", &fs) {
        Err(LaunchError::ConfigReadError { path }) => assert_eq!(path, "/p/pants.toml"),
        _ => panic!("expected ConfigReadError"),
    }
}

#[test]
fn no_installation_without_root() {
    let fs = fs_of(&[], &[]);
    assert!(find_pants_installation("/p", &fs).ok().unwrap().is_none());
}

#[test]
fn config_getters() {
    let pc = installation("/repo", "[GLOBAL]\npants_version = \"2.1.0\"\n").unwrap();
    assert_eq!(pc.build_root(), "/repo");
    assert_eq!(pc.package_version(), Some("2.1.0".to_string()));
    assert_eq!(pc.debugpy_version(), None);
    assert!(!pc.delegate_bootstrap());
}

#[test]
fn end_to_end_release_version() {
    let inst = installation("/repo", "[GLOBAL]\npants_version = \"2.18.0\"\n");
    let env = env_of(&[("SCIE", "/opt/scie-pants")]);
    let fs = fs_of(&["/repo/pants.toml"], &[]);
    let p = get_pants_process(&inst, &env, &fs).ok().unwrap();
    assert_eq!(p.exe, "/opt/scie-pants");
    assert!(p.args.is_empty());
    assert_eq!(text_var(&p, "PANTS_VERSION"), Some("2.18.0".to_string()));
    assert_eq!(text_var(&p, "SCIE_BOOT"), Some("pants".to_string()));
    assert_eq!(text_var(&p, "PANTS_BIN_NAME"), Some("/opt/scie-pants".to_string()));
    assert_eq!(text_var(&p, "PANTS_DEBUG"), Some("".to_string()));
    assert_eq!(text_var(&p, "PANTS_BUILDROOT_OVERRIDE"), Some("/repo".to_string()));
    assert_eq!(
        names(&p),
        vec![
            "SCIE_BOOT",
            "PANTS_BIN_NAME",
            "PANTS_DEBUG",
            "SCIE_PANTS_VERSION",
            "PANTS_BUILDROOT_OVERRIDE",
            "PANTS_TOML",
            "PANTS_VERSION"
        ]
    );
}

#[test]
fn no_version_adds_salt_and_config_path() {
    let inst = installation("/repo", "");
    let env = env_of(&[("SCIE", "/scie")]);
    let fs = fs_of(&[], &[]);
    let p = get_pants_process(&inst, &env, &fs).ok().unwrap();
    assert_eq!(p.exe, "/scie");
    let salt = text_var(&p, "PANTS_VERSION_PROMPT_SALT").unwrap();
    assert_eq!(salt.len(), 32);
    assert!(salt.chars().all(|c| c.is_ascii_digit() || ('a'..='f').contains(&c)));
    assert_eq!(text_var(&p, "PANTS_TOML"), Some("/repo/pants.toml".to_string()));
    assert_eq!(text_var(&p, "PANTS_VERSION"), None);
    let q = get_pants_process(&inst, &env, &fs).ok().unwrap();
    assert_ne!(text_var(&q, "PANTS_VERSION_PROMPT_SALT").unwrap(), salt);
}

#[test]
fn delegate_without_version_runs_project_script() {
    let inst = installation("/repo", "[DEFAULT]\ndelegate_bootstrap = true\n");
    let env = env_of(&[("SCIE", "/scie")]);
    let fs = fs_of(&[], &[]);
    let p = pants_process(&inst, &env, &fs, "salt").ok().unwrap();
    assert_eq!(p.exe, "/repo/pants");
    assert!(p.args.is_empty());
    assert!(p.env.is_empty());
}

#[test]
fn delegate_with_version_signals_override() {
    let inst = installation("/repo", "[DEFAULT]\ndelegate_bootstrap = true\n");
    let env = env_of(&[("SCIE", "/scie"), ("PANTS_VERSION", "2.20.0")]);
    let fs = fs_of(&[], &[]);
    let p = pants_process(&inst, &env, &fs, "salt").ok().unwrap();
    assert_eq!(p.exe, "/scie");
    assert_eq!(text_var(&p, "_PANTS_VERSION_OVERRIDE"), Some("2.20.0".to_string()));
    assert_eq!(text_var(&p, "PANTS_VERSION"), Some("2.20.0".to_string()));
}

#[test]
fn bootstrap_script_wraps_in_shell() {
    let inst = installation("/repo", "[GLOBAL]\npants_version = \"2.18.0\"\n");
    let env = env_of(&[("SCIE", "/my scie")]);
    let fs = fs_of(&["/repo/.pants.bootstrap"], &[]);
    let p = pants_process(&inst, &env, &fs, "salt").ok().unwrap();
    assert_eq!(p.exe, "/usr/bin/env");
    assert_eq!(
        p.args,
        vec![
            "bash".to_string(),
            "-c".to_string(),
            "set -eou pipefail; source /repo/.pants.bootstrap; exec $'/my scie' \"$0\" \"$@\"".to_string(),
        ]
    );
}

#[test]
fn bootstrap_tools_mode_is_not_wrapped() {
    let inst = installation("/repo", "[GLOBAL]\npants_version = \"2.18.0\"\n");
    let env = env_of(&[("SCIE", "/scie"), ("PANTS_BOOTSTRAP_TOOLS", "1"), ("PANTS_DEBUG", "1")]);
    let fs = fs_of(&["/repo/.pants.bootstrap"], &[]);
    let p = pants_process(&inst, &env, &fs, "salt").ok().unwrap();
    assert_eq!(p.exe, "/scie");
    assert!(p.args.is_empty());
    assert_eq!(text_var(&p, "SCIE_BOOT"), Some("bootstrap-tools".to_string()));
}

#[test]
fn debug_mode_and_bin_name() {
    let env = env_of(&[("SCIE", "/scie"), ("PANTS_DEBUG", "yes"), ("SCIE_ARGV0", "/usr/bin/pants")]);
    assert_eq!(ScieBoot::select(&env), ScieBoot::PantsDebug);
    let p = pants_process(&None, &env, &fs_of(&[], &[]), "s").ok().unwrap();
    assert_eq!(text_var(&p, "SCIE_BOOT"), Some("pants-debug".to_string()));
    assert_eq!(text_var(&p, "PANTS_DEBUG"), Some("1".to_string()));
    assert_eq!(text_var(&p, "PANTS_BIN_NAME"), Some("/usr/bin/pants".to_string()));
    assert_eq!(text_var(&p, "PANTS_VERSION_PROMPT_SALT"), Some("s".to_string()));
    let env = env_of(&[("SCIE", "/scie"), ("PANTS_DEBUG", ""), ("PANTS_BIN_NAME", "./pants")]);
    assert_eq!(ScieBoot::select(&env), ScieBoot::Pants);
    let p = pants_process(&None, &env, &fs_of(&[], &[]), "s").ok().unwrap();
    assert_eq!(text_var(&p, "PANTS_BIN_NAME"), Some("./pants".to_string()));
}

#[test]
fn runtime_location_missing() {
    let inst = installation("/repo", "[GLOBAL]\npants_version = \"2.18.0\"\n");
    let r = pants_process(&inst, &env_of(&[]), &fs_of(&[], &[]), "s");
    assert!(matches!(r, Err(LaunchError::RuntimeLocationMissing)));
}

#[test]
fn debugpy_version_is_passed_on() {
    let inst = installation("/repo", "[GLOBAL]\npants_version = \"2.18.0\"\n[debugpy]\nversion = \"1.6.0\"\n");
    let p = pants_process(&inst, &env_of(&[("SCIE", "/scie")]), &fs_of(&[], &[]), "s").ok().unwrap();
    assert_eq!(text_var(&p, "PANTS_DEBUGPY_VERSION"), Some("1.6.0".to_string()));
    assert_eq!(text_var(&p, "PANTS_TOML"), Some("/repo/pants.toml".to_string()));
}

#[test]
fn shell_quoting_of_plain_and_spaced_values() {
    assert_eq!(ScieBoot::quote("/a/b").ok().unwrap(), "/a/b");
    assert_eq!(ScieBoot::quote("a b").ok().unwrap(), "$'a b'");
    assert_eq!(ScieBoot::quote("").ok().unwrap(), "''");
}

#[test]
fn entry_selection() {
    assert!(matches!(select_entry(&env_of(&[("PANTS_BOOTSTRAP_VERSION", "report")])), Entry::ReportVersion));
    match select_entry(&env_of(&[("PANTS_SOURCE", "/src/pants")])) {
        Entry::Sources { repo, trigger } => {
            assert_eq!(repo, "/src/pants");
            assert_eq!(trigger, SourcesTrigger::OverrideVariable);
        }
        _ => panic!("expected sources"),
    }
    match select_entry(&env_of(&[("SCIE_ARGV0", "/bin/pants_from_sources")])) {
        Entry::Sources { repo, trigger } => {
            assert_eq!(repo, "../pants");
            assert_eq!(trigger, SourcesTrigger::InvocationAlias);
        }
        _ => panic!("expected sources"),
    }
    assert!(matches!(select_entry(&env_of(&[("SCIE_ARGV0", "/bin/pants")])), Entry::Managed));
    assert_eq!(invoked_as_basename(&env_of(&[("SCIE_ARGV0", "/bin/pants/")])), Some("pants".to_string()));
}

#[test]
fn sources_mode_process() {
    let fs = fs_of(
        &["/src/pants/pants", "/work/pants.toml"],
        &[("/src/pants/src/python/pants/VERSION", "2.21.0.dev0\n")],
    );
    let env = env_of(&[("PANTS_PANTSD", "true")]);
    let p = get_pants_from_sources_process("/src/pants", SourcesTrigger::OverrideVariable, &env, &fs, "/work/sub")
        .ok()
        .unwrap();
    assert_eq!(p.exe, "/src/pants/pants");
    assert_eq!(p.args, vec!["--no-verify-config".to_string()]);
    assert_eq!(text_var(&p, "PANTS_VERSION"), Some("2.21.0.dev0".to_string()));
    assert_eq!(text_var(&p, "PANTS_PANTSD"), Some("true".to_string()));
    assert_eq!(text_var(&p, "PANTS_BUILDROOT_OVERRIDE"), Some("/work".to_string()));
    assert_eq!(text_var(&p, "no_proxy"), Some("*".to_string()));
    let env = env_of(&[("ENABLE_PANTSD", "1"), ("PANTS_PANTSD", "true")]);
    let p = get_pants_from_sources_process("/src/pants", SourcesTrigger::OverrideVariable, &env, &fs, "/work")
        .ok()
        .unwrap();
    assert_eq!(text_var(&p, "PANTS_PANTSD"), Some("1".to_string()));
    let p = get_pants_from_sources_process("/src/pants", SourcesTrigger::OverrideVariable, &env_of(&[]), &fs, "/work")
        .ok()
        .unwrap();
    assert_eq!(text_var(&p, "PANTS_PANTSD"), Some("false".to_string()));
}

#[test]
fn sources_runner_missing() {
    let fs = fs_of(&[], &[]);
    match get_pants_from_sources_process("../pants", SourcesTrigger::InvocationAlias, &env_of(&[]), &fs, "/w") {
        Err(LaunchError::SourcesRunnerNotFound { runner, trigger }) => {
            assert_eq!(runner, "../pants/pants");
            assert_eq!(trigger, SourcesTrigger::InvocationAlias);
        }
        _ => panic!("expected SourcesRunnerNotFound"),
    }
}

#[test]
fn sources_version_unreadable() {
    let fs = fs_of(&["/s/pants"], &[]);
    match get_pants_from_sources_process("/s", SourcesTrigger::OverrideVariable, &env_of(&[]), &fs, "/w") {
        Err(LaunchError::SourcesVersionUnreadable { path }) => assert_eq!(path, "/s/src/python/pants/VERSION"),
        _ => panic!("expected SourcesVersionUnreadable"),
    }
}

#[test]
fn line_splitting() {
    assert_eq!(lines("a\r\nb\n\nc"), vec!["a", "b", "", "c"]);
    assert!(lines("").is_empty());
    assert_eq!(lines("x\r"), vec!["x\r"]);
}

#[test]
fn packaging_helpers() {
    assert_eq!(issue_link(129, "pantsbuild/scie-pants"), "https://github.com/pantsbuild/scie-pants/issues/129");
    assert_eq!(issue_link(0, "o/r"), "https://github.com/o/r/issues/0");
    assert_eq!(decode_output(b"hi".to_vec()), Some("hi".to_string()));
    assert_eq!(decode_output(vec![0xc3]), None);
    assert_eq!(path_as_str("/a/\u{e9}".as_bytes().to_vec()).ok(), Some("/a/\u{e9}".to_string()));
    match path_as_str(vec![b'/', 0xff]) {
        Err(PathError::NotUtf8 { path }) => assert_eq!(path, vec![b'/', 0xff]),
        _ => panic!("expected NotUtf8"),
    }
    assert_eq!(base_name("/dist/scie-pants-linux-x86_64").ok(), Some("scie-pants-linux-x86_64".to_string()));
    assert_eq!(base_name("foo.txt/.").ok(), Some("foo.txt".to_string()));
    assert_eq!(base_name("a/b/./").ok(), Some("b".to_string()));
    match base_name("/a/..") {
        Err(PathError::NoBaseName { path }) => assert_eq!(path, "/a/.."),
        _ => panic!("expected NoBaseName"),
    }
    assert!(base_name("/").is_err());
    assert!(base_name(".").is_err());
    assert_eq!(Platform::MacOSAarch64.to_str(), "macos-aarch64");
    assert_eq!(SpecifiedPath::new("dist").path, "dist");
}

#[test]
fn revision_override_with_bootstrap_script_succeeds() {
    let inst = installation("/repo", "[GLOBAL]\npants_version = \"2.18.0\"\n");
    let env = env_of(&[("SCIE", "/scie"), ("PANTS_SHA", "abc123")]);
    let fs = fs_of(&["/repo/.pants.bootstrap"], &[]);
    let p = get_pants_process(&inst, &env, &fs).ok().unwrap();
    assert_eq!(p.exe, "/usr/bin/env");
    assert_eq!(text_var(&p, "PANTS_VERSION"), None);
    assert_eq!(text_var(&p, "PANTS_VERSION_PROMPT_SALT").unwrap().len(), 32);
}

#[test]
fn sources_version_is_trimmed() {
    let fs = fs_of(
        &["/s/pants", "/w/pants.toml"],
        &[("/s/src/python/pants/VERSION", " \t2.22.0\u{3000}\r\n")],
    );
    let p = get_pants_from_sources_process("/s", SourcesTrigger::OverrideVariable, &env_of(&[]), &fs, "/w")
        .ok()
        .unwrap();
    assert_eq!(text_var(&p, "PANTS_VERSION"), Some("2.22.0".to_string()));
}

#[test]
fn invocation_basename_skips_dot_component() {
    let env = env_of(&[("SCIE_ARGV0", "/opt/pants_from_sources/.")]);
    assert_eq!(invoked_as_basename(&env), Some("pants_from_sources".to_string()));
    assert_eq!(invoked_as_basename(&env_of(&[("SCIE_ARGV0", "/")])), None);
    assert_eq!(invoked_as_basename(&env_of(&[])), None);
}
