//! Running a sibling source checkout of the tool instead of a release.

use vstd::prelude::*;

use crate::build_root::{find_root, BuildRoot, FsView};
use crate::environ::{EnvValue, EnvValueView, EnvView};
use crate::error::{LaunchError, LaunchErrorView, SourcesTrigger};
use crate::path::{file_name, file_name_of, join, path_join};
use crate::process::{launcher_version, outcome, scie_pants_version, text, Process, ProcessView};
use crate::text::{owned, str_eq, trim, trimmed};

verus! {

/// How the launcher proceeds for one invocation.
pub enum Entry {
    /// Print the launcher's own version and stop.
    ReportVersion,
    /// Run the source checkout at `repo`.
    Sources { repo: String, trigger: SourcesTrigger },
    /// Resolve a version and hand off to the managed runtime.
    Managed,
}

/// What an `Entry` holds.
pub enum EntryView {
    ReportVersion,
    Sources { repo: Seq<char>, trigger: SourcesTrigger },
    Managed,
}

impl View for Entry {
    type V = EntryView;

    open spec fn view(&self) -> EntryView {
        match self {
            Entry::ReportVersion => EntryView::ReportVersion,
            Entry::Sources { repo, trigger } => EntryView::Sources { repo: repo@, trigger: *trigger },
            Entry::Managed => EntryView::Managed,
        }
    }
}

/// The final component of the name the launcher was invoked by.
pub open spec fn invoked_basename_of(env: EnvView) -> Option<Seq<char>> {
    match env.var("SCIE_ARGV0"@) {
        Some(EnvValueView::Text(s)) => file_name_of(s),
        _ => None,
    }
}

/// The way the environment asks the launcher to proceed.
pub open spec fn entry_of(env: EnvView) -> EntryView {
    if env.var("PANTS_BOOTSTRAP_VERSION"@) == Some(text("report"@)) {
        EntryView::ReportVersion
    } else if let Some(EnvValueView::Text(s)) = env.var("PANTS_SOURCE"@) {
        EntryView::Sources { repo: s, trigger: SourcesTrigger::OverrideVariable }
    } else if invoked_basename_of(env) == Some("pants_from_sources"@) {
        EntryView::Sources { repo: "../pants"@, trigger: SourcesTrigger::InvocationAlias }
    } else {
        EntryView::Managed
    }
}

/// The final component of the name the launcher was invoked by.
pub fn invoked_as_basename(env: &EnvView) -> (r: Option<String>)
    ensures
        crate::text::opt_view(r) == invoked_basename_of(*env),
{
    proof {
        reveal_strlit("SCIE_ARGV0");
    }
    match env.get("SCIE_ARGV0") {
        Some(EnvValue::Text(s)) => file_name(s.as_str()),
        _ => None,
    }
}

/// The way the environment asks the launcher to proceed.
pub fn select_entry(env: &EnvView) -> (r: Entry)
    ensures
        r@ == entry_of(*env),
{
    proof {
        reveal_strlit("PANTS_BOOTSTRAP_VERSION");
        reveal_strlit("PANTS_SOURCE");
        reveal_strlit("report");
        reveal_strlit("pants_from_sources");
    }
    let report = match env.get("PANTS_BOOTSTRAP_VERSION") {
        Some(EnvValue::Text(s)) => str_eq(s.as_str(), "report"),
        _ => false,
    };
    if report {
        return Entry::ReportVersion;
    }
    match env.get("PANTS_SOURCE") {
        Some(EnvValue::Text(s)) => {
            return Entry::Sources { repo: s.clone(), trigger: SourcesTrigger::OverrideVariable };
        },
        _ => {},
    }
    let alias = match invoked_as_basename(env) {
        Some(b) => str_eq(b.as_str(), "pants_from_sources"),
        None => false,
    };
    if alias {
        Entry::Sources { repo: owned("../pants"), trigger: SourcesTrigger::InvocationAlias }
    } else {
        Entry::Managed
    }
}

/// The runner script of the checkout at `repo`.
pub open spec fn runner_of(repo: Seq<char>) -> Seq<char> {
    path_join(repo, "pants"@)
}

/// The file of the checkout at `repo` that holds its version.
pub open spec fn version_file_of(repo: Seq<char>) -> Seq<char> {
    path_join(path_join(path_join(path_join(repo, "src"@), "python"@), "pants"@), "VERSION"@)
}

/// Whether the daemon runs: the legacy variable, else the tool's own, else
/// `false`.
pub open spec fn pantsd_of(env: EnvView) -> EnvValueView {
    match env.var("ENABLE_PANTSD"@) {
        Some(v) => v,
        None => match env.var("PANTS_PANTSD"@) {
            Some(v) => v,
            None => text("false"@),
        },
    }
}

/// The process that runs the checkout at `repo` at version `version`, for
/// a caller whose project root is found from `start`.
pub open spec fn sources_process_of(
    repo: Seq<char>,
    version: Seq<char>,
    env: EnvView,
    fs: Set<Seq<char>>,
    start: Seq<char>,
) -> Result<ProcessView, LaunchErrorView> {
    match find_root(fs, start) {
        None => Err(LaunchErrorView::RootNotFound { start }),
        Some(root) => Ok(
            ProcessView {
                exe: runner_of(repo),
                args: seq!["--no-verify-config"@],
                env: seq![
                    ("PANTS_VERSION"@, text(version)),
                    ("PANTS_PANTSD"@, pantsd_of(env)),
                    ("PANTS_BUILDROOT_OVERRIDE"@, text(root)),
                    ("no_proxy"@, text("*"@)),
                    ("SCIE_PANTS_VERSION"@, text(launcher_version())),
                ],
            },
        ),
    }
}

/// The runner script of the checkout at `repo`.
pub fn sources_runner(repo: &str) -> (r: String)
    ensures
        r@ == runner_of(repo@),
{
    join(repo, "pants")
}

/// The file of the checkout at `repo` that holds its version.
pub fn sources_version_file(repo: &str) -> (r: String)
    ensures
        r@ == version_file_of(repo@),
{
    let a = join(repo, "src");
    let b = join(a.as_str(), "python");
    let c = join(b.as_str(), "pants");
    join(c.as_str(), "VERSION")
}

/// The process that runs the checkout at `repo` at version `version`.
pub fn sources_process(repo: &str, version: &str, env: &EnvView, fs: &FsView, start: &str) -> (r: Result<
    Process,
    LaunchError,
>)
    ensures
        outcome(r) == sources_process_of(repo@, version@, *env, fs@, start@),
{
    proof {
        reveal_strlit("ENABLE_PANTSD");
        reveal_strlit("PANTS_PANTSD");
    }
    let root = match BuildRoot::find(start, fs) {
        Ok(root) => root,
        Err(e) => return Err(e),
    };
    let pantsd = match env.get("ENABLE_PANTSD") {
        Some(v) => v.duplicate(),
        None => match env.get("PANTS_PANTSD") {
            Some(v) => v.duplicate(),
            None => EnvValue::text("false"),
        },
    };
    let mut vars: Vec<(String, EnvValue)> = Vec::new();
    vars.push((owned("PANTS_VERSION"), EnvValue::text(version)));
    vars.push((owned("PANTS_PANTSD"), pantsd));
    vars.push((owned("PANTS_BUILDROOT_OVERRIDE"), EnvValue::Text(root.path)));
    vars.push((owned("no_proxy"), EnvValue::text("*")));
    vars.push((owned("SCIE_PANTS_VERSION"), EnvValue::text(scie_pants_version())));
    let p = Process { exe: sources_runner(repo), args: vec![owned("--no-verify-config")], env: vars };
    assert(p@.args =~= seq!["--no-verify-config"@]);
    assert(p@.env =~= seq![
        ("PANTS_VERSION"@, text(version@)),
        ("PANTS_PANTSD"@, pantsd_of(*env)),
        ("PANTS_BUILDROOT_OVERRIDE"@, text(root@)),
        ("no_proxy"@, text("*"@)),
        ("SCIE_PANTS_VERSION"@, text(launcher_version())),
    ]);
    Ok(p)
}

/// The process that runs the checkout at `repo`, asked for by `trigger`,
/// reading its version from the checkout's version file.
pub fn get_pants_from_sources_process(
    repo: &str,
    trigger: SourcesTrigger,
    env: &EnvView,
    fs: &FsView,
    start: &str,
) -> (r: Result<Process, LaunchError>)
    ensures
        !fs@.contains(runner_of(repo@)) ==> outcome(r) == Err::<ProcessView, LaunchErrorView>(
            LaunchErrorView::SourcesRunnerNotFound { runner: runner_of(repo@), trigger },
        ),
        fs@.contains(runner_of(repo@)) ==> match fs.text(version_file_of(repo@)) {
            None => outcome(r) == Err::<ProcessView, LaunchErrorView>(
                LaunchErrorView::SourcesVersionUnreadable { path: version_file_of(repo@) },
            ),
            Some(t) => outcome(r) == sources_process_of(repo@, trimmed(t), *env, fs@, start@),
        },
{
    let runner = sources_runner(repo);
    if !fs.is_file(runner.as_str()) {
        return Err(LaunchError::SourcesRunnerNotFound { runner, trigger });
    }
    let path = sources_version_file(repo);
    match fs.read_text(path.as_str()) {
        None => Err(LaunchError::SourcesVersionUnreadable { path }),
        Some(t) => {
            let version = trim(t.as_str());
            sources_process(repo, version.as_str(), env, fs, start)
        },
    }
}

} // verus!
