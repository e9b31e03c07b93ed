//! Building the descriptor of the process that the launcher hands off to.

use vstd::prelude::*;
use vstd::utf8::{decode_utf8, pop_first_scalar, valid_utf8};

use crate::build_root::{bootstrap_name, FsView};
use crate::config::{config_path, ConfigView, PantsConfig};
use crate::environ::{EnvValue, EnvValueView, EnvView};
use crate::error::{LaunchError, LaunchErrorView};
use crate::path::{join, path_join};
use crate::resolve::{resolve_version, revision_var, version_choice, version_var, VersionChoice};
use crate::text::{owned, push_str, utf8_text};

verus! {

/// The launcher's own version, handed on to the tool.
pub open spec fn launcher_version() -> Seq<char> {
    "0.1.0"@
}

/// The launcher's own version, handed on to the tool.
pub fn scie_pants_version() -> (r: &'static str)
    ensures
        r@ == launcher_version(),
{
    "0.1.0"
}

/// A fully specified process: what to execute, its arguments, and the
/// variables to set in its environment, in order.
pub struct Process {
    pub exe: String,
    pub args: Vec<String>,
    pub env: Vec<(String, EnvValue)>,
}

/// What a `Process` holds.
pub struct ProcessView {
    pub exe: Seq<char>,
    pub args: Seq<Seq<char>>,
    pub env: Seq<(Seq<char>, EnvValueView)>,
}

/// The view of an environment overlay.
pub open spec fn overlay_view(v: Seq<(String, EnvValue)>) -> Seq<(Seq<char>, EnvValueView)> {
    v.map_values(|e: (String, EnvValue)| (e.0@, e.1@))
}

impl View for Process {
    type V = ProcessView;

    open spec fn view(&self) -> ProcessView {
        ProcessView {
            exe: self.exe@,
            args: self.args@.map_values(|a: String| a@),
            env: overlay_view(self.env@),
        }
    }
}

/// The view of the outcome of building a process.
pub open spec fn outcome(r: Result<Process, LaunchError>) -> Result<ProcessView, LaunchErrorView> {
    match r {
        Ok(p) => Ok(p@),
        Err(e) => Err(e@),
    }
}

/// The text value `s`.
pub open spec fn text(s: Seq<char>) -> EnvValueView {
    EnvValueView::Text(s)
}

/// How the managed runtime boots.
#[derive(PartialEq, Eq, Structural, Clone, Copy, Debug)]
pub enum ScieBoot {
    BootstrapTools,
    Pants,
    PantsDebug,
}

/// The boot mode that the environment asks for: the tools flag, if set at
/// all, wins; else a non-empty debug flag; else normal.
pub open spec fn boot_mode(env: EnvView) -> ScieBoot {
    if env.var("PANTS_BOOTSTRAP_TOOLS"@) is Some {
        ScieBoot::BootstrapTools
    } else if env.is_set("PANTS_DEBUG"@) {
        ScieBoot::PantsDebug
    } else {
        ScieBoot::Pants
    }
}

/// The marker value of a boot mode.
pub open spec fn boot_value(b: ScieBoot) -> Seq<char> {
    match b {
        ScieBoot::BootstrapTools => "bootstrap-tools"@,
        ScieBoot::Pants => "pants"@,
        ScieBoot::PantsDebug => "pants-debug"@,
    }
}

/// The bytes that bash's escaping makes of `s`.
pub uninterp spec fn bash_escaped(s: Seq<char>) -> Seq<u8>;

/// Relies on shell_quote's `bash::escape`: the bytes of `s` escaped for
/// bash. It copies only ASCII letters, digits and `,./_-` as they are and
/// writes every other byte as an ASCII escape, so the result is ASCII.
#[verifier::external_body]
fn bash_escape(s: &str) -> (r: Vec<u8>)
    ensures
        r@ == bash_escaped(s@),
        forall|i: int| 0 <= i < r@.len() ==> r@[i] < 0x80u8,
{
    shell_quote::bash::escape(s)
}

/// `s` quoted for bash, as text.
pub open spec fn quoted(s: Seq<char>) -> Seq<char> {
    decode_utf8(bash_escaped(s))
}

/// A sequence of ASCII bytes is valid UTF-8.
pub proof fn lemma_ascii_valid_utf8(bytes: Seq<u8>)
    requires
        forall|i: int| 0 <= i < bytes.len() ==> bytes[i] < 0x80u8,
    ensures
        valid_utf8(bytes),
    decreases bytes.len(),
{
    if bytes.len() > 0 {
        let rest = bytes.subrange(1, bytes.len() as int);
        assert(forall|i: int| 0 <= i < rest.len() ==> rest[i] == bytes[i + 1]);
        lemma_ascii_valid_utf8(rest);
        assert(pop_first_scalar(bytes) =~= rest);
    }
}

/// The command line that sources the quoted bootstrap script and then runs
/// the quoted runtime with the arguments given to the shell.
pub open spec fn wrap_command(script: Seq<char>, runtime: Seq<char>) -> Seq<char> {
    "set -eou pipefail; source "@ + script + "; exec "@ + runtime + " \"$0\" \"$@\""@
}

/// The process for boot mode `boot`, the runtime `scie`, the project root
/// `root` and the overlay `env`: wrapped in a shell that sources the
/// bootstrap script where the root has one and the mode is not the tools
/// mode, else the runtime itself.
pub open spec fn boot_process(
    boot: ScieBoot,
    scie: Seq<char>,
    root: Option<Seq<char>>,
    env: Seq<(Seq<char>, EnvValueView)>,
    fs: Set<Seq<char>>,
) -> ProcessView {
    match root {
        Some(r) if boot != ScieBoot::BootstrapTools && fs.contains(path_join(r, bootstrap_name())) => {
            ProcessView {
                exe: "/usr/bin/env"@,
                args: seq!["bash"@, "-c"@, wrap_command(quoted(path_join(r, bootstrap_name())), quoted(scie))],
                env,
            }
        },
        _ => ProcessView { exe: scie, args: seq![], env },
    }
}

impl ScieBoot {
    /// The boot mode that `env` asks for.
    pub fn select(env: &EnvView) -> (r: ScieBoot)
        ensures
            r == boot_mode(*env),
    {
        proof {
            reveal_strlit("PANTS_BOOTSTRAP_TOOLS");
            reveal_strlit("PANTS_DEBUG");
        }
        if env.get("PANTS_BOOTSTRAP_TOOLS").is_some() {
            ScieBoot::BootstrapTools
        } else {
            match env.get("PANTS_DEBUG") {
                Some(v) => if v.is_empty() {
                    ScieBoot::Pants
                } else {
                    ScieBoot::PantsDebug
                },
                None => ScieBoot::Pants,
            }
        }
    }

    /// The marker value of this boot mode.
    pub fn env_value(&self) -> (r: &'static str)
        ensures
            r@ == boot_value(*self),
    {
        match self {
            ScieBoot::BootstrapTools => "bootstrap-tools",
            ScieBoot::Pants => "pants",
            ScieBoot::PantsDebug => "pants-debug",
        }
    }

    /// `value` quoted for bash; the quoted bytes are always text.
    pub fn quote(value: &str) -> (r: Result<String, LaunchError>)
        ensures
            r matches Ok(q) && q@ == quoted(value@),
    {
        let escaped = bash_escape(value);
        proof {
            lemma_ascii_valid_utf8(escaped@);
        }
        match utf8_text(escaped) {
            Ok(q) => Ok(q),
            Err(_) => Err(LaunchError::ShellQuotingFailure { value: owned(value) }),
        }
    }

    /// The process that runs the runtime `scie` in this boot mode.
    pub fn into_process(
        self,
        scie: String,
        build_root: Option<String>,
        env: Vec<(String, EnvValue)>,
        fs: &FsView,
    ) -> (r: Result<Process, LaunchError>)
        ensures
            r matches Ok(p) && p@ == boot_process(self, scie@, crate::text::opt_view(build_root), overlay_view(env@), fs@),
    {
        match build_root {
            Some(root) => {
                let script = join(root.as_str(), ".pants.bootstrap");
                if self != ScieBoot::BootstrapTools && fs.is_file(script.as_str()) {
                    let qs = match ScieBoot::quote(script.as_str()) {
                        Ok(q) => q,
                        Err(e) => return Err(e),
                    };
                    let qr = match ScieBoot::quote(scie.as_str()) {
                        Ok(q) => q,
                        Err(e) => return Err(e),
                    };
                    let mut cmd = owned("set -eou pipefail; source ");
                    push_str(&mut cmd, qs.as_str());
                    push_str(&mut cmd, "; exec ");
                    push_str(&mut cmd, qr.as_str());
                    push_str(&mut cmd, " \"$0\" \"$@\"");
                    let args = vec![owned("bash"), owned("-c"), cmd];
                    let p = Process { exe: owned("/usr/bin/env"), args, env };
                    assert(p@.args =~= seq!["bash"@, "-c"@, wrap_command(qs@, qr@)]);
                    return Ok(p);
                }
                let p = Process { exe: scie, args: Vec::new(), env };
                assert(p@.args =~= Seq::<Seq<char>>::empty());
                Ok(p)
            },
            None => {
                let p = Process { exe: scie, args: Vec::new(), env };
                assert(p@.args =~= Seq::<Seq<char>>::empty());
                Ok(p)
            },
        }
    }
}

/// The project root and configuration of an installation.
pub open spec fn installation_view(i: Option<PantsConfig>) -> Option<(Seq<char>, ConfigView)> {
    match i {
        Some(pc) => Some((pc.build_root@, pc.config@)),
        None => None,
    }
}

/// The version configured for an installation.
pub open spec fn configured_of(inst: Option<(Seq<char>, ConfigView)>) -> Option<Seq<char>> {
    match inst {
        Some(i) => i.1.pants_version,
        None => None,
    }
}

/// The name the tool reports itself by: the explicit override, else the
/// name the launcher was invoked by, else the runtime's path.
pub open spec fn bin_name_of(env: EnvView, scie: Seq<char>) -> EnvValueView {
    match env.var("PANTS_BIN_NAME"@) {
        Some(v) => v,
        None => match env.var("SCIE_ARGV0"@) {
            Some(v) => v,
            None => text(scie),
        },
    }
}

/// The environment overlay of a managed-runtime process.
pub open spec fn overlay_of(
    boot: ScieBoot,
    bin_name: EnvValueView,
    debug: bool,
    debugpy: Option<Seq<char>>,
    root: Option<Seq<char>>,
    configured: Option<Seq<char>>,
    version: Option<Seq<char>>,
    delegate: bool,
    salt: Seq<char>,
) -> Seq<(Seq<char>, EnvValueView)> {
    let base = seq![
        ("SCIE_BOOT"@, text(boot_value(boot))),
        ("PANTS_BIN_NAME"@, bin_name),
        ("PANTS_DEBUG"@, text(if debug { "1"@ } else { ""@ })),
        ("SCIE_PANTS_VERSION"@, text(launcher_version())),
    ];
    let with_debugpy = match debugpy {
        Some(d) => base.push(("PANTS_DEBUGPY_VERSION"@, text(d))),
        None => base,
    };
    let with_root = match root {
        Some(r) => {
            with_debugpy.push(("PANTS_BUILDROOT_OVERRIDE"@, text(r))).push(("PANTS_TOML"@, text(config_path(r))))
        },
        None => with_debugpy,
    };
    match version {
        Some(v) => {
            let o = if delegate {
                with_root.push(("_PANTS_VERSION_OVERRIDE"@, text(v)))
            } else {
                with_root
            };
            o.push(("PANTS_VERSION"@, text(v)))
        },
        None => with_root.push(("PANTS_VERSION_PROMPT_SALT"@, text(salt))),
    }
}

/// The process for the installation `inst` in the environment `env`, with
/// `salt` as the cache-busting token where no version is resolved.
pub open spec fn pants_process_of(
    inst: Option<(Seq<char>, ConfigView)>,
    env: EnvView,
    fs: Set<Seq<char>>,
    salt: Seq<char>,
) -> Result<ProcessView, LaunchErrorView> {
    let root = match inst {
        Some(i) => Some(i.0),
        None => None,
    };
    let configured = match inst {
        Some(i) => i.1.pants_version,
        None => None,
    };
    let debugpy = match inst {
        Some(i) => i.1.debugpy_version,
        None => None,
    };
    let delegate = inst matches Some(i) && i.1.delegate_bootstrap == Some(true);
    match version_choice(env, configured) {
        VersionChoice::Conflict => Err(LaunchErrorView::ConflictingVersionSelectors),
        VersionChoice::NotText(n) => Err(LaunchErrorView::NonUtf8EnvironmentValue { name: n }),
        VersionChoice::Version(version) => if delegate && version is None {
            match root {
                Some(r) => Ok(ProcessView { exe: path_join(r, "pants"@), args: seq![], env: seq![] }),
                None => Err(LaunchErrorView::BuildRootRequiredForDelegation),
            }
        } else {
            match env.var("SCIE"@) {
                Some(EnvValueView::Text(scie)) => {
                    let boot = boot_mode(env);
                    let overlay = overlay_of(
                        boot,
                        bin_name_of(env, scie),
                        env.is_set("PANTS_DEBUG"@),
                        debugpy,
                        root,
                        configured,
                        version,
                        delegate,
                        salt,
                    );
                    Ok(boot_process(boot, scie, root, overlay, fs))
                },
                _ => Err(LaunchErrorView::RuntimeLocationMissing),
            }
        },
    }
}

fn push_var(out: &mut Vec<(String, EnvValue)>, name: &str, value: EnvValue)
    ensures
        overlay_view(final(out)@) == overlay_view(old(out)@).push((name@, value@)),
{
    let ghost v = value@;
    out.push((owned(name), value));
    assert(overlay_view(final(out)@) =~= overlay_view(old(out)@).push((name@, v)));
}

/// The process for `installation` in the environment `env`, with `salt`
/// as the cache-busting token where no version is resolved.
pub fn pants_process(
    installation: &Option<PantsConfig>,
    env: &EnvView,
    fs: &FsView,
    salt: &str,
) -> (r: Result<Process, LaunchError>)
    ensures
        outcome(r) == pants_process_of(installation_view(*installation), *env, fs@, salt@),
{
    proof {
        reveal_strlit("SCIE");
        reveal_strlit("PANTS_BIN_NAME");
        reveal_strlit("SCIE_ARGV0");
        reveal_strlit("PANTS_DEBUG");
    }
    let (build_root, configured, debugpy, delegate) = match installation {
        Some(pc) => (Some(owned(pc.build_root())), pc.package_version(), pc.debugpy_version(), pc.delegate_bootstrap()),
        None => (None, None, None, false),
    };
    let ghost configured_view = crate::text::opt_view(configured);
    let version = match resolve_version(env, configured) {
        Ok(v) => v,
        Err(e) => return Err(e),
    };
    if delegate && version.is_none() {
        return match build_root {
            Some(root) => {
                let p = Process { exe: join(root.as_str(), "pants"), args: Vec::new(), env: Vec::new() };
                assert(p@.args =~= Seq::<Seq<char>>::empty());
                assert(p@.env =~= Seq::<(Seq<char>, EnvValueView)>::empty());
                Ok(p)
            },
            None => Err(LaunchError::BuildRootRequiredForDelegation),
        };
    }
    let scie = match env.get("SCIE") {
        Some(EnvValue::Text(s)) => s.clone(),
        _ => return Err(LaunchError::RuntimeLocationMissing),
    };
    let boot = ScieBoot::select(env);
    let debug = match env.get("PANTS_DEBUG") {
        Some(v) => !v.is_empty(),
        None => false,
    };
    let bin_name = match env.get("PANTS_BIN_NAME") {
        Some(v) => v.duplicate(),
        None => match env.get("SCIE_ARGV0") {
            Some(v) => v.duplicate(),
            None => EnvValue::text(scie.as_str()),
        },
    };
    let mut out: Vec<(String, EnvValue)> = Vec::new();
    push_var(&mut out, "SCIE_BOOT", EnvValue::text(boot.env_value()));
    push_var(&mut out, "PANTS_BIN_NAME", bin_name);
    push_var(&mut out, "PANTS_DEBUG", EnvValue::text(if debug { "1" } else { "" }));
    push_var(&mut out, "SCIE_PANTS_VERSION", EnvValue::text(scie_pants_version()));
    assert(overlay_view(out@) =~= seq![
        ("SCIE_BOOT"@, text(boot_value(boot))),
        ("PANTS_BIN_NAME"@, bin_name_of(*env, scie@)),
        ("PANTS_DEBUG"@, text(if debug { "1"@ } else { ""@ })),
        ("SCIE_PANTS_VERSION"@, text(launcher_version())),
    ]);
    match &debugpy {
        Some(d) => push_var(&mut out, "PANTS_DEBUGPY_VERSION", EnvValue::text(d.as_str())),
        None => {},
    }
    match &build_root {
        Some(root) => {
            push_var(&mut out, "PANTS_BUILDROOT_OVERRIDE", EnvValue::text(root.as_str()));
            let toml = join(root.as_str(), "pants.toml");
            push_var(&mut out, "PANTS_TOML", EnvValue::Text(toml));
        },
        None => {},
    }
    match &version {
        Some(v) => {
            if delegate {
                push_var(&mut out, "_PANTS_VERSION_OVERRIDE", EnvValue::text(v.as_str()));
            }
            push_var(&mut out, "PANTS_VERSION", EnvValue::text(v.as_str()));
        },
        None => push_var(&mut out, "PANTS_VERSION_PROMPT_SALT", EnvValue::text(salt)),
    }
    boot.into_process(scie, build_root, out, fs)
}

/// Whether `s` is 32 lowercase hexadecimal digits.
pub open spec fn is_token(s: Seq<char>) -> bool {
    &&& s.len() == 32
    &&& forall|i: int| 0 <= i < s.len() ==> ('0' <= #[trigger] s[i] <= '9' || 'a' <= s[i] <= 'f')
}

/// Relies on uuid's `Uuid::new_v4` for a random identifier, written in its
/// `simple` form (`Display` of `Simple`): 32 lowercase hexadecimal digits.
#[verifier::external_body]
fn random_token() -> (r: String)
    ensures
        is_token(r@),
{
    uuid::Uuid::new_v4().simple().to_string()
}

/// The process for `installation` in the environment `env`; where no
/// version is resolved, a fresh random token busts the installation cache.
pub fn get_pants_process(installation: &Option<PantsConfig>, env: &EnvView, fs: &FsView) -> (r: Result<
    Process,
    LaunchError,
>)
    ensures
        exists|salt: Seq<char>|
            (version_choice(*env, configured_of(installation_view(*installation))) == VersionChoice::Version(
                None::<Seq<char>>,
            ) ==> is_token(salt)) && outcome(r) == #[trigger] pants_process_of(
                installation_view(*installation),
                *env,
                fs@,
                salt,
            ),
{
    let configured = match installation {
        Some(pc) => pc.package_version(),
        None => None,
    };
    let salt = match resolve_version(env, configured) {
        Ok(None) => random_token(),
        _ => owned(""),
    };
    let r = pants_process(installation, env, fs, salt.as_str());
    assert(outcome(r) == pants_process_of(installation_view(*installation), *env, fs@, salt@));
    r
}

/// The overlay ends with the resolved version, preceded by the priority
/// signal where delegation is configured.
proof fn lemma_overlay_version_tail(
    boot: ScieBoot,
    bin_name: EnvValueView,
    debug: bool,
    debugpy: Option<Seq<char>>,
    root: Option<Seq<char>>,
    configured: Option<Seq<char>>,
    v: Seq<char>,
    delegate: bool,
    salt: Seq<char>,
)
    ensures
        ({
            let o = overlay_of(boot, bin_name, debug, debugpy, root, configured, Some(v), delegate, salt);
            &&& o.len() >= 5
            &&& o[o.len() - 1] == ("PANTS_VERSION"@, text(v))
            &&& delegate ==> o[o.len() - 2] == ("_PANTS_VERSION_OVERRIDE"@, text(v))
            &&& o.contains(("PANTS_VERSION"@, text(v)))
            &&& delegate ==> o.contains(("_PANTS_VERSION_OVERRIDE"@, text(v)))
        }),
{
    let o = overlay_of(boot, bin_name, debug, debugpy, root, configured, Some(v), delegate, salt);
    assert(o[o.len() - 1] == ("PANTS_VERSION"@, text(v)));
    if delegate {
        assert(o[o.len() - 2] == ("_PANTS_VERSION_OVERRIDE"@, text(v)));
    }
}

/// The version handed to the runtime is the configured one when no
/// override is set, the override when it alone is set; both overrides set
/// is a conflict; an empty override counts as unset.
pub proof fn law_version_reaches_process(
    root: Seq<char>,
    cfg: ConfigView,
    env: EnvView,
    fs: Set<Seq<char>>,
    salt: Seq<char>,
    scie: Seq<char>,
    v: Seq<char>,
    w: Seq<char>,
)
    requires
        env.var("SCIE"@) == Some(text(scie)),
    ensures
        cfg.pants_version == Some(v) && !env.is_set(version_var()) && !env.is_set(revision_var()) ==> (
        pants_process_of(Some((root, cfg)), env, fs, salt) matches Ok(p) && p.env.last() == (
            "PANTS_VERSION"@,
            text(v),
        )),
        env.var(version_var()) == Some(text(v)) && v.len() > 0 && !env.is_set(revision_var()) ==> (
        pants_process_of(Some((root, cfg)), env, fs, salt) matches Ok(p) && p.env.last() == (
            "PANTS_VERSION"@,
            text(v),
        )),
        env.var(version_var()) == Some(text(v)) && v.len() > 0 && env.var(revision_var()) == Some(text(w))
            && w.len() > 0 ==> pants_process_of(
            Some((root, cfg)),
            env,
            fs,
            salt,
        ) == Err::<ProcessView, LaunchErrorView>(LaunchErrorView::ConflictingVersionSelectors),
{
    let delegate = cfg.delegate_bootstrap == Some(true);
    let boot = boot_mode(env);
    match version_choice(env, cfg.pants_version) {
        VersionChoice::Version(Some(w)) => {
            lemma_overlay_version_tail(
                boot,
                bin_name_of(env, scie),
                env.is_set("PANTS_DEBUG"@),
                cfg.debugpy_version,
                Some(root),
                cfg.pants_version,
                w,
                delegate,
                salt,
            );
        },
        _ => {},
    }
}

/// Whether the process runs the runtime with version `v`, signalled to take
/// priority over a runner script's own.
pub open spec fn signals_priority(p: ProcessView, v: Seq<char>) -> bool {
    &&& p.env.contains(("_PANTS_VERSION_OVERRIDE"@, text(v)))
    &&& p.env.contains(("PANTS_VERSION"@, text(v)))
}

/// The shell process that sources the quoted script `script` and then runs
/// the quoted runtime `scie`.
pub open spec fn wrapped(script: Seq<char>, scie: Seq<char>, env: Seq<(Seq<char>, EnvValueView)>) -> ProcessView {
    ProcessView {
        exe: "/usr/bin/env"@,
        args: seq![
            "bash"@,
            "-c"@,
            "set -eou pipefail; source "@ + quoted(script) + "; exec "@ + quoted(scie) + " \"$0\" \"$@\""@,
        ],
        env,
    }
}

/// With delegation configured and no version resolved, the process is the
/// project's own runner script, with no argument and no variable; with a
/// version resolved, the runtime gets the version and the signal that it
/// takes priority over the runner script's own.
pub proof fn law_delegate_short_circuit(
    root: Seq<char>,
    cfg: ConfigView,
    env: EnvView,
    fs: Set<Seq<char>>,
    salt: Seq<char>,
    scie: Seq<char>,
    v: Seq<char>,
)
    requires
        cfg.delegate_bootstrap == Some(true),
    ensures
        version_choice(env, cfg.pants_version) == VersionChoice::Version(None::<Seq<char>>) ==> pants_process_of(
            Some((root, cfg)),
            env,
            fs,
            salt,
        ) == Ok::<ProcessView, LaunchErrorView>(
            ProcessView { exe: path_join(root, "pants"@), args: seq![], env: seq![] },
        ),
        version_choice(env, cfg.pants_version) == VersionChoice::Version(Some(v)) && env.var("SCIE"@) == Some(
            text(scie),
        ) ==> (pants_process_of(Some((root, cfg)), env, fs, salt) matches Ok(p) && signals_priority(p, v)),
{
    lemma_overlay_version_tail(
        boot_mode(env),
        bin_name_of(env, scie),
        env.is_set("PANTS_DEBUG"@),
        cfg.debugpy_version,
        Some(root),
        cfg.pants_version,
        v,
        true,
        salt,
    );
}

/// With a bootstrap script at the root and a mode other than the tools
/// mode, the process is a shell that sources the quoted script and then
/// runs the quoted runtime; in the tools mode the runtime runs directly.
pub proof fn law_shell_wrapping(
    boot: ScieBoot,
    scie: Seq<char>,
    root: Seq<char>,
    env: Seq<(Seq<char>, EnvValueView)>,
    fs: Set<Seq<char>>,
)
    requires
        fs.contains(path_join(root, bootstrap_name())),
    ensures
        boot != ScieBoot::BootstrapTools ==> boot_process(boot, scie, Some(root), env, fs) == wrapped(
            path_join(root, bootstrap_name()),
            scie,
            env,
        ),
        boot_process(ScieBoot::BootstrapTools, scie, Some(root), env, fs) == (ProcessView {
            exe: scie,
            args: seq![],
            env,
        }),
{
    assert(wrap_command(quoted(path_join(root, bootstrap_name())), quoted(scie)) =~= "set -eou pipefail; source "@
        + quoted(path_join(root, bootstrap_name())) + "; exec "@ + quoted(scie) + " \"$0\" \"$@\""@);
}

} // verus!
