//! The project's configuration file.

use vstd::prelude::*;

use crate::build_root::{BuildRoot, FsView};
use crate::error::LaunchError;
use crate::path::{join, path_join};

verus! {

/// What a configuration document holds under one key of one section.
pub enum Setting {
    /// The document is not well-formed.
    Malformed,
    /// The section or the key is absent.
    Missing,
    /// A string value.
    Text(String),
    /// A boolean value.
    Flag(bool),
    /// A value of another type, or a section that is not a table.
    Mistyped,
}

/// What a `Setting` holds.
pub enum SettingView {
    Malformed,
    Missing,
    Text(Seq<char>),
    Flag(bool),
    Mistyped,
}

impl View for Setting {
    type V = SettingView;

    open spec fn view(&self) -> SettingView {
        match self {
            Setting::Malformed => SettingView::Malformed,
            Setting::Missing => SettingView::Missing,
            Setting::Text(s) => SettingView::Text(s@),
            Setting::Flag(b) => SettingView::Flag(*b),
            Setting::Mistyped => SettingView::Mistyped,
        }
    }
}

/// The setting under `key` in the table `section` of the TOML document `doc`.
pub uninterp spec fn toml_setting(doc: Seq<char>, section: Seq<char>, key: Seq<char>) -> SettingView;

/// Relies on toml's `Table::from_str` to parse the document, and on
/// `Map::get` to look up the section and the key in it.
#[verifier::external_body]
fn read_setting(doc: &str, section: &str, key: &str) -> (r: Setting)
    ensures
        r@ == toml_setting(doc@, section@, key@),
{
    match doc.parse::<toml::Table>() {
        Err(_) => Setting::Malformed,
        Ok(table) => match table.get(section) {
            None => Setting::Missing,
            Some(toml::Value::Table(values)) => match values.get(key) {
                None => Setting::Missing,
                Some(toml::Value::String(s)) => Setting::Text(s.clone()),
                Some(toml::Value::Boolean(b)) => Setting::Flag(*b),
                Some(_) => Setting::Mistyped,
            },
            Some(_) => Setting::Mistyped,
        },
    }
}

/// The settings the launcher reads from the configuration file.
pub struct Config {
    /// `GLOBAL.pants_version`.
    pub pants_version: Option<String>,
    /// `debugpy.version`.
    pub debugpy_version: Option<String>,
    /// `DEFAULT.delegate_bootstrap`.
    pub delegate_bootstrap: Option<bool>,
}

/// What a `Config` holds.
pub struct ConfigView {
    pub pants_version: Option<Seq<char>>,
    pub debugpy_version: Option<Seq<char>>,
    pub delegate_bootstrap: Option<bool>,
}

impl View for Config {
    type V = ConfigView;

    open spec fn view(&self) -> ConfigView {
        ConfigView {
            pants_version: match self.pants_version {
                Some(s) => Some(s@),
                None => None,
            },
            debugpy_version: match self.debugpy_version {
                Some(s) => Some(s@),
                None => None,
            },
            delegate_bootstrap: self.delegate_bootstrap,
        }
    }
}

/// A string setting: absent, or a string; none for anything else.
pub open spec fn text_setting(s: SettingView) -> Option<Option<Seq<char>>> {
    match s {
        SettingView::Missing => Some(None),
        SettingView::Text(t) => Some(Some(t)),
        _ => None,
    }
}

/// A boolean setting: absent, or a boolean; none for anything else.
pub open spec fn flag_setting(s: SettingView) -> Option<Option<bool>> {
    match s {
        SettingView::Missing => Some(None),
        SettingView::Flag(b) => Some(Some(b)),
        _ => None,
    }
}

/// The configuration made of three settings; none where one is malformed
/// or of the wrong type.
pub open spec fn config_of(version: SettingView, debugpy: SettingView, delegate: SettingView) -> Option<ConfigView> {
    match (text_setting(version), text_setting(debugpy), flag_setting(delegate)) {
        (Some(v), Some(d), Some(b)) => Some(
            ConfigView { pants_version: v, debugpy_version: d, delegate_bootstrap: b },
        ),
        _ => None,
    }
}

/// The configuration that the TOML document `doc` holds.
pub open spec fn config_in(doc: Seq<char>) -> Option<ConfigView> {
    config_of(
        toml_setting(doc, "GLOBAL"@, "pants_version"@),
        toml_setting(doc, "debugpy"@, "version"@),
        toml_setting(doc, "DEFAULT"@, "delegate_bootstrap"@),
    )
}

/// The path of the configuration file of the project at `root`.
pub open spec fn config_path(root: Seq<char>) -> Seq<char> {
    path_join(root, "pants.toml"@)
}

/// Whether the text `doc` was read and holds the configuration `c`.
pub open spec fn doc_gives(doc: Option<Seq<char>>, c: ConfigView) -> bool {
    doc matches Some(d) && config_in(d) == Some(c)
}

/// Whether the text `doc` was read and holds no valid configuration.
pub open spec fn doc_malformed(doc: Option<Seq<char>>) -> bool {
    doc matches Some(d) && config_in(d) is None
}

fn text_value(s: Setting) -> (r: Option<Option<String>>)
    ensures
        match r {
            Some(Some(t)) => text_setting(s@) == Some(Some(t@)),
            Some(None) => text_setting(s@) == Some(None::<Seq<char>>),
            None => text_setting(s@) is None,
        },
{
    match s {
        Setting::Missing => Some(None),
        Setting::Text(t) => Some(Some(t)),
        _ => None,
    }
}

fn flag_value(s: Setting) -> (r: Option<Option<bool>>)
    ensures
        r == flag_setting(s@),
{
    match s {
        Setting::Missing => Some(None),
        Setting::Flag(b) => Some(Some(b)),
        _ => None,
    }
}

impl Config {
    /// The configuration made of the three settings it reads.
    pub fn from_settings(version: Setting, debugpy: Setting, delegate: Setting) -> (r: Option<Config>)
        ensures
            match r {
                Some(c) => config_of(version@, debugpy@, delegate@) == Some(c@),
                None => config_of(version@, debugpy@, delegate@) is None,
            },
    {
        let ghost (v0, d0, b0) = (version@, debugpy@, delegate@);
        match (text_value(version), text_value(debugpy), flag_value(delegate)) {
            (Some(v), Some(d), Some(b)) => {
                let c = Config { pants_version: v, debugpy_version: d, delegate_bootstrap: b };
                assert(config_of(v0, d0, b0) == Some(c@));
                Some(c)
            },
            _ => None,
        }
    }

    /// The configuration that the TOML document `doc` holds.
    pub fn from_toml(doc: &str) -> (r: Option<Config>)
        ensures
            match r {
                Some(c) => config_in(doc@) == Some(c@),
                None => config_in(doc@) is None,
            },
    {
        let version = read_setting(doc, "GLOBAL", "pants_version");
        let debugpy = read_setting(doc, "debugpy", "version");
        let delegate = read_setting(doc, "DEFAULT", "delegate_bootstrap");
        Config::from_settings(version, debugpy, delegate)
    }
}

/// A project root together with its configuration.
pub struct PantsConfig {
    pub build_root: BuildRoot,
    pub config: Config,
}

impl PantsConfig {
    /// The configured tool version.
    pub fn package_version(&self) -> (r: Option<String>)
        ensures
            r matches Some(s) ==> self.config@.pants_version == Some(s@),
            r is None ==> self.config@.pants_version is None,
    {
        match &self.config.pants_version {
            Some(s) => Some(s.clone()),
            None => None,
        }
    }

    /// The project root.
    pub fn build_root(&self) -> (r: &str)
        ensures
            r@ == self.build_root@,
    {
        self.build_root.path.as_str()
    }

    /// The configured debugger version.
    pub fn debugpy_version(&self) -> (r: Option<String>)
        ensures
            r matches Some(s) ==> self.config@.debugpy_version == Some(s@),
            r is None ==> self.config@.debugpy_version is None,
    {
        match &self.config.debugpy_version {
            Some(s) => Some(s.clone()),
            None => None,
        }
    }

    /// Whether the project delegates bootstrapping to its own runner script;
    /// false where the setting is absent.
    pub fn delegate_bootstrap(&self) -> (r: bool)
        ensures
            r == (self.config@.delegate_bootstrap == Some(true)),
    {
        match self.config.delegate_bootstrap {
            Some(b) => b,
            None => false,
        }
    }

    /// The path of the configuration file of the project at `root`.
    pub fn config_file(root: &BuildRoot) -> (r: String)
        ensures
            r@ == config_path(root@),
    {
        join(root.path.as_str(), "pants.toml")
    }

    /// The configuration of the project at `build_root`, read from its
    /// configuration file as `fs` records it.
    pub fn parse(build_root: BuildRoot, fs: &FsView) -> (r: Result<PantsConfig, LaunchError>)
        ensures
            match r {
                Ok(pc) => pc.build_root@ == build_root@ && doc_gives(
                    fs.text(config_path(build_root@)),
                    pc.config@,
                ),
                Err(LaunchError::ConfigReadError { path }) => path@ == config_path(build_root@)
                    && fs.text(config_path(build_root@)) is None,
                Err(LaunchError::ConfigParseError { path }) => path@ == config_path(build_root@)
                    && doc_malformed(fs.text(config_path(build_root@))),
                Err(_) => false,
            },
    {
        let path = PantsConfig::config_file(&build_root);
        match fs.read_text(path.as_str()) {
            None => Err(LaunchError::ConfigReadError { path }),
            Some(doc) => match Config::from_toml(doc.as_str()) {
                Some(config) => Ok(PantsConfig { build_root, config }),
                None => Err(LaunchError::ConfigParseError { path }),
            },
        }
    }
}

/// The project around `start` and its configuration; none where no root is
/// found.
pub fn find_pants_installation(start: &str, fs: &FsView) -> (r: Result<Option<PantsConfig>, LaunchError>)
    ensures
        match r {
            Ok(Some(pc)) => crate::build_root::find_root(fs@, start@) == Some(pc.build_root@)
                && doc_gives(fs.text(config_path(pc.build_root@)), pc.config@),
            Ok(None) => crate::build_root::find_root(fs@, start@) is None,
            Err(LaunchError::ConfigReadError { path }) => crate::build_root::find_root(fs@, start@)
                matches Some(root) && path@ == config_path(root) && fs.text(path@) is None,
            Err(LaunchError::ConfigParseError { path }) => crate::build_root::find_root(fs@, start@)
                matches Some(root) && path@ == config_path(root) && doc_malformed(fs.text(path@)),
            Err(_) => false,
        },
{
    match BuildRoot::find(start, fs) {
        Ok(root) => match PantsConfig::parse(root, fs) {
            Ok(pc) => Ok(Some(pc)),
            Err(e) => Err(e),
        },
        Err(_) => Ok(None),
    }
}

} // verus!
