//! Resolution and process construction for a launcher that bootstraps a
//! versioned build tool from a repository.
//!
//! The launcher finds the project root by its marker files, reads the
//! project's configuration, applies the variables that an optional
//! bootstrap script sets, resolves the tool version and builds the
//! descriptor of the process to hand off to. All inputs are explicit: an
//! `EnvView` of the environment and an `FsView` of the files that matter.

mod build_root;
mod config;
mod environ;
mod error;
mod packaging;
mod pants_bootstrap;
mod path;
mod process;
mod resolve;
mod sources;
mod text;

pub use build_root::{BuildRoot, FsView};
pub use config::{find_pants_installation, Config, PantsConfig, Setting};
pub use environ::{EnvValue, EnvView};
pub use error::{LaunchError, SourcesTrigger};
pub use packaging::{base_name, decode_output, issue_link, path_as_str, PathError, Platform, SpecifiedPath};
pub use pants_bootstrap::PantsBootstrap;
pub use path::{file_name, join, parent};
pub use process::{get_pants_process, pants_process, scie_pants_version, Process, ScieBoot};
pub use resolve::{env_version, resolve_version};
pub use sources::{
    get_pants_from_sources_process, invoked_as_basename, select_entry, sources_process, sources_runner,
    sources_version_file, Entry,
};
pub use text::{decimal, lines, str_eq};
