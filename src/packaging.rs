//! Small helpers of the tooling that packages and tests the launcher.

use vstd::prelude::*;
use vstd::utf8::{decode_utf8, valid_utf8};

use crate::path::{file_name, file_name_of};
use crate::text::{decimal, decimal_of, owned, push_str, utf8_text};

verus! {

/// A path named on the packaging tool's command line.
pub struct SpecifiedPath {
    pub path: String,
}

impl SpecifiedPath {
    /// The path written `path`.
    pub fn new(path: &str) -> (r: SpecifiedPath)
        ensures
            r.path@ == path@,
    {
        SpecifiedPath { path: owned(path) }
    }
}

/// The platforms the launcher is packaged for.
#[derive(PartialEq, Eq, Structural, Clone, Copy, Debug)]
pub enum Platform {
    LinuxAarch64,
    LinuxX86_64,
    MacOSAarch64,
    MacOSX86_64,
    WindowsX86_64,
}

/// The name of a platform in artifact names.
pub open spec fn platform_name(p: Platform) -> Seq<char> {
    match p {
        Platform::LinuxAarch64 => "linux-aarch64"@,
        Platform::LinuxX86_64 => "linux-x86_64"@,
        Platform::MacOSAarch64 => "macos-aarch64"@,
        Platform::MacOSX86_64 => "macos-x86_64"@,
        Platform::WindowsX86_64 => "windows-x86_64"@,
    }
}

impl Platform {
    /// The name of this platform in artifact names.
    pub fn to_str(&self) -> (r: &'static str)
        ensures
            r@ == platform_name(*self),
    {
        match self {
            Platform::LinuxAarch64 => "linux-aarch64",
            Platform::LinuxX86_64 => "linux-x86_64",
            Platform::MacOSAarch64 => "macos-aarch64",
            Platform::MacOSX86_64 => "macos-x86_64",
            Platform::WindowsX86_64 => "windows-x86_64",
        }
    }
}

/// The web address of issue `issue` of the repository `repo`.
pub open spec fn issue_link_of(issue: nat, repo: Seq<char>) -> Seq<char> {
    "https://github.com/"@ + repo + "/issues/"@ + decimal_of(issue)
}

/// The web address of issue `issue` of the repository `repo`.
pub fn issue_link(issue: usize, repo: &str) -> (r: String)
    ensures
        r@ == issue_link_of(issue as nat, repo@),
{
    let mut r = owned("https://github.com/");
    push_str(&mut r, repo);
    push_str(&mut r, "/issues/");
    let n = decimal(issue);
    push_str(&mut r, n.as_str());
    r
}

/// The text of a process's output, where it is valid UTF-8.
pub fn decode_output(output: Vec<u8>) -> (r: Option<String>)
    ensures
        r is Some <==> valid_utf8(output@),
        r matches Some(s) ==> s@ == decode_utf8(output@),
{
    match utf8_text(output) {
        Ok(s) => Some(s),
        Err(_) => None,
    }
}

/// Why a path could not be used as text.
#[derive(Debug)]
pub enum PathError {
    /// The path, given as bytes, is not valid UTF-8.
    NotUtf8 { path: Vec<u8> },
    /// The path has no final component.
    NoBaseName { path: String },
}

/// The text of a path given as bytes, where it is valid UTF-8.
pub fn path_as_str(path: Vec<u8>) -> (r: Result<String, PathError>)
    ensures
        r is Ok <==> valid_utf8(path@),
        r matches Ok(s) ==> s@ == decode_utf8(path@),
        r matches Err(PathError::NotUtf8 { path: p }) ==> p@ == path@,
        !(r matches Err(PathError::NoBaseName { .. })),
{
    match utf8_text(path) {
        Ok(s) => Ok(s),
        Err(bytes) => Err(PathError::NotUtf8 { path: bytes }),
    }
}

/// The final component of `path`.
pub fn base_name(path: &str) -> (r: Result<String, PathError>)
    ensures
        r matches Ok(n) ==> file_name_of(path@) == Some(n@),
        r is Err ==> file_name_of(path@) is None,
        r matches Err(e) ==> (e matches PathError::NoBaseName { path: p } && p@ == path@),
{
    match file_name(path) {
        Some(n) => Ok(n),
        None => Err(PathError::NoBaseName { path: owned(path) }),
    }
}

} // verus!
