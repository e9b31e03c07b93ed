//! Resolving the effective tool version from overrides and configuration.

use vstd::prelude::*;

use crate::environ::{EnvValue, EnvValueView, EnvView};
use crate::error::LaunchError;
use crate::text::{opt_view, owned};

verus! {

/// The variable that overrides the version.
pub open spec fn version_var() -> Seq<char> {
    "PANTS_VERSION"@
}

/// The variable that asks for a build of a source revision instead of a
/// version.
pub open spec fn revision_var() -> Seq<char> {
    "PANTS_SHA"@
}

/// What an override variable asks for: nothing (unset or empty), a
/// version, or a value that is not text.
pub enum OverrideView {
    Unset,
    Value(Seq<char>),
    NotText,
}

/// What the value `v` of an override variable asks for.
pub open spec fn override_of(v: Option<EnvValueView>) -> OverrideView {
    match v {
        None => OverrideView::Unset,
        Some(x) => if x.is_empty() {
            OverrideView::Unset
        } else {
            match x {
                EnvValueView::Text(s) => OverrideView::Value(s),
                EnvValueView::NonUtf8(_) => OverrideView::NotText,
            }
        },
    }
}

/// The outcome of resolving the version.
pub enum VersionChoice {
    /// The effective version, if any.
    Version(Option<Seq<char>>),
    /// Both overrides are set.
    Conflict,
    /// The override variable with this name is not text.
    NotText(Seq<char>),
}

/// The effective version for the override values `version` and
/// `revision` and the configured version `configured`.
pub open spec fn choose_version(
    version: Option<EnvValueView>,
    revision: Option<EnvValueView>,
    configured: Option<Seq<char>>,
) -> VersionChoice {
    match (override_of(version), override_of(revision)) {
        (OverrideView::NotText, _) => VersionChoice::NotText(version_var()),
        (_, OverrideView::NotText) => VersionChoice::NotText(revision_var()),
        (OverrideView::Value(_), OverrideView::Value(_)) => VersionChoice::Conflict,
        (OverrideView::Value(v), OverrideView::Unset) => VersionChoice::Version(Some(v)),
        (OverrideView::Unset, OverrideView::Value(_)) => VersionChoice::Version(None),
        (OverrideView::Unset, OverrideView::Unset) => VersionChoice::Version(configured),
    }
}

/// The effective version in the environment `env` with the configured
/// version `configured`.
pub open spec fn version_choice(env: EnvView, configured: Option<Seq<char>>) -> VersionChoice {
    choose_version(env.var(version_var()), env.var(revision_var()), configured)
}

/// The configured version wins when no override is set; a version override
/// wins over it; two overrides conflict; an override set to the empty
/// string counts as unset.
pub proof fn law_version_precedence(
    revision: Option<EnvValueView>,
    configured: Option<Seq<char>>,
    v: Seq<char>,
    w: Seq<char>,
)
    ensures
        choose_version(None, None, configured) == VersionChoice::Version(configured),
        v.len() > 0 ==> choose_version(Some(EnvValueView::Text(v)), None, configured)
            == VersionChoice::Version(Some(v)),
        v.len() > 0 && w.len() > 0 ==> choose_version(
            Some(EnvValueView::Text(v)),
            Some(EnvValueView::Text(w)),
            configured,
        ) == VersionChoice::Conflict,
        choose_version(Some(EnvValueView::Text(Seq::empty())), revision, configured)
            == choose_version(None, revision, configured),
        choose_version(revision, Some(EnvValueView::Text(Seq::empty())), configured)
            == choose_version(revision, None, configured),
{
}

/// The value of the override variable `name`: none where it is unset or
/// empty.
pub fn env_version(env: &EnvView, name: &str) -> (r: Result<Option<String>, LaunchError>)
    ensures
        match r {
            Ok(Some(s)) => override_of(env.var(name@)) == OverrideView::Value(s@),
            Ok(None) => override_of(env.var(name@)) == OverrideView::Unset,
            Err(LaunchError::NonUtf8EnvironmentValue { name: n }) => n@ == name@ && override_of(
                env.var(name@),
            ) == OverrideView::NotText,
            Err(_) => false,
        },
{
    match env.get(name) {
        None => Ok(None),
        Some(v) => {
            if v.is_empty() {
                Ok(None)
            } else {
                match v {
                    EnvValue::Text(s) => Ok(Some(s.clone())),
                    EnvValue::NonUtf8(_) => Err(LaunchError::NonUtf8EnvironmentValue { name: owned(name) }),
                }
            }
        },
    }
}

/// The effective version: the version override, else none where the
/// revision override is set, else the configured version.
pub fn resolve_version(env: &EnvView, configured: Option<String>) -> (r: Result<Option<String>, LaunchError>)
    ensures
        match r {
            Ok(Some(s)) => version_choice(*env, opt_view(configured)) == VersionChoice::Version(Some(s@)),
            Ok(None) => version_choice(*env, opt_view(configured)) == VersionChoice::Version(None::<Seq<char>>),
            Err(LaunchError::ConflictingVersionSelectors) => version_choice(*env, opt_view(configured))
                == VersionChoice::Conflict,
            Err(LaunchError::NonUtf8EnvironmentValue { name }) => version_choice(*env, opt_view(configured))
                == VersionChoice::NotText(name@),
            Err(_) => false,
        },
{
    proof {
        reveal_strlit("PANTS_VERSION");
        reveal_strlit("PANTS_SHA");
    }
    let version = env_version(env, "PANTS_VERSION");
    let version = match version {
        Ok(v) => v,
        Err(e) => return Err(e),
    };
    let revision = env_version(env, "PANTS_SHA");
    let revision = match revision {
        Ok(v) => v,
        Err(e) => return Err(e),
    };
    match (version, revision) {
        (Some(_), Some(_)) => Err(LaunchError::ConflictingVersionSelectors),
        (Some(v), None) => Ok(Some(v)),
        (None, Some(_)) => Ok(None),
        (None, None) => Ok(configured),
    }
}

} // verus!
