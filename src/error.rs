//! The ways in which resolving a launch can fail.

use vstd::prelude::*;

verus! {

/// How the run-from-sources mode was asked for.
#[derive(PartialEq, Eq, Structural, Clone, Copy, Debug)]
pub enum SourcesTrigger {
    /// The source checkout was named by an environment variable.
    OverrideVariable,
    /// The launcher was invoked under the run-from-sources alias.
    InvocationAlias,
}

/// An error that ends the current invocation.
#[derive(Debug)]
pub enum LaunchError {
    /// No marker file in the start directory or any of its ancestors.
    RootNotFound { start: String },
    /// The configuration file could not be read.
    ConfigReadError { path: String },
    /// The configuration file is malformed or holds a value of the wrong type.
    ConfigParseError { path: String },
    /// Sourcing the bootstrap script failed; `output` is what it printed.
    BootstrapScriptFailure { script: String, code: Option<i32>, output: String },
    /// The shell's dump of its variables is not valid UTF-8.
    BootstrapOutputNotUtf8 { script: String },
    /// An override variable's value is not valid UTF-8.
    NonUtf8EnvironmentValue { name: String },
    /// Both the version override and the revision override are set.
    ConflictingVersionSelectors,
    /// The variable that locates the managed runtime is unset or not UTF-8.
    RuntimeLocationMissing,
    /// Delegation is configured but no project root was found.
    BuildRootRequiredForDelegation,
    /// The source checkout has no runner script.
    SourcesRunnerNotFound { runner: String, trigger: SourcesTrigger },
    /// The version file of the source checkout could not be read.
    SourcesVersionUnreadable { path: String },
    /// A shell-quoted value is not valid UTF-8.
    ShellQuotingFailure { value: String },
}

/// What a `LaunchError` holds.
pub enum LaunchErrorView {
    RootNotFound { start: Seq<char> },
    ConfigReadError { path: Seq<char> },
    ConfigParseError { path: Seq<char> },
    BootstrapScriptFailure { script: Seq<char>, code: Option<i32>, output: Seq<char> },
    BootstrapOutputNotUtf8 { script: Seq<char> },
    NonUtf8EnvironmentValue { name: Seq<char> },
    ConflictingVersionSelectors,
    RuntimeLocationMissing,
    BuildRootRequiredForDelegation,
    SourcesRunnerNotFound { runner: Seq<char>, trigger: SourcesTrigger },
    SourcesVersionUnreadable { path: Seq<char> },
    ShellQuotingFailure { value: Seq<char> },
}

impl View for LaunchError {
    type V = LaunchErrorView;

    open spec fn view(&self) -> LaunchErrorView {
        match self {
            LaunchError::RootNotFound { start } => LaunchErrorView::RootNotFound { start: start@ },
            LaunchError::ConfigReadError { path } => LaunchErrorView::ConfigReadError { path: path@ },
            LaunchError::ConfigParseError { path } => LaunchErrorView::ConfigParseError { path: path@ },
            LaunchError::BootstrapScriptFailure { script, code, output } => LaunchErrorView::BootstrapScriptFailure {
                script: script@,
                code: *code,
                output: output@,
            },
            LaunchError::BootstrapOutputNotUtf8 { script } => LaunchErrorView::BootstrapOutputNotUtf8 { script: script@ },
            LaunchError::NonUtf8EnvironmentValue { name } => LaunchErrorView::NonUtf8EnvironmentValue { name: name@ },
            LaunchError::ConflictingVersionSelectors => LaunchErrorView::ConflictingVersionSelectors,
            LaunchError::RuntimeLocationMissing => LaunchErrorView::RuntimeLocationMissing,
            LaunchError::BuildRootRequiredForDelegation => LaunchErrorView::BuildRootRequiredForDelegation,
            LaunchError::SourcesRunnerNotFound { runner, trigger } => LaunchErrorView::SourcesRunnerNotFound {
                runner: runner@,
                trigger: *trigger,
            },
            LaunchError::SourcesVersionUnreadable { path } => LaunchErrorView::SourcesVersionUnreadable { path: path@ },
            LaunchError::ShellQuotingFailure { value } => LaunchErrorView::ShellQuotingFailure { value: value@ },
        }
    }
}

} // verus!
