//! Commands that the host runs for the plugin.

use crate::text::{option_view, strings_view};
use vstd::prelude::*;

verus! {

/// A command for the host to run.
#[derive(Debug, PartialEq, Eq)]
pub struct ExecCommandInput {
    /// The arguments of the command.
    pub args: Vec<String>,
    /// The command.
    pub command: String,
    /// Whether the output goes to the streams of the caller as it comes,
    /// where it would otherwise be captured.
    pub stream: bool,
}

/// A command, as sequences of characters.
pub struct ExecCommandView {
    pub args: Seq<Seq<char>>,
    pub command: Seq<char>,
    pub stream: bool,
}

impl View for ExecCommandInput {
    type V = ExecCommandView;

    open spec fn view(&self) -> ExecCommandView {
        ExecCommandView {
            args: strings_view(self.args@),
            command: self.command@,
            stream: self.stream,
        }
    }
}

/// The command that runs the package installer on `package`, with its
/// output on the streams of the caller. `action` says what to do and `flag`
/// how; the package comes last, as one argument, as it was given.
pub open spec fn pip_command(action: Seq<char>, flag: Seq<char>, package: Seq<char>)
    -> ExecCommandView {
    ExecCommandView { args: seq![action, flag, package], command: "pip"@, stream: true }
}

/// The command that runs the package installer on `package`.
pub fn pip(action: &str, flag: &str, package: &str) -> (command: ExecCommandInput)
    ensures
        command@ == pip_command(action@, flag@, package@),
{
    let mut args: Vec<String> = Vec::new();
    args.push(action.to_owned());
    args.push(flag.to_owned());
    args.push(package.to_owned());
    let command = ExecCommandInput { args, command: String::from_str("pip"), stream: true };
    assert(command@.args =~= seq![action@, flag@, package@]);
    command
}

/// What the host reports of a command that it ran.
#[derive(Debug, PartialEq, Eq)]
pub struct ExecCommandOutput {
    /// The command that ran.
    pub command: String,
    /// The status that the process ended with.
    pub exit_code: i32,
    /// What the process wrote to its error stream.
    pub stderr: String,
    /// What the process wrote to its output stream.
    pub stdout: String,
}

/// The failure that a finished process reports: none where it ended with
/// status zero, else what it wrote to its error stream, as it stands.
pub open spec fn failure_of(exit_code: i32, stderr: Seq<char>) -> Option<Seq<char>> {
    if exit_code == 0 {
        None
    } else {
        Some(stderr)
    }
}

/// The outcome of installing a global package.
#[derive(Debug, PartialEq, Eq)]
pub struct InstallGlobalOutput {
    /// The failure, where the install failed.
    pub error: Option<String>,
    /// Whether the package was installed.
    pub installed: bool,
}

impl InstallGlobalOutput {
    /// The outcome that the finished install command reports: the package is
    /// installed exactly when the process ended with status zero.
    pub fn from_exec_command(result: ExecCommandOutput) -> (output: InstallGlobalOutput)
        ensures
            output.installed == (result.exit_code == 0),
            option_view(output.error) == failure_of(result.exit_code, result.stderr@),
    {
        if result.exit_code == 0 {
            return InstallGlobalOutput { error: None, installed: true };
        }
        InstallGlobalOutput { error: Some(result.stderr), installed: false }
    }
}

/// The outcome of removing a global package.
#[derive(Debug, PartialEq, Eq)]
pub struct UninstallGlobalOutput {
    /// The failure, where the removal failed.
    pub error: Option<String>,
    /// Whether the package was removed.
    pub uninstalled: bool,
}

impl UninstallGlobalOutput {
    /// The outcome that the finished removal command reports: the package is
    /// removed exactly when the process ended with status zero.
    pub fn from_exec_command(result: ExecCommandOutput) -> (output: UninstallGlobalOutput)
        ensures
            output.uninstalled == (result.exit_code == 0),
            option_view(output.error) == failure_of(result.exit_code, result.stderr@),
    {
        if result.exit_code == 0 {
            return UninstallGlobalOutput { error: None, uninstalled: true };
        }
        UninstallGlobalOutput { error: Some(result.stderr), uninstalled: false }
    }
}

} // verus!
