//! Probes for the external command-line tool and its prerequisites: which
//! commands are run, and what their outcomes mean.
//!
//! Running a command is left to the caller. A command that ran is reported
//! as a [`ProbeOutput`]; one that could not be run at all as `None`, or as
//! the reason where the reason is shown to the user.

use vstd::prelude::*;
use vstd::string::*;
use crate::text::decode_lossy;
use crate::text::lossy_decoding;
use crate::text::joined;
use crate::text::trim_text;
use crate::text::trimmed;

verus! {

/// What a finished command left behind.
#[derive(Debug, PartialEq, Eq)]
pub struct ProbeOutput {
    /// Whether the command exited successfully.
    pub success: bool,
    /// What it wrote to standard output.
    pub stdout: Vec<u8>,
    /// What it wrote to standard error.
    pub stderr: Vec<u8>,
}

/// A [`ProbeOutput`] over plain values.
pub struct ProbeOutputView {
    pub success: bool,
    pub stdout: Seq<u8>,
    pub stderr: Seq<u8>,
}

impl View for ProbeOutput {
    type V = ProbeOutputView;

    open spec fn view(&self) -> ProbeOutputView {
        ProbeOutputView { success: self.success, stdout: self.stdout@, stderr: self.stderr@ }
    }
}

/// The outcome of a probe that may not have run, over plain values.
pub open spec fn attempt(probe: Option<ProbeOutput>) -> Option<ProbeOutputView> {
    match probe {
        Some(output) => Some(output@),
        None => None,
    }
}

/// Whether the tool and its prerequisites are installed.
#[derive(Debug, PartialEq, Eq)]
pub struct CLIStatus {
    pub installed: bool,
    pub path: Option<String>,
    pub version: Option<String>,
    pub node_installed: bool,
    pub npm_installed: bool,
}

/// A [`CLIStatus`] over plain values.
pub struct CLIStatusView {
    pub installed: bool,
    pub path: Option<Seq<char>>,
    pub version: Option<Seq<char>>,
    pub node_installed: bool,
    pub npm_installed: bool,
}

impl View for CLIStatus {
    type V = CLIStatusView;

    open spec fn view(&self) -> CLIStatusView {
        CLIStatusView {
            installed: self.installed,
            path: match self.path {
                Some(text) => Some(text@),
                None => None,
            },
            version: match self.version {
                Some(text) => Some(text@),
                None => None,
            },
            node_installed: self.node_installed,
            npm_installed: self.npm_installed,
        }
    }
}

/// A probe succeeded when its command ran and exited successfully.
pub open spec fn succeeded(probe: Option<ProbeOutputView>) -> bool {
    probe matches Some(output) && output.success
}

/// What a successful probe says: its standard output as text, decoded
/// leniently and trimmed. A failed probe says nothing.
pub open spec fn answer(probe: Option<ProbeOutputView>) -> Option<Seq<char>> {
    match probe {
        Some(output) => if output.success {
            Some(trimmed(lossy_decoding(output.stdout)))
        } else {
            None
        },
        None => None,
    }
}

/// The status that four probes add up to: looking up the tool, asking it
/// for its version, looking up Node.js and looking up npm. The tool is
/// installed when its lookup succeeded, and the lookup's answer is its
/// path. A version is reported only of an installed tool.
pub open spec fn cli_status(
    tool: Option<ProbeOutputView>,
    version: Option<ProbeOutputView>,
    node: Option<ProbeOutputView>,
    npm: Option<ProbeOutputView>,
) -> CLIStatusView {
    CLIStatusView {
        installed: succeeded(tool),
        path: answer(tool),
        version: if succeeded(tool) {
            answer(version)
        } else {
            None
        },
        node_installed: succeeded(node),
        npm_installed: succeeded(npm),
    }
}

/// Whether a probe succeeded.
pub fn probe_succeeded(probe: &Option<ProbeOutput>) -> (yes: bool)
    ensures
        yes == succeeded(attempt(*probe)),
{
    match probe {
        Some(output) => output.success,
        None => false,
    }
}

/// What a probe says, if it succeeded.
pub fn probe_answer(probe: &Option<ProbeOutput>) -> (text: Option<String>)
    ensures
        match text {
            Some(said) => answer(attempt(*probe)) == Some(said@),
            None => answer(attempt(*probe)) is None,
        },
{
    match probe {
        Some(output) => {
            if output.success {
                let raw: String = decode_lossy(&output.stdout);
                Some(trim_text(raw.as_str()))
            } else {
                None
            }
        },
        None => None,
    }
}

impl CLIStatus {
    /// Sums up the four probes. The version probe is only looked at when the
    /// tool's lookup succeeded; a caller that skipped it passes `None`.
    pub fn from_probes(
        tool: &Option<ProbeOutput>,
        version: &Option<ProbeOutput>,
        node: &Option<ProbeOutput>,
        npm: &Option<ProbeOutput>,
    ) -> (status: CLIStatus)
        ensures
            status@ == cli_status(
                attempt(*tool),
                attempt(*version),
                attempt(*node),
                attempt(*npm),
            ),
    {
        let installed: bool = probe_succeeded(tool);
        let path: Option<String> = probe_answer(tool);
        let version: Option<String> = if installed {
            probe_answer(version)
        } else {
            None
        };
        CLIStatus {
            installed,
            path,
            version,
            node_installed: probe_succeeded(node),
            npm_installed: probe_succeeded(npm),
        }
    }
}

/// The tool that is probed for: how it is called, and under which package
/// it is installed.
#[derive(Debug, PartialEq, Eq)]
pub struct Tool {
    /// The name of its command.
    pub command: String,
    /// The npm package that provides it.
    pub package: String,
    /// What it is called in messages to the user.
    pub title: String,
}

/// A [`Tool`] over plain values.
pub struct ToolView {
    pub command: Seq<char>,
    pub package: Seq<char>,
    pub title: Seq<char>,
}

impl View for Tool {
    type V = ToolView;

    open spec fn view(&self) -> ToolView {
        ToolView { command: self.command@, package: self.package@, title: self.title@ }
    }
}

/// The commands that the probes run.
#[derive(Clone, Copy, Debug, PartialEq, Eq, Structural)]
pub enum Probe {
    /// Looks the tool up on the search path.
    LocateTool,
    /// Asks the tool for its version.
    ToolVersion,
    /// Looks Node.js up on the search path.
    LocateNode,
    /// Looks npm up on the search path.
    LocateNpm,
    /// Installs the tool for all users through npm.
    InstallTool,
}

/// The command line of a probe: the program, then its arguments.
pub open spec fn command_line_of(tool: ToolView, probe: Probe) -> Seq<Seq<char>> {
    match probe {
        Probe::LocateTool => seq!["which"@, tool.command],
        Probe::ToolVersion => seq![tool.command, "--version"@],
        Probe::LocateNode => seq!["which"@, "node"@],
        Probe::LocateNpm => seq!["which"@, "npm"@],
        Probe::InstallTool => seq!["npm"@, "install"@, "-g"@, tool.package],
    }
}

/// The command line of a probe: the program, then its arguments.
pub fn command_line(tool: &Tool, probe: Probe) -> (line: Vec<String>)
    ensures
        line.deep_view() == command_line_of(tool@, probe),
{
    let mut line: Vec<String> = Vec::new();
    match probe {
        Probe::LocateTool => {
            line.push(String::from_str("which"));
            line.push(tool.command.clone());
        },
        Probe::ToolVersion => {
            line.push(tool.command.clone());
            line.push(String::from_str("--version"));
        },
        Probe::LocateNode => {
            line.push(String::from_str("which"));
            line.push(String::from_str("node"));
        },
        Probe::LocateNpm => {
            line.push(String::from_str("which"));
            line.push(String::from_str("npm"));
        },
        Probe::InstallTool => {
            line.push(String::from_str("npm"));
            line.push(String::from_str("install"));
            line.push(String::from_str("-g"));
            line.push(tool.package.clone());
        },
    }
    line
}

/// What the user is told after an installation attempt, given either what
/// the install command left behind or the reason why it could not be run:
/// that the tool is installed, or the failure with what the command wrote
/// to standard error.
pub open spec fn install_report(tool: ToolView, run: Result<ProbeOutputView, Seq<char>>) -> Result<
    Seq<char>,
    Seq<char>,
> {
    match run {
        Ok(output) => if output.success {
            Ok(tool.title + " installed successfully"@)
        } else {
            Err("Installation failed: "@ + lossy_decoding(output.stderr))
        },
        Err(reason) => Err("Failed to run npm: "@ + reason),
    }
}

/// An installation attempt over plain values.
pub open spec fn install_run(run: Result<ProbeOutput, String>) -> Result<
    ProbeOutputView,
    Seq<char>,
> {
    match run {
        Ok(output) => Ok(output@),
        Err(reason) => Err(reason@),
    }
}

/// Says what the user is told after an installation attempt.
pub fn report_install(tool: &Tool, run: &Result<ProbeOutput, String>) -> (told: Result<
    String,
    String,
>)
    ensures
        match told {
            Ok(message) => install_report(tool@, install_run(*run)) == Ok::<
                Seq<char>,
                Seq<char>,
            >(message@),
            Err(message) => install_report(tool@, install_run(*run)) == Err::<
                Seq<char>,
                Seq<char>,
            >(message@),
        },
{
    match run {
        Ok(output) => {
            if output.success {
                Ok(joined(tool.title.as_str(), " installed successfully"))
            } else {
                let written: String = decode_lossy(&output.stderr);
                Err(joined("Installation failed: ", written.as_str()))
            }
        },
        Err(reason) => Err(joined("Failed to run npm: ", reason.as_str())),
    }
}

/// Where the tool's lookup did not succeed, because the command could not
/// be run or exited with a failure, the tool is reported as not installed,
/// without path and without version, whatever the other probes say.
pub proof fn law_missing_tool_is_not_installed(
    tool: Option<ProbeOutputView>,
    version: Option<ProbeOutputView>,
    node: Option<ProbeOutputView>,
    npm: Option<ProbeOutputView>,
)
    requires
        !succeeded(tool),
    ensures
        !cli_status(tool, version, node, npm).installed,
        cli_status(tool, version, node, npm).path is None,
        cli_status(tool, version, node, npm).version is None,
        cli_status(tool, version, node, npm).node_installed == succeeded(node),
        cli_status(tool, version, node, npm).npm_installed == succeeded(npm),
{
}

/// A path is reported exactly of an installed tool, and a version only of
/// an installed tool.
pub proof fn law_path_iff_installed(
    tool: Option<ProbeOutputView>,
    version: Option<ProbeOutputView>,
    node: Option<ProbeOutputView>,
    npm: Option<ProbeOutputView>,
)
    ensures
        cli_status(tool, version, node, npm).installed <==> cli_status(
            tool,
            version,
            node,
            npm,
        ).path is Some,
        cli_status(tool, version, node, npm).version is Some ==> cli_status(
            tool,
            version,
            node,
            npm,
        ).installed,
{
}

} // verus!
