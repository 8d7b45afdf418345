use sidecar_supervisor::cli::command_line;
use sidecar_supervisor::cli::probe_answer;
use sidecar_supervisor::cli::probe_succeeded;
use sidecar_supervisor::cli::report_install;
use sidecar_supervisor::CLIStatus;
use sidecar_supervisor::Probe;
use sidecar_supervisor::ProbeOutput;
use sidecar_supervisor::Tool;

fn tool() -> Tool {
    Tool {
        command: String::from("helper"),
        package: String::from("@vendor/helper-cli"),
        title: String::from("Helper CLI"),
    }
}

fn ran(success: bool, stdout: &str, stderr: &str) -> Option<ProbeOutput> {
    Some(ProbeOutput { success, stdout: stdout.as_bytes().to_vec(), stderr: stderr.as_bytes().to_vec() })
}

#[test]
fn command_lines_of_the_probes() {
    let tool = tool();
    assert_eq!(command_line(&tool, Probe::LocateTool), vec!["which", "helper"]);
    assert_eq!(command_line(&tool, Probe::ToolVersion), vec!["helper", "--version"]);
    assert_eq!(command_line(&tool, Probe::LocateNode), vec!["which", "node"]);
    assert_eq!(command_line(&tool, Probe::LocateNpm), vec!["which", "npm"]);
    assert_eq!(
        command_line(&tool, Probe::InstallTool),
        vec!["npm", "install", "-g", "@vendor/helper-cli"]
    );
}

#[test]
fn probe_succeeds_only_when_it_ran_and_exited_well() {
    assert!(probe_succeeded(&ran(true, "", "")));
    assert!(!probe_succeeded(&ran(false, "/usr/bin/helper\n", "")));
    assert!(!probe_succeeded(&None));
}

#[test]
fn probe_answer_is_the_trimmed_output() {
    assert_eq!(probe_answer(&ran(true, "/usr/bin/helper\n", "")), Some(String::from("/usr/bin/helper")));
    assert_eq!(probe_answer(&ran(true, "  1.0.4 \r\n", "warning")), Some(String::from("1.0.4")));
    assert_eq!(probe_answer(&ran(true, "", "")), Some(String::new()));
    assert_eq!(probe_answer(&ran(false, "/usr/bin/helper\n", "")), None);
    assert_eq!(probe_answer(&None), None);
}

#[test]
fn probe_answer_decodes_leniently_before_trimming() {
    let probe = Some(ProbeOutput { success: true, stdout: vec![b' ', 0xFF, b'v', b'1', b'\n'], stderr: Vec::new() });
    assert_eq!(probe_answer(&probe), Some(String::from("\u{FFFD}v1")));
}

#[test]
fn everything_installed() {
    let status = CLIStatus::from_probes(
        &ran(true, "/usr/local/bin/helper\n", ""),
        &ran(true, "2.1.0 (Helper)\n", ""),
        &ran(true, "/usr/bin/node\n", ""),
        &ran(true, "/usr/bin/npm\n", ""),
    );
    assert_eq!(
        status,
        CLIStatus {
            installed: true,
            path: Some(String::from("/usr/local/bin/helper")),
            version: Some(String::from("2.1.0 (Helper)")),
            node_installed: true,
            npm_installed: true,
        }
    );
}

#[test]
fn missing_tool_is_not_installed_and_has_no_path_or_version() {
    let status = CLIStatus::from_probes(&ran(false, "", ""), &None, &ran(true, "/usr/bin/node\n", ""), &ran(true, "/usr/bin/npm\n", ""));
    assert_eq!(
        status,
        CLIStatus { installed: false, path: None, version: None, node_installed: true, npm_installed: true }
    );
}

#[test]
fn lookup_that_could_not_run_counts_as_not_installed() {
    let status = CLIStatus::from_probes(&None, &None, &None, &None);
    assert_eq!(
        status,
        CLIStatus { installed: false, path: None, version: None, node_installed: false, npm_installed: false }
    );
}

#[test]
fn version_of_a_missing_tool_is_never_reported() {
    let status = CLIStatus::from_probes(&ran(false, "/stale/path\n", ""), &ran(true, "9.9.9\n", ""), &None, &None);
    assert!(!status.installed);
    assert_eq!(status.path, None);
    assert_eq!(status.version, None);
}

#[test]
fn installed_tool_whose_version_probe_fails_has_no_version() {
    let status = CLIStatus::from_probes(&ran(true, "/usr/bin/helper\n", ""), &ran(false, "", "crash"), &ran(false, "", ""), &None);
    assert_eq!(
        status,
        CLIStatus {
            installed: true,
            path: Some(String::from("/usr/bin/helper")),
            version: None,
            node_installed: false,
            npm_installed: false,
        }
    );
    let status = CLIStatus::from_probes(&ran(true, "/usr/bin/helper\n", ""), &None, &None, &None);
    assert!(status.installed);
    assert_eq!(status.version, None);
}

#[test]
fn successful_installation_is_confirmed() {
    let told = report_install(&tool(), &Ok(ProbeOutput { success: true, stdout: b"added 1 package".to_vec(), stderr: Vec::new() }));
    assert_eq!(told, Ok(String::from("Helper CLI installed successfully")));
}

#[test]
fn failed_installation_shows_what_npm_wrote() {
    let told = report_install(&tool(), &Ok(ProbeOutput { success: false, stdout: Vec::new(), stderr: b"npm ERR! code EACCES\n".to_vec() }));
    assert_eq!(told, Err(String::from("Installation failed: npm ERR! code EACCES\n")));
    let told = report_install(&tool(), &Ok(ProbeOutput { success: false, stdout: Vec::new(), stderr: vec![b'E', 0x80] }));
    assert_eq!(told, Err(String::from("Installation failed: E\u{FFFD}")));
}

#[test]
fn installation_that_could_not_run_says_why() {
    let told = report_install(&tool(), &Err(String::from("No such file or directory (os error 2)")));
    assert_eq!(told, Err(String::from("Failed to run npm: No such file or directory (os error 2)")));
}
