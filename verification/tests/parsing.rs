//! Tests of the leaf components: locate-output parsing, candidate
//! derivation, the fixed probe table, and validation outcomes.

use find_git::RegistryScope;
use find_git::RunOutcome;
use find_git::candidate_from_install_path;
use find_git::git_ran_ok;
use find_git::locate_command;
use find_git::parse_locate_output;
use find_git::registry_probes;
use find_git::tool_name;
use find_git::version_flag;
use find_git::Platform;

#[test]
fn first_line_of_multi_line_output() {
    let out = b"/usr/bin/tool\n/opt/bin/tool\n".to_vec();
    assert_eq!(parse_locate_output(&out), Some(b"/usr/bin/tool".to_vec()));
}

#[test]
fn single_line_without_newline() {
    let out = b"/usr/bin/git".to_vec();
    assert_eq!(parse_locate_output(&out), Some(b"/usr/bin/git".to_vec()));
}

#[test]
fn surrounding_whitespace_is_trimmed() {
    let out = b"  \t/usr/bin/git \n".to_vec();
    assert_eq!(parse_locate_output(&out), Some(b"/usr/bin/git".to_vec()));
}

#[test]
fn crlf_line_ending_is_stripped() {
    let out = b"C:\\Program Files\\Git\\cmd\\git.exe\r\nC:\\other\\git.exe\r\n".to_vec();
    assert_eq!(
        parse_locate_output(&out),
        Some(b"C:\\Program Files\\Git\\cmd\\git.exe".to_vec())
    );
}

#[test]
fn empty_output_yields_no_candidate() {
    let out = Vec::new();
    assert_eq!(parse_locate_output(&out), None);
}

#[test]
fn whitespace_only_output_yields_no_candidate() {
    let out = b" \r\n\t \n".to_vec();
    assert_eq!(parse_locate_output(&out), None);
}

#[test]
fn leading_blank_lines_are_skipped() {
    let out = b"\n\n/usr/local/bin/git\n".to_vec();
    assert_eq!(parse_locate_output(&out), Some(b"/usr/local/bin/git".to_vec()));
}

#[test]
fn candidate_appends_bin_git_exe() {
    let install = b"C:\\Tools\\Target".to_vec();
    assert_eq!(
        candidate_from_install_path(&install),
        b"C:\\Tools\\Target\\bin\\git.exe".to_vec()
    );
}

#[test]
fn candidate_keeps_trailing_backslash() {
    let install = b"C:\\Git\\".to_vec();
    assert_eq!(candidate_from_install_path(&install), b"C:\\Git\\bin\\git.exe".to_vec());
}

#[test]
fn candidate_keeps_trailing_slash() {
    let install = b"C:/Git/".to_vec();
    assert_eq!(candidate_from_install_path(&install), b"C:/Git/bin\\git.exe".to_vec());
}

#[test]
fn candidate_of_empty_install_dir() {
    let install = Vec::new();
    assert_eq!(candidate_from_install_path(&install), b"bin\\git.exe".to_vec());
}

#[test]
fn probe_table_is_the_fixed_five() {
    let probes = registry_probes();
    assert_eq!(probes.len(), 5);

    assert_eq!(probes[0].scope, RegistryScope::SystemWide);
    assert_eq!(probes[0].subkey, "Software\\GitForWindows");
    assert_eq!(probes[0].value_name, "InstallPath");

    let legacy_32 = "SOFTWARE\\Microsoft\\Windows\\CurrentVersion\\Uninstall\\Git_is1";
    let legacy_64 = "SOFTWARE\\Wow6432Node\\Microsoft\\Windows\\CurrentVersion\\Uninstall\\Git_is1";

    assert_eq!(probes[1].scope, RegistryScope::PerUser);
    assert_eq!(probes[1].subkey, legacy_32);
    assert_eq!(probes[1].value_name, "InstallLocation");

    assert_eq!(probes[2].scope, RegistryScope::PerUser);
    assert_eq!(probes[2].subkey, legacy_64);
    assert_eq!(probes[2].value_name, "InstallLocation");

    assert_eq!(probes[3].scope, RegistryScope::SystemWide);
    assert_eq!(probes[3].subkey, legacy_32);
    assert_eq!(probes[3].value_name, "InstallLocation");

    assert_eq!(probes[4].scope, RegistryScope::SystemWide);
    assert_eq!(probes[4].subkey, legacy_64);
    assert_eq!(probes[4].value_name, "InstallLocation");
}

#[test]
fn launch_with_success_exit_validates() {
    assert!(git_ran_ok(&RunOutcome::Completed { exit_code: 0 }));
}

#[test]
fn launch_with_failure_exit_still_validates() {
    assert!(git_ran_ok(&RunOutcome::Completed { exit_code: 1 }));
    assert!(git_ran_ok(&RunOutcome::Completed { exit_code: 127 }));
    assert!(git_ran_ok(&RunOutcome::Completed { exit_code: -1 }));
}

#[test]
fn failed_launch_does_not_validate() {
    assert!(!git_ran_ok(&RunOutcome::LaunchFailed));
}

#[test]
fn fixed_names_per_platform() {
    assert_eq!(locate_command(Platform::Posix), "which");
    assert_eq!(locate_command(Platform::Windows), "where");
    assert_eq!(tool_name(), "git");
    assert_eq!(version_flag(), "--version");
}
