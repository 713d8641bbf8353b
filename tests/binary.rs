use eden::binary::{
    check_binary, extract_version, get_version, locate_binary, try_version_flag, version_flag,
    FlagOutput, VersionStep,
};
use eden::config::BinaryCheck;

fn output(success: bool, stdout: &str, stderr: &str) -> Option<FlagOutput> {
    Some(FlagOutput { success, stdout: stdout.to_string(), stderr: stderr.to_string() })
}

#[test]
fn test_extract_version() {
    assert_eq!(extract_version("docker version 20.10.8"), "v20.10.8");
    assert_eq!(extract_version("node v18.17.0"), "v18.17.0");
    assert_eq!(extract_version("rustc 1.72.0"), "v1.72.0");
}

#[test]
fn test_check_common_binary() {
    // `ls` should exist on any Unix system
    let check = BinaryCheck::Simple("ls".to_string());
    let path = locate_binary(&check);
    let result = check_binary(&check, path, None);
    assert!(result.passed);
}

#[test]
fn test_check_missing_binary() {
    let check = BinaryCheck::Simple("definitely-not-a-real-binary-12345".to_string());
    let path = locate_binary(&check);
    let result = check_binary(&check, path, None);
    assert!(!result.passed);
}

#[test]
fn missing_binary_message() {
    let check = BinaryCheck::Simple("definitely-not-a-real-binary-12345".to_string());
    let path = locate_binary(&check);
    assert!(path.is_none());
    let result = check_binary(&check, path, Some("v1.0".to_string()));
    assert!(!result.passed);
    assert_eq!(result.message, "not found in PATH");
    assert_eq!(result.check_type, "Binary");
    assert_eq!(result.name, "definitely-not-a-real-binary-12345");
}

#[test]
fn located_binary_has_a_path() {
    let check = BinaryCheck::WithVersion { name: "sh".to_string(), version: None };
    let path = locate_binary(&check).expect("sh is on the search path");
    assert!(path.ends_with("sh"));
    assert!(path.len() > 2);
}

#[test]
fn found_binary_message() {
    let check = BinaryCheck::Simple("git".to_string());
    let result = check_binary(&check, Some("/usr/bin/git".to_string()), Some("v2.40.1".to_string()));
    assert!(result.passed);
    assert_eq!(result.message, "v2.40.1 (/usr/bin/git)");
    let result = check_binary(&check, Some("/usr/bin/git".to_string()), None);
    assert!(result.passed);
    assert_eq!(result.message, "unknown version (/usr/bin/git)");
}

#[test]
fn extract_version_trims_punctuation() {
    assert_eq!(extract_version("Python (3.11.4)"), "v3.11.4");
    assert_eq!(extract_version("go version go1.21.0 linux/amd64"), "v1.21.0");
    assert_eq!(extract_version("tool .5 build 2.0,"), "v2.0");
}

#[test]
fn extract_version_falls_back_to_line() {
    assert_eq!(extract_version("tool version unknown"), "tool version unknown");
    assert_eq!(extract_version("build 42"), "build 42");
    assert_eq!(extract_version(""), "");
    let long = "a".repeat(60);
    let expected = format!("{}...", "a".repeat(50));
    assert_eq!(extract_version(&long), expected);
    let exact = "b".repeat(50);
    assert_eq!(extract_version(&exact), exact);
}

#[test]
fn version_flag_order() {
    assert_eq!(version_flag(0), Some("--version"));
    assert_eq!(version_flag(1), Some("-version"));
    assert_eq!(version_flag(2), Some("-V"));
    assert_eq!(version_flag(3), Some("version"));
    assert_eq!(version_flag(4), None);
}

#[test]
fn try_flag_reads_first_line_with_content() {
    let r = try_version_flag("--version", output(true, "\n   \nnode v18.17.0\nmore\n", ""));
    assert_eq!(r, Some("v18.17.0".to_string()));
    let r = try_version_flag("--version", output(true, "  \r\n", "rustc 1.72.0\r\n"));
    assert_eq!(r, Some("v1.72.0".to_string()));
    let r = try_version_flag("--version", output(true, "no digits here\r\n", ""));
    assert_eq!(r, Some("no digits here".to_string()));
}

#[test]
fn try_flag_failure_status() {
    assert_eq!(try_version_flag("--version", output(false, "x 1.0", "")), None);
    assert_eq!(try_version_flag("version", output(false, "x 1.0", "")), None);
    assert_eq!(try_version_flag("-V", output(false, "", "x 1.0")), Some("v1.0".to_string()));
}

#[test]
fn try_flag_without_output() {
    assert_eq!(try_version_flag("--version", None), None);
    assert_eq!(try_version_flag("--version", output(true, " \n\t\n", "\n")), None);
}

#[test]
fn version_lookup_steps() {
    match get_version(0, output(true, "docker version 20.10.8", "")) {
        VersionStep::Done(Some(v)) => assert_eq!(v, "v20.10.8"),
        _ => panic!("expected a version"),
    }
    match get_version(0, None) {
        VersionStep::Run(next) => assert_eq!(next, 1),
        _ => panic!("expected the next flag"),
    }
    match get_version(2, output(false, "", "tool 3.1")) {
        VersionStep::Done(Some(v)) => assert_eq!(v, "v3.1"),
        _ => panic!("expected a version"),
    }
    match get_version(3, output(false, "tool 3.1", "")) {
        VersionStep::Done(None) => {}
        _ => panic!("expected the end of the lookup"),
    }
    match get_version(7, output(true, "tool 3.1", "")) {
        VersionStep::Done(None) => {}
        _ => panic!("expected the end of the lookup"),
    }
}
