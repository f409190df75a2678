use splat_studio::system::{Check, SystemReport};

#[test]
fn output_prefers_trimmed_stdout() {
    let check = Check::from_output("nvidia-smi", true, b"  RTX 4070 Ti SUPER, 16376, 560.94\n", b"warn");
    assert!(check.ok);
    assert_eq!(check.detail, "RTX 4070 Ti SUPER, 16376, 560.94");
}

#[test]
fn output_falls_back_to_stderr() {
    let check = Check::from_output("wsl.exe", false, b" \n", b"  not installed  ");
    assert!(!check.ok);
    assert_eq!(check.detail, "not installed");
}

#[test]
fn silent_tool_is_reported() {
    let check = Check::from_output("docker", true, b"", b"\t\n");
    assert_eq!(check.detail, "docker returned no output");
}

#[test]
fn invalid_utf8_is_replaced() {
    let check = Check::from_output("docker", true, b"ok\xff", b"");
    assert_eq!(check.detail, "ok\u{fffd}");
}

#[test]
fn unavailable_tool() {
    let check = Check::unavailable("docker", "No such file or directory (os error 2)");
    assert!(!check.ok);
    assert_eq!(check.detail, "docker not available: No such file or directory (os error 2)");
}

#[test]
fn default_report_is_empty() {
    let report = SystemReport::default();
    assert!(!report.gpu.ok && report.gpu.detail.is_empty());
    assert!(!report.wsl.ok && report.wsl.detail.is_empty());
    assert!(!report.docker.ok && report.docker.detail.is_empty());
}
