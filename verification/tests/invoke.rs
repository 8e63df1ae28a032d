use lich::invoke::{build_command, create_binary_input, existence_probe, ExecResult};

fn strings(v: &[&str]) -> Vec<String> {
    v.iter().map(|s| s.to_string()).collect()
}

#[test]
fn plain_invocation() {
    let r = build_command(
        "valgrind",
        &strings(&["--leak-check=full"]),
        &String::new(),
        0,
        strings(&["./target", "-x"]),
    );
    assert_eq!(r.program, "valgrind");
    assert_eq!(r.args, strings(&["--leak-check=full", "./target", "-x"]));
}

#[test]
fn escalated_invocation() {
    let r = build_command(
        "powerstat",
        &strings(&["-d"]),
        &"sudo".to_string(),
        0,
        strings(&["./target"]),
    );
    assert_eq!(r.program, "sudo");
    assert_eq!(r.args, strings(&["powerstat", "-d", "./target"]));
}

#[test]
fn time_bounded_invocation() {
    let r = build_command(
        "valgrind",
        &strings(&[]),
        &String::new(),
        5,
        strings(&["./target"]),
    );
    assert_eq!(r.program, "timeout");
    assert_eq!(r.args, strings(&["5s", "valgrind", "./target"]));
}

#[test]
fn escalated_and_time_bounded_invocation() {
    let r = build_command(
        "perf",
        &strings(&["stat"]),
        &"sudo".to_string(),
        30,
        strings(&["./target", "a"]),
    );
    assert_eq!(r.program, "sudo");
    assert_eq!(r.args, strings(&["timeout", "30s", "perf", "stat", "./target", "a"]));
}

#[test]
fn combined_input_blob() {
    assert_eq!(
        create_binary_input(&"./target".to_string(), &strings(&["a", "b"])),
        "./target a b"
    );
    // The blob always carries the separating space, even with no arguments.
    assert_eq!(create_binary_input(&"./target".to_string(), &strings(&[])), "./target ");
}

#[test]
fn existence_probe_uses_version_flag() {
    let r = existence_probe("powertop");
    assert_eq!(r.program, "powertop");
    assert_eq!(r.args, strings(&["-v"]));
}

#[test]
fn exit_status_success_is_code_zero() {
    let ok = ExecResult { code: Some(0), stdout: Vec::new(), stderr: Vec::new() };
    let failed = ExecResult { code: Some(1), stdout: Vec::new(), stderr: Vec::new() };
    let signalled = ExecResult { code: None, stdout: Vec::new(), stderr: Vec::new() };
    assert!(ok.success());
    assert!(!failed.success());
    assert!(!signalled.success());
}
