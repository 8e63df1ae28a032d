use lich::classify::{
    classify, stderr_output, stdout_output, stdout_result, stdout_stderr_output, ClassifyError,
};
use lich::invoke::ExecResult;

const SUCCESS: &str = "[Success 😁]";
const ERROR: &str = "[Error 🤕]";

fn result_of(code: Option<i32>, stdout: &[u8], stderr: &[u8]) -> ExecResult {
    ExecResult { code, stdout: stdout.to_vec(), stderr: stderr.to_vec() }
}

#[test]
fn success_marker_text() {
    assert_eq!(stdout_result(), SUCCESS);
}

#[test]
fn exit_zero_with_stdout_alone_shows_stdout() {
    let r = classify(&result_of(Some(0), b"all fine\n", b""), false);
    assert_eq!(r, Ok(("all fine".to_string(), SUCCESS)));
}

#[test]
fn exit_zero_with_both_streams_shows_both() {
    let r = classify(&result_of(Some(0), b"out", b"warnings"), false);
    assert_eq!(r, Ok(("out\n\nwarnings".to_string(), SUCCESS)));
}

#[test]
fn whitespace_only_stderr_counts_as_empty() {
    let r = classify(&result_of(Some(0), b"out", b"  \n "), false);
    assert_eq!(r, Ok(("out".to_string(), SUCCESS)));
}

#[test]
fn nonzero_exit_without_tolerance_shows_stderr_alone() {
    let r = classify(&result_of(Some(2), b"ignored", b"boom\n"), false);
    assert_eq!(r, Ok(("boom".to_string(), ERROR)));
}

#[test]
fn signal_termination_without_code_is_a_failure() {
    let r = classify(&result_of(None, b"ignored", b"killed"), false);
    assert_eq!(r, Ok(("killed".to_string(), ERROR)));
}

#[test]
fn timeout_exit_code_is_benign_under_the_tolerant_rule() {
    let r = classify(&result_of(Some(124), b"partial", b"cut short"), true);
    assert_eq!(r, Ok(("partial\n\ncut short".to_string(), SUCCESS)));
}

#[test]
fn termination_exit_codes_are_benign_under_the_tolerant_rule() {
    let r = classify(&result_of(Some(143), b"partial", b""), true);
    assert_eq!(r, Ok(("partial".to_string(), SUCCESS)));
    let r = classify(&result_of(Some(15), b"partial", b""), true);
    assert_eq!(r, Ok(("partial".to_string(), SUCCESS)));
}

#[test]
fn timeout_exit_code_without_tolerance_is_a_failure() {
    let r = classify(&result_of(Some(124), b"partial", b"cut short"), false);
    assert_eq!(r, Ok(("cut short".to_string(), ERROR)));
}

#[test]
fn other_exit_codes_stay_failures_under_the_tolerant_rule() {
    let r = classify(&result_of(Some(1), b"partial", b"real failure"), true);
    assert_eq!(r, Ok(("real failure".to_string(), ERROR)));
}

#[test]
fn invalid_stderr_blocks_classification_of_a_failure() {
    let r = classify(&result_of(Some(1), b"", &[0xff]), false);
    assert_eq!(r, Err(ClassifyError::InvalidUtf8));
}

#[test]
fn invalid_stream_blocks_classification_of_a_success() {
    let r = classify(&result_of(Some(0), &[0xff], b""), false);
    assert_eq!(r, Err(ClassifyError::InvalidUtf8));
    let r = classify(&result_of(Some(0), b"ok", &[0xff]), false);
    assert_eq!(r, Err(ClassifyError::InvalidUtf8));
}

#[test]
fn stream_helpers_format_and_tag() {
    assert_eq!(stdout_output(b" ok \n"), ("ok".to_string(), SUCCESS));
    assert_eq!(stderr_output(b" bad \n"), ("bad".to_string(), ERROR));
    assert_eq!(
        stdout_stderr_output(b"one\n", b"two\n"),
        ("one\n\ntwo".to_string(), SUCCESS)
    );
}
