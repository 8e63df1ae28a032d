//! Outcome classification: deciding whether a finished process's exit
//! status and captured streams represent success or failure, and which
//! stream text a report surfaces.

use vstd::prelude::*;
use vstd::utf8::valid_utf8;

use crate::invoke::ExecResult;
use crate::text::{format_output, formatted};

verus! {

/// The marker a report shows for a run counted as a success.
pub open spec fn success_tag() -> Seq<char> {
    "[Success 😁]"@
}

/// The marker a report shows for a run counted as a failure.
pub open spec fn error_tag() -> Seq<char> {
    "[Error 🤕]"@
}

/// The result marker of a run whose output is worth surfacing in full.
pub fn stdout_result() -> (r: &'static str)
    ensures
        r@ == success_tag(),
{
    "[Success 😁]"
}

/// Classification failed: a captured stream that the report would surface
/// was not valid UTF-8.
#[derive(Clone, Copy, Debug, PartialEq, Eq, Structural)]
pub enum ClassifyError {
    InvalidUtf8,
}

/// The formatted stdout stream with the success marker.
pub fn stdout_output(message: &[u8]) -> (r: (String, &'static str))
    requires
        valid_utf8(message@),
    ensures
        r.0@ == formatted(message@),
        r.1@ == success_tag(),
{
    match format_output(message) {
        Some(output) => (output, stdout_result()),
        None => {
            proof {
                assert(false);
            }
            (String::new(), stdout_result())
        },
    }
}

/// The formatted stderr stream with the failure marker.
pub fn stderr_output(message: &[u8]) -> (r: (String, &'static str))
    requires
        valid_utf8(message@),
    ensures
        r.0@ == formatted(message@),
        r.1@ == error_tag(),
{
    match format_output(message) {
        Some(output) => (output, "[Error 🤕]"),
        None => {
            proof {
                assert(false);
            }
            (String::new(), "[Error 🤕]")
        },
    }
}

/// Both formatted streams, separated by one blank line whatever the
/// platform line ending is, with the success marker.
pub fn stdout_stderr_output(stdout_message: &[u8], stderr_message: &[u8]) -> (r: (
    String,
    &'static str,
))
    requires
        valid_utf8(stdout_message@),
        valid_utf8(stderr_message@),
    ensures
        r.0@ == formatted(stdout_message@) + seq!['\n', '\n'] + formatted(stderr_message@),
        r.1@ == success_tag(),
{
    let (out, result) = stdout_output(stdout_message);
    let err = match format_output(stderr_message) {
        Some(e) => e,
        None => {
            proof {
                assert(false);
            }
            String::new()
        },
    };
    let mut combined = out;
    combined.append("\n\n");
    combined.append(err.as_str());
    proof {
        assert("\n\n"@ =~= seq!['\n', '\n']) by {
            reveal_strlit("\n\n");
        }
    }
    (combined, result)
}

/// The exit codes a tolerant tool counts as benign beside zero: a timeout
/// wrapper's expiry, a termination by another process, and a graceful
/// termination by SIGTERM.
pub open spec fn tolerated_code(code: Option<i32>) -> bool {
    code == Some(124i32) || code == Some(143i32) || code == Some(15i32)
}

/// The run counts as a success: it exited with zero, or the tolerant rule
/// is in force and the exit code is one of the tolerated ones.
pub open spec fn success_like(code: Option<i32>, tolerant: bool) -> bool {
    code == Some(0i32) || (tolerant && tolerated_code(code))
}

/// The body a report shows for a successful run: the formatted stdout, with
/// the formatted stderr after a blank line when it has anything to say.
pub open spec fn combined_streams(stdout: Seq<u8>, stderr: Seq<u8>) -> Seq<char> {
    if formatted(stderr).len() == 0 {
        formatted(stdout)
    } else {
        formatted(stdout) + seq!['\n', '\n'] + formatted(stderr)
    }
}

/// What classification returns: a pure function of the exit code, the two
/// captured streams and the tolerance flag. A successful run surfaces the
/// combined streams under the success marker; a failed one surfaces stderr
/// alone under the failure marker. `None` when a stream the report would
/// surface is not valid UTF-8.
pub open spec fn spec_classify(
    code: Option<i32>,
    stdout: Seq<u8>,
    stderr: Seq<u8>,
    tolerant: bool,
) -> Option<(Seq<char>, Seq<char>)> {
    if success_like(code, tolerant) {
        if valid_utf8(stdout) && valid_utf8(stderr) {
            Some((combined_streams(stdout, stderr), success_tag()))
        } else {
            None
        }
    } else {
        if valid_utf8(stderr) {
            Some((formatted(stderr), error_tag()))
        } else {
            None
        }
    }
}

fn is_tolerated(code: &Option<i32>) -> (r: bool)
    ensures
        r == tolerated_code(*code),
{
    match code {
        Some(c) => *c == 124 || *c == 143 || *c == 15,
        None => false,
    }
}

/// Classifies a finished process's result, returning the report body and
/// the result marker, or the decoding failure that blocked classification.
pub fn classify(result: &ExecResult, tolerant: bool) -> (r: Result<
    (String, &'static str),
    ClassifyError,
>)
    ensures
        r is Ok <==> spec_classify(result.code, result.stdout@, result.stderr@, tolerant)
            is Some,
        r is Ok ==> (r->Ok_0.0@, r->Ok_0.1@) == spec_classify(
            result.code,
            result.stdout@,
            result.stderr@,
            tolerant,
        )->0,
        r is Err ==> r->Err_0 == ClassifyError::InvalidUtf8,
{
    let benign = result.success() || (tolerant && is_tolerated(&result.code));
    if benign {
        let out_ok = format_output(result.stdout.as_slice()).is_some();
        let err_text = format_output(result.stderr.as_slice());
        match err_text {
            Some(err) if out_ok => {
                if err.as_str().is_empty() {
                    let (out, tag) = stdout_output(result.stdout.as_slice());
                    Ok((out, tag))
                } else {
                    let (combined, tag) = stdout_stderr_output(
                        result.stdout.as_slice(),
                        result.stderr.as_slice(),
                    );
                    Ok((combined, tag))
                }
            },
            _ => Err(ClassifyError::InvalidUtf8),
        }
    } else {
        if format_output(result.stderr.as_slice()).is_some() {
            let (err, tag) = stderr_output(result.stderr.as_slice());
            Ok((err, tag))
        } else {
            Err(ClassifyError::InvalidUtf8)
        }
    }
}

/// Classification is pure in its four inputs, and decides as follows: exit
/// code zero gives the success marker with both streams combined when both
/// have text; any other exit code without the tolerant rule gives the
/// failure marker with stderr alone; a tolerated exit code under the
/// tolerant rule gives the success marker with the combined streams.
pub proof fn lemma_classification_cases(
    code: Option<i32>,
    stdout: Seq<u8>,
    stderr: Seq<u8>,
    tolerant: bool,
)
    requires
        valid_utf8(stdout),
        valid_utf8(stderr),
    ensures
        code == Some(0i32) && formatted(stderr).len() > 0 ==> spec_classify(
            code,
            stdout,
            stderr,
            tolerant,
        ) == Some((formatted(stdout) + seq!['\n', '\n'] + formatted(stderr), success_tag())),
        code != Some(0i32) && !tolerant ==> spec_classify(code, stdout, stderr, tolerant) == Some(
            (formatted(stderr), error_tag()),
        ),
        tolerated_code(code) && tolerant ==> spec_classify(code, stdout, stderr, tolerant) == Some(
            (combined_streams(stdout, stderr), success_tag()),
        ),
{
}

} // verus!
