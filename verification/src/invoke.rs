//! The process invoker's data: the descriptor of one external command to
//! execute, and the raw captured result of a finished process. Building the
//! argument vector — escalation wrapper, timeout wrapper, tool, tool
//! arguments, then the target or one combined input blob — is the logic
//! verified here; spawning the process is left to the caller of the
//! library.

use vstd::prelude::*;

use crate::text::{dec_str, join_with, u16_to_decimal};

verus! {

/// The raw result of one finished external process: its exit code (`None`
/// when a signal terminated it without one) and its fully captured streams.
pub struct ExecResult {
    pub code: Option<i32>,
    pub stdout: Vec<u8>,
    pub stderr: Vec<u8>,
}

impl ExecResult {
    /// The process exited with status zero.
    pub open spec fn spec_success(&self) -> bool {
        self.code == Some(0i32)
    }

    pub fn success(&self) -> (r: bool)
        ensures
            r == self.spec_success(),
    {
        match self.code {
            Some(c) => c == 0,
            None => false,
        }
    }
}

/// One invocation descriptor: the command name and its full argument
/// vector, built once per tool run and discarded after use.
pub struct ExecutionRequest {
    pub program: String,
    pub args: Vec<String>,
}

impl ExecutionRequest {
    /// The whole command line: the program followed by its arguments.
    pub open spec fn cmd_view(&self) -> Seq<Seq<char>> {
        seq![self.program@] + self.args.deep_view()
    }
}

/// The timeout wrapper's duration argument: the seconds in decimal with the
/// unit suffix.
pub open spec fn spec_timeout_arg(timeout: nat) -> Seq<char> {
    dec_str(timeout) + "s"@
}

/// The command line that invokes `tool` on `tail`: the escalation wrapper
/// first when an account is named, then the timeout wrapper when a timeout
/// is enforced, then the tool with its own arguments, then `tail` — the
/// target binary with its arguments, or one combined input blob.
pub open spec fn spec_invocation(
    escalation: Seq<char>,
    timeout: nat,
    tool: Seq<char>,
    tool_args: Seq<Seq<char>>,
    tail: Seq<Seq<char>>,
) -> Seq<Seq<char>> {
    let wrapped = if timeout > 0 {
        seq!["timeout"@, spec_timeout_arg(timeout), tool]
    } else {
        seq![tool]
    };
    let base = wrapped + tool_args + tail;
    if escalation.len() > 0 {
        seq![escalation] + base
    } else {
        base
    }
}

fn timeout_arg(timeout: u16) -> (r: String)
    ensures
        r@ == spec_timeout_arg(timeout as nat),
{
    let mut r = u16_to_decimal(timeout);
    r.append("s");
    r
}

/// A vector's deep view is its elements' deep views, in place.
pub proof fn lemma_vec_deep_view<T: DeepView>(v: &Vec<T>)
    ensures
        v.deep_view().len() == v@.len(),
        forall|i: int| 0 <= i < v@.len() ==> #[trigger] v.deep_view()[i] == v@[i].deep_view(),
{
}

/// Appends clones of all of `src` to `dst`.
fn push_all(dst: &mut Vec<String>, src: &Vec<String>)
    ensures
        final(dst).deep_view() == old(dst).deep_view() + src.deep_view(),
{
    let ghost orig = dst@;
    let mut i: usize = 0;
    while i < src.len()
        invariant
            i <= src.len(),
            dst@ == orig + src@.take(i as int),
        decreases src.len() - i,
    {
        let ghost prev = dst@;
        dst.push(src[i].clone());
        proof {
            assert(dst@ =~= orig + src@.take(i + 1));
        }
        i = i + 1;
    }
    proof {
        assert(src@.take(src.len() as int) =~= src@);
        assert(dst@ == orig + src@);
        assert forall|k: int| 0 <= k < dst@.len() implies #[trigger] dst.deep_view()[k] == (old(
            dst,
        ).deep_view() + src.deep_view())[k] by {
            if k < orig.len() {
                assert(dst@[k] == orig[k]);
            } else {
                assert(dst@[k] == src@[k - orig.len()]);
            }
        }
        assert(dst.deep_view() =~= old(dst).deep_view() + src.deep_view());
    }
}

/// Builds the invocation of `tool_name` as `spec_invocation` lays it out,
/// splitting the command line into the program and its argument vector.
pub fn build_command(
    tool_name: &str,
    tool_args: &Vec<String>,
    escalation: &String,
    timeout: u16,
    tail: Vec<String>,
) -> (r: ExecutionRequest)
    ensures
        r.cmd_view() == spec_invocation(
            escalation@,
            timeout as nat,
            tool_name@,
            tool_args.deep_view(),
            tail.deep_view(),
        ),
{
    let mut rest: Vec<String> = Vec::new();
    let program: String;
    if !escalation.as_str().is_empty() {
        program = escalation.clone();
        if timeout > 0 {
            rest.push("timeout".to_owned());
            rest.push(timeout_arg(timeout));
        }
        rest.push(tool_name.to_owned());
    } else if timeout > 0 {
        program = "timeout".to_owned();
        rest.push(timeout_arg(timeout));
        rest.push(tool_name.to_owned());
    } else {
        program = tool_name.to_owned();
    }
    push_all(&mut rest, tool_args);
    push_all(&mut rest, &tail);
    let r = ExecutionRequest { program, args: rest };
    proof {
        assert(r.cmd_view() =~= spec_invocation(
            escalation@,
            timeout as nat,
            tool_name@,
            tool_args.deep_view(),
            tail.deep_view(),
        ));
    }
    r
}

/// The trailing arguments of an invocation that hands the target and its
/// arguments over separately: the target path first, its arguments after.
pub fn target_tail(binary_path: &String, binary_args: &Vec<String>) -> (r: Vec<String>)
    ensures
        r.deep_view() == seq![binary_path@] + binary_args.deep_view(),
{
    let mut tail: Vec<String> = Vec::new();
    tail.push(binary_path.clone());
    proof {
        lemma_vec_deep_view(&tail);
        assert(tail.deep_view() =~= seq![binary_path@]);
    }
    push_all(&mut tail, binary_args);
    tail
}

/// The probe that checks an external tool's presence: the tool invoked with
/// its version flag alone.
pub fn existence_probe(tool_name: &str) -> (r: ExecutionRequest)
    ensures
        r.cmd_view() == seq![tool_name@, "-v"@],
{
    let mut args: Vec<String> = Vec::new();
    args.push("-v".to_owned());
    let r = ExecutionRequest { program: tool_name.to_owned(), args };
    proof {
        assert(r.cmd_view() =~= seq![tool_name@, "-v"@]);
    }
    r
}

/// `join_with` grows at its end one piece at a time.
proof fn lemma_join_with_push(ls: Seq<Seq<char>>, x: Seq<char>, sep: Seq<char>)
    ensures
        join_with(ls.push(x), sep) == if ls.len() == 0 {
            x
        } else {
            join_with(ls, sep) + sep + x
        },
    decreases ls.len(),
{
    if ls.len() == 0 {
        assert(ls.push(x).len() == 1);
        assert(ls.push(x)[0] == x);
    } else {
        let t = ls.push(x);
        assert(t.len() >= 2);
        assert(t[0] == ls[0]);
        assert(t.drop_first() =~= ls.drop_first().push(x));
        lemma_join_with_push(ls.drop_first(), x, sep);
        if ls.len() == 1 {
            assert(join_with(ls, sep) == ls[0]);
        }
    }
}

/// All of `args` joined with single spaces.
pub fn join_space(args: &Vec<String>) -> (r: String)
    ensures
        r@ == join_with(args.deep_view(), seq![' ']),
{
    let mut r = String::new();
    let mut i: usize = 0;
    proof {
        assert(args.deep_view().take(0) =~= Seq::<Seq<char>>::empty());
    }
    while i < args.len()
        invariant
            i <= args.len(),
            r@ == join_with(args.deep_view().take(i as int), seq![' ']),
        decreases args.len() - i,
    {
        if i > 0 {
            r.append(" ");
            proof {
                assert(" "@ =~= seq![' ']) by {
                    reveal_strlit(" ");
                }
            }
        }
        r.append(args[i].as_str());
        proof {
            let prefix = args.deep_view().take(i as int);
            assert(args.deep_view().take(i + 1) =~= prefix.push(args.deep_view()[i as int]));
            lemma_join_with_push(prefix, args.deep_view()[i as int], seq![' ']);
        }
        i = i + 1;
    }
    proof {
        assert(args.deep_view().take(args.len() as int) =~= args.deep_view());
    }
    r
}

/// The one combined text blob handed to a tool that consumes a single
/// string instead of separate target arguments: the target path and its
/// arguments joined with single spaces.
pub open spec fn spec_binary_input(binary_path: Seq<char>, binary_args: Seq<Seq<char>>) -> Seq<
    char,
> {
    binary_path + seq![' '] + join_with(binary_args, seq![' '])
}

/// The combined input blob for `binary_path` run with `binary_arguments`.
pub fn create_binary_input(binary_path: &String, binary_arguments: &Vec<String>) -> (r: String)
    ensures
        r@ == spec_binary_input(binary_path@, binary_arguments.deep_view()),
{
    let mut r = binary_path.clone();
    r.append(" ");
    proof {
        assert(" "@ =~= seq![' ']) by {
            reveal_strlit(" ");
        }
    }
    let joined = join_space(binary_arguments);
    r.append(joined.as_str());
    r
}

} // verus!
