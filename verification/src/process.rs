//! Command descriptors and the interpretation of a finished command's
//! captured output.
//!
//! Running a child process is the caller's business; this module pins down
//! what is run (the program and its arguments) and what a run's outcome
//! means: exit status zero is success, anything else is a `CommandFailed`
//! error whose message carries the most useful captured diagnostic (stderr
//! preferred, then stdout, then the bare exit status).

use vstd::prelude::*;
use crate::strutil::{trim_spec, trim_str};
use crate::error::OpError;

verus! {

/// An external program together with the arguments it is to be invoked
/// with.  Built once per operation and never reused.
#[derive(Debug)]
pub struct CommandSpec {
    pub program: String,
    pub args: Vec<String>,
}

impl CommandSpec {
    /// The argument list as a sequence of character sequences.
    pub open spec fn args_view(&self) -> Seq<Seq<char>> {
        self.args.deep_view()
    }
}

/// `parts` joined by single spaces: empty for no parts, and no trailing
/// separator.
pub open spec fn join_spaces(parts: Seq<Seq<char>>) -> Seq<char>
    decreases parts.len(),
{
    if parts.len() == 0 {
        Seq::<char>::empty()
    } else if parts.len() == 1 {
        parts[0]
    } else {
        join_spaces(parts.drop_last()) + seq![' '] + parts.last()
    }
}

/// The human-readable form of a command: the program, then each argument,
/// separated by single spaces.
pub open spec fn format_command_spec(program: Seq<char>, args: Seq<Seq<char>>) -> Seq<char> {
    if args.len() == 0 {
        program
    } else {
        program + seq![' '] + join_spaces(args)
    }
}

/// Renders a command descriptor for diagnostics: the program and its
/// arguments joined by spaces.
pub fn format_command(cmd: &CommandSpec) -> (r: String)
    ensures
        r@ == format_command_spec(cmd.program@, cmd.args_view()),
{
    let mut r = cmd.program.clone();
    let mut i: usize = 0;
    while i < cmd.args.len()
        invariant
            i <= cmd.args.len(),
            i == 0 ==> r@ == cmd.program@,
            i > 0 ==> r@ == cmd.program@ + seq![' '] + join_spaces(cmd.args_view().subrange(0, i as int)),
        decreases cmd.args.len() - i,
    {
        r.append(" ");
        r.append(cmd.args[i].as_str());
        proof {
            reveal_strlit(" ");
            assert(" "@ =~= seq![' ']);
            let pre = cmd.args_view().subrange(0, i as int);
            let cur = cmd.args_view().subrange(0, i + 1);
            assert(cur.drop_last() =~= pre);
            assert(cur.last() == cmd.args[i as int]@);
            if i > 0 {
                assert(r@ =~= cmd.program@ + seq![' '] + join_spaces(cur));
            } else {
                assert(r@ =~= cmd.program@ + seq![' '] + join_spaces(cur));
            }
        }
        i += 1;
    }
    proof {
        if cmd.args.len() > 0 {
            assert(cmd.args_view().subrange(0, cmd.args.len() as int) =~= cmd.args_view());
        }
    }
    r
}

/// What a finished child process left behind: whether it exited with status
/// zero, the rendered exit status, and the captured output streams.
#[derive(Debug)]
pub struct ProcessOutput {
    pub success: bool,
    pub status: String,
    pub stdout: String,
    pub stderr: String,
}

/// The diagnostic part of a failure message: the trimmed stderr if any,
/// then the trimmed stdout if any, and the bare exit status when both
/// streams are blank.
pub open spec fn failure_detail(status: Seq<char>, stdout: Seq<char>, stderr: Seq<char>) -> Seq<char> {
    let e = trim_spec(stderr);
    let o = trim_spec(stdout);
    if e.len() > 0 && o.len() > 0 {
        "stderr: "@ + e + "\n"@ + "stdout: "@ + o
    } else if e.len() > 0 {
        "stderr: "@ + e
    } else if o.len() > 0 {
        "stdout: "@ + o
    } else {
        "exit status: "@ + status
    }
}

/// The whole message carried by a `CommandFailed` error: the command line
/// that failed and the preferred diagnostic.
pub open spec fn failure_message(desc: Seq<char>, status: Seq<char>, stdout: Seq<char>, stderr: Seq<char>) -> Seq<char> {
    "`"@ + desc + "` failed: "@ + failure_detail(status, stdout, stderr)
}

/// Classifies a finished command's outcome.  Exit status zero returns the
/// captured output unchanged; a non-zero status becomes a `CommandFailed`
/// error whose message names the command line and quotes the trimmed
/// stderr, else the trimmed stdout, else the exit status.
pub fn run_outcome(desc: &String, out: ProcessOutput) -> (r: Result<ProcessOutput, OpError>)
    ensures
        out.success ==> r == Ok::<ProcessOutput, OpError>(out),
        !out.success ==> (match r {
            Ok(_) => false,
            Err(e) => e is CommandFailed && e.message_view() == failure_message(
                desc@,
                out.status@,
                out.stdout@,
                out.stderr@,
            ),
        }),
{
    if out.success {
        return Ok(out);
    }
    let e = trim_str(out.stderr.as_str());
    let o = trim_str(out.stdout.as_str());
    let mut m = String::from_str("`");
    m.append(desc.as_str());
    m.append("` failed: ");
    if !e.as_str().is_empty() && !o.as_str().is_empty() {
        m.append("stderr: ");
        m.append(e.as_str());
        m.append("\n");
        m.append("stdout: ");
        m.append(o.as_str());
    } else if !e.as_str().is_empty() {
        m.append("stderr: ");
        m.append(e.as_str());
    } else if !o.as_str().is_empty() {
        m.append("stdout: ");
        m.append(o.as_str());
    } else {
        m.append("exit status: ");
        m.append(out.status.as_str());
    }
    proof {
        assert(m@ =~= failure_message(desc@, out.status@, out.stdout@, out.stderr@));
    }
    Err(OpError::CommandFailed(m))
}

/// `needle` occurs contiguously somewhere in `hay`.
pub open spec fn contains_sub(hay: Seq<char>, needle: Seq<char>) -> bool {
    exists|i: int|
        0 <= i && i + needle.len() <= hay.len() && #[trigger] hay.subrange(i, i + needle.len())
            == needle
}

/// A failed command whose stderr is not blank is always reported with that
/// stderr: the failure message contains the trimmed stderr text verbatim.
pub proof fn lemma_failure_message_carries_stderr(
    desc: Seq<char>,
    status: Seq<char>,
    stdout: Seq<char>,
    stderr: Seq<char>,
)
    requires
        trim_spec(stderr).len() > 0,
    ensures
        contains_sub(failure_message(desc, status, stdout, stderr), trim_spec(stderr)),
{
    reveal_strlit("`");
    reveal_strlit("` failed: ");
    reveal_strlit("stderr: ");
    let e = trim_spec(stderr);
    let o = trim_spec(stdout);
    let msg = failure_message(desc, status, stdout, stderr);
    let pre = "`"@ + desc + "` failed: "@ + "stderr: "@;
    let i = pre.len() as int;
    if o.len() > 0 {
        let rest = "\n"@ + "stdout: "@ + o;
        assert(msg =~= pre + e + rest);
    } else {
        assert(msg =~= pre + e);
    }
    assert(msg.subrange(i, i + e.len()) =~= e);
    assert(0 <= i && i + e.len() <= msg.len() && msg.subrange(i, i + e.len()) == e);
}

/// The error reported when a program cannot be launched at all: the message
/// names the attempted command line.
pub fn spawn_failed_error(desc: &String) -> (r: OpError)
    ensures
        r is SpawnFailed,
        r.message_view() == "failed to run `"@ + desc@ + "`"@,
{
    let mut m = String::from_str("failed to run `");
    m.append(desc.as_str());
    m.append("`");
    OpError::SpawnFailed(m)
}

} // verus!
