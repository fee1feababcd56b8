//! The process runner, as far as it is a matter of text: what is handed back
//! for a command once its output has been captured.
//!
//! Starting the process and draining its two streams is the caller's work.
//! Each stream is captured line by line; this module says how a line enters
//! the record of its stream and how the two records and the exit code make up
//! the result.
use crate::text::{i32_to_string, signed_decimal, texts};
use vstd::prelude::*;
use vstd::string::*;

verus! {

/// The program that runs a command and the flag under which it takes it.
#[derive(Debug, Clone, Copy)]
pub struct Interpreter {
    pub program: &'static str,
    pub flag: &'static str,
}

/// The record of a stream that gave `lines`, in this order: each line,
/// followed by a line feed.
pub open spec fn recorded(lines: Seq<Seq<char>>) -> Seq<char>
    decreases lines.len(),
{
    if lines.len() == 0 {
        Seq::empty()
    } else {
        recorded(lines.drop_last()) + lines.last() + "\n"@
    }
}

/// The line that tells of an exit code other than zero.
pub open spec fn exit_marker(code: int) -> Seq<char> {
    "\n--- Process exited with code: "@ + signed_decimal(code) + " ---\n"@
}

/// What is handed back for a command: all that it wrote to its standard
/// output, then all that it wrote to its standard error, then, if it ended
/// with an exit code other than zero, the line that says so.
pub open spec fn captured(stdout: Seq<Seq<char>>, stderr: Seq<Seq<char>>, code: Option<i32>) -> Seq<
    char,
> {
    recorded(stdout) + recorded(stderr) + match code {
        Some(c) => if c != 0 {
            exit_marker(c as int)
        } else {
            Seq::empty()
        },
        None => Seq::empty(),
    }
}

/// Runs shell commands.
pub struct ShellExecutor;

impl ShellExecutor {
    /// The command interpreter of the platform: `cmd /C` on Windows, `sh -c`
    /// elsewhere.
    pub fn interpreter(windows: bool) -> (shell: Interpreter)
        ensures
            shell.program@ == (if windows {
                "cmd"@
            } else {
                "sh"@
            }),
            shell.flag@ == (if windows {
                "/C"@
            } else {
                "-c"@
            }),
    {
        if windows {
            Interpreter { program: "cmd", flag: "/C" }
        } else {
            Interpreter { program: "sh", flag: "-c" }
        }
    }

    /// Adds `line` to the record of its stream.
    pub fn record_line(record: &mut String, line: &str)
        ensures
            final(record)@ == old(record)@ + line@ + "\n"@,
    {
        record.append(line);
        record.append("\n");
    }

    /// The line that tells of the exit code `code`.
    pub fn exit_marker(code: i32) -> (marker: String)
        ensures
            marker@ == exit_marker(code as int),
    {
        let mut marker = String::from_str("\n--- Process exited with code: ");
        marker.append(i32_to_string(code).as_str());
        marker.append(" ---\n");
        marker
    }

    /// What is handed back for a command that wrote the lines `stdout` to its
    /// standard output and the lines `stderr` to its standard error, and
    /// ended with the exit code `code`, if it ended with one.
    pub fn execute(stdout: &Vec<String>, stderr: &Vec<String>, code: Option<i32>) -> (output: String)
        ensures
            output@ == captured(texts(stdout@), texts(stderr@), code),
    {
        let mut output = String::new();
        let mut i: usize = 0;
        while i < stdout.len()
            invariant
                i <= stdout.len(),
                output@ == recorded(texts(stdout@).take(i as int)),
            decreases stdout.len() - i,
        {
            proof {
                assert(texts(stdout@).take(i + 1).drop_last() =~= texts(stdout@).take(i as int));
            }
            ShellExecutor::record_line(&mut output, stdout[i].as_str());
            i += 1;
        }
        proof {
            assert(texts(stdout@).take(stdout.len() as int) =~= texts(stdout@));
        }
        let mut k: usize = 0;
        while k < stderr.len()
            invariant
                k <= stderr.len(),
                output@ == recorded(texts(stdout@)) + recorded(texts(stderr@).take(k as int)),
            decreases stderr.len() - k,
        {
            proof {
                assert(texts(stderr@).take(k + 1).drop_last() =~= texts(stderr@).take(k as int));
            }
            ShellExecutor::record_line(&mut output, stderr[k].as_str());
            k += 1;
        }
        proof {
            assert(texts(stderr@).take(stderr.len() as int) =~= texts(stderr@));
        }
        if let Some(c) = code {
            if c != 0 {
                output.append(ShellExecutor::exit_marker(c).as_str());
            }
        }
        output
    }
}

/// Whether `part` stands somewhere in `whole`.
pub open spec fn holds(whole: Seq<char>, part: Seq<char>) -> bool {
    exists|at: int| 0 <= at && at + part.len() <= whole.len() && #[trigger] whole.subrange(
        at,
        at + part.len(),
    ) == part
}

/// Every line of a stream stands in its record, followed by a line feed.
pub proof fn lemma_record_holds_line(lines: Seq<Seq<char>>, i: int)
    requires
        0 <= i < lines.len(),
    ensures
        holds(recorded(lines), lines[i] + "\n"@),
    decreases lines.len(),
{
    let whole = recorded(lines);
    let earlier = recorded(lines.drop_last());
    if i == lines.len() - 1 {
        let part = lines[i] + "\n"@;
        assert(whole.subrange(earlier.len() as int, (earlier.len() + part.len()) as int) =~= part);
    } else {
        lemma_record_holds_line(lines.drop_last(), i);
        let part = lines.drop_last()[i] + "\n"@;
        let at = choose|at: int|
            0 <= at && at + part.len() <= earlier.len() && #[trigger] earlier.subrange(
                at,
                at + part.len(),
            ) == part;
        assert(whole.subrange(at, at + part.len()) =~= earlier.subrange(at, at + part.len()));
    }
}

/// Nothing that a command wrote is dropped: every line of either stream
/// stands in the result, and the result of a command that ended with an exit
/// code other than zero ends with the line that names the code.
pub proof fn law_output_is_kept(stdout: Seq<Seq<char>>, stderr: Seq<Seq<char>>, code: Option<i32>)
    ensures
        forall|i: int|
            0 <= i < stdout.len() ==> holds(
                captured(stdout, stderr, code),
                #[trigger] stdout[i] + "\n"@,
            ),
        forall|i: int|
            0 <= i < stderr.len() ==> holds(
                captured(stdout, stderr, code),
                #[trigger] stderr[i] + "\n"@,
            ),
        code is Some && code.unwrap() != 0 ==> holds(
            captured(stdout, stderr, code),
            exit_marker(code.unwrap() as int),
        ),
{
    let whole = captured(stdout, stderr, code);
    let out = recorded(stdout);
    let err = recorded(stderr);
    assert forall|i: int| 0 <= i < stdout.len() implies holds(whole, #[trigger] stdout[i] + "\n"@) by {
        lemma_record_holds_line(stdout, i);
        let part = stdout[i] + "\n"@;
        let at = choose|at: int|
            0 <= at && at + part.len() <= out.len() && #[trigger] out.subrange(at, at + part.len())
                == part;
        assert(whole.subrange(at, at + part.len()) =~= out.subrange(at, at + part.len()));
    }
    assert forall|i: int| 0 <= i < stderr.len() implies holds(whole, #[trigger] stderr[i] + "\n"@) by {
        lemma_record_holds_line(stderr, i);
        let part = stderr[i] + "\n"@;
        let at = choose|at: int|
            0 <= at && at + part.len() <= err.len() && #[trigger] err.subrange(at, at + part.len())
                == part;
        assert(whole.subrange(out.len() + at, out.len() + at + part.len()) =~= err.subrange(
            at,
            at + part.len(),
        ));
    }
    if code is Some && code.unwrap() != 0 {
        let marker = exit_marker(code.unwrap() as int);
        let at = out.len() + err.len();
        assert(whole.subrange(at as int, (at + marker.len()) as int) =~= marker);
    }
}

} // verus!
