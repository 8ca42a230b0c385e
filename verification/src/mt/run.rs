//! Command lines, and what the outcome of a command means.
//!
//! A command is run in one of two ways. Run interactively, it has the
//! caller's terminal, and only its exit status counts. Run for its answer,
//! its standard output is kept; an answer must be there, and must be text.

use vstd::prelude::*;
use vstd::string::*;
use vstd::utf8::*;
use crate::mt::error::CliError;
use crate::mt::error::Failure;
use crate::text::chain;
use crate::text::views;

verus! {

/// How a command is run.
#[derive(Debug, Clone, Copy, PartialEq, Eq, Structural)]
pub enum Convention {
    /// With the caller's standard streams.
    Interactive,
    /// With its standard output kept for the caller.
    Capture,
}

/// A command to run: the program, its arguments, and how to run it.
#[derive(Debug, Clone, PartialEq, Eq)]
pub struct Invocation {
    pub program: String,
    pub args: Vec<String>,
    pub convention: Convention,
}

/// A command as contracts see it.
pub struct CommandLine {
    pub program: Seq<char>,
    pub args: Seq<Seq<char>>,
    pub convention: Convention,
}

impl View for Invocation {
    type V = CommandLine;

    open spec fn view(&self) -> CommandLine {
        CommandLine {
            program: self.program@,
            args: views(self.args@),
            convention: self.convention,
        }
    }
}

/// How a command ended, as its runner reports it.
#[derive(Debug, Clone, PartialEq, Eq)]
pub enum Completion {
    /// It could not be started; the reason, in words.
    Unstarted(String),
    /// It ran and ended.
    Exited {
        /// Whether it ended with success.
        success: bool,
        /// Its exit status, in words.
        status: String,
        /// What it wrote to its standard output, where that was kept.
        stdout: Vec<u8>,
    },
}

/// What the standard library says of bytes that are no UTF-8.
pub uninterp spec fn utf8_fault(bytes: Seq<u8>) -> Seq<char>;

/// Turns bytes into a string with `String::from_utf8`, and the error of that
/// into its words.
///
/// Believed, not proved: the bytes are accepted exactly where they are valid
/// UTF-8, the string then has these very bytes, and the words of the error
/// depend on the bytes alone.
#[verifier::external_body]
pub(crate) fn text_of_bytes(bytes: Vec<u8>) -> (r: Result<String, String>)
    ensures
        match r {
            Ok(text) => valid_utf8(bytes@) && encode_utf8(text@) == bytes@,
            Err(why) => !valid_utf8(bytes@) && why@ == utf8_fault(bytes@),
        },
{
    String::from_utf8(bytes).map_err(|e| e.to_string())
}

/// Whether `c` is white space: a character with Unicode's property
/// White_Space.
pub open spec fn is_white_space(c: char) -> bool {
    ||| '\u{9}' <= c <= '\u{d}'
    ||| c == ' '
    ||| c == '\u{85}'
    ||| c == '\u{a0}'
    ||| c == '\u{1680}'
    ||| '\u{2000}' <= c <= '\u{200a}'
    ||| c == '\u{2028}'
    ||| c == '\u{2029}'
    ||| c == '\u{202f}'
    ||| c == '\u{205f}'
    ||| c == '\u{3000}'
}

/// A string without the white space at its start.
pub open spec fn trimmed_start(s: Seq<char>) -> Seq<char>
    decreases s.len(),
{
    if s.len() > 0 && is_white_space(s[0]) {
        trimmed_start(s.drop_first())
    } else {
        s
    }
}

/// A string without the white space at its end.
pub open spec fn trimmed_end(s: Seq<char>) -> Seq<char>
    decreases s.len(),
{
    if s.len() > 0 && is_white_space(s.last()) {
        trimmed_end(s.drop_last())
    } else {
        s
    }
}

/// A string without the white space at its two ends.
pub open spec fn trimmed(s: Seq<char>) -> Seq<char> {
    trimmed_end(trimmed_start(s))
}

/// Takes the white space off both ends of a string with `str::trim`.
///
/// Believed, not proved: the result is the string without the characters of
/// the property White_Space that stand at its start and at its end.
#[verifier::external_body]
pub(crate) fn trim<'a>(s: &'a str) -> (r: &'a str)
    ensures
        r@ == trimmed(s@),
{
    s.trim()
}

/// Tells whether `c` is white space.
pub fn white_space(c: char) -> (r: bool)
    ensures
        r == is_white_space(c),
{
    ('\u{9}' <= c && c <= '\u{d}') || c == ' ' || c == '\u{85}' || c == '\u{a0}' || c
        == '\u{1680}' || ('\u{2000}' <= c && c <= '\u{200a}') || c == '\u{2028}' || c
        == '\u{2029}' || c == '\u{202f}' || c == '\u{205f}' || c == '\u{3000}'
}

/// Adds one argument to a list of arguments.
pub(crate) fn push_arg(args: &mut Vec<String>, arg: &str)
    ensures
        views(final(args)@) == views(old(args)@).push(arg@),
{
    let owned = String::from_str(arg);
    proof {
        assert(views(args@.push(owned)) =~= views(args@).push(arg@));
    }
    args.push(owned);
}

/// No arguments yet.
pub(crate) fn no_args() -> (args: Vec<String>)
    ensures
        views(args@) == Seq::<Seq<char>>::empty(),
{
    let args: Vec<String> = Vec::new();
    proof {
        assert(views(args@) =~= Seq::<Seq<char>>::empty());
    }
    args
}

/// The words that tell of a command that ended with a failure.
pub open spec fn failed_with(status: Seq<char>) -> Seq<char> {
    "Command failed with exit code: "@ + status
}

/// `bash -c <command>`.
pub open spec fn shell_line(command: Seq<char>, convention: Convention) -> CommandLine {
    CommandLine { program: "bash"@, args: seq!["-c"@, command], convention }
}

/// `docker exec -it <container> bash -c <command>`, with a terminal.
pub open spec fn dexec_line(container_id: Seq<char>, command: Seq<char>) -> CommandLine {
    CommandLine {
        program: "docker"@,
        args: seq!["exec"@, "-it"@, container_id, "bash"@, "-c"@, command],
        convention: Convention::Interactive,
    }
}

/// `docker exec <container> bash -c <command>`, for its answer.
pub open spec fn dexec_capture_line(container_id: Seq<char>, command: Seq<char>) -> CommandLine {
    CommandLine {
        program: "docker"@,
        args: seq!["exec"@, container_id, "bash"@, "-c"@, command],
        convention: Convention::Capture,
    }
}

/// A shell command on this machine, run interactively.
pub fn sh(command: &str) -> (r: Invocation)
    ensures
        r@ == shell_line(command@, Convention::Interactive),
{
    let mut args = no_args();
    push_arg(&mut args, "-c");
    push_arg(&mut args, command);
    proof {
        assert(views(args@) =~= seq!["-c"@, command@]);
    }
    Invocation { program: String::from_str("bash"), args, convention: Convention::Interactive }
}

/// A shell command on this machine, run for its answer.
pub fn sh_capture(command: &str) -> (r: Invocation)
    ensures
        r@ == shell_line(command@, Convention::Capture),
{
    let mut args = no_args();
    push_arg(&mut args, "-c");
    push_arg(&mut args, command);
    proof {
        assert(views(args@) =~= seq!["-c"@, command@]);
    }
    Invocation { program: String::from_str("bash"), args, convention: Convention::Capture }
}

/// A shell command inside a container, run interactively.
pub fn dexec(container_id: &str, command: &str) -> (r: Invocation)
    ensures
        r@ == dexec_line(container_id@, command@),
{
    let mut args = no_args();
    push_arg(&mut args, "exec");
    push_arg(&mut args, "-it");
    push_arg(&mut args, container_id);
    push_arg(&mut args, "bash");
    push_arg(&mut args, "-c");
    push_arg(&mut args, command);
    proof {
        assert(views(args@) =~= seq!["exec"@, "-it"@, container_id@, "bash"@, "-c"@, command@]);
    }
    Invocation { program: String::from_str("docker"), args, convention: Convention::Interactive }
}

/// A shell command inside a container, run for its answer.
pub fn dexec_capture(container_id: &str, command: &str) -> (r: Invocation)
    ensures
        r@ == dexec_capture_line(container_id@, command@),
{
    let mut args = no_args();
    push_arg(&mut args, "exec");
    push_arg(&mut args, container_id);
    push_arg(&mut args, "bash");
    push_arg(&mut args, "-c");
    push_arg(&mut args, command);
    proof {
        assert(views(args@) =~= seq!["exec"@, container_id@, "bash"@, "-c"@, command@]);
    }
    Invocation { program: String::from_str("docker"), args, convention: Convention::Capture }
}

/// What the end of an interactive command means: a failure where it could
/// not be started or did not end with success.
pub open spec fn interactive_outcome(done: Completion) -> Result<(), Failure> {
    match done {
        Completion::Unstarted(why) => Err(Failure::Command(why@)),
        Completion::Exited { success, status, stdout } => if success {
            Ok(())
        } else {
            Err(Failure::Command(failed_with(status@)))
        },
    }
}

/// What the end of a command that was run for its answer means: the answer
/// as text, or a failure where the command could not be started, did not end
/// with success, printed nothing, or printed what is no UTF-8.
pub open spec fn capture_outcome(done: Completion) -> Result<Seq<char>, Failure> {
    match done {
        Completion::Unstarted(why) => Err(Failure::Command(why@)),
        Completion::Exited { success, status, stdout } => if !success {
            Err(Failure::Command(failed_with(status@)))
        } else if stdout@.len() == 0 {
            Err(Failure::EmptyOutput)
        } else if !valid_utf8(stdout@) {
            Err(Failure::InvalidUtf8(utf8_fault(stdout@)))
        } else {
            Ok(decode_utf8(stdout@))
        },
    }
}

/// Judges the end of an interactive command.
pub fn execute_interactive(done: Completion) -> (r: Result<(), CliError>)
    ensures
        match r {
            Ok(()) => interactive_outcome(done) == Ok::<(), Failure>(()),
            Err(e) => interactive_outcome(done) == Err::<(), Failure>(e@),
        },
{
    match done {
        Completion::Unstarted(why) => Err(CliError::Command(why)),
        Completion::Exited { success, status, stdout } => {
            if success {
                Ok(())
            } else {
                Err(CliError::Command(chain("Command failed with exit code: ", status.as_str())))
            }
        },
    }
}

/// Judges the end of a command that was run for its answer.
pub fn execute_capture(done: Completion) -> (r: Result<String, CliError>)
    ensures
        match r {
            Ok(answer) => capture_outcome(done) == Ok::<Seq<char>, Failure>(answer@),
            Err(e) => capture_outcome(done) == Err::<Seq<char>, Failure>(e@),
        },
{
    broadcast use group_utf8_lib;

    match done {
        Completion::Unstarted(why) => Err(CliError::Command(why)),
        Completion::Exited { success, status, stdout } => {
            if !success {
                return Err(
                    CliError::Command(chain("Command failed with exit code: ", status.as_str())),
                );
            }
            if stdout.len() == 0 {
                return Err(CliError::EmptyOutput);
            }
            match text_of_bytes(stdout) {
                Ok(answer) => {
                    assert(decode_utf8(encode_utf8(answer@)) == answer@);
                    Ok(answer)
                },
                Err(why) => Err(CliError::InvalidUtf8(why)),
            }
        },
    }
}

} // verus!
