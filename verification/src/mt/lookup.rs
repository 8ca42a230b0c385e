//! Asking git for the worktree and docker for a container.

use vstd::prelude::*;
use vstd::string::*;
use vstd::utf8::*;
use crate::mt::error::CliError;
use crate::mt::error::Failure;
use crate::mt::run::no_args;
use crate::mt::run::push_arg;
use crate::mt::run::text_of_bytes;
use crate::mt::run::trim;
use crate::mt::run::trimmed;
use crate::mt::run::is_white_space;
use crate::mt::run::white_space;
use crate::mt::run::utf8_fault;
use crate::mt::run::CommandLine;
use crate::mt::run::Completion;
use crate::mt::run::Convention;
use crate::mt::run::Invocation;
use crate::text::chain;
use crate::text::views;

verus! {

/// Whether `s` is one word: no white space stands in it.
pub open spec fn one_word(s: Seq<char>) -> bool {
    forall|i: int| 0 <= i < s.len() ==> !is_white_space(#[trigger] s[i])
}

/// Tells whether `s` is one word.
pub fn is_one_word(s: &str) -> (r: bool)
    ensures
        r == one_word(s@),
{
    let mut whole = true;
    for c in it: s.chars()
        invariant
            it.seq() == s@,
            whole == one_word(s@.take(it.index() as int)),
    {
        proof {
            let seen = s@.take(it.index() as int + 1);
            assert(seen.drop_last() =~= s@.take(it.index() as int));
            assert(seen.last() == c);
        }
        if white_space(c) {
            whole = false;
        }
    }
    proof {
        assert(s@.take(s@.len() as int) =~= s@);
    }
    whole
}

/// `docker ps -q --filter name=<name>`: the identifiers of the running
/// containers whose name holds `name`.
pub open spec fn container_query_line(name: Seq<char>) -> CommandLine {
    CommandLine {
        program: "docker"@,
        args: seq!["ps"@, "-q"@, "--filter"@, "name="@ + name],
        convention: Convention::Capture,
    }
}

/// The command that asks docker for the container of the given name.
pub fn container_query(name: &str) -> (r: Invocation)
    ensures
        r@ == container_query_line(name@),
{
    let filter = chain("name=", name);
    let mut args = no_args();
    push_arg(&mut args, "ps");
    push_arg(&mut args, "-q");
    push_arg(&mut args, "--filter");
    push_arg(&mut args, filter.as_str());
    proof {
        assert(views(args@) =~= seq!["ps"@, "-q"@, "--filter"@, "name="@ + name@]);
    }
    Invocation { program: String::from_str("docker"), args, convention: Convention::Capture }
}

/// Said where docker lists more than one container.
pub const SEVERAL: &'static str = "docker ps listed more than one container";

/// What docker's answer means: the container's identifier, which is the
/// answer without the white space around it. No answer, or one of white
/// space alone, is the failure `EmptyOutput`: no such container runs. An
/// answer of several words is a failure too: docker lists one identifier
/// per line, and exactly one container is asked for.
pub open spec fn container_id_outcome(done: Completion) -> Result<Seq<char>, Failure> {
    match done {
        Completion::Unstarted(why) => Err(
            Failure::Docker("Failed to execute docker ps: "@ + why@),
        ),
        Completion::Exited { success, status, stdout } => if !success {
            Err(Failure::Docker("docker ps failed with exit code: "@ + status@))
        } else if !valid_utf8(stdout@) {
            Err(Failure::Docker("Invalid UTF-8 from docker: "@ + utf8_fault(stdout@)))
        } else if trimmed(decode_utf8(stdout@)).len() == 0 {
            Err(Failure::EmptyOutput)
        } else if !one_word(trimmed(decode_utf8(stdout@))) {
            Err(Failure::Docker(SEVERAL@))
        } else {
            Ok(trimmed(decode_utf8(stdout@)))
        },
    }
}

/// Reads the container's identifier from docker's answer.
pub fn get_container_id(done: Completion) -> (r: Result<String, CliError>)
    ensures
        match r {
            Ok(id) => container_id_outcome(done) == Ok::<Seq<char>, Failure>(id@),
            Err(e) => container_id_outcome(done) == Err::<Seq<char>, Failure>(e@),
        },
{
    broadcast use group_utf8_lib;

    match done {
        Completion::Unstarted(why) => Err(
            CliError::Docker(chain("Failed to execute docker ps: ", why.as_str())),
        ),
        Completion::Exited { success, status, stdout } => {
            if !success {
                return Err(
                    CliError::Docker(chain("docker ps failed with exit code: ", status.as_str())),
                );
            }
            let answer = match text_of_bytes(stdout) {
                Ok(answer) => answer,
                Err(why) => {
                    return Err(
                        CliError::Docker(chain("Invalid UTF-8 from docker: ", why.as_str())),
                    );
                },
            };
            proof {
                assert(decode_utf8(encode_utf8(answer@)) == answer@);
            }
            let id = trim(answer.as_str());
            if id.is_empty() {
                return Err(CliError::EmptyOutput);
            }
            if !is_one_word(id) {
                return Err(CliError::Docker(String::from_str(SEVERAL)));
            }
            Ok(id.to_owned())
        },
    }
}

/// `git rev-parse --show-toplevel`: the root of the worktree that the tool
/// is called in.
pub open spec fn worktree_query_line() -> CommandLine {
    CommandLine {
        program: "git"@,
        args: seq!["rev-parse"@, "--show-toplevel"@],
        convention: Convention::Capture,
    }
}

/// The command that asks git for the worktree.
pub fn worktree_query() -> (r: Invocation)
    ensures
        r@ == worktree_query_line(),
{
    let mut args = no_args();
    push_arg(&mut args, "rev-parse");
    push_arg(&mut args, "--show-toplevel");
    proof {
        assert(views(args@) =~= seq!["rev-parse"@, "--show-toplevel"@]);
    }
    Invocation { program: String::from_str("git"), args, convention: Convention::Capture }
}

/// What git's answer means: the worktree's path, which is the answer
/// without the white space around it.
pub open spec fn worktree_outcome(done: Completion) -> Result<Seq<char>, Failure> {
    match done {
        Completion::Unstarted(why) => Err(
            Failure::Git("Failed to execute git rev-parse: "@ + why@),
        ),
        Completion::Exited { success, status, stdout } => if !success {
            Err(Failure::Git("git rev-parse failed with exit code: "@ + status@))
        } else if !valid_utf8(stdout@) {
            Err(Failure::Git("Invalid UTF-8 from git: "@ + utf8_fault(stdout@)))
        } else if trimmed(decode_utf8(stdout@)).len() == 0 {
            Err(Failure::Git("No git worktree found"@))
        } else {
            Ok(trimmed(decode_utf8(stdout@)))
        },
    }
}

/// Reads the worktree's path from git's answer.
pub fn git_worktree_path(done: Completion) -> (r: Result<String, CliError>)
    ensures
        match r {
            Ok(path) => worktree_outcome(done) == Ok::<Seq<char>, Failure>(path@),
            Err(e) => worktree_outcome(done) == Err::<Seq<char>, Failure>(e@),
        },
{
    broadcast use group_utf8_lib;

    match done {
        Completion::Unstarted(why) => Err(
            CliError::Git(chain("Failed to execute git rev-parse: ", why.as_str())),
        ),
        Completion::Exited { success, status, stdout } => {
            if !success {
                return Err(
                    CliError::Git(
                        chain("git rev-parse failed with exit code: ", status.as_str()),
                    ),
                );
            }
            let answer = match text_of_bytes(stdout) {
                Ok(answer) => answer,
                Err(why) => {
                    return Err(CliError::Git(chain("Invalid UTF-8 from git: ", why.as_str())));
                },
            };
            proof {
                assert(decode_utf8(encode_utf8(answer@)) == answer@);
            }
            let path = trim(answer.as_str());
            if path.is_empty() {
                return Err(CliError::Git(String::from_str("No git worktree found")));
            }
            Ok(path.to_owned())
        },
    }
}

/// Where docker lists no container, the lookup fails with `EmptyOutput`,
/// whatever else the command reported.
pub proof fn no_container_is_empty_output(done: Completion)
    requires
        done matches Completion::Exited { success, status, stdout } && success && stdout@.len()
            == 0,
    ensures
        container_id_outcome(done) == Err::<Seq<char>, Failure>(Failure::EmptyOutput),
{
    reveal_with_fuel(valid_utf8, 1);
    reveal_with_fuel(decode_utf8, 1);
    assert(done->stdout@ =~= Seq::<u8>::empty());
}

/// The identifier that a lookup gives is one word, and not an empty one.
pub proof fn container_id_is_one_word(done: Completion)
    requires
        container_id_outcome(done) is Ok,
    ensures
        container_id_outcome(done)->Ok_0.len() > 0,
        one_word(container_id_outcome(done)->Ok_0),
{
}

/// A word is its own trimming: white space stands at neither end of it.
pub proof fn word_is_its_own_trimming(s: Seq<char>)
    requires
        one_word(s),
    ensures
        trimmed(s) == s,
{
    if s.len() > 0 {
        assert(!is_white_space(s[0]));
        assert(!is_white_space(s[s.len() - 1]));
    }
}

} // verus!
