//! The commands that a development container asks to be run in it once it
//! is made and each time it starts.

use vstd::prelude::*;
use vstd::string::*;
use crate::mt::error::CliError;
use crate::mt::error::Failure;
use crate::mt::run::dexec;
use crate::mt::run::dexec_line;
use crate::mt::run::execute_interactive;
use crate::mt::run::interactive_outcome;
use crate::mt::run::Completion;
use crate::mt::run::CommandLine;
use crate::mt::run::Invocation;
use crate::text::chain;

verus! {

/// The name of the container's configuration document, in the directory of
/// the development container.
pub const CONFIG_FILE: &'static str = "devcontainer.json";

/// What stands under `key` at the top of the JSON document `document`, where
/// that is a string; `None` where nothing stands there, or no string. An
/// error, in the parser's words, where the document is no JSON.
pub uninterp spec fn json_string_member(document: Seq<char>, key: Seq<char>) -> Result<Option<Seq<char>>, Seq<char>>;

/// Parses `document` with `serde_json::from_str`, looks `key` up with the
/// index operator of `Value`, and takes the string with `Value::as_str`.
///
/// Believed, not proved: the answer depends on the document and the key
/// alone.
#[verifier::external_body]
pub(crate) fn string_member(document: &str, key: &str) -> (r: Result<Option<String>, String>)
    ensures
        match r {
            Ok(Some(found)) => json_string_member(document@, key@) == Ok::<
                Option<Seq<char>>,
                Seq<char>,
            >(Some(found@)),
            Ok(None) => json_string_member(document@, key@) == Ok::<Option<Seq<char>>, Seq<char>>(
                None,
            ),
            Err(why) => json_string_member(document@, key@) == Err::<Option<Seq<char>>, Seq<char>>(
                why@,
            ),
        },
{
    match serde_json::from_str::<serde_json::Value>(document) {
        Ok(value) => Ok(value[key].as_str().map(|s| s.to_string())),
        Err(e) => Err(e.to_string()),
    }
}

/// The command lines of a list of commands.
pub open spec fn lines(commands: Seq<Invocation>) -> Seq<CommandLine> {
    Seq::new(commands.len(), |i: int| commands[i]@)
}

/// The command for a lifecycle entry, where the configuration has it.
pub open spec fn entry(container_id: Seq<char>, command: Option<Seq<char>>) -> Seq<CommandLine> {
    match command {
        Some(command) => seq![dexec_line(container_id, command)],
        None => Seq::empty(),
    }
}

/// The words that tell of a configuration that is no JSON.
pub open spec fn invalid(why: Seq<char>) -> Failure {
    Failure::Docker("Invalid devcontainer.json: "@ + why)
}

/// The commands to run in the container, in order: what the configuration
/// names as `postCreateCommand`, then what it names as `postStartCommand`,
/// each only where it is a string. A failure where the configuration could
/// not be read or is no JSON.
pub open spec fn lifecycle_plan(container_id: Seq<char>, config: Result<String, String>) -> Result<
    Seq<CommandLine>,
    Failure,
> {
    match config {
        Err(why) => Err(Failure::Docker("Failed to read devcontainer.json: "@ + why@)),
        Ok(document) => match json_string_member(document@, "postCreateCommand"@) {
            Err(why) => Err(invalid(why)),
            Ok(created) => match json_string_member(document@, "postStartCommand"@) {
                Err(why) => Err(invalid(why)),
                Ok(started) => Ok(entry(container_id, created) + entry(container_id, started)),
            },
        },
    }
}

/// Plans the lifecycle commands of the container `container_id` from its
/// configuration document, or from the reason why that could not be read.
/// The commands are interactive; each is to be run only if the one before it
/// succeeded.
pub fn run_lifecycle_commands(container_id: &str, config: Result<String, String>) -> (r: Result<
    Vec<Invocation>,
    CliError,
>)
    ensures
        match r {
            Ok(commands) => lifecycle_plan(container_id@, config) == Ok::<
                Seq<CommandLine>,
                Failure,
            >(lines(commands@)),
            Err(e) => lifecycle_plan(container_id@, config) == Err::<Seq<CommandLine>, Failure>(e@),
        },
{
    let document = match config {
        Ok(document) => document,
        Err(why) => {
            return Err(
                CliError::Docker(chain("Failed to read devcontainer.json: ", why.as_str())),
            );
        },
    };
    let created = match string_member(document.as_str(), "postCreateCommand") {
        Ok(created) => created,
        Err(why) => {
            return Err(CliError::Docker(chain("Invalid devcontainer.json: ", why.as_str())));
        },
    };
    let started = match string_member(document.as_str(), "postStartCommand") {
        Ok(started) => started,
        Err(why) => {
            return Err(CliError::Docker(chain("Invalid devcontainer.json: ", why.as_str())));
        },
    };
    let mut commands: Vec<Invocation> = Vec::new();
    proof {
        assert(lines(commands@) =~= Seq::<CommandLine>::empty());
    }
    let ghost first = json_string_member(document@, "postCreateCommand"@)->Ok_0;
    let ghost second = json_string_member(document@, "postStartCommand"@)->Ok_0;
    if let Some(command) = created {
        let run = dexec(container_id, command.as_str());
        proof {
            assert(lines(commands@.push(run)) =~= entry(container_id@, first));
        }
        commands.push(run);
    }
    assert(lines(commands@) =~= entry(container_id@, first));
    if let Some(command) = started {
        let run = dexec(container_id, command.as_str());
        proof {
            assert(lines(commands@.push(run)) =~= lines(commands@) + entry(container_id@, second));
        }
        commands.push(run);
    }
    assert(lines(commands@) =~= entry(container_id@, first) + entry(container_id@, second));
    Ok(commands)
}

/// What to do next with the lifecycle commands.
#[derive(Debug, PartialEq, Eq)]
pub enum Lifecycle {
    /// Run this command, then come back with how it ended and with the
    /// commands that are left.
    Run { command: Invocation, left: Vec<Invocation> },
    /// Nothing more: all commands succeeded, or one failed.
    Finish(Result<(), CliError>),
}

/// What to do next, as contracts see it.
pub enum LifecycleMove {
    Run { command: CommandLine, left: Seq<CommandLine> },
    Finish(Result<(), Failure>),
}

impl View for Lifecycle {
    type V = LifecycleMove;

    open spec fn view(&self) -> LifecycleMove {
        match self {
            Lifecycle::Run { command, left } => LifecycleMove::Run {
                command: command@,
                left: lines(left@),
            },
            Lifecycle::Finish(Ok(())) => LifecycleMove::Finish(Ok(())),
            Lifecycle::Finish(Err(e)) => LifecycleMove::Finish(Err(e@)),
        }
    }
}

/// The next of the lifecycle commands: a command that failed ends them with
/// its failure, and none of those left is run; else the first of those left
/// is run; with none left, they end well.
pub open spec fn lifecycle_next(left: Seq<CommandLine>, last: Option<Completion>) -> LifecycleMove {
    match last {
        Some(done) if interactive_outcome(done) is Err => LifecycleMove::Finish(
            interactive_outcome(done),
        ),
        _ => if left.len() == 0 {
            LifecycleMove::Finish(Ok(()))
        } else {
            LifecycleMove::Run { command: left[0], left: left.drop_first() }
        },
    }
}

/// Goes on with the lifecycle commands `left`, given how the one before
/// them ended, or `None` where none has run yet.
pub fn next_lifecycle_command(left: Vec<Invocation>, last: Option<Completion>) -> (r: Lifecycle)
    ensures
        r@ == lifecycle_next(lines(left@), last),
{
    if let Some(done) = last {
        if let Err(e) = execute_interactive(done) {
            return Lifecycle::Finish(Err(e));
        }
    }
    let mut left = left;
    let ghost before = left@;
    if left.len() == 0 {
        return Lifecycle::Finish(Ok(()));
    }
    let command = left.remove(0);
    proof {
        assert(lines(left@) =~= lines(before).drop_first());
    }
    Lifecycle::Run { command, left }
}

} // verus!
