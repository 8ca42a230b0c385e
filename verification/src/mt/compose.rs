//! Which compose files apply, and the compose commands over them.
//!
//! The files are looked for in a fixed order: the project's base file, the
//! project's own override, the user's override. The base file must be there;
//! an override that is missing is passed over. Later files override earlier
//! ones, so the order of the files is the order of the `-f` arguments.

use vstd::prelude::*;
use vstd::string::*;
use crate::mt::error::CliError;
use crate::mt::error::Failure;
use crate::mt::run::no_args;
use crate::mt::run::push_arg;
use crate::mt::run::CommandLine;
use crate::mt::run::Completion;
use crate::mt::run::Convention;
use crate::mt::run::Invocation;
use crate::text::chain;
use crate::text::views;

verus! {

/// The base file, relative to the worktree.
pub const BASE_FILE: &'static str = ".devcontainer/docker-compose.yml";

/// The project's override, relative to the worktree.
pub const PROJECT_OVERRIDE: &'static str = ".devcontainer/docker-compose.override.yml";

/// The user's override, relative to the user's home directory.
pub const USER_OVERRIDE: &'static str = ".tolconfig/docker-compose.override.yml";

/// The name of the compose project.
pub const PROJECT: &'static str = "minitol";

/// Said where the project's override is used.
pub const PROJECT_NOTICE: &'static str =
    "\x1b[33m⚠️  Using ./.devcontainer/docker-compose.override.yml as an override.\n\tBase: ./.devcontainer/docker-compose.yml\x1b[0m";

/// Said where a further override is used.
pub const USER_NOTICE: &'static str =
    "\x1b[33m⚠️  Using ~/.tolconfig/docker-compose.override.yml as an additional override.\x1b[0m";

/// Said where no override is used.
pub const BASE_NOTICE: &'static str =
    "\x1b[33m⚠️  Using base ./.devcontainer/docker-compose.yml (no overrides found).\x1b[0m";

/// The directory that a compose file is looked for in.
#[derive(Debug, Clone, Copy, PartialEq, Eq, Structural)]
pub enum Root {
    Worktree,
    Home,
}

/// A place to look for a compose file.
#[derive(Debug, Clone, PartialEq, Eq)]
pub struct Candidate {
    pub root: Root,
    pub relative: String,
}

/// The places to look in, in the order of precedence: the base file first,
/// then the overrides, each overriding what comes before it.
pub fn compose_candidates() -> (r: Vec<Candidate>)
    ensures
        r@.len() == 3,
        r@[0].root == Root::Worktree && r@[0].relative@ == BASE_FILE@,
        r@[1].root == Root::Worktree && r@[1].relative@ == PROJECT_OVERRIDE@,
        r@[2].root == Root::Home && r@[2].relative@ == USER_OVERRIDE@,
{
    let mut r: Vec<Candidate> = Vec::new();
    r.push(Candidate { root: Root::Worktree, relative: String::from_str(BASE_FILE) });
    r.push(Candidate { root: Root::Worktree, relative: String::from_str(PROJECT_OVERRIDE) });
    r.push(Candidate { root: Root::Home, relative: String::from_str(USER_OVERRIDE) });
    r
}

/// A place that was looked in: the file's full path, and whether it is there.
#[derive(Debug, Clone, PartialEq, Eq)]
pub struct Probed {
    pub path: String,
    pub exists: bool,
}

/// What was found of the compose files: the base file, and the overrides in
/// the order of precedence. An override whose directory is not known is left
/// out.
#[derive(Debug, Clone, PartialEq, Eq)]
pub struct ComposeProbes {
    pub base: Probed,
    pub overrides: Vec<Probed>,
}

/// The paths of the overrides that are there, in order.
pub open spec fn existing(overrides: Seq<Probed>) -> Seq<Seq<char>>
    decreases overrides.len(),
{
    if overrides.len() == 0 {
        Seq::empty()
    } else if overrides.last().exists {
        existing(overrides.drop_last()).push(overrides.last().path@)
    } else {
        existing(overrides.drop_last())
    }
}

/// The compose files to use: the base file, there or not, then the overrides
/// that are there.
pub open spec fn preferred(probes: ComposeProbes) -> Seq<Seq<char>> {
    seq![probes.base.path@] + existing(probes.overrides@)
}

/// What to tell the user of each override that is there: the project's own
/// comes first in the list, any other is a further one.
pub open spec fn override_notices(overrides: Seq<Probed>) -> Seq<Seq<char>>
    decreases overrides.len(),
{
    if overrides.len() == 0 {
        Seq::empty()
    } else if overrides.last().exists {
        override_notices(overrides.drop_last()).push(
            if overrides.len() == 1 {
                PROJECT_NOTICE@
            } else {
                USER_NOTICE@
            },
        )
    } else {
        override_notices(overrides.drop_last())
    }
}

/// What to tell the user of the files that are used.
pub open spec fn notices(probes: ComposeProbes) -> Seq<Seq<char>> {
    if override_notices(probes.overrides@).len() == 0 {
        seq![BASE_NOTICE@]
    } else {
        override_notices(probes.overrides@)
    }
}

/// Picks the compose files to use.
pub fn preferred_compose_paths(probes: &ComposeProbes) -> (files: Vec<String>)
    ensures
        views(files@) == preferred(*probes),
        files@.len() >= 1,
{
    let mut files: Vec<String> = Vec::new();
    files.push(probes.base.path.clone());
    let mut i: usize = 0;
    proof {
        assert(probes.overrides@.take(0) =~= Seq::<Probed>::empty());
        assert(views(files@) =~= seq![probes.base.path@] + existing(probes.overrides@.take(0)));
    }
    while i < probes.overrides.len()
        invariant
            i <= probes.overrides.len(),
            files@.len() >= 1,
            views(files@) == seq![probes.base.path@] + existing(probes.overrides@.take(i as int)),
        decreases probes.overrides.len() - i,
    {
        proof {
            let seen = probes.overrides@.take(i as int + 1);
            assert(seen.drop_last() =~= probes.overrides@.take(i as int));
            assert(seen.last() == probes.overrides@[i as int]);
        }
        if probes.overrides[i].exists {
            let path = probes.overrides[i].path.clone();
            proof {
                assert(views(files@.push(path)) =~= views(files@).push(path@));
                assert(views(files@).push(path@) =~= seq![probes.base.path@] + existing(
                    probes.overrides@.take(i as int),
                ).push(path@));
            }
            files.push(path);
        }
        i = i + 1;
    }
    proof {
        assert(probes.overrides@.take(i as int) =~= probes.overrides@);
    }
    files
}

/// Says which compose files are used.
pub fn compose_notices(probes: &ComposeProbes) -> (lines: Vec<String>)
    ensures
        views(lines@) == notices(*probes),
{
    let mut lines: Vec<String> = Vec::new();
    let mut i: usize = 0;
    proof {
        assert(probes.overrides@.take(0) =~= Seq::<Probed>::empty());
        assert(views(lines@) =~= override_notices(probes.overrides@.take(0)));
    }
    while i < probes.overrides.len()
        invariant
            i <= probes.overrides.len(),
            views(lines@) == override_notices(probes.overrides@.take(i as int)),
        decreases probes.overrides.len() - i,
    {
        proof {
            let seen = probes.overrides@.take(i as int + 1);
            assert(seen.drop_last() =~= probes.overrides@.take(i as int));
            assert(seen.last() == probes.overrides@[i as int]);
        }
        if probes.overrides[i].exists {
            let line = if i == 0 {
                String::from_str(PROJECT_NOTICE)
            } else {
                String::from_str(USER_NOTICE)
            };
            proof {
                assert(views(lines@.push(line)) =~= views(lines@).push(line@));
            }
            lines.push(line);
        }
        i = i + 1;
    }
    proof {
        assert(probes.overrides@.take(i as int) =~= probes.overrides@);
    }
    if lines.len() == 0 {
        let line = String::from_str(BASE_NOTICE);
        proof {
            assert(views(lines@.push(line)) =~= seq![BASE_NOTICE@]);
        }
        lines.push(line);
    }
    lines
}

/// `-f <file>` for each file, in order.
pub open spec fn file_flags(files: Seq<Seq<char>>) -> Seq<Seq<char>>
    decreases files.len(),
{
    if files.len() == 0 {
        Seq::empty()
    } else {
        file_flags(files.drop_last()).push("-f"@).push(files.last())
    }
}

/// `docker compose -p minitol -f <file>... <verb>...`, run with the caller's
/// streams.
pub open spec fn compose_line(files: Seq<Seq<char>>, verb: Seq<Seq<char>>) -> CommandLine {
    CommandLine {
        program: "docker"@,
        args: seq!["compose"@, "-p"@, PROJECT@] + file_flags(files) + verb,
        convention: Convention::Interactive,
    }
}

/// The start of a compose command: the project and the files.
fn compose_args(files: &Vec<String>) -> (args: Vec<String>)
    ensures
        views(args@) == seq!["compose"@, "-p"@, PROJECT@] + file_flags(views(files@)),
{
    let mut args = no_args();
    push_arg(&mut args, "compose");
    push_arg(&mut args, "-p");
    push_arg(&mut args, PROJECT);
    let mut i: usize = 0;
    proof {
        assert(views(files@).take(0) =~= Seq::<Seq<char>>::empty());
        assert(views(args@) =~= seq!["compose"@, "-p"@, PROJECT@] + file_flags(
            views(files@).take(0),
        ));
    }
    while i < files.len()
        invariant
            i <= files.len(),
            views(args@) == seq!["compose"@, "-p"@, PROJECT@] + file_flags(
                views(files@).take(i as int),
            ),
        decreases files.len() - i,
    {
        proof {
            let seen = views(files@).take(i as int + 1);
            assert(seen.drop_last() =~= views(files@).take(i as int));
            assert(seen.last() == files@[i as int]@);
        }
        let ghost before = views(args@);
        push_arg(&mut args, "-f");
        push_arg(&mut args, files[i].as_str());
        proof {
            let head = seq!["compose"@, "-p"@, PROJECT@];
            let flags = file_flags(views(files@).take(i as int));
            assert(before.push("-f"@).push(files@[i as int]@) =~= head + flags.push("-f"@).push(
                files@[i as int]@,
            ));
        }
        i = i + 1;
    }
    proof {
        assert(views(files@).take(i as int) =~= views(files@));
    }
    args
}

/// The words that tell of a base file that is not there.
pub open spec fn missing(path: Seq<char>) -> Failure {
    Failure::Docker("Compose file not found at: "@ + path)
}

/// The command that brings the environment up: a failure where the base
/// file is not there, else `docker compose ... up -d` over the files to use.
pub open spec fn up_plan(probes: ComposeProbes) -> Result<CommandLine, Failure> {
    if !probes.base.exists {
        Err(missing(probes.base.path@))
    } else {
        Ok(compose_line(preferred(probes), seq!["up"@, "-d"@]))
    }
}

/// The command that takes the environment down: a failure where the base
/// file is not there, else `docker compose ... down` over the files to use.
pub open spec fn down_plan(probes: ComposeProbes) -> Result<CommandLine, Failure> {
    if !probes.base.exists {
        Err(missing(probes.base.path@))
    } else {
        Ok(compose_line(preferred(probes), seq!["down"@]))
    }
}

/// Plans the command that brings the environment up.
pub fn up(probes: &ComposeProbes) -> (r: Result<Invocation, CliError>)
    ensures
        match r {
            Ok(command) => up_plan(*probes) == Ok::<CommandLine, Failure>(command@),
            Err(e) => up_plan(*probes) == Err::<CommandLine, Failure>(e@),
        },
{
    if !probes.base.exists {
        return Err(
            CliError::Docker(chain("Compose file not found at: ", probes.base.path.as_str())),
        );
    }
    let files = preferred_compose_paths(probes);
    let mut args = compose_args(&files);
    let ghost head = views(args@);
    push_arg(&mut args, "up");
    push_arg(&mut args, "-d");
    proof {
        assert(views(args@) =~= head + seq!["up"@, "-d"@]);
    }
    Ok(Invocation { program: String::from_str("docker"), args, convention: Convention::Interactive })
}

/// Plans the command that takes the environment down.
pub fn down(probes: &ComposeProbes) -> (r: Result<Invocation, CliError>)
    ensures
        match r {
            Ok(command) => down_plan(*probes) == Ok::<CommandLine, Failure>(command@),
            Err(e) => down_plan(*probes) == Err::<CommandLine, Failure>(e@),
        },
{
    if !probes.base.exists {
        return Err(
            CliError::Docker(chain("Compose file not found at: ", probes.base.path.as_str())),
        );
    }
    let files = preferred_compose_paths(probes);
    let mut args = compose_args(&files);
    let ghost head = views(args@);
    push_arg(&mut args, "down");
    proof {
        assert(views(args@) =~= head + seq!["down"@]);
    }
    Ok(Invocation { program: String::from_str("docker"), args, convention: Convention::Interactive })
}

/// What the end of a compose command means: a failure where it could not be
/// started, and where it did not end with success.
pub open spec fn compose_outcome(done: Completion, verb: Seq<char>) -> Result<(), Failure> {
    match done {
        Completion::Unstarted(why) => Err(
            Failure::Docker("Failed to execute docker compose "@ + verb + ": "@ + why@),
        ),
        Completion::Exited { success, status, stdout } => if success {
            Ok(())
        } else {
            Err(
                Failure::Docker(
                    "docker compose "@ + verb + " failed with exit code: "@ + status@,
                ),
            )
        },
    }
}

/// Judges the end of the compose command `verb`.
pub fn compose_started(done: Completion, verb: &str) -> (r: Result<(), CliError>)
    ensures
        match r {
            Ok(()) => compose_outcome(done, verb@) == Ok::<(), Failure>(()),
            Err(e) => compose_outcome(done, verb@) == Err::<(), Failure>(e@),
        },
{
    match done {
        Completion::Unstarted(why) => {
            let mut words = chain("Failed to execute docker compose ", verb);
            words.append(": ");
            words.append(why.as_str());
            Err(CliError::Docker(words))
        },
        Completion::Exited { success, status, stdout } => {
            if success {
                Ok(())
            } else {
                let mut words = chain("docker compose ", verb);
                words.append(" failed with exit code: ");
                words.append(status.as_str());
                Err(CliError::Docker(words))
            }
        },
    }
}

/// The shell command that records, inside the container, the worktree that
/// the environment was started from.
pub open spec fn marker_command(worktree: Seq<char>) -> Seq<char> {
    "echo '"@ + worktree + "' > /tmp/worktree"@
}

/// The shell command that records the worktree inside the container.
pub fn worktree_marker(worktree: &str) -> (r: String)
    ensures
        r@ == marker_command(worktree@),
{
    let mut command = chain("echo '", worktree);
    command.append("' > /tmp/worktree");
    command
}

/// With the base file alone, the compose command has one `-f` argument.
pub proof fn base_alone_is_one_file(probes: ComposeProbes, verb: Seq<Seq<char>>)
    requires
        forall|i: int| 0 <= i < probes.overrides@.len() ==> !probes.overrides@[i].exists,
    ensures
        preferred(probes) == seq![probes.base.path@],
        compose_line(preferred(probes), verb).args == seq![
            "compose"@,
            "-p"@,
            PROJECT@,
            "-f"@,
            probes.base.path@,
        ] + verb,
{
    none_existing(probes.overrides@);
    let files = seq![probes.base.path@];
    assert(preferred(probes) =~= files);
    assert(files.drop_last() =~= Seq::<Seq<char>>::empty());
    assert(file_flags(files.drop_last()) =~= Seq::<Seq<char>>::empty());
    assert(files.last() == probes.base.path@);
    assert(file_flags(files) =~= seq!["-f"@, probes.base.path@]);
    assert(compose_line(files, verb).args =~= seq![
        "compose"@,
        "-p"@,
        PROJECT@,
        "-f"@,
        probes.base.path@,
    ] + verb);
}

/// Overrides of which none is there give no path.
proof fn none_existing(overrides: Seq<Probed>)
    requires
        forall|i: int| 0 <= i < overrides.len() ==> !overrides[i].exists,
    ensures
        existing(overrides) == Seq::<Seq<char>>::empty(),
    decreases overrides.len(),
{
    if overrides.len() > 0 {
        none_existing(overrides.drop_last());
    }
}

/// With the base file and the project's override, the compose command has
/// two `-f` arguments: the base file first, the override second.
pub proof fn override_follows_base(probes: ComposeProbes, verb: Seq<Seq<char>>)
    requires
        probes.overrides@.len() >= 1,
        probes.overrides@[0].exists,
        forall|i: int| 1 <= i < probes.overrides@.len() ==> !probes.overrides@[i].exists,
    ensures
        preferred(probes) == seq![probes.base.path@, probes.overrides@[0].path@],
        compose_line(preferred(probes), verb).args == seq![
            "compose"@,
            "-p"@,
            PROJECT@,
            "-f"@,
            probes.base.path@,
            "-f"@,
            probes.overrides@[0].path@,
        ] + verb,
{
    first_alone_existing(probes.overrides@);
    let base = probes.base.path@;
    let over = probes.overrides@[0].path@;
    let files = seq![base, over];
    assert(preferred(probes) =~= files);
    assert(files.drop_last() =~= seq![base]);
    assert(seq![base].drop_last() =~= Seq::<Seq<char>>::empty());
    assert(file_flags(seq![base].drop_last()) =~= Seq::<Seq<char>>::empty());
    assert(seq![base].last() == base);
    assert(file_flags(seq![base]) =~= seq!["-f"@, base]);
    assert(files.last() == over);
    assert(file_flags(files) =~= seq!["-f"@, base, "-f"@, over]);
    assert(compose_line(files, verb).args =~= seq![
        "compose"@,
        "-p"@,
        PROJECT@,
        "-f"@,
        base,
        "-f"@,
        over,
    ] + verb);
}

/// Overrides of which the first alone is there give its path, and no other.
proof fn first_alone_existing(overrides: Seq<Probed>)
    requires
        overrides.len() >= 1,
        overrides[0].exists,
        forall|i: int| 1 <= i < overrides.len() ==> !overrides[i].exists,
    ensures
        existing(overrides) == seq![overrides[0].path@],
    decreases overrides.len(),
{
    if overrides.len() == 1 {
        assert(existing(overrides.drop_last()) =~= Seq::<Seq<char>>::empty());
        assert(existing(overrides) =~= seq![overrides[0].path@]);
    } else {
        first_alone_existing(overrides.drop_last());
    }
}

/// Every file has its own `-f` before it, and the files keep their order.
pub proof fn file_flags_pair_up(files: Seq<Seq<char>>)
    ensures
        file_flags(files).len() == 2 * files.len(),
        forall|i: int|
            0 <= i < files.len() ==> #[trigger] files[i] == file_flags(files)[2 * i + 1]
                && file_flags(files)[2 * i] == "-f"@,
    decreases files.len(),
{
    if files.len() > 0 {
        let before = files.drop_last();
        file_flags_pair_up(before);
        assert forall|i: int| 0 <= i < files.len() implies #[trigger] files[i] == file_flags(
            files,
        )[2 * i + 1] && file_flags(files)[2 * i] == "-f"@ by {
            if i < before.len() {
                assert(before[i] == files[i]);
            }
        }
    }
}

/// The base file is the first of the files to use, and each override that
/// is there adds one file.
pub proof fn base_comes_first(probes: ComposeProbes)
    ensures
        preferred(probes).len() >= 1,
        preferred(probes)[0] == probes.base.path@,
        preferred(probes).len() <= 1 + probes.overrides@.len(),
{
    existing_counts(probes.overrides@);
}

proof fn existing_counts(overrides: Seq<Probed>)
    ensures
        existing(overrides).len() <= overrides.len(),
    decreases overrides.len(),
{
    if overrides.len() > 0 {
        existing_counts(overrides.drop_last());
    }
}

} // verus!
