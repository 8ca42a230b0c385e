//! The course of a subcommand: what to do first, and what to do next once
//! the outcome of the last step is known.
//!
//! A session does nothing by itself. It is handed what happened and answers
//! with what to say and what to do; the caller does it and reports back.

use vstd::prelude::*;
use vstd::string::*;
use crate::mt::compose::compose_notices;
use crate::mt::compose::compose_outcome;
use crate::mt::compose::compose_started;
use crate::mt::compose::marker_command;
use crate::mt::compose::notices;
use crate::mt::compose::up;
use crate::mt::compose::up_plan;
use crate::mt::compose::worktree_marker;
use crate::mt::compose::ComposeProbes;
use crate::mt::error::CliError;
use crate::mt::error::Failure;
use crate::mt::lookup::container_id_outcome;
use crate::mt::lookup::container_query;
use crate::mt::lookup::container_query_line;
use crate::mt::lookup::get_container_id;
use crate::mt::lookup::git_worktree_path;
use crate::mt::lookup::worktree_outcome;
use crate::mt::lookup::worktree_query;
use crate::mt::lookup::worktree_query_line;
use crate::mt::run::capture_outcome;
use crate::mt::run::dexec;
use crate::mt::run::dexec_capture;
use crate::mt::run::dexec_capture_line;
use crate::mt::run::dexec_line;
use crate::mt::run::execute_capture;
use crate::mt::run::execute_interactive;
use crate::mt::run::interactive_outcome;
use crate::mt::run::trim;
use crate::mt::run::trimmed;
use crate::mt::run::CommandLine;
use crate::mt::run::Completion;
use crate::mt::run::Invocation;
use crate::text::chain;
use crate::text::join;
use crate::text::joined;
use crate::text::views;

verus! {

/// The container that the environment's commands run in.
pub const APP: &'static str = "minitol-app";

/// The container that the database runs in.
pub const DATABASE: &'static str = "minitol-mariadb";

/// The shell that `sh` opens where it is given no command.
pub const SHELL: &'static str = "zsh";

/// The database user where none is given.
pub const ROOT: &'static str = "root";

/// What the user is asked where no password is given.
pub const PROMPT: &'static str = "Database password: ";

/// Said where a session is told of something that it did not ask for.
pub const OUT_OF_COURSE: &'static str = "an answer came that no step had asked for";

/// What the tool is asked to do.
#[derive(Debug, Clone, PartialEq, Eq)]
pub enum Commands {
    /// Launch the environment, from the worktree at `path` or from the one
    /// that the tool is called in.
    Start { path: Option<String> },
    /// Stop the environment.
    Stop,
    /// Run a command in the environment's container, or open a shell there.
    Sh { command: Vec<String> },
    /// Run a query on the database, or open its client.
    SQL { query: Vec<String>, user: Option<String>, password: Option<String> },
    /// Follow the log of the start script.
    Logs,
    /// Tell which container runs, and from which worktree.
    Info,
}

/// What happened: the answer to the step before.
#[derive(Debug, PartialEq, Eq)]
pub enum Event {
    /// Nothing yet: the session is to begin.
    Begin,
    /// The command that was to be run has ended.
    Completed(Completion),
    /// The compose files were looked for.
    Probed(ComposeProbes),
    /// The pause is over.
    Paused,
    /// The user was asked for the password: it, or why it could not be had.
    Password(Result<String, String>),
}

/// What to do next.
#[derive(Debug, PartialEq, Eq)]
pub enum Action {
    /// Run the command as it says, and report how it ended.
    Run(Invocation),
    /// Look for the compose files of the worktree, and report what is there.
    Probe { worktree: String },
    /// Wait, and report when the time is over.
    Pause { seconds: u64 },
    /// Ask the user for a password without showing it, and report it.
    AskPassword { prompt: String },
    /// Nothing more: the subcommand has ended, well or with a failure.
    Finish(Result<(), CliError>),
}

/// A step: lines to tell the user, then something to do.
#[derive(Debug, PartialEq, Eq)]
pub struct Step {
    pub say: Vec<String>,
    pub action: Action,
}

/// Where a session stands: what it waits for, with what it has learned and
/// still needs.
#[derive(Debug, Clone, PartialEq, Eq)]
pub enum Stage {
    /// Nothing is done yet.
    Begin,
    /// Git is asked for the worktree.
    Worktree,
    /// The compose files of the worktree are looked for.
    Files { worktree: String },
    /// The user is given time to read which files are used.
    Pause { worktree: String, probes: ComposeProbes },
    /// Compose brings the environment up.
    Up { marker: String },
    /// Docker is asked for the container that was brought up.
    Started { marker: String },
    /// The worktree is recorded in the container.
    Marker { container_id: String },
    /// Docker is asked for the container that the subcommand is about.
    Container,
    /// The user is asked for the password.
    Password { container_id: String },
    /// The subcommand's last command runs.
    Last,
    /// The container is asked for the worktree recorded in it.
    Read,
    /// The subcommand has ended.
    Done,
}

/// A subcommand under way.
#[derive(Debug, Clone, PartialEq, Eq)]
pub struct Session {
    pub command: Commands,
    pub stage: Stage,
}

/// An action as contracts see it.
pub enum Deed {
    Run(CommandLine),
    Probe { worktree: Seq<char> },
    Pause { seconds: u64 },
    AskPassword { prompt: Seq<char> },
    Finish(Result<(), Failure>),
}

/// A step as contracts see it.
pub struct Move {
    pub say: Seq<Seq<char>>,
    pub action: Deed,
}

/// A stage as contracts see it.
pub enum Standing {
    Begin,
    Worktree,
    Files { worktree: Seq<char> },
    Pause { worktree: Seq<char>, probes: ComposeProbes },
    Up { marker: Seq<char> },
    Started { marker: Seq<char> },
    Marker { container_id: Seq<char> },
    Container,
    Password { container_id: Seq<char> },
    Last,
    Read,
    Done,
}

impl View for Action {
    type V = Deed;

    open spec fn view(&self) -> Deed {
        match self {
            Action::Run(command) => Deed::Run(command@),
            Action::Probe { worktree } => Deed::Probe { worktree: worktree@ },
            Action::Pause { seconds } => Deed::Pause { seconds: *seconds },
            Action::AskPassword { prompt } => Deed::AskPassword { prompt: prompt@ },
            Action::Finish(Ok(())) => Deed::Finish(Ok(())),
            Action::Finish(Err(e)) => Deed::Finish(Err(e@)),
        }
    }
}

impl View for Step {
    type V = Move;

    open spec fn view(&self) -> Move {
        Move { say: views(self.say@), action: self.action@ }
    }
}

impl View for Stage {
    type V = Standing;

    open spec fn view(&self) -> Standing {
        match self {
            Stage::Begin => Standing::Begin,
            Stage::Worktree => Standing::Worktree,
            Stage::Files { worktree } => Standing::Files { worktree: worktree@ },
            Stage::Pause { worktree, probes } => Standing::Pause {
                worktree: worktree@,
                probes: *probes,
            },
            Stage::Up { marker } => Standing::Up { marker: marker@ },
            Stage::Started { marker } => Standing::Started { marker: marker@ },
            Stage::Marker { container_id } => Standing::Marker { container_id: container_id@ },
            Stage::Container => Standing::Container,
            Stage::Password { container_id } => Standing::Password { container_id: container_id@ },
            Stage::Last => Standing::Last,
            Stage::Read => Standing::Read,
            Stage::Done => Standing::Done,
        }
    }
}

/// The characters of a string that may not be there.
pub open spec fn maybe(text: Option<String>) -> Option<Seq<char>> {
    match text {
        Some(text) => Some(text@),
        None => None,
    }
}

/// The command that `sh` runs in the container: the words given, with a
/// space between each two, or the shell where none is given.
pub open spec fn shell_words(command: Seq<Seq<char>>) -> Seq<char> {
    if command.len() == 0 {
        SHELL@
    } else {
        joined(command, " "@)
    }
}

/// The command that `sql` runs in the database's container: the client,
/// logged in as `user`, or as root where none is given, with the query where
/// one is given.
pub open spec fn mysql_words(
    user: Option<Seq<char>>,
    password: Seq<char>,
    query: Seq<Seq<char>>,
) -> Seq<char> {
    let user = match user {
        Some(user) => user,
        None => ROOT@,
    };
    let login = "mysql -u"@ + user + " -p'"@ + password + "'"@;
    if query.len() == 0 {
        login
    } else {
        login + " -e \""@ + joined(query, " "@) + "\""@
    }
}

/// The command that `sh` runs in the container.
pub fn shell_command(command: &Vec<String>) -> (r: String)
    ensures
        r@ == shell_words(views(command@)),
{
    if command.len() == 0 {
        String::from_str(SHELL)
    } else {
        join(command, " ")
    }
}

/// The command that `sql` runs in the database's container.
pub fn mysql_command(user: &Option<String>, password: &str, query: &Vec<String>) -> (r: String)
    ensures
        r@ == mysql_words(maybe(*user), password@, views(query@)),
{
    let mut words = String::from_str("mysql -u");
    match user {
        Some(user) => words.append(user.as_str()),
        None => words.append(ROOT),
    }
    words.append(" -p'");
    words.append(password);
    words.append("'");
    if query.len() > 0 {
        let asked = join(query, " ");
        words.append(" -e \"");
        words.append(asked.as_str());
        words.append("\"");
    }
    words
}

/// A step that says nothing.
pub open spec fn quiet(action: Deed) -> Move {
    Move { say: Seq::empty(), action }
}

/// The end of a session with a failure.
pub open spec fn fail(e: Failure) -> (Standing, Move) {
    (Standing::Done, quiet(Deed::Finish(Err(e))))
}

/// How a subcommand begins. `start` needs the worktree first: the one given,
/// or the one that git names. Every other subcommand needs its container
/// first.
pub open spec fn begin(command: Commands) -> (Standing, Move) {
    match command {
        Commands::Start { path: Some(path) } => (
            Standing::Files { worktree: path@ },
            quiet(Deed::Probe { worktree: path@ }),
        ),
        Commands::Start { path: None } => (
            Standing::Worktree,
            quiet(Deed::Run(worktree_query_line())),
        ),
        Commands::SQL { .. } => (
            Standing::Container,
            quiet(Deed::Run(container_query_line(DATABASE@))),
        ),
        _ => (Standing::Container, quiet(Deed::Run(container_query_line(APP@)))),
    }
}

/// How a subcommand goes on once its container is known.
pub open spec fn found(command: Commands, container_id: Seq<char>) -> (Standing, Move) {
    match command {
        Commands::Start { .. } => fail(Failure::Config(OUT_OF_COURSE@)),
        Commands::Stop => (Standing::Last, quiet(Deed::Run(dexec_line(container_id, "stop"@)))),
        Commands::Sh { command } => (
            Standing::Last,
            quiet(Deed::Run(dexec_line(container_id, shell_words(views(command@))))),
        ),
        Commands::SQL { query, user, password } => match password {
            Some(password) => (
                Standing::Last,
                quiet(
                    Deed::Run(
                        dexec_line(
                            container_id,
                            mysql_words(maybe(user), password@, views(query@)),
                        ),
                    ),
                ),
            ),
            None => (
                Standing::Password { container_id },
                quiet(Deed::AskPassword { prompt: PROMPT@ }),
            ),
        },
        Commands::Logs => (
            Standing::Last,
            quiet(Deed::Run(dexec_line(container_id, "tail -f /tmp/mt"@))),
        ),
        Commands::Info => (
            Standing::Read,
            Move {
                say: seq!["Container ID: "@ + container_id],
                action: Deed::Run(
                    dexec_capture_line(container_id, "cat /tmp/worktree 2>/dev/null"@),
                ),
            },
        ),
    }
}

/// How `sql` goes on once the user was asked for the password.
pub open spec fn answered(
    command: Commands,
    container_id: Seq<char>,
    answer: Result<String, String>,
) -> (Standing, Move) {
    match (command, answer) {
        (Commands::SQL { query, user, password }, Ok(given)) => (
            Standing::Last,
            quiet(
                Deed::Run(
                    dexec_line(container_id, mysql_words(maybe(user), given@, views(query@))),
                ),
            ),
        ),
        (Commands::SQL { .. }, Err(why)) => fail(Failure::Command(why@)),
        _ => fail(Failure::Config(OUT_OF_COURSE@)),
    }
}

/// The next stage and step of a session of `command` that stands at `stage`
/// and is told of `event`.
///
/// A failure of any step ends the session with that failure; nothing that
/// was done before is undone. An event that the stage does not wait for ends
/// it too.
pub open spec fn next(command: Commands, stage: Standing, event: Event) -> (Standing, Move) {
    match (stage, event) {
        (Standing::Begin, Event::Begin) => begin(command),
        (Standing::Worktree, Event::Completed(done)) => match worktree_outcome(done) {
            Ok(worktree) => (Standing::Files { worktree }, quiet(Deed::Probe { worktree })),
            Err(e) => fail(e),
        },
        (Standing::Files { worktree }, Event::Probed(probes)) => (
            Standing::Pause { worktree, probes },
            Move { say: notices(probes), action: Deed::Pause { seconds: 1 } },
        ),
        (Standing::Pause { worktree, probes }, Event::Paused) => match up_plan(probes) {
            Ok(command) => (
                Standing::Up { marker: marker_command(worktree) },
                quiet(Deed::Run(command)),
            ),
            Err(e) => fail(e),
        },
        (Standing::Up { marker }, Event::Completed(done)) => match compose_outcome(done, "up"@) {
            Ok(()) => (
                Standing::Started { marker },
                quiet(Deed::Run(container_query_line(APP@))),
            ),
            Err(e) => fail(e),
        },
        (Standing::Started { marker }, Event::Completed(done)) => match container_id_outcome(
            done,
        ) {
            Ok(container_id) => (
                Standing::Marker { container_id },
                quiet(Deed::Run(dexec_line(container_id, marker))),
            ),
            Err(e) => fail(e),
        },
        (Standing::Marker { container_id }, Event::Completed(done)) => match interactive_outcome(
            done,
        ) {
            Ok(()) => (
                Standing::Last,
                quiet(Deed::Run(dexec_line(container_id, "start | tee /tmp/mt"@))),
            ),
            Err(e) => fail(e),
        },
        (Standing::Container, Event::Completed(done)) => match container_id_outcome(done) {
            Ok(container_id) => found(command, container_id),
            Err(e) => fail(e),
        },
        (Standing::Password { container_id }, Event::Password(answer)) => answered(
            command,
            container_id,
            answer,
        ),
        (Standing::Last, Event::Completed(done)) => (
            Standing::Done,
            quiet(Deed::Finish(interactive_outcome(done))),
        ),
        (Standing::Read, Event::Completed(done)) => match capture_outcome(done) {
            Ok(recorded) => (
                Standing::Done,
                Move {
                    say: seq!["Worktree Path: "@ + trimmed(recorded)],
                    action: Deed::Finish(Ok(())),
                },
            ),
            Err(e) => fail(e),
        },
        _ => fail(Failure::Config(OUT_OF_COURSE@)),
    }
}

/// No lines to say.
fn nothing_to_say() -> (say: Vec<String>)
    ensures
        views(say@) == Seq::<Seq<char>>::empty(),
{
    let say: Vec<String> = Vec::new();
    proof {
        assert(views(say@) =~= Seq::<Seq<char>>::empty());
    }
    say
}

/// One line to say.
fn one_line(line: String) -> (say: Vec<String>)
    ensures
        views(say@) == seq![line@],
{
    let mut say: Vec<String> = Vec::new();
    say.push(line);
    proof {
        assert(views(say@) =~= seq![line@]);
    }
    say
}

/// A step that says nothing.
fn quietly(action: Action) -> (step: Step)
    ensures
        step@ == quiet(action@),
{
    Step { say: nothing_to_say(), action }
}

/// The end of a session with a failure.
fn failing(e: CliError) -> (r: (Stage, Step))
    ensures
        (r.0@, r.1@) == fail(e@),
{
    (Stage::Done, quietly(Action::Finish(Err(e))))
}

/// The end of a session that was told of what it did not ask for.
fn out_of_course() -> (r: (Stage, Step))
    ensures
        (r.0@, r.1@) == fail(Failure::Config(OUT_OF_COURSE@)),
{
    failing(CliError::Config(String::from_str(OUT_OF_COURSE)))
}

/// Begins a subcommand.
fn begin_with(command: &Commands) -> (r: (Stage, Step))
    ensures
        (r.0@, r.1@) == begin(*command),
{
    match command {
        Commands::Start { path: Some(path) } => (
            Stage::Files { worktree: path.clone() },
            quietly(Action::Probe { worktree: path.clone() }),
        ),
        Commands::Start { path: None } => (Stage::Worktree, quietly(Action::Run(worktree_query()))),
        Commands::SQL { .. } => (Stage::Container, quietly(Action::Run(container_query(DATABASE)))),
        _ => (Stage::Container, quietly(Action::Run(container_query(APP)))),
    }
}

/// Goes on with a subcommand whose container is known.
fn go_on(command: &Commands, container_id: String) -> (r: (Stage, Step))
    ensures
        (r.0@, r.1@) == found(*command, container_id@),
{
    let id = container_id.as_str();
    match command {
        Commands::Start { .. } => out_of_course(),
        Commands::Stop => (Stage::Last, quietly(Action::Run(dexec(id, "stop")))),
        Commands::Sh { command } => {
            let words = shell_command(command);
            (Stage::Last, quietly(Action::Run(dexec(id, words.as_str()))))
        },
        Commands::SQL { query, user, password } => match password {
            Some(password) => {
                let words = mysql_command(user, password.as_str(), query);
                (Stage::Last, quietly(Action::Run(dexec(id, words.as_str()))))
            },
            None => {
                let ask = Action::AskPassword { prompt: String::from_str(PROMPT) };
                (Stage::Password { container_id }, quietly(ask))
            },
        },
        Commands::Logs => (Stage::Last, quietly(Action::Run(dexec(id, "tail -f /tmp/mt")))),
        Commands::Info => {
            let line = chain("Container ID: ", id);
            let read = dexec_capture(id, "cat /tmp/worktree 2>/dev/null");
            (Stage::Read, Step { say: one_line(line), action: Action::Run(read) })
        },
    }
}

/// Goes on with `sql` once the user was asked for the password.
fn go_on_answered(command: &Commands, container_id: String, answer: Result<String, String>) -> (r:
    (Stage, Step))
    ensures
        (r.0@, r.1@) == answered(*command, container_id@, answer),
{
    match command {
        Commands::SQL { query, user, password } => match answer {
            Ok(given) => {
                let words = mysql_command(user, given.as_str(), query);
                (Stage::Last, quietly(Action::Run(dexec(container_id.as_str(), words.as_str()))))
            },
            Err(why) => failing(CliError::Command(why)),
        },
        _ => out_of_course(),
    }
}

impl Session {
    /// A session of `command` with nothing done yet.
    pub fn new(command: Commands) -> (r: Session)
        ensures
            r.command == command,
            r.stage@ == Standing::Begin,
    {
        Session { command, stage: Stage::Begin }
    }

    /// Whether the subcommand has ended.
    pub fn is_done(&self) -> (r: bool)
        ensures
            r == (self.stage@ is Done),
    {
        match self.stage {
            Stage::Done => true,
            _ => false,
        }
    }

    /// Takes `event` and goes on: gives the session as it then stands, and
    /// the step to take.
    pub fn advance(self, event: Event) -> (r: (Session, Step))
        ensures
            r.0.command == self.command,
            (r.0.stage@, r.1@) == next(self.command, self.stage@, event),
    {
        let Session { command, stage } = self;
        let (stage, step) = match (stage, event) {
            (Stage::Begin, Event::Begin) => begin_with(&command),
            (Stage::Worktree, Event::Completed(done)) => match git_worktree_path(done) {
                Ok(worktree) => {
                    let probe = Action::Probe { worktree: worktree.clone() };
                    (Stage::Files { worktree }, quietly(probe))
                },
                Err(e) => failing(e),
            },
            (Stage::Files { worktree }, Event::Probed(probes)) => {
                let say = compose_notices(&probes);
                (
                    Stage::Pause { worktree, probes },
                    Step { say, action: Action::Pause { seconds: 1 } },
                )
            },
            (Stage::Pause { worktree, probes }, Event::Paused) => match up(&probes) {
                Ok(run) => {
                    let marker = worktree_marker(worktree.as_str());
                    (Stage::Up { marker }, quietly(Action::Run(run)))
                },
                Err(e) => failing(e),
            },
            (Stage::Up { marker }, Event::Completed(done)) => match compose_started(done, "up") {
                Ok(()) => (Stage::Started { marker }, quietly(Action::Run(container_query(APP)))),
                Err(e) => failing(e),
            },
            (Stage::Started { marker }, Event::Completed(done)) => match get_container_id(done) {
                Ok(container_id) => {
                    let run = dexec(container_id.as_str(), marker.as_str());
                    (Stage::Marker { container_id }, quietly(Action::Run(run)))
                },
                Err(e) => failing(e),
            },
            (Stage::Marker { container_id }, Event::Completed(done)) => match execute_interactive(
                done,
            ) {
                Ok(()) => {
                    let run = dexec(container_id.as_str(), "start | tee /tmp/mt");
                    (Stage::Last, quietly(Action::Run(run)))
                },
                Err(e) => failing(e),
            },
            (Stage::Container, Event::Completed(done)) => match get_container_id(done) {
                Ok(container_id) => go_on(&command, container_id),
                Err(e) => failing(e),
            },
            (Stage::Password { container_id }, Event::Password(answer)) => go_on_answered(
                &command,
                container_id,
                answer,
            ),
            (Stage::Last, Event::Completed(done)) => {
                let end = execute_interactive(done);
                (Stage::Done, quietly(Action::Finish(end)))
            },
            (Stage::Read, Event::Completed(done)) => match execute_capture(done) {
                Ok(recorded) => {
                    let line = chain("Worktree Path: ", trim(recorded.as_str()));
                    (Stage::Done, Step { say: one_line(line), action: Action::Finish(Ok(())) })
                },
                Err(e) => failing(e),
            },
            _ => out_of_course(),
        };
        (Session { command, stage }, step)
    }
}

/// Where docker lists no container, the session ends with `EmptyOutput` and
/// asks for no command to be run in a container.
pub proof fn no_container_ends_the_session(command: Commands, stage: Standing, done: Completion)
    requires
        stage is Container || stage is Started,
        done matches Completion::Exited { success, status, stdout } && success && stdout@.len()
            == 0,
    ensures
        next(command, stage, Event::Completed(done)) == fail(Failure::EmptyOutput),
{
    crate::mt::lookup::no_container_is_empty_output(done);
}

/// A session that has ended stays ended, and says so.
pub proof fn done_stays_done(command: Commands, event: Event)
    ensures
        next(command, Standing::Done, event) == fail(Failure::Config(OUT_OF_COURSE@)),
{
}

/// How far a stage is from the end of its session, at most.
pub open spec fn steps_left(stage: Standing) -> nat {
    match stage {
        Standing::Begin => 10,
        Standing::Worktree => 9,
        Standing::Files { .. } => 8,
        Standing::Pause { .. } => 7,
        Standing::Up { .. } => 6,
        Standing::Started { .. } => 5,
        Standing::Marker { .. } => 4,
        Standing::Container => 4,
        Standing::Password { .. } => 3,
        Standing::Read => 2,
        Standing::Last => 1,
        Standing::Done => 0,
    }
}

/// Every step leads on: it ends the session or leaves fewer steps to take.
/// So every session ends, after ten steps at most.
pub proof fn every_step_leads_on(command: Commands, stage: Standing, event: Event)
    ensures
        next(command, stage, event).0 is Done || steps_left(next(command, stage, event).0)
            < steps_left(stage),
{
}

/// A session is told to finish exactly when it has ended.
pub proof fn finish_is_the_end(command: Commands, stage: Standing, event: Event)
    ensures
        next(command, stage, event).1.action is Finish <==> next(command, stage, event).0 is Done,
{
}

/// Whether a stage holds what the steps before it have made sure of: a
/// container that is waited on has a name.
pub open spec fn well_formed(stage: Standing) -> bool {
    match stage {
        Standing::Marker { container_id } => container_id.len() > 0,
        Standing::Password { container_id } => container_id.len() > 0,
        _ => true,
    }
}

/// A session that begins well formed stays so.
pub proof fn stages_stay_well_formed(command: Commands, stage: Standing, event: Event)
    requires
        well_formed(stage),
    ensures
        well_formed(next(command, stage, event).0),
{
}

/// No command is run inside a container before the container is known: the
/// identifier that a `docker exec` is given is never empty.
pub proof fn exec_needs_a_container(
    command: Commands,
    stage: Standing,
    event: Event,
    container_id: Seq<char>,
    words: Seq<char>,
)
    requires
        well_formed(stage),
        next(command, stage, event).1.action == Deed::Run(dexec_line(container_id, words))
            || next(command, stage, event).1.action == Deed::Run(
            dexec_capture_line(container_id, words),
        ),
    ensures
        container_id.len() > 0,
{
    reveal_strlit("exec");
    reveal_strlit("compose");
    reveal_strlit("-it");
    let line = next(command, stage, event).1.action->Run_0;
    let asked = (line == dexec_line(container_id, words));
    assert(line.args[0] == "exec"@);
    assert("exec"@[0] == 'e');
    assert("compose"@[0] == 'c');
    assert("-it"@[0] == '-');
    // With a terminal the identifier is the third argument of six, without
    // one the second of five.
    assert(asked ==> line.args.len() == 6 && line.args[2] == container_id);
    assert(!asked ==> line.args.len() == 5 && line.args[1] == container_id);
    match (stage, event) {
        (Standing::Pause { worktree, probes }, Event::Paused) => {
            assert(line.args[0] == "compose"@);
        },
        (Standing::Started { marker }, Event::Completed(done)) => {
            assert(line.args[2] == container_id_outcome(done)->Ok_0);
        },
        (Standing::Marker { container_id: id }, Event::Completed(done)) => {
            assert(line.args[2] == id);
        },
        (Standing::Container, Event::Completed(done)) => {
            let id = container_id_outcome(done)->Ok_0;
            if command is Info {
                assert(line.args[1] == id);
            } else {
                assert(line.args[2] == id);
            }
        },
        (Standing::Password { container_id: id }, Event::Password(answer)) => {
            assert(line.args[2] == id);
        },
        _ => {},
    }
}

/// The marker that `start` writes into the container records the worktree
/// that the environment was started from: the one given, or the one that
/// git named.
pub proof fn marker_records_the_worktree(command: Commands, worktree: Seq<char>, probes: ComposeProbes)
    requires
        up_plan(probes) is Ok,
    ensures
        next(command, Standing::Pause { worktree, probes }, Event::Paused).0 == (Standing::Up {
            marker: marker_command(worktree),
        }),
        forall|found: ComposeProbes| #[trigger]
            next(command, Standing::Files { worktree }, Event::Probed(found)).0
                == (Standing::Pause { worktree, probes: found }),
        forall|path: String|
            path@ == worktree ==> (#[trigger] begin(Commands::Start { path: Some(path) })).0
                == (Standing::Files { worktree }),
        forall|done: Completion|
            worktree_outcome(done) == Ok::<Seq<char>, Failure>(worktree) ==> (#[trigger] next(
                command,
                Standing::Worktree,
                Event::Completed(done),
            )).0 == (Standing::Files { worktree }),
{
}

/// A compose command that ran and failed ends `start`: no container is
/// looked up and no marker written.
pub proof fn failed_compose_ends_the_session(command: Commands, marker: Seq<char>, done: Completion)
    requires
        done matches Completion::Exited { success, status, stdout } && !success,
    ensures
        next(command, Standing::Up { marker }, Event::Completed(done)).0 is Done,
        next(command, Standing::Up { marker }, Event::Completed(done)).1.action matches Deed::Finish(
            Err(_),
        ),
{
}

} // verus!
