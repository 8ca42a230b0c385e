use scripts::mt::compose::ComposeProbes;
use scripts::mt::compose::Probed;
use scripts::mt::error::CliError;
use scripts::mt::lookup::container_query;
use scripts::mt::lookup::worktree_query;
use scripts::mt::run::dexec;
use scripts::mt::run::dexec_capture;
use scripts::mt::run::Completion;
use scripts::mt::run::Convention;
use scripts::mt::run::Invocation;
use scripts::mt::session::mysql_command;
use scripts::mt::session::shell_command;
use scripts::mt::session::Action;
use scripts::mt::session::Commands;
use scripts::mt::session::Event;
use scripts::mt::session::Session;
use scripts::mt::session::Stage;
use scripts::mt::session::Step;

fn words(list: &[&str]) -> Vec<String> {
    list.iter().map(|s| s.to_string()).collect()
}

fn answer(stdout: &str) -> Event {
    Event::Completed(Completion::Exited {
        success: true,
        status: "exit status: 0".to_string(),
        stdout: stdout.as_bytes().to_vec(),
    })
}

fn failure(code: i32) -> Event {
    Event::Completed(Completion::Exited {
        success: false,
        status: format!("exit status: {}", code),
        stdout: Vec::new(),
    })
}

fn quiet(action: Action) -> Step {
    Step { say: Vec::new(), action }
}

/// Drives a session through `events` and gives the steps it answered with.
fn course(command: Commands, events: Vec<Event>) -> (Session, Vec<Step>) {
    let mut session = Session::new(command);
    let mut steps = Vec::new();
    for event in events {
        let (next, step) = session.advance(event);
        session = next;
        steps.push(step);
    }
    (session, steps)
}

fn found_files() -> ComposeProbes {
    ComposeProbes {
        base: Probed { path: "/w/.devcontainer/docker-compose.yml".to_string(), exists: true },
        overrides: vec![
            Probed {
                path: "/w/.devcontainer/docker-compose.override.yml".to_string(),
                exists: true,
            },
            Probed {
                path: "/home/u/.tolconfig/docker-compose.override.yml".to_string(),
                exists: false,
            },
        ],
    }
}

#[test]
fn shell_defaults_to_zsh() {
    assert_eq!(shell_command(&Vec::new()), "zsh");
    assert_eq!(shell_command(&words(&["dbclone", "db1", "db2"])), "dbclone db1 db2");
    assert_eq!(shell_command(&words(&["strict"])), "strict");
}

#[test]
fn mysql_logs_in_as_root_by_default() {
    assert_eq!(mysql_command(&None, "s3cret", &Vec::new()), "mysql -uroot -p's3cret'");
    assert_eq!(
        mysql_command(&Some("dev".to_string()), "pw", &words(&["SELECT", "1"])),
        "mysql -udev -p'pw' -e \"SELECT 1\""
    );
}

#[test]
fn stop_looks_the_container_up_and_stops_it() {
    let (session, steps) =
        course(Commands::Stop, vec![Event::Begin, answer("abc\n"), answer("")]);
    assert_eq!(
        steps,
        vec![
            quiet(Action::Run(container_query("minitol-app"))),
            quiet(Action::Run(dexec("abc", "stop"))),
            quiet(Action::Finish(Ok(()))),
        ]
    );
    assert!(session.is_done());
}

#[test]
fn missing_container_ends_before_any_exec() {
    let (session, steps) = course(Commands::Stop, vec![Event::Begin, answer("")]);
    assert_eq!(
        steps,
        vec![
            quiet(Action::Run(container_query("minitol-app"))),
            quiet(Action::Finish(Err(CliError::EmptyOutput))),
        ]
    );
    assert!(session.is_done());
    for command in [Commands::Logs, Commands::Info, Commands::Sh { command: Vec::new() }] {
        let (_, steps) = course(command, vec![Event::Begin, answer("\n")]);
        assert_eq!(steps[1], quiet(Action::Finish(Err(CliError::EmptyOutput))));
    }
}

#[test]
fn sh_runs_the_words_or_a_shell() {
    let (_, steps) = course(
        Commands::Sh { command: words(&["ls", "-la", "/tmp"]) },
        vec![Event::Begin, answer("abc\n"), failure(2)],
    );
    assert_eq!(steps[1], quiet(Action::Run(dexec("abc", "ls -la /tmp"))));
    assert_eq!(
        steps[2],
        quiet(Action::Finish(Err(CliError::Command(
            "Command failed with exit code: exit status: 2".to_string()
        ))))
    );
    let (_, steps) =
        course(Commands::Sh { command: Vec::new() }, vec![Event::Begin, answer("abc\n")]);
    assert_eq!(steps[1], quiet(Action::Run(dexec("abc", "zsh"))));
}

#[test]
fn logs_follow_the_start_log() {
    let (_, steps) = course(Commands::Logs, vec![Event::Begin, answer("abc")]);
    assert_eq!(steps[1], quiet(Action::Run(dexec("abc", "tail -f /tmp/mt"))));
}

#[test]
fn sql_with_a_password_runs_at_once() {
    let command = Commands::SQL {
        query: words(&["SELECT", "1"]),
        user: None,
        password: Some("pw".to_string()),
    };
    let (session, steps) = course(command, vec![Event::Begin, answer("db1\n"), answer("")]);
    assert_eq!(
        steps,
        vec![
            quiet(Action::Run(container_query("minitol-mariadb"))),
            quiet(Action::Run(dexec("db1", "mysql -uroot -p'pw' -e \"SELECT 1\""))),
            quiet(Action::Finish(Ok(()))),
        ]
    );
    assert!(session.is_done());
}

#[test]
fn sql_without_a_password_asks_for_it() {
    let command =
        Commands::SQL { query: Vec::new(), user: Some("dev".to_string()), password: None };
    let (_, steps) = course(
        command,
        vec![Event::Begin, answer("db1\n"), Event::Password(Ok("typed".to_string()))],
    );
    assert_eq!(
        steps[1],
        quiet(Action::AskPassword { prompt: "Database password: ".to_string() })
    );
    assert_eq!(steps[2], quiet(Action::Run(dexec("db1", "mysql -udev -p'typed'"))));
}

#[test]
fn sql_ends_where_the_password_cannot_be_had() {
    let command = Commands::SQL { query: Vec::new(), user: None, password: None };
    let (session, steps) = course(
        command,
        vec![Event::Begin, answer("db1\n"), Event::Password(Err("no terminal".to_string()))],
    );
    assert_eq!(
        steps[2],
        quiet(Action::Finish(Err(CliError::Command("no terminal".to_string()))))
    );
    assert!(session.is_done());
}

#[test]
fn info_tells_container_and_worktree() {
    let (session, steps) =
        course(Commands::Info, vec![Event::Begin, answer("abc\n"), answer(" /w/compose.yml\n")]);
    assert_eq!(
        steps[1],
        Step {
            say: vec!["Container ID: abc".to_string()],
            action: Action::Run(dexec_capture("abc", "cat /tmp/worktree 2>/dev/null")),
        }
    );
    assert_eq!(
        steps[2],
        Step {
            say: vec!["Worktree Path: /w/compose.yml".to_string()],
            action: Action::Finish(Ok(())),
        }
    );
    assert!(session.is_done());
}

#[test]
fn info_fails_where_nothing_is_recorded() {
    let (_, steps) = course(Commands::Info, vec![Event::Begin, answer("abc\n"), answer("")]);
    assert_eq!(steps[2], quiet(Action::Finish(Err(CliError::EmptyOutput))));
}

#[test]
fn start_from_a_given_path() {
    let (session, steps) = course(
        Commands::Start { path: Some("/w".to_string()) },
        vec![
            Event::Begin,
            Event::Probed(found_files()),
            Event::Paused,
            answer(""),
            answer("abc\n"),
            answer(""),
            answer(""),
        ],
    );
    let up = Invocation {
        program: "docker".to_string(),
        args: words(&[
            "compose",
            "-p",
            "minitol",
            "-f",
            "/w/.devcontainer/docker-compose.yml",
            "-f",
            "/w/.devcontainer/docker-compose.override.yml",
            "up",
            "-d",
        ]),
        convention: Convention::Interactive,
    };
    assert_eq!(
        steps,
        vec![
            quiet(Action::Probe { worktree: "/w".to_string() }),
            Step {
                say: vec!["\x1b[33m⚠️  Using ./.devcontainer/docker-compose.override.yml as an override.\n\tBase: ./.devcontainer/docker-compose.yml\x1b[0m".to_string()],
                action: Action::Pause { seconds: 1 },
            },
            quiet(Action::Run(up)),
            quiet(Action::Run(container_query("minitol-app"))),
            quiet(Action::Run(dexec("abc", "echo '/w' > /tmp/worktree"))),
            quiet(Action::Run(dexec("abc", "start | tee /tmp/mt"))),
            quiet(Action::Finish(Ok(()))),
        ]
    );
    assert!(session.is_done());
}

#[test]
fn start_asks_git_where_no_path_is_given() {
    let (session, steps) = course(
        Commands::Start { path: None },
        vec![Event::Begin, answer("/repo\n")],
    );
    assert_eq!(
        steps,
        vec![
            quiet(Action::Run(worktree_query())),
            quiet(Action::Probe { worktree: "/repo".to_string() }),
        ]
    );
    assert_eq!(session.stage, Stage::Files { worktree: "/repo".to_string() });
}

#[test]
fn start_records_the_worktree_that_git_named() {
    let (_, steps) = course(
        Commands::Start { path: None },
        vec![
            Event::Begin,
            answer("/repo\n"),
            Event::Probed(found_files()),
            Event::Paused,
            answer(""),
            answer("abc\n"),
        ],
    );
    assert_eq!(steps[5], quiet(Action::Run(dexec("abc", "echo '/repo' > /tmp/worktree"))));
}

#[test]
fn start_ends_where_compose_ran_and_failed() {
    let (session, steps) = course(
        Commands::Start { path: Some("/w".to_string()) },
        vec![Event::Begin, Event::Probed(found_files()), Event::Paused, failure(1)],
    );
    assert_eq!(
        steps[3],
        quiet(Action::Finish(Err(CliError::Docker(
            "docker compose up failed with exit code: exit status: 1".to_string()
        ))))
    );
    assert!(session.is_done());
}

#[test]
fn lookup_of_several_containers_ends_before_any_exec() {
    let (session, steps) = course(Commands::Stop, vec![Event::Begin, answer("aaa\nbbb\n")]);
    assert_eq!(
        steps[1],
        quiet(Action::Finish(Err(CliError::Docker(
            "docker ps listed more than one container".to_string()
        ))))
    );
    assert!(session.is_done());
}

#[test]
fn start_ends_where_git_knows_no_worktree() {
    let (session, steps) = course(Commands::Start { path: None }, vec![Event::Begin, failure(128)]);
    assert_eq!(
        steps[1],
        quiet(Action::Finish(Err(CliError::Git(
            "git rev-parse failed with exit code: exit status: 128".to_string()
        ))))
    );
    assert!(session.is_done());
}

#[test]
fn start_ends_after_the_pause_where_the_base_file_is_missing() {
    let mut files = found_files();
    files.base.exists = false;
    let (session, steps) = course(
        Commands::Start { path: Some("/w".to_string()) },
        vec![Event::Begin, Event::Probed(files), Event::Paused],
    );
    assert_eq!(steps[1].action, Action::Pause { seconds: 1 });
    assert_eq!(
        steps[2],
        quiet(Action::Finish(Err(CliError::Docker(
            "Compose file not found at: /w/.devcontainer/docker-compose.yml".to_string()
        ))))
    );
    assert!(session.is_done());
}

#[test]
fn start_ends_where_compose_cannot_be_started() {
    let (_, steps) = course(
        Commands::Start { path: Some("/w".to_string()) },
        vec![
            Event::Begin,
            Event::Probed(found_files()),
            Event::Paused,
            Event::Completed(Completion::Unstarted("not found".to_string())),
        ],
    );
    assert_eq!(
        steps[3],
        quiet(Action::Finish(Err(CliError::Docker(
            "Failed to execute docker compose up: not found".to_string()
        ))))
    );
}

#[test]
fn start_ends_where_the_marker_cannot_be_written() {
    let (session, steps) = course(
        Commands::Start { path: Some("/w".to_string()) },
        vec![
            Event::Begin,
            Event::Probed(found_files()),
            Event::Paused,
            answer(""),
            answer("abc\n"),
            failure(126),
        ],
    );
    assert_eq!(
        steps[5],
        quiet(Action::Finish(Err(CliError::Command(
            "Command failed with exit code: exit status: 126".to_string()
        ))))
    );
    assert!(session.is_done());
}

#[test]
fn start_ends_where_no_container_came_up() {
    let (_, steps) = course(
        Commands::Start { path: Some("/w".to_string()) },
        vec![Event::Begin, Event::Probed(found_files()), Event::Paused, answer(""), answer("")],
    );
    assert_eq!(steps[4], quiet(Action::Finish(Err(CliError::EmptyOutput))));
}

#[test]
fn an_answer_that_was_not_asked_for_ends_the_session() {
    let out_of_course = quiet(Action::Finish(Err(CliError::Config(
        "an answer came that no step had asked for".to_string(),
    ))));
    let (session, steps) = course(Commands::Stop, vec![Event::Paused]);
    assert_eq!(steps[0], out_of_course);
    assert!(session.is_done());
    let (_, steps) = course(Commands::Stop, vec![Event::Begin, answer("abc"), answer(""), answer("")]);
    assert_eq!(steps[3], out_of_course);
    let (_, steps) =
        course(Commands::Logs, vec![Event::Begin, Event::Password(Ok("pw".to_string()))]);
    assert_eq!(steps[1], out_of_course);
}

#[test]
fn new_session_has_nothing_done() {
    let session = Session::new(Commands::Info);
    assert_eq!(session.stage, Stage::Begin);
    assert_eq!(session.command, Commands::Info);
    assert!(!session.is_done());
}
