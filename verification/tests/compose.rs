use scripts::mt::compose::compose_candidates;
use scripts::mt::compose::compose_notices;
use scripts::mt::compose::compose_started;
use scripts::mt::compose::down;
use scripts::mt::compose::preferred_compose_paths;
use scripts::mt::compose::up;
use scripts::mt::compose::worktree_marker;
use scripts::mt::compose::Candidate;
use scripts::mt::compose::ComposeProbes;
use scripts::mt::compose::Probed;
use scripts::mt::compose::Root;
use scripts::mt::error::CliError;
use scripts::mt::lifecycle::next_lifecycle_command;
use scripts::mt::lifecycle::run_lifecycle_commands;
use scripts::mt::lifecycle::Lifecycle;
use scripts::mt::run::dexec;
use scripts::mt::run::Completion;
use scripts::mt::run::Convention;

const BASE: &str = "/w/.devcontainer/docker-compose.yml";
const PROJECT: &str = "/w/.devcontainer/docker-compose.override.yml";
const USER: &str = "/home/u/.tolconfig/docker-compose.override.yml";

fn probed(path: &str, exists: bool) -> Probed {
    Probed { path: path.to_string(), exists }
}

fn probes(base: bool, project: bool, user: Option<bool>) -> ComposeProbes {
    let mut overrides = vec![probed(PROJECT, project)];
    if let Some(user) = user {
        overrides.push(probed(USER, user));
    }
    ComposeProbes { base: probed(BASE, base), overrides }
}

fn args_of(probes: &ComposeProbes) -> Vec<String> {
    match up(probes) {
        Ok(command) => command.args,
        Err(e) => panic!("no command: {:?}", e),
    }
}

#[test]
fn candidates_come_in_the_order_of_precedence() {
    assert_eq!(
        compose_candidates(),
        vec![
            Candidate {
                root: Root::Worktree,
                relative: ".devcontainer/docker-compose.yml".to_string()
            },
            Candidate {
                root: Root::Worktree,
                relative: ".devcontainer/docker-compose.override.yml".to_string()
            },
            Candidate {
                root: Root::Home,
                relative: ".tolconfig/docker-compose.override.yml".to_string()
            },
        ]
    );
}

#[test]
fn base_alone_is_one_file_argument() {
    let found = probes(true, false, Some(false));
    assert_eq!(preferred_compose_paths(&found), vec![BASE.to_string()]);
    assert_eq!(args_of(&found), vec!["compose", "-p", "minitol", "-f", BASE, "up", "-d"]);
    assert_eq!(args_of(&found).iter().filter(|a| a.as_str() == "-f").count(), 1);
}

#[test]
fn project_override_follows_the_base() {
    let found = probes(true, true, Some(false));
    assert_eq!(preferred_compose_paths(&found), vec![BASE.to_string(), PROJECT.to_string()]);
    assert_eq!(
        args_of(&found),
        vec!["compose", "-p", "minitol", "-f", BASE, "-f", PROJECT, "up", "-d"]
    );
}

#[test]
fn user_override_comes_last() {
    let found = probes(true, true, Some(true));
    assert_eq!(
        args_of(&found),
        vec!["compose", "-p", "minitol", "-f", BASE, "-f", PROJECT, "-f", USER, "up", "-d"]
    );
    let found = probes(true, false, Some(true));
    assert_eq!(args_of(&found), vec!["compose", "-p", "minitol", "-f", BASE, "-f", USER, "up", "-d"]);
}

#[test]
fn unknown_home_leaves_the_user_override_out() {
    let found = probes(true, true, None);
    assert_eq!(preferred_compose_paths(&found), vec![BASE.to_string(), PROJECT.to_string()]);
}

#[test]
fn missing_base_is_still_preferred_and_then_refused() {
    let found = probes(false, true, Some(true));
    assert_eq!(
        preferred_compose_paths(&found),
        vec![BASE.to_string(), PROJECT.to_string(), USER.to_string()]
    );
    let refused = CliError::Docker(format!("Compose file not found at: {}", BASE));
    assert_eq!(up(&found), Err(refused.clone()));
    assert_eq!(down(&found), Err(refused));
}

#[test]
fn compose_commands_run_with_the_callers_streams() {
    let found = probes(true, false, None);
    let command = up(&found).unwrap();
    assert_eq!(command.program, "docker");
    assert_eq!(command.convention, Convention::Interactive);
    let command = down(&found).unwrap();
    assert_eq!(command.program, "docker");
    assert_eq!(command.args, vec!["compose", "-p", "minitol", "-f", BASE, "down"]);
    assert_eq!(command.convention, Convention::Interactive);
}

#[test]
fn down_takes_the_same_files_as_up() {
    let found = probes(true, true, Some(true));
    assert_eq!(
        down(&found).unwrap().args,
        vec!["compose", "-p", "minitol", "-f", BASE, "-f", PROJECT, "-f", USER, "down"]
    );
}

#[test]
fn notices_tell_which_files_are_used() {
    assert_eq!(
        compose_notices(&probes(true, false, Some(false))),
        vec!["\x1b[33m⚠️  Using base ./.devcontainer/docker-compose.yml (no overrides found).\x1b[0m"]
    );
    assert_eq!(
        compose_notices(&probes(true, true, Some(false))),
        vec!["\x1b[33m⚠️  Using ./.devcontainer/docker-compose.override.yml as an override.\n\tBase: ./.devcontainer/docker-compose.yml\x1b[0m"]
    );
    assert_eq!(
        compose_notices(&probes(true, true, Some(true))),
        vec![
            "\x1b[33m⚠️  Using ./.devcontainer/docker-compose.override.yml as an override.\n\tBase: ./.devcontainer/docker-compose.yml\x1b[0m",
            "\x1b[33m⚠️  Using ~/.tolconfig/docker-compose.override.yml as an additional override.\x1b[0m",
        ]
    );
    assert_eq!(
        compose_notices(&probes(true, false, Some(true))),
        vec!["\x1b[33m⚠️  Using ~/.tolconfig/docker-compose.override.yml as an additional override.\x1b[0m"]
    );
}

#[test]
fn compose_must_start_and_succeed() {
    let ended = Completion::Exited { success: true, status: "exit status: 0".to_string(), stdout: vec![] };
    assert_eq!(compose_started(ended, "up"), Ok(()));
    let ended = Completion::Exited { success: false, status: "exit status: 1".to_string(), stdout: vec![] };
    assert_eq!(
        compose_started(ended.clone(), "up"),
        Err(CliError::Docker("docker compose up failed with exit code: exit status: 1".to_string()))
    );
    assert_eq!(
        compose_started(ended, "down"),
        Err(CliError::Docker("docker compose down failed with exit code: exit status: 1".to_string()))
    );
    assert_eq!(
        compose_started(Completion::Unstarted("not found".to_string()), "up"),
        Err(CliError::Docker("Failed to execute docker compose up: not found".to_string()))
    );
    assert_eq!(
        compose_started(Completion::Unstarted("not found".to_string()), "down"),
        Err(CliError::Docker("Failed to execute docker compose down: not found".to_string()))
    );
}

#[test]
fn marker_records_the_worktree() {
    assert_eq!(worktree_marker("/w"), "echo '/w' > /tmp/worktree");
    assert_eq!(
        worktree_marker("/home/dev/my project"),
        "echo '/home/dev/my project' > /tmp/worktree"
    );
}

#[test]
fn lifecycle_commands_come_from_the_configuration() {
    let config = r#"{ "name": "dev", "postCreateCommand": "make setup", "postStartCommand": "make serve" }"#;
    assert_eq!(
        run_lifecycle_commands("c1", Ok(config.to_string())),
        Ok(vec![dexec("c1", "make setup"), dexec("c1", "make serve")])
    );
}

#[test]
fn lifecycle_entries_that_are_no_strings_are_passed_over() {
    let config = r#"{ "postCreateCommand": ["a", "b"], "postStartCommand": "go" }"#;
    assert_eq!(run_lifecycle_commands("c1", Ok(config.to_string())), Ok(vec![dexec("c1", "go")]));
    assert_eq!(run_lifecycle_commands("c1", Ok("{}".to_string())), Ok(vec![]));
    assert_eq!(run_lifecycle_commands("c1", Ok("[1, 2]".to_string())), Ok(vec![]));
}

#[test]
fn configuration_that_is_no_json_is_a_failure() {
    match run_lifecycle_commands("c1", Ok("{ not json".to_string())) {
        Err(CliError::Docker(why)) => {
            assert_eq!(why, "Invalid devcontainer.json: key must be a string at line 1 column 3");
        }
        other => panic!("expected a failure, got {:?}", other),
    }
}

#[test]
fn configuration_that_cannot_be_read_is_a_failure() {
    assert_eq!(
        run_lifecycle_commands("c1", Err("No such file or directory (os error 2)".to_string())),
        Err(CliError::Docker(
            "Failed to read devcontainer.json: No such file or directory (os error 2)".to_string()
        ))
    );
}

fn exited(success: bool) -> Completion {
    Completion::Exited {
        success,
        status: if success { "exit status: 0" } else { "exit status: 7" }.to_string(),
        stdout: Vec::new(),
    }
}

#[test]
fn lifecycle_commands_run_one_after_the_other() {
    let commands = vec![dexec("c1", "make setup"), dexec("c1", "make serve")];
    assert_eq!(
        next_lifecycle_command(commands, None),
        Lifecycle::Run { command: dexec("c1", "make setup"), left: vec![dexec("c1", "make serve")] }
    );
    assert_eq!(
        next_lifecycle_command(vec![dexec("c1", "make serve")], Some(exited(true))),
        Lifecycle::Run { command: dexec("c1", "make serve"), left: vec![] }
    );
    assert_eq!(next_lifecycle_command(vec![], Some(exited(true))), Lifecycle::Finish(Ok(())));
    assert_eq!(next_lifecycle_command(vec![], None), Lifecycle::Finish(Ok(())));
}

#[test]
fn failed_lifecycle_command_stops_the_rest() {
    let failed = Err(CliError::Command(
        "Command failed with exit code: exit status: 7".to_string(),
    ));
    assert_eq!(
        next_lifecycle_command(vec![dexec("c1", "make serve")], Some(exited(false))),
        Lifecycle::Finish(failed)
    );
    assert_eq!(
        next_lifecycle_command(
            vec![dexec("c1", "make serve")],
            Some(Completion::Unstarted("not found".to_string()))
        ),
        Lifecycle::Finish(Err(CliError::Command("not found".to_string())))
    );
}
