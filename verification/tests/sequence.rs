use create_rust_plugin::context::Context;
use create_rust_plugin::host::{Action, CommandToRun, PaneId};
use create_rust_plugin::sequential_commands_to_run::SequentialCommandsToRun;

fn cmd(path: &str, args: &[&str]) -> CommandToRun {
    CommandToRun::new_with_args(path.to_string(), args.iter().map(|a| a.to_string()).collect())
}

fn ctx_id(id: &str) -> Context {
    Context::single("id".to_string(), id.to_string())
}

fn opened_command(action: &Action) -> (String, Vec<String>, Option<String>) {
    match action {
        Action::OpenCommandPaneFloating { command, context } => (
            command.path.clone(),
            command.args.clone(),
            context.get("id"),
        ),
        _ => panic!("expected a pane to open"),
    }
}

#[test]
fn empty_sequence_is_finished_and_not_running() {
    let mut s = SequentialCommandsToRun::default();
    assert!(s.sequence_finished());
    assert!(!s.sequence_is_running());
    assert!(s.run_next_commnand().is_empty());
}

#[test]
fn next_command_id_counts_up() {
    let mut s = SequentialCommandsToRun::new();
    assert_eq!(s.next_command_id(), 0);
    assert_eq!(s.next_command_id(), 1);
    assert_eq!(s.next_command_id(), 2);
}

#[test]
fn commands_run_one_after_another() {
    let mut s = SequentialCommandsToRun::new();
    s.set_up_commands(vec![cmd("git", &["clone", "x", "y"]), cmd("sed", &["-i", "e"])]);
    assert!(s.sequence_is_running());
    assert!(!s.sequence_finished());

    let actions = s.run_next_commnand();
    assert_eq!(actions.len(), 1);
    let (path, args, id) = opened_command(&actions[0]);
    assert_eq!(path, "git");
    assert_eq!(args, vec!["clone", "x", "y"]);
    assert_eq!(id, Some("0".to_string()));

    s.register_command_opened(11, ctx_id("0"));
    assert!(s.sequence_is_running());
    let actions = s.register_command_exited(11, Some(0), ctx_id("0"));
    assert_eq!(actions.len(), 2);
    assert!(matches!(actions[0], Action::CloseTerminalPane { pane_id: 11 }));
    let (path, _, id) = opened_command(&actions[1]);
    assert_eq!(path, "sed");
    assert_eq!(id, Some("1".to_string()));

    // the id may come back with white space around it
    s.register_command_opened(12, ctx_id(" 1\n"));
    assert!(!s.sequence_finished());
    let actions = s.register_command_exited(12, Some(0), ctx_id("1"));
    assert_eq!(actions.len(), 1);
    assert!(matches!(actions[0], Action::CloseTerminalPane { pane_id: 12 }));
    assert!(s.sequence_finished());
    assert!(!s.sequence_is_running());
}

#[test]
fn stale_or_missing_ids_are_ignored() {
    let mut s = SequentialCommandsToRun::new();
    s.set_up_commands(vec![cmd("a", &[]), cmd("b", &[])]);
    let _ = s.run_next_commnand();
    // an opened pane with another id is remembered but runs nothing
    s.register_command_opened(5, ctx_id("7"));
    s.register_command_opened(6, Context::new());
    s.register_command_opened(6, ctx_id("zero"));
    assert!(s.sequence_is_running());
    // exits with a wrong id or no id change nothing
    assert!(s.register_command_exited(5, Some(0), ctx_id("7")).is_empty());
    assert!(s.register_command_exited(6, Some(0), Context::new()).is_empty());
    // the first command is still waiting: reporting it open lets it run
    s.register_command_opened(8, ctx_id("0"));
    let actions = s.register_command_exited(8, Some(0), ctx_id("0"));
    assert_eq!(actions.len(), 2);
    let (path, _, _) = opened_command(&actions[1]);
    assert_eq!(path, "b");
}

#[test]
fn failure_restarts_from_the_first_command() {
    let mut s = SequentialCommandsToRun::new();
    s.set_up_commands(vec![cmd("a", &[]), cmd("b", &[])]);
    let _ = s.run_next_commnand();
    s.register_command_opened(21, ctx_id("0"));
    let actions = s.register_command_exited(21, Some(1), ctx_id("0"));
    assert!(actions.is_empty());
    assert!(!s.sequence_is_running());

    let actions = s.run_next_commnand();
    assert_eq!(actions.len(), 2);
    assert!(matches!(actions[0], Action::CloseTerminalPane { pane_id: 21 }));
    let (path, _, id) = opened_command(&actions[1]);
    assert_eq!(path, "a");
    assert_eq!(id, Some("1".to_string()));
    assert!(s.sequence_is_running());

    // a failure without an exit code counts as a failure too
    s.register_command_opened(22, ctx_id("1"));
    assert!(s.register_command_exited(22, None, ctx_id("1")).is_empty());
    assert!(!s.sequence_is_running());
}

#[test]
fn setting_up_again_keeps_the_opened_panes() {
    let mut s = SequentialCommandsToRun::new();
    s.set_up_commands(vec![cmd("a", &[])]);
    let _ = s.run_next_commnand();
    s.register_command_opened(31, ctx_id("0"));
    let _ = s.register_command_exited(31, Some(2), ctx_id("0"));
    s.set_up_commands(vec![cmd("c", &[])]);
    let actions = s.run_next_commnand();
    // the failed run's pane is closed before the new first command opens
    assert_eq!(actions.len(), 2);
    assert!(matches!(actions[0], Action::CloseTerminalPane { pane_id: 31 }));
    let (path, _, id) = opened_command(&actions[1]);
    assert_eq!(path, "c");
    assert_eq!(id, Some("0".to_string()));
    assert_eq!(PaneId::Terminal(1), PaneId::Terminal(1));
}


#[test]
fn waiting_commands_stay_the_last_ones() {
    let mut s = SequentialCommandsToRun::new();
    s.set_up_commands(vec![cmd("a", &[]), cmd("b", &[]), cmd("c", &[])]);
    let names = |acts: &Vec<Action>| -> Vec<String> {
        acts.iter().filter_map(|a| match a {
            Action::OpenCommandPaneFloating { command, .. } => Some(command.path.clone()),
            _ => None,
        }).collect()
    };
    assert_eq!(names(&s.run_next_commnand()), vec!["a"]);
    s.register_command_opened(1, ctx_id("0"));
    assert_eq!(names(&s.register_command_exited(1, Some(0), ctx_id("0"))), vec!["b"]);
    s.register_command_opened(2, ctx_id("1"));
    assert_eq!(names(&s.register_command_exited(2, Some(0), ctx_id("1"))), vec!["c"]);
    s.register_command_opened(3, ctx_id("2"));
    assert!(names(&s.register_command_exited(3, Some(0), ctx_id("2"))).is_empty());
    assert!(s.sequence_finished());
}
