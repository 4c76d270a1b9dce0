use create_rust_plugin::context::Context;
use create_rust_plugin::filepicker_requests::PipeMessage;
use create_rust_plugin::host::Action;
use create_rust_plugin::keys::{BareKey, KeyModifier, KeyWithModifier};
use create_rust_plugin::plugin::{Event, State};
use create_rust_plugin::screen::{ColorRange, TextItem};
use create_rust_plugin::workspace_layout::workspace_layout;

const DEVELOP_URL: &str = "https://github.com/zellij-org/develop-rust-plugin/releases/download/v0.1.0/develop-rust-plugin.wasm";
const EXAMPLE_URL: &str = "https://github.com/zellij-org/rust-plugin-example.git";

fn key(bare_key: BareKey) -> Event {
    Event::Key(KeyWithModifier { bare_key, key_modifiers: vec![] })
}

fn ctrl(c: char) -> Event {
    Event::Key(KeyWithModifier { bare_key: BareKey::Char(c), key_modifiers: vec![KeyModifier::Ctrl] })
}

fn loaded(project_dir: &str) -> State {
    let mut state = State::new();
    let config = Context::single("project_dir".to_string(), project_dir.to_string());
    assert!(!state.load(&config));
    state
}

fn write_name(state: &mut State, name: &str) {
    for c in name.chars() {
        let (render, _) = state.update(key(BareKey::Char(c)));
        assert!(render);
    }
}

fn id_ctx(id: &str) -> Context {
    Context::single("id".to_string(), id.to_string())
}

fn texts(items: &[TextItem]) -> Vec<String> {
    items.iter().map(|t| t.text.clone()).collect()
}

#[test]
fn typing_looks_the_folder_up() {
    let mut state = loaded("/home/aram/code");
    let (render, actions) = state.update(key(BareKey::Char('m')));
    assert!(render);
    assert_eq!(actions.len(), 1);
    match &actions[0] {
        Action::RunCommand { command_line, context } => {
            assert_eq!(command_line, &vec!["ls".to_string(), "/home/aram/code/m/Cargo.toml".to_string()]);
            assert_eq!(context.get("folder_lookup"), Some("m".to_string()));
        }
        _ => panic!("expected a folder lookup"),
    }
    let (_, actions) = state.update(key(BareKey::Char('y')));
    match &actions[0] {
        Action::RunCommand { command_line, .. } => {
            assert_eq!(command_line[1], "/home/aram/code/my/Cargo.toml")
        }
        _ => panic!("expected a folder lookup"),
    }
    assert_eq!(state.plugin_name_display(), "my");
}

#[test]
fn backspace_erases_and_empty_name_is_no_name() {
    let mut state = loaded("/p");
    write_name(&mut state, "ab");
    let (render, actions) = state.update(key(BareKey::Backspace));
    assert!(render);
    assert_eq!(actions.len(), 1);
    assert_eq!(state.plugin_name_display(), "a");
    let (_, actions) = state.update(key(BareKey::Backspace));
    // without a name there is nothing to look up
    assert!(actions.is_empty());
    assert_eq!(state.plugin_name_display(), "<YOUR PLUGIN NAME>");
    let (render, _) = state.update(key(BareKey::Backspace));
    assert!(render);
    assert_eq!(state.plugin_name_display(), "<YOUR PLUGIN NAME>");
}

#[test]
fn ctrl_c_clears_the_name_and_modified_keys_type_nothing() {
    let mut state = loaded("/p");
    write_name(&mut state, "abc");
    let alt_x = Event::Key(KeyWithModifier { bare_key: BareKey::Char('x'), key_modifiers: vec![KeyModifier::Alt] });
    let (render, actions) = state.update(alt_x);
    assert!(!render);
    assert!(actions.is_empty());
    assert_eq!(state.plugin_name_display(), "abc");
    let (render, actions) = state.update(ctrl('c'));
    assert!(render);
    assert!(actions.is_empty());
    assert_eq!(state.plugin_name_display(), "<YOUR PLUGIN NAME>");
    let (render, actions) = state.update(key(BareKey::Tab));
    assert!(!render && actions.is_empty());
}

#[test]
fn enter_without_name_shows_error_until_next_key() {
    let mut state = loaded("/p");
    let (render, actions) = state.update(key(BareKey::Enter));
    assert!(render);
    assert!(actions.is_empty());
    let screen = texts(&state.render(30, 100));
    assert!(screen.contains(&"Error: Plugin name cannot be empty".to_string()));
    // the next key only takes the error away
    let (render, actions) = state.update(key(BareKey::Char('z')));
    assert!(render);
    assert!(actions.is_empty());
    assert_eq!(state.plugin_name_display(), "<YOUR PLUGIN NAME>");
    let screen = texts(&state.render(30, 100));
    assert_eq!(screen.len(), 6);
}

#[test]
fn existing_folder_opens_the_workspace_at_once() {
    let mut state = loaded("/home/aram/code");
    write_name(&mut state, "my");
    let lookup = Context::single("folder_lookup".to_string(), "my".to_string());
    let (render, _) = state.update(Event::RunCommandResult(Some(0), vec![], vec![], lookup));
    assert!(render);
    let screen = texts(&state.render(30, 100));
    assert!(screen.contains(&"Warning: destination folder exists, will start a workspace without overriding it.".to_string()));
    let (render, actions) = state.update(key(BareKey::Enter));
    assert!(!render);
    assert_eq!(actions.len(), 2);
    match &actions[0] {
        Action::NewTabsWithLayout { layout } => {
            assert_eq!(layout, &workspace_layout("/home/aram/code/my", DEVELOP_URL))
        }
        _ => panic!("expected a new tab"),
    }
    assert!(matches!(actions[1], Action::CloseSelf));
}

#[test]
fn stale_or_failed_lookups_are_ignored() {
    let mut state = loaded("/p");
    write_name(&mut state, "ab");
    let stale = Context::single("folder_lookup".to_string(), "a".to_string());
    let _ = state.update(Event::RunCommandResult(Some(0), vec![], vec![], stale));
    let current = Context::single("folder_lookup".to_string(), "ab".to_string());
    let _ = state.update(Event::RunCommandResult(Some(2), vec![], vec![], current));
    let _ = state.update(Event::RunCommandResult(Some(0), vec![], vec![], Context::new()));
    assert_eq!(texts(&state.render(30, 100)).len(), 6);
}

fn opened(action: &Action) -> (String, Vec<String>, Option<String>, Option<String>) {
    match action {
        Action::OpenCommandPaneFloating { command, context } => (
            command.path.clone(),
            command.args.clone(),
            command.cwd.clone(),
            context.get("id"),
        ),
        _ => panic!("expected a command pane"),
    }
}

#[test]
fn enter_clones_renames_then_opens_the_workspace() {
    let mut state = loaded("/home/aram/code");
    write_name(&mut state, "my");
    let (render, actions) = state.update(key(BareKey::Enter));
    assert!(!render);
    assert_eq!(actions.len(), 1);
    let (path, args, cwd, id) = opened(&actions[0]);
    assert_eq!(path, "git");
    assert_eq!(args, vec!["clone", EXAMPLE_URL, "/home/aram/code/my"]);
    assert_eq!(cwd, Some("/home/aram/code".to_string()));
    assert_eq!(id, Some("0".to_string()));

    // Enter again while the commands run
    let (render, actions) = state.update(key(BareKey::Enter));
    assert!(render && actions.is_empty());
    assert!(texts(&state.render(30, 100)).contains(&"Error: Already running!".to_string()));
    let _ = state.update(key(BareKey::Esc));

    let (render, actions) = state.update(Event::CommandPaneOpened(7, id_ctx("0")));
    assert!(render && actions.is_empty());
    let (render, actions) = state.update(Event::CommandPaneExited(7, Some(0), id_ctx("0")));
    assert!(!render);
    assert_eq!(actions.len(), 2);
    assert!(matches!(actions[0], Action::CloseTerminalPane { pane_id: 7 }));
    let (path, args, cwd, id) = opened(&actions[1]);
    assert_eq!(path, "sed");
    assert_eq!(
        args,
        vec![
            "-i",
            "s/rust-plugin-example/my/g",
            "/home/aram/code/my/Cargo.toml",
            "/home/aram/code/my/Cargo.lock"
        ]
    );
    assert_eq!(cwd, Some("/home/aram/code".to_string()));
    assert_eq!(id, Some("1".to_string()));

    let _ = state.update(Event::CommandPaneOpened(8, id_ctx("1")));
    let (_, actions) = state.update(Event::CommandPaneExited(8, Some(0), id_ctx("1")));
    assert_eq!(actions.len(), 3);
    assert!(matches!(actions[0], Action::CloseTerminalPane { pane_id: 8 }));
    match &actions[1] {
        Action::NewTabsWithLayout { layout } => {
            assert_eq!(layout, &workspace_layout("/home/aram/code/my", DEVELOP_URL))
        }
        _ => panic!("expected a new tab"),
    }
    assert!(matches!(actions[2], Action::CloseSelf));
}

#[test]
fn failed_command_is_retried_from_the_start_on_enter() {
    let mut state = loaded("/c");
    write_name(&mut state, "p");
    let _ = state.update(key(BareKey::Enter));
    let _ = state.update(Event::CommandPaneOpened(3, id_ctx("0")));
    let (_, actions) = state.update(Event::CommandPaneExited(3, Some(128), id_ctx("0")));
    assert!(actions.is_empty());
    let (render, actions) = state.update(key(BareKey::Enter));
    assert!(!render);
    assert_eq!(actions.len(), 2);
    assert!(matches!(actions[0], Action::CloseTerminalPane { pane_id: 3 }));
    let (path, _, _, id) = opened(&actions[1]);
    assert_eq!(path, "git");
    assert_eq!(id, Some("0".to_string()));
}

#[test]
fn ctrl_f_asks_the_file_picker_and_its_answer_sets_the_folder() {
    let mut state = loaded("/old");
    write_name(&mut state, "my");
    let (render, actions) = state.update(ctrl('f'));
    assert!(!render);
    assert_eq!(actions.len(), 1);
    let id = match &actions[0] {
        Action::PipeMessageToPlugin { message } => {
            assert_eq!(message.message_name, "filepicker");
            message.message_args.get("request_id").unwrap()
        }
        _ => panic!("expected a message to the file picker"),
    };
    let wrong_pipe = PipeMessage {
        name: "something_else".to_string(),
        payload: Some("/new".to_string()),
        args: Context::single("request_id".to_string(), id.clone()),
    };
    let (render, actions) = state.pipe(wrong_pipe);
    assert!(!render && actions.is_empty());
    let answer = PipeMessage {
        name: "filepicker_result".to_string(),
        payload: Some("/new".to_string()),
        args: Context::single("request_id".to_string(), id.clone()),
    };
    let (render, actions) = state.pipe(answer);
    assert!(render);
    assert_eq!(state.plugin_parent_folder_display(), "/new");
    match &actions[0] {
        Action::RunCommand { command_line, .. } => {
            assert_eq!(command_line[1], "/new/my/Cargo.toml")
        }
        _ => panic!("expected a folder lookup"),
    }
    let again = PipeMessage {
        name: "filepicker_result".to_string(),
        payload: Some("/newer".to_string()),
        args: Context::single("request_id".to_string(), id),
    };
    let (render, actions) = state.pipe(again);
    assert!(!render && actions.is_empty());
    assert_eq!(state.plugin_parent_folder_display(), "/new");
}

#[test]
fn load_without_project_dir_needs_the_initial_cwd() {
    let mut state = State::default();
    assert_eq!(state.plugin_parent_folder_display(), "<UNKNOWN>");
    assert!(state.load(&Context::new()));
    state.set_initial_cwd("/home/me".to_string());
    assert_eq!(state.plugin_parent_folder_display(), "/home/me");
    let (render, actions) = state.update(Event::Other);
    assert!(!render && actions.is_empty());
}

#[test]
fn render_centers_the_block() {
    let mut state = loaded("/home/aram/code");
    write_name(&mut state, "my");
    let items = state.render(30, 100);
    // the widest step is 65 characters: the block is 67 wide and 8 high
    let x = (100 - 67) / 2;
    let y = (30 - 8) / 2;
    assert_eq!(items.len(), 6);
    assert_eq!(items[0].text, "Hi there! Let's create your new Zellij Rust plugin. I'm about to:");
    assert_eq!((items[0].x, items[0].y), (x, y));
    assert_eq!(items[0].color_ranges, vec![ColorRange { index_level: 2, start: 0, end: None }]);
    assert_eq!(items[1].text, "1. Create a new folder /home/aram/code/my");
    assert_eq!((items[1].x, items[1].y), (x + 2, y + 2));
    let folder_len = "/home/aram/code".len();
    assert_eq!(
        items[1].color_ranges,
        vec![
            ColorRange { index_level: 0, start: 23, end: Some(24 + folder_len) },
            ColorRange { index_level: 3, start: 24 + folder_len, end: None },
        ]
    );
    assert_eq!(items[2].text, "2. Git clone and adjust a template repository into it.");
    assert!(items[2].color_ranges.is_empty());
    assert_eq!((items[2].x, items[2].y), (x + 2, y + 3));
    assert_eq!(items[3].color_ranges, vec![ColorRange { index_level: 0, start: 28, end: Some(35) }]);
    assert_eq!((items[3].x, items[3].y), (x + 2, y + 4));
    assert_eq!(items[4].text, "Plugin name: my_");
    assert_eq!((items[4].x, items[4].y), (x, y + 6));
    assert_eq!(items[5].text, "Help: <ENTER> - create plugin, <Ctrl f> - change root folder, <ESC> - close");
    assert_eq!((items[5].x, items[5].y), (0, 30));
    assert_eq!(items[5].color_ranges.len(), 3);
}

#[test]
fn render_on_a_tiny_screen_and_with_warning_and_error() {
    let mut state = State::new();
    let items = state.render(3, 10);
    assert_eq!((items[0].x, items[0].y), (0, 0));
    assert_eq!(items[1].text, "1. Create a new folder <UNKNOWN>/<YOUR PLUGIN NAME>");
    assert_eq!(items[4].text, "Plugin name: _");
    state.load(&Context::single("project_dir".to_string(), "/d".to_string()));
    write_name(&mut state, "n");
    let _ = state.update(Event::RunCommandResult(
        Some(0),
        vec![],
        vec![],
        Context::single("folder_lookup".to_string(), "n".to_string()),
    ));
    let _ = state.update(ctrl('c'));
    let _ = state.update(key(BareKey::Enter));
    let items = state.render(30, 100);
    assert_eq!(items.len(), 8);
    assert_eq!(items[5].y, 11 + 8);
    assert_eq!(items[6].text, "Error: Plugin name cannot be empty");
    assert_eq!(items[6].y, 11 + 10);
}

#[test]
fn started_in_a_folder_the_plugin_goes_into_that_folder() {
    let mut state = State::new();
    assert!(state.load(&Context::new()));
    state.set_initial_cwd("/home/aram/code".to_string());
    write_name(&mut state, "my-cool-plugin");
    let enter = key(BareKey::Enter);
    assert!(state.can_update(&enter));
    let (_, actions) = state.update(enter);
    let (path, args, cwd, _) = opened(&actions[0]);
    assert_eq!(path, "git");
    assert_eq!(args[2], "/home/aram/code/my-cool-plugin");
    assert_eq!(cwd, Some("/home/aram/code".to_string()));
    let exited = Event::CommandPaneExited(1, Some(0), id_ctx("0"));
    assert!(state.can_update(&exited));
}

#[test]
fn esc_closes_the_plugin() {
    let mut state = State::default();
    let (render, actions) = state.update(key(BareKey::Esc));
    assert!(!render);
    assert_eq!(actions.len(), 1);
    assert!(matches!(actions[0], Action::CloseSelf));
    // with a modifier, Esc does nothing
    let ctrl_esc = Event::Key(KeyWithModifier { bare_key: BareKey::Esc, key_modifiers: vec![KeyModifier::Ctrl] });
    let (render, actions) = state.update(ctrl_esc);
    assert!(!render && actions.is_empty());
    // while an error is shown, Esc first takes it away
    let _ = state.update(key(BareKey::Enter));
    let (render, actions) = state.update(key(BareKey::Esc));
    assert!(render && actions.is_empty());
    let (_, actions) = state.update(key(BareKey::Esc));
    assert!(matches!(actions[0], Action::CloseSelf));
}
