//! The plugin itself: it reads a plugin name from the keyboard, knows the
//! folder to create it in, checks whether that folder already holds a
//! project, and on Enter either opens the development tab at once or first
//! clones the template project and renames it, one command after another.
//!
//! Each event goes to `State::update` (or `State::pipe`), which changes the
//! state and gives back whether to draw again and what to ask of the host.
use vstd::prelude::*;
use crate::context::{lookup, Context};
use crate::filepicker_requests::{
    answer_spec, filepicker_message, is_uuid_v4_text, FilePickerRequests, PipeMessage,
};
use crate::host::{
    actions_view, append_actions, opt_string_view, strings_view, Action, ActionView, CommandToRun,
    CommandView,
};
use crate::keys::{bare, holds, BareKey, KeyModifier, KeyWithModifier};
use crate::screen::{
    prompt_spec, render_block, render_error, render_help, render_spec, render_warning,
    text_items_view, ColorRange, TextItem, BULLETIN_1_PREFIX, BULLETIN_2, BULLETIN_3, ERROR_PREFIX,
    HELP_TEXT, PROMPT_PREFIX, TITLE_TEXT, WARNING_TEXT,
};
use crate::sequential_commands_to_run::{
    awaiting_pane, empty_sequence, exit_advances, exited_spec, id_context, is_finished_spec,
    is_running_spec, latest_id, law_success_moves_on, opened_spec, opens_next, run_next_spec,
    set_up_spec, SequenceView, SequentialCommandsToRun,
};
use crate::text::{join_with_slash, path_join, path_join_spec, slash_join, string_push};
use crate::workspace_layout::{layout_text, workspace_layout};

verus! {

/// Where the helper plugin of the development tab is loaded from.
pub const DEVELOP_RUST_PLUGIN_URL: &'static str = "https://github.com/zellij-org/develop-rust-plugin/releases/download/v0.1.0/develop-rust-plugin.wasm";

/// The template project that a new plugin starts from.
pub const RUST_PLUGIN_EXAMPLE_URL: &'static str = "https://github.com/zellij-org/rust-plugin-example.git";

/// An event from the host.
#[derive(Debug)]
pub enum Event {
    /// A key was pressed.
    Key(KeyWithModifier),
    /// A command pane opened: its terminal pane id and the context it was opened with.
    CommandPaneOpened(u32, Context),
    /// A command pane's command exited: pane id, exit code, context.
    CommandPaneExited(u32, Option<i32>, Context),
    /// A background command finished: exit code, its output and error output, context.
    RunCommandResult(Option<i32>, Vec<u8>, Vec<u8>, Context),
    /// Any other event.
    Other,
}

/// The plugin's state, as plain values.
pub struct StateView {
    pub plugin_name: Option<Seq<char>>,
    pub parent_folder: Option<Seq<char>>,
    pub destination_folder_exists: bool,
    pub error: Option<Seq<char>>,
    pub filepicker_requests: Seq<Seq<char>>,
    pub sequential_commands_to_run: SequenceView,
}

/// The plugin's state: the name typed so far, the folder to create the
/// plugin in, whether the plugin's folder already holds a project, the
/// error shown, the questions to the file picker that wait, and the commands
/// that set the project up.
#[derive(Debug)]
pub struct State {
    plugin_name: Option<String>,
    parent_folder: Option<String>,
    destination_folder_exists: bool,
    error: Option<String>,
    filepicker_requests: FilePickerRequests,
    sequential_commands_to_run: SequentialCommandsToRun,
}

impl View for State {
    type V = StateView;

    closed spec fn view(&self) -> StateView {
        StateView {
            plugin_name: opt_string_view(self.plugin_name),
            parent_folder: opt_string_view(self.parent_folder),
            destination_folder_exists: self.destination_folder_exists,
            error: opt_string_view(self.error),
            filepicker_requests: self.filepicker_requests@,
            sequential_commands_to_run: self.sequential_commands_to_run@,
        }
    }
}

/// The state the plugin starts in: no name, no folder, no error, nothing waiting.
pub open spec fn initial_state() -> StateView {
    StateView {
        plugin_name: None,
        parent_folder: None,
        destination_folder_exists: false,
        error: None,
        filepicker_requests: Seq::empty(),
        sequential_commands_to_run: empty_sequence(),
    }
}

/// What every state of the plugin keeps: a plugin name, where there is one, is not empty.
pub open spec fn well_formed(v: StateView) -> bool {
    v.plugin_name matches Some(n) ==> n.len() > 0
}

/// The key of a folder lookup's context, which carries the name looked up.
pub open spec fn folder_lookup_key() -> Seq<char> {
    "folder_lookup"@
}

/// The path of the `Cargo.toml` that a project in `folder`/`name` has.
pub open spec fn cargo_toml_path(folder: Seq<char>, name: Seq<char>) -> Seq<char> {
    slash_join(folder, name) + "/Cargo.toml"@
}

/// The path of the lock file that a project in `folder`/`name` has.
pub open spec fn cargo_lock_path(folder: Seq<char>, name: Seq<char>) -> Seq<char> {
    slash_join(folder, name) + "/Cargo.lock"@
}

/// Asking whether the plugin's folder already holds a project: with a name
/// and a folder, `ls` on its `Cargo.toml` runs in the background with the name
/// in its context. Either way the folder counts as absent until the answer comes.
pub open spec fn query_spec(v: StateView) -> (StateView, Seq<ActionView>) {
    let actions = match (v.plugin_name, v.parent_folder) {
        (Some(n), Some(p)) => seq![
            ActionView::RunCommand {
                command_line: seq!["ls"@, cargo_toml_path(p, n)],
                context: seq![(folder_lookup_key(), n)],
            },
        ],
        _ => Seq::empty(),
    };
    (StateView { destination_folder_exists: false, ..v }, actions)
}

/// The answer to a folder lookup: it counts only for the name typed now,
/// and a zero exit code of `ls` means that the folder holds a project.
pub open spec fn lookup_response_spec(
    v: StateView,
    exit_code: Option<i32>,
    ctx: Seq<(Seq<char>, Seq<char>)>,
) -> StateView {
    match lookup(ctx, folder_lookup_key()) {
        Some(looked_up) => if v.plugin_name == Some(looked_up) && exit_code == Some(0i32) {
            StateView { destination_folder_exists: true, ..v }
        } else {
            v
        },
        None => v,
    }
}

/// Opening the development tab: with a folder and a name, a new tab on the
/// plugin's folder, then this plugin closes.
pub open spec fn start_workspace_spec(v: StateView) -> Seq<ActionView> {
    match (v.parent_folder, v.plugin_name) {
        (Some(p), Some(n)) => seq![
            ActionView::NewTabsWithLayout {
                layout: layout_text(path_join_spec(p, n), DEVELOP_RUST_PLUGIN_URL@),
            },
            ActionView::CloseSelf,
        ],
        _ => Seq::empty(),
    }
}

/// The commands that set up the plugin `name` in `folder`: clone the
/// template into `folder/name`, then rename the template's package in its
/// `Cargo.toml` and `Cargo.lock`. Both run in `folder`.
pub open spec fn setup_commands(folder: Seq<char>, name: Seq<char>) -> Seq<CommandView> {
    seq![
        CommandView {
            path: "git"@,
            args: seq!["clone"@, RUST_PLUGIN_EXAMPLE_URL@, slash_join(folder, name)],
            cwd: Some(folder),
        },
        CommandView {
            path: "sed"@,
            args: seq![
                "-i"@,
                "s/rust-plugin-example/"@ + name + "/g"@,
                cargo_toml_path(folder, name),
                cargo_lock_path(folder, name),
            ],
            cwd: Some(folder),
        },
    ]
}

/// With a folder and a name, the setup commands become the sequence to run.
pub open spec fn set_up_commands_spec(v: StateView) -> StateView {
    match (v.parent_folder, v.plugin_name) {
        (Some(p), Some(n)) => StateView {
            sequential_commands_to_run: set_up_spec(v.sequential_commands_to_run, setup_commands(p, n)),
            ..v
        },
        _ => v,
    }
}

/// The folder as shown: itself, or `<UNKNOWN>`.
pub open spec fn parent_folder_display_spec(v: StateView) -> Seq<char> {
    match v.parent_folder {
        Some(p) => p,
        None => "<UNKNOWN>"@,
    }
}

/// The name as shown: itself, or `<YOUR PLUGIN NAME>`.
pub open spec fn plugin_name_display_spec(v: StateView) -> Seq<char> {
    match v.plugin_name {
        Some(n) => n,
        None => "<YOUR PLUGIN NAME>"@,
    }
}

/// The error shown on Enter without a name.
pub const NAME_EMPTY_ERROR: &'static str = "Plugin name cannot be empty";

/// The error shown on Enter while the setup commands run.
pub const ALREADY_RUNNING_ERROR: &'static str = "Already running!";

/// The name typed so far, or nothing.
pub open spec fn name_or_empty(n: Option<Seq<char>>) -> Seq<char> {
    match n {
        Some(s) => s,
        None => Seq::empty(),
    }
}

/// The name after Backspace: its last character gone, and no name at all
/// where nothing is left.
pub open spec fn erase_last_spec(n: Option<Seq<char>>) -> Option<Seq<char>> {
    match n {
        Some(s) => if s.len() > 1 {
            Some(s.drop_last())
        } else {
            None
        },
        None => None,
    }
}

/// Whether starting the next command of `s` can take an id without the
/// counter running over.
pub open spec fn counter_ok(s: SequenceView) -> bool {
    opens_next(s) ==> s.next_id < usize::MAX
}

/// Enter without modifiers: with no name, an error; while the setup runs,
/// an error; when the plugin's folder holds a project, the development tab
/// opens; otherwise the setup commands are set up and the first one starts.
pub open spec fn enter_spec(v: StateView) -> (StateView, bool, Seq<ActionView>) {
    if v.plugin_name is None {
        (StateView { error: Some(NAME_EMPTY_ERROR@), ..v }, true, Seq::empty())
    } else if is_running_spec(v.sequential_commands_to_run) {
        (StateView { error: Some(ALREADY_RUNNING_ERROR@), ..v }, true, Seq::empty())
    } else if v.destination_folder_exists {
        (v, false, start_workspace_spec(v))
    } else {
        let v1 = set_up_commands_spec(v);
        let (s2, actions) = run_next_spec(v1.sequential_commands_to_run);
        (StateView { sequential_commands_to_run: s2, ..v1 }, false, actions)
    }
}

/// A key press. While an error is shown, any key only takes it away.
/// Otherwise: a character without modifiers is typed into the name;
/// Backspace erases the last one; Ctrl-c clears the name; Ctrl-f asks the
/// file picker for a folder, under the id `fresh_id`; Enter is `enter_spec`.
/// Typing and erasing look the folder up again. Esc without modifiers
/// closes the plugin, as the help line says. Other keys do nothing.
pub open spec fn key_spec(v: StateView, key: KeyWithModifier, fresh_id: Seq<char>) -> (
    StateView,
    bool,
    Seq<ActionView>,
) {
    if v.error is Some {
        (StateView { error: None, ..v }, true, Seq::empty())
    } else {
        match key.bare_key {
            BareKey::Char(c) => if bare(key) {
                let (v2, actions) = query_spec(
                    StateView { plugin_name: Some(name_or_empty(v.plugin_name).push(c)), ..v },
                );
                (v2, true, actions)
            } else if c == 'c' && holds(key, KeyModifier::Ctrl) {
                (StateView { plugin_name: None, ..v }, true, Seq::empty())
            } else if c == 'f' && holds(key, KeyModifier::Ctrl) {
                (
                    StateView { filepicker_requests: v.filepicker_requests.push(fresh_id), ..v },
                    false,
                    seq![ActionView::PipeMessageToPlugin { message: filepicker_message(fresh_id) }],
                )
            } else {
                (v, false, Seq::empty())
            },
            BareKey::Backspace => if bare(key) {
                let (v2, actions) = query_spec(
                    StateView { plugin_name: erase_last_spec(v.plugin_name), ..v },
                );
                (v2, true, actions)
            } else {
                (v, false, Seq::empty())
            },
            BareKey::Enter => if bare(key) {
                enter_spec(v)
            } else {
                (v, false, Seq::empty())
            },
            BareKey::Esc => if bare(key) {
                (v, false, seq![ActionView::CloseSelf])
            } else {
                (v, false, Seq::empty())
            },
            _ => (v, false, Seq::empty()),
        }
    }
}

/// What an event does: the new state, whether to draw again, and the
/// requests to the host. `fresh_id` is the id of a file picker question,
/// should the event ask one.
pub open spec fn update_spec(v: StateView, event: Event, fresh_id: Seq<char>) -> (
    StateView,
    bool,
    Seq<ActionView>,
) {
    match event {
        Event::RunCommandResult(exit_code, _, _, ctx) => (
            lookup_response_spec(v, exit_code, ctx@),
            true,
            Seq::empty(),
        ),
        Event::Key(key) => key_spec(v, key, fresh_id),
        Event::CommandPaneOpened(pane, ctx) => (
            StateView {
                sequential_commands_to_run: opened_spec(v.sequential_commands_to_run, pane, ctx@),
                ..v
            },
            true,
            Seq::empty(),
        ),
        Event::CommandPaneExited(pane, exit_code, ctx) => {
            let (s1, actions) = exited_spec(v.sequential_commands_to_run, pane, exit_code, ctx@);
            let v1 = StateView { sequential_commands_to_run: s1, ..v };
            if is_finished_spec(s1) {
                (v1, false, actions + start_workspace_spec(v1))
            } else {
                (v1, false, actions)
            }
        },
        Event::Other => (v, false, Seq::empty()),
    }
}

/// What `update` needs of its input: that starting a command on the way
/// does not run the id counter over.
pub open spec fn update_requires(v: StateView, event: Event) -> bool {
    match event {
        Event::Key(key) => (v.error is None && key.bare_key == BareKey::Enter && bare(key)
            && v.plugin_name is Some && !is_running_spec(v.sequential_commands_to_run)
            && !v.destination_folder_exists) ==> counter_ok(
            set_up_commands_spec(v).sequential_commands_to_run,
        ),
        Event::CommandPaneExited(_, exit_code, ctx) => exit_advances(
            v.sequential_commands_to_run,
            exit_code,
            ctx@,
        ) ==> counter_ok(v.sequential_commands_to_run),
        _ => true,
    }
}

/// The name of the pipe on which the file picker answers.
pub open spec fn filepicker_result_name() -> Seq<char> {
    "filepicker_result"@
}

/// A message through a pipe: an answer of the file picker that yields a
/// folder makes it the folder to create the plugin in, looks the plugin's
/// folder up again, and asks to draw again; anything else changes nothing.
pub open spec fn pipe_spec(
    v: StateView,
    name: Seq<char>,
    payload: Option<Seq<char>>,
    args: Seq<(Seq<char>, Seq<char>)>,
) -> (StateView, bool, Seq<ActionView>) {
    if name == filepicker_result_name() {
        let (ids, folder) = answer_spec(v.filepicker_requests, payload, args);
        match folder {
            Some(f) => {
                let (v2, actions) = query_spec(
                    StateView { filepicker_requests: ids, parent_folder: Some(f), ..v },
                );
                (v2, true, actions)
            },
            None => (StateView { filepicker_requests: ids, ..v }, false, Seq::empty()),
        }
    } else {
        (v, false, Seq::empty())
    }
}

/// What loading with `configuration` does: a `project_dir` entry becomes the
/// folder to create plugins in; without one, the host's initial working
/// directory is needed (and the second value is `true`).
pub open spec fn load_spec(v: StateView, configuration: Seq<(Seq<char>, Seq<char>)>) -> (StateView, bool) {
    match lookup(configuration, "project_dir"@) {
        Some(dir) => (StateView { parent_folder: Some(dir), ..v }, false),
        None => (v, true),
    }
}

/// Typing a character and then pressing Backspace (both without modifiers,
/// with no error shown) gives back the name there was before, and leaves
/// the plugin's folder counted as absent until the lookup answers.
pub proof fn law_backspace_undoes_typing(
    v: StateView,
    typed: KeyWithModifier,
    erase: KeyWithModifier,
    c: char,
    fresh_id: Seq<char>,
)
    requires
        well_formed(v),
        v.error is None,
        typed.bare_key == BareKey::Char(c),
        bare(typed),
        erase.bare_key == BareKey::Backspace,
        bare(erase),
    ensures
        ({
            let (v1, r1, _) = key_spec(v, typed, fresh_id);
            let (v2, r2, _) = key_spec(v1, erase, fresh_id);
            &&& v2.plugin_name == v.plugin_name
            &&& !v2.destination_folder_exists
            &&& r1 && r2
        }),
{
    match v.plugin_name {
        Some(n) => {
            assert(n.push(c).drop_last() =~= n);
        },
        None => {},
    }
}

/// Enter without a name shows the error that a name is needed; the next key,
/// whatever it is, only takes the error away, which gives back the state
/// from before.
pub proof fn law_enter_without_name(
    v: StateView,
    enter: KeyWithModifier,
    next: KeyWithModifier,
    fresh_id: Seq<char>,
)
    requires
        v.error is None,
        v.plugin_name is None,
        enter.bare_key == BareKey::Enter,
        bare(enter),
    ensures
        ({
            let (v1, r1, a1) = key_spec(v, enter, fresh_id);
            let (v2, r2, a2) = key_spec(v1, next, fresh_id);
            &&& v1 == StateView { error: Some(NAME_EMPTY_ERROR@), ..v }
            &&& r1 && a1 == Seq::<ActionView>::empty()
            &&& v2 == v
            &&& r2 && a2 == Seq::<ActionView>::empty()
        }),
{
}

/// Esc without modifiers, with no error shown, asks the host to close the
/// plugin and changes nothing else, as the help line promises; with an error
/// shown it first only takes the error away.
pub proof fn law_esc_closes(v: StateView, esc: KeyWithModifier, fresh_id: Seq<char>)
    requires
        esc.bare_key == BareKey::Esc,
        bare(esc),
    ensures
        v.error is None ==> key_spec(v, esc, fresh_id) == (v, false, seq![ActionView::CloseSelf]),
        v.error is Some ==> key_spec(v, esc, fresh_id) == (
            StateView { error: None, ..v },
            true,
            Seq::<ActionView>::empty(),
        ),
{
}

/// A character typed without modifiers, with no error shown, is appended
/// as it is to the name (or starts one), and the folder is looked up again:
/// `ls` on `folder/name/Cargo.toml`, with the new name in the context.
pub proof fn law_typing_appends_the_character(
    v: StateView,
    typed: KeyWithModifier,
    c: char,
    fresh_id: Seq<char>,
)
    requires
        v.error is None,
        typed.bare_key == BareKey::Char(c),
        bare(typed),
    ensures
        ({
            let name = match v.plugin_name {
                Some(n) => n.push(c),
                None => seq![c],
            };
            let (v1, render, actions) = key_spec(v, typed, fresh_id);
            &&& v1.plugin_name == Some(name)
            &&& name.len() > 0 && name.last() == c
            &&& render
            &&& !v1.destination_folder_exists
            &&& v1.parent_folder == v.parent_folder
            &&& (v.parent_folder matches Some(p) ==> actions == seq![
                ActionView::RunCommand {
                    command_line: seq!["ls"@, p.push('/') + name + "/Cargo.toml"@],
                    context: seq![("folder_lookup"@, name)],
                },
            ])
            &&& (v.parent_folder is None ==> actions.len() == 0)
        }),
{
    match v.plugin_name {
        Some(n) => {},
        None => {
            assert(Seq::<char>::empty().push(c) =~= seq![c]);
        },
    }
}

/// Enter without modifiers, with a name and no error shown, while a command
/// waits or runs in a sequence that has not failed, only sets the error
/// "Already running!", asks to draw again, and requests nothing.
pub proof fn law_enter_while_running_refuses(v: StateView, enter: KeyWithModifier, fresh_id: Seq<char>)
    requires
        v.error is None,
        v.plugin_name is Some,
        !v.sequential_commands_to_run.sequence_errored,
        v.sequential_commands_to_run.running_command is Some
            || v.sequential_commands_to_run.pending_commands.len() > 0,
        enter.bare_key == BareKey::Enter,
        bare(enter),
    ensures
        key_spec(v, enter, fresh_id) == (
            StateView { error: Some("Already running!"@), ..v },
            true,
            Seq::<ActionView>::empty(),
        ),
{
}

/// When a running command reports a failed exit, the plugin requests
/// nothing (in particular it opens no workspace) and does not draw again.
pub proof fn law_failed_exit_requests_nothing(v: StateView, exited: Event, fresh_id: Seq<char>)
    requires
        v.sequential_commands_to_run.running_command is Some,
        exited matches Event::CommandPaneExited(_, code, _) && code != Some(0i32),
    ensures
        ({
            let (v1, render, actions) = update_spec(v, exited, fresh_id);
            &&& actions.len() == 0
            &&& !render
            &&& v1.sequential_commands_to_run.sequence_errored
        }),
{
}

/// What the screen shows, text by text: the title; "1. Create a new folder "
/// followed by the folder (`<UNKNOWN>` only when there is none), `/`, and
/// the name (or `<YOUR PLUGIN NAME>`), whether or not a name was typed; the
/// two other steps; "Plugin name: " with the name and a cursor; the warning
/// exactly when the folder holds a project; "Error: " and the error exactly
/// when one is shown; and the line of keys last, at the left of line `rows`.
pub proof fn law_screen_texts(v: StateView, rows: usize, cols: usize)
    requires
        parent_folder_display_spec(v).len() + 24 <= usize::MAX,
    ensures
        ({
            let items = render_spec(v, rows, cols);
            let folder = match v.parent_folder {
                Some(p) => p,
                None => "<UNKNOWN>"@,
            };
            let name = match v.plugin_name {
                Some(n) => n,
                None => "<YOUR PLUGIN NAME>"@,
            };
            let extra = (if v.destination_folder_exists { 1int } else { 0int }) + (if v.error is Some {
                1int
            } else {
                0int
            });
            &&& items.len() == 6 + extra
            &&& items[0].text == "Hi there! Let's create your new Zellij Rust plugin. I'm about to:"@
            &&& items[1].text == "1. Create a new folder "@ + folder + seq!['/'] + name
            &&& items[2].text == "2. Git clone and adjust a template repository into it."@
            &&& items[3].text == "3. Open a new tab with your $EDITOR and a development environment"@
            &&& items[4].text == "Plugin name: "@ + (match v.plugin_name {
                Some(n) => n,
                None => Seq::<char>::empty(),
            }) + seq!['_']
            &&& (v.destination_folder_exists ==> items[5].text
                == "Warning: destination folder exists, will start a workspace without overriding it."@)
            &&& (v.error matches Some(e) ==> items[5 + extra - 1].text == "Error: "@ + e)
            &&& items[5 + extra].text
                == "Help: <ENTER> - create plugin, <Ctrl f> - change root folder, <ESC> - close"@
            &&& items[5 + extra].x == 0 && items[5 + extra].y == rows
            &&& items[1].x == items[0].x + 2 && items[1].y == items[0].y + 2
            &&& items[4].x == items[0].x && items[4].y == items[0].y + 6
        }),
{
    let items = render_spec(v, rows, cols);
    let name = match v.plugin_name {
        Some(n) => n,
        None => "<YOUR PLUGIN NAME>"@,
    };
    let folder = parent_folder_display_spec(v);
    assert(BULLETIN_1_PREFIX@ + slash_join(folder, name) =~= BULLETIN_1_PREFIX@ + folder + seq!['/'] + name);
    match v.plugin_name {
        Some(n) => {},
        None => {
            assert(PROMPT_PREFIX@ + seq!['_'] =~= PROMPT_PREFIX@ + Seq::<char>::empty() + seq!['_']);
        },
    }
}

/// Loading with a `project_dir` entry makes it the folder and needs nothing
/// more; without one, the state stays as it was and the host's initial
/// working directory is needed.
pub proof fn law_load_takes_project_dir(v: StateView, configuration: Seq<(Seq<char>, Seq<char>)>)
    ensures
        lookup(configuration, "project_dir"@) matches Some(d) ==> load_spec(v, configuration) == (
            StateView { parent_folder: Some(d), ..v },
            false,
        ),
        lookup(configuration, "project_dir"@) is None ==> load_spec(v, configuration) == (v, true),
{
}

/// Ctrl-c with no error shown forgets the name, asks to draw again, and
/// requests nothing.
pub proof fn law_ctrl_c_clears_the_name(v: StateView, key: KeyWithModifier, fresh_id: Seq<char>)
    requires
        v.error is None,
        key.bare_key == BareKey::Char('c'),
        key.key_modifiers@.contains(KeyModifier::Ctrl),
    ensures
        key_spec(v, key, fresh_id) == (
            StateView { plugin_name: None, ..v },
            true,
            Seq::<ActionView>::empty(),
        ),
{
}

/// Enter with a name `n`, a folder `p`, no error shown, nothing running and
/// no project in the plugin's folder opens a floating pane that runs
/// `git clone` of the template into `p/n` from `p`, under the id "0"; the
/// rename with `sed` waits as the second command. (After a failed run, the
/// panes of that run are closed first: see `law_failure_restarts`.)
pub proof fn law_enter_starts_with_git_clone(v: StateView, enter: KeyWithModifier, fresh_id: Seq<char>)
    requires
        v.error is None,
        !v.sequential_commands_to_run.sequence_errored,
        v.plugin_name is Some,
        v.parent_folder is Some,
        !is_running_spec(v.sequential_commands_to_run),
        !v.destination_folder_exists,
        enter.bare_key == BareKey::Enter,
        bare(enter),
    ensures
        ({
            let n = v.plugin_name->0;
            let p = v.parent_folder->0;
            let (v1, render, actions) = key_spec(v, enter, fresh_id);
            &&& !render
            &&& actions.len() == 1
            &&& actions[0] == ActionView::OpenCommandPaneFloating {
                command: CommandView {
                    path: "git"@,
                    args: seq!["clone"@, RUST_PLUGIN_EXAMPLE_URL@, p.push('/') + n],
                    cwd: Some(p),
                },
                context: seq![("id"@, seq!['0'])],
            }
            &&& v1.sequential_commands_to_run.pending_commands.len() == 2
            &&& v1.sequential_commands_to_run.pending_commands[1] == CommandView {
                path: "sed"@,
                args: seq![
                    "-i"@,
                    "s/rust-plugin-example/"@ + n + "/g"@,
                    p.push('/') + n + "/Cargo.toml"@,
                    p.push('/') + n + "/Cargo.lock"@,
                ],
                cwd: Some(p),
            }
        }),
{
    assert(crate::text::decimal(0) =~= seq!['0']);
}

/// A file picker answer on the `filepicker_result` pipe, with a folder and
/// a waiting id, makes that folder the one to create the plugin in, looks
/// the plugin's folder up again, and asks to draw again; on another pipe
/// nothing changes.
pub proof fn law_picked_folder_is_taken(
    v: StateView,
    name: Seq<char>,
    folder: Seq<char>,
    args: Seq<(Seq<char>, Seq<char>)>,
)
    requires
        lookup(args, "request_id"@) matches Some(r) && v.filepicker_requests.contains(r),
    ensures
        ({
            let (v1, render, _) = pipe_spec(v, "filepicker_result"@, Some(folder), args);
            &&& render
            &&& v1.parent_folder == Some(folder)
            &&& !v1.destination_folder_exists
            &&& v1.filepicker_requests.len() == v.filepicker_requests.len() - 1
        }),
        name != "filepicker_result"@ ==> pipe_spec(v, name, Some(folder), args) == (
            v,
            false,
            Seq::<ActionView>::empty(),
        ),
{
    let r = lookup(args, "request_id"@)->0;
    crate::filepicker_requests::law_waiting_id_is_accepted(v.filepicker_requests, r, folder, args);
}

/// Where the plugin's folder already holds a project, Enter runs no
/// command: the command sequence stays as it was, and the development tab
/// on the plugin's folder opens, after which this plugin closes.
pub proof fn law_existing_folder_opens_workspace(v: StateView, enter: KeyWithModifier, fresh_id: Seq<char>)
    requires
        v.error is None,
        v.plugin_name is Some,
        v.parent_folder is Some,
        !is_running_spec(v.sequential_commands_to_run),
        v.destination_folder_exists,
        enter.bare_key == BareKey::Enter,
        bare(enter),
    ensures
        ({
            let (v1, _, actions) = key_spec(v, enter, fresh_id);
            &&& v1 == v
            &&& actions == seq![
                ActionView::NewTabsWithLayout {
                    layout: layout_text(
                        path_join_spec(v.parent_folder->0, v.plugin_name->0),
                        DEVELOP_RUST_PLUGIN_URL@,
                    ),
                },
                ActionView::CloseSelf,
            ]
        }),
{
}

/// A folder lookup asks about the name typed now, and counts the folder as
/// absent until it is answered. An answer with exit code 0 for that name
/// marks the folder as holding a project; the same answer after the name
/// has changed is ignored, and so is an answer with another exit code.
pub proof fn law_folder_lookup_answers_current_name(
    v: StateView,
    other_name: Seq<char>,
    other_code: Option<i32>,
)
    requires
        v.plugin_name is Some,
        v.parent_folder is Some,
        other_name != v.plugin_name->0,
        other_code != Some(0i32),
    ensures
        ({
            let (v1, actions) = query_spec(v);
            &&& !v1.destination_folder_exists
            &&& actions.len() == 1
            &&& actions[0] matches ActionView::RunCommand { context, .. } && {
                &&& lookup_response_spec(v1, Some(0i32), context).destination_folder_exists
                &&& lookup_response_spec(v1, other_code, context) == v1
                &&& lookup_response_spec(
                    StateView { plugin_name: Some(other_name), ..v1 },
                    Some(0i32),
                    context,
                ) == StateView { plugin_name: Some(other_name), ..v1 }
            }
        }),
{
}

/// Every event keeps the state well formed: a plugin name, where there is
/// one, is never empty. So do pipe messages and loading, and the state the
/// plugin starts in is well formed.
pub proof fn law_well_formed_kept(
    v: StateView,
    event: Event,
    fresh_id: Seq<char>,
    name: Seq<char>,
    payload: Option<Seq<char>>,
    args: Seq<(Seq<char>, Seq<char>)>,
)
    requires
        well_formed(v),
    ensures
        well_formed(initial_state()),
        well_formed(update_spec(v, event, fresh_id).0),
        well_formed(pipe_spec(v, name, payload, args).0),
        well_formed(load_spec(v, args).0),
{
}

/// When the last setup command has been opened, the host reports its pane
/// open and then the command's success, each with the context the command
/// was opened with: its pane closes, the sequence is finished, and the
/// development tab opens on the new plugin's folder.
pub proof fn law_last_success_opens_workspace(
    v: StateView,
    opened: Event,
    exited: Event,
    pane: u32,
    fresh_id: Seq<char>,
)
    requires
        awaiting_pane(v.sequential_commands_to_run),
        v.sequential_commands_to_run.pending_commands.len() == 1,
        v.sequential_commands_to_run.next_id < usize::MAX,
        opened matches Event::CommandPaneOpened(p, c) && p == pane && c@ == id_context(
            latest_id(v.sequential_commands_to_run),
        ),
        exited matches Event::CommandPaneExited(p, code, c) && p == pane && code == Some(0i32)
            && c@ == id_context(latest_id(v.sequential_commands_to_run)),
    ensures
        ({
            let (v1, _, a1) = update_spec(v, opened, fresh_id);
            let (v2, _, a2) = update_spec(v1, exited, fresh_id);
            &&& a1 == Seq::<ActionView>::empty()
            &&& is_finished_spec(v2.sequential_commands_to_run)
            &&& !v2.sequential_commands_to_run.sequence_errored
            &&& a2 == seq![ActionView::CloseTerminalPane { pane_id: pane }] + start_workspace_spec(v)
        }),
{
    law_success_moves_on(v.sequential_commands_to_run, pane);
}

impl Default for State {
    fn default() -> (s: State)
        ensures
            s@ == initial_state(),
    {
        State::new()
    }
}

impl State {
    /// The state the plugin starts in.
    pub fn new() -> (s: State)
        ensures
            s@ == initial_state(),
    {
        State {
            plugin_name: None,
            parent_folder: None,
            destination_folder_exists: false,
            error: None,
            filepicker_requests: FilePickerRequests::new(),
            sequential_commands_to_run: SequentialCommandsToRun::new(),
        }
    }

    fn query_folder_exists(&mut self) -> (actions: Vec<Action>)
        ensures
            (final(self)@, actions_view(actions@)) == query_spec(old(self)@),
    {
        let mut actions: Vec<Action> = Vec::new();
        match (&self.plugin_name, &self.parent_folder) {
            (Some(plugin_name), Some(parent_folder)) => {
                let mut path = join_with_slash(parent_folder.as_str(), plugin_name.as_str());
                path.append("/Cargo.toml");
                let mut command_line: Vec<String> = Vec::new();
                command_line.push(String::from_str("ls"));
                command_line.push(path);
                let context = Context::single(String::from_str("folder_lookup"), plugin_name.clone());
                let ghost cl = command_line@;
                assert(strings_view(cl) =~= seq!["ls"@, cargo_toml_path(parent_folder@, plugin_name@)]);
                actions.push(Action::RunCommand { command_line, context });
                assert(actions_view(actions@) =~= query_spec(old(self)@).1);
            },
            _ => {
                assert(actions_view(actions@) =~= Seq::<ActionView>::empty());
            },
        }
        self.destination_folder_exists = false;
        actions
    }

    fn handle_folder_lookup_response(&mut self, exit_code: Option<i32>, context: &Context)
        ensures
            final(self)@ == lookup_response_spec(old(self)@, exit_code, context@),
    {
        if let Some(looked_up_plugin_name) = context.get("folder_lookup") {
            let same = match &self.plugin_name {
                Some(n) => *n == looked_up_plugin_name,
                None => false,
            };
            if same && exit_code == Some(0i32) {
                self.destination_folder_exists = true;
            }
        }
    }

    /// The folder as shown: itself, or `<UNKNOWN>`.
    pub fn plugin_parent_folder_display(&self) -> (s: String)
        ensures
            s@ == parent_folder_display_spec(self@),
    {
        match &self.parent_folder {
            Some(p) => p.clone(),
            None => String::from_str("<UNKNOWN>"),
        }
    }

    /// The name as shown: itself, or `<YOUR PLUGIN NAME>`.
    pub fn plugin_name_display(&self) -> (s: String)
        ensures
            s@ == plugin_name_display_spec(self@),
    {
        match &self.plugin_name {
            Some(n) => n.clone(),
            None => String::from_str("<YOUR PLUGIN NAME>"),
        }
    }

    fn set_up_commands(&mut self)
        ensures
            final(self)@ == set_up_commands_spec(old(self)@),
    {
        match (&self.parent_folder, &self.plugin_name) {
            (Some(parent_folder), Some(plugin_name)) => {
                let p = parent_folder.as_str();
                let n = plugin_name.as_str();
                let destination_folder = join_with_slash(p, n);
                let mut cargo_toml_path = join_with_slash(p, n);
                cargo_toml_path.append("/Cargo.toml");
                let mut cargo_lock_path = join_with_slash(p, n);
                cargo_lock_path.append("/Cargo.lock");
                let mut rename = String::from_str("s/rust-plugin-example/");
                rename.append(n);
                rename.append("/g");
                let mut clone_args: Vec<String> = Vec::new();
                clone_args.push(String::from_str("clone"));
                clone_args.push(String::from_str(RUST_PLUGIN_EXAMPLE_URL));
                clone_args.push(destination_folder);
                let mut sed_args: Vec<String> = Vec::new();
                sed_args.push(String::from_str("-i"));
                sed_args.push(rename);
                sed_args.push(cargo_toml_path);
                sed_args.push(cargo_lock_path);
                let ghost ca = clone_args@;
                let ghost sa = sed_args@;
                let mut git = CommandToRun::new_with_args(String::from_str("git"), clone_args);
                git.cwd = Some(parent_folder.clone());
                let mut sed = CommandToRun::new_with_args(String::from_str("sed"), sed_args);
                sed.cwd = Some(parent_folder.clone());
                let mut commands: Vec<CommandToRun> = Vec::new();
                commands.push(git);
                commands.push(sed);
                assert(strings_view(ca) =~= setup_commands(p@, n@)[0].args);
                assert(strings_view(sa) =~= setup_commands(p@, n@)[1].args);
                assert(crate::host::commands_view(commands@) =~= setup_commands(p@, n@));
                self.sequential_commands_to_run.set_up_commands(commands);
            },
            _ => {},
        }
    }

    fn drop_last_char(s: &String) -> (r: String)
        requires
            s@.len() > 0,
        ensures
            r@ == s@.drop_last(),
    {
        let n = s.as_str().unicode_len();
        String::from_str(s.as_str().substring_char(0, n - 1))
    }

    fn handle_key(&mut self, key: &KeyWithModifier) -> (res: (bool, Vec<Action>))
        requires
            update_requires(old(self)@, Event::Key(*key)),
        ensures
            (final(self)@, res.0, actions_view(res.1@)) == key_spec(
                old(self)@,
                *key,
                final(self)@.filepicker_requests.last(),
            ),
            final(self)@.filepicker_requests.len() > old(self)@.filepicker_requests.len()
                ==> is_uuid_v4_text(final(self)@.filepicker_requests.last()),
    {
        if self.error.is_some() {
            // an error goes away with the next key, and the key does nothing else
            self.error = None;
            return (true, Vec::new());
        }
        let no_modifiers = key.has_no_modifiers();
        let ctrl = key.has_modifiers(&[KeyModifier::Ctrl]);
        assert(ctrl == holds(*key, KeyModifier::Ctrl)) by {
            if holds(*key, KeyModifier::Ctrl) {
                assert(seq![KeyModifier::Ctrl][0] == KeyModifier::Ctrl);
            }
        }
        match key.bare_key {
            BareKey::Char(character) => {
                if no_modifiers {
                    let mut name = match self.plugin_name.take() {
                        Some(n) => n,
                        None => String::new(),
                    };
                    string_push(&mut name, character);
                    self.plugin_name = Some(name);
                    let actions = self.query_folder_exists();
                    (true, actions)
                } else if character == 'c' && ctrl {
                    self.plugin_name = None;
                    (true, Vec::new())
                } else if character == 'f' && ctrl {
                    let message = self.filepicker_requests.send_filepicker_request();
                    let mut actions: Vec<Action> = Vec::new();
                    actions.push(Action::PipeMessageToPlugin { message });
                    assert(actions_view(actions@) =~= seq![
                        ActionView::PipeMessageToPlugin {
                            message: filepicker_message(self@.filepicker_requests.last()),
                        },
                    ]);
                    (false, actions)
                } else {
                    (false, Vec::new())
                }
            },
            BareKey::Backspace => {
                if no_modifiers {
                    let erased = match &self.plugin_name {
                        Some(n) => if n.as_str().unicode_len() > 1 {
                            Some(State::drop_last_char(n))
                        } else {
                            None
                        },
                        None => None,
                    };
                    self.plugin_name = erased;
                    let actions = self.query_folder_exists();
                    (true, actions)
                } else {
                    (false, Vec::new())
                }
            },
            BareKey::Enter => {
                if no_modifiers {
                    if self.plugin_name.is_none() {
                        self.error = Some(String::from_str(NAME_EMPTY_ERROR));
                        (true, Vec::new())
                    } else if self.sequential_commands_to_run.sequence_is_running() {
                        self.error = Some(String::from_str(ALREADY_RUNNING_ERROR));
                        (true, Vec::new())
                    } else if self.destination_folder_exists {
                        // the project is there already: only open the development tab
                        let actions = self.start_workspace();
                        (false, actions)
                    } else {
                        self.set_up_commands();
                        let actions = self.sequential_commands_to_run.run_next_commnand();
                        (false, actions)
                    }
                } else {
                    (false, Vec::new())
                }
            },
            BareKey::Esc => {
                if no_modifiers {
                    // the help line promises that Esc closes the plugin
                    let mut actions: Vec<Action> = Vec::new();
                    actions.push(Action::CloseSelf);
                    assert(actions_view(actions@) =~= seq![ActionView::CloseSelf]);
                    (false, actions)
                } else {
                    (false, Vec::new())
                }
            },
            _ => (false, Vec::new()),
        }
    }

    /// Whether `update` may take `event` (see `update_requires`): false only
    /// where starting a command would run the id counter over.
    pub fn can_update(&self, event: &Event) -> (b: bool)
        ensures
            b == update_requires(self@, *event),
    {
        match event {
            Event::Key(key) => {
                let enter_starts = self.error.is_none() && key.bare_key == BareKey::Enter
                    && key.has_no_modifiers() && self.plugin_name.is_some()
                    && !self.sequential_commands_to_run.sequence_is_running()
                    && !self.destination_folder_exists;
                if !enter_starts {
                    true
                } else {
                    match (&self.parent_folder, &self.plugin_name) {
                        (Some(_), Some(_)) => true,
                        _ => self.sequential_commands_to_run.counter_has_room(),
                    }
                }
            },
            Event::CommandPaneExited(_, exit_code, context) => {
                !self.sequential_commands_to_run.exit_moves_on(*exit_code, context)
                    || self.sequential_commands_to_run.counter_has_room()
            },
            _ => true,
        }
    }

    /// Takes an event from the host: changes the state as `update_spec`
    /// says, and gives back whether to draw again and the requests to perform.
    pub fn update(&mut self, event: Event) -> (res: (bool, Vec<Action>))
        requires
            update_requires(old(self)@, event),
        ensures
            (final(self)@, res.0, actions_view(res.1@)) == update_spec(
                old(self)@,
                event,
                final(self)@.filepicker_requests.last(),
            ),
            final(self)@.filepicker_requests.len() > old(self)@.filepicker_requests.len()
                ==> is_uuid_v4_text(final(self)@.filepicker_requests.last()),
    {
        match event {
            Event::RunCommandResult(exit_code, _stdout, _stderr, context) => {
                self.handle_folder_lookup_response(exit_code, &context);
                (true, Vec::new())
            },
            Event::Key(key) => self.handle_key(&key),
            Event::CommandPaneOpened(terminal_pane_id, context) => {
                self.sequential_commands_to_run.register_command_opened(terminal_pane_id, context);
                (true, Vec::new())
            },
            Event::CommandPaneExited(terminal_pane_id, exit_code, context) => {
                let mut actions = self.sequential_commands_to_run.register_command_exited(
                    terminal_pane_id,
                    exit_code,
                    context,
                );
                if self.sequential_commands_to_run.sequence_finished() {
                    let more = self.start_workspace();
                    append_actions(&mut actions, more);
                }
                (false, actions)
            },
            Event::Other => (false, Vec::new()),
        }
    }

    /// Takes a message that came through a pipe, as `pipe_spec` says.
    pub fn pipe(&mut self, pipe_message: PipeMessage) -> (res: (bool, Vec<Action>))
        ensures
            (final(self)@, res.0, actions_view(res.1@)) == pipe_spec(
                old(self)@,
                pipe_message.name@,
                opt_string_view(pipe_message.payload),
                pipe_message.args@,
            ),
    {
        let is_answer = pipe_message.name == String::from_str("filepicker_result");
        if is_answer {
            let folder = self.filepicker_requests.handle_filepicker_response(pipe_message);
            if let Some(chosen_folder) = folder {
                self.parent_folder = Some(chosen_folder);
                let actions = self.query_folder_exists();
                return (true, actions);
            }
        }
        (false, Vec::new())
    }

    /// Takes the plugin's configuration: a `project_dir` entry becomes the
    /// folder to create plugins in. Gives back whether the host's initial
    /// working directory is needed instead (see `set_initial_cwd`).
    pub fn load(&mut self, configuration: &Context) -> (needs_initial_cwd: bool)
        ensures
            (final(self)@, needs_initial_cwd) == load_spec(old(self)@, configuration@),
    {
        if let Some(cwd) = configuration.get("project_dir") {
            self.parent_folder = Some(cwd);
            false
        } else {
            true
        }
    }

    /// Makes the host's initial working directory the folder to create plugins in.
    pub fn set_initial_cwd(&mut self, initial_cwd: String)
        ensures
            final(self)@ == (StateView { parent_folder: Some(initial_cwd@), ..old(self)@ }),
    {
        self.parent_folder = Some(initial_cwd);
    }

    fn single_range(index_level: usize, start: usize, end: Option<usize>) -> (v: Vec<ColorRange>)
        ensures
            v@ == seq![ColorRange { index_level, start, end }],
    {
        let mut v: Vec<ColorRange> = Vec::new();
        v.push(ColorRange { index_level, start, end });
        v
    }

    /// What to draw on a screen of `rows` lines by `cols` columns, as
    /// `render_spec` says: each text with its position and colored stretches.
    pub fn render(&self, rows: usize, cols: usize) -> (items: Vec<TextItem>)
        requires
            parent_folder_display_spec(self@).len() + 24 <= usize::MAX,
        ensures
            text_items_view(items@) == render_spec(self@, rows, cols),
    {
        let plugin_parent_folder_display = self.plugin_parent_folder_display();
        let plugin_name_display = self.plugin_name_display();
        let folder_len = plugin_parent_folder_display.as_str().unicode_len();

        let mut bulletin_1 = String::from_str(BULLETIN_1_PREFIX);
        bulletin_1.append(plugin_parent_folder_display.as_str());
        string_push(&mut bulletin_1, '/');
        bulletin_1.append(plugin_name_display.as_str());
        assert(bulletin_1@ =~= BULLETIN_1_PREFIX@ + slash_join(
            parent_folder_display_spec(self@),
            plugin_name_display_spec(self@),
        ));

        let mut prompt_text = String::from_str(PROMPT_PREFIX);
        if let Some(plugin_name) = &self.plugin_name {
            prompt_text.append(plugin_name.as_str());
        }
        string_push(&mut prompt_text, '_');
        assert(prompt_text@ =~= prompt_spec(self@));

        let bulletin_3_width = BULLETIN_3.unicode_len();
        proof {
            reveal_strlit("3. Open a new tab with your $EDITOR and a development environment");
        }
        let max_width = bulletin_3_width + 2;
        let x_start_position = cols.saturating_sub(max_width) / 2;
        let y_start_position = rows.saturating_sub(8) / 2; // the block is 8 lines high

        let mut items: Vec<TextItem> = Vec::new();
        items.push(TextItem {
            text: String::from_str(TITLE_TEXT),
            color_ranges: State::single_range(2, 0, None),
            x: x_start_position,
            y: y_start_position,
        });
        let mut bulletin_1_ranges = State::single_range(0, 23, Some(24 + folder_len));
        bulletin_1_ranges.push(ColorRange { index_level: 3, start: 24 + folder_len, end: None });
        items.push(TextItem {
            text: bulletin_1,
            color_ranges: bulletin_1_ranges,
            x: x_start_position + 2,
            y: y_start_position + 2,
        });
        items.push(TextItem {
            text: String::from_str(BULLETIN_2),
            color_ranges: Vec::new(),
            x: x_start_position + 2,
            y: y_start_position + 3,
        });
        items.push(TextItem {
            text: String::from_str(BULLETIN_3),
            color_ranges: State::single_range(0, 28, Some(35)),
            x: x_start_position + 2,
            y: y_start_position + 4,
        });
        let mut prompt_ranges = State::single_range(2, 0, Some(12));
        prompt_ranges.push(ColorRange { index_level: 3, start: 13, end: None });
        items.push(TextItem {
            text: prompt_text,
            color_ranges: prompt_ranges,
            x: x_start_position,
            y: y_start_position + 6,
        });
        assert(items@.len() == 5);
        assert(items@[0]@ == render_block(self@, rows, cols)[0]);
        assert(items@[1]@.text == render_block(self@, rows, cols)[1].text);
        assert(items@[1]@.color_ranges == render_block(self@, rows, cols)[1].color_ranges);
        assert(items@[1]@.x == render_block(self@, rows, cols)[1].x);
        assert(items@[2]@ == render_block(self@, rows, cols)[2]);
        assert(items@[3]@ == render_block(self@, rows, cols)[3]);
        assert(items@[4]@.color_ranges == render_block(self@, rows, cols)[4].color_ranges);
        assert(items@[4]@.text == render_block(self@, rows, cols)[4].text);
        assert(text_items_view(items@) =~~= render_block(self@, rows, cols));
        let ghost after_block = items@;
        if self.destination_folder_exists {
            items.push(TextItem {
                text: String::from_str(WARNING_TEXT),
                color_ranges: State::single_range(3, 0, None),
                x: x_start_position,
                y: y_start_position + 8,
            });
        }
        assert(text_items_view(items@) =~~= render_block(self@, rows, cols) + render_warning(
            self@,
            rows,
            cols,
        ));
        let ghost after_warning = items@;
        if let Some(error) = &self.error {
            let mut error_text = String::from_str(ERROR_PREFIX);
            error_text.append(error.as_str());
            let line_index = if self.destination_folder_exists {
                y_start_position + 10
            } else {
                y_start_position + 8
            };
            items.push(TextItem {
                text: error_text,
                color_ranges: State::single_range(3, 0, None),
                x: x_start_position,
                y: line_index,
            });
        }
        assert(text_items_view(items@) =~~= render_block(self@, rows, cols) + render_warning(
            self@,
            rows,
            cols,
        ) + render_error(self@, rows, cols));
        let mut help_ranges = State::single_range(3, 6, Some(13));
        help_ranges.push(ColorRange { index_level: 3, start: 31, end: Some(39) });
        help_ranges.push(ColorRange { index_level: 3, start: 62, end: Some(67) });
        items.push(TextItem {
            text: String::from_str(HELP_TEXT),
            color_ranges: help_ranges,
            x: 0,
            y: rows,
        });
        assert(items@.last()@.color_ranges == render_help(rows)[0].color_ranges);
        assert(items@.last()@ == render_help(rows)[0]);
        assert(text_items_view(items@) =~~= render_spec(self@, rows, cols));
        items
    }

    fn start_workspace(&self) -> (actions: Vec<Action>)
        ensures
            actions_view(actions@) == start_workspace_spec(self@),
    {
        let mut actions: Vec<Action> = Vec::new();
        match (&self.parent_folder, &self.plugin_name) {
            (Some(parent_folder), Some(plugin_name)) => {
                let plugin_folder = path_join(parent_folder.as_str(), plugin_name.as_str());
                let layout = workspace_layout(plugin_folder.as_str(), DEVELOP_RUST_PLUGIN_URL);
                actions.push(Action::NewTabsWithLayout { layout });
                actions.push(Action::CloseSelf);
                assert(actions_view(actions@) =~= start_workspace_spec(self@));
            },
            _ => {
                assert(actions_view(actions@) =~= Seq::<ActionView>::empty());
            },
        }
        actions
    }
}

} // verus!
