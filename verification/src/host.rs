//! What the plugin asks of the host: commands to run, panes to open and
//! close, messages to other plugins, and new tabs. Each request is a plain
//! value here; the code that talks to the host performs it.
use vstd::prelude::*;
use crate::context::Context;

verus! {

/// A pane of the host, told apart by kind and number.
#[derive(Clone, Copy, Debug, PartialEq, Eq, Structural)]
pub enum PaneId {
    Terminal(u32),
    Plugin(u32),
}

/// A command line to run in a pane: the program, its arguments, and the
/// directory to run it in.
#[derive(Debug)]
pub struct CommandToRun {
    pub path: String,
    pub args: Vec<String>,
    pub cwd: Option<String>,
}

/// A command as characters.
pub struct CommandView {
    pub path: Seq<char>,
    pub args: Seq<Seq<char>>,
    pub cwd: Option<Seq<char>>,
}

/// The characters of each string, in order.
pub open spec fn strings_view(v: Seq<String>) -> Seq<Seq<char>> {
    v.map_values(|s: String| s@)
}

/// The characters of an optional string.
pub open spec fn opt_string_view(o: Option<String>) -> Option<Seq<char>> {
    match o {
        Some(s) => Some(s@),
        None => None,
    }
}

impl View for CommandToRun {
    type V = CommandView;

    open spec fn view(&self) -> CommandView {
        CommandView {
            path: self.path@,
            args: strings_view(self.args@),
            cwd: opt_string_view(self.cwd),
        }
    }
}

/// The views of a sequence of commands.
pub open spec fn commands_view(v: Seq<CommandToRun>) -> Seq<CommandView> {
    v.map_values(|c: CommandToRun| c@)
}

/// A copy of `v`, string by string.
pub fn copy_strings(v: &Vec<String>) -> (r: Vec<String>)
    ensures
        strings_view(r@) == strings_view(v@),
{
    let mut r: Vec<String> = Vec::new();
    let n = v.len();
    let mut i: usize = 0;
    while i < n
        invariant
            i <= n,
            n == v@.len(),
            r@.len() == i,
            forall|j: int| 0 <= j < i ==> #[trigger] r@[j]@ == v@[j]@,
        decreases n - i,
    {
        r.push(v[i].clone());
        i = i + 1;
    }
    assert(strings_view(r@) =~= strings_view(v@));
    r
}

/// A copy of an optional string.
pub fn copy_opt_string(o: &Option<String>) -> (r: Option<String>)
    ensures
        opt_string_view(r) == opt_string_view(*o),
{
    match o {
        Some(s) => Some(s.clone()),
        None => None,
    }
}

impl CommandToRun {
    /// The command `path` with the arguments `args`, run in no directory in particular.
    pub fn new_with_args(path: String, args: Vec<String>) -> (c: CommandToRun)
        ensures
            c@ == (CommandView { path: path@, args: strings_view(args@), cwd: None }),
    {
        CommandToRun { path, args, cwd: None }
    }

    /// A copy of this command.
    pub fn copy(&self) -> (c: CommandToRun)
        ensures
            c@ == self@,
    {
        CommandToRun {
            path: self.path.clone(),
            args: copy_strings(&self.args),
            cwd: copy_opt_string(&self.cwd),
        }
    }
}

/// A copy of `v`, command by command.
pub fn copy_commands(v: &Vec<CommandToRun>) -> (r: Vec<CommandToRun>)
    ensures
        commands_view(r@) == commands_view(v@),
{
    let mut r: Vec<CommandToRun> = Vec::new();
    let n = v.len();
    let mut i: usize = 0;
    while i < n
        invariant
            i <= n,
            n == v@.len(),
            r@.len() == i,
            forall|j: int| 0 <= j < i ==> #[trigger] r@[j]@ == v@[j]@,
        decreases n - i,
    {
        r.push(v[i].copy());
        i = i + 1;
    }
    assert(commands_view(r@) =~= commands_view(v@));
    r
}

/// A message for another plugin, which the host starts in a new pane if
/// none runs yet.
#[derive(Debug)]
pub struct MessageToPlugin {
    pub message_name: String,
    pub plugin_url: Option<String>,
    pub plugin_config: Context,
    pub message_args: Context,
    pub new_plugin_pane_title: Option<String>,
}

/// A message for another plugin, as characters.
pub struct MessageView {
    pub message_name: Seq<char>,
    pub plugin_url: Option<Seq<char>>,
    pub plugin_config: Seq<(Seq<char>, Seq<char>)>,
    pub message_args: Seq<(Seq<char>, Seq<char>)>,
    pub new_plugin_pane_title: Option<Seq<char>>,
}

impl View for MessageToPlugin {
    type V = MessageView;

    open spec fn view(&self) -> MessageView {
        MessageView {
            message_name: self.message_name@,
            plugin_url: opt_string_view(self.plugin_url),
            plugin_config: self.plugin_config@,
            message_args: self.message_args@,
            new_plugin_pane_title: opt_string_view(self.new_plugin_pane_title),
        }
    }
}

/// One request to the host.
#[derive(Debug)]
pub enum Action {
    /// Run a command in the background; its exit code comes back with `context`.
    RunCommand { command_line: Vec<String>, context: Context },
    /// Open a floating pane that runs `command`; its events come back with `context`.
    OpenCommandPaneFloating { command: CommandToRun, context: Context },
    /// Close a terminal pane.
    CloseTerminalPane { pane_id: u32 },
    /// Send a message to another plugin.
    PipeMessageToPlugin { message: MessageToPlugin },
    /// Open new tabs from a layout written in KDL.
    NewTabsWithLayout { layout: String },
    /// Close this plugin.
    CloseSelf,
}

/// A request to the host, as plain values.
pub enum ActionView {
    RunCommand { command_line: Seq<Seq<char>>, context: Seq<(Seq<char>, Seq<char>)> },
    OpenCommandPaneFloating { command: CommandView, context: Seq<(Seq<char>, Seq<char>)> },
    CloseTerminalPane { pane_id: u32 },
    PipeMessageToPlugin { message: MessageView },
    NewTabsWithLayout { layout: Seq<char> },
    CloseSelf,
}

impl View for Action {
    type V = ActionView;

    open spec fn view(&self) -> ActionView {
        match self {
            Action::RunCommand { command_line, context } => ActionView::RunCommand {
                command_line: strings_view(command_line@),
                context: context@,
            },
            Action::OpenCommandPaneFloating { command, context } =>
                ActionView::OpenCommandPaneFloating { command: command@, context: context@ },
            Action::CloseTerminalPane { pane_id } => ActionView::CloseTerminalPane {
                pane_id: *pane_id,
            },
            Action::PipeMessageToPlugin { message } => ActionView::PipeMessageToPlugin {
                message: message@,
            },
            Action::NewTabsWithLayout { layout } => ActionView::NewTabsWithLayout {
                layout: layout@,
            },
            Action::CloseSelf => ActionView::CloseSelf,
        }
    }
}

/// The views of a sequence of requests.
pub open spec fn actions_view(v: Seq<Action>) -> Seq<ActionView> {
    v.map_values(|a: Action| a@)
}

/// Appends the requests of `more` to `actions`, in order.
pub fn append_actions(actions: &mut Vec<Action>, more: Vec<Action>)
    ensures
        actions_view(final(actions)@) == actions_view(old(actions)@) + actions_view(more@),
{
    let mut more = more;
    let ghost a = old(actions)@;
    let ghost b = more@;
    actions.append(&mut more);
    assert(actions_view(a + b) =~= actions_view(a) + actions_view(b));
}

} // verus!
