//! Runs a list of commands one after another, each in a floating pane of
//! its own, and starts over from the first one after a failure.
//!
//! Every command is opened with a context that carries a fresh number
//! (its id). The host hands that context back when the pane opens and when
//! the command exits; only the answer for the latest id moves the sequence on.
use vstd::prelude::*;
use crate::context::{lookup, Context};
use crate::host::{
    actions_view, commands_view, copy_commands, Action, ActionView, CommandToRun, CommandView,
    PaneId,
};
use crate::text::{
    decimal, lemma_decimal_parses_back, parse_usize, parse_usize_spec, trim, trim_spec,
    usize_to_decimal,
};

verus! {

/// The state of a command sequence, as plain values.
pub struct SequenceView {
    pub open_terminal_pane_ids: Seq<u32>,
    pub sequence_errored: bool,
    pub all_commands: Seq<CommandView>,
    pub pending_commands: Seq<CommandView>,
    pub running_command: Option<(CommandView, PaneId, usize)>,
    pub next_id: usize,
}

/// The commands of a sequence, the panes they were opened in, and where it stands.
#[derive(Debug)]
pub struct SequentialCommandsToRun {
    open_terminal_pane_ids: Vec<u32>,
    sequence_errored: bool,
    all_commands: Vec<CommandToRun>,
    pending_commands: Vec<CommandToRun>,
    running_command: Option<(CommandToRun, PaneId, usize)>,
    next_id: usize,
}

/// The view of the command that runs, if one does.
pub open spec fn running_view(r: Option<(CommandToRun, PaneId, usize)>) -> Option<
    (CommandView, PaneId, usize),
> {
    match r {
        Some(t) => Some((t.0@, t.1, t.2)),
        None => None,
    }
}

impl View for SequentialCommandsToRun {
    type V = SequenceView;

    closed spec fn view(&self) -> SequenceView {
        SequenceView {
            open_terminal_pane_ids: self.open_terminal_pane_ids@,
            sequence_errored: self.sequence_errored,
            all_commands: commands_view(self.all_commands@),
            pending_commands: commands_view(self.pending_commands@),
            running_command: running_view(self.running_command),
            next_id: self.next_id,
        }
    }
}

/// A sequence with no commands and nothing open.
pub open spec fn empty_sequence() -> SequenceView {
    SequenceView {
        open_terminal_pane_ids: Seq::empty(),
        sequence_errored: false,
        all_commands: Seq::empty(),
        pending_commands: Seq::empty(),
        running_command: None,
        next_id: 0,
    }
}

/// The key under which a command's id travels in its context.
pub open spec fn id_key() -> Seq<char> {
    "id"@
}

/// The context that goes with the command of id `id`.
pub open spec fn id_context(id: usize) -> Seq<(Seq<char>, Seq<char>)> {
    seq![(id_key(), decimal(id as nat))]
}

/// The id that a context carries: its `id` entry, trimmed and read as a number.
pub open spec fn context_id(ctx: Seq<(Seq<char>, Seq<char>)>) -> Option<usize> {
    match lookup(ctx, id_key()) {
        Some(v) => parse_usize_spec(trim_spec(v)),
        None => None,
    }
}

/// The id handed out last (0 when none was).
pub open spec fn latest_id(s: SequenceView) -> usize {
    if s.next_id == 0 {
        0
    } else {
        (s.next_id - 1) as usize
    }
}

/// `s` with `commands` to run from the first one on.
pub open spec fn set_up_spec(s: SequenceView, commands: Seq<CommandView>) -> SequenceView {
    SequenceView {
        all_commands: commands,
        pending_commands: commands,
        running_command: None,
        next_id: 0,
        ..s
    }
}

/// Whether the sequence is under way: it has not failed, and a command
/// waits or runs.
pub open spec fn is_running_spec(s: SequenceView) -> bool {
    !s.sequence_errored && (s.pending_commands.len() > 0 || s.running_command is Some)
}

/// Whether no command waits and none runs.
pub open spec fn is_finished_spec(s: SequenceView) -> bool {
    s.pending_commands.len() == 0 && s.running_command is None
}

/// The requests that close the panes `ids`, in order.
pub open spec fn close_panes(ids: Seq<u32>) -> Seq<ActionView> {
    ids.map_values(|id: u32| ActionView::CloseTerminalPane { pane_id: id })
}

/// After a failure: every pane that was opened is closed, and all the
/// commands wait again.
pub open spec fn restart_spec(s: SequenceView) -> (SequenceView, Seq<ActionView>) {
    (
        SequenceView {
            open_terminal_pane_ids: Seq::empty(),
            pending_commands: s.all_commands,
            running_command: None,
            sequence_errored: false,
            ..s
        },
        close_panes(s.open_terminal_pane_ids),
    )
}

/// The request that opens `command` as the command of id `id`.
pub open spec fn open_action(command: CommandView, id: usize) -> ActionView {
    ActionView::OpenCommandPaneFloating { command, context: id_context(id) }
}

/// Starting the next command: first a restart if the sequence failed, then,
/// if a command waits, a pane for the first waiting one, under a fresh id.
/// The command stays waiting until its pane is reported open.
pub open spec fn run_next_spec(s: SequenceView) -> (SequenceView, Seq<ActionView>) {
    let (r, closes) = if s.sequence_errored {
        restart_spec(s)
    } else {
        (s, Seq::<ActionView>::empty())
    };
    if r.pending_commands.len() > 0 {
        (
            SequenceView { next_id: (r.next_id + 1) as usize, ..r },
            closes.push(open_action(r.pending_commands[0], r.next_id)),
        )
    } else {
        (r, closes)
    }
}

/// Whether starting the next command opens a pane (and takes an id).
pub open spec fn opens_next(s: SequenceView) -> bool {
    if s.sequence_errored {
        s.all_commands.len() > 0
    } else {
        s.pending_commands.len() > 0
    }
}

/// A pane was reported open: it is remembered, and if its context carries
/// the latest id while a command waits, the first waiting command now runs in it.
pub open spec fn opened_spec(s: SequenceView, pane: u32, ctx: Seq<(Seq<char>, Seq<char>)>) -> SequenceView {
    let s1 = SequenceView { open_terminal_pane_ids: s.open_terminal_pane_ids.push(pane), ..s };
    match context_id(ctx) {
        Some(id) => if id == latest_id(s) && s.pending_commands.len() > 0 {
            SequenceView {
                pending_commands: s.pending_commands.drop_first(),
                running_command: Some((s.pending_commands[0], PaneId::Terminal(pane), id)),
                ..s1
            }
        } else {
            s1
        },
        None => s1,
    }
}

/// Whether an exit report moves the sequence on: the command succeeded and
/// its context carries the latest id.
pub open spec fn exit_advances(s: SequenceView, exit_code: Option<i32>, ctx: Seq<(Seq<char>, Seq<char>)>) -> bool {
    exit_code == Some(0i32) && context_id(ctx) == Some(latest_id(s))
}

/// A command exited. On success with the latest id, nothing runs any more,
/// its pane is closed and the next command starts; on success with another
/// id or none, nothing changes; on failure, the sequence is marked failed.
pub open spec fn exited_spec(
    s: SequenceView,
    pane: u32,
    exit_code: Option<i32>,
    ctx: Seq<(Seq<char>, Seq<char>)>,
) -> (SequenceView, Seq<ActionView>) {
    if exit_code == Some(0i32) {
        if context_id(ctx) == Some(latest_id(s)) {
            let (s2, acts) = run_next_spec(SequenceView { running_command: None, ..s });
            (s2, seq![ActionView::CloseTerminalPane { pane_id: pane }] + acts)
        } else {
            (s, Seq::empty())
        }
    } else {
        (SequenceView { sequence_errored: true, ..s }, Seq::empty())
    }
}

/// The context a command is opened with reads back as that command's id.
pub proof fn lemma_id_context_reads_back(id: usize)
    ensures
        context_id(id_context(id)) == Some(id),
{
    lemma_decimal_parses_back(id);
    assert(id_context(id).drop_first().len() == 0);
}

/// Starting the next command of a sequence that has not failed opens the
/// first waiting command under the id `next_id`; when the host reports the
/// pane open with the context it was given, that command runs in the pane and
/// no longer waits.
pub proof fn law_opened_command_runs(s: SequenceView, pane: u32)
    requires
        !s.sequence_errored,
        s.pending_commands.len() > 0,
        s.next_id < usize::MAX,
    ensures
        ({
            let (s1, actions) = run_next_spec(s);
            let s2 = opened_spec(s1, pane, id_context(s.next_id));
            &&& actions == seq![open_action(s.pending_commands[0], s.next_id)]
            &&& s2.running_command == Some(
                (s.pending_commands[0], PaneId::Terminal(pane), s.next_id),
            )
            &&& s2.pending_commands == s.pending_commands.drop_first()
            &&& s2.open_terminal_pane_ids == s.open_terminal_pane_ids.push(pane)
        }),
{
    lemma_id_context_reads_back(s.next_id);
    assert(Seq::<ActionView>::empty().push(open_action(s.pending_commands[0], s.next_id))
        =~= seq![open_action(s.pending_commands[0], s.next_id)]);
}

/// A command was opened (it is the first waiting one, under the latest id)
/// and its pane not yet reported open.
pub open spec fn awaiting_pane(s: SequenceView) -> bool {
    &&& !s.sequence_errored
    &&& s.running_command is None
    &&& s.pending_commands.len() > 0
    &&& s.next_id > 0
}

/// The opened command is reported open in `pane` and then reported to have
/// exited with code 0, both with the context it was opened with.
pub open spec fn succeed_step(s: SequenceView, pane: u32) -> (SequenceView, Seq<ActionView>) {
    let ctx = id_context(latest_id(s));
    exited_spec(opened_spec(s, pane, ctx), pane, Some(0i32), ctx)
}

/// When the opened command runs in `pane` and succeeds, its pane closes and
/// the next command is opened under the next id; after the last one nothing
/// is opened. The commands are taken in order, and none is left running.
pub proof fn law_success_moves_on(s: SequenceView, pane: u32)
    requires
        awaiting_pane(s),
        s.next_id < usize::MAX,
    ensures
        ({
            let (s2, actions) = succeed_step(s, pane);
            &&& s2.pending_commands == s.pending_commands.drop_first()
            &&& s2.all_commands == s.all_commands
            &&& s2.running_command is None
            &&& !s2.sequence_errored
            &&& if s.pending_commands.len() > 1 {
                &&& s2.next_id == s.next_id + 1
                &&& actions == seq![
                    ActionView::CloseTerminalPane { pane_id: pane },
                    open_action(s.pending_commands[1], s.next_id),
                ]
            } else {
                &&& s2.next_id == s.next_id
                &&& actions == seq![ActionView::CloseTerminalPane { pane_id: pane }]
            }
        }),
{
    let id = latest_id(s);
    lemma_id_context_reads_back(id);
    let s1 = opened_spec(s, pane, id_context(id));
    assert(latest_id(s1) == id);
    let s1b = SequenceView { running_command: None, ..s1 };
    let (s2, more) = run_next_spec(s1b);
    if s.pending_commands.len() > 1 {
        assert(s1b.pending_commands[0] == s.pending_commands[1]);
        assert(more =~= seq![open_action(s.pending_commands[1], s.next_id)]);
    } else {
        assert(more =~= Seq::<ActionView>::empty());
    }
    assert(seq![ActionView::CloseTerminalPane { pane_id: pane }] + more =~= succeed_step(s, pane).1);
}

/// Each command in turn runs in the next of `panes` and succeeds.
pub open spec fn run_through(s: SequenceView, panes: Seq<u32>) -> SequenceView
    decreases panes.len(),
{
    if panes.len() == 0 {
        s
    } else {
        run_through(succeed_step(s, panes[0]).0, panes.drop_first())
    }
}

/// When every waiting command, in turn, runs and succeeds, the sequence
/// ends finished and not failed.
pub proof fn law_sequence_runs_to_the_end(s: SequenceView, panes: Seq<u32>)
    requires
        awaiting_pane(s),
        panes.len() == s.pending_commands.len(),
        s.next_id + s.pending_commands.len() <= usize::MAX,
    ensures
        is_finished_spec(run_through(s, panes)),
        !run_through(s, panes).sequence_errored,
        !is_running_spec(run_through(s, panes)),
    decreases panes.len(),
{
    law_success_moves_on(s, panes[0]);
    let s2 = succeed_step(s, panes[0]).0;
    if s.pending_commands.len() > 1 {
        law_sequence_runs_to_the_end(s2, panes.drop_first());
    } else {
        assert(panes.drop_first().len() == 0);
    }
}

/// Setting up commands and starting the first one opens it under id 0,
/// after closing the panes of a failed earlier run; the sequence then waits
/// for that pane.
pub proof fn law_setup_opens_first(s: SequenceView, commands: Seq<CommandView>)
    requires
        commands.len() > 0,
    ensures
        ({
            let (s0, actions) = run_next_spec(set_up_spec(s, commands));
            &&& awaiting_pane(s0)
            &&& s0.pending_commands == commands
            &&& s0.all_commands == commands
            &&& s0.next_id == 1
            &&& actions == (if s.sequence_errored {
                close_panes(s.open_terminal_pane_ids)
            } else {
                Seq::empty()
            }).push(open_action(commands[0], 0))
        }),
{
}

/// Commands that are set up, started, and each run and succeed in turn
/// leave the sequence finished and not failed.
pub proof fn law_commands_run_to_the_end(
    s: SequenceView,
    commands: Seq<CommandView>,
    panes: Seq<u32>,
)
    requires
        0 < commands.len() < usize::MAX,
        panes.len() == commands.len(),
    ensures
        is_finished_spec(run_through(run_next_spec(set_up_spec(s, commands)).0, panes)),
        !run_through(run_next_spec(set_up_spec(s, commands)).0, panes).sequence_errored,
{
    law_setup_opens_first(s, commands);
    law_sequence_runs_to_the_end(run_next_spec(set_up_spec(s, commands)).0, panes);
}

/// A command that exits with anything but code 0 marks the sequence failed,
/// so it no longer counts as running; starting the next command then closes
/// every pane opened so far and begins again from the first command.
pub proof fn law_failure_restarts(
    s: SequenceView,
    pane: u32,
    exit_code: Option<i32>,
    ctx: Seq<(Seq<char>, Seq<char>)>,
)
    requires
        exit_code != Some(0i32),
        s.all_commands.len() > 0,
        s.next_id < usize::MAX,
    ensures
        ({
            let (s1, a1) = exited_spec(s, pane, exit_code, ctx);
            let (s2, a2) = run_next_spec(s1);
            &&& a1 == Seq::<ActionView>::empty()
            &&& s1.sequence_errored
            &&& !is_running_spec(s1)
            &&& a2 == close_panes(s.open_terminal_pane_ids).push(open_action(s.all_commands[0], s.next_id))
            &&& s2.pending_commands == s.all_commands
            &&& s2.open_terminal_pane_ids == Seq::<u32>::empty()
            &&& !s2.sequence_errored
            &&& s2.next_id == s.next_id + 1
        }),
{
}

/// Whether the waiting commands are the last ones of all the commands, in
/// the same order: the sequence only ever takes commands from the front.
pub open spec fn pending_is_suffix(s: SequenceView) -> bool {
    &&& s.pending_commands.len() <= s.all_commands.len()
    &&& s.pending_commands == s.all_commands.subrange(
        s.all_commands.len() - s.pending_commands.len(),
        s.all_commands.len() as int,
    )
}

proof fn lemma_whole_is_suffix(commands: Seq<CommandView>)
    ensures
        commands == commands.subrange(commands.len() - commands.len(), commands.len() as int),
{
    assert(commands =~= commands.subrange(0, commands.len() as int));
}

proof fn lemma_drop_first_is_suffix(s: SequenceView)
    requires
        pending_is_suffix(s),
        s.pending_commands.len() > 0,
    ensures
        pending_is_suffix(SequenceView { pending_commands: s.pending_commands.drop_first(), ..s }),
{
    let all = s.all_commands;
    let k = s.pending_commands.len();
    assert(s.pending_commands.drop_first() =~= all.subrange(all.len() - (k - 1), all.len() as int));
}

/// Every step keeps the waiting commands a suffix of all the commands: the
/// empty sequence, setting up, starting the next command, restarting, a pane
/// reported open, and a command reported exited.
pub proof fn law_pending_is_suffix_of_all(
    s: SequenceView,
    commands: Seq<CommandView>,
    pane: u32,
    exit_code: Option<i32>,
    ctx: Seq<(Seq<char>, Seq<char>)>,
)
    requires
        pending_is_suffix(s),
    ensures
        pending_is_suffix(empty_sequence()),
        pending_is_suffix(set_up_spec(s, commands)),
        pending_is_suffix(restart_spec(s).0),
        pending_is_suffix(run_next_spec(s).0),
        pending_is_suffix(opened_spec(s, pane, ctx)),
        pending_is_suffix(exited_spec(s, pane, exit_code, ctx).0),
{
    lemma_whole_is_suffix(Seq::<CommandView>::empty());
    lemma_whole_is_suffix(commands);
    lemma_whole_is_suffix(s.all_commands);
    if s.pending_commands.len() > 0 {
        lemma_drop_first_is_suffix(s);
    }
}

/// A sequence that has not failed is running exactly when a command waits
/// or one runs, and a failed one never is; it is finished exactly when no
/// command waits and none runs, failed or not.
pub proof fn law_running_and_finished(s: SequenceView)
    ensures
        !s.sequence_errored ==> (is_running_spec(s) <==> (s.pending_commands.len() > 0
            || s.running_command is Some)),
        s.sequence_errored ==> !is_running_spec(s),
        is_finished_spec(s) <==> (s.pending_commands.len() == 0 && s.running_command is None),
{
}

/// A command that was opened and reported open, and has not exited, keeps
/// the sequence running and unfinished, even when it is the last one.
pub proof fn law_opened_command_keeps_running(s: SequenceView, pane: u32)
    requires
        !s.sequence_errored,
        s.pending_commands.len() > 0,
        s.next_id < usize::MAX,
    ensures
        ({
            let s2 = opened_spec(run_next_spec(s).0, pane, id_context(s.next_id));
            &&& s2.running_command is Some
            &&& is_running_spec(s2)
            &&& !is_finished_spec(s2)
        }),
{
    law_opened_command_runs(s, pane);
}

/// A failed exit of a running command leaves that command as the running
/// one: the sequence is neither finished nor running, and nothing is asked
/// of the host.
pub proof fn law_failure_finishes_nothing(
    s: SequenceView,
    pane: u32,
    exit_code: Option<i32>,
    ctx: Seq<(Seq<char>, Seq<char>)>,
)
    requires
        exit_code != Some(0i32),
        s.running_command is Some,
    ensures
        ({
            let (s1, actions) = exited_spec(s, pane, exit_code, ctx);
            &&& actions.len() == 0
            &&& s1.sequence_errored
            &&& s1.running_command == s.running_command
            &&& !is_finished_spec(s1)
            &&& !is_running_spec(s1)
        }),
{
}

impl Default for SequentialCommandsToRun {
    fn default() -> (r: SequentialCommandsToRun)
        ensures
            r@ == empty_sequence(),
    {
        SequentialCommandsToRun::new()
    }
}

impl SequentialCommandsToRun {
    /// A sequence with no commands.
    pub fn new() -> (r: SequentialCommandsToRun)
        ensures
            r@ == empty_sequence(),
    {
        let r = SequentialCommandsToRun {
            open_terminal_pane_ids: Vec::new(),
            sequence_errored: false,
            all_commands: Vec::new(),
            pending_commands: Vec::new(),
            running_command: None,
            next_id: 0,
        };
        assert(r@.all_commands =~= Seq::<CommandView>::empty());
        assert(r@.pending_commands =~= Seq::<CommandView>::empty());
        r
    }

    /// Takes `commands` as the sequence to run, from the first one, with ids
    /// counted from 0 again. Panes opened before stay remembered.
    pub fn set_up_commands(&mut self, commands: Vec<CommandToRun>)
        ensures
            final(self)@ == set_up_spec(old(self)@, commands_view(commands@)),
    {
        self.all_commands = copy_commands(&commands);
        self.pending_commands = commands;
        self.running_command = None;
        self.next_id = 0;
    }

    /// Hands out the next id.
    pub fn next_command_id(&mut self) -> (id: usize)
        requires
            old(self)@.next_id < usize::MAX,
        ensures
            id == old(self)@.next_id,
            final(self)@ == (SequenceView { next_id: (id + 1) as usize, ..old(self)@ }),
    {
        let id = self.next_id;
        self.next_id = self.next_id + 1;
        id
    }

    /// Whether starting the next command can take an id without the id
    /// counter running over.
    pub fn counter_has_room(&self) -> (b: bool)
        ensures
            b == (opens_next(self@) ==> self@.next_id < usize::MAX),
    {
        let opens = if self.sequence_errored {
            self.all_commands.len() > 0
        } else {
            self.pending_commands.len() > 0
        };
        !opens || self.next_id < usize::MAX
    }

    /// Whether an exit report with `exit_code` and `context` moves the
    /// sequence on (see `exit_advances`).
    pub fn exit_moves_on(&self, exit_code: Option<i32>, context: &Context) -> (b: bool)
        ensures
            b == exit_advances(self@, exit_code, context@),
    {
        if exit_code != Some(0i32) {
            return false;
        }
        let id = match context.get("id") {
            Some(v) => parse_usize(trim(v.as_str())),
            None => None,
        };
        match id {
            Some(command_id) => command_id == self.next_id.saturating_sub(1),
            None => false,
        }
    }

    /// Whether the sequence is under way.
    pub fn sequence_is_running(&self) -> (b: bool)
        ensures
            b == is_running_spec(self@),
    {
        if self.sequence_errored {
            false
        } else {
            self.pending_commands.len() > 0 || self.running_command.is_some()
        }
    }

    /// Whether no command waits and none runs.
    pub fn sequence_finished(&self) -> (b: bool)
        ensures
            b == is_finished_spec(self@),
    {
        self.pending_commands.len() == 0 && self.running_command.is_none()
    }

    fn restart_sequence(&mut self) -> (actions: Vec<Action>)
        ensures
            (final(self)@, actions_view(actions@)) == restart_spec(old(self)@),
    {
        let mut actions: Vec<Action> = Vec::new();
        let n = self.open_terminal_pane_ids.len();
        let mut i: usize = 0;
        while i < n
            invariant
                i <= n,
                n == self.open_terminal_pane_ids@.len(),
                actions_view(actions@) == close_panes(self.open_terminal_pane_ids@.subrange(0, i as int)),
            decreases n - i,
        {
            let ghost before = actions@;
            actions.push(Action::CloseTerminalPane { pane_id: self.open_terminal_pane_ids[i] });
            assert(actions_view(actions@) =~= actions_view(before).push(
                ActionView::CloseTerminalPane { pane_id: self.open_terminal_pane_ids@[i as int] },
            ));
            assert(close_panes(self.open_terminal_pane_ids@.subrange(0, i + 1)) =~= close_panes(
                self.open_terminal_pane_ids@.subrange(0, i as int),
            ).push(ActionView::CloseTerminalPane { pane_id: self.open_terminal_pane_ids@[i as int] }));
            i = i + 1;
        }
        assert(self.open_terminal_pane_ids@.subrange(0, n as int) =~= self.open_terminal_pane_ids@);
        self.open_terminal_pane_ids = Vec::new();
        self.pending_commands = copy_commands(&self.all_commands);
        self.running_command = None;
        self.sequence_errored = false;
        assert(self@.open_terminal_pane_ids =~= Seq::<u32>::empty());
        actions
    }

    /// Starts the next command: restarts the sequence first if it failed,
    /// then opens a floating pane for the first waiting command, if any, with
    /// a context that carries a fresh id.
    pub fn run_next_commnand(&mut self) -> (actions: Vec<Action>)
        requires
            opens_next(old(self)@) ==> old(self)@.next_id < usize::MAX,
        ensures
            (final(self)@, actions_view(actions@)) == run_next_spec(old(self)@),
    {
        let mut actions: Vec<Action> = if self.sequence_errored {
            self.restart_sequence()
        } else {
            Vec::new()
        };
        if self.pending_commands.len() > 0 {
            let command_id = self.next_command_id();
            let context = Context::single(String::from_str("id"), usize_to_decimal(command_id));
            let command = self.pending_commands[0].copy();
            let ghost before = actions@;
            actions.push(Action::OpenCommandPaneFloating { command, context });
            assert(actions_view(actions@) =~= actions_view(before).push(
                open_action(self@.pending_commands[0], command_id),
            ));
        }
        actions
    }

    /// A pane was reported open with `context`: it is remembered, and if the
    /// context carries the latest id while a command waits, the first waiting
    /// command now runs in that pane.
    pub fn register_command_opened(&mut self, terminal_pane_id: u32, context: Context)
        ensures
            final(self)@ == opened_spec(old(self)@, terminal_pane_id, context@),
    {
        self.open_terminal_pane_ids.push(terminal_pane_id);
        let id = match context.get("id") {
            Some(v) => parse_usize(trim(v.as_str())),
            None => None,
        };
        if let Some(command_id) = id {
            let latest = self.next_id.saturating_sub(1);
            if command_id == latest && self.pending_commands.len() > 0 {
                let ghost pending = self.pending_commands@;
                let next_command = self.pending_commands.remove(0);
                assert(commands_view(self.pending_commands@) =~= commands_view(pending).drop_first());
                self.running_command = Some((next_command, PaneId::Terminal(terminal_pane_id), command_id));
            }
        }
    }

    /// A command exited with `exit_code`, reported with `context`. See
    /// `exited_spec` for what follows; the requests returned close the
    /// command's pane and open the next one.
    pub fn register_command_exited(
        &mut self,
        terminal_pane_id: u32,
        exit_code: Option<i32>,
        context: Context,
    ) -> (actions: Vec<Action>)
        requires
            exit_advances(old(self)@, exit_code, context@) && opens_next(old(self)@)
                ==> old(self)@.next_id < usize::MAX,
        ensures
            (final(self)@, actions_view(actions@)) == exited_spec(
                old(self)@,
                terminal_pane_id,
                exit_code,
                context@,
            ),
    {
        let mut actions: Vec<Action> = Vec::new();
        if exit_code == Some(0i32) {
            let id = match context.get("id") {
                Some(v) => parse_usize(trim(v.as_str())),
                None => None,
            };
            if let Some(command_id) = id {
                if command_id == self.next_id.saturating_sub(1) {
                    self.running_command = None;
                    actions.push(Action::CloseTerminalPane { pane_id: terminal_pane_id });
                    let more = self.run_next_commnand();
                    let ghost first = actions@;
                    crate::host::append_actions(&mut actions, more);
                    assert(actions_view(first) =~= seq![
                        ActionView::CloseTerminalPane { pane_id: terminal_pane_id },
                    ]);
                }
            }
        } else {
            self.sequence_errored = true;
        }
        actions
    }
}

} // verus!
