//! The application state machine: what each action and key does to the
//! data, the screens and the mode, and which outside work it asks for.
//!
//! The state machine does no I/O. Each step returns the effects the caller
//! performs in order: saving the data, starting a run, and signalling a run.

use vstd::prelude::*;
use crate::action::{AppAction, ConfirmChoice, DeleteKind, ReorderKind};
use crate::models::{clone_groups, clone_vec, groups_view, now_utc, AppData, Command, CommandSet, CommandSetView, ExecMode, Group, GroupView, ShellCommand, ShellType, Timestamp, Variable};
use crate::models::edit::{saved_data, saved_moves, swap_items, swapped, with_sets};
use crate::text::{copy_str, decimal, push_decimal};
use crate::ui::detail_screen::opened_on;
use crate::ui::detail_screen::detail_key_post;
use crate::ui::execution_screen::exec_key_post;
use crate::ui::keys::{KeyCode, KeyEvent};
use crate::ui::main_screen::{main_key_post, Panel};
use crate::ui::variable_screen::variable_key_post;
use crate::ui::scrollable_list::{clamp_selected_spec, ScrollableList};
use crate::ui::execution_screen::pending_skipped;
use crate::ui::text_input::TextInput;
use crate::ui::variable_screen::prompt_for;
use crate::ui::detail_screen::{renumber, DetailFocus, DetailScreenState, ListEditor};
use crate::ui::execution_screen::{CmdStatus, ExecutionScreenState, ScrollMode};
use crate::ui::main_screen::MainScreenState;
use crate::ui::notification::{ToastManager, ToastSeverity};
use crate::ui::variable_screen::VariableScreenState;

verus! {

/// Application screen modes: only one screen is active at a time.
#[derive(Debug, PartialEq, Eq)]
pub enum AppMode {
    /// Groups on the left, command sets on the right.
    Main,
    /// The form that edits one command set.
    Detail,
    /// The output of a run.
    Execution,
    /// The keyboard reference.
    Help,
    /// The confirmation asked before a deletion.
    ConfirmDelete {
        /// What is being deleted.
        kind: DeleteKind,
        /// The mode to return to after confirming or cancelling.
        prev: Box<AppMode>,
        /// The focused button.
        selected: ConfirmChoice,
    },
}

/// A copy of `mode`.
pub fn copy_mode(mode: &AppMode) -> (res: AppMode)
    ensures
        res == *mode,
    decreases mode,
{
    match mode {
        AppMode::Main => AppMode::Main,
        AppMode::Detail => AppMode::Detail,
        AppMode::Execution => AppMode::Execution,
        AppMode::Help => AppMode::Help,
        AppMode::ConfirmDelete { kind, prev, selected } => AppMode::ConfirmDelete {
            kind: kind.clone(),
            prev: Box::new(copy_mode(prev)),
            selected: *selected,
        },
    }
}

impl Clone for AppMode {
    fn clone(&self) -> (res: Self)
        ensures
            res == *self,
    {
        copy_mode(self)
    }
}

/// A deleted set or group, with where it stood.
#[derive(Debug)]
pub enum TrashedItem {
    CmdSet { set: CommandSet, group_index: usize, set_index: usize },
    Group { group: Group, index: usize },
}

/// A deleted item and when it was deleted.
#[derive(Debug)]
pub struct TrashEntry {
    pub timestamp: Timestamp,
    pub item: TrashedItem,
}

/// Whether a run is on screen, and which set it runs.
#[derive(Debug)]
pub enum ExecutionState {
    /// No run; the set waiting for its variables, if any.
    Idle { pending_set: Option<(usize, usize)> },
    /// A run of set `pending_set.1` of group `pending_set.0`.
    Running { screen: Box<ExecutionScreenState>, pending_set: (usize, usize) },
}

/// What a new run executes.
#[derive(Debug)]
pub struct ExecutionRequest {
    pub commands: Vec<Command>,
    pub defer_commands: Vec<Command>,
    pub exec_mode: ExecMode,
    pub variables: Vec<Variable>,
    pub shell_cmd: ShellCommand,
    pub index_offset: usize,
    pub working_dir: Option<String>,
}

/// Outside work a step asks for, performed by the caller in order.
#[derive(Debug)]
pub enum Effect {
    /// Write the data to disk.
    Save,
    /// Start a run in the background.
    Start(ExecutionRequest),
    /// Stop the running run and wait for it.
    Kill,
    /// Skip the running command and pause.
    SkipCurrent,
    /// Resume a paused run.
    ContinueNext,
    /// Abort the normal commands; deferred commands still run.
    AbortAll,
}

/// `r` runs `set` from its first command with the shell resolved against
/// `env_shell`.
pub open spec fn request_for(r: ExecutionRequest, set: CommandSetView, env_shell: Option<String>) -> bool {
    &&& r.commands@ == set.commands
    &&& r.defer_commands@ == set.defer_commands
    &&& r.exec_mode == set.exec_mode
    &&& r.variables@ == set.variables
    &&& r.shell_cmd.program@ == crate::models::shell_program(set.shell, env_shell)
    &&& r.shell_cmd.flag@ == crate::models::shell_flag(set.shell)
    &&& r.index_offset == 0
    &&& r.working_dir == set.working_dir
}

/// `s` is a new execution screen for `set`: one pending row per command,
/// then one per deferred command, flagged as deferred.
pub open spec fn fresh_screen(s: ExecutionScreenState, set: CommandSetView) -> bool {
    let all = set.commands + set.defer_commands;
    &&& s.set_name@ == set.name@
    &&& s.cmd_states@.len() == all.len()
    &&& forall|i: int| 0 <= i < all.len() ==> {
        &&& (#[trigger] s.cmd_states@[i]).status == CmdStatus::Pending
        &&& s.cmd_states@[i].command@ == all[i].command@
        &&& s.cmd_states@[i].output_lines@.len() == 0
        &&& !s.cmd_states@[i].truncated
        &&& s.cmd_states@[i].defer == (i >= set.commands.len())
    }
    &&& s.total == all.len()
    &&& s.current_index == 0
    &&& s.succeeded == 0
    &&& s.failed == 0
    &&& s.skipped == 0
    &&& !s.completed
    &&& !s.paused
    &&& !s.deferring
    &&& s.continue_from is None
    &&& s.total_duration_ms is None
    &&& s.scroll == ScrollMode::Follow
    &&& s.last_offset == 0
    &&& s.visible_height == 0
    &&& !s.output_truncated
    &&& s.search is Inactive
}

/// A new execution screen for `set`.
pub fn screen_for(set: &CommandSet) -> (res: ExecutionScreenState)
    ensures
        fresh_screen(res, set@),
{
    let mut all = clone_vec(&set.commands);
    let n = all.len();
    let mut k: usize = 0;
    while k < set.defer_commands.len()
        invariant
            n == set.commands@.len(),
            k <= set.defer_commands@.len(),
            all@ == set.commands@ + set.defer_commands@.take(k as int),
        decreases set.defer_commands@.len() - k,
    {
        all.push(set.defer_commands[k].clone());
        assert(set.defer_commands@.take(k + 1) =~= set.defer_commands@.take(k as int).push(set.defer_commands@[k as int]));
        k = k + 1;
    }
    assert(set.defer_commands@.take(k as int) =~= set.defer_commands@);
    let mut screen = ExecutionScreenState::new(set.name.clone(), all.as_slice());
    let ghost fresh = screen;
    let mut i: usize = n;
    while i < screen.cmd_states.len()
        invariant
            n == set.commands@.len(),
            n <= i <= screen.cmd_states@.len(),
            all@ == set.commands@ + set.defer_commands@,
            screen.cmd_states@.len() == fresh.cmd_states@.len(),
            fresh.cmd_states@.len() == all@.len(),
            screen == (ExecutionScreenState { cmd_states: screen.cmd_states, ..fresh }),
            forall|j: int| 0 <= j < all@.len() ==> {
                &&& (#[trigger] screen.cmd_states@[j]).status == CmdStatus::Pending
                &&& screen.cmd_states@[j].command@ == all@[j].command@
                &&& screen.cmd_states@[j].output_lines@.len() == 0
                &&& !screen.cmd_states@[j].truncated
                &&& screen.cmd_states@[j].defer == (j >= n && j < i)
            },
        decreases screen.cmd_states@.len() - i,
    {
        screen.cmd_states[i].defer = true;
        i = i + 1;
    }
    screen
}

/// The whole state of the application.
#[derive(Debug)]
pub struct App {
    pub data: AppData,
    pub mode: AppMode,
    /// The mode the help screen returns to.
    pub prev_mode: Option<AppMode>,
    pub running: bool,
    pub main_screen: MainScreenState,
    pub detail_screen: Option<DetailScreenState>,
    pub execution_state: ExecutionState,
    pub variable_screen: VariableScreenState,
    pub toasts: ToastManager,
    /// Deleted sets and groups, oldest first.
    pub trash: Vec<TrashEntry>,
    /// The `$SHELL` of the environment, for sets that use the system shell.
    pub shell_env: Option<String>,
}

/// `b` holds the toasts of `a` and one more, with text `msg`.
pub open spec fn toast_pushed(a: ToastManager, b: ToastManager, msg: Seq<char>, sev: ToastSeverity) -> bool {
    &&& b.toasts@.len() == a.toasts@.len() + 1
    &&& b.toasts@.take(a.toasts@.len() as int) == a.toasts@
    &&& b.toasts@.last().message@ == msg
    &&& b.toasts@.last().severity == sev
}

/// The state after the help key: the help screen opens over the current
/// mode, or closes back to the mode it opened over (the main screen if none).
pub open spec fn help_post(a: App, b: App) -> bool {
    if a.mode is Help {
        b == (App { mode: match a.prev_mode { Some(m) => m, None => AppMode::Main }, prev_mode: None, ..a })
    } else {
        b == (App { prev_mode: Some(a.mode), mode: AppMode::Help, ..a })
    }
}

/// `b` is `a` with only a toast added.
pub open spec fn toasted(a: App, b: App, msg: Seq<char>, sev: ToastSeverity) -> bool {
    &&& toast_pushed(a.toasts, b.toasts, msg, sev)
    &&& b == (App { toasts: b.toasts, ..a })
}


/// `b` is `a` running set `si` of group `gi` from its first command: a new
/// execution screen, the execution mode, and one effect that starts the run.
pub open spec fn run_started(a: App, b: App, gi: int, si: int, eff: Seq<Effect>) -> bool {
    let set = a.data@[gi].sets[si];
    &&& b == (App { execution_state: b.execution_state, mode: AppMode::Execution, ..a })
    &&& b.execution_state matches ExecutionState::Running { screen, pending_set }
        && pending_set == (gi as usize, si as usize) && fresh_screen(*screen, set)
    &&& eff.len() == 1
    &&& eff[0] matches Effect::Start(r) && request_for(r, set, a.shell_env)
}

/// Set `si` of group `gi` exists.
pub open spec fn set_exists(data: Seq<GroupView>, gi: int, si: int) -> bool {
    0 <= gi < data.len() && 0 <= si < data[gi].sets.len()
}

/// Running set `si` of group `gi`: a set with variables first opens the
/// prompt for them; a set without runs at once unless a run is on screen.
pub open spec fn execute_set_post(a: App, b: App, gi: usize, si: usize, eff: Seq<Effect>) -> bool {
    if set_exists(a.data@, gi as int, si as int) {
        let set = a.data.groups@[gi as int].sets@[si as int];
        if set.variables@.len() > 0 {
            &&& b == (App { variable_screen: b.variable_screen, ..a })
            &&& prompt_for(&b.variable_screen, &set, gi, si)
            &&& eff.len() == 0
        } else if a.execution_state is Idle {
            run_started(a, b, gi as int, si as int, eff)
        } else {
            b == a && eff.len() == 0
        }
    } else {
        b == a && eff.len() == 0
    }
}

/// Editing set `si` of group `gi` opens the detail screen on a copy of it.
pub open spec fn edit_set_post(a: App, b: App, gi: usize, si: usize) -> bool {
    if set_exists(a.data@, gi as int, si as int) {
        &&& b == (App { detail_screen: b.detail_screen, mode: AppMode::Detail, ..a })
        &&& b.detail_screen matches Some(ds) && opened_on(&ds, a.data@[gi as int].sets[si as int], a.data@)
    } else {
        b == a
    }
}

/// `ns` is a new empty set named `name` in the group with id `gid`.
pub open spec fn new_set_value(ns: CommandSetView, name: Seq<char>, gid: u128) -> bool {
    &&& ns.name@ == name
    &&& ns.group_id == gid
    &&& ns.shell == ShellType::SystemDefault
    &&& ns.exec_mode == ExecMode::StopOnError
    &&& ns.variables.len() == 0
    &&& ns.commands.len() == 0
    &&& ns.defer_commands.len() == 0
    &&& ns.working_dir is None
    &&& ns.created_at == ns.updated_at
}

/// The row after the selected one, or the end of a list of `len` rows.
pub open spec fn after_selected(selected: int, len: int) -> int {
    if selected < len { selected + 1 } else { len }
}

/// A new set goes into group `gi` after the selected set, is selected, and
/// opens in the detail screen.
pub open spec fn new_set_post(a: App, b: App, gi: usize, eff: Seq<Effect>) -> bool {
    if gi < a.data@.len() {
        let g = a.data@[gi as int];
        let si = after_selected(a.main_screen.set_list.selected as int, g.sets.len() as int);
        let ns = b.data@[gi as int].sets[si];
        &&& new_set_value(ns, "New Command Set"@, g.id)
        &&& b.data@ == a.data@.update(gi as int, with_sets(g, g.sets.insert(si, ns)))
        &&& b.main_screen == (MainScreenState {
            set_list: ScrollableList { selected: si as usize, ..a.main_screen.set_list },
            ..a.main_screen
        })
        &&& b.detail_screen matches Some(ds) && opened_on(&ds, ns, b.data@)
        &&& toast_pushed(a.toasts, b.toasts, "Set created"@, ToastSeverity::Info)
        &&& b == (App {
            data: b.data,
            main_screen: b.main_screen,
            detail_screen: b.detail_screen,
            toasts: b.toasts,
            mode: AppMode::Detail,
            ..a
        })
        &&& eff == seq![Effect::Save]
    } else {
        b == a && eff.len() == 0
    }
}

/// `b` is `a` with one entry more at the end.
pub open spec fn one_more(a: Seq<TrashEntry>, b: Seq<TrashEntry>) -> bool {
    b.len() == a.len() + 1 && b.take(a.len() as int) == a
}

/// Deleting set `si` of group `gi` moves it to the trash.
pub open spec fn delete_set_post(a: App, b: App, gi: usize, si: usize, eff: Seq<Effect>) -> bool {
    if set_exists(a.data@, gi as int, si as int) {
        let g = a.data@[gi as int];
        let left = g.sets.len() - 1;
        &&& b.data@ == a.data@.update(gi as int, with_sets(g, g.sets.remove(si as int)))
        &&& one_more(a.trash@, b.trash@)
        &&& b.trash@.last().item matches TrashedItem::CmdSet { set, group_index, set_index }
            && set@ == g.sets[si as int] && group_index == gi && set_index == si
        &&& b.main_screen == (MainScreenState {
            set_list: ScrollableList {
                selected: clamp_selected_spec(a.main_screen.set_list.selected as int, left) as usize,
                ..a.main_screen.set_list
            },
            active_panel: if left == 0 { Panel::Groups } else { a.main_screen.active_panel },
            ..a.main_screen
        })
        &&& toast_pushed(a.toasts, b.toasts, "Set deleted"@, ToastSeverity::Info)
        &&& b == (App { data: b.data, trash: b.trash, main_screen: b.main_screen, toasts: b.toasts, ..a })
        &&& eff == seq![Effect::Save]
    } else {
        b == a && eff.len() == 0
    }
}

/// A new group named after the count goes after the selected group and is
/// selected.
pub open spec fn new_group_post(a: App, b: App, eff: Seq<Effect>) -> bool {
    let n = a.data@.len();
    let gi = after_selected(a.main_screen.group_list.selected as int, n as int);
    let g = b.data@[gi];
    &&& g.name@ == "Group "@ + decimal((n + 1) as nat)
    &&& g.sets.len() == 0
    &&& b.data@ == a.data@.insert(gi, g)
    &&& b.main_screen == (MainScreenState {
        group_list: ScrollableList { selected: gi as usize, ..a.main_screen.group_list },
        set_list: ScrollableList::new_spec(),
        ..a.main_screen
    })
    &&& toast_pushed(a.toasts, b.toasts, "Group created"@, ToastSeverity::Info)
    &&& b == (App { data: b.data, main_screen: b.main_screen, toasts: b.toasts, ..a })
    &&& eff == seq![Effect::Save]
}

/// Group `gi`, if it exists, takes the name `name`.
pub open spec fn rename_group_post(a: App, b: App, gi: usize, name: String, eff: Seq<Effect>) -> bool {
    if gi < a.data@.len() {
        &&& b.data@ == a.data@.update(gi as int, GroupView { name: name, ..a.data@[gi as int] })
        &&& toast_pushed(a.toasts, b.toasts, "Group renamed"@, ToastSeverity::Info)
        &&& b == (App { data: b.data, toasts: b.toasts, ..a })
        &&& eff == seq![Effect::Save]
    } else {
        b == a && eff.len() == 0
    }
}

/// Deleting group `gi` moves it, with its sets, to the trash.
pub open spec fn delete_group_post(a: App, b: App, gi: usize, eff: Seq<Effect>) -> bool {
    if gi < a.data@.len() {
        let left = a.data@.len() - 1;
        &&& b.data@ == a.data@.remove(gi as int)
        &&& one_more(a.trash@, b.trash@)
        &&& b.trash@.last().item matches TrashedItem::Group { group, index }
            && group@ == a.data@[gi as int] && index == gi
        &&& b.main_screen == (MainScreenState {
            group_list: if left == 0 {
                ScrollableList::new_spec()
            } else {
                ScrollableList {
                    selected: clamp_selected_spec(a.main_screen.group_list.selected as int, left) as usize,
                    ..a.main_screen.group_list
                }
            },
            set_list: ScrollableList::new_spec(),
            active_panel: if left == 0 { Panel::Groups } else { a.main_screen.active_panel },
            ..a.main_screen
        })
        &&& toast_pushed(a.toasts, b.toasts, "Group deleted"@, ToastSeverity::Info)
        &&& b == (App { data: b.data, trash: b.trash, main_screen: b.main_screen, toasts: b.toasts, ..a })
        &&& eff == seq![Effect::Save]
    } else {
        b == a && eff.len() == 0
    }
}

/// Saving `set` stores it as `saved_data` says (stamped with the time of
/// the save), selects it where it moved to, and closes the detail screen.
pub open spec fn save_set_post(a: App, b: App, set: CommandSetView, eff: Seq<Effect>) -> bool {
    let moves = saved_moves(a.data@, set);
    let sel = match moves.0 {
        Some(gi) => clamp_selected_spec(a.main_screen.set_list.selected as int, a.data@[gi as int].sets.len() - 1),
        None => a.main_screen.set_list.selected as int,
    };
    &&& exists|now: Timestamp| b.data@ == saved_data(a.data@, set, now)
    &&& b.main_screen == match moves.1 {
        Some((ti, si)) => MainScreenState {
            group_list: ScrollableList { selected: ti, ..a.main_screen.group_list },
            set_list: ScrollableList { selected: si, ..a.main_screen.set_list },
            ..a.main_screen
        },
        None => MainScreenState {
            set_list: ScrollableList { selected: sel as usize, ..a.main_screen.set_list },
            ..a.main_screen
        },
    }
    &&& toast_pushed(a.toasts, b.toasts, "Command set saved"@, ToastSeverity::Info)
    &&& b == (App {
        data: b.data,
        main_screen: b.main_screen,
        toasts: b.toasts,
        detail_screen: None,
        mode: AppMode::Main,
        ..a
    })
    &&& eff == seq![Effect::Save]
}

/// `after` is `before` with each command's position set to its index.
pub open spec fn renumbered_from(before: Seq<Command>, after: Seq<Command>) -> bool {
    &&& after.len() == before.len()
    &&& forall|i: int| 0 <= i < before.len() ==> #[trigger] after[i] == (Command {
        position: i as usize,
        command: before[i].command,
    })
}

/// `b` differs from `a` only in its detail screen, which is `ds2`, and a
/// toast `msg`; the data is saved.
pub open spec fn detail_changed(a: App, b: App, ds2: DetailScreenState, msg: Seq<char>, eff: Seq<Effect>) -> bool {
    &&& b.detail_screen == Some(ds2)
    &&& toast_pushed(a.toasts, b.toasts, msg, ToastSeverity::Info)
    &&& b == (App { detail_screen: b.detail_screen, toasts: b.toasts, ..a })
    &&& eff == seq![Effect::Save]
}

/// `l` with row `selected` selected.
pub open spec fn with_selected(l: ScrollableList, selected: int) -> ScrollableList {
    ScrollableList { selected: selected as usize, ..l }
}

/// Deleting variable `idx` of the edited set.
pub open spec fn delete_variable_post(a: App, b: App, idx: usize, eff: Seq<Effect>) -> bool {
    match a.detail_screen {
        Some(ds) => if idx < ds.set.variables@.len() {
            let left = ds.set.variables@.len() - 1;
            exists|ds2: DetailScreenState| {
                &&& detail_changed(a, b, ds2, "Variable deleted"@, eff)
                &&& ds2.set.variables@ == ds.set.variables@.remove(idx as int)
                &&& ds2 == (DetailScreenState {
                    set: CommandSet { variables: ds2.set.variables, ..ds.set },
                    var_editor: ListEditor {
                        list: with_selected(ds.var_editor.list, clamp_selected_spec(ds.var_editor.list.selected as int, left)),
                        ..ds.var_editor
                    },
                    focus: if left == 0 { DetailFocus::Name } else { ds.focus },
                    ..ds
                })
            }
        } else {
            b == a && eff.len() == 0
        },
        None => b == a && eff.len() == 0,
    }
}

/// Deleting command `idx` of the edited set: a deferred command when the
/// deferred list is focused and has one at `idx`, else a normal command.
pub open spec fn delete_command_post(a: App, b: App, idx: usize, eff: Seq<Effect>) -> bool {
    match a.detail_screen {
        Some(ds) => if ds.focus == DetailFocus::DeferredCommands && idx < ds.set.defer_commands@.len() {
            let left = ds.set.defer_commands@.len() - 1;
            exists|ds2: DetailScreenState| {
                &&& detail_changed(a, b, ds2, "Deferred command deleted"@, eff)
                &&& ds2.set.defer_commands@ == ds.set.defer_commands@.remove(idx as int)
                &&& ds2 == (DetailScreenState {
                    set: CommandSet { defer_commands: ds2.set.defer_commands, ..ds.set },
                    deferred_editor: ListEditor {
                        list: with_selected(ds.deferred_editor.list, clamp_selected_spec(ds.deferred_editor.list.selected as int, left)),
                        ..ds.deferred_editor
                    },
                    focus: if left == 0 { DetailFocus::Commands } else { ds.focus },
                    ..ds
                })
            }
        } else if idx < ds.set.commands@.len() {
            let left = ds.set.commands@.len() - 1;
            exists|ds2: DetailScreenState| {
                &&& detail_changed(a, b, ds2, "Command deleted"@, eff)
                &&& renumbered_from(ds.set.commands@.remove(idx as int), ds2.set.commands@)
                &&& ds2 == (DetailScreenState {
                    set: CommandSet { commands: ds2.set.commands, ..ds.set },
                    cmd_editor: ListEditor {
                        list: with_selected(ds.cmd_editor.list, clamp_selected_spec(ds.cmd_editor.list.selected as int, left)),
                        ..ds.cmd_editor
                    },
                    focus: if left == 0 { DetailFocus::Name } else { ds.focus },
                    ..ds
                })
            }
        } else {
            b == a && eff.len() == 0
        },
        None => b == a && eff.len() == 0,
    }
}

/// The severity of a run's summary: an error if a command failed, else
/// information if one was skipped, else success.
pub open spec fn summary_severity(s: ExecutionScreenState) -> ToastSeverity {
    if s.failed > 0 {
        ToastSeverity::Error
    } else if s.skipped > 0 {
        ToastSeverity::Info
    } else {
        ToastSeverity::Success
    }
}

/// The text of a run's summary: `Done: <finished>/<total>`.
pub open spec fn summary_text(s: ExecutionScreenState) -> Seq<char> {
    "Done: "@ + decimal((s.succeeded + s.failed + s.skipped) as nat) + "/"@ + decimal(s.total as nat)
}

/// Leaving a completed run: its summary is shown, the run is stopped and
/// the main screen returns.
pub open spec fn back_to_main_post(a: App, b: App, eff: Seq<Effect>) -> bool {
    match a.execution_state {
        ExecutionState::Running { screen, .. } => if screen.completed {
            &&& toast_pushed(a.toasts, b.toasts, summary_text(*screen), summary_severity(*screen))
            &&& b == (App {
                toasts: b.toasts,
                execution_state: ExecutionState::Idle { pending_set: None },
                mode: AppMode::Main,
                ..a
            })
            &&& eff == seq![Effect::Kill]
        } else {
            b == a && eff.len() == 0
        },
        _ => b == a && eff.len() == 0,
    }
}

/// `b` differs from `a` only in its run screen, which is `s2`.
pub open spec fn screen_changed(a: App, b: App, s2: ExecutionScreenState) -> bool {
    &&& match (a.execution_state, b.execution_state) {
        (ExecutionState::Running { pending_set: p, .. }, ExecutionState::Running { screen, pending_set }) =>
            *screen == s2 && pending_set == p,
        _ => false,
    }
    &&& b == (App { execution_state: b.execution_state, ..a })
}

/// Pausing, resuming or aborting a run: the signal `signal` goes to the
/// run and the screen records the pause (`Pause`, `Continue`) or marks the
/// pending commands skipped (`Abort`).
pub open spec fn run_signal_post(a: App, b: App, action: AppAction, eff: Seq<Effect>) -> bool {
    match a.execution_state {
        ExecutionState::Running { screen, .. } => match action {
            AppAction::Pause => screen_changed(a, b, ExecutionScreenState { paused: true, ..*screen })
                && eff == seq![Effect::SkipCurrent],
            AppAction::Continue => screen_changed(a, b, ExecutionScreenState { paused: false, ..*screen })
                && eff == seq![Effect::ContinueNext],
            _ => (exists|s2: ExecutionScreenState| screen_changed(a, b, s2)
                && pending_skipped(ExecutionScreenState { paused: false, ..*screen }, s2))
                && eff == seq![Effect::AbortAll],
        },
        _ => b == a && eff.len() == 0,
    }
}

/// Running the set of the run on screen again from its first command.
pub open spec fn re_exec_post(a: App, b: App, eff: Seq<Effect>) -> bool {
    let c = App { execution_state: ExecutionState::Idle { pending_set: None }, ..a };
    &&& eff.len() >= 1
    &&& eff[0] is Kill
    &&& match a.execution_state {
        ExecutionState::Running { pending_set: (gi, si), .. } => if set_exists(a.data@, gi as int, si as int) {
            run_started(c, b, gi as int, si as int, eff.skip(1))
        } else {
            b == c && eff.len() == 1
        },
        _ => b == c && eff.len() == 1,
    }
}

/// `vars` with the default values typed in `inputs`, one per variable.
pub open spec fn filled_in(vars: Seq<Variable>, inputs: Seq<TextInput>) -> Seq<Variable> {
    Seq::new(vars.len(), |i: int| if i < inputs.len() {
        Variable { default_value: inputs[i].content, ..vars[i] }
    } else {
        vars[i]
    })
}

/// Confirming the variable prompt stores the typed values as the set's
/// defaults, closes the prompt and runs the set unless a run is on screen.
pub open spec fn confirm_variables_post(a: App, b: App, eff: Seq<Effect>) -> bool {
    match a.variable_screen.overlay {
        Some(o) => {
            let (gi, si) = (o.gi as int, o.si as int);
            let data = if set_exists(a.data@, gi, si) {
                let set = a.data@[gi].sets[si];
                a.data@.update(gi, with_sets(a.data@[gi], a.data@[gi].sets.update(
                    si,
                    CommandSetView { variables: filled_in(set.variables, o.inputs@), ..set },
                )))
            } else {
                a.data@
            };
            let c = App { data: b.data, variable_screen: VariableScreenState { overlay: None }, toasts: b.toasts, ..a };
            &&& b.data@ == data
            &&& toast_pushed(a.toasts, b.toasts, "Variables saved"@, ToastSeverity::Info)
            &&& eff.len() >= 1
            &&& eff[0] is Save
            &&& match a.execution_state {
                ExecutionState::Idle { .. } => {
                    let c2 = App { execution_state: ExecutionState::Idle { pending_set: None }, ..c };
                    if set_exists(data, gi, si) {
                        run_started(c2, b, gi, si, eff.skip(1))
                    } else {
                        b == c2 && eff.len() == 1
                    }
                },
                _ => b == c && eff.len() == 1,
            }
        },
        None => false,
    }
}

/// Cancelling the variable prompt closes it and forgets the set waiting
/// to run.
pub open spec fn cancel_variables_post(a: App, b: App) -> bool {
    b == (App {
        variable_screen: VariableScreenState { overlay: None },
        execution_state: match a.execution_state {
            ExecutionState::Idle { .. } => ExecutionState::Idle { pending_set: None },
            st => st,
        },
        ..a
    })
}

/// The index `dir` rows from `i` in a list of `len` rows, if both are rows.
pub open spec fn moved_index(i: int, dir: int, len: int) -> Option<int> {
    if 0 <= i < len && 0 <= i + dir < len { Some(i + dir) } else { None }
}

/// Moving a group, set, variable or command `dir` rows: it trades places
/// with the item there and stays selected; nothing happens at the ends.
pub open spec fn reorder_post(a: App, b: App, kind: ReorderKind, dir: isize, eff: Seq<Effect>) -> bool {
    let noop = b == a && eff.len() == 0;
    match kind {
        ReorderKind::Group(gi) => match moved_index(gi as int, dir as int, a.data@.len() as int) {
            Some(ni) => {
                &&& b.data@ == swapped(a.data@, gi as int, ni)
                &&& b.main_screen == (MainScreenState {
                    group_list: with_selected(a.main_screen.group_list, ni),
                    ..a.main_screen
                })
                &&& toast_pushed(a.toasts, b.toasts, "Group moved"@, ToastSeverity::Info)
                &&& b == (App { data: b.data, main_screen: b.main_screen, toasts: b.toasts, ..a })
                &&& eff == seq![Effect::Save]
            },
            None => noop,
        },
        ReorderKind::CmdSet(gi, si) => if gi < a.data@.len() {
            let g = a.data@[gi as int];
            match moved_index(si as int, dir as int, g.sets.len() as int) {
                Some(ni) => {
                    &&& b.data@ == a.data@.update(gi as int, with_sets(g, swapped(g.sets, si as int, ni)))
                    &&& b.main_screen == (MainScreenState {
                        set_list: with_selected(a.main_screen.set_list, ni),
                        ..a.main_screen
                    })
                    &&& toast_pushed(a.toasts, b.toasts, "Set moved"@, ToastSeverity::Info)
                    &&& b == (App { data: b.data, main_screen: b.main_screen, toasts: b.toasts, ..a })
                    &&& eff == seq![Effect::Save]
                },
                None => noop,
            }
        } else {
            noop
        },
        ReorderKind::Variable(idx) => match a.detail_screen {
            Some(ds) => match moved_index(idx as int, dir as int, ds.set.variables@.len() as int) {
                Some(ni) => exists|ds2: DetailScreenState| {
                    &&& detail_changed(a, b, ds2, "Variable moved"@, eff)
                    &&& ds2.set.variables@ == swapped(ds.set.variables@, idx as int, ni)
                    &&& ds2 == (DetailScreenState {
                        set: CommandSet { variables: ds2.set.variables, ..ds.set },
                        var_editor: ListEditor { list: with_selected(ds.var_editor.list, ni), ..ds.var_editor },
                        ..ds
                    })
                },
                None => noop,
            },
            None => noop,
        },
        ReorderKind::Command(idx) => match a.detail_screen {
            Some(ds) => if ds.focus == DetailFocus::DeferredCommands {
                match moved_index(idx as int, dir as int, ds.set.defer_commands@.len() as int) {
                    Some(ni) => exists|ds2: DetailScreenState| {
                        &&& detail_changed(a, b, ds2, "Deferred command moved"@, eff)
                        &&& ds2.set.defer_commands@ == swapped(ds.set.defer_commands@, idx as int, ni)
                        &&& ds2 == (DetailScreenState {
                            set: CommandSet { defer_commands: ds2.set.defer_commands, ..ds.set },
                            deferred_editor: ListEditor { list: with_selected(ds.deferred_editor.list, ni), ..ds.deferred_editor },
                            ..ds
                        })
                    },
                    None => noop,
                }
            } else {
                match moved_index(idx as int, dir as int, ds.set.commands@.len() as int) {
                    Some(ni) => exists|ds2: DetailScreenState| {
                        &&& detail_changed(a, b, ds2, "Command moved"@, eff)
                        &&& renumbered_from(swapped(ds.set.commands@, idx as int, ni), ds2.set.commands@)
                        &&& ds2 == (DetailScreenState {
                            set: CommandSet { commands: ds2.set.commands, ..ds.set },
                            cmd_editor: ListEditor { list: with_selected(ds.cmd_editor.list, ni), ..ds.cmd_editor },
                            ..ds
                        })
                    },
                    None => noop,
                }
            },
            None => noop,
        },
    }
}

/// The name of a mode in the title bar.
pub open spec fn mode_label(m: AppMode) -> Seq<char> {
    match m {
        AppMode::Main => "Main"@,
        AppMode::Detail => "Edit"@,
        AppMode::Execution => "Run"@,
        AppMode::Help => "Help"@,
        AppMode::ConfirmDelete { .. } => "Confirm"@,
    }
}

/// The number of sets in the first `n` groups.
pub open spec fn set_total(data: Seq<GroupView>, n: int) -> int
    decreases n,
{
    if n <= 0 { 0 } else { set_total(data, n - 1) + data[n - 1].sets.len() }
}

/// The title bar: the mode and the numbers of groups and sets.
pub open spec fn title_spec(a: App) -> Seq<char> {
    " Launcher  |  "@ + mode_label(a.mode) + "  |  "@ + decimal(a.data@.len()) + " groups, "@
        + decimal(set_total(a.data@, a.data@.len() as int) as nat) + " sets  |  ? Help  q Quit"@
}

/// What an action asks of the state: the variable prompt is open when its
/// values are confirmed, and an abort leaves room to count the skipped
/// commands.
pub open spec fn action_ok(a: App, action: AppAction) -> bool {
    &&& action is ConfirmVariables ==> a.variable_screen.overlay is Some
    &&& action is Abort ==> match a.execution_state {
        ExecutionState::Running { screen, .. } => screen.skipped + screen.cmd_states@.len() <= usize::MAX,
        _ => true,
    }
}

/// The state `b` and effects `eff` after `action` in state `a`.
pub open spec fn action_post(a: App, b: App, action: AppAction, eff: Seq<Effect>) -> bool {
    match action {
        AppAction::Nothing => b == a && eff.len() == 0,
        AppAction::Quit => b == (App { running: false, ..a }) && eff.len() == 0,
        AppAction::Help => help_post(a, b) && eff.len() == 0,
        AppAction::ExecuteSet(gi, si) => execute_set_post(a, b, gi, si, eff),
        AppAction::EditSet(gi, si) => edit_set_post(a, b, gi, si) && eff.len() == 0,
        AppAction::NewSet(gi) => new_set_post(a, b, gi, eff),
        AppAction::DeleteSet(gi, si) => delete_set_post(a, b, gi, si, eff),
        AppAction::NewGroup => new_group_post(a, b, eff),
        AppAction::RenameGroup(gi, name) => rename_group_post(a, b, gi, name, eff),
        AppAction::DeleteGroup(gi) => delete_group_post(a, b, gi, eff),
        AppAction::SaveSet(set) => save_set_post(a, b, set@, eff),
        AppAction::CancelEdit => b == (App { detail_screen: None, mode: AppMode::Main, ..a }) && eff.len() == 0,
        AppAction::DeleteVariable(idx) => delete_variable_post(a, b, idx, eff),
        AppAction::DeleteCommand(idx) => delete_command_post(a, b, idx, eff),
        AppAction::VariableSaved => toasted(a, b, "Variable saved"@, ToastSeverity::Info) && eff.len() == 0,
        AppAction::CommandSaved => toasted(a, b, "Command saved"@, ToastSeverity::Info) && eff.len() == 0,
        AppAction::BackToMain => back_to_main_post(a, b, eff),
        AppAction::Pause => run_signal_post(a, b, action, eff),
        AppAction::Continue => run_signal_post(a, b, action, eff),
        AppAction::Abort => run_signal_post(a, b, action, eff),
        AppAction::ReExec => re_exec_post(a, b, eff),
        AppAction::ConfirmVariables => confirm_variables_post(a, b, eff),
        AppAction::CancelVariables => cancel_variables_post(a, b) && eff.len() == 0,
        AppAction::Reorder(kind, dir) => reorder_post(a, b, kind, dir, eff),
        AppAction::RequestDelete(kind) => eff.len() == 0 && b == (App {
            mode: AppMode::ConfirmDelete { kind, prev: Box::new(a.mode), selected: ConfirmChoice::Cancel },
            ..a
        }),
    }
}

/// The deletion the confirmation dialog asks about.
pub open spec fn delete_action(kind: DeleteKind) -> AppAction {
    match kind {
        DeleteKind::CmdSet { group_index, set_index, .. } => AppAction::DeleteSet(group_index, set_index),
        DeleteKind::Group { group_index, .. } => AppAction::DeleteGroup(group_index),
        DeleteKind::Variable { var_index, .. } => AppAction::DeleteVariable(var_index),
        DeleteKind::Command { cmd_index, .. } => AppAction::DeleteCommand(cmd_index),
    }
}

/// What a key asks of the state: a run on screen leaves room to count its
/// commands as skipped.
pub open spec fn key_ok(a: App) -> bool {
    match a.execution_state {
        ExecutionState::Running { screen, .. } => screen.skipped + screen.cmd_states@.len() <= usize::MAX,
        _ => true,
    }
}

/// The state `b` and effects `eff` after `key` in state `a`. The variable
/// prompt, when open, takes every key; `?` toggles the help screen; else
/// the screen of the mode handles the key and its action is carried out.
/// The delete confirmation moves between its buttons with Left and Right,
/// deletes on Enter over Confirm, and returns to its mode on Enter or Esc;
/// any key closes the help screen.
pub open spec fn key_post(a: App, b: App, key: KeyEvent, eff: Seq<Effect>) -> bool {
    if a.variable_screen.overlay is Some {
        exists|vs: VariableScreenState, action: AppAction| {
            &&& #[trigger] variable_key_post(&a.variable_screen, &vs, key, action)
            &&& action_post(App { variable_screen: vs, ..a }, b, action, eff)
        }
    } else if key.code == KeyCode::Char('?') {
        help_post(a, b) && eff.len() == 0
    } else {
        match a.mode {
            AppMode::Main => exists|ms: MainScreenState, action: AppAction| {
                &&& #[trigger] main_key_post(&a.main_screen, &ms, key, a.data@, action)
                &&& action_post(App { main_screen: ms, ..a }, b, action, eff)
            },
            AppMode::Detail => match a.detail_screen {
                Some(ds) => exists|ds2: DetailScreenState, action: AppAction| {
                    &&& #[trigger] detail_key_post(&ds, &ds2, key, action)
                    &&& action_post(App { detail_screen: Some(ds2), ..a }, b, action, eff)
                },
                None => b == a && eff.len() == 0,
            },
            AppMode::Execution => match a.execution_state {
                ExecutionState::Running { screen, pending_set } => exists|s2: ExecutionScreenState, action: AppAction| {
                    &&& #[trigger] exec_key_post(&*screen, &s2, key, action)
                    &&& action_post(
                        App { execution_state: ExecutionState::Running { screen: Box::new(s2), pending_set }, ..a },
                        b,
                        action,
                        eff,
                    )
                },
                _ => b == a && eff.len() == 0,
            },
            AppMode::ConfirmDelete { kind, prev, selected } => match key.code {
                KeyCode::Left => eff.len() == 0 && b == (App {
                    mode: AppMode::ConfirmDelete { kind, prev, selected: ConfirmChoice::Confirm },
                    ..a
                }),
                KeyCode::Right => eff.len() == 0 && b == (App {
                    mode: AppMode::ConfirmDelete { kind, prev, selected: ConfirmChoice::Cancel },
                    ..a
                }),
                KeyCode::Enter => if selected == ConfirmChoice::Confirm {
                    action_post(App { mode: *prev, ..a }, b, delete_action(kind), eff)
                } else {
                    b == (App { mode: *prev, ..a }) && eff.len() == 0
                },
                KeyCode::Esc => b == (App { mode: *prev, ..a }) && eff.len() == 0,
                _ => b == a && eff.len() == 0,
            },
            AppMode::Help => eff.len() == 0 && b == (App {
                mode: match a.prev_mode { Some(m) => m, None => AppMode::Main },
                prev_mode: None,
                ..a
            }),
        }
    }
}

/// The index `dir` rows from `i` in a list of `len` rows, if both are rows.
fn moved_index_exec(i: usize, dir: isize, len: usize) -> (res: Option<usize>)
    ensures
        match res {
            Some(n) => moved_index(i as int, dir as int, len as int) == Some(n as int),
            None => moved_index(i as int, dir as int, len as int) is None,
        },
{
    if i >= len {
        return None;
    }
    let c: i128 = (i as i128) + (dir as i128);
    if c >= 0 && c < (len as i128) {
        Some(c as usize)
    } else {
        None
    }
}

/// One effect.
fn one_effect(e: Effect) -> (res: Vec<Effect>)
    ensures
        res@ == seq![e],
{
    let mut v = Vec::new();
    v.push(e);
    v
}

/// A copy of an optional string.
fn copy_opt(s: &Option<String>) -> (res: Option<String>)
    ensures
        res == *s,
{
    match s {
        Some(x) => Some(x.clone()),
        None => None,
    }
}

impl App {
    /// The application over `data`, on the main screen, with nothing running.
    pub fn new(data: AppData, shell_env: Option<String>) -> (res: Self)
        ensures
            res.data@ == data@,
            res.mode == AppMode::Main,
            res.prev_mode is None,
            res.running,
            crate::ui::main_screen::fresh_main(&res.main_screen),
            res.detail_screen is None,
            res.execution_state == (ExecutionState::Idle { pending_set: None }),
            res.variable_screen.overlay is None,
            res.toasts.toasts@.len() == 0,
            res.trash@.len() == 0,
            res.shell_env == shell_env,
    {
        App {
            data,
            mode: AppMode::Main,
            prev_mode: None,
            running: true,
            main_screen: MainScreenState::new(),
            detail_screen: None,
            execution_state: ExecutionState::Idle { pending_set: None },
            variable_screen: VariableScreenState::new(),
            toasts: ToastManager::new(),
            trash: Vec::new(),
            shell_env,
        }
    }

    /// Opens or closes the help screen.
    fn toggle_help(&mut self)
        ensures
            help_post(*old(self), *final(self)),
    {
        if let AppMode::Help = self.mode {
            let prev = self.prev_mode.take();
            self.mode = match prev {
                Some(m) => m,
                None => AppMode::Main,
            };
        } else {
            self.prev_mode = Some(self.mode.clone());
            self.mode = AppMode::Help;
        }
    }

    /// Carries out `action` and returns the outside work it asks for.
    pub fn handle_action(&mut self, action: AppAction) -> (eff: Vec<Effect>)
        requires
            action_ok(*old(self), action),
        ensures
            action_post(*old(self), *final(self), action, eff@),
    {
        match action {
            AppAction::Nothing => Vec::new(),
            AppAction::Quit => {
                self.running = false;
                Vec::new()
            },
            AppAction::Help => {
                self.toggle_help();
                Vec::new()
            },
            AppAction::ExecuteSet(gi, si) => self.execute_set(gi, si),
            AppAction::EditSet(gi, si) => {
                self.edit_set(gi, si);
                Vec::new()
            },
            AppAction::NewSet(gi) => self.new_set(gi),
            AppAction::DeleteSet(gi, si) => self.delete_set(gi, si),
            AppAction::NewGroup => self.new_group(),
            AppAction::RenameGroup(gi, name) => self.rename_group(gi, name),
            AppAction::DeleteGroup(gi) => self.delete_group(gi),
            AppAction::SaveSet(set) => self.save_set(set),
            AppAction::CancelEdit => {
                self.detail_screen = None;
                self.mode = AppMode::Main;
                Vec::new()
            },
            AppAction::DeleteVariable(idx) => self.delete_variable(idx),
            AppAction::DeleteCommand(idx) => self.delete_command(idx),
            AppAction::VariableSaved => {
                self.info("Variable saved");
                Vec::new()
            },
            AppAction::CommandSaved => {
                self.info("Command saved");
                Vec::new()
            },
            AppAction::BackToMain => self.back_to_main(),
            AppAction::Pause => self.run_signal(AppAction::Pause),
            AppAction::Continue => self.run_signal(AppAction::Continue),
            AppAction::Abort => self.run_signal(AppAction::Abort),
            AppAction::ReExec => self.re_exec(),
            AppAction::ConfirmVariables => self.confirm_variables(),
            AppAction::CancelVariables => {
                self.cancel_variables();
                Vec::new()
            },
            AppAction::Reorder(kind, dir) => self.reorder(kind, dir),
            AppAction::RequestDelete(kind) => {
                self.request_delete(kind);
                Vec::new()
            },
        }
    }

    /// Handles a key and returns the outside work it asks for.
    pub fn handle_key(&mut self, key: KeyEvent) -> (eff: Vec<Effect>)
        requires
            key_ok(*old(self)),
        ensures
            key_post(*old(self), *final(self), key, eff@),
    {
        let ghost a = *self;
        if self.variable_screen.overlay.is_some() {
            let action = self.variable_screen.handle_key(key);
            let ghost vs = self.variable_screen;
            let ghost act = action;
            let eff = self.handle_action(action);
            assert(variable_key_post(&a.variable_screen, &vs, key, act));
            return eff;
        }
        if key.code == KeyCode::Char('?') {
            self.toggle_help();
            return Vec::new();
        }
        match self.mode {
            AppMode::Main => {
                let action = self.main_screen.handle_key(key, &self.data);
                let ghost ms = self.main_screen;
                let ghost act = action;
                let eff = self.handle_action(action);
                assert(main_key_post(&a.main_screen, &ms, key, a.data@, act));
                eff
            },
            AppMode::Detail => {
                let action = match &mut self.detail_screen {
                    Some(ds) => ds.handle_key(key),
                    None => return Vec::new(),
                };
                let ghost ds2 = self.detail_screen->Some_0;
                let ghost act = action;
                let eff = self.handle_action(action);
                assert(detail_key_post(&a.detail_screen->Some_0, &ds2, key, act));
                eff
            },
            AppMode::Execution => {
                let action = match &mut self.execution_state {
                    ExecutionState::Running { screen, .. } => screen.handle_key(key),
                    _ => return Vec::new(),
                };
                let ghost s2 = *(self.execution_state->Running_screen);
                let ghost act = action;
                let eff = self.handle_action(action);
                assert(exec_key_post(&*(a.execution_state->Running_screen), &s2, key, act));
                eff
            },
            AppMode::Help => {
                let prev = self.prev_mode.take();
                self.mode = match prev {
                    Some(m) => m,
                    None => AppMode::Main,
                };
                Vec::new()
            },
            AppMode::ConfirmDelete { .. } => self.confirm_key(key),
        }
    }

    /// Handles a key in the delete confirmation.
    fn confirm_key(&mut self, key: KeyEvent) -> (eff: Vec<Effect>)
        requires
            old(self).mode is ConfirmDelete,
        ensures
            match old(self).mode {
                AppMode::ConfirmDelete { kind, prev, selected } => match key.code {
                    KeyCode::Left => eff@.len() == 0 && *final(self) == (App {
                        mode: AppMode::ConfirmDelete { kind, prev, selected: ConfirmChoice::Confirm },
                        ..*old(self)
                    }),
                    KeyCode::Right => eff@.len() == 0 && *final(self) == (App {
                        mode: AppMode::ConfirmDelete { kind, prev, selected: ConfirmChoice::Cancel },
                        ..*old(self)
                    }),
                    KeyCode::Enter => if selected == ConfirmChoice::Confirm {
                        action_post(App { mode: *prev, ..*old(self) }, *final(self), delete_action(kind), eff@)
                    } else {
                        *final(self) == (App { mode: *prev, ..*old(self) }) && eff@.len() == 0
                    },
                    KeyCode::Esc => *final(self) == (App { mode: *prev, ..*old(self) }) && eff@.len() == 0,
                    _ => *final(self) == *old(self) && eff@.len() == 0,
                },
                _ => false,
            },
    {
        let (kind, prev, selected) = match &self.mode {
            AppMode::ConfirmDelete { kind, prev, selected } => (kind.clone(), copy_mode(prev), *selected),
            _ => return Vec::new(),
        };
        match key.code {
            KeyCode::Left => {
                self.mode = AppMode::ConfirmDelete { kind, prev: Box::new(prev), selected: ConfirmChoice::Confirm };
                Vec::new()
            },
            KeyCode::Right => {
                self.mode = AppMode::ConfirmDelete { kind, prev: Box::new(prev), selected: ConfirmChoice::Cancel };
                Vec::new()
            },
            KeyCode::Enter => {
                self.mode = prev;
                if selected == ConfirmChoice::Confirm {
                    let action = match kind {
                        DeleteKind::CmdSet { group_index, set_index, .. } => AppAction::DeleteSet(group_index, set_index),
                        DeleteKind::Group { group_index, .. } => AppAction::DeleteGroup(group_index),
                        DeleteKind::Variable { var_index, .. } => AppAction::DeleteVariable(var_index),
                        DeleteKind::Command { cmd_index, .. } => AppAction::DeleteCommand(cmd_index),
                    };
                    self.handle_action(action)
                } else {
                    Vec::new()
                }
            },
            KeyCode::Esc => {
                self.mode = prev;
                Vec::new()
            },
            _ => Vec::new(),
        }
    }

    /// Starts running set `si` of group `gi` from its first command.
    fn do_execute_with(&mut self, gi: usize, si: usize) -> (eff: Vec<Effect>)
        ensures
            if set_exists(old(self).data@, gi as int, si as int) {
                run_started(*old(self), *final(self), gi as int, si as int, eff@)
            } else {
                *final(self) == *old(self) && eff@.len() == 0
            },
    {
        if gi >= self.data.groups.len() || si >= self.data.groups[gi].sets.len() {
            return Vec::new();
        }
        let set = &self.data.groups[gi].sets[si];
        assert(self.data@[gi as int].sets[si as int] == set@);
        let screen = screen_for(set);
        let request = ExecutionRequest {
            commands: clone_vec(&set.commands),
            defer_commands: clone_vec(&set.defer_commands),
            exec_mode: set.exec_mode,
            variables: clone_vec(&set.variables),
            shell_cmd: set.shell.resolve_command(copy_opt(&self.shell_env)),
            index_offset: 0,
            working_dir: copy_opt(&set.working_dir),
        };
        self.execution_state = ExecutionState::Running { screen: Box::new(screen), pending_set: (gi, si) };
        self.mode = AppMode::Execution;
        one_effect(Effect::Start(request))
    }

    /// Runs the set waiting to run, if any and if nothing runs.
    fn do_execute(&mut self) -> (eff: Vec<Effect>)
        ensures
            match old(self).execution_state {
                ExecutionState::Idle { pending_set: Some((gi, si)) } => {
                    let c = App { execution_state: ExecutionState::Idle { pending_set: None }, ..*old(self) };
                    if set_exists(c.data@, gi as int, si as int) {
                        run_started(c, *final(self), gi as int, si as int, eff@)
                    } else {
                        *final(self) == c && eff@.len() == 0
                    }
                },
                _ => *final(self) == *old(self) && eff@.len() == 0,
            },
    {
        if let ExecutionState::Idle { pending_set: Some((gi, si)) } = self.execution_state {
            self.execution_state = ExecutionState::Idle { pending_set: None };
            self.do_execute_with(gi, si)
        } else {
            Vec::new()
        }
    }

    /// Runs set `si` of group `gi`, asking for its variables first.
    fn execute_set(&mut self, gi: usize, si: usize) -> (eff: Vec<Effect>)
        ensures
            execute_set_post(*old(self), *final(self), gi, si, eff@),
    {
        if gi < self.data.groups.len() && si < self.data.groups[gi].sets.len() {
            if self.data.groups[gi].sets[si].variables.len() > 0 {
                self.variable_screen.activate(&self.data.groups[gi].sets[si], gi, si);
                return Vec::new();
            }
            if let ExecutionState::Idle { .. } = self.execution_state {
                self.execution_state = ExecutionState::Idle { pending_set: Some((gi, si)) };
                return self.do_execute();
            }
        }
        Vec::new()
    }

    /// Opens set `si` of group `gi` in the detail screen.
    fn edit_set(&mut self, gi: usize, si: usize)
        ensures
            edit_set_post(*old(self), *final(self), gi, si),
    {
        if gi < self.data.groups.len() && si < self.data.groups[gi].sets.len() {
            let set = self.data.groups[gi].sets[si].clone();
            assert(self.data@[gi as int].sets[si as int] == set@);
            let groups = clone_groups(&self.data.groups);
            self.detail_screen = Some(DetailScreenState::new(set, groups));
            self.mode = AppMode::Detail;
        }
    }

    /// Adds a new set to group `gi` after the selected one and edits it.
    fn new_set(&mut self, gi: usize) -> (eff: Vec<Effect>)
        ensures
            new_set_post(*old(self), *final(self), gi, eff@),
    {
        if gi >= self.data.groups.len() {
            return Vec::new();
        }
        let gid = self.data.groups[gi].id;
        let set = CommandSet::new(copy_str("New Command Set"), gid);
        proof {
            reveal_strlit("New Command Set");
        }
        let len = self.data.groups[gi].sets.len();
        let si = if self.main_screen.set_list.selected < len { self.main_screen.set_list.selected + 1 } else { len };
        let copy = set.clone();
        self.data.insert_set(gi, si, set);
        self.main_screen.set_list.selected = si;
        self.info("Set created");
        let groups = clone_groups(&self.data.groups);
        self.detail_screen = Some(DetailScreenState::new(copy, groups));
        self.mode = AppMode::Detail;
        one_effect(Effect::Save)
    }

    /// Moves set `si` of group `gi` to the trash.
    fn delete_set(&mut self, gi: usize, si: usize) -> (eff: Vec<Effect>)
        ensures
            delete_set_post(*old(self), *final(self), gi, si, eff@),
    {
        if gi >= self.data.groups.len() || si >= self.data.groups[gi].sets.len() {
            return Vec::new();
        }
        let removed = self.data.remove_set(gi, si);
        assert(self.data@.len() == self.data.groups@.len());
        assert(self.data@[gi as int].sets.len() == self.data.groups@[gi as int].sets@.len());
        self.trash.push(TrashEntry {
            timestamp: now_utc(),
            item: TrashedItem::CmdSet { set: removed, group_index: gi, set_index: si },
        });
        assert(self.trash@.take(old(self).trash@.len() as int) =~= old(self).trash@);
        let left = self.data.groups[gi].sets.len();
        self.main_screen.set_list.clamp_selected(left);
        if left == 0 {
            self.main_screen.active_panel = Panel::Groups;
        }
        self.info("Set deleted");
        one_effect(Effect::Save)
    }

    /// Adds a group after the selected one and selects it.
    fn new_group(&mut self) -> (eff: Vec<Effect>)
        ensures
            new_group_post(*old(self), *final(self), eff@),
    {
        let n = self.data.groups.len();
        let gi = if self.main_screen.group_list.selected < n { self.main_screen.group_list.selected + 1 } else { n };
        let mut name = copy_str("Group ");
        proof {
            reveal_strlit("Group ");
        }
        push_decimal(&mut name, (n as u128) + 1);
        self.data.insert_group(gi, Group::new(name));
        self.main_screen.group_list.selected = gi;
        self.main_screen.set_list.reset();
        self.info("Group created");
        one_effect(Effect::Save)
    }

    /// Renames group `gi`.
    fn rename_group(&mut self, gi: usize, name: String) -> (eff: Vec<Effect>)
        ensures
            rename_group_post(*old(self), *final(self), gi, name, eff@),
    {
        if gi >= self.data.groups.len() {
            return Vec::new();
        }
        self.data.rename_group(gi, name);
        self.info("Group renamed");
        one_effect(Effect::Save)
    }

    /// Moves group `gi` to the trash.
    fn delete_group(&mut self, gi: usize) -> (eff: Vec<Effect>)
        ensures
            delete_group_post(*old(self), *final(self), gi, eff@),
    {
        if gi >= self.data.groups.len() {
            return Vec::new();
        }
        let removed = self.data.remove_group(gi);
        assert(self.data@.len() == self.data.groups@.len());
        self.trash.push(TrashEntry { timestamp: now_utc(), item: TrashedItem::Group { group: removed, index: gi } });
        assert(self.trash@.take(old(self).trash@.len() as int) =~= old(self).trash@);
        let left = self.data.groups.len();
        self.main_screen.group_list.clamp_selected(left);
        self.main_screen.set_list.reset();
        if left == 0 {
            self.main_screen.group_list.reset();
            self.main_screen.active_panel = Panel::Groups;
        }
        self.info("Group deleted");
        one_effect(Effect::Save)
    }

    /// Stores the edited `set` and returns to the main screen.
    fn save_set(&mut self, set: CommandSet) -> (eff: Vec<Effect>)
        ensures
            save_set_post(*old(self), *final(self), set@, eff@),
    {
        let ghost sv = set@;
        let now = now_utc();
        let (left, landed) = self.data.save_set(set, now);
        assert(self.data@ == saved_data(old(self).data@, sv, now));
        if let Some(gi) = left {
            assert(self.data@.len() == self.data.groups@.len());
            assert(self.data@[gi as int].sets.len() == self.data.groups@[gi as int].sets@.len());
            let n = self.data.groups[gi].sets.len();
            self.main_screen.set_list.clamp_selected(n);
        }
        if let Some((ti, si)) = landed {
            self.main_screen.group_list.selected = ti;
            self.main_screen.set_list.selected = si;
        }
        self.detail_screen = None;
        self.mode = AppMode::Main;
        self.info("Command set saved");
        one_effect(Effect::Save)
    }

    /// Deletes variable `idx` of the edited set.
    fn delete_variable(&mut self, idx: usize) -> (eff: Vec<Effect>)
        ensures
            delete_variable_post(*old(self), *final(self), idx, eff@),
    {
        let ghost a = *self;
        let deleted = match &mut self.detail_screen {
            Some(ds) => if idx < ds.set.variables.len() {
                ds.set.variables.remove(idx);
                let left = ds.set.variables.len();
                ds.var_editor.list.clamp_selected(left);
                if left == 0 {
                    ds.focus = DetailFocus::Name;
                }
                true
            } else {
                false
            },
            None => false,
        };
        if !deleted {
            return Vec::new();
        }
        let ghost mid = *self;
        self.info("Variable deleted");
        proof {
            let ds2 = mid.detail_screen->Some_0;
            assert(detail_changed(a, *self, ds2, "Variable deleted"@, seq![Effect::Save]));
        }
        one_effect(Effect::Save)
    }

    /// Deletes command `idx` of the edited set, deferred or normal.
    fn delete_command(&mut self, idx: usize) -> (eff: Vec<Effect>)
        ensures
            delete_command_post(*old(self), *final(self), idx, eff@),
    {
        let ghost a = *self;
        let deleted: u8 = match &mut self.detail_screen {
            Some(ds) => if ds.focus == DetailFocus::DeferredCommands && idx < ds.set.defer_commands.len() {
                ds.set.defer_commands.remove(idx);
                let left = ds.set.defer_commands.len();
                ds.deferred_editor.list.clamp_selected(left);
                if left == 0 {
                    ds.focus = DetailFocus::Commands;
                }
                1
            } else if idx < ds.set.commands.len() {
                let ghost before = ds.set.commands@.remove(idx as int);
                ds.set.commands.remove(idx);
                renumber(&mut ds.set.commands);
                assert(renumbered_from(before, ds.set.commands@));
                let left = ds.set.commands.len();
                ds.cmd_editor.list.clamp_selected(left);
                if left == 0 {
                    ds.focus = DetailFocus::Name;
                }
                2
            } else {
                0
            },
            None => 0,
        };
        if deleted == 0 {
            return Vec::new();
        }
        let ghost mid = *self;
        if deleted == 1 {
            self.info("Deferred command deleted");
            proof {
                let ds2 = mid.detail_screen->Some_0;
                assert(detail_changed(a, *self, ds2, "Deferred command deleted"@, seq![Effect::Save]));
            }
        } else {
            self.info("Command deleted");
            proof {
                let ds2 = mid.detail_screen->Some_0;
                assert(detail_changed(a, *self, ds2, "Command deleted"@, seq![Effect::Save]));
            }
        }
        one_effect(Effect::Save)
    }

    /// Leaves a completed run for the main screen, with its summary.
    fn back_to_main(&mut self) -> (eff: Vec<Effect>)
        ensures
            back_to_main_post(*old(self), *final(self), eff@),
    {
        let (msg, severity) = match &self.execution_state {
            ExecutionState::Running { screen, .. } => {
                if !screen.completed {
                    return Vec::new();
                }
                let mut msg = copy_str("Done: ");
                proof {
                    reveal_strlit("Done: ");
                    reveal_strlit("/");
                }
                push_decimal(&mut msg, (screen.succeeded as u128) + (screen.failed as u128) + (screen.skipped as u128));
                crate::text::push_str(&mut msg, "/");
                push_decimal(&mut msg, screen.total as u128);
                let severity = if screen.failed > 0 {
                    ToastSeverity::Error
                } else if screen.skipped > 0 {
                    ToastSeverity::Info
                } else {
                    ToastSeverity::Success
                };
                (msg, severity)
            },
            _ => return Vec::new(),
        };
        self.toasts.add(msg.as_str(), severity);
        self.execution_state = ExecutionState::Idle { pending_set: None };
        self.mode = AppMode::Main;
        one_effect(Effect::Kill)
    }

    /// Pauses, resumes or aborts the run on screen.
    fn run_signal(&mut self, action: AppAction) -> (eff: Vec<Effect>)
        requires
            action is Pause || action is Continue || action is Abort,
            action is Abort ==> match old(self).execution_state {
                ExecutionState::Running { screen, .. } => screen.skipped + screen.cmd_states@.len() <= usize::MAX,
                _ => true,
            },
        ensures
            run_signal_post(*old(self), *final(self), action, eff@),
    {
        let ghost a = *self;
        match &mut self.execution_state {
            ExecutionState::Running { screen, .. } => match action {
                AppAction::Pause => {
                    screen.paused = true;
                    one_effect(Effect::SkipCurrent)
                },
                AppAction::Continue => {
                    screen.paused = false;
                    one_effect(Effect::ContinueNext)
                },
                _ => {
                    screen.paused = false;
                    let ghost unpaused = **screen;
                    screen.skip_pending();
                    let ghost s2 = **screen;
                    proof {
                        assert(pending_skipped(unpaused, s2));
                    }
                    let eff = one_effect(Effect::AbortAll);
                    assert(screen_changed(a, *self, s2));
                    eff
                },
            },
            _ => Vec::new(),
        }
    }

    /// Runs the set of the run on screen again from its first command.
    fn re_exec(&mut self) -> (eff: Vec<Effect>)
        ensures
            re_exec_post(*old(self), *final(self), eff@),
    {
        let pending = match &self.execution_state {
            ExecutionState::Running { pending_set, .. } => Some(*pending_set),
            _ => None,
        };
        self.execution_state = ExecutionState::Idle { pending_set: None };
        let mut eff = one_effect(Effect::Kill);
        if let Some((gi, si)) = pending {
            let mut started = self.do_execute_with(gi, si);
            let ghost st = started@;
            eff.append(&mut started);
            assert(eff@.skip(1) =~= st);
        }
        eff
    }

    /// Stores the values typed in the variable prompt and runs the set.
    fn confirm_variables(&mut self) -> (eff: Vec<Effect>)
        requires
            old(self).variable_screen.overlay is Some,
        ensures
            confirm_variables_post(*old(self), *final(self), eff@),
    {
        let ghost a = *self;
        let overlay = match self.variable_screen.overlay.take() {
            Some(o) => o,
            None => return Vec::new(),
        };
        let gi = overlay.gi;
        let si = overlay.si;
        if gi < self.data.groups.len() && si < self.data.groups[gi].sets.len() {
            self.fill_in_defaults(gi, si, &overlay.inputs);
        }
        self.variable_screen = VariableScreenState::new();
        let mut eff = one_effect(Effect::Save);
        self.info("Variables saved");
        if let ExecutionState::Idle { .. } = self.execution_state {
            self.execution_state = ExecutionState::Idle { pending_set: Some((gi, si)) };
            let mut started = self.do_execute();
            let ghost st = started@;
            eff.append(&mut started);
            assert(eff@.skip(1) =~= st);
        }
        eff
    }

    /// Stores `inputs` as the default values of the variables of set `si`
    /// of group `gi`, one per variable.
    fn fill_in_defaults(&mut self, gi: usize, si: usize, inputs: &Vec<TextInput>)
        requires
            set_exists(old(self).data@, gi as int, si as int),
        ensures
            ({
                let set = old(self).data@[gi as int].sets[si as int];
                final(self).data@ == old(self).data@.update(gi as int, with_sets(
                    old(self).data@[gi as int],
                    old(self).data@[gi as int].sets.update(
                        si as int,
                        CommandSetView { variables: filled_in(set.variables, inputs@), ..set },
                    ),
                ))
            }),
            *final(self) == (App { data: final(self).data, ..*old(self) }),
    {
        let ghost a = *self;
        let mut set = self.data.remove_set(gi, si);
        let ghost set0 = set@;
        let mut i: usize = 0;
        while i < set.variables.len()
            invariant
                set@ == (CommandSetView { variables: set@.variables, ..set0 }),
                set.variables@.len() == set0.variables.len(),
                i <= set0.variables.len(),
                forall|j: int| 0 <= j < set0.variables.len() ==> #[trigger] set.variables@[j] == if j < i {
                    filled_in(set0.variables, inputs@)[j]
                } else {
                    set0.variables[j]
                },
            decreases set0.variables.len() - i,
        {
            if i < inputs.len() {
                let v = Variable { name: set.variables[i].name.clone(), default_value: inputs[i].content.clone() };
                set.variables.set(i, v);
            }
            i = i + 1;
        }
        assert(set.variables@ =~= filled_in(set0.variables, inputs@));
        let ghost filled = set@;
        self.data.insert_set(gi, si, set);
        assert(a.data@[gi as int].sets.remove(si as int).insert(si as int, filled)
            =~= a.data@[gi as int].sets.update(si as int, filled));
        assert(self.data@ =~= a.data@.update(gi as int, with_sets(
            a.data@[gi as int],
            a.data@[gi as int].sets.update(si as int, filled),
        )));
    }

    /// Closes the variable prompt without running.
    fn cancel_variables(&mut self)
        ensures
            cancel_variables_post(*old(self), *final(self)),
    {
        self.variable_screen = VariableScreenState::new();
        if let ExecutionState::Idle { .. } = self.execution_state {
            self.execution_state = ExecutionState::Idle { pending_set: None };
        }
    }

    /// Moves a group, set, variable or command `dir` rows.
    fn reorder(&mut self, kind: ReorderKind, dir: isize) -> (eff: Vec<Effect>)
        ensures
            reorder_post(*old(self), *final(self), kind, dir, eff@),
    {
        let ghost a = *self;
        match kind {
            ReorderKind::Group(gi) => match moved_index_exec(gi, dir, self.data.groups.len()) {
                Some(ni) => {
                    self.data.swap_groups(gi, ni);
                    self.main_screen.group_list.selected = ni;
                    self.info("Group moved");
                    one_effect(Effect::Save)
                },
                None => Vec::new(),
            },
            ReorderKind::CmdSet(gi, si) => {
                if gi >= self.data.groups.len() {
                    return Vec::new();
                }
                assert(self.data@[gi as int].sets.len() == self.data.groups@[gi as int].sets@.len());
                match moved_index_exec(si, dir, self.data.groups[gi].sets.len()) {
                    Some(ni) => {
                        self.data.swap_sets(gi, si, ni);
                        self.main_screen.set_list.selected = ni;
                        self.info("Set moved");
                        one_effect(Effect::Save)
                    },
                    None => Vec::new(),
                }
            },
            ReorderKind::Variable(idx) => {
                let moved = match &mut self.detail_screen {
                    Some(ds) => match moved_index_exec(idx, dir, ds.set.variables.len()) {
                        Some(ni) => {
                            swap_items(&mut ds.set.variables, idx, ni);
                            ds.var_editor.list.selected = ni;
                            true
                        },
                        None => false,
                    },
                    None => false,
                };
                if !moved {
                    return Vec::new();
                }
                let ghost mid = *self;
                self.info("Variable moved");
                proof {
                    assert(detail_changed(a, *self, mid.detail_screen->Some_0, "Variable moved"@, seq![Effect::Save]));
                }
                one_effect(Effect::Save)
            },
            ReorderKind::Command(idx) => {
                let which: u8 = match &mut self.detail_screen {
                    Some(ds) => if ds.focus == DetailFocus::DeferredCommands {
                        match moved_index_exec(idx, dir, ds.set.defer_commands.len()) {
                            Some(ni) => {
                                swap_items(&mut ds.set.defer_commands, idx, ni);
                                ds.deferred_editor.list.selected = ni;
                                1
                            },
                            None => 0,
                        }
                    } else {
                        match moved_index_exec(idx, dir, ds.set.commands.len()) {
                            Some(ni) => {
                                swap_items(&mut ds.set.commands, idx, ni);
                                let ghost before = ds.set.commands@;
                                renumber(&mut ds.set.commands);
                                assert(renumbered_from(before, ds.set.commands@));
                                ds.cmd_editor.list.selected = ni;
                                2
                            },
                            None => 0,
                        }
                    },
                    None => 0,
                };
                if which == 0 {
                    return Vec::new();
                }
                let ghost mid = *self;
                if which == 1 {
                    self.info("Deferred command moved");
                    proof {
                        assert(detail_changed(a, *self, mid.detail_screen->Some_0, "Deferred command moved"@, seq![Effect::Save]));
                    }
                } else {
                    self.info("Command moved");
                    proof {
                        assert(detail_changed(a, *self, mid.detail_screen->Some_0, "Command moved"@, seq![Effect::Save]));
                    }
                }
                one_effect(Effect::Save)
            },
        }
    }

    /// Asks to confirm deleting `kind`, over the current mode.
    fn request_delete(&mut self, kind: DeleteKind)
        ensures
            *final(self) == (App {
                mode: AppMode::ConfirmDelete { kind, prev: Box::new(old(self).mode), selected: ConfirmChoice::Cancel },
                ..*old(self)
            }),
    {
        let prev = copy_mode(&self.mode);
        self.mode = AppMode::ConfirmDelete { kind, prev: Box::new(prev), selected: ConfirmChoice::Cancel };
    }

    /// The text of the title bar.
    pub fn title_text(&self) -> (res: String)
        ensures
            res@ == title_spec(*self),
    {
        let mut total: u128 = 0;
        let mut gi: usize = 0;
        assert(self.data@.len() == self.data.groups@.len());
        while gi < self.data.groups.len()
            invariant
                self.data@.len() == self.data.groups@.len(),
                gi <= self.data@.len(),
                total == set_total(self.data@, gi as int),
                total <= gi * 0x1_0000_0000_0000_0000,
            decreases self.data@.len() - gi,
        {
            assert(self.data@[gi as int].sets.len() == self.data.groups@[gi as int].sets@.len());
            total = total + self.data.groups[gi].sets.len() as u128;
            gi = gi + 1;
        }
        proof {
            reveal_strlit(" Launcher  |  ");
            reveal_strlit("  |  ");
            reveal_strlit(" groups, ");
            reveal_strlit(" sets  |  ? Help  q Quit");
            reveal_strlit("Main");
            reveal_strlit("Edit");
            reveal_strlit("Run");
            reveal_strlit("Help");
            reveal_strlit("Confirm");
        }
        let mut s = copy_str(" Launcher  |  ");
        let label = match self.mode {
            AppMode::Main => "Main",
            AppMode::Detail => "Edit",
            AppMode::Execution => "Run",
            AppMode::Help => "Help",
            AppMode::ConfirmDelete { .. } => "Confirm",
        };
        crate::text::push_str(&mut s, label);
        crate::text::push_str(&mut s, "  |  ");
        push_decimal(&mut s, self.data.groups.len() as u128);
        crate::text::push_str(&mut s, " groups, ");
        push_decimal(&mut s, total);
        crate::text::push_str(&mut s, " sets  |  ? Help  q Quit");
        s
    }

    /// Raises an information toast.
    fn info(&mut self, msg: &str)
        ensures
            toasted(*old(self), *final(self), msg@, ToastSeverity::Info),
    {
        self.toasts.add(msg, ToastSeverity::Info);
    }
}


/// Opening the help screen and closing it again returns to the mode it was
/// opened over, with nothing else changed.
pub proof fn lemma_help_round_trip(a: App, b: App, c: App, e1: Seq<Effect>, e2: Seq<Effect>)
    requires
        !(a.mode is Help),
        action_post(a, b, AppAction::Help, e1),
        action_post(b, c, AppAction::Help, e2),
    ensures
        c == (App { prev_mode: None, ..a }),
        e1.len() == 0,
        e2.len() == 0,
{
}

/// Moving a group down one row and then back up restores the data and the
/// selection.
pub proof fn lemma_reorder_group_round_trip(
    a: App,
    b: App,
    c: App,
    gi: usize,
    next: usize,
    e1: Seq<Effect>,
    e2: Seq<Effect>,
)
    requires
        next == gi + 1,
        next < a.data@.len(),
        action_post(a, b, AppAction::Reorder(ReorderKind::Group(gi), 1isize), e1),
        action_post(b, c, AppAction::Reorder(ReorderKind::Group(next), -1isize), e2),
    ensures
        c.data@ == a.data@,
        c.main_screen.group_list.selected == gi,
{
    assert(moved_index(gi as int, 1, a.data@.len() as int) == Some(gi + 1));
    assert(b.data@ == swapped(a.data@, gi as int, gi + 1));
    assert(moved_index(gi + 1, -1, b.data@.len() as int) == Some(gi as int));
    assert(swapped(swapped(a.data@, gi as int, gi + 1), gi + 1, gi as int) =~= a.data@);
}

/// Moving a set down one row within its group and then back up restores
/// the data and the selection.
pub proof fn lemma_reorder_set_round_trip(
    a: App,
    b: App,
    c: App,
    gi: usize,
    si: usize,
    next: usize,
    e1: Seq<Effect>,
    e2: Seq<Effect>,
)
    requires
        gi < a.data@.len(),
        next == si + 1,
        next < a.data@[gi as int].sets.len(),
        action_post(a, b, AppAction::Reorder(ReorderKind::CmdSet(gi, si), 1isize), e1),
        action_post(b, c, AppAction::Reorder(ReorderKind::CmdSet(gi, next), -1isize), e2),
    ensures
        c.data@ == a.data@,
        c.main_screen.set_list.selected == si,
{
    let g = a.data@[gi as int];
    assert(moved_index(si as int, 1, g.sets.len() as int) == Some(si + 1));
    let g2 = with_sets(g, swapped(g.sets, si as int, si + 1));
    assert(b.data@ == a.data@.update(gi as int, g2));
    assert(b.data@[gi as int] == g2);
    assert(moved_index(si + 1, -1, g2.sets.len() as int) == Some(si as int));
    assert(swapped(swapped(g.sets, si as int, si + 1), si + 1, si as int) =~= g.sets);
    assert(c.data@ =~= a.data@);
}

/// Moving a variable of the edited set down one row and then back up
/// restores the variables and the selection.
pub proof fn lemma_reorder_variable_round_trip(
    a: App,
    b: App,
    c: App,
    idx: usize,
    next: usize,
    e1: Seq<Effect>,
    e2: Seq<Effect>,
)
    requires
        a.detail_screen is Some,
        next == idx + 1,
        next < a.detail_screen->0.set.variables@.len(),
        action_post(a, b, AppAction::Reorder(ReorderKind::Variable(idx), 1isize), e1),
        action_post(b, c, AppAction::Reorder(ReorderKind::Variable(next), -1isize), e2),
    ensures
        c.detail_screen matches Some(ds) && ds.set.variables@ == a.detail_screen->0.set.variables@
            && ds.var_editor.list.selected == idx,
        c.data@ == a.data@,
{
    let ds = a.detail_screen->0;
    assert(moved_index(idx as int, 1, ds.set.variables@.len() as int) == Some(idx + 1));
    let ds2 = b.detail_screen->0;
    assert(ds2.set.variables@ == swapped(ds.set.variables@, idx as int, idx + 1));
    assert(moved_index(idx + 1, -1, ds2.set.variables@.len() as int) == Some(idx as int));
    assert(swapped(swapped(ds.set.variables@, idx as int, idx + 1), idx + 1, idx as int) =~= ds.set.variables@);
}

/// Moving a command of the edited set down one row and then back up
/// restores the commands' text in their order, numbered from 0, and the
/// selection.
pub proof fn lemma_reorder_command_round_trip(
    a: App,
    b: App,
    c: App,
    idx: usize,
    next: usize,
    e1: Seq<Effect>,
    e2: Seq<Effect>,
)
    requires
        a.detail_screen is Some,
        a.detail_screen->0.focus == DetailFocus::Commands,
        next == idx + 1,
        next < a.detail_screen->0.set.commands@.len(),
        action_post(a, b, AppAction::Reorder(ReorderKind::Command(idx), 1isize), e1),
        action_post(b, c, AppAction::Reorder(ReorderKind::Command(next), -1isize), e2),
    ensures
        c.detail_screen matches Some(ds) && renumbered_from(a.detail_screen->0.set.commands@, ds.set.commands@)
            && ds.cmd_editor.list.selected == idx,
        c.data@ == a.data@,
{
    let ds = a.detail_screen->0;
    let n = ds.set.commands@.len() as int;
    assert(moved_index(idx as int, 1, n) == Some(idx + 1));
    let ds2 = b.detail_screen->0;
    assert(ds2.focus == DetailFocus::Commands);
    assert(moved_index(idx + 1, -1, ds2.set.commands@.len() as int) == Some(idx as int));
    let ds3 = c.detail_screen->0;
    let once = swapped(ds.set.commands@, idx as int, idx + 1);
    let twice = swapped(ds2.set.commands@, idx + 1, idx as int);
    assert forall|i: int| 0 <= i < n implies #[trigger] twice[i].command == ds.set.commands@[i].command by {
        if i == idx as int {
            assert(twice[i] == ds2.set.commands@[idx + 1]);
            assert(ds2.set.commands@[idx + 1].command == once[idx + 1].command);
        } else if i == idx + 1 {
            assert(twice[i] == ds2.set.commands@[idx as int]);
            assert(ds2.set.commands@[idx as int].command == once[idx as int].command);
        } else {
            assert(twice[i] == ds2.set.commands@[i]);
            assert(ds2.set.commands@[i].command == once[i].command);
        }
    }
    assert forall|i: int| 0 <= i < n implies #[trigger] ds3.set.commands@[i] == (Command {
        position: i as usize,
        command: ds.set.commands@[i].command,
    }) by {
        assert(ds3.set.commands@[i].command == twice[i].command);
    }
}

/// Asking to delete anything and then pressing Esc in the confirmation
/// leaves the state as it was.
pub proof fn lemma_delete_request_cancelled(a: App, b: App, c: App, kind: DeleteKind, key: KeyEvent, e1: Seq<Effect>, e2: Seq<Effect>)
    requires
        a.variable_screen.overlay is None,
        key.code == KeyCode::Esc,
        action_post(a, b, AppAction::RequestDelete(kind), e1),
        key_post(b, c, key, e2),
    ensures
        c == a,
        e1.len() == 0,
        e2.len() == 0,
{
}

/// Asking to delete anything and pressing Enter at once (the dialog opens
/// on Cancel) deletes nothing and leaves the state as it was.
pub proof fn lemma_delete_request_defaults_to_cancel(a: App, b: App, c: App, kind: DeleteKind, key: KeyEvent, e1: Seq<Effect>, e2: Seq<Effect>)
    requires
        a.variable_screen.overlay is None,
        key.code == KeyCode::Enter,
        action_post(a, b, AppAction::RequestDelete(kind), e1),
        key_post(b, c, key, e2),
    ensures
        c == a,
        e2.len() == 0,
{
}

/// Adding a group and then deleting the selected group (the new one)
/// restores the data; the deleted group is the last entry of the trash.
pub proof fn lemma_new_group_then_delete(a: App, b: App, c: App, e1: Seq<Effect>, e2: Seq<Effect>)
    requires
        a.data@.len() < usize::MAX,
        action_post(a, b, AppAction::NewGroup, e1),
        action_post(b, c, AppAction::DeleteGroup(b.main_screen.group_list.selected), e2),
    ensures
        c.data@ == a.data@,
        c.trash@.len() == a.trash@.len() + 1,
        c.trash@.last().item matches TrashedItem::Group { group, .. } && group@.sets.len() == 0,
{
    let gi = after_selected(a.main_screen.group_list.selected as int, a.data@.len() as int);
    assert(b.main_screen.group_list.selected == gi);
    assert(a.data@.insert(gi, b.data@[gi]).remove(gi) =~= a.data@);
}

} // verus!
