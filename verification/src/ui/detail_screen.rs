//! State of the detail screen: editing one command set's properties,
//! variables, commands and deferred commands.

use vstd::prelude::*;
use crate::action::{AppAction, DeleteKind, ReorderKind};
use crate::models::{clone_groups, groups_view, shell_label, Command, CommandSet, CommandSetView, ExecMode, Group, GroupView, ShellType, Variable};
use crate::search::{boundary_offsets, byte_at};
use crate::text::{chars_of, copy_str, find_char, find_char_exec, push_str, string_of_range, trim_str, trimmed, utf8_len};
use crate::ui::inline_edit::{guarded_key_spec, InlineEdit};
use crate::ui::keys::{KeyCode, KeyEvent};
use crate::ui::scrollable_list::{select_next_spec, select_previous_spec, ScrollableList};
use crate::ui::text_input::{handle_text_input, text_key_spec, TextInput};

verus! {

/// The focused field or list.
#[derive(Debug, Clone, Copy, PartialEq, Eq, Structural)]
pub enum DetailFocus {
    Name,
    Group,
    Shell,
    ExecMode,
    WorkDir,
    Variables,
    Commands,
    DeferredCommands,
}

/// The list and inline editor of one editable list.
#[derive(Debug)]
pub struct ListEditor {
    pub list: ScrollableList,
    pub edit: InlineEdit,
}

/// The one editing operation that may be active.
#[derive(Debug)]
pub enum EditingState {
    Idle,
    Name(TextInput),
    WorkDir(TextInput),
    ListItem,
}

/// The detail screen: a working copy of the set and of the groups it may move to.
#[derive(Debug)]
pub struct DetailScreenState {
    pub set: CommandSet,
    pub groups: Vec<Group>,
    pub focus: DetailFocus,
    pub editing: EditingState,
    pub var_editor: ListEditor,
    pub cmd_editor: ListEditor,
    pub deferred_editor: ListEditor,
}

impl ListEditor {
    /// First row selected, nothing edited.
    pub fn new() -> (res: Self)
        ensures
            res.list == ScrollableList::new_spec(),
            res.edit.editing is None,
            res.edit.insert_at is None,
    {
        ListEditor { list: ScrollableList::new(), edit: InlineEdit::new() }
    }
}

/// The focus is one of the properties fields.
pub open spec fn in_properties(f: DetailFocus) -> bool {
    match f {
        DetailFocus::Name | DetailFocus::WorkDir | DetailFocus::Group | DetailFocus::Shell | DetailFocus::ExecMode => true,
        _ => false,
    }
}

/// Focus after Tab: properties, variables, commands, deferred commands, and round.
pub open spec fn next_region_spec(f: DetailFocus) -> DetailFocus {
    match f {
        DetailFocus::Variables => DetailFocus::Commands,
        DetailFocus::Commands => DetailFocus::DeferredCommands,
        DetailFocus::DeferredCommands => DetailFocus::Name,
        _ => DetailFocus::Variables,
    }
}

/// Focus after Shift+Tab.
pub open spec fn prev_region_spec(f: DetailFocus) -> DetailFocus {
    match f {
        DetailFocus::Variables => DetailFocus::Name,
        DetailFocus::Commands => DetailFocus::Variables,
        DetailFocus::DeferredCommands => DetailFocus::Commands,
        _ => DetailFocus::DeferredCommands,
    }
}

/// Tab and Shift+Tab walk one cycle of four regions: the name field, the
/// variables, the commands and the deferred commands. Each undoes the other
/// on these regions, and four Tabs come back to where they started. From
/// another property field, Tab leaves the properties and comes back to the
/// name field.
pub proof fn lemma_region_cycle(f: DetailFocus)
    ensures
        f is Name || f is Variables || f is Commands || f is DeferredCommands ==> {
            &&& prev_region_spec(next_region_spec(f)) == f
            &&& next_region_spec(prev_region_spec(f)) == f
            &&& next_region_spec(next_region_spec(next_region_spec(next_region_spec(f)))) == f
        },
        next_region_spec(next_region_spec(next_region_spec(next_region_spec(f)))) == DetailFocus::Name
            || f is Variables || f is Commands || f is DeferredCommands,
{
}

/// The entries of the shell picker for a set whose shell is `shell`: the
/// built-in shells, then the custom entry, with its path when the set has
/// one.
pub open spec fn shell_choices(shell: ShellType) -> Seq<Seq<char>> {
    seq![
        shell_label(ShellType::SystemDefault),
        shell_label(ShellType::Bash),
        shell_label(ShellType::Zsh),
        shell_label(ShellType::Fish),
        shell_label(ShellType::PowerShell),
        match shell {
            ShellType::Custom(p) => "Custom: "@ + p@,
            _ => "Custom"@,
        },
    ]
}

/// The entry of the shell picker that `shell` is.
pub open spec fn shell_choice_index(shell: ShellType) -> int {
    match shell {
        ShellType::SystemDefault => 0,
        ShellType::Bash => 1,
        ShellType::Zsh => 2,
        ShellType::Fish => 3,
        ShellType::PowerShell => 4,
        ShellType::Custom(_) => 5,
    }
}

/// The texts of `v`.
pub open spec fn names_view(v: Seq<String>) -> Seq<Seq<char>> {
    v.map_values(|s: String| s@)
}

/// The picker beside the properties while an option is focused: its
/// entries, the entry of the current value, and its title.
pub open spec fn picker_spec(ds: &DetailScreenState) -> Option<(Seq<Seq<char>>, int, Seq<char>)> {
    match ds.focus {
        DetailFocus::Group => Some((
            groups_view(ds.groups@).map_values(|g: GroupView| g.name@),
            group_pos(groups_view(ds.groups@), ds.set.group_id),
            " Groups "@,
        )),
        DetailFocus::Shell => Some((shell_choices(ds.set.shell), shell_choice_index(ds.set.shell), " Shells "@)),
        DetailFocus::ExecMode => Some((
            seq!["Stop on Error"@, "Continue on Error"@],
            if ds.set.exec_mode == ExecMode::StopOnError { 0int } else { 1int },
            " Exec Mode "@,
        )),
        _ => None,
    }
}

/// Rows of the picker wheel; its middle row holds the current entry.
pub const PICKER_ROWS: usize = 7;

/// The entry on row `row` of the picker wheel whose middle row holds entry
/// `sel` of `total`, if there is one.
pub open spec fn wheel_entry(sel: int, total: int, row: int) -> Option<int> {
    let idx = sel + row - 3;
    if 0 <= idx < total { Some(idx) } else { None }
}

/// The entries on the rows of the picker wheel, top to bottom: the current
/// entry `sel` in the middle with its neighbours around it, and `None`
/// where the list ends.
pub fn picker_wheel(sel: usize, total: usize) -> (res: Vec<Option<usize>>)
    ensures
        res@.len() == PICKER_ROWS,
        forall|r: int| 0 <= r < PICKER_ROWS ==> match wheel_entry(sel as int, total as int, r) {
            Some(i) => #[trigger] res@[r] == Some(i as usize),
            None => res@[r] is None,
        },
{
    let mut rows: Vec<Option<usize>> = Vec::new();
    let mut r: usize = 0;
    while r < PICKER_ROWS
        invariant
            r <= PICKER_ROWS,
            rows@.len() == r,
            forall|k: int| 0 <= k < r ==> match wheel_entry(sel as int, total as int, k) {
                Some(i) => #[trigger] rows@[k] == Some(i as usize),
                None => rows@[k] is None,
            },
        decreases PICKER_ROWS - r,
    {
        let entry = if r < 3 {
            if sel >= 3 - r && sel - (3 - r) < total { Some(sel - (3 - r)) } else { None }
        } else if sel < total && r - 3 < total - sel {
            Some(sel + (r - 3))
        } else {
            None
        };
        rows.push(entry);
        r = r + 1;
    }
    rows
}

/// The key hints under the form: those of an edit in progress, else those
/// of the focused region.
pub open spec fn detail_status_text(ds: &DetailScreenState) -> Seq<char> {
    if ds.var_editor.edit.editing is Some || ds.cmd_editor.edit.editing is Some
        || ds.deferred_editor.edit.editing is Some || ds.editing is Name || ds.editing is WorkDir {
        "[Enter] Confirm  [Esc] Cancel"@
    } else {
        match ds.focus {
            DetailFocus::Name | DetailFocus::WorkDir => "[Enter] Edit  [↑/↓] Navigate  [Tab] Next  |  [Ctrl+S] Save"@,
            DetailFocus::Group | DetailFocus::Shell | DetailFocus::ExecMode =>
                "[←/→] Change  [↑/↓] Navigate  [Tab] Next  |  [Ctrl+S] Save"@,
            _ => "[a] Add  [e/Enter] Edit  [d] Delete  [↑/↓] Nav  [Ctrl+↑/↓] Move  [Tab] Next  |  [Ctrl+S] Save"@,
        }
    }
}

/// Focus after Up among the properties.
pub open spec fn prop_up_spec(f: DetailFocus) -> DetailFocus {
    match f {
        DetailFocus::WorkDir => DetailFocus::Name,
        DetailFocus::Group => DetailFocus::WorkDir,
        DetailFocus::Shell => DetailFocus::Group,
        DetailFocus::ExecMode => DetailFocus::Shell,
        _ => f,
    }
}

/// Focus after Down among the properties.
pub open spec fn prop_down_spec(f: DetailFocus) -> DetailFocus {
    match f {
        DetailFocus::Name => DetailFocus::WorkDir,
        DetailFocus::WorkDir => DetailFocus::Group,
        DetailFocus::Group => DetailFocus::Shell,
        DetailFocus::Shell => DetailFocus::ExecMode,
        _ => f,
    }
}

/// Position of a shell in the picker: the built-ins, then custom.
pub open spec fn shell_index(s: ShellType) -> int {
    match s {
        ShellType::SystemDefault => 0,
        ShellType::Bash => 1,
        ShellType::Zsh => 2,
        ShellType::Fish => 3,
        ShellType::PowerShell => 4,
        ShellType::Custom(_) => 5,
    }
}

/// `new` is the shell after moving `delta` in the picker from `s`; a custom
/// shell keeps its path (a new one gets `/usr/bin/sh`); moving past either
/// end does nothing.
pub open spec fn cycle_shell_ok(s: ShellType, new: ShellType, delta: int) -> bool {
    let c = shell_index(s) + delta;
    if c < 0 || c >= 6 {
        new == s
    } else if c == 0 {
        new == ShellType::SystemDefault
    } else if c == 1 {
        new == ShellType::Bash
    } else if c == 2 {
        new == ShellType::Zsh
    } else if c == 3 {
        new == ShellType::Fish
    } else if c == 4 {
        new == ShellType::PowerShell
    } else {
        match s {
            ShellType::Custom(p) => new == ShellType::Custom(p),
            _ => new matches ShellType::Custom(p) && p@ == "/usr/bin/sh"@,
        }
    }
}

/// The exec mode after moving `delta` in the picker.
pub open spec fn cycle_exec_mode_spec(m: ExecMode, delta: int) -> ExecMode {
    let c = (if m == ExecMode::StopOnError { 0int } else { 1int }) + delta;
    if c == 0 { ExecMode::StopOnError } else if c == 1 { ExecMode::ContinueOnError } else { m }
}

/// Index of the first group with id `id`, or 0 when there is none.
pub open spec fn group_pos(groups: Seq<GroupView>, id: u128) -> int {
    if exists|i: int| 0 <= i < groups.len() && groups[i].id == id {
        choose|i: int| 0 <= i < groups.len() && groups[i].id == id && forall|j: int| 0 <= j < i ==> groups[j].id != id
    } else {
        0
    }
}

/// The group id after moving `delta` in the group picker.
pub open spec fn cycle_group_spec(groups: Seq<GroupView>, id: u128, delta: int) -> u128 {
    let c = group_pos(groups, id) + delta;
    if groups.len() == 0 || c < 0 || c >= groups.len() { id } else { groups[c].id }
}

/// The working directory a committed text gives: none for blank text.
pub open spec fn workdir_of(text: Seq<char>) -> Option<Seq<char>> {
    if trimmed(text).len() == 0 { None } else { Some(text) }
}

/// The variable an edited `name=value` line gives (a line without `=` names
/// a variable with an empty value); `None` for an empty line.
pub open spec fn parse_variable_line(text: Seq<char>) -> Option<(Seq<char>, Seq<char>)> {
    match find_char(text, '=') {
        Some(p) => Some((trimmed(text.take(p)), trimmed(text.skip(p + 1)))),
        None => if text.len() == 0 { None } else { Some((trimmed(text), Seq::empty())) },
    }
}

/// Byte just after the first `=` of `text`, which deletions may not cross;
/// `None` when there is no `=`.
pub open spec fn protect_of(text: Seq<char>) -> Option<int> {
    match find_char(text, '=') {
        Some(p) => Some(byte_at(text, p) + 1),
        None => None,
    }
}

/// The inline editor may commit at `idx` into a list of `len` items.
pub open spec fn commit_ok(edit: InlineEdit, idx: int, len: int) -> bool {
    match edit.insert_at {
        Some(p) => p <= len,
        None => 0 <= idx < len,
    }
}

/// Where a commit from `edit` at `idx` writes.
pub open spec fn commit_pos(edit: InlineEdit, idx: int) -> int {
    match edit.insert_at {
        Some(p) => p as int,
        None => idx,
    }
}

/// `new` is `old` with one item inserted (or replaced) where a commit from
/// `edit` at `idx` writes, every other item kept.
pub open spec fn committed_at<T>(old: Seq<T>, new: Seq<T>, edit: InlineEdit, idx: int) -> bool {
    match edit.insert_at {
        Some(p) => new.len() == old.len() + 1 && new.remove(p as int) == old,
        None => new.len() == old.len() && forall|j: int| 0 <= j < old.len() && j != idx ==> new[j] == old[j],
    }
}

/// Commands renumbered so that each position is its index.
pub open spec fn renumbered(cmds: Seq<Command>) -> bool {
    forall|i: int| 0 <= i < cmds.len() ==> (#[trigger] cmds[i]).position == i
}

/// Sets each command's position to its index.
pub fn renumber(cmds: &mut Vec<Command>)
    ensures
        final(cmds)@.len() == old(cmds)@.len(),
        renumbered(final(cmds)@),
        forall|i: int| 0 <= i < old(cmds)@.len() ==> (#[trigger] final(cmds)@[i]).command == old(cmds)@[i].command,
{
    let mut i: usize = 0;
    while i < cmds.len()
        invariant
            i <= cmds@.len(),
            cmds@.len() == old(cmds)@.len(),
            forall|j: int| 0 <= j < i ==> (#[trigger] cmds@[j]).position == j,
            forall|j: int| 0 <= j < old(cmds)@.len() ==> (#[trigger] cmds@[j]).command == old(cmds)@[j].command,
        decreases cmds@.len() - i,
    {
        cmds[i].position = i;
        i = i + 1;
    }
}

/// The edit `e0` ended: nothing edited or inserted, the text kept.
pub open spec fn edit_ended(e0: InlineEdit) -> InlineEdit {
    InlineEdit { editing: None, insert_at: None, ..e0 }
}

/// A text key applied to the open edit `e0`, leaving `e1`: `guard` protects
/// the text up to a byte, if given.
pub open spec fn edit_typed(e0: InlineEdit, e1: InlineEdit, code: KeyCode, guard: Option<int>) -> bool {
    &&& e1.editing == e0.editing
    &&& e1.insert_at == e0.insert_at
    &&& if e0.editing is Some {
        (e1.edit_input.content@, e1.edit_input.cursor as int)
            == guarded_key_spec(e0.edit_input.content@, e0.edit_input.cursor as int, code, guard)
    } else {
        e1 == e0
    }
}

/// A key on the inline edit `e0` of variable `idx` of `v0` listed in `l0`,
/// leaving `e1`, `v1` and `l1`: Enter commits the `name=value` line where
/// the edit writes (selecting it) and ends the edit, Esc ends it, other
/// keys edit the text without crossing the first `=`.
pub open spec fn var_edit_post(
    e0: InlineEdit,
    e1: InlineEdit,
    key: KeyEvent,
    idx: int,
    v0: Seq<Variable>,
    v1: Seq<Variable>,
    l0: ScrollableList,
    l1: ScrollableList,
) -> bool {
    match key.code {
        KeyCode::Enter => {
            &&& e1 == edit_ended(e0)
            &&& match parse_variable_line(e0.edit_input.content@) {
                Some((name, value)) => if commit_ok(e0, idx, v0.len() as int) {
                    let at = commit_pos(e0, idx);
                    &&& committed_at(v0, v1, e0, idx)
                    &&& v1[at].name@ == name
                    &&& v1[at].default_value@ == value
                    &&& l1 == (ScrollableList { selected: at as usize, ..l0 })
                } else {
                    v1 == v0 && l1 == l0
                },
                None => v1 == v0 && l1 == l0,
            }
        },
        KeyCode::Esc => e1 == edit_ended(e0) && v1 == v0 && l1 == l0,
        _ => v1 == v0 && l1 == l0 && edit_typed(e0, e1, key.code, protect_of(e0.edit_input.content@)),
    }
}

/// A key on the inline edit `e0` of command `idx` of `c0` listed in `l0`,
/// leaving `e1`, `c1` and `l1`: Enter writes the text as a command where
/// the edit writes (selecting it), renumbers the commands and ends the
/// edit, Esc ends it, other keys edit the text.
pub open spec fn cmd_edit_post(
    e0: InlineEdit,
    e1: InlineEdit,
    key: KeyEvent,
    idx: int,
    c0: Seq<Command>,
    c1: Seq<Command>,
    l0: ScrollableList,
    l1: ScrollableList,
) -> bool {
    match key.code {
        KeyCode::Enter => {
            &&& e1 == edit_ended(e0)
            &&& if commit_ok(e0, idx, c0.len() as int) {
                let at = commit_pos(e0, idx);
                &&& c1.len() == (if e0.insert_at is Some { c0.len() + 1int } else { c0.len() as int })
                &&& c1[at].command@ == e0.edit_input.content@
                &&& renumbered(c1)
                &&& l1 == (ScrollableList { selected: at as usize, ..l0 })
                &&& e0.insert_at is Some ==> forall|j: int| 0 <= j < c0.len() ==> {
                    &&& j < at ==> c1[j].command == (#[trigger] c0[j]).command
                    &&& j >= at ==> c1[j + 1].command == c0[j].command
                }
                &&& e0.insert_at is None ==> forall|j: int| 0 <= j < c0.len() && j != at
                    ==> c1[j].command == (#[trigger] c0[j]).command
            } else {
                c1 == c0 && l1 == l0
            }
        },
        KeyCode::Esc => e1 == edit_ended(e0) && c1 == c0 && l1 == l0,
        _ => c1 == c0 && l1 == l0 && edit_typed(e0, e1, key.code, None),
    }
}

/// Handles a key while a variable is being edited inline: Enter commits the
/// `name=value` line (when there is one and the edited position is valid)
/// and ends the edit, Esc abandons it, other keys edit the text without
/// crossing the first `=`.
pub fn handle_variable_edit(
    edit: &mut InlineEdit,
    key: KeyEvent,
    idx: usize,
    variables: &mut Vec<Variable>,
    list: &mut ScrollableList,
) -> (res: AppAction)
    ensures
        res is Nothing,
        var_edit_post(*old(edit), *final(edit), key, idx as int, old(variables)@, final(variables)@, *old(list), *final(list)),
{
    match key.code {
        KeyCode::Enter => {
            let ghost e0 = *edit;
            let ghost v0 = variables@;
            let (chars, offs) = boundary_offsets(edit.edit_input.content.as_str());
            let ok = match edit.insert_at {
                Some(p) => p <= variables.len(),
                None => idx < variables.len(),
            };
            match find_char_exec(&chars, '=') {
                Some(p) => {
                    let left = string_of_range(&chars, 0, p);
                    let right = string_of_range(&chars, p + 1, chars.len());
                    let name = trim_str(left.as_str());
                    let value = trim_str(right.as_str());
                    assert(chars@.subrange(0, p as int) =~= chars@.take(p as int));
                    assert(chars@.subrange(p + 1, chars@.len() as int) =~= chars@.skip(p + 1));
                    if ok {
                        edit.commit(idx, variables, Variable { name, default_value: value }, list);
                    }
                },
                None => {
                    if chars.len() > 0 && ok {
                        let name = trim_str(edit.edit_input.content.as_str());
                        edit.commit(idx, variables, Variable { name, default_value: String::new() }, list);
                    }
                },
            }
            proof {
                if ok && parse_variable_line(e0.edit_input.content@) is Some {
                    match e0.insert_at {
                        Some(p) => { assert(variables@.remove(p as int) =~= v0); },
                        None => {},
                    }
                }
            }
            edit.cancel();
            AppAction::Nothing
        },
        KeyCode::Esc => {
            edit.cancel();
            AppAction::Nothing
        },
        _ => {
            if edit.editing.is_some() {
                let (chars, offs) = boundary_offsets(edit.edit_input.content.as_str());
                let protect = match find_char_exec(&chars, '=') {
                    Some(p) => Some(offs[p] + 1),
                    None => None,
                };
                edit.handle_key_protected(key, protect);
            }
            AppAction::Nothing
        },
    }
}

/// Handles a key while a command is being edited inline: Enter commits the
/// text as the command (when the edited position is valid), renumbers the
/// positions and ends the edit, Esc abandons it, other keys edit the text.
pub fn handle_command_edit(
    edit: &mut InlineEdit,
    key: KeyEvent,
    idx: usize,
    commands: &mut Vec<Command>,
    list: &mut ScrollableList,
) -> (res: AppAction)
    ensures
        res is Nothing,
        cmd_edit_post(*old(edit), *final(edit), key, idx as int, old(commands)@, final(commands)@, *old(list), *final(list)),
{
    match key.code {
        KeyCode::Enter => {
            let ok = match edit.insert_at {
                Some(p) => p <= commands.len(),
                None => idx < commands.len(),
            };
            if ok {
                let cmd = edit.edit_input.content.clone();
                edit.commit(idx, commands, Command { position: idx, command: cmd }, list);
                renumber(commands);
            }
            edit.cancel();
            AppAction::Nothing
        },
        KeyCode::Esc => {
            edit.cancel();
            AppAction::Nothing
        },
        _ => {
            if edit.editing.is_some() {
                edit.handle_key(key);
            }
            AppAction::Nothing
        },
    }
}

/// The index of the item to act on in a list of `len` items: the selection
/// clamped to the last item.
pub open spec fn clamp_index(selected: int, len: int) -> int {
    if selected < len - 1 { selected } else { len - 1 }
}

/// A text key typed into the name or working-directory field being edited
/// in `e0`, leaving `e1`; any other editing state is left as it is.
pub open spec fn typed(e0: EditingState, e1: EditingState, code: KeyCode) -> bool {
    match e0 {
        EditingState::Name(i0) => e1 matches EditingState::Name(i1)
            && (i1.content@, i1.cursor as int) == text_key_spec(i0.content@, i0.cursor as int, code),
        EditingState::WorkDir(i0) => e1 matches EditingState::WorkDir(i1)
            && (i1.content@, i1.cursor as int) == text_key_spec(i0.content@, i0.cursor as int, code),
        _ => e1 == e0,
    }
}

/// `t` is `m` with the key then typed into the field being edited.
pub open spec fn typed_from(m: DetailScreenState, t: DetailScreenState, code: KeyCode) -> bool {
    &&& t == (DetailScreenState { editing: t.editing, ..m })
    &&& typed(m.editing, t.editing, code)
}

/// `l` with its selection moved one row up (`up`) or down in a list of
/// `len` rows.
pub open spec fn row_moved(l: ListEditor, len: int, up: bool) -> ListEditor {
    let sel = if up {
        select_previous_spec(l.list.selected as int)
    } else {
        select_next_spec(l.list.selected as int, len)
    };
    ListEditor { list: ScrollableList { selected: sel as usize, ..l.list }, ..l }
}

/// Up (`up`) or Down on `s` when no reorder is asked: in a list the
/// selection moves one row; among the properties pending edits are stored
/// and the focus moves one field.
pub open spec fn moved(s: DetailScreenState, up: bool) -> DetailScreenState {
    match s.focus {
        DetailFocus::Variables => DetailScreenState {
            var_editor: row_moved(s.var_editor, s.set.variables@.len() as int, up),
            ..s
        },
        DetailFocus::Commands => DetailScreenState {
            cmd_editor: row_moved(s.cmd_editor, s.set.commands@.len() as int, up),
            ..s
        },
        DetailFocus::DeferredCommands => DetailScreenState {
            deferred_editor: row_moved(s.deferred_editor, s.set.defer_commands@.len() as int, up),
            ..s
        },
        _ => DetailScreenState {
            focus: if up { prop_up_spec(s.focus) } else { prop_down_spec(s.focus) },
            ..committed_fields(s)
        },
    }
}

/// `a` asks to move the focused list item by `dir` (the item's kind and
/// clamped index); false when no item is focused.
pub open spec fn reorder_request(d: &DetailScreenState, dir: int, a: AppAction) -> bool {
    match focused_item(d) {
        Some((DetailFocus::Variables, idx)) => a matches AppAction::Reorder(k, r)
            && k == ReorderKind::Variable(idx as usize) && r == dir,
        Some((_, idx)) => a matches AppAction::Reorder(k, r) && k == ReorderKind::Command(idx as usize)
            && r == dir,
        None => false,
    }
}

/// `a` asks to delete the focused list item: its index and its name or
/// command text; false when no item is focused.
pub open spec fn delete_request(d: &DetailScreenState, a: AppAction) -> bool {
    match focused_item(d) {
        Some((DetailFocus::Variables, idx)) => a matches AppAction::RequestDelete(k)
            && k matches DeleteKind::Variable { var_index, var_name } && var_index == idx
            && var_name@ == d.set.variables@[idx].name@,
        Some((DetailFocus::Commands, idx)) => a matches AppAction::RequestDelete(k)
            && k matches DeleteKind::Command { cmd_index, cmd_preview } && cmd_index == idx
            && cmd_preview@ == d.set.commands@[idx].command@,
        Some((_, idx)) => a matches AppAction::RequestDelete(k)
            && k matches DeleteKind::Command { cmd_index, cmd_preview } && cmd_index == idx
            && cmd_preview@ == d.set.defer_commands@[idx].command@,
        None => false,
    }
}

/// The text the working-directory field starts from.
pub open spec fn workdir_text(d: Option<String>) -> Seq<char> {
    match d {
        Some(p) => p@,
        None => Seq::empty(),
    }
}

/// `i` edits a field whose text starts as `text`, the cursor at its end.
pub open spec fn field_opened(i: TextInput, text: Seq<char>) -> bool {
    i.content@ == text && i.cursor == utf8_len(text)
}

/// What a key does to the detail screen `s`, leaving `t`, and the action it
/// hands on. While a list item is edited the key goes to that edit. Otherwise
/// Tab and Shift+Tab store pending field edits and change region; Up/Down
/// move the selection or the property focus (with Ctrl, over a list item,
/// they ask to move it); Left/Right change the focused option; Enter starts
/// or stores a field edit, or starts editing the selected list item; `a`
/// starts inserting an item; `d` asks to delete the selected item; Ctrl+S
/// hands the set on to be saved; Esc ends a field edit or leaves the screen.
/// A key not used so (and Enter, `a`, `d`, arrows) is then typed into the
/// field being edited, if any.
pub open spec fn detail_key_post(s: &DetailScreenState, t: &DetailScreenState, key: KeyEvent, res: AppAction) -> bool {
    if list_editing(s) {
        res is Nothing && list_edit_post(s, t, key)
    } else {
        match key.code {
            KeyCode::Tab | KeyCode::Char('\t') => res is Nothing
                && *t == region_entered(committed_fields(*s), next_region_spec(s.focus)),
            KeyCode::BackTab => res is Nothing
                && *t == region_entered(committed_fields(*s), prev_region_spec(s.focus)),
            KeyCode::Up | KeyCode::Down => {
                let up = key.code == KeyCode::Up;
                if key.ctrl && focused_item(s) is Some {
                    reorder_request(s, if up { -1int } else { 1int }, res) && *t == *s
                } else {
                    res is Nothing && typed_from(moved(*s, up), *t, key.code)
                }
            },
            KeyCode::Left | KeyCode::Right => {
                let delta: int = if key.code == KeyCode::Left { -1 } else { 1 };
                &&& res is Nothing
                &&& *t == (DetailScreenState { set: t.set, editing: t.editing, ..*s })
                &&& typed(s.editing, t.editing, key.code)
                &&& match s.focus {
                    DetailFocus::Group => t.set == (CommandSet {
                        group_id: cycle_group_spec(groups_view(s.groups@), s.set.group_id, delta),
                        ..s.set
                    }),
                    DetailFocus::Shell => cycle_shell_ok(s.set.shell, t.set.shell, delta)
                        && t.set == (CommandSet { shell: t.set.shell, ..s.set }),
                    DetailFocus::ExecMode => t.set == (CommandSet {
                        exec_mode: cycle_exec_mode_spec(s.set.exec_mode, delta),
                        ..s.set
                    }),
                    _ => t.set == s.set,
                }
            },
            KeyCode::Enter => res is Nothing && match s.focus {
                DetailFocus::Name => match s.editing {
                    EditingState::Name(_) => *t == name_committed(*s),
                    _ => {
                        &&& *t == (DetailScreenState { editing: t.editing, ..*s })
                        &&& t.editing matches EditingState::Name(i) && field_opened(i, s.set.name@)
                    },
                },
                DetailFocus::WorkDir => match s.editing {
                    EditingState::WorkDir(_) => *t == workdir_committed(*s),
                    _ => {
                        &&& *t == (DetailScreenState { editing: t.editing, ..*s })
                        &&& t.editing matches EditingState::WorkDir(i)
                            && field_opened(i, workdir_text(s.set.working_dir))
                    },
                },
                DetailFocus::Variables | DetailFocus::Commands | DetailFocus::DeferredCommands =>
                    edit_begun(*s, DetailScreenState { editing: s.editing, ..*t })
                    && typed(s.editing, t.editing, key.code),
                _ => typed_from(*s, *t, key.code),
            },
            KeyCode::Char('a') | KeyCode::Char('A') => res is Nothing
                && insert_begun(*s, DetailScreenState { editing: s.editing, ..*t })
                && typed(s.editing, t.editing, key.code),
            KeyCode::Char('d') | KeyCode::Char('D') => if focused_item(s) is Some {
                delete_request(s, res) && *t == *s
            } else {
                res is Nothing && typed_from(*s, *t, key.code)
            },
            KeyCode::Char('s') => if key.ctrl {
                res matches AppAction::SaveSet(saved) && saved@ == s.set@ && *t == *s
            } else {
                res is Nothing && typed_from(*s, *t, key.code)
            },
            KeyCode::Esc => if field_editing(s.editing) {
                res is Nothing && *t == (DetailScreenState { editing: EditingState::Idle, ..*s })
            } else {
                res is CancelEdit && *t == *s
            },
            _ => res is Nothing && typed_from(*s, *t, key.code),
        }
    }
}

/// `ds` is a detail screen just opened on `set` with `groups` to pick from:
/// focus on the name, nothing being edited, every list at its first row.
pub open spec fn opened_on(ds: &DetailScreenState, set: CommandSetView, groups: Seq<GroupView>) -> bool {
    &&& ds.set@ == set
    &&& groups_view(ds.groups@) == groups
    &&& ds.focus == DetailFocus::Name
    &&& ds.editing is Idle
    &&& ds.var_editor.list == ScrollableList::new_spec()
    &&& ds.cmd_editor.list == ScrollableList::new_spec()
    &&& ds.deferred_editor.list == ScrollableList::new_spec()
    &&& ds.var_editor.edit.editing is None
    &&& ds.cmd_editor.edit.editing is None
    &&& ds.deferred_editor.edit.editing is None
    &&& ds.var_editor.edit.insert_at is None
    &&& ds.cmd_editor.edit.insert_at is None
    &&& ds.deferred_editor.edit.insert_at is None
}

impl DetailScreenState {
    /// A screen editing `set`, focused on its name.
    pub fn new(set: CommandSet, groups: Vec<Group>) -> (res: Self)
        ensures
            opened_on(&res, set@, groups_view(groups@)),
    {
        DetailScreenState {
            set,
            groups,
            focus: DetailFocus::Name,
            editing: EditingState::Idle,
            var_editor: ListEditor::new(),
            cmd_editor: ListEditor::new(),
            deferred_editor: ListEditor::new(),
        }
    }

    /// Index of the set's group in the group list (0 when it is not there).
    fn group_index(&self) -> (res: usize)
        ensures
            res == group_pos(groups_view(self.groups@), self.set.group_id),
            self.groups@.len() > 0 ==> res < self.groups@.len(),
    {
        let ghost gv = groups_view(self.groups@);
        let mut i: usize = 0;
        while i < self.groups.len() && self.groups[i].id != self.set.group_id
            invariant
                i <= self.groups@.len(),
                gv == groups_view(self.groups@),
                forall|j: int| 0 <= j < i ==> gv[j].id != self.set.group_id,
            decreases self.groups@.len() - i,
        {
            assert(gv[i as int] == self.groups@[i as int]@);
            i = i + 1;
        }
        let found = i < self.groups.len();
        let pos: usize = if found { i } else { 0 };
        proof {
            if found {
                assert(gv[i as int] == self.groups@[i as int]@);
                assert(gv[pos as int].id == self.set.group_id);
                let w = choose|k: int| 0 <= k < gv.len() && gv[k].id == self.set.group_id
                    && forall|j: int| 0 <= j < k ==> gv[j].id != self.set.group_id;
                assert(0 <= pos < gv.len() && gv[pos as int].id == self.set.group_id
                    && forall|j: int| 0 <= j < pos ==> gv[j].id != self.set.group_id);
                if w < pos {} else if w > pos {}
                assert(group_pos(gv, self.set.group_id) == pos);
            } else {
                assert(group_pos(gv, self.set.group_id) == 0);
            }
        }
        pos
    }

    /// Moves the set `delta` groups along the group picker.
    pub fn cycle_group(&mut self, delta: isize)
        requires
            delta == 1 || delta == -1,
        ensures
            final(self).set.group_id == cycle_group_spec(groups_view(old(self).groups@), old(self).set.group_id, delta as int),
            final(self).set@ == (CommandSetView { group_id: final(self).set.group_id, ..old(self).set@ }),
            final(self).set == (CommandSet { group_id: final(self).set.group_id, ..old(self).set }),
            *final(self) == (DetailScreenState { set: final(self).set, ..*old(self) }),
            final(self).groups == old(self).groups,
            final(self).focus == old(self).focus,
    {
        let pos = self.group_index();
        let len = self.groups.len();
        if len == 0 {
            return;
        }
        if delta < 0 {
            if pos == 0 {
                return;
            }
            let id = self.groups[pos - 1].id;
            self.set.group_id = id;
        } else {
            if pos + 1 >= len {
                return;
            }
            let id = self.groups[pos + 1].id;
            self.set.group_id = id;
        }
    }

    /// Moves the set's shell `delta` places along the shell picker.
    pub fn cycle_shell(&mut self, delta: isize)
        requires
            delta == 1 || delta == -1,
        ensures
            cycle_shell_ok(old(self).set.shell, final(self).set.shell, delta as int),
            final(self).set@ == (CommandSetView { shell: final(self).set.shell, ..old(self).set@ }),
            final(self).set == (CommandSet { shell: final(self).set.shell, ..old(self).set }),
            *final(self) == (DetailScreenState { set: final(self).set, ..*old(self) }),
            final(self).groups == old(self).groups,
            final(self).focus == old(self).focus,
    {
        let current: isize = match &self.set.shell {
            ShellType::SystemDefault => 0,
            ShellType::Bash => 1,
            ShellType::Zsh => 2,
            ShellType::Fish => 3,
            ShellType::PowerShell => 4,
            ShellType::Custom(_) => 5,
        };
        let candidate = current + delta;
        if candidate < 0 || candidate >= 6 {
            return;
        }
        let next = match candidate {
            0 => ShellType::SystemDefault,
            1 => ShellType::Bash,
            2 => ShellType::Zsh,
            3 => ShellType::Fish,
            4 => ShellType::PowerShell,
            _ => match &self.set.shell {
                ShellType::Custom(p) => ShellType::Custom(p.clone()),
                _ => ShellType::Custom(copy_str("/usr/bin/sh")),
            },
        };
        self.set.shell = next;
    }

    /// Moves the set's exec mode `delta` places along the mode picker.
    pub fn cycle_exec_mode(&mut self, delta: isize)
        requires
            delta == 1 || delta == -1,
        ensures
            final(self).set.exec_mode == cycle_exec_mode_spec(old(self).set.exec_mode, delta as int),
            final(self).set@ == (CommandSetView { exec_mode: final(self).set.exec_mode, ..old(self).set@ }),
            final(self).set == (CommandSet { exec_mode: final(self).set.exec_mode, ..old(self).set }),
            *final(self) == (DetailScreenState { set: final(self).set, ..*old(self) }),
            final(self).groups == old(self).groups,
            final(self).focus == old(self).focus,
    {
        let pos: isize = if self.set.exec_mode == ExecMode::StopOnError { 0 } else { 1 };
        let c = pos + delta;
        if c == 0 {
            self.set.exec_mode = ExecMode::StopOnError;
        } else if c == 1 {
            self.set.exec_mode = ExecMode::ContinueOnError;
        }
    }

    /// Stores a pending name edit into the set and ends it.
    pub fn commit_name_edit(&mut self)
        ensures
            *final(self) == name_committed(*old(self)),
    {
        let mut taken = EditingState::Idle;
        std::mem::swap(&mut taken, &mut self.editing);
        match taken {
            EditingState::Name(input) => {
                self.set.name = input.content;
            },
            other => {
                self.editing = other;
            },
        }
    }

    /// Stores a pending working-directory edit into the set (none when the
    /// text is blank) and ends it.
    pub fn commit_workdir_edit(&mut self)
        ensures
            *final(self) == workdir_committed(*old(self)),
    {
        let mut taken = EditingState::Idle;
        std::mem::swap(&mut taken, &mut self.editing);
        match taken {
            EditingState::WorkDir(input) => {
                let t = trim_str(input.content.as_str());
                if t.as_str().is_empty() {
                    self.set.working_dir = None;
                } else {
                    self.set.working_dir = Some(input.content);
                }
            },
            other => {
                self.editing = other;
            },
        }
    }
}

/// The item a list action acts on, for the focused list: its kind, clamped
/// index and size; `None` when no list is focused or it is empty.
pub open spec fn focused_item(d: &DetailScreenState) -> Option<(DetailFocus, int)> {
    match d.focus {
        DetailFocus::Variables => if d.set.variables@.len() > 0 {
            Some((DetailFocus::Variables, clamp_index(d.var_editor.list.selected as int, d.set.variables@.len() as int)))
        } else {
            None
        },
        DetailFocus::Commands => if d.set.commands@.len() > 0 {
            Some((DetailFocus::Commands, clamp_index(d.cmd_editor.list.selected as int, d.set.commands@.len() as int)))
        } else {
            None
        },
        DetailFocus::DeferredCommands => if d.set.defer_commands@.len() > 0 {
            Some((
                DetailFocus::DeferredCommands,
                clamp_index(d.deferred_editor.list.selected as int, d.set.defer_commands@.len() as int),
            ))
        } else {
            None
        },
        _ => None,
    }
}

/// Some inline list edit is in progress.
pub open spec fn list_editing(d: &DetailScreenState) -> bool {
    d.var_editor.edit.editing is Some || d.cmd_editor.edit.editing is Some || d.deferred_editor.edit.editing is Some
}

impl DetailScreenState {
    /// Tab: commits pending edits and focuses the next region, selecting its
    /// first item.
    pub fn next_region(&mut self)
        ensures
            *final(self) == region_entered(committed_fields(*old(self)), next_region_spec(old(self).focus)),
    {
        self.commit_name_edit();
        self.commit_workdir_edit();
        match self.focus {
            DetailFocus::Variables => {
                self.focus = DetailFocus::Commands;
                self.cmd_editor.list.selected = 0;
            },
            DetailFocus::Commands => {
                self.focus = DetailFocus::DeferredCommands;
                self.deferred_editor.list.selected = 0;
            },
            DetailFocus::DeferredCommands => {
                self.focus = DetailFocus::Name;
            },
            _ => {
                self.focus = DetailFocus::Variables;
                self.var_editor.list.selected = 0;
            },
        }
    }

    /// Shift+Tab: commits pending edits and focuses the previous region,
    /// selecting its first item.
    pub fn prev_region(&mut self)
        ensures
            *final(self) == region_entered(committed_fields(*old(self)), prev_region_spec(old(self).focus)),
    {
        self.commit_name_edit();
        self.commit_workdir_edit();
        match self.focus {
            DetailFocus::Variables => {
                self.focus = DetailFocus::Name;
            },
            DetailFocus::Commands => {
                self.focus = DetailFocus::Variables;
                self.var_editor.list.selected = 0;
            },
            DetailFocus::DeferredCommands => {
                self.focus = DetailFocus::Commands;
                self.cmd_editor.list.selected = 0;
            },
            _ => {
                self.focus = DetailFocus::DeferredCommands;
                self.deferred_editor.list.selected = 0;
            },
        }
    }

    /// Ctrl+Up/Down: the reorder request for the focused list item, if any.
    pub fn reorder_focused(&self, dir: isize) -> (res: Option<AppAction>)
        ensures
            match res {
                Some(a) => reorder_request(self, dir as int, a),
                None => focused_item(self) is None,
            },
    {
        match self.focus {
            DetailFocus::Variables => if self.set.variables.len() > 0 {
                let n = self.set.variables.len();
                let idx = if self.var_editor.list.selected < n - 1 { self.var_editor.list.selected } else { n - 1 };
                Some(AppAction::Reorder(ReorderKind::Variable(idx), dir))
            } else {
                None
            },
            DetailFocus::Commands => if self.set.commands.len() > 0 {
                let n = self.set.commands.len();
                let idx = if self.cmd_editor.list.selected < n - 1 { self.cmd_editor.list.selected } else { n - 1 };
                Some(AppAction::Reorder(ReorderKind::Command(idx), dir))
            } else {
                None
            },
            DetailFocus::DeferredCommands => if self.set.defer_commands.len() > 0 {
                let n = self.set.defer_commands.len();
                let idx = if self.deferred_editor.list.selected < n - 1 {
                    self.deferred_editor.list.selected
                } else {
                    n - 1
                };
                Some(AppAction::Reorder(ReorderKind::Command(idx), dir))
            } else {
                None
            },
            _ => None,
        }
    }

    /// The picker beside the properties while an option is focused.
    pub fn picker_choices(&self) -> (res: Option<(Vec<String>, usize, &'static str)>)
        ensures
            match picker_spec(self) {
                Some((names, idx, title)) => res matches Some((v, i, t))
                    && names_view(v@) == names && i == idx && t@ == title,
                None => res is None,
            },
    {
        match self.focus {
            DetailFocus::Group => {
                let ghost gv = groups_view(self.groups@);
                let mut names: Vec<String> = Vec::new();
                let mut i: usize = 0;
                while i < self.groups.len()
                    invariant
                        i <= self.groups@.len(),
                        gv == groups_view(self.groups@),
                        names@.len() == i,
                        forall|k: int| 0 <= k < i ==> #[trigger] names@[k]@ == gv[k].name@,
                    decreases self.groups@.len() - i,
                {
                    assert(gv[i as int] == self.groups@[i as int]@);
                    names.push(self.groups[i].name.clone());
                    i = i + 1;
                }
                let idx = self.group_index();
                assert(names_view(names@) =~= gv.map_values(|g: GroupView| g.name@));
                Some((names, idx, " Groups "))
            },
            DetailFocus::Shell => {
                let mut names: Vec<String> = Vec::new();
                names.push(ShellType::SystemDefault.label());
                names.push(ShellType::Bash.label());
                names.push(ShellType::Zsh.label());
                names.push(ShellType::Fish.label());
                names.push(ShellType::PowerShell.label());
                let custom = match &self.set.shell {
                    ShellType::Custom(p) => {
                        let mut t = copy_str("Custom: ");
                        push_str(&mut t, p.as_str());
                        t
                    },
                    _ => copy_str("Custom"),
                };
                names.push(custom);
                let idx: usize = match &self.set.shell {
                    ShellType::SystemDefault => 0,
                    ShellType::Bash => 1,
                    ShellType::Zsh => 2,
                    ShellType::Fish => 3,
                    ShellType::PowerShell => 4,
                    ShellType::Custom(_) => 5,
                };
                assert(names_view(names@) =~= shell_choices(self.set.shell));
                Some((names, idx, " Shells "))
            },
            DetailFocus::ExecMode => {
                let mut names: Vec<String> = Vec::new();
                names.push(copy_str("Stop on Error"));
                names.push(copy_str("Continue on Error"));
                let idx: usize = if self.set.exec_mode == ExecMode::StopOnError { 0 } else { 1 };
                assert(names_view(names@) =~= seq!["Stop on Error"@, "Continue on Error"@]);
                Some((names, idx, " Exec Mode "))
            },
            _ => None,
        }
    }

    /// The key hints under the form.
    pub fn status_text(&self) -> (res: &'static str)
        ensures
            res@ == detail_status_text(self),
    {
        let editing = self.var_editor.edit.editing.is_some() || self.cmd_editor.edit.editing.is_some()
            || self.deferred_editor.edit.editing.is_some() || match &self.editing {
            EditingState::Name(_) | EditingState::WorkDir(_) => true,
            _ => false,
        };
        if editing {
            "[Enter] Confirm  [Esc] Cancel"
        } else {
            match self.focus {
                DetailFocus::Name | DetailFocus::WorkDir => "[Enter] Edit  [↑/↓] Navigate  [Tab] Next  |  [Ctrl+S] Save",
                DetailFocus::Group | DetailFocus::Shell | DetailFocus::ExecMode =>
                    "[←/→] Change  [↑/↓] Navigate  [Tab] Next  |  [Ctrl+S] Save",
                _ => "[a] Add  [e/Enter] Edit  [d] Delete  [↑/↓] Nav  [Ctrl+↑/↓] Move  [Tab] Next  |  [Ctrl+S] Save",
            }
        }
    }

    /// `d`: the delete request for the focused list item, if any.
    pub fn request_delete_focused(&self) -> (res: Option<AppAction>)
        ensures
            match res {
                Some(a) => delete_request(self, a),
                None => focused_item(self) is None,
            },
    {
        match self.focus {
            DetailFocus::Variables => if self.set.variables.len() > 0 {
                let n = self.set.variables.len();
                let idx = if self.var_editor.list.selected < n - 1 { self.var_editor.list.selected } else { n - 1 };
                Some(AppAction::RequestDelete(DeleteKind::Variable {
                    var_index: idx,
                    var_name: self.set.variables[idx].name.clone(),
                }))
            } else {
                None
            },
            DetailFocus::Commands => if self.set.commands.len() > 0 {
                let n = self.set.commands.len();
                let idx = if self.cmd_editor.list.selected < n - 1 { self.cmd_editor.list.selected } else { n - 1 };
                Some(AppAction::RequestDelete(DeleteKind::Command {
                    cmd_index: idx,
                    cmd_preview: self.set.commands[idx].command.clone(),
                }))
            } else {
                None
            },
            DetailFocus::DeferredCommands => if self.set.defer_commands.len() > 0 {
                let n = self.set.defer_commands.len();
                let idx = if self.deferred_editor.list.selected < n - 1 {
                    self.deferred_editor.list.selected
                } else {
                    n - 1
                };
                Some(AppAction::RequestDelete(DeleteKind::Command {
                    cmd_index: idx,
                    cmd_preview: self.set.defer_commands[idx].command.clone(),
                }))
            } else {
                None
            },
            _ => None,
        }
    }

    /// Begins editing the list item at the selection (clamped): the text
    /// starts as `initial_text`.
    pub fn list_edit_begin(edit: &mut InlineEdit, list: &ScrollableList, initial_text: String, total_items: usize)
        ensures
            final(edit).edit_input.content@ == initial_text@,
            final(edit).editing == Some(
                (if list.selected < total_items - 1 { list.selected as int } else if total_items > 0 {
                    total_items - 1
                } else {
                    0
                }) as usize,
            ),
            final(edit).insert_at == old(edit).insert_at,
            final(edit).edit_input.cursor == utf8_len(initial_text@),
    {
        let last = if total_items > 0 { total_items - 1 } else { 0 };
        let idx = if list.selected < last { list.selected } else { last };
        edit.edit_input = TextInput::new(initial_text);
        edit.editing = Some(idx);
    }

    /// Begins inserting a new item after the selection: empty text, the
    /// insertion point right after the selection (at most the end), and the
    /// selection moved there.
    pub fn list_insert_begin(edit: &mut InlineEdit, list: &mut ScrollableList, total_items: usize)
        ensures
            final(edit).edit_input.content@.len() == 0,
            final(edit).edit_input.cursor == 0,
            final(edit).insert_at == Some(
                (if old(list).selected + 1 < total_items { old(list).selected + 1 } else { total_items as int }) as usize,
            ),
            final(edit).editing == Some(total_items),
            final(list).selected == final(edit).insert_at->0,
            final(list).offset == old(list).offset,
    {
        let pos = if list.selected < total_items && list.selected + 1 < total_items {
            list.selected + 1
        } else {
            total_items
        };
        edit.edit_input = TextInput::new(String::new());
        edit.insert_at = Some(pos);
        edit.editing = Some(total_items);
        list.selected = pos;
    }

    /// Enter on a list: begins editing its selected item (a variable as
    /// `name=value`).
    pub fn edit_selected_item(&mut self)
        ensures
            edit_begun(*old(self), *final(self)),
    {
        match self.focus {
            DetailFocus::Variables => if self.set.variables.len() > 0 {
                let n = self.set.variables.len();
                let idx = if self.var_editor.list.selected < n - 1 { self.var_editor.list.selected } else { n - 1 };
                let mut text = copy_str(self.set.variables[idx].name.as_str());
                push_str(&mut text, "=");
                push_str(&mut text, self.set.variables[idx].default_value.as_str());
                Self::list_edit_begin(&mut self.var_editor.edit, &self.var_editor.list, text, n);
            },
            DetailFocus::Commands => if self.set.commands.len() > 0 {
                let n = self.set.commands.len();
                let idx = if self.cmd_editor.list.selected < n - 1 { self.cmd_editor.list.selected } else { n - 1 };
                let text = self.set.commands[idx].command.clone();
                Self::list_edit_begin(&mut self.cmd_editor.edit, &self.cmd_editor.list, text, n);
            },
            DetailFocus::DeferredCommands => if self.set.defer_commands.len() > 0 {
                let n = self.set.defer_commands.len();
                let idx = if self.deferred_editor.list.selected < n - 1 {
                    self.deferred_editor.list.selected
                } else {
                    n - 1
                };
                let text = self.set.defer_commands[idx].command.clone();
                Self::list_edit_begin(&mut self.deferred_editor.edit, &self.deferred_editor.list, text, n);
            },
            _ => {},
        }
    }

    /// `a`: begins inserting a new item into the focused list.
    pub fn insert_at_focus(&mut self)
        ensures
            insert_begun(*old(self), *final(self)),
    {
        match self.focus {
            DetailFocus::Variables => Self::list_insert_begin(
                &mut self.var_editor.edit,
                &mut self.var_editor.list,
                self.set.variables.len(),
            ),
            DetailFocus::Commands => Self::list_insert_begin(
                &mut self.cmd_editor.edit,
                &mut self.cmd_editor.list,
                self.set.commands.len(),
            ),
            DetailFocus::DeferredCommands => Self::list_insert_begin(
                &mut self.deferred_editor.edit,
                &mut self.deferred_editor.list,
                self.set.defer_commands.len(),
            ),
            _ => {},
        }
    }
}

/// `s` with a pending name edit stored into the set and ended.
pub open spec fn name_committed(s: DetailScreenState) -> DetailScreenState {
    match s.editing {
        EditingState::Name(input) => DetailScreenState {
            set: CommandSet { name: input.content, ..s.set },
            editing: EditingState::Idle,
            ..s
        },
        _ => s,
    }
}

/// `s` with a pending working-directory edit stored into the set (none when
/// the text is blank) and ended.
pub open spec fn workdir_committed(s: DetailScreenState) -> DetailScreenState {
    match s.editing {
        EditingState::WorkDir(input) => DetailScreenState {
            set: CommandSet {
                working_dir: if trimmed(input.content@).len() == 0 { None } else { Some(input.content) },
                ..s.set
            },
            editing: EditingState::Idle,
            ..s
        },
        _ => s,
    }
}

/// `s` with a pending name or working-directory edit stored and ended.
pub open spec fn committed_fields(s: DetailScreenState) -> DetailScreenState {
    workdir_committed(name_committed(s))
}

/// `l` with its first row selected.
pub open spec fn list_first(l: ListEditor) -> ListEditor {
    ListEditor { list: ScrollableList { selected: 0, ..l.list }, ..l }
}

/// `s` focused on region `f`, the list of a list region at its first row.
pub open spec fn region_entered(s: DetailScreenState, f: DetailFocus) -> DetailScreenState {
    DetailScreenState {
        focus: f,
        var_editor: if f == DetailFocus::Variables { list_first(s.var_editor) } else { s.var_editor },
        cmd_editor: if f == DetailFocus::Commands { list_first(s.cmd_editor) } else { s.cmd_editor },
        deferred_editor: if f == DetailFocus::DeferredCommands { list_first(s.deferred_editor) } else { s.deferred_editor },
        ..s
    }
}

/// `l1` is `l0` with the edit of item `idx` begun on `text`, the cursor at
/// its end.
pub open spec fn edit_opened(l0: ListEditor, l1: ListEditor, idx: int, text: Seq<char>) -> bool {
    &&& l1.list == l0.list
    &&& l1.edit.editing == Some(idx as usize)
    &&& l1.edit.insert_at == l0.edit.insert_at
    &&& l1.edit.edit_input.content@ == text
    &&& l1.edit.edit_input.cursor == utf8_len(text)
}

/// Enter on a list: the edit of its selected item (clamped) begins on the
/// item's text (a variable as `name=value`); nothing else changes. Without
/// an item nothing changes.
pub open spec fn edit_begun(s: DetailScreenState, t: DetailScreenState) -> bool {
    match focused_item(&s) {
        Some((DetailFocus::Variables, idx)) => {
            &&& edit_opened(
                s.var_editor,
                t.var_editor,
                idx,
                s.set.variables@[idx].name@ + "="@ + s.set.variables@[idx].default_value@,
            )
            &&& t == (DetailScreenState { var_editor: t.var_editor, ..s })
        },
        Some((DetailFocus::Commands, idx)) => {
            &&& edit_opened(s.cmd_editor, t.cmd_editor, idx, s.set.commands@[idx].command@)
            &&& t == (DetailScreenState { cmd_editor: t.cmd_editor, ..s })
        },
        Some((_, idx)) => {
            &&& edit_opened(s.deferred_editor, t.deferred_editor, idx, s.set.defer_commands@[idx].command@)
            &&& t == (DetailScreenState { deferred_editor: t.deferred_editor, ..s })
        },
        None => t == s,
    }
}

/// `l1` is `l0` inserting a new item into a list of `len` items: empty
/// text, placed after the selection (at most at the end), which moves there.
pub open spec fn insert_opened(l0: ListEditor, l1: ListEditor, len: int) -> bool {
    let pos = if l0.list.selected + 1 < len { l0.list.selected + 1 } else { len };
    &&& l1.list == (ScrollableList { selected: pos as usize, ..l0.list })
    &&& l1.edit.editing == Some(len as usize)
    &&& l1.edit.insert_at == Some(pos as usize)
    &&& l1.edit.edit_input.content@.len() == 0
    &&& l1.edit.edit_input.cursor == 0
}

/// `a`: the focused list begins inserting a new item; nothing else changes.
pub open spec fn insert_begun(s: DetailScreenState, t: DetailScreenState) -> bool {
    match s.focus {
        DetailFocus::Variables => insert_opened(s.var_editor, t.var_editor, s.set.variables@.len() as int)
            && t == (DetailScreenState { var_editor: t.var_editor, ..s }),
        DetailFocus::Commands => insert_opened(s.cmd_editor, t.cmd_editor, s.set.commands@.len() as int)
            && t == (DetailScreenState { cmd_editor: t.cmd_editor, ..s }),
        DetailFocus::DeferredCommands => insert_opened(
            s.deferred_editor,
            t.deferred_editor,
            s.set.defer_commands@.len() as int,
        ) && t == (DetailScreenState { deferred_editor: t.deferred_editor, ..s }),
        _ => t == s,
    }
}

/// Editing the name or the working directory.
pub open spec fn field_editing(e: EditingState) -> bool {
    e is Name || e is WorkDir
}

/// What a key does while a list item is edited, leaving `t`: it goes to
/// the open edit of the variables, else of the commands, else of the
/// deferred commands, and changes nothing else.
pub open spec fn list_edit_post(s: &DetailScreenState, t: &DetailScreenState, key: KeyEvent) -> bool {
    match s.var_editor.edit.editing {
        Some(idx) => {
            &&& var_edit_post(
                s.var_editor.edit,
                t.var_editor.edit,
                key,
                idx as int,
                s.set.variables@,
                t.set.variables@,
                s.var_editor.list,
                t.var_editor.list,
            )
            &&& *t == (DetailScreenState {
                set: CommandSet { variables: t.set.variables, ..s.set },
                var_editor: t.var_editor,
                ..*s
            })
        },
        None => match s.cmd_editor.edit.editing {
            Some(idx) => {
                &&& cmd_edit_post(
                    s.cmd_editor.edit,
                    t.cmd_editor.edit,
                    key,
                    idx as int,
                    s.set.commands@,
                    t.set.commands@,
                    s.cmd_editor.list,
                    t.cmd_editor.list,
                )
                &&& *t == (DetailScreenState {
                    set: CommandSet { commands: t.set.commands, ..s.set },
                    cmd_editor: t.cmd_editor,
                    ..*s
                })
            },
            None => match s.deferred_editor.edit.editing {
                Some(idx) => {
                    &&& cmd_edit_post(
                        s.deferred_editor.edit,
                        t.deferred_editor.edit,
                        key,
                        idx as int,
                        s.set.defer_commands@,
                        t.set.defer_commands@,
                        s.deferred_editor.list,
                        t.deferred_editor.list,
                    )
                    &&& *t == (DetailScreenState {
                        set: CommandSet { defer_commands: t.set.defer_commands, ..s.set },
                        deferred_editor: t.deferred_editor,
                        ..*s
                    })
                },
                None => *t == *s,
            },
        },
    }
}

impl DetailScreenState {
    /// Hands the key to the inline editor of the list being edited, if any.
    pub fn handle_inline_edit(&mut self, key: KeyEvent) -> (res: Option<AppAction>)
        ensures
            list_editing(old(self)) <==> res is Some,
            res matches Some(a) ==> a is Nothing,
            list_edit_post(old(self), final(self), key),
    {
        if let Some(idx) = self.var_editor.edit.editing {
            return Some(handle_variable_edit(
                &mut self.var_editor.edit,
                key,
                idx,
                &mut self.set.variables,
                &mut self.var_editor.list,
            ));
        }
        if let Some(idx) = self.cmd_editor.edit.editing {
            return Some(handle_command_edit(
                &mut self.cmd_editor.edit,
                key,
                idx,
                &mut self.set.commands,
                &mut self.cmd_editor.list,
            ));
        }
        if let Some(idx) = self.deferred_editor.edit.editing {
            return Some(handle_command_edit(
                &mut self.deferred_editor.edit,
                key,
                idx,
                &mut self.set.defer_commands,
                &mut self.deferred_editor.list,
            ));
        }
        None
    }

    /// Handles a key on the detail screen.
    pub fn handle_key(&mut self, key: KeyEvent) -> (res: AppAction)
        ensures
            detail_key_post(old(self), final(self), key, res),
    {
        if let Some(action) = self.handle_inline_edit(key) {
            return action;
        }
        match key.code {
            KeyCode::Tab | KeyCode::Char('\t') => {
                self.next_region();
            },
            KeyCode::BackTab => {
                self.prev_region();
            },
            KeyCode::Up | KeyCode::Down => {
                let up = key.code == KeyCode::Up;
                if key.ctrl {
                    if let Some(action) = self.reorder_focused(if up { -1 } else { 1 }) {
                        return action;
                    }
                }
                match self.focus {
                    DetailFocus::Variables => {
                        if up {
                            self.var_editor.list.select_previous();
                        } else {
                            self.var_editor.list.select_next(self.set.variables.len());
                        }
                    },
                    DetailFocus::Commands => {
                        if up {
                            self.cmd_editor.list.select_previous();
                        } else {
                            self.cmd_editor.list.select_next(self.set.commands.len());
                        }
                    },
                    DetailFocus::DeferredCommands => {
                        if up {
                            self.deferred_editor.list.select_previous();
                        } else {
                            self.deferred_editor.list.select_next(self.set.defer_commands.len());
                        }
                    },
                    _ => {
                        self.commit_name_edit();
                        self.commit_workdir_edit();
                        self.focus = if up {
                            match self.focus {
                                DetailFocus::WorkDir => DetailFocus::Name,
                                DetailFocus::Group => DetailFocus::WorkDir,
                                DetailFocus::Shell => DetailFocus::Group,
                                DetailFocus::ExecMode => DetailFocus::Shell,
                                other => other,
                            }
                        } else {
                            match self.focus {
                                DetailFocus::Name => DetailFocus::WorkDir,
                                DetailFocus::WorkDir => DetailFocus::Group,
                                DetailFocus::Group => DetailFocus::Shell,
                                DetailFocus::Shell => DetailFocus::ExecMode,
                                other => other,
                            }
                        };
                    },
                }
            },
            KeyCode::Left | KeyCode::Right => {
                let delta: isize = if key.code == KeyCode::Left { -1 } else { 1 };
                match self.focus {
                    DetailFocus::Group => self.cycle_group(delta),
                    DetailFocus::Shell => self.cycle_shell(delta),
                    DetailFocus::ExecMode => self.cycle_exec_mode(delta),
                    _ => {},
                }
            },
            KeyCode::Enter => {
                match self.focus {
                    DetailFocus::Name => {
                        let mut taken = EditingState::Idle;
                        std::mem::swap(&mut taken, &mut self.editing);
                        match taken {
                            EditingState::Name(input) => {
                                self.set.name = input.content;
                            },
                            other => {
                                self.editing = EditingState::Name(TextInput::new(self.set.name.clone()));
                            },
                        }
                    },
                    DetailFocus::WorkDir => {
                        if let EditingState::WorkDir(_) = &self.editing {
                            self.commit_workdir_edit();
                        } else {
                            let text = match &self.set.working_dir {
                                Some(d) => d.clone(),
                                None => String::new(),
                            };
                            self.editing = EditingState::WorkDir(TextInput::new(text));
                        }
                    },
                    DetailFocus::Variables | DetailFocus::Commands | DetailFocus::DeferredCommands => {
                        self.edit_selected_item();
                    },
                    _ => {},
                }
            },
            KeyCode::Char('a') | KeyCode::Char('A') => {
                self.insert_at_focus();
            },
            KeyCode::Char('d') | KeyCode::Char('D') => {
                if let Some(action) = self.request_delete_focused() {
                    return action;
                }
            },
            KeyCode::Char('s') => {
                if key.ctrl {
                    return AppAction::SaveSet(self.set.clone());
                }
            },
            KeyCode::Esc => {
                match &self.editing {
                    EditingState::Name(_) | EditingState::WorkDir(_) => {
                        self.editing = EditingState::Idle;
                    },
                    _ => {
                        return AppAction::CancelEdit;
                    },
                }
            },
            _ => {},
        }
        match &mut self.editing {
            EditingState::Name(input) => handle_text_input(input, key),
            EditingState::WorkDir(input) => handle_text_input(input, key),
            _ => {},
        }
        AppAction::Nothing
    }
}

/// With no edit in progress, Tab then Shift+Tab hand on nothing and come
/// back to the region left (to the name field from any other property),
/// leaving the set and the editing state as they were.
pub proof fn lemma_tab_then_backtab(
    s: DetailScreenState,
    t: DetailScreenState,
    u: DetailScreenState,
    k1: KeyEvent,
    k2: KeyEvent,
    r1: AppAction,
    r2: AppAction,
)
    requires
        !list_editing(&s),
        !field_editing(s.editing),
        k1.code == KeyCode::Tab,
        k2.code == KeyCode::BackTab,
        detail_key_post(&s, &t, k1, r1),
        detail_key_post(&t, &u, k2, r2),
    ensures
        r1 is Nothing,
        r2 is Nothing,
        u.focus == (if in_properties(s.focus) { DetailFocus::Name } else { s.focus }),
        u.set == s.set,
        u.editing == s.editing,
        !list_editing(&u),
{
    lemma_region_cycle(s.focus);
}

} // verus!
