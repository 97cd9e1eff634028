//! The rows of the variable and command lists of the detail screen: their
//! text, and which one is selected, edited, or about to be inserted.

use vstd::prelude::*;
use crate::text::{copy_str, decimal, push_decimal, push_str};
use crate::models::Command;
use crate::ui::detail_screen::{DetailFocus, DetailScreenState, ListEditor};

verus! {

/// How a list row is shown.
#[derive(Debug, Clone, Copy, PartialEq, Eq, Structural)]
pub enum RowRole {
    Normal,
    /// The selected row of the focused list.
    Selected,
    /// The row being edited in place.
    Editing,
    /// The new row being typed, shown where it will be inserted.
    Inserting,
}

/// A row of a list: its text and how it is shown.
#[derive(Debug)]
pub struct ListRow {
    pub text: String,
    pub role: RowRole,
}

/// The values of a list of rows.
pub open spec fn list_rows_view(rows: Seq<ListRow>) -> Seq<(Seq<char>, RowRole)> {
    rows.map_values(|r: ListRow| (r.text@, r.role))
}

/// How row `i` of a list with `editor` is shown: while a row is inserted
/// no other row is marked; else the edited row, then the selected row of
/// the focused list.
pub open spec fn row_role(focused: bool, editor: ListEditor, i: int) -> RowRole {
    if editor.edit.insert_at is Some {
        RowRole::Normal
    } else if editor.edit.editing == Some(i as usize) {
        RowRole::Editing
    } else if focused && editor.list.selected == i {
        RowRole::Selected
    } else {
        RowRole::Normal
    }
}

/// `base` with the row being inserted placed at its insertion point.
pub open spec fn with_preview(base: Seq<(Seq<char>, RowRole)>, at: Option<usize>, preview: Seq<char>) -> Seq<(Seq<char>, RowRole)> {
    match at {
        Some(a) => base.insert(if a < base.len() { a as int } else { base.len() as int }, (preview, RowRole::Inserting)),
        None => base,
    }
}

/// The text of the edit field after the edit marker.
pub open spec fn edit_marked(editor: ListEditor) -> Seq<char> {
    "  ▶ "@ + editor.edit.edit_input.content@
}

/// The text of variable row `i`: the edit field when it is edited, else
/// `name = value`.
pub open spec fn variable_row_text(ds: &DetailScreenState, i: int) -> Seq<char> {
    if row_role(ds.focus == DetailFocus::Variables, ds.var_editor, i) == RowRole::Editing {
        edit_marked(ds.var_editor)
    } else {
        "  "@ + ds.set.variables@[i].name@ + " = "@ + ds.set.variables@[i].default_value@
    }
}

/// The rows of the variable list.
pub open spec fn variable_rows_spec(ds: &DetailScreenState) -> Seq<(Seq<char>, RowRole)> {
    let n = ds.set.variables@.len() as int;
    with_preview(
        Seq::new(n as nat, |i: int| (variable_row_text(ds, i), row_role(ds.focus == DetailFocus::Variables, ds.var_editor, i))),
        ds.var_editor.edit.insert_at,
        edit_marked(ds.var_editor),
    )
}

/// The number shown on command row `i`: its position, one more for the
/// rows after the insertion point while a command is inserted.
pub open spec fn shown_position(cmds: Seq<Command>, editor: ListEditor, i: int) -> nat {
    match editor.edit.insert_at {
        Some(a) => if i >= a { (cmds[i].position + 1) as nat } else { cmds[i].position as nat },
        None => cmds[i].position as nat,
    }
}

/// The text of command row `i`: `#n` and the command, or the edit field
/// when it is edited.
pub open spec fn command_row_text(cmds: Seq<Command>, editor: ListEditor, focused: bool, i: int) -> Seq<char> {
    "  #"@ + decimal(shown_position(cmds, editor, i)) + "  "@ + if row_role(focused, editor, i) == RowRole::Editing {
        editor.edit.edit_input.content@
    } else {
        cmds[i].command@
    }
}

/// The row of the command being inserted at `a`.
pub open spec fn command_preview(editor: ListEditor) -> Seq<char> {
    match editor.edit.insert_at {
        Some(a) => "  #"@ + decimal(a as nat) + "▶ "@ + editor.edit.edit_input.content@,
        None => Seq::empty(),
    }
}

/// The rows of a command list.
pub open spec fn command_rows_spec(cmds: Seq<Command>, editor: ListEditor, focused: bool) -> Seq<(Seq<char>, RowRole)> {
    with_preview(
        Seq::new(cmds.len(), |i: int| (command_row_text(cmds, editor, focused, i), row_role(focused, editor, i))),
        editor.edit.insert_at,
        command_preview(editor),
    )
}

/// How row `i` of a list with `editor` is shown.
fn role_of(focused: bool, editor: &ListEditor, i: usize) -> (res: RowRole)
    ensures
        res == row_role(focused, *editor, i as int),
{
    if editor.edit.insert_at.is_some() {
        RowRole::Normal
    } else if editor.edit.editing == Some(i) {
        RowRole::Editing
    } else if focused && editor.list.selected == i {
        RowRole::Selected
    } else {
        RowRole::Normal
    }
}

/// Places the row being inserted, if any.
fn add_preview(rows: &mut Vec<ListRow>, at: Option<usize>, preview: String)
    ensures
        list_rows_view(final(rows)@) == with_preview(list_rows_view(old(rows)@), at, preview@),
{
    match at {
        Some(a) => {
            let pos = if a < rows.len() { a } else { rows.len() };
            rows.insert(pos, ListRow { text: preview, role: RowRole::Inserting });
            assert(list_rows_view(rows@) =~= with_preview(list_rows_view(old(rows)@), at, preview@));
        },
        None => {},
    }
}

impl DetailScreenState {
    /// The rows of the variable list.
    pub fn variable_rows(&self) -> (res: Vec<ListRow>)
        ensures
            list_rows_view(res@) == variable_rows_spec(self),
    {
        proof {
            reveal_strlit("  ");
            reveal_strlit(" = ");
            reveal_strlit("  ▶ ");
        }
        let focused = self.focus == DetailFocus::Variables;
        let editor = &self.var_editor;
        let n = self.set.variables.len();
        let ghost want = Seq::new(n as nat, |i: int| (variable_row_text(self, i), row_role(focused, self.var_editor, i)));
        let mut rows: Vec<ListRow> = Vec::new();
        let mut i: usize = 0;
        while i < n
            invariant
                n == self.set.variables@.len(),
                focused == (self.focus == DetailFocus::Variables),
                *editor == self.var_editor,
                want == Seq::new(n as nat, |i: int| (variable_row_text(self, i), row_role(focused, self.var_editor, i))),
                i <= n,
                list_rows_view(rows@) == want.take(i as int),
            decreases n - i,
        {
            let role = role_of(focused, editor, i);
            let text = if role == RowRole::Editing {
                let mut t = copy_str("  ▶ ");
                push_str(&mut t, editor.edit.edit_input.content.as_str());
                t
            } else {
                let v = &self.set.variables[i];
                let mut t = copy_str("  ");
                push_str(&mut t, v.name.as_str());
                push_str(&mut t, " = ");
                push_str(&mut t, v.default_value.as_str());
                t
            };
            assert(text@ == variable_row_text(self, i as int));
            rows.push(ListRow { text, role });
            assert(want.take(i + 1) =~= want.take(i as int).push(want[i as int]));
            assert(list_rows_view(rows@) =~= want.take(i + 1));
            i = i + 1;
        }
        assert(want.take(n as int) =~= want);
        let mut preview = copy_str("  ▶ ");
        push_str(&mut preview, editor.edit.edit_input.content.as_str());
        add_preview(&mut rows, editor.edit.insert_at, preview);
        rows
    }

    /// The rows of the command list, or of the deferred command list.
    pub fn command_rows(&self, deferred: bool) -> (res: Vec<ListRow>)
        ensures
            list_rows_view(res@) == if deferred {
                command_rows_spec(self.set.defer_commands@, self.deferred_editor, self.focus == DetailFocus::DeferredCommands)
            } else {
                command_rows_spec(self.set.commands@, self.cmd_editor, self.focus == DetailFocus::Commands)
            },
    {
        if deferred {
            command_rows_of(&self.set.defer_commands, &self.deferred_editor, self.focus == DetailFocus::DeferredCommands)
        } else {
            command_rows_of(&self.set.commands, &self.cmd_editor, self.focus == DetailFocus::Commands)
        }
    }
}

/// The rows of the command list `cmds` edited with `editor`.
fn command_rows_of(cmds: &Vec<Command>, editor: &ListEditor, focused: bool) -> (res: Vec<ListRow>)
    ensures
        list_rows_view(res@) == command_rows_spec(cmds@, *editor, focused),
{
    proof {
        reveal_strlit("  #");
        reveal_strlit("  ");
        reveal_strlit("▶ ");
    }
    let n = cmds.len();
    let ghost want = Seq::new(n as nat, |i: int| (command_row_text(cmds@, *editor, focused, i), row_role(focused, *editor, i)));
    let mut rows: Vec<ListRow> = Vec::new();
    let mut i: usize = 0;
    while i < n
        invariant
            n == cmds@.len(),
            want == Seq::new(n as nat, |i: int| (command_row_text(cmds@, *editor, focused, i), row_role(focused, *editor, i))),
            i <= n,
            list_rows_view(rows@) == want.take(i as int),
        decreases n - i,
    {
        let role = role_of(focused, editor, i);
        let pos = cmds[i].position as u128;
        let shown = match editor.edit.insert_at {
            Some(a) => if i >= a { pos + 1 } else { pos },
            None => pos,
        };
        let mut text = copy_str("  #");
        push_decimal(&mut text, shown);
        push_str(&mut text, "  ");
        if role == RowRole::Editing {
            push_str(&mut text, editor.edit.edit_input.content.as_str());
        } else {
            push_str(&mut text, cmds[i].command.as_str());
        }
        assert(shown as nat == shown_position(cmds@, *editor, i as int));
        assert(text@ =~= command_row_text(cmds@, *editor, focused, i as int));
        rows.push(ListRow { text, role });
        assert(want.take(i + 1) =~= want.take(i as int).push(want[i as int]));
        assert(list_rows_view(rows@) =~= want.take(i + 1));
        i = i + 1;
    }
    assert(want.take(n as int) =~= want);
    let mut preview = copy_str("  #");
    match editor.edit.insert_at {
        Some(a) => {
            push_decimal(&mut preview, a as u128);
            push_str(&mut preview, "▶ ");
            push_str(&mut preview, editor.edit.edit_input.content.as_str());
        },
        None => {},
    }
    proof {
        if editor.edit.insert_at is Some {
            assert(preview@ =~= command_preview(*editor));
        }
    }
    add_preview(&mut rows, editor.edit.insert_at, preview);
    rows
}

} // verus!
