//! The actions that screens hand to the application.

use vstd::prelude::*;
use crate::models::CommandSet;
use crate::text::{byte_len, chars_of, copy_str, decimal, floor_chars, is_boundary, push_decimal, push_str, string_of_range, utf8_len};
use crate::ui::text_input::floor_boundary;

verus! {

/// What a delete confirmation is about; the names are shown in the dialog.
#[derive(Debug, PartialEq, Eq)]
pub enum DeleteKind {
    CmdSet { group_index: usize, set_index: usize, set_name: String },
    Group { group_index: usize, group_name: String, set_count: usize },
    Variable { var_index: usize, var_name: String },
    Command { cmd_index: usize, cmd_preview: String },
}

impl Clone for DeleteKind {
    fn clone(&self) -> (res: Self)
        ensures
            res == *self,
    {
        match self {
            DeleteKind::CmdSet { group_index, set_index, set_name } => DeleteKind::CmdSet {
                group_index: *group_index,
                set_index: *set_index,
                set_name: set_name.clone(),
            },
            DeleteKind::Group { group_index, group_name, set_count } => DeleteKind::Group {
                group_index: *group_index,
                group_name: group_name.clone(),
                set_count: *set_count,
            },
            DeleteKind::Variable { var_index, var_name } => DeleteKind::Variable {
                var_index: *var_index,
                var_name: var_name.clone(),
            },
            DeleteKind::Command { cmd_index, cmd_preview } => DeleteKind::Command {
                cmd_index: *cmd_index,
                cmd_preview: cmd_preview.clone(),
            },
        }
    }
}

/// The button focused in the delete confirmation dialog.
#[derive(Debug, Clone, Copy, PartialEq, Eq, Structural)]
pub enum ConfirmChoice {
    Confirm,
    Cancel,
}

/// The item a reorder moves.
#[derive(Debug, Clone, Copy, PartialEq, Eq, Structural)]
pub enum ReorderKind {
    Group(usize),
    CmdSet(usize, usize),
    Variable(usize),
    Command(usize),
}

/// Unified action enum returned by all screens and handled by the application.
#[derive(Debug)]
pub enum AppAction {
    Nothing,
    Quit,
    Help,
    // Main screen
    ExecuteSet(usize, usize),
    EditSet(usize, usize),
    NewSet(usize),
    DeleteSet(usize, usize),
    NewGroup,
    RenameGroup(usize, String),
    DeleteGroup(usize),
    // Detail screen
    SaveSet(CommandSet),
    CancelEdit,
    DeleteVariable(usize),
    DeleteCommand(usize),
    VariableSaved,
    CommandSaved,
    // Execution screen
    BackToMain,
    Pause,
    Continue,
    Abort,
    ReExec,
    // Variable overlay
    ConfirmVariables,
    CancelVariables,
    // Shared
    Reorder(ReorderKind, isize),
    RequestDelete(DeleteKind),
}

/// A command shown in a delete prompt: cut to its first 37 bytes and `...`
/// when longer than 40 bytes.
pub open spec fn preview_text(p: Seq<char>) -> Seq<char> {
    if utf8_len(p) > 40 { p.take(floor_chars(p, 37)) + "..."@ } else { p }
}

/// The question the delete confirmation asks.
pub open spec fn prompt_text(kind: DeleteKind) -> Seq<char> {
    match kind {
        DeleteKind::CmdSet { set_name, .. } => "Delete set \""@ + set_name@ + "\"?"@,
        DeleteKind::Group { group_name, set_count, .. } => if set_count > 0 {
            "Delete group \""@ + group_name@ + "\" and all "@ + decimal(set_count as nat) + " sets in it?"@
        } else {
            "Delete empty group \""@ + group_name@ + "\"?"@
        },
        DeleteKind::Variable { var_name, .. } => "Delete variable \""@ + var_name@ + "\"?"@,
        DeleteKind::Command { cmd_index, cmd_preview } => "Delete command #"@ + decimal(cmd_index as nat) + " \""@
            + preview_text(cmd_preview@) + "\"?"@,
    }
}

/// A long command preview is cut at a character boundary.
pub open spec fn prompt_ok(kind: DeleteKind) -> bool {
    match kind {
        DeleteKind::Command { cmd_preview, .. } => utf8_len(cmd_preview@) > 40 ==> is_boundary(cmd_preview@, 37),
        _ => true,
    }
}

impl DeleteKind {
    /// The question the delete confirmation asks about this item.
    pub fn prompt(&self) -> (res: String)
        requires
            prompt_ok(*self),
        ensures
            res@ == prompt_text(*self),
    {
        proof {
            reveal_strlit("Delete set \"");
            reveal_strlit("\"?");
            reveal_strlit("Delete group \"");
            reveal_strlit("\" and all ");
            reveal_strlit(" sets in it?");
            reveal_strlit("Delete empty group \"");
            reveal_strlit("Delete variable \"");
            reveal_strlit("Delete command #");
            reveal_strlit(" \"");
            reveal_strlit("...");
        }
        match self {
            DeleteKind::CmdSet { set_name, .. } => {
                let mut s = copy_str("Delete set \"");
                push_str(&mut s, set_name.as_str());
                push_str(&mut s, "\"?");
                s
            },
            DeleteKind::Group { group_name, set_count, .. } => if *set_count > 0 {
                let mut s = copy_str("Delete group \"");
                push_str(&mut s, group_name.as_str());
                push_str(&mut s, "\" and all ");
                push_decimal(&mut s, *set_count as u128);
                push_str(&mut s, " sets in it?");
                s
            } else {
                let mut s = copy_str("Delete empty group \"");
                push_str(&mut s, group_name.as_str());
                push_str(&mut s, "\"?");
                s
            },
            DeleteKind::Variable { var_name, .. } => {
                let mut s = copy_str("Delete variable \"");
                push_str(&mut s, var_name.as_str());
                push_str(&mut s, "\"?");
                s
            },
            DeleteKind::Command { cmd_index, cmd_preview } => {
                let mut s = copy_str("Delete command #");
                push_decimal(&mut s, *cmd_index as u128);
                push_str(&mut s, " \"");
                if byte_len(cmd_preview.as_str()) > 40 {
                    let chars = chars_of(cmd_preview.as_str());
                    let (k, _) = floor_boundary(&chars, 37);
                    let cut = string_of_range(&chars, 0, k);
                    push_str(&mut s, cut.as_str());
                    push_str(&mut s, "...");
                } else {
                    push_str(&mut s, cmd_preview.as_str());
                }
                push_str(&mut s, "\"?");
                s
            },
        }
    }
}

} // verus!
