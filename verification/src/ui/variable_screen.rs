//! The overlay that asks for variable values before a run.

use vstd::prelude::*;
use crate::action::AppAction;
use crate::models::{CommandSet, Variable};
use crate::ui::keys::{KeyCode, KeyEvent};
use crate::ui::text_input::{handle_text_input, text_key_spec, TextInput};
use crate::text::utf8_len;

verus! {

/// The variable prompt: one input per variable, with the set it is for.
#[derive(Debug)]
pub struct VariableOverlay {
    pub inputs: Vec<TextInput>,
    pub names: Vec<String>,
    pub focus: usize,
    pub gi: usize,
    pub si: usize,
}

/// The variable prompt, when it is open.
#[derive(Debug)]
pub struct VariableScreenState {
    pub overlay: Option<VariableOverlay>,
}

/// What a key does to the variable prompt `s`, leaving `t`, and the action it
/// hands on.
pub open spec fn variable_key_post(s: &VariableScreenState, t: &VariableScreenState, key: KeyEvent, res: AppAction) -> bool {
    &&& s.overlay is None ==> res is Nothing && t.overlay is None
    &&& s.overlay matches Some(o) ==> {
        let n = o.inputs@.len();
        &&& match key.code {
            KeyCode::Enter => res is ConfirmVariables,
            KeyCode::Esc => res is CancelVariables,
            _ => res is Nothing,
        }
        &&& t.overlay matches Some(o2) && o2.gi == o.gi && o2.si == o.si && o2.names == o.names
            && o2.inputs@.len() == n && match key.code {
                KeyCode::Enter | KeyCode::Esc => o2.focus == o.focus && o2.inputs == o.inputs,
                KeyCode::Tab | KeyCode::Down => o2.inputs == o.inputs && o2.focus == if n > 0 {
                    (o.focus + 1) % (n as int)
                } else {
                    o.focus as int
                },
                KeyCode::Up => o2.inputs == o.inputs && o2.focus == if n > 0 {
                    (o.focus + n - 1) % (n as int)
                } else {
                    o.focus as int
                },
                _ => o2.focus == o.focus && if o.focus < n {
                    &&& (o2.inputs@[o.focus as int].content@, o2.inputs@[o.focus as int].cursor as int)
                        == text_key_spec(o.inputs@[o.focus as int].content@, o.inputs@[o.focus as int].cursor as int, key.code)
                    &&& forall|j: int| 0 <= j < n && j != o.focus ==> o2.inputs@[j] == o.inputs@[j]
                } else {
                    o2.inputs == o.inputs
                },
            }
    }
}

/// `v` is the prompt just opened for `set`, set `si` of group `gi`: one input
/// per variable holding its default value with the cursor at its end, focus
/// on the first.
pub open spec fn prompt_for(v: &VariableScreenState, set: &CommandSet, gi: usize, si: usize) -> bool {
    v.overlay matches Some(o) && o.gi == gi && o.si == si && o.focus == 0
        && o.inputs@.len() == set.variables@.len() && o.names@.len() == set.variables@.len()
        && forall|i: int| #![trigger o.inputs@[i]] 0 <= i < set.variables@.len() ==> {
            &&& o.inputs@[i].content@ == set.variables@[i].default_value@
            &&& o.inputs@[i].cursor == utf8_len(set.variables@[i].default_value@)
            &&& o.names@[i]@ == set.variables@[i].name@
        }
}

impl VariableScreenState {
    /// No prompt open.
    pub fn new() -> (res: Self)
        ensures
            res.overlay is None,
    {
        VariableScreenState { overlay: None }
    }

    /// Opens the prompt for set `si` of group `gi`: one input per variable,
    /// holding its default value, focus on the first.
    pub fn activate(&mut self, set: &CommandSet, gi: usize, si: usize)
        ensures
            prompt_for(final(self), set, gi, si),
    {
        let mut inputs: Vec<TextInput> = Vec::new();
        let mut names: Vec<String> = Vec::new();
        let mut i: usize = 0;
        while i < set.variables.len()
            invariant
                i <= set.variables@.len(),
                inputs@.len() == i,
                names@.len() == i,
                forall|j: int| #![trigger inputs@[j]] 0 <= j < i ==> {
                    &&& inputs@[j].content@ == set.variables@[j].default_value@
                    &&& inputs@[j].cursor == utf8_len(set.variables@[j].default_value@)
                    &&& names@[j]@ == set.variables@[j].name@
                },
            decreases set.variables@.len() - i,
        {
            let v: &Variable = &set.variables[i];
            inputs.push(TextInput::new(v.default_value.clone()));
            names.push(v.name.clone());
            i = i + 1;
        }
        self.overlay = Some(VariableOverlay { inputs, names, focus: 0, gi, si });
    }

    /// Handles a key in the prompt: Enter confirms, Esc cancels, Tab/Down and
    /// Up move the focus cyclically, other keys edit the focused input.
    pub fn handle_key(&mut self, key: KeyEvent) -> (res: AppAction)
        ensures
            variable_key_post(old(self), final(self), key, res),
    {
        let overlay = match &mut self.overlay {
            Some(o) => o,
            None => return AppAction::Nothing,
        };
        match key.code {
            KeyCode::Enter => AppAction::ConfirmVariables,
            KeyCode::Esc => AppAction::CancelVariables,
            KeyCode::Tab | KeyCode::Down => {
                let n = overlay.inputs.len();
                if n > 0 {
                    let f = overlay.focus % n;
                    let nf = if f + 1 == n { 0 } else { f + 1 };
                    assert(nf == (overlay.focus + 1) % (n as int)) by (nonlinear_arith)
                        requires
                            f == overlay.focus % n,
                            n > 0,
                            nf == if f + 1 == n { 0 } else { f + 1 },
                    ;
                    overlay.focus = nf;
                }
                AppAction::Nothing
            },
            KeyCode::Up => {
                let n = overlay.inputs.len();
                if n > 0 {
                    let f = overlay.focus % n;
                    let nf = if f == 0 { n - 1 } else { f - 1 };
                    assert(nf == (overlay.focus + n - 1) % (n as int)) by (nonlinear_arith)
                        requires
                            f == overlay.focus % n,
                            n > 0,
                            nf == if f == 0 { n - 1 } else { f - 1 },
                    ;
                    overlay.focus = nf;
                }
                AppAction::Nothing
            },
            _ => {
                let n = overlay.inputs.len();
                if n > 0 && overlay.focus < n {
                    let f = overlay.focus;
                    handle_text_input(&mut overlay.inputs[f], key);
                }
                AppAction::Nothing
            },
        }
    }
}

} // verus!
