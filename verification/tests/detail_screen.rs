use shellpad::ui::detail_screen::picker_wheel;
use shellpad::ui::detail_rows::RowRole;
use shellpad::action::{AppAction, DeleteKind, ReorderKind};
use shellpad::models::{Command, CommandSet, ExecMode, Group, ShellType, Variable};
use shellpad::ui::detail_screen::{handle_command_edit, handle_variable_edit, DetailFocus, DetailScreenState, EditingState};
use shellpad::ui::inline_edit::InlineEdit;
use shellpad::ui::keys::{KeyCode, KeyEvent};
use shellpad::ui::scrollable_list::ScrollableList;
use shellpad::ui::text_input::TextInput;

fn make_state() -> DetailScreenState {
    let group = Group::new("G".to_string());
    let set = CommandSet::new("S".to_string(), group.id);
    DetailScreenState::new(set, vec![group])
}

#[test]
fn test_tab_cycles_properties_to_variables_to_commands_to_deferred() {
    let mut state = make_state();
    assert_eq!(state.focus, DetailFocus::Name); // Properties first
    let _ = state.handle_key(KeyEvent::plain(KeyCode::Tab));
    assert_eq!(state.focus, DetailFocus::Variables);
    assert_eq!(state.var_editor.list.selected, 0);
    let _ = state.handle_key(KeyEvent::plain(KeyCode::Tab));
    assert_eq!(state.focus, DetailFocus::Commands);
    assert_eq!(state.cmd_editor.list.selected, 0);
    let _ = state.handle_key(KeyEvent::plain(KeyCode::Tab));
    assert_eq!(state.focus, DetailFocus::DeferredCommands);
    let _ = state.handle_key(KeyEvent::plain(KeyCode::Tab));
    assert_eq!(state.focus, DetailFocus::Name); // wraps to Properties
}

#[test]
fn test_backtab_cycles_deferred_to_commands_to_variables_to_properties() {
    let mut state = make_state();
    let _ = state.handle_key(KeyEvent::plain(KeyCode::BackTab)); // Name → DeferredCommands
    assert_eq!(state.focus, DetailFocus::DeferredCommands);
    let _ = state.handle_key(KeyEvent::plain(KeyCode::BackTab)); // DeferredCommands → Commands
    assert_eq!(state.focus, DetailFocus::Commands);
    assert_eq!(state.cmd_editor.list.selected, 0);
    let _ = state.handle_key(KeyEvent::plain(KeyCode::BackTab)); // Commands → Variables
    assert_eq!(state.focus, DetailFocus::Variables);
    assert_eq!(state.var_editor.list.selected, 0);
    let _ = state.handle_key(KeyEvent::plain(KeyCode::BackTab)); // Variables → Properties
    assert_eq!(state.focus, DetailFocus::Name);
}

#[test]
fn test_enter_on_name_starts_editing() {
    let mut state = make_state();
    assert_eq!(state.focus, DetailFocus::Name);
    assert!(matches!(state.editing, EditingState::Idle));
    let _ = state.handle_key(KeyEvent::plain(KeyCode::Enter));
    assert!(matches!(state.editing, EditingState::Name(_)));
}

#[test]
fn test_enter_on_variables_enters_edit_mode() {
    let mut state = make_state();
    // Add a variable
    state.set.variables.push(Variable {
        name: "x".to_string(),
        default_value: "y".to_string(),
    });
    state.focus = DetailFocus::Variables;
    let _ = state.handle_key(KeyEvent::plain(KeyCode::Enter));
    assert!(state.var_editor.edit.is_editing());
}

#[test]
fn test_a_on_variables_triggers_insert() {
    let mut state = make_state();
    state.set.variables.push(Variable {
        name: "a".to_string(),
        default_value: "b".to_string(),
    });
    state.focus = DetailFocus::Variables;
    let action = state.handle_key(KeyEvent::plain(KeyCode::Char('a')));
    assert!(matches!(action, AppAction::Nothing));
    assert!(state.var_editor.edit.insert_at.is_some());
}

#[test]
fn test_d_on_variables_returns_request_delete_variable() {
    let mut state = make_state();
    state.set.variables.push(Variable {
        name: "x".to_string(),
        default_value: "y".to_string(),
    });
    state.focus = DetailFocus::Variables;
    let action = state.handle_key(KeyEvent::plain(KeyCode::Char('d')));
    assert!(matches!(
        action,
        AppAction::RequestDelete(DeleteKind::Variable { var_index: 0, .. })
    ));
}

#[test]
fn test_d_on_commands_returns_request_delete_command() {
    let mut state = make_state();
    state.set.commands.push(Command {
        position: 0,
        command: "echo hi".to_string(),
    });
    state.focus = DetailFocus::Commands;
    let action = state.handle_key(KeyEvent::plain(KeyCode::Char('d')));
    assert!(matches!(
        action,
        AppAction::RequestDelete(DeleteKind::Command { cmd_index: 0, .. })
    ));
}

#[test]
fn test_ctrl_s_returns_save_set() {
    let mut state = make_state();
    let ctrl_s = KeyEvent::new(KeyCode::Char('s'), true);
    let action = state.handle_key(ctrl_s);
    assert!(matches!(action, AppAction::SaveSet(_)));
}

#[test]
fn test_esc_returns_cancel_edit() {
    let mut state = make_state();
    let action = state.handle_key(KeyEvent::plain(KeyCode::Esc));
    assert!(matches!(action, AppAction::CancelEdit));
}

#[test]
fn test_ctrl_up_returns_reorder_variable() {
    let mut state = make_state();
    state.set.variables.push(Variable {
        name: "x".to_string(),
        default_value: "y".to_string(),
    });
    state.set.variables.push(Variable {
        name: "z".to_string(),
        default_value: "w".to_string(),
    });
    state.focus = DetailFocus::Variables;
    state.var_editor.list.selected = 1;
    let ctrl_up = KeyEvent::new(KeyCode::Up, true);
    let action = state.handle_key(ctrl_up);
    assert!(matches!(
        action,
        AppAction::Reorder(ReorderKind::Variable(1), -1)
    ));
}

#[test]
fn test_ctrl_down_returns_reorder_command() {
    let mut state = make_state();
    state.set.commands.push(Command {
        position: 0,
        command: "c1".to_string(),
    });
    state.set.commands.push(Command {
        position: 1,
        command: "c2".to_string(),
    });
    state.focus = DetailFocus::Commands;
    state.cmd_editor.list.selected = 0;
    let ctrl_down = KeyEvent::new(KeyCode::Down, true);
    let action = state.handle_key(ctrl_down);
    assert!(matches!(
        action,
        AppAction::Reorder(ReorderKind::Command(0), 1)
    ));
}

#[test]
fn test_ctrl_up_ignored_when_not_vars_or_cmds_focus() {
    let mut state = make_state();
    state.focus = DetailFocus::Name;
    let ctrl_up = KeyEvent::new(KeyCode::Up, true);
    let action = state.handle_key(ctrl_up);
    assert!(matches!(action, AppAction::Nothing));
}

// ---- WorkDir ----
#[test]
fn test_enter_on_workdir_starts_editing() {
    let mut state = make_state();
    state.focus = DetailFocus::WorkDir;
    assert!(matches!(state.editing, EditingState::Idle));
    let _ = state.handle_key(KeyEvent::plain(KeyCode::Enter));
    assert!(matches!(state.editing, EditingState::WorkDir(_)));
}

#[test]
fn test_enter_on_workdir_confirms_editing() {
    let mut state = make_state();
    state.focus = DetailFocus::WorkDir;
    let _ = state.handle_key(KeyEvent::plain(KeyCode::Enter)); // start editing
    assert!(matches!(state.editing, EditingState::WorkDir(_)));
    // Simulate typing: replace the editing input
    if let EditingState::WorkDir(input) = &mut state.editing {
        *input = TextInput::new("/tmp/test".to_string());
    }
    let _ = state.handle_key(KeyEvent::plain(KeyCode::Enter)); // confirm
    assert!(matches!(state.editing, EditingState::Idle));
    assert_eq!(state.set.working_dir, Some("/tmp/test".to_string()));
}

#[test]
fn test_enter_on_workdir_empty_string_stores_none() {
    let mut state = make_state();
    state.set.working_dir = Some("/old/path".to_string());
    state.focus = DetailFocus::WorkDir;
    let _ = state.handle_key(KeyEvent::plain(KeyCode::Enter)); // start editing
    if let EditingState::WorkDir(input) = &mut state.editing {
        *input = TextInput::new(String::new());
    }
    let _ = state.handle_key(KeyEvent::plain(KeyCode::Enter)); // confirm with empty
    assert!(matches!(state.editing, EditingState::Idle));
    assert_eq!(state.set.working_dir, None);
}

#[test]
fn test_esc_cancels_workdir_editing() {
    let mut state = make_state();
    state.set.working_dir = Some("/existing".to_string());
    state.focus = DetailFocus::WorkDir;
    let _ = state.handle_key(KeyEvent::plain(KeyCode::Enter)); // start editing
    assert!(matches!(state.editing, EditingState::WorkDir(_)));
    if let EditingState::WorkDir(input) = &mut state.editing {
        *input = TextInput::new("/changed".to_string());
    }
    let _ = state.handle_key(KeyEvent::plain(KeyCode::Esc));
    assert!(matches!(state.editing, EditingState::Idle));
    assert_eq!(state.set.working_dir, Some("/existing".to_string()));
}

#[test]
fn test_tab_commits_workdir_editing() {
    let mut state = make_state();
    state.focus = DetailFocus::WorkDir;
    let _ = state.handle_key(KeyEvent::plain(KeyCode::Enter)); // start editing
    if let EditingState::WorkDir(input) = &mut state.editing {
        *input = TextInput::new("/committed".to_string());
    }
    let _ = state.handle_key(KeyEvent::plain(KeyCode::Tab)); // Tab commits + moves
    assert!(matches!(state.editing, EditingState::Idle));
    assert_eq!(state.set.working_dir, Some("/committed".to_string()));
    assert_eq!(state.focus, DetailFocus::Variables);
}

#[test]
fn test_properties_down_cycles_through_fields() {
    let mut state = make_state();
    assert_eq!(state.focus, DetailFocus::Name);
    let _ = state.handle_key(KeyEvent::plain(KeyCode::Down));
    assert_eq!(state.focus, DetailFocus::WorkDir);
    let _ = state.handle_key(KeyEvent::plain(KeyCode::Down));
    assert_eq!(state.focus, DetailFocus::Group);
    let _ = state.handle_key(KeyEvent::plain(KeyCode::Down));
    assert_eq!(state.focus, DetailFocus::Shell);
    let _ = state.handle_key(KeyEvent::plain(KeyCode::Down));
    assert_eq!(state.focus, DetailFocus::ExecMode);
    let _ = state.handle_key(KeyEvent::plain(KeyCode::Down));
    assert_eq!(state.focus, DetailFocus::ExecMode); // stops at bottom
}

#[test]
fn test_properties_up_cycles_reverse() {
    let mut state = make_state();
    state.focus = DetailFocus::ExecMode;
    let _ = state.handle_key(KeyEvent::plain(KeyCode::Up));
    assert_eq!(state.focus, DetailFocus::Shell);
    let _ = state.handle_key(KeyEvent::plain(KeyCode::Up));
    assert_eq!(state.focus, DetailFocus::Group);
    let _ = state.handle_key(KeyEvent::plain(KeyCode::Up));
    assert_eq!(state.focus, DetailFocus::WorkDir);
    let _ = state.handle_key(KeyEvent::plain(KeyCode::Up));
    assert_eq!(state.focus, DetailFocus::Name);
    let _ = state.handle_key(KeyEvent::plain(KeyCode::Up));
    assert_eq!(state.focus, DetailFocus::Name); // stops at top
}

#[test]
fn test_tab_into_properties_resets_to_name() {
    let mut state = make_state();
    state.focus = DetailFocus::Shell; // somewhere in Properties middle
    let _ = state.handle_key(KeyEvent::plain(KeyCode::Tab)); // Properties → Variables
    assert_eq!(state.focus, DetailFocus::Variables);
    let _ = state.handle_key(KeyEvent::plain(KeyCode::BackTab)); // Variables → Properties
    assert_eq!(state.focus, DetailFocus::Name); // resets to first
}

#[test]
fn test_tab_into_properties_resets_after_full_cycle() {
    let mut state = make_state();
    let _ = state.handle_key(KeyEvent::plain(KeyCode::Tab)); // Properties → Variables
    let _ = state.handle_key(KeyEvent::plain(KeyCode::Tab)); // Variables → Commands
    let _ = state.handle_key(KeyEvent::plain(KeyCode::Tab)); // Commands → DeferredCommands
    let _ = state.handle_key(KeyEvent::plain(KeyCode::Tab)); // DeferredCommands → Properties
    assert_eq!(state.focus, DetailFocus::Name); // resets to first
}

#[test]
fn test_properties_up_at_name_stops() {
    let mut state = make_state();
    assert_eq!(state.focus, DetailFocus::Name);
    let _ = state.handle_key(KeyEvent::plain(KeyCode::Up));
    // name only valid for properties, but Up from Name should no-op
    assert_eq!(state.focus, DetailFocus::Name); // stays, does not wrap
}

#[test]
fn test_properties_down_at_exec_mode_stops() {
    let mut state = make_state();
    state.focus = DetailFocus::ExecMode;
    let _ = state.handle_key(KeyEvent::plain(KeyCode::Down));
    assert_eq!(state.focus, DetailFocus::ExecMode); // no-op
}

#[test]
fn test_right_past_last_exec_mode_stops() {
    let mut state = make_state();
    state.focus = DetailFocus::ExecMode;
    let _ = state.handle_key(KeyEvent::plain(KeyCode::Right)); // Stop → Continue
    let _ = state.handle_key(KeyEvent::plain(KeyCode::Right)); // should stop (no wrap)
    assert_eq!(state.set.exec_mode, ExecMode::ContinueOnError);
    assert_eq!(state.focus, DetailFocus::ExecMode);
}

#[test]
fn test_handle_variable_edit_enter_commits() {
    let mut edit = InlineEdit::new();
    edit.editing = Some(0);
    edit.edit_input = TextInput::new("x=y".to_string());
    let mut vars = vec![Variable {
        name: "old".into(),
        default_value: "old".into(),
    }];
    let mut list = ScrollableList::new();
    let action =
        handle_variable_edit(&mut edit, KeyEvent::plain(KeyCode::Enter), 0, &mut vars, &mut list);
    assert!(matches!(action, AppAction::Nothing));
    assert_eq!(vars[0].name, "x");
    assert_eq!(vars[0].default_value, "y");
    assert!(edit.editing.is_none());
}

#[test]
fn test_handle_variable_edit_esc_cancels() {
    let mut edit = InlineEdit::new();
    edit.editing = Some(0);
    edit.edit_input = TextInput::new("a=b".to_string());
    let mut vars = vec![Variable {
        name: "orig".into(),
        default_value: "orig".into(),
    }];
    let mut list = ScrollableList::new();
    let action =
        handle_variable_edit(&mut edit, KeyEvent::plain(KeyCode::Esc), 0, &mut vars, &mut list);
    assert!(matches!(action, AppAction::Nothing));
    assert_eq!(vars[0].name, "orig"); // unchanged
    assert!(edit.editing.is_none());
}

#[test]
fn test_handle_variable_edit_text_input() {
    let mut edit = InlineEdit::new();
    edit.editing = Some(0);
    edit.edit_input = TextInput::new(String::new());
    let mut vars = vec![Variable {
        name: "a".into(),
        default_value: "b".into(),
    }];
    let mut list = ScrollableList::new();
    let action = handle_variable_edit(
        &mut edit,
        KeyEvent::plain(KeyCode::Char('x')),
        0,
        &mut vars,
        &mut list,
    );
    assert!(matches!(action, AppAction::Nothing));
    assert_eq!(edit.edit_input.content, "x");
}

#[test]
fn test_handle_command_edit_enter_commits() {
    let mut edit = InlineEdit::new();
    edit.editing = Some(0);
    edit.edit_input = TextInput::new("echo new".to_string());
    let mut cmds = vec![Command {
        position: 0,
        command: "echo old".to_string(),
    }];
    let mut list = ScrollableList::new();
    let action =
        handle_command_edit(&mut edit, KeyEvent::plain(KeyCode::Enter), 0, &mut cmds, &mut list);
    assert!(matches!(action, AppAction::Nothing));
    assert_eq!(cmds[0].command, "echo new");
}

#[test]
fn left_right_cycle_group_and_shell() {
    let g1 = Group::new("G1".to_string());
    let g2 = Group::new("G2".to_string());
    let (id1, id2) = (g1.id, g2.id);
    let set = CommandSet::new("S".to_string(), id1);
    let mut state = DetailScreenState::new(set, vec![g1, g2]);
    state.focus = DetailFocus::Group;
    let _ = state.handle_key(KeyEvent::plain(KeyCode::Right));
    assert_eq!(state.set.group_id, id2);
    let _ = state.handle_key(KeyEvent::plain(KeyCode::Right));
    assert_eq!(state.set.group_id, id2);
    let _ = state.handle_key(KeyEvent::plain(KeyCode::Left));
    assert_eq!(state.set.group_id, id1);
    state.focus = DetailFocus::Shell;
    let _ = state.handle_key(KeyEvent::plain(KeyCode::Right));
    assert_eq!(state.set.shell, ShellType::Bash);
}

#[test]
fn editing_the_name_then_saving_keeps_the_typed_name() {
    let group = Group::new("G".to_string());
    let set = CommandSet::new("S".to_string(), group.id);
    let mut state = DetailScreenState::new(set, vec![group]);
    let _ = state.handle_key(KeyEvent::plain(KeyCode::Enter));
    let _ = state.handle_key(KeyEvent::plain(KeyCode::Char('2')));
    let _ = state.handle_key(KeyEvent::plain(KeyCode::Enter));
    assert!(matches!(state.editing, EditingState::Idle));
    match state.handle_key(KeyEvent::new(KeyCode::Char('s'), true)) {
        AppAction::SaveSet(s) => assert_eq!(s.name, "S2"),
        other => panic!("expected a save, got {:?}", other),
    }
}

#[test]
fn adding_a_variable_inserts_after_the_selection() {
    let group = Group::new("G".to_string());
    let mut set = CommandSet::new("S".to_string(), group.id);
    set.variables.push(Variable { name: "a".to_string(), default_value: "1".to_string() });
    let mut state = DetailScreenState::new(set, vec![group]);
    state.focus = DetailFocus::Variables;
    let _ = state.handle_key(KeyEvent::plain(KeyCode::Char('a')));
    for c in "b=2".chars() {
        let _ = state.handle_key(KeyEvent::plain(KeyCode::Char(c)));
    }
    let _ = state.handle_key(KeyEvent::plain(KeyCode::Enter));
    assert_eq!(state.set.variables.len(), 2);
    assert_eq!(state.set.variables[1].name, "b");
    assert_eq!(state.set.variables[1].default_value, "2");
}

#[test]
fn shell_picker_lists_builtins_then_the_custom_path() {
    let mut state = make_state();
    state.set.shell = ShellType::Custom("/opt/bin/nu".to_string());
    state.focus = DetailFocus::Shell;
    let (names, idx, title) = state.picker_choices().expect("shell picker");
    assert_eq!(
        names,
        vec!["System Default", "bash", "zsh", "fish", "PowerShell", "Custom: /opt/bin/nu"]
    );
    assert_eq!(idx, 5);
    assert_eq!(title, " Shells ");

    state.set.shell = ShellType::Zsh;
    let (names, idx, _) = state.picker_choices().expect("shell picker");
    assert_eq!(names[5], "Custom");
    assert_eq!(idx, 2);
}

#[test]
fn group_picker_points_at_the_sets_group() {
    let g1 = Group::new("First".to_string());
    let g2 = Group::new("Second".to_string());
    let set = CommandSet::new("S".to_string(), g2.id);
    let mut state = DetailScreenState::new(set, vec![g1, g2]);
    state.focus = DetailFocus::Group;
    let (names, idx, title) = state.picker_choices().expect("group picker");
    assert_eq!(names, vec!["First", "Second"]);
    assert_eq!(idx, 1);
    assert_eq!(title, " Groups ");
}

#[test]
fn mode_picker_and_no_picker_elsewhere() {
    let mut state = make_state();
    state.focus = DetailFocus::ExecMode;
    state.set.exec_mode = ExecMode::ContinueOnError;
    let (names, idx, title) = state.picker_choices().expect("mode picker");
    assert_eq!(names, vec!["Stop on Error", "Continue on Error"]);
    assert_eq!(idx, 1);
    assert_eq!(title, " Exec Mode ");
    state.focus = DetailFocus::Commands;
    assert!(state.picker_choices().is_none());
}

#[test]
fn status_text_follows_editing_and_focus() {
    let mut state = make_state();
    assert_eq!(state.status_text(), "[Enter] Edit  [↑/↓] Navigate  [Tab] Next  |  [Ctrl+S] Save");
    let _ = state.handle_key(KeyEvent::plain(KeyCode::Enter));
    assert_eq!(state.status_text(), "[Enter] Confirm  [Esc] Cancel");
    let _ = state.handle_key(KeyEvent::plain(KeyCode::Esc));
    state.focus = DetailFocus::Shell;
    assert_eq!(state.status_text(), "[←/→] Change  [↑/↓] Navigate  [Tab] Next  |  [Ctrl+S] Save");
    state.focus = DetailFocus::Variables;
    assert_eq!(
        state.status_text(),
        "[a] Add  [e/Enter] Edit  [d] Delete  [↑/↓] Nav  [Ctrl+↑/↓] Move  [Tab] Next  |  [Ctrl+S] Save"
    );
}

#[test]
fn four_tabs_come_back_and_backtab_undoes_tab() {
    let mut state = make_state();
    state.focus = DetailFocus::Commands;
    for _ in 0..4 {
        let _ = state.handle_key(KeyEvent::plain(KeyCode::Tab));
    }
    assert_eq!(state.focus, DetailFocus::Commands);
    let _ = state.handle_key(KeyEvent::plain(KeyCode::Tab));
    let _ = state.handle_key(KeyEvent::plain(KeyCode::BackTab));
    assert_eq!(state.focus, DetailFocus::Commands);
    state.focus = DetailFocus::Shell;
    for _ in 0..4 {
        let _ = state.handle_key(KeyEvent::plain(KeyCode::Tab));
    }
    assert_eq!(state.focus, DetailFocus::Name);
}

#[test]
fn picker_wheel_centres_the_current_entry() {
    assert_eq!(picker_wheel(0, 2), vec![None, None, None, Some(0), Some(1), None, None]);
    assert_eq!(picker_wheel(4, 6), vec![Some(1), Some(2), Some(3), Some(4), Some(5), None, None]);
    assert_eq!(picker_wheel(0, 0), vec![None; 7]);
}

#[test]
fn list_rows_show_the_insertion_preview_and_shift_numbers() {
    let mut state = make_state();
    state.set.commands.push(Command { position: 0, command: "one".to_string() });
    state.set.commands.push(Command { position: 1, command: "two".to_string() });
    state.focus = DetailFocus::Commands;
    let rows = state.command_rows(false);
    let texts: Vec<&str> = rows.iter().map(|r| r.text.as_str()).collect();
    assert_eq!(texts, vec!["  #0  one", "  #1  two"]);
    assert_eq!(rows[0].role, RowRole::Selected);
    assert_eq!(rows[1].role, RowRole::Normal);

    let _ = state.handle_key(KeyEvent::plain(KeyCode::Char('a')));
    let _ = state.handle_key(KeyEvent::plain(KeyCode::Char('x')));
    let rows = state.command_rows(false);
    let texts: Vec<&str> = rows.iter().map(|r| r.text.as_str()).collect();
    assert_eq!(texts, vec!["  #0  one", "  #1▶ x", "  #2  two"]);
    assert_eq!(rows[1].role, RowRole::Inserting);
    assert_eq!(rows[0].role, RowRole::Normal);
}

#[test]
fn variable_rows_show_the_edited_row() {
    let mut state = make_state();
    state.set.variables.push(Variable { name: "host".to_string(), default_value: "localhost".to_string() });
    state.focus = DetailFocus::Variables;
    let rows = state.variable_rows();
    assert_eq!(rows.len(), 1);
    assert_eq!(rows[0].text, "  host = localhost");
    assert_eq!(rows[0].role, RowRole::Selected);
    let _ = state.handle_key(KeyEvent::plain(KeyCode::Enter));
    let rows = state.variable_rows();
    assert_eq!(rows[0].role, RowRole::Editing);
    assert!(rows[0].text.starts_with("  ▶ host"));
}

#[test]
fn tab_then_backtab_from_a_property_returns_to_the_name() {
    let mut state = make_state();
    state.focus = DetailFocus::ExecMode;
    let before = state.set.clone();
    assert!(matches!(state.handle_key(KeyEvent::plain(KeyCode::Tab)), AppAction::Nothing));
    assert!(matches!(state.handle_key(KeyEvent::plain(KeyCode::BackTab)), AppAction::Nothing));
    assert_eq!(state.focus, DetailFocus::Name);
    assert_eq!(state.set, before);
    assert!(matches!(state.editing, EditingState::Idle));
    assert!(state.var_editor.edit.editing.is_none());
}

#[test]
fn typing_into_the_working_directory_then_enter_stores_it() {
    let mut state = make_state();
    state.focus = DetailFocus::WorkDir;
    let _ = state.handle_key(KeyEvent::plain(KeyCode::Enter));
    for c in "/srv".chars() {
        let _ = state.handle_key(KeyEvent::plain(KeyCode::Char(c)));
    }
    let _ = state.handle_key(KeyEvent::plain(KeyCode::Enter));
    assert!(matches!(state.editing, EditingState::Idle));
    assert_eq!(state.set.working_dir, Some("/srv".to_string()));
    assert_eq!(state.focus, DetailFocus::WorkDir);
}

#[test]
fn blank_working_directory_text_stores_none() {
    let mut state = make_state();
    state.set.working_dir = Some("/old".to_string());
    state.focus = DetailFocus::WorkDir;
    let _ = state.handle_key(KeyEvent::plain(KeyCode::Enter));
    for _ in 0..4 {
        let _ = state.handle_key(KeyEvent::plain(KeyCode::Backspace));
    }
    let _ = state.handle_key(KeyEvent::plain(KeyCode::Char(' ')));
    let _ = state.handle_key(KeyEvent::plain(KeyCode::Enter));
    assert_eq!(state.set.working_dir, None);
}

#[test]
fn enter_on_a_command_edits_it_and_enter_again_stores_it() {
    let mut state = make_state();
    state.set.commands.push(Command { position: 0, command: "ls".to_string() });
    state.set.commands.push(Command { position: 1, command: "pwd".to_string() });
    state.focus = DetailFocus::Commands;
    state.cmd_editor.list.selected = 1;
    let _ = state.handle_key(KeyEvent::plain(KeyCode::Enter));
    assert_eq!(state.cmd_editor.edit.editing, Some(1));
    assert_eq!(state.cmd_editor.edit.edit_input.content, "pwd");
    assert_eq!(state.cmd_editor.edit.edit_input.cursor, 3);
    let _ = state.handle_key(KeyEvent::plain(KeyCode::Char('!')));
    let _ = state.handle_key(KeyEvent::plain(KeyCode::Enter));
    assert!(state.cmd_editor.edit.editing.is_none());
    assert_eq!(state.set.commands[1].command, "pwd!");
    assert_eq!(state.set.commands[0].command, "ls");
}

#[test]
fn right_on_the_last_mode_keeps_focus_and_mode() {
    let mut state = make_state();
    state.focus = DetailFocus::ExecMode;
    let _ = state.handle_key(KeyEvent::plain(KeyCode::Right));
    assert_eq!(state.set.exec_mode, ExecMode::ContinueOnError);
    assert!(matches!(state.handle_key(KeyEvent::plain(KeyCode::Right)), AppAction::Nothing));
    assert_eq!(state.set.exec_mode, ExecMode::ContinueOnError);
    assert_eq!(state.focus, DetailFocus::ExecMode);
    assert!(state.var_editor.edit.editing.is_none());
}
