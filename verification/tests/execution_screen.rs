use shellpad::ui::output_rows::OutputRow;
use shellpad::ui::execution_screen::format_duration;
use shellpad::action::AppAction;
use shellpad::executor::ExecutionEvent;
use shellpad::models::Command;
use shellpad::ui::execution_screen::{CmdStatus, ExecutionScreenState, ScrollMode, SearchState, MAX_OUTPUT_LINES};
use shellpad::ui::keys::{KeyCode, KeyEvent};
use shellpad::ui::text_input::TextInput;

fn make_state(commands: &[&str]) -> ExecutionScreenState {
    let cmds: Vec<_> = commands
        .iter()
        .map(|c| Command {
            position: 0,
            command: c.to_string(),
        })
        .collect();
    ExecutionScreenState::new("test".to_string(), &cmds)
}

#[test]
fn test_process_starting() {
    let mut state = make_state(&["echo hello"]);
    let mut events: Vec<ExecutionEvent> = Vec::new();
    events.push(ExecutionEvent::Starting {
        index: 0,
        command: "echo hello".to_string(),
    });
    state.process_events(std::mem::take(&mut events));
    assert_eq!(state.cmd_states[0].status, CmdStatus::Running);
}

#[test]
fn test_process_stdout_line() {
    let mut state = make_state(&["echo hi"]);
    let mut events: Vec<ExecutionEvent> = Vec::new();
    events.push(ExecutionEvent::StdoutLine {
        index: 0,
        line: "hi".to_string(),
    });
    state.process_events(std::mem::take(&mut events));
    let lines: Vec<&str> = state.cmd_states[0]
        .output_lines
        .iter()
        .map(|s| s.as_str())
        .collect();
    assert_eq!(lines, vec!["hi"]);
}

#[test]
fn test_process_stderr_line() {
    let mut state = make_state(&["error"]);
    let mut events: Vec<ExecutionEvent> = Vec::new();
    events.push(ExecutionEvent::StderrLine {
        index: 0,
        line: "err".to_string(),
    });
    state.process_events(std::mem::take(&mut events));
    let lines: Vec<&str> = state.cmd_states[0]
        .output_lines
        .iter()
        .map(|s| s.as_str())
        .collect();
    assert_eq!(lines, vec!["[stderr] err"]);
}

#[test]
fn test_process_finished_success() {
    let mut state = make_state(&["ok"]);
    let mut events: Vec<ExecutionEvent> = Vec::new();
    events.push(ExecutionEvent::Starting {
        index: 0,
        command: "ok".to_string(),
    });
    events.push(ExecutionEvent::Finished {
        index: 0,
        success: true,
        duration_ms: 100,
        exit_code: Some(0),
        skipped: false,
    });
    state.process_events(std::mem::take(&mut events));
    assert_eq!(state.cmd_states[0].status, CmdStatus::Success);
    assert_eq!(state.succeeded, 1);
}

#[test]
fn test_process_finished_failure() {
    let mut state = make_state(&["fail"]);
    let mut events: Vec<ExecutionEvent> = Vec::new();
    events.push(ExecutionEvent::Starting {
        index: 0,
        command: "fail".to_string(),
    });
    events.push(ExecutionEvent::Finished {
        index: 0,
        success: false,
        duration_ms: 50,
        exit_code: Some(1),
        skipped: false,
    });
    state.process_events(std::mem::take(&mut events));
    assert_eq!(state.cmd_states[0].status, CmdStatus::Failure);
    assert_eq!(state.failed, 1);
}

#[test]
fn test_process_completed_all() {
    let mut state = make_state(&["a", "b"]);
    let mut events: Vec<ExecutionEvent> = Vec::new();
    events.push(ExecutionEvent::CompletedAll {
        total: 2,
        succeeded: 1,
        failed: 1,
        total_duration_ms: 500,
    });
    state.process_events(std::mem::take(&mut events));
    assert!(state.completed);
    assert_eq!(state.total_duration_ms, Some(500));
}

#[test]
fn test_mark_remaining_as_skipped() {
    let mut state = make_state(&["a", "b", "c"]);
    state.mark_remaining_as_skipped();
    assert!(state.completed);
    for (i, cmd) in state.cmd_states.iter().enumerate() {
        assert_eq!(cmd.status, CmdStatus::Skipped, "cmd {i} should be skipped");
    }
    assert_eq!(state.skipped, 3);
    assert_eq!(state.continue_from, Some(0));
}

#[test]
fn test_output_truncation_drops_oldest_lines() {
    const LIMIT: usize = MAX_OUTPUT_LINES;
    let mut state = make_state(&["flood"]);
    let mut events: Vec<ExecutionEvent> = Vec::new();

    // Send exactly LIMIT lines
    for i in 0..LIMIT {
        events.push(ExecutionEvent::StdoutLine {
            index: 0,
            line: format!("line_{}", i),
        });
    }
    state.process_events(std::mem::take(&mut events));
    assert_eq!(state.cmd_states[0].output_lines.len(), LIMIT);
    assert!(!state.cmd_states[0].truncated);
    assert!(!state.output_truncated);

    // Send 1 more — oldest line dropped
    events.push(ExecutionEvent::StdoutLine {
        index: 0,
        line: "overflow".to_string(),
    });
    state.process_events(std::mem::take(&mut events));
    assert_eq!(state.cmd_states[0].output_lines.len(), LIMIT);
    // "line_0" was the oldest, should be gone
    let front = state.cmd_states[0].output_lines.front().unwrap();
    assert_eq!(front, "line_1");
    assert!(state.cmd_states[0].truncated);
    assert!(state.output_truncated);
}

#[test]
fn test_output_truncation_output_truncated_flag_resets() {
    let mut state = make_state(&["flood"]);
    let mut events: Vec<ExecutionEvent> = Vec::new();

    // Trigger truncation once
    events.push(ExecutionEvent::StdoutLine {
        index: 0,
        line: "first".to_string(),
    });
    state.process_events(std::mem::take(&mut events));
    // Clear the flag (simulates app.rs consuming it)
    state.output_truncated = false;

    // Send enough to cross limit — flag should be set again
    const LIMIT: usize = MAX_OUTPUT_LINES;
    for i in 0..LIMIT {
        events.push(ExecutionEvent::StdoutLine {
            index: 0,
            line: format!("l{}", i),
        });
    }
    state.process_events(std::mem::take(&mut events));
    assert!(state.cmd_states[0].truncated);
    assert!(state.output_truncated);
}

#[test]
fn test_items_offset_works_with_vecdeque_output_lines() {
    let mut state = make_state(&["a", "b"]);
    let mut events: Vec<ExecutionEvent> = Vec::new();
    events.push(ExecutionEvent::StdoutLine {
        index: 0,
        line: "hello".to_string(),
    });
    events.push(ExecutionEvent::StdoutLine {
        index: 0,
        line: "world".to_string(),
    });
    events.push(ExecutionEvent::StdoutLine {
        index: 1,
        line: "foo".to_string(),
    });
    state.process_events(std::mem::take(&mut events));

    // cmd 0: 1 header + 2 outputs + 1 separator = 4
    assert_eq!(state.items_offset_for_command(1), 4);
    assert_eq!(state.items_offset_for_command(0), 0);
}

#[test]
fn test_items_offset_includes_truncation_marker() {
    let mut state = make_state(&["a", "b"]);
    state.cmd_states[0].truncated = true;
    assert_eq!(state.items_offset_for_command(1), 3);
}

#[test]
fn test_items_offset_no_trailing_separator_for_last_command() {
    let state = make_state(&["a", "b"]);
    assert_eq!(state.items_offset_for_command(2), 3);
    assert_eq!(state.items_offset_for_command(0), 0);
    assert_eq!(state.items_offset_for_command(1), 2);
}

fn make_test_state() -> ExecutionScreenState {
    let cmds: Vec<Command> = vec![
        Command {
            position: 0,
            command: "cmd1".to_string(),
        },
        Command {
            position: 1,
            command: "cmd2".to_string(),
        },
    ];
    ExecutionScreenState::new("test".to_string(), &cmds)
}

#[test]
fn test_scroll_up_enters_free_scroll_mode() {
    let mut state = make_test_state();
    // 2 commands, 0 output → items_total=3, max offset=2
    state.scroll = ScrollMode::Free { offset: 1 };

    let action = state.handle_key(KeyEvent::plain(KeyCode::Up));
    assert!(matches!(action, AppAction::Nothing));
    assert!(matches!(state.scroll, ScrollMode::Free { offset: 0 }));
}

#[test]
fn test_scroll_down_is_clamped_to_content() {
    let mut state = make_test_state();
    // 2 commands, 0 output → items_total = 3 → max scroll_offset = 2
    state.scroll = ScrollMode::Free { offset: 1 };

    let _ = state.handle_key(KeyEvent::plain(KeyCode::Down));
    assert!(matches!(state.scroll, ScrollMode::Free { offset: 2 }));

    let _ = state.handle_key(KeyEvent::plain(KeyCode::Down));
    // stays clamped at 2
    assert!(matches!(state.scroll, ScrollMode::Free { offset: 2 }));
}

#[test]
fn test_page_up_down() {
    let mut state = make_test_state();
    // 2 commands, 0 output → items_total=3, max offset=2
    state.scroll = ScrollMode::Free { offset: 2 };

    let _ = state.handle_key(KeyEvent::plain(KeyCode::PageUp));
    assert!(matches!(state.scroll, ScrollMode::Free { offset: 0 }));

    let _ = state.handle_key(KeyEvent::plain(KeyCode::PageDown));
    assert!(matches!(state.scroll, ScrollMode::Free { offset: 2 }));
}

#[test]
fn test_jk_vim_keys() {
    let mut state = make_test_state();
    // 2 commands, 0 output → items_total=3, max offset=2
    state.scroll = ScrollMode::Free { offset: 1 };

    let _ = state.handle_key(KeyEvent::plain(KeyCode::Char('j')));
    assert!(matches!(state.scroll, ScrollMode::Free { offset: 2 }));

    let _ = state.handle_key(KeyEvent::plain(KeyCode::Char('k')));
    assert!(matches!(state.scroll, ScrollMode::Free { offset: 1 }));
}

#[test]
fn mod_test_slash_enters_search_mode() {
    let mut state = make_test_state();
    let action = state.handle_key(KeyEvent::plain(KeyCode::Char('/')));
    assert!(matches!(action, AppAction::Nothing));
    assert!(matches!(state.search, SearchState::Active { .. }));
}

#[test]
fn test_esc_exits_search_and_restores_scroll() {
    let mut state = make_test_state();
    state.scroll = ScrollMode::Free { offset: 5 };
    // Enter search
    let _ = state.handle_key(KeyEvent::plain(KeyCode::Char('/')));
    assert!(matches!(state.search, SearchState::Active { .. }));
    // Exit search
    let action = state.handle_key(KeyEvent::plain(KeyCode::Esc));
    assert!(matches!(action, AppAction::Nothing));
    assert!(matches!(state.search, SearchState::Inactive));
    assert_eq!(state.scroll, ScrollMode::Free { offset: 5 });
}

fn enter_search(state: &mut ExecutionScreenState) {
    let _ = state.handle_key(KeyEvent::plain(KeyCode::Char('/')));
}

#[test]
fn test_char_input_updates_query() {
    let mut state = make_test_state();
    enter_search(&mut state);
    let action = state.handle_key(KeyEvent::plain(KeyCode::Char('e')));
    assert!(matches!(action, AppAction::Nothing));
    if let SearchState::Active { ref input, .. } = state.search {
        assert_eq!(input.content, "e");
    } else {
        panic!("expected Active");
    }
}

#[test]
fn test_backspace_removes_last_char() {
    let mut state = make_test_state();
    enter_search(&mut state);
    let _ = state.handle_key(KeyEvent::plain(KeyCode::Char('a')));
    let _ = state.handle_key(KeyEvent::plain(KeyCode::Char('b')));
    let _ = state.handle_key(KeyEvent::plain(KeyCode::Backspace));
    if let SearchState::Active { ref input, .. } = state.search {
        assert_eq!(input.content, "a");
    } else {
        panic!("expected Active");
    }
}

#[test]
fn test_delete_removes_at_cursor() {
    let mut state = make_test_state();
    enter_search(&mut state);
    let _ = state.handle_key(KeyEvent::plain(KeyCode::Char('a')));
    let _ = state.handle_key(KeyEvent::plain(KeyCode::Char('b')));
    // Move cursor left, then delete the character at cursor
    let _ = state.handle_key(KeyEvent::plain(KeyCode::Left));
    let _ = state.handle_key(KeyEvent::plain(KeyCode::Delete));
    if let SearchState::Active { ref input, .. } = state.search {
        assert_eq!(input.content, "a");
    } else {
        panic!("expected Active");
    }
}

#[test]
fn test_cursor_keys_move_without_changing_content() {
    let mut state = make_test_state();
    enter_search(&mut state);
    let _ = state.handle_key(KeyEvent::plain(KeyCode::Char('a')));
    let _ = state.handle_key(KeyEvent::plain(KeyCode::Char('b')));
    // Move left
    let _ = state.handle_key(KeyEvent::plain(KeyCode::Left));
    if let SearchState::Active { input, .. } = state.search {
        assert_eq!(input.content, "ab");
        assert_eq!(input.cursor, 1);
    } else {
        panic!("expected Active");
    }
}

fn make_state_with_output() -> ExecutionScreenState {
    let cmds: Vec<Command> = vec![Command {
        position: 0,
        command: "cmd1".to_string(),
    }];
    let mut state = ExecutionScreenState::new("test".to_string(), &cmds);
    state.cmd_states[0]
        .output_lines
        .push_back("line one".to_string());
    state.cmd_states[0]
        .output_lines
        .push_back("error: something failed".to_string());
    state.cmd_states[0]
        .output_lines
        .push_back("line three".to_string());
    state
}

#[test]
fn test_enter_with_matches_enters_free_mode() {
    let mut state = make_state_with_output();
    enter_search(&mut state);
    let _ = state.handle_key(KeyEvent::plain(KeyCode::Char('e')));
    let _ = state.handle_key(KeyEvent::plain(KeyCode::Char('r')));
    let action = state.handle_key(KeyEvent::plain(KeyCode::Enter));
    assert!(matches!(action, AppAction::Nothing));
    assert!(matches!(state.search, SearchState::Inactive));
    assert_eq!(state.scroll, ScrollMode::Free { offset: 2 });
}

#[test]
fn test_enter_with_no_matches_just_exits() {
    let mut state = make_state_with_output();
    enter_search(&mut state);
    let _ = state.handle_key(KeyEvent::plain(KeyCode::Char('z')));
    let _ = state.handle_key(KeyEvent::plain(KeyCode::Char('z')));
    let action = state.handle_key(KeyEvent::plain(KeyCode::Enter));
    assert!(matches!(action, AppAction::Nothing));
    assert!(matches!(state.search, SearchState::Inactive));
    assert!(!matches!(state.scroll, ScrollMode::Free { .. }));
}

#[test]
fn test_flat_output_index_calculates_correctly() {
    let state = make_state_with_output();
    assert_eq!(state.flat_output_index(0, 0), 1);
    assert_eq!(state.flat_output_index(0, 1), 2);
    assert_eq!(state.flat_output_index(0, 2), 3);
}

#[test]
fn test_empty_query_produces_no_matches() {
    let mut state = make_state_with_output();
    enter_search(&mut state);
    let _ = state.handle_key(KeyEvent::plain(KeyCode::Char('x')));
    let _ = state.handle_key(KeyEvent::plain(KeyCode::Backspace));
    if let SearchState::Active { matches, .. } = state.search {
        assert!(matches.is_empty());
    } else {
        panic!("expected Active");
    }
}

#[test]
fn test_up_down_navigates_matches() {
    let mut state = make_state_with_output();
    enter_search(&mut state);
    let _ = state.handle_key(KeyEvent::plain(KeyCode::Char('l')));
    let _ = state.handle_key(KeyEvent::plain(KeyCode::Char('i')));
    let _ = state.handle_key(KeyEvent::plain(KeyCode::Char('n')));
    let _ = state.handle_key(KeyEvent::plain(KeyCode::Char('e')));
    if let SearchState::Active {
        matches, current, ..
    } = &state.search
    {
        assert_eq!(matches.len(), 2);
        assert_eq!(*current, 0);
    } else {
        panic!("expected Active");
    }

    let _ = state.handle_key(KeyEvent::plain(KeyCode::Down));
    if let SearchState::Active { current, .. } = &state.search {
        assert_eq!(*current, 1);
    }

    let _ = state.handle_key(KeyEvent::plain(KeyCode::Up));
    if let SearchState::Active { current, .. } = &state.search {
        assert_eq!(*current, 0);
    }
}

#[test]
fn test_up_at_first_down_at_last_match_clamps() {
    let mut state = make_state_with_output();
    enter_search(&mut state);
    let _ = state.handle_key(KeyEvent::plain(KeyCode::Char('l')));
    let _ = state.handle_key(KeyEvent::plain(KeyCode::Char('i')));
    let _ = state.handle_key(KeyEvent::plain(KeyCode::Char('n')));
    let _ = state.handle_key(KeyEvent::plain(KeyCode::Char('e')));

    let _ = state.handle_key(KeyEvent::plain(KeyCode::Up));
    if let SearchState::Active { current, .. } = &state.search {
        assert_eq!(*current, 0);
    }

    let _ = state.handle_key(KeyEvent::plain(KeyCode::Down));
    let last = if let SearchState::Active {
        matches, current, ..
    } = &state.search
    {
        let l = matches.len() - 1;
        assert_eq!(*current, l);
        l
    } else {
        return;
    };

    let _ = state.handle_key(KeyEvent::plain(KeyCode::Down));
    if let SearchState::Active { current, .. } = &state.search {
        assert_eq!(*current, last);
    }
}

fn make_search_state_with_matches() -> ExecutionScreenState {
    let mut state = make_state_with_output();
    state.search = SearchState::Active {
        input: TextInput::new("line".to_string()),
        matches: vec![1, 3],
        current: 0,
        prev_scroll: ScrollMode::Follow,
        prev_offset: 0,
    };
    state.last_offset = 0;
    state.visible_height = 10;
    state.scroll = ScrollMode::Free { offset: 0 };
    state
}

#[test]
fn test_scroll_to_match_visible_no_scroll() {
    let mut state = make_search_state_with_matches();
    state.scroll_to_match(0);
    assert_eq!(state.scroll, ScrollMode::Free { offset: 0 });
}

#[test]
fn test_scroll_to_match_above_viewport() {
    let mut state = make_search_state_with_matches();
    state.last_offset = 5;
    state.scroll_to_match(0);
    assert_eq!(state.scroll, ScrollMode::Free { offset: 1 });
}

#[test]
fn test_scroll_to_match_below_viewport() {
    let mut state = make_search_state_with_matches();
    state.last_offset = 0;
    state.visible_height = 3;
    state.scroll_to_match(1);
    assert_eq!(state.scroll, ScrollMode::Free { offset: 1 });
}

#[test]
fn test_scroll_to_match_zero_height_no_panic() {
    let mut state = make_search_state_with_matches();
    state.visible_height = 0;
    state.scroll_to_match(1);
}

#[test]
fn test_items_offset_defer_boundary_known_undercount() {
    // Known issue: render pushes an extra empty line before defer-boundary
    // separators (2 items total), but items_offset_for_command counts only 1.
    // This makes flat_output_index off by 1 for commands after defer boundaries.
    let cmds: Vec<Command> = vec![
        Command {
            position: 0,
            command: "normal".to_string(),
        },
        Command {
            position: 1,
            command: "deferred".to_string(),
        },
    ];
    let mut state = ExecutionScreenState::new("test".to_string(), &cmds);
    state.cmd_states[1].defer = true;
    state.cmd_states[0]
        .output_lines
        .push_back("line0".to_string());
    state.cmd_states[1]
        .output_lines
        .push_back("line1".to_string());

    // Real item layout for cmd0: [0]=hdr, [1]=line0, [2]=(empty), [3]=thick sep
    // So items before cmd1 header = 4. But items_offset_for_command(1) returns 3.
    // The correct value should be 4 — this test documents the current buggy value.
    let offset = state.items_offset_for_command(1);
    assert_eq!(
        offset, 3,
        "known bug: undercounts defer-boundary empty line"
    );

    // flat_output_index inherits the error:
    // bug value: 3 + 1 + 0 + 0 = 4, correct value: 4 + 1 + 0 + 0 = 5
    assert_eq!(state.flat_output_index(1, 0), 4);
}

#[test]
fn format_duration_shows_seconds_and_hundredths() {
    assert_eq!(format_duration(0), " (0.00s)");
    assert_eq!(format_duration(1234), " (1.23s)");
    assert_eq!(format_duration(61_005), " (61.00s)");
}

#[test]
fn skipped_finish_counts_as_skipped() {
    let mut state = make_state(&["a", "b"]);
    state.process_events(vec![
        ExecutionEvent::Starting { index: 0, command: "a".to_string() },
        ExecutionEvent::Finished { index: 0, success: false, duration_ms: 5, exit_code: None, skipped: true },
    ]);
    assert_eq!(state.cmd_states[0].status, CmdStatus::Skipped);
    assert_eq!(state.skipped, 1);
    assert_eq!(state.failed, 0);
}

#[test]
fn reset_from_makes_skipped_commands_pending_again() {
    let mut state = make_state(&["a", "b", "c"]);
    state.mark_remaining_as_skipped();
    state.reset_from(1);
    assert_eq!(state.cmd_states[0].status, CmdStatus::Skipped);
    assert_eq!(state.cmd_states[1].status, CmdStatus::Pending);
    assert_eq!(state.cmd_states[2].status, CmdStatus::Pending);
    assert!(!state.completed);
    assert!(state.continue_from.is_none());
    assert_eq!(state.scroll, ScrollMode::Follow);
}

#[test]
fn skip_pending_leaves_the_run_open() {
    let mut state = make_state(&["a", "b"]);
    state.skip_pending();
    assert!(!state.completed);
    assert_eq!(state.skipped, 2);
    assert_eq!(state.continue_from, Some(0));
}

#[test]
fn events_for_unknown_commands_are_ignored() {
    let mut state = make_state(&["a"]);
    state.process_events(vec![ExecutionEvent::StdoutLine { index: 5, line: "x".to_string() }]);
    assert!(state.cmd_states[0].output_lines.is_empty());
}

#[test]
fn q_leaves_and_z_toggles_follow() {
    let mut state = make_state(&["a"]);
    assert!(matches!(state.handle_key(KeyEvent::plain(KeyCode::Char('q'))), AppAction::BackToMain));
    let _ = state.handle_key(KeyEvent::plain(KeyCode::Char('z')));
    assert_eq!(state.scroll, ScrollMode::Free { offset: 0 });
    let _ = state.handle_key(KeyEvent::plain(KeyCode::Char('z')));
    assert_eq!(state.scroll, ScrollMode::Follow);
    assert!(matches!(state.handle_key(KeyEvent::new(KeyCode::Char('c'), true)), AppAction::Abort));
    assert!(matches!(state.handle_key(KeyEvent::plain(KeyCode::Char('s'))), AppAction::Pause));
}

#[test]
fn closing_search_with_esc_restores_the_offset() {
    let mut state = make_test_state();
    state.scroll = ScrollMode::Browse { index: 1 };
    state.last_offset = 7;
    let _ = state.handle_key(KeyEvent::plain(KeyCode::Char('/')));
    let _ = state.handle_key(KeyEvent::plain(KeyCode::Char('x')));
    state.last_offset = 2;
    let action = state.handle_key(KeyEvent::plain(KeyCode::Esc));
    assert!(matches!(action, AppAction::Nothing));
    assert_eq!(state.scroll, ScrollMode::Browse { index: 1 });
    assert_eq!(state.last_offset, 7);
}

#[test]
fn output_rows_follow_the_commands_and_the_defer_boundary() {
    let mut state = make_state(&["echo a", "echo b"]);
    state.cmd_states[1].defer = true;
    state.process_events(vec![
        ExecutionEvent::Starting { index: 0, command: "echo a".to_string() },
        ExecutionEvent::StdoutLine { index: 0, line: "a".to_string() },
        ExecutionEvent::StderrLine { index: 0, line: "oops".to_string() },
        ExecutionEvent::Finished { index: 0, success: true, duration_ms: 1500, exit_code: Some(0), skipped: false },
    ]);
    let rows = state.output_rows();
    assert_eq!(rows.len(), 6);
    assert!(matches!(&rows[0], OutputRow::Header { index: 0, text } if text == " ✓ $ echo a (1.50s)"));
    assert!(matches!(&rows[1], OutputRow::Line { text, stderr: false } if text == "   a"));
    assert!(matches!(&rows[2], OutputRow::Line { text, stderr: true } if text == "   [stderr] oops"));
    assert!(matches!(rows[3], OutputRow::Blank));
    assert!(matches!(rows[4], OutputRow::Separator { thick: true }));
    assert!(matches!(&rows[5], OutputRow::Header { index: 1, text } if text == " ▽ $ echo b"));

    state.process_events(vec![ExecutionEvent::CompletedAll { total: 2, succeeded: 1, failed: 0, total_duration_ms: 2000 }]);
    let rows = state.output_rows();
    assert_eq!(rows.len(), 8);
    assert!(matches!(rows[6], OutputRow::Blank));
    assert!(matches!(&rows[7], OutputRow::Summary { text } if text.starts_with(" 1 / ")));
}

#[test]
fn output_rows_of_an_empty_set_show_the_hint() {
    let state = make_state(&[]);
    let rows = state.output_rows();
    assert_eq!(rows.len(), 1);
    assert!(matches!(rows[0], OutputRow::NoCommands));
}

#[test]
fn skipping_the_rest_then_continuing_restores_every_command() {
    let mut state = make_state(&["a", "b", "c"]);
    state.process_events(vec![
        ExecutionEvent::Starting { index: 0, command: "a".to_string() },
        ExecutionEvent::StdoutLine { index: 0, line: "out".to_string() },
        ExecutionEvent::Finished { index: 0, success: true, duration_ms: 1, exit_code: Some(0), skipped: false },
    ]);
    state.mark_remaining_as_skipped();
    let from = state.continue_from.unwrap();
    assert_eq!(from, 1);
    state.reset_from(from);
    assert_eq!(state.cmd_states[0].status, CmdStatus::Success);
    assert_eq!(state.cmd_states[1].status, CmdStatus::Pending);
    assert_eq!(state.cmd_states[2].status, CmdStatus::Pending);
    assert_eq!(state.cmd_states[0].output_lines.len(), 1);
    assert!(!state.completed);
    assert!(state.continue_from.is_none());
}

#[test]
fn a_batch_keeps_the_last_lines_and_ignores_unknown_commands() {
    let mut state = make_state(&["a", "b"]);
    let mut events: Vec<ExecutionEvent> = Vec::new();
    for i in 0..MAX_OUTPUT_LINES + 2 {
        events.push(ExecutionEvent::StdoutLine { index: 1, line: format!("l{}", i) });
        events.push(ExecutionEvent::StderrLine { index: 9, line: "lost".to_string() });
    }
    events.push(ExecutionEvent::StderrLine { index: 1, line: "bad".to_string() });
    state.process_events(events);
    let out = &state.cmd_states[1].output_lines;
    assert_eq!(out.len(), MAX_OUTPUT_LINES);
    assert_eq!(out.front().unwrap(), "l3");
    assert_eq!(out.back().unwrap(), "[stderr] bad");
    assert!(state.cmd_states[1].truncated);
    assert!(state.output_truncated);
    assert!(state.cmd_states[0].output_lines.is_empty());
    assert!(!state.cmd_states[0].truncated);
    assert_eq!(state.cmd_states.len(), 2);
    assert_eq!(state.set_name, "test");
    assert_eq!(state.skipped, 0);
    assert!(state.continue_from.is_none());
}
