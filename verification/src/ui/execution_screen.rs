//! State of the execution screen: per-command status and output, scrolling,
//! and search in the output.

use vstd::prelude::*;
use std::collections::VecDeque;
use crate::action::AppAction;
use crate::executor::ExecutionEvent;
use crate::models::Command;
use crate::text::{contains, copy_str, push_decimal, push_signed_decimal, push_str, signed_decimal, str_contains, decimal};
use crate::ui::keys::{KeyCode, KeyEvent};
use crate::ui::text_input::{handle_text_input, text_key_spec, TextInput};

verus! {

/// Max output lines kept per command; older lines are dropped beyond it.
pub const MAX_OUTPUT_LINES: usize = 10_000;

/// Number of lines to scroll per PageUp/PageDown.
pub const PAGE_SIZE: usize = 20;

/// Scroll tracking mode.
#[derive(Debug, Clone, Copy, PartialEq, Eq, Structural)]
pub enum ScrollMode {
    /// Follow the latest output at the bottom.
    Follow,
    /// Locked to a command's header line.
    Browse { index: usize },
    /// At an arbitrary offset.
    Free { offset: usize },
}

/// Status of one command.
#[derive(Debug, Clone, Copy, PartialEq, Eq, Structural)]
pub enum CmdStatus {
    Pending,
    Running,
    Success,
    Failure,
    Skipped,
}

/// One command's status and output.
#[derive(Debug)]
pub struct CmdState {
    pub status: CmdStatus,
    pub command: String,
    pub output_lines: VecDeque<String>,
    pub duration_ms: Option<u128>,
    pub truncated: bool,
    pub exit_code: Option<i32>,
    pub defer: bool,
}

/// Output search state, active while the search bar is open.
#[derive(Debug)]
pub enum SearchState {
    Inactive,
    Active { input: TextInput, matches: Vec<usize>, current: usize, prev_scroll: ScrollMode, prev_offset: usize },
}

/// The execution screen.
#[derive(Debug)]
pub struct ExecutionScreenState {
    pub set_name: String,
    pub cmd_states: Vec<CmdState>,
    pub current_index: usize,
    pub total: usize,
    pub succeeded: usize,
    pub failed: usize,
    pub skipped: usize,
    pub completed: bool,
    pub paused: bool,
    pub deferring: bool,
    pub continue_from: Option<usize>,
    pub total_duration_ms: Option<u128>,
    pub scroll: ScrollMode,
    /// Offset of the last rendered frame.
    pub last_offset: usize,
    /// Visible content height of the last rendered frame.
    pub visible_height: usize,
    pub output_truncated: bool,
    pub search: SearchState,
}

/// `x` saturated at `usize::MAX`.
pub open spec fn sat(x: int) -> int {
    if x > usize::MAX { usize::MAX as int } else { x }
}

/// Rendered rows of command `i`: its header, a truncation marker when its
/// output was cut, its output lines, and a separator unless it is the last.
pub open spec fn item_count(states: Seq<CmdState>, i: int) -> int {
    1 + (if states[i].truncated { 1int } else { 0int }) + states[i].output_lines@.len()
        + (if i + 1 < states.len() { 1int } else { 0int })
}

/// Rendered rows before command `n`.
pub open spec fn items_before(states: Seq<CmdState>, n: int) -> int
    decreases n,
{
    if n <= 0 {
        0
    } else {
        items_before(states, n - 1) + item_count(states, n - 1)
    }
}

/// Row index of the first output line of command `cmd` plus `line`.
pub open spec fn flat_index_spec(states: Seq<CmdState>, cmd: int, line: int) -> int {
    sat(sat(items_before(states, cmd)) + 1 + (if states[cmd].truncated { 1int } else { 0int }) + line)
}

/// Row indices of the output lines of commands `0..i` holding `q`, command
/// by command, line by line.
pub open spec fn matches_upto(states: Seq<CmdState>, q: Seq<char>, i: int) -> Seq<usize>
    decreases i,
{
    if i <= 0 {
        Seq::empty()
    } else {
        matches_upto(states, q, i - 1) + matches_in(states, q, i - 1, states[i - 1].output_lines@.len() as int)
    }
}

/// Row indices of the first `n` output lines of command `c` holding `q`.
pub open spec fn matches_in(states: Seq<CmdState>, q: Seq<char>, c: int, n: int) -> Seq<usize>
    decreases n,
{
    if n <= 0 {
        Seq::empty()
    } else {
        matches_in(states, q, c, n - 1) + if contains(states[c].output_lines@[n - 1]@, q) {
            seq![flat_index_spec(states, c, n - 1) as usize]
        } else {
            Seq::empty()
        }
    }
}

pub proof fn lemma_items_before_nonneg(states: Seq<CmdState>, n: int)
    ensures
        items_before(states, n) >= 0,
    decreases n,
{
    if n > 0 {
        lemma_items_before_nonneg(states, n - 1);
    }
}

/// Rendered rows before a command never decrease with the command index.
pub proof fn lemma_items_before_mono(states: Seq<CmdState>, a: int, b: int)
    requires
        a <= b <= states.len(),
    ensures
        items_before(states, a) <= items_before(states, b),
    decreases b - a,
{
    if a < b {
        lemma_items_before_mono(states, a, b - 1);
    }
}

/// The number of commands still pending among the first `n`.
pub open spec fn pending_count(states: Seq<CmdState>, n: int) -> int
    decreases n,
{
    if n <= 0 {
        0
    } else {
        pending_count(states, n - 1) + if states[n - 1].status == CmdStatus::Pending { 1int } else { 0int }
    }
}

/// Index of the first pending command among the first `n`, if any.
pub open spec fn first_pending(states: Seq<CmdState>, n: int) -> Option<usize>
    decreases n,
{
    if n <= 0 {
        None
    } else {
        match first_pending(states, n - 1) {
            Some(i) => Some(i),
            None => if states[n - 1].status == CmdStatus::Pending { Some((n - 1) as usize) } else { None },
        }
    }
}

pub proof fn lemma_pending_count_bounds(states: Seq<CmdState>, n: int)
    requires
        0 <= n <= states.len(),
    ensures
        0 <= pending_count(states, n) <= n,
    decreases n,
{
    if n > 0 {
        lemma_pending_count_bounds(states, n - 1);
    }
}

/// The nearest command from `from` stepping by `delta` (exclusive) whose
/// status is not pending.
pub open spec fn nearest_non_pending_spec(states: Seq<CmdState>, pos: int, delta: int) -> Option<usize>
    decreases (if delta > 0 && 0 <= pos < states.len() {
        states.len() - pos
    } else if delta < 0 && pos >= 0 {
        pos + 1
    } else {
        0
    }),
{
    if delta == 0 || pos < 0 || pos >= states.len() {
        None
    } else if states[pos].status != CmdStatus::Pending {
        Some(pos as usize)
    } else {
        nearest_non_pending_spec(states, pos + delta, delta)
    }
}

/// A fresh command state for `command`.
fn pending_state(command: &Command) -> (res: CmdState)
    ensures
        res.status == CmdStatus::Pending,
        res.command@ == command.command@,
        res.output_lines@.len() == 0,
        res.duration_ms is None,
        !res.truncated,
        res.exit_code is None,
        !res.defer,
{
    CmdState {
        status: CmdStatus::Pending,
        command: command.command.clone(),
        output_lines: VecDeque::new(),
        duration_ms: None,
        truncated: false,
        exit_code: None,
        defer: false,
    }
}

/// `c` with a pending status turned to skipped.
pub open spec fn skipped_state(c: CmdState) -> CmdState {
    if c.status == CmdStatus::Pending { CmdState { status: CmdStatus::Skipped, ..c } } else { c }
}

/// `t` is `s` with its pending commands skipped: they count as skipped, and
/// the first of them is the point to continue from unless one was set.
pub open spec fn pending_skipped(s: ExecutionScreenState, t: ExecutionScreenState) -> bool {
    &&& t == (ExecutionScreenState { cmd_states: t.cmd_states, skipped: t.skipped, continue_from: t.continue_from, ..s })
    &&& t.cmd_states@.len() == s.cmd_states@.len()
    &&& forall|i: int| 0 <= i < s.cmd_states@.len() ==> #[trigger] t.cmd_states@[i] == skipped_state(s.cmd_states@[i])
    &&& t.skipped == s.skipped + pending_count(s.cmd_states@, s.cmd_states@.len() as int)
    &&& t.continue_from == match s.continue_from {
        Some(c) => Some(c),
        None => first_pending(s.cmd_states@, s.cmd_states@.len() as int),
    }
}

/// What a key does to the execution screen `s`, leaving `t`, and the action
/// it hands on.
pub open spec fn exec_key_post(s: &ExecutionScreenState, t: &ExecutionScreenState, key: KeyEvent, res: AppAction) -> bool {
    &&& t.cmd_states == s.cmd_states
    &&& t.skipped == s.skipped
    &&& t.completed == s.completed
    &&& s.search is Inactive ==> {
        &&& same_action(res, exec_key_action(s, key))
        &&& t.scroll == exec_key_scroll(s, key.code)
        &&& if key.code == KeyCode::Char('/') {
            t.search matches SearchState::Active { input, matches, current, prev_scroll, prev_offset }
                && input.content@.len() == 0 && input.cursor == 0 && matches@.len() == 0 && current == 0
                && prev_scroll == s.scroll && prev_offset == s.last_offset
        } else {
            t.search is Inactive
        }
    }
    &&& s.search is Active ==> res is Nothing && search_key_post(s, t, key)
}

/// What a key does to the search bar of the output while it is open:
/// an edit of the query searches again from the first match; Up and Down
/// move between matches; Enter closes the bar where it is; Esc closes it
/// and goes back to where the view was when it opened.
pub open spec fn search_key_post(s: &ExecutionScreenState, t: &ExecutionScreenState, key: KeyEvent) -> bool {
    match s.search {
        SearchState::Active { input, matches, current, prev_scroll, prev_offset } => {
            let edited = text_key_spec(input.content@, input.cursor as int, key.code);
            if is_edit_key(key.code) && edited.0 != input.content@ {
                &&& t.search matches SearchState::Active { input: i2, matches: m2, current: c2, .. }
                    && i2.content@ == edited.0 && i2.cursor == edited.1 && c2 == 0
                    && m2@ == (if edited.0.len() == 0 {
                        Seq::<usize>::empty()
                    } else {
                        all_matches(s.cmd_states@, edited.0)
                    })
            } else {
                match key.code {
                    KeyCode::Enter => t.search is Inactive && t.scroll == s.scroll,
                    KeyCode::Esc => t.search is Inactive && t.scroll == prev_scroll
                        && t.last_offset == prev_offset,
                    KeyCode::Up => t.search matches SearchState::Active { current: c2, matches: m2, .. }
                        && c2 == (if current > 0 { current - 1 } else { current as int }) && m2 == matches,
                    KeyCode::Down => t.search matches SearchState::Active { current: c2, matches: m2, .. }
                        && c2 == (if current + 1 < matches@.len() { current + 1 } else { current as int })
                        && m2 == matches,
                    _ => t.search matches SearchState::Active { current: c2, matches: m2, .. }
                        && c2 == current && m2 == matches,
                }
            }
        },
        SearchState::Inactive => true,
    }
}

/// Opening the search bar with `/` and closing it with Esc puts the view
/// back where it was, and asks for nothing.
pub proof fn lemma_search_then_esc_restores_view(
    s: &ExecutionScreenState,
    t: &ExecutionScreenState,
    u: &ExecutionScreenState,
    k1: KeyEvent,
    k2: KeyEvent,
    r1: AppAction,
    r2: AppAction,
)
    requires
        s.search is Inactive,
        k1.code == KeyCode::Char('/'),
        k2.code == KeyCode::Esc,
        exec_key_post(s, t, k1, r1),
        exec_key_post(t, u, k2, r2),
    ensures
        u.search is Inactive,
        u.scroll == s.scroll,
        u.last_offset == s.last_offset,
        u.cmd_states == s.cmd_states,
        r2 is Nothing,
{
}

/// The mark shown before a command: a pending deferred command `▽`, a
/// pending one `○`, running `▶`, success `✓`, a failure its exit code in
/// brackets (or `✕` without one), skipped `~`.
pub open spec fn status_symbol_text(c: CmdState) -> Seq<char> {
    match c.status {
        CmdStatus::Pending => if c.defer { "▽"@ } else { "○"@ },
        CmdStatus::Running => "▶"@,
        CmdStatus::Success => "✓"@,
        CmdStatus::Failure => match c.exit_code {
            Some(code) => "["@ + signed_decimal(code as int) + "]"@,
            None => "✕"@,
        },
        CmdStatus::Skipped => "~"@,
    }
}

/// The header line of a command: ` <mark> $ <command>`, then its duration
/// once it has one.
pub open spec fn header_text(c: CmdState) -> Seq<char> {
    " "@ + status_symbol_text(c) + " $ "@ + c.command@ + match c.duration_ms {
        Some(d) => duration_text(d as nat),
        None => Seq::empty(),
    }
}

/// The mark shown before a command.
pub fn status_symbol(c: &CmdState) -> (res: String)
    ensures
        res@ == status_symbol_text(*c),
{
    proof {
        reveal_strlit("▽");
        reveal_strlit("○");
        reveal_strlit("▶");
        reveal_strlit("✓");
        reveal_strlit("✕");
        reveal_strlit("~");
        reveal_strlit("[");
        reveal_strlit("]");
    }
    match c.status {
        CmdStatus::Pending => if c.defer { copy_str("▽") } else { copy_str("○") },
        CmdStatus::Running => copy_str("▶"),
        CmdStatus::Success => copy_str("✓"),
        CmdStatus::Failure => match c.exit_code {
            Some(code) => {
                let mut s = copy_str("[");
                push_signed_decimal(&mut s, code as i64);
                push_str(&mut s, "]");
                s
            },
            None => copy_str("✕"),
        },
        CmdStatus::Skipped => copy_str("~"),
    }
}

/// The header line of a command.
pub fn header_line(c: &CmdState) -> (res: String)
    ensures
        res@ == header_text(*c),
{
    proof {
        reveal_strlit(" ");
        reveal_strlit(" $ ");
    }
    let mut s = copy_str(" ");
    let sym = status_symbol(c);
    push_str(&mut s, sym.as_str());
    push_str(&mut s, " $ ");
    push_str(&mut s, c.command.as_str());
    if let Some(d) = c.duration_ms {
        let dur = format_duration(d);
        push_str(&mut s, dur.as_str());
    }
    s
}

/// The line shown under a completed run.
pub open spec fn summary_text(s: &ExecutionScreenState) -> Seq<char> {
    " "@ + decimal((s.succeeded + s.failed + s.skipped) as nat) + " / "@ + decimal(s.total as nat) + " completed, "@
        + decimal(s.succeeded as nat) + " succeeded, "@ + decimal(s.failed as nat) + " failed, "@
        + decimal(s.skipped as nat) + " skipped"@ + match s.total_duration_ms {
        Some(d) => duration_text(d as nat),
        None => Seq::empty(),
    }
}

/// The key hints under the output.
pub open spec fn footer_text(s: &ExecutionScreenState) -> Seq<char> {
    if s.scroll is Browse {
        "[←/→] Browse  [↑/↓] Scroll  [PgUp/PgDn] Page  [z] Follow  [q] Back"@
    } else if s.completed {
        "[←/→] Browse  [↑/↓] Scroll  [PgUp/PgDn] Page  [r] Re-execute  [q] Back"@
    } else if s.deferring {
        "[←/→] Browse                                    Deferred commands running..."@
    } else if s.paused {
        "[n] Continue  [Ctrl+C] Abort  [←/→] Browse"@
    } else {
        "[s] Skip  [Ctrl+C] Abort  [←/→] Browse  [z] Follow"@
    }
}

impl ExecutionScreenState {
    /// A screen for running `commands`, all pending.
    pub fn new(set_name: String, commands: &[Command]) -> (res: Self)
        ensures
            res.set_name@ == set_name@,
            res.cmd_states@.len() == commands@.len(),
            forall|i: int| 0 <= i < commands@.len() ==> {
                &&& (#[trigger] res.cmd_states@[i]).status == CmdStatus::Pending
                &&& res.cmd_states@[i].command@ == commands@[i].command@
                &&& res.cmd_states@[i].output_lines@.len() == 0
                &&& res.cmd_states@[i].duration_ms is None
                &&& res.cmd_states@[i].exit_code is None
                &&& !res.cmd_states@[i].truncated
                &&& !res.cmd_states@[i].defer
            },
            res.total == commands@.len(),
            res.current_index == 0,
            res.succeeded == 0,
            res.failed == 0,
            res.skipped == 0,
            !res.completed,
            !res.paused,
            !res.deferring,
            res.continue_from is None,
            res.total_duration_ms is None,
            res.scroll == ScrollMode::Follow,
            res.last_offset == 0,
            res.visible_height == 0,
            !res.output_truncated,
            res.search is Inactive,
    {
        let mut cmd_states: Vec<CmdState> = Vec::new();
        let mut i: usize = 0;
        while i < commands.len()
            invariant
                i <= commands.len(),
                cmd_states@.len() == i,
                forall|j: int| 0 <= j < i ==> {
                    &&& (#[trigger] cmd_states@[j]).status == CmdStatus::Pending
                    &&& cmd_states@[j].command@ == commands@[j].command@
                    &&& cmd_states@[j].output_lines@.len() == 0
                    &&& cmd_states@[j].duration_ms is None
                    &&& cmd_states@[j].exit_code is None
                    &&& !cmd_states@[j].truncated
                    &&& !cmd_states@[j].defer
                },
            decreases commands.len() - i,
        {
            cmd_states.push(pending_state(&commands[i]));
            i = i + 1;
        }
        ExecutionScreenState {
            set_name,
            total: cmd_states.len(),
            cmd_states,
            current_index: 0,
            succeeded: 0,
            failed: 0,
            skipped: 0,
            completed: false,
            paused: false,
            deferring: false,
            continue_from: None,
            total_duration_ms: None,
            scroll: ScrollMode::Follow,
            last_offset: 0,
            visible_height: 0,
            output_truncated: false,
            search: SearchState::Inactive,
        }
    }

    /// Rendered rows before command `cmd_idx` (clamped to the number of
    /// commands), saturated at `usize::MAX`.
    pub fn items_offset_for_command(&self, cmd_idx: usize) -> (res: usize)
        ensures
            res == sat(items_before(
                self.cmd_states@,
                if cmd_idx < self.cmd_states@.len() { cmd_idx as int } else { self.cmd_states@.len() as int },
            )),
    {
        let count = if cmd_idx < self.cmd_states.len() { cmd_idx } else { self.cmd_states.len() };
        let mut offset: usize = 0;
        let mut i: usize = 0;
        while i < count
            invariant
                i <= count <= self.cmd_states@.len(),
                offset == sat(items_before(self.cmd_states@, i as int)),
            decreases count - i,
        {
            proof {
                lemma_items_before_nonneg(self.cmd_states@, i as int);
            }
            let st = &self.cmd_states[i];
            offset = offset.saturating_add(1);
            if st.truncated {
                offset = offset.saturating_add(1);
            }
            offset = offset.saturating_add(st.output_lines.len());
            if i + 1 < self.cmd_states.len() {
                offset = offset.saturating_add(1);
            }
            i = i + 1;
        }
        offset
    }

    /// Total rendered rows: all commands, plus a blank and a summary line
    /// once completed; saturated at `usize::MAX`.
    pub fn items_total(&self) -> (res: usize)
        ensures
            res == sat(sat(items_before(self.cmd_states@, self.cmd_states@.len() as int))
                + if self.completed { 2int } else { 0int }),
    {
        let total = self.items_offset_for_command(self.cmd_states.len());
        if self.completed { total.saturating_add(2) } else { total }
    }

    /// Row index of output line `line_idx` of command `cmd_idx`.
    pub fn flat_output_index(&self, cmd_idx: usize, line_idx: usize) -> (res: usize)
        requires
            cmd_idx < self.cmd_states@.len(),
        ensures
            res == flat_index_spec(self.cmd_states@, cmd_idx as int, line_idx as int),
    {
        let base = self.items_offset_for_command(cmd_idx);
        let extra: usize = if self.cmd_states[cmd_idx].truncated { 1 } else { 0 };
        base.saturating_add(1).saturating_add(extra).saturating_add(line_idx)
    }

    /// Marks every pending command as skipped: they count as skipped and
    /// the first of them becomes the point to continue from, unless one is
    /// already set.
    pub fn skip_pending(&mut self)
        requires
            old(self).skipped + old(self).cmd_states@.len() <= usize::MAX,
        ensures
            pending_skipped(*old(self), *final(self)),
    {
        let ghost old_self = *self;
        let ghost old_states = self.cmd_states@;
        let n = self.cmd_states.len();
        let mut i: usize = 0;
        while i < n
            invariant
                i <= n == old_states.len() == self.cmd_states@.len(),
                old_self.cmd_states@ == old_states,
                old_self.skipped + n <= usize::MAX,
                *self == (ExecutionScreenState {
                    cmd_states: self.cmd_states,
                    skipped: self.skipped,
                    continue_from: self.continue_from,
                    ..old_self
                }),
                forall|j: int| 0 <= j < n ==> #[trigger] self.cmd_states@[j] == if j < i {
                    skipped_state(old_states[j])
                } else {
                    old_states[j]
                },
                self.skipped == old_self.skipped + pending_count(old_states, i as int),
                self.continue_from == match old_self.continue_from {
                    Some(c) => Some(c),
                    None => first_pending(old_states, i as int),
                },
            decreases n - i,
        {
            proof {
                lemma_pending_count_bounds(old_states, i as int);
            }
            if self.cmd_states[i].status == CmdStatus::Pending {
                self.cmd_states[i].status = CmdStatus::Skipped;
                self.skipped = self.skipped + 1;
                if self.continue_from.is_none() {
                    self.continue_from = Some(i);
                }
            }
            i = i + 1;
        }
    }

    /// Marks every pending command as skipped, as `skip_pending` does, and
    /// the run as completed.
    pub fn mark_remaining_as_skipped(&mut self)
        requires
            old(self).skipped + old(self).cmd_states@.len() <= usize::MAX,
        ensures
            remaining_skipped(*old(self), *final(self)),
    {
        self.skip_pending();
        self.completed = true;
    }

    /// Prepares to continue from command `start_from`: skipped commands from
    /// there on become pending again, the view follows the output, and the
    /// run is no longer completed.
    pub fn reset_from(&mut self, start_from: usize)
        ensures
            reset_post(*old(self), *final(self), start_from as int),
    {
        let ghost old_self = *self;
        self.scroll = ScrollMode::Follow;
        let ghost old_states = self.cmd_states@;
        let n = self.cmd_states.len();
        let mut i: usize = start_from;
        while i < n
            invariant
                n == old_states.len() == self.cmd_states@.len(),
                old_states == old_self.cmd_states@,
                start_from <= i || i >= n,
                forall|j: int| 0 <= j < n ==> (#[trigger] self.cmd_states@[j]) == if j < i {
                    unskipped_state(old_states[j], j, start_from as int)
                } else {
                    old_states[j]
                },
                *self == (ExecutionScreenState { cmd_states: self.cmd_states, scroll: ScrollMode::Follow, ..old_self }),
            decreases n - i,
        {
            if self.cmd_states[i].status == CmdStatus::Skipped {
                self.cmd_states[i].status = CmdStatus::Pending;
            }
            i = i + 1;
        }
        self.completed = false;
        self.continue_from = None;
    }
}

/// `t` is `s` with its pending commands skipped and the run completed.
pub open spec fn remaining_skipped(s: ExecutionScreenState, t: ExecutionScreenState) -> bool {
    t.completed && pending_skipped(s, ExecutionScreenState { completed: s.completed, ..t })
}

/// Command `c` at position `i` when continuing from `start`: skipped from
/// there on, it is pending again.
pub open spec fn unskipped_state(c: CmdState, i: int, start: int) -> CmdState {
    if i >= start && c.status == CmdStatus::Skipped { CmdState { status: CmdStatus::Pending, ..c } } else { c }
}

/// `t` is `s` prepared to continue from `start`: skipped commands from there
/// on pending again, the view following the output, the run not completed
/// and no continue point; nothing else changes.
pub open spec fn reset_post(s: ExecutionScreenState, t: ExecutionScreenState, start: int) -> bool {
    &&& t == (ExecutionScreenState {
        cmd_states: t.cmd_states,
        scroll: ScrollMode::Follow,
        completed: false,
        continue_from: None,
        ..s
    })
    &&& t.cmd_states@.len() == s.cmd_states@.len()
    &&& forall|i: int| 0 <= i < s.cmd_states@.len() ==> #[trigger] t.cmd_states@[i] == unskipped_state(s.cmd_states@[i], i, start)
}

/// Output lines after appending `line` and dropping the oldest line when
/// the limit is exceeded.
pub open spec fn appended_lines(lines: Seq<String>, line: String) -> Seq<String> {
    if lines.len() + 1 > MAX_OUTPUT_LINES {
        lines.push(line).drop_first()
    } else {
        lines.push(line)
    }
}

/// The counters are far enough from `usize::MAX` for one more event.
pub open spec fn counters_have_room(s: &ExecutionScreenState) -> bool {
    s.succeeded < usize::MAX && s.failed < usize::MAX && s.skipped < usize::MAX
}

/// Everything of the screen but the state of command `index` is unchanged.
pub open spec fn others_unchanged(a: &ExecutionScreenState, b: &ExecutionScreenState, index: int) -> bool {
    &&& b.cmd_states@.len() == a.cmd_states@.len()
    &&& forall|j: int| 0 <= j < a.cmd_states@.len() && j != index ==> b.cmd_states@[j] == a.cmd_states@[j]
}

impl ExecutionScreenState {
    /// Appends an output line to command `index`, keeping at most
    /// `MAX_OUTPUT_LINES`; the first drop marks the command (and the screen)
    /// as truncated.
    fn push_output(&mut self, index: usize, line: String)
        requires
            index < old(self).cmd_states@.len(),
        ensures
            output_appended(old(self), final(self), index as int, line),
    {
        let state = &mut self.cmd_states[index];
        state.output_lines.push_back(line);
        if state.output_lines.len() > MAX_OUTPUT_LINES {
            state.output_lines.pop_front();
            if !state.truncated {
                state.truncated = true;
                self.output_truncated = true;
            }
        }
    }

    /// Applies one event from the running execution.
    pub fn process_event(&mut self, event: ExecutionEvent)
        requires
            counters_have_room(old(self)),
        ensures
            event_post(old(self), final(self), event),
    {
        match event {
            ExecutionEvent::Starting { index, command } => {
                if index < self.cmd_states.len() {
                    self.cmd_states[index].status = CmdStatus::Running;
                    self.cmd_states[index].command = command;
                    self.current_index = index;
                }
            },
            ExecutionEvent::StdoutLine { index, line } => {
                if index < self.cmd_states.len() {
                    self.push_output(index, line);
                }
            },
            ExecutionEvent::StderrLine { index, line } => {
                if index < self.cmd_states.len() {
                    let mut text = copy_str("[stderr] ");
                    push_str(&mut text, line.as_str());
                    let ghost t = text;
                    self.push_output(index, text);
                    assert(output_appended(old(self), self, index as int, t));
                }
            },
            ExecutionEvent::Finished { index, success, duration_ms, exit_code, skipped } => {
                if index < self.cmd_states.len() {
                    if skipped {
                        self.cmd_states[index].status = CmdStatus::Skipped;
                        self.skipped = self.skipped + 1;
                    } else if success {
                        self.cmd_states[index].status = CmdStatus::Success;
                        self.succeeded = self.succeeded + 1;
                    } else {
                        self.cmd_states[index].status = CmdStatus::Failure;
                        self.failed = self.failed + 1;
                    }
                    self.cmd_states[index].duration_ms = Some(duration_ms);
                    self.cmd_states[index].exit_code = exit_code;
                }
            },
            ExecutionEvent::CompletedAll { total: _, succeeded: _, failed: _, total_duration_ms } => {
                self.completed = true;
                self.total_duration_ms = Some(total_duration_ms);
            },
        }
    }

    /// Applies the events from the running execution in order; once a
    /// counter is full, the events that remain are dropped.
    pub fn process_events(&mut self, events: Vec<ExecutionEvent>)
        ensures
            events_post(*old(self), *final(self), events@),
    {
        let ghost evs = events@;
        let ghost mut trace: Seq<ExecutionScreenState> = seq![*self];
        for ev in it: events
            invariant
                it.seq() == evs,
                trace.len() == it.index() + 1,
                trace[0] == *old(self),
                trace.last() == *self,
                forall|i: int| 0 <= i < it.index() ==> #[trigger] event_step(trace[i], trace[i + 1], evs[i]),
        {
            let ghost before = *self;
            let ghost k = it.index() as int;
            assert(ev == evs[k]);
            if self.succeeded < usize::MAX && self.failed < usize::MAX && self.skipped < usize::MAX {
                self.process_event(ev);
            }
            proof {
                assert(event_step(before, *self, evs[k]));
                trace = trace.push(*self);
                assert forall|i: int| 0 <= i < k + 1 implies #[trigger] event_step(trace[i], trace[i + 1], evs[i]) by {
                    if i < k {
                        assert(trace[i] == trace.drop_last()[i]);
                        assert(trace[i + 1] == trace.drop_last()[i + 1]);
                    }
                }
            }
        }
        assert(events_post(*old(self), *self, evs));
    }
}

/// The screen `t` after the event `event` in `s`: a start marks the
/// command running; an output line is appended (the oldest dropped past
/// the limit); a finish records the outcome and counts it; the end of the
/// run marks the screen completed. An event for a command the screen does
/// not have changes nothing.
pub open spec fn event_post(s: &ExecutionScreenState, t: &ExecutionScreenState, event: ExecutionEvent) -> bool {
    match event {
        ExecutionEvent::Starting { index, command } => if index < s.cmd_states@.len() {
            &&& others_unchanged(s, t, index as int)
            &&& t.cmd_states@[index as int] == (CmdState {
                status: CmdStatus::Running,
                command,
                ..s.cmd_states@[index as int]
            })
            &&& *t == (ExecutionScreenState { cmd_states: t.cmd_states, current_index: index, ..*s })
        } else {
            *t == *s
        },
        ExecutionEvent::StdoutLine { index, line } => if index < s.cmd_states@.len() {
            output_appended(s, t, index as int, line)
        } else {
            *t == *s
        },
        ExecutionEvent::StderrLine { index, line } => if index < s.cmd_states@.len() {
            exists|text: String| text@ == "[stderr] "@ + line@ && #[trigger] output_appended(s, t, index as int, text)
        } else {
            *t == *s
        },
        ExecutionEvent::Finished { index, success, duration_ms, exit_code, skipped } => if index
            < s.cmd_states@.len() {
            &&& others_unchanged(s, t, index as int)
            &&& t.cmd_states@[index as int] == (CmdState {
                status: if skipped {
                    CmdStatus::Skipped
                } else if success {
                    CmdStatus::Success
                } else {
                    CmdStatus::Failure
                },
                duration_ms: Some(duration_ms),
                exit_code,
                ..s.cmd_states@[index as int]
            })
            &&& t.skipped == s.skipped + if skipped { 1int } else { 0int }
            &&& t.succeeded == s.succeeded + if !skipped && success { 1int } else { 0int }
            &&& t.failed == s.failed + if !skipped && !success { 1int } else { 0int }
            &&& *t == (ExecutionScreenState {
                cmd_states: t.cmd_states,
                skipped: t.skipped,
                succeeded: t.succeeded,
                failed: t.failed,
                ..*s
            })
        } else {
            *t == *s
        },
        ExecutionEvent::CompletedAll { total, succeeded, failed, total_duration_ms } => {
            *t == (ExecutionScreenState { completed: true, total_duration_ms: Some(total_duration_ms), ..*s })
        },
    }
}

/// `t` is `s` with `line` appended to the output of command `index`: past
/// the limit the oldest line is dropped and the command, and the screen,
/// are marked truncated.
pub open spec fn output_appended(s: &ExecutionScreenState, t: &ExecutionScreenState, index: int, line: String) -> bool {
    let c = s.cmd_states@[index];
    let over = c.output_lines@.len() + 1 > MAX_OUTPUT_LINES;
    &&& others_unchanged(s, t, index)
    &&& t.cmd_states@[index].output_lines@ == appended_lines(c.output_lines@, line)
    &&& t.cmd_states@[index] == (CmdState {
        output_lines: t.cmd_states@[index].output_lines,
        truncated: c.truncated || over,
        ..c
    })
    &&& *t == (ExecutionScreenState {
        cmd_states: t.cmd_states,
        output_truncated: s.output_truncated || (!c.truncated && over),
        ..*s
    })
}

/// One event applied to `s`: as `event_post` says while the counters have
/// room, else nothing changes.
pub open spec fn event_step(s: ExecutionScreenState, t: ExecutionScreenState, event: ExecutionEvent) -> bool {
    if counters_have_room(&s) { event_post(&s, &t, event) } else { t == s }
}

/// The screen `t` after the events `evs` in order from `s`: there is a
/// sequence of screens from `s` to `t` each of which is the one before
/// after the next event. Once a counter is full, the events that remain
/// change nothing.
pub open spec fn events_post(s: ExecutionScreenState, t: ExecutionScreenState, evs: Seq<ExecutionEvent>) -> bool {
    exists|trace: Seq<ExecutionScreenState>| {
        &&& trace.len() == evs.len() + 1
        &&& trace[0] == s
        &&& trace.last() == t
        &&& forall|i: int| 0 <= i < evs.len() ==> #[trigger] event_step(trace[i], trace[i + 1], evs[i])
    }
}

/// Rendered rows before command `idx`, clamped to the number of commands,
/// saturated.
pub open spec fn offset_of(states: Seq<CmdState>, idx: int) -> int {
    sat(items_before(states, if idx < states.len() { idx } else { states.len() as int }))
}

/// Total rendered rows, saturated.
pub open spec fn total_items(s: &ExecutionScreenState) -> int {
    sat(sat(items_before(s.cmd_states@, s.cmd_states@.len() as int)) + if s.completed { 2int } else { 0int })
}

/// The offset that free scrolling starts from in the current mode.
pub open spec fn scroll_base_spec(s: &ExecutionScreenState) -> int {
    match s.scroll {
        ScrollMode::Follow => s.last_offset as int,
        ScrollMode::Browse { index } => offset_of(s.cmd_states@, index as int),
        ScrollMode::Free { offset } => offset as int,
    }
}

/// The scroll mode after scrolling by `delta` rows: free, clamped to the
/// content (saturating at both ends).
pub open spec fn scroll_by_spec(s: &ExecutionScreenState, delta: int) -> ScrollMode {
    let base = scroll_base_spec(s);
    let moved = if delta < 0 {
        if base + delta < 0 { 0 } else { base + delta }
    } else {
        sat(base + delta)
    };
    let last = if total_items(s) > 0 { total_items(s) - 1 } else { 0 };
    ScrollMode::Free { offset: (if moved < last { moved } else { last }) as usize }
}

/// The scroll mode after browsing by `delta` commands: the nearest
/// non-pending command that way from the one browsed (or the current one),
/// else that command itself if it is not pending, else unchanged.
pub open spec fn browse_spec(s: &ExecutionScreenState, delta: int) -> ScrollMode {
    let from = match s.scroll {
        ScrollMode::Browse { index } => index as int,
        _ => s.current_index as int,
    };
    match nearest_non_pending_spec(s.cmd_states@, from + delta, delta) {
        Some(i) => ScrollMode::Browse { index: i },
        None => if from < s.cmd_states@.len() && s.cmd_states@[from].status != CmdStatus::Pending {
            ScrollMode::Browse { index: from as usize }
        } else {
            s.scroll
        },
    }
}

/// The scroll mode after `z`: browse and free go back to following; follow
/// goes to the top.
pub open spec fn toggle_spec(m: ScrollMode) -> ScrollMode {
    match m {
        ScrollMode::Follow => ScrollMode::Free { offset: 0 },
        _ => ScrollMode::Follow,
    }
}

impl ExecutionScreenState {
    /// The on-screen scroll offset for a content area `content_height` rows
    /// high: the tail when following, the browsed command's header, or the
    /// free offset.
    pub fn scroll_offset(&self, content_height: u16) -> (res: usize)
        ensures
            res == match self.scroll {
                ScrollMode::Follow => if total_items(self) > content_height {
                    total_items(self) - content_height
                } else {
                    0
                },
                ScrollMode::Browse { index } => offset_of(self.cmd_states@, index as int),
                ScrollMode::Free { offset } => offset as int,
            },
    {
        match self.scroll {
            ScrollMode::Follow => {
                let total = self.items_total();
                total.saturating_sub(content_height as usize)
            },
            ScrollMode::Browse { index } => self.items_offset_for_command(index),
            ScrollMode::Free { offset } => offset,
        }
    }

    /// The offset that free scrolling starts from.
    pub fn scroll_base(&self) -> (res: usize)
        ensures
            res == scroll_base_spec(self),
    {
        match self.scroll {
            ScrollMode::Follow => self.last_offset,
            ScrollMode::Browse { index } => self.items_offset_for_command(index),
            ScrollMode::Free { offset } => offset,
        }
    }

    /// The line shown under the run once it has completed.
    pub fn summary_line(&self) -> (res: Option<String>)
        ensures
            self.completed ==> (res matches Some(t) && t@ == summary_text(self)),
            !self.completed ==> res is None,
    {
        if !self.completed {
            return None;
        }
        proof {
            reveal_strlit(" ");
            reveal_strlit(" / ");
            reveal_strlit(" completed, ");
            reveal_strlit(" succeeded, ");
            reveal_strlit(" failed, ");
            reveal_strlit(" skipped");
        }
        let mut t = copy_str(" ");
        push_decimal(&mut t, (self.succeeded as u128) + (self.failed as u128) + (self.skipped as u128));
        push_str(&mut t, " / ");
        push_decimal(&mut t, self.total as u128);
        push_str(&mut t, " completed, ");
        push_decimal(&mut t, self.succeeded as u128);
        push_str(&mut t, " succeeded, ");
        push_decimal(&mut t, self.failed as u128);
        push_str(&mut t, " failed, ");
        push_decimal(&mut t, self.skipped as u128);
        push_str(&mut t, " skipped");
        if let Some(d) = self.total_duration_ms {
            let dur = format_duration(d);
            push_str(&mut t, dur.as_str());
        }
        Some(t)
    }

    /// The key hints under the output, for the state of the run.
    pub fn footer_hint(&self) -> (res: &'static str)
        ensures
            res@ == footer_text(self),
    {
        let browsing = match self.scroll {
            ScrollMode::Browse { .. } => true,
            _ => false,
        };
        if browsing {
            "[←/→] Browse  [↑/↓] Scroll  [PgUp/PgDn] Page  [z] Follow  [q] Back"
        } else if self.completed {
            "[←/→] Browse  [↑/↓] Scroll  [PgUp/PgDn] Page  [r] Re-execute  [q] Back"
        } else if self.deferring {
            "[←/→] Browse                                    Deferred commands running..."
        } else if self.paused {
            "[n] Continue  [Ctrl+C] Abort  [←/→] Browse"
        } else {
            "[s] Skip  [Ctrl+C] Abort  [←/→] Browse  [z] Follow"
        }
    }

    /// The command being browsed, if any.
    pub fn browsing_index(&self) -> (res: Option<usize>)
        ensures
            res == match self.scroll {
                ScrollMode::Browse { index } => Some(index),
                _ => None,
            },
    {
        match self.scroll {
            ScrollMode::Browse { index } => Some(index),
            _ => None,
        }
    }

    /// Switches to free scrolling, `delta` rows from the current position.
    pub fn scroll_by(&mut self, delta: isize)
        ensures
            final(self).skipped == old(self).skipped,
            final(self).completed == old(self).completed,
            final(self).scroll == scroll_by_spec(old(self), delta as int),
            final(self).cmd_states == old(self).cmd_states,
            final(self).search == old(self).search,
            final(self).last_offset == old(self).last_offset,
    {
        let total = self.items_total();
        let base = self.scroll_base();
        let moved = if delta < 0 {
            let m: usize = (0i128 - (delta as i128)) as usize;
            base.saturating_sub(m)
        } else {
            base.saturating_add(delta as usize)
        };
        let last = total.saturating_sub(1);
        let offset = if moved < last { moved } else { last };
        self.scroll = ScrollMode::Free { offset };
    }

    /// The nearest command after `from`, stepping by `delta`, whose status is
    /// not pending.
    pub fn nearest_non_pending(&self, from: usize, delta: isize) -> (res: Option<usize>)
        ensures
            res == nearest_non_pending_spec(self.cmd_states@, from + delta, delta as int),
    {
        let len = self.cmd_states.len();
        if len == 0 || delta == 0 {
            return None;
        }
        let mut pos: i128 = from as i128 + delta as i128;
        while pos >= 0 && pos < len as i128
            invariant
                len == self.cmd_states@.len(),
                delta != 0,
                nearest_non_pending_spec(self.cmd_states@, from + delta, delta as int)
                    == nearest_non_pending_spec(self.cmd_states@, pos as int, delta as int),
                pos >= -isize::MAX - 2,
                pos <= usize::MAX + isize::MAX + 1,
            decreases (if delta > 0 && 0 <= pos < len { len - pos } else if delta < 0 && pos >= 0 { pos + 1 } else { 0 }),
        {
            let i = pos as usize;
            if self.cmd_states[i].status != CmdStatus::Pending {
                return Some(i);
            }
            pos = pos + delta as i128;
        }
        None
    }

    /// Browses `delta` commands away from the one browsed (or the current one).
    pub fn browse_command(&mut self, delta: isize)
        ensures
            final(self).skipped == old(self).skipped,
            final(self).completed == old(self).completed,
            final(self).scroll == browse_spec(old(self), delta as int),
            final(self).cmd_states == old(self).cmd_states,
            final(self).search == old(self).search,
            final(self).last_offset == old(self).last_offset,
    {
        let browsing = match self.browsing_index() {
            Some(i) => i,
            None => self.current_index,
        };
        let idx = match self.nearest_non_pending(browsing, delta) {
            Some(i) => Some(i),
            None => if browsing < self.cmd_states.len() && self.cmd_states[browsing].status != CmdStatus::Pending {
                Some(browsing)
            } else {
                None
            },
        };
        if let Some(i) = idx {
            self.scroll = ScrollMode::Browse { index: i };
        }
    }
}

/// Row indices of all output lines that hold `q`.
pub open spec fn all_matches(states: Seq<CmdState>, q: Seq<char>) -> Seq<usize> {
    matches_upto(states, q, states.len() as int)
}

/// Scroll mode and last offset after bringing match row `target` into view
/// (a view `vis` rows high starting at `top`); unchanged if already visible.
pub open spec fn scroll_to_target(scroll: ScrollMode, top: int, vis_raw: int, target: int) -> (ScrollMode, int) {
    let vis = if vis_raw < 1 { 1 } else { vis_raw };
    let bottom = if sat(top + vis) >= 1 { sat(top + vis) - 1 } else { 0 };
    if top <= target <= bottom {
        (scroll, top)
    } else {
        let new_offset = if target < top {
            target
        } else if target >= vis - 1 {
            target - (vis - 1)
        } else {
            0
        };
        (ScrollMode::Free { offset: new_offset as usize }, new_offset)
    }
}

impl ExecutionScreenState {
    /// Row indices of all output lines that contain `query`.
    pub fn collect_matches(&self, query: &str) -> (res: Vec<usize>)
        ensures
            res@ == all_matches(self.cmd_states@, query@),
    {
        let mut v: Vec<usize> = Vec::new();
        let mut i: usize = 0;
        while i < self.cmd_states.len()
            invariant
                i <= self.cmd_states@.len(),
                v@ == matches_upto(self.cmd_states@, query@, i as int),
            decreases self.cmd_states@.len() - i,
        {
            let state = &self.cmd_states[i];
            let ghost base = v@;
            let mut li: usize = 0;
            while li < state.output_lines.len()
                invariant
                    i < self.cmd_states@.len(),
                    state == self.cmd_states@[i as int],
                    li <= state.output_lines@.len(),
                    v@ == base + matches_in(self.cmd_states@, query@, i as int, li as int),
                decreases state.output_lines@.len() - li,
            {
                if str_contains(state.output_lines[li].as_str(), query) {
                    let idx = self.flat_output_index(i, li);
                    v.push(idx);
                    assert(base + matches_in(self.cmd_states@, query@, i as int, li + 1)
                        =~= (base + matches_in(self.cmd_states@, query@, i as int, li as int)).push(idx));
                } else {
                    assert(base + matches_in(self.cmd_states@, query@, i as int, li + 1)
                        =~= base + matches_in(self.cmd_states@, query@, i as int, li as int));
                }
                li = li + 1;
            }
            assert(v@ =~= matches_upto(self.cmd_states@, query@, i + 1));
            i = i + 1;
        }
        v
    }

    /// Scrolls so that match `match_idx` is visible, if there is such a match
    /// and it is not already visible.
    pub fn scroll_to_match(&mut self, match_idx: usize)
        ensures
            final(self).skipped == old(self).skipped,
            final(self).completed == old(self).completed,
            final(self).cmd_states == old(self).cmd_states,
            final(self).search == old(self).search,
            match old(self).search {
                SearchState::Active { matches, .. } => if match_idx < matches@.len() {
                    (final(self).scroll, final(self).last_offset as int) == scroll_to_target(
                        old(self).scroll,
                        old(self).last_offset as int,
                        old(self).visible_height as int,
                        matches@[match_idx as int] as int,
                    )
                } else {
                    final(self).scroll == old(self).scroll && final(self).last_offset == old(self).last_offset
                },
                SearchState::Inactive => final(self).scroll == old(self).scroll && final(self).last_offset
                    == old(self).last_offset,
            },
    {
        let target = match &self.search {
            SearchState::Active { matches, .. } => if match_idx < matches.len() {
                Some(matches[match_idx])
            } else {
                None
            },
            SearchState::Inactive => None,
        };
        let target = match target {
            Some(t) => t,
            None => return,
        };
        let vis = if self.visible_height < 1 { 1 } else { self.visible_height };
        let top = self.last_offset;
        let bottom = top.saturating_add(vis).saturating_sub(1);
        if target >= top && target <= bottom {
            return;
        }
        let new_offset = if target < top { target } else { target.saturating_sub(vis - 1) };
        self.scroll = ScrollMode::Free { offset: new_offset };
        self.last_offset = new_offset;
    }

    /// Recomputes the matches of the search query (none for an empty query),
    /// selects the first, and scrolls to it.
    pub fn refresh_matches(&mut self)
        ensures
            final(self).skipped == old(self).skipped,
            final(self).completed == old(self).completed,
            final(self).cmd_states == old(self).cmd_states,
            match old(self).search {
                SearchState::Active { input, prev_scroll, prev_offset, .. } => {
                    &&& final(self).search matches SearchState::Active { input: i2, matches: m2, current: c2, prev_scroll: ps2, prev_offset: po2 }
                        && i2 == input && ps2 == prev_scroll && po2 == prev_offset && c2 == 0
                        && m2@ == (if input.content@.len() == 0 {
                            Seq::<usize>::empty()
                        } else {
                            all_matches(old(self).cmd_states@, input.content@)
                        })
                    &&& if input.content@.len() == 0 || all_matches(old(self).cmd_states@, input.content@).len() == 0 {
                        final(self).scroll == old(self).scroll && final(self).last_offset == old(self).last_offset
                    } else {
                        (final(self).scroll, final(self).last_offset as int) == scroll_to_target(
                            old(self).scroll,
                            old(self).last_offset as int,
                            old(self).visible_height as int,
                            all_matches(old(self).cmd_states@, input.content@)[0] as int,
                        )
                    }
                },
                SearchState::Inactive => *final(self) == *old(self),
            },
    {
        let query = match &self.search {
            SearchState::Active { input, .. } => input.content.clone(),
            SearchState::Inactive => return,
        };
        let new_matches = if query.as_str().is_empty() {
            Vec::new()
        } else {
            self.collect_matches(query.as_str())
        };
        let has_matches = new_matches.len() > 0;
        match &mut self.search {
            SearchState::Active { matches, current, .. } => {
                *matches = new_matches;
                *current = 0;
            },
            SearchState::Inactive => {},
        }
        if has_matches {
            self.scroll_to_match(0);
        }
    }
}

/// Keys that edit the search text.
pub open spec fn is_edit_key(code: KeyCode) -> bool {
    match code {
        KeyCode::Char(_) | KeyCode::Backspace | KeyCode::Delete | KeyCode::Left | KeyCode::Right | KeyCode::Home
        | KeyCode::End => true,
        _ => false,
    }
}

/// The action a key gives on the execution screen outside search mode.
pub open spec fn exec_key_action(s: &ExecutionScreenState, key: KeyEvent) -> AppAction {
    match key.code {
        KeyCode::Char('q') => AppAction::BackToMain,
        KeyCode::Char('s') => if !s.completed && !s.paused && !s.deferring { AppAction::Pause } else { AppAction::Nothing },
        KeyCode::Char('n') => if s.paused && !s.completed && !s.deferring { AppAction::Continue } else { AppAction::Nothing },
        KeyCode::Char('c') => if key.ctrl && !s.completed && !s.deferring { AppAction::Abort } else { AppAction::Nothing },
        KeyCode::Char('r') => if s.completed { AppAction::ReExec } else { AppAction::Nothing },
        _ => AppAction::Nothing,
    }
}

/// The scroll mode a key leaves outside search mode.
pub open spec fn exec_key_scroll(s: &ExecutionScreenState, code: KeyCode) -> ScrollMode {
    match code {
        KeyCode::Left => browse_spec(s, -1),
        KeyCode::Right => browse_spec(s, 1),
        KeyCode::Up | KeyCode::Char('k') => scroll_by_spec(s, -1),
        KeyCode::Down | KeyCode::Char('j') => scroll_by_spec(s, 1),
        KeyCode::PageUp => scroll_by_spec(s, -(PAGE_SIZE as int)),
        KeyCode::PageDown => scroll_by_spec(s, PAGE_SIZE as int),
        KeyCode::Char('z') => toggle_spec(s.scroll),
        _ => s.scroll,
    }
}

/// Same kind of action (actions carry no data here).
pub open spec fn same_action(a: AppAction, b: AppAction) -> bool {
    match (a, b) {
        (AppAction::Nothing, AppAction::Nothing) => true,
        (AppAction::BackToMain, AppAction::BackToMain) => true,
        (AppAction::Pause, AppAction::Pause) => true,
        (AppAction::Continue, AppAction::Continue) => true,
        (AppAction::Abort, AppAction::Abort) => true,
        (AppAction::ReExec, AppAction::ReExec) => true,
        _ => false,
    }
}

impl ExecutionScreenState {
    /// Handles a key while the search bar is open: editing keys change the
    /// query (recomputing the matches when it changed), Up/Down step through
    /// the matches, Enter closes the bar, Esc closes it and restores the
    /// scroll position from before the search.
    pub fn handle_search_key(&mut self, key: KeyEvent) -> (res: AppAction)
        requires
            old(self).search is Active,
        ensures
            final(self).skipped == old(self).skipped,
            final(self).completed == old(self).completed,
            res is Nothing,
            final(self).cmd_states == old(self).cmd_states,
            search_key_post(old(self), final(self), key),
    {
        let before = match &self.search {
            SearchState::Active { input, .. } => input.content.clone(),
            SearchState::Inactive => return AppAction::Nothing,
        };
        let is_edit = match key.code {
            KeyCode::Char(_) | KeyCode::Backspace | KeyCode::Delete | KeyCode::Left | KeyCode::Right | KeyCode::Home
            | KeyCode::End => true,
            _ => false,
        };
        if is_edit {
            match &mut self.search {
                SearchState::Active { input, .. } => handle_text_input(input, key),
                SearchState::Inactive => {},
            }
        }
        let changed = match &self.search {
            SearchState::Active { input, .. } => !(input.content == before),
            SearchState::Inactive => false,
        };
        if changed {
            self.refresh_matches();
            return AppAction::Nothing;
        }
        match key.code {
            KeyCode::Enter => {
                self.search = SearchState::Inactive;
            },
            KeyCode::Up => {
                let mut target: Option<usize> = None;
                match &mut self.search {
                    SearchState::Active { current, .. } => {
                        if *current > 0 {
                            *current = *current - 1;
                            target = Some(*current);
                        }
                    },
                    SearchState::Inactive => {},
                }
                if let Some(t) = target {
                    self.scroll_to_match(t);
                }
            },
            KeyCode::Down => {
                let mut target: Option<usize> = None;
                match &mut self.search {
                    SearchState::Active { current, matches, .. } => {
                        if *current < matches.len() && *current + 1 < matches.len() {
                            *current = *current + 1;
                            target = Some(*current);
                        }
                    },
                    SearchState::Inactive => {},
                }
                if let Some(t) = target {
                    self.scroll_to_match(t);
                }
            },
            KeyCode::Esc => {
                let (prev_scroll, prev_offset) = match &self.search {
                    SearchState::Active { prev_scroll, prev_offset, .. } => (*prev_scroll, *prev_offset),
                    SearchState::Inactive => (ScrollMode::Follow, 0),
                };
                self.search = SearchState::Inactive;
                self.scroll = prev_scroll;
                self.last_offset = prev_offset;
            },
            _ => {},
        }
        AppAction::Nothing
    }

    /// Handles a key on the execution screen.
    pub fn handle_key(&mut self, key: KeyEvent) -> (res: AppAction)
        ensures
            exec_key_post(old(self), final(self), key, res),
    {
        if let SearchState::Active { .. } = &self.search {
            return self.handle_search_key(key);
        }
        match key.code {
            KeyCode::Char('q') => AppAction::BackToMain,
            KeyCode::Char('s') => if !self.completed && !self.paused && !self.deferring {
                AppAction::Pause
            } else {
                AppAction::Nothing
            },
            KeyCode::Char('n') => if self.paused && !self.completed && !self.deferring {
                AppAction::Continue
            } else {
                AppAction::Nothing
            },
            KeyCode::Char('c') => if key.ctrl && !self.completed && !self.deferring {
                AppAction::Abort
            } else {
                AppAction::Nothing
            },
            KeyCode::Char('r') => if self.completed {
                AppAction::ReExec
            } else {
                AppAction::Nothing
            },
            KeyCode::Char('/') => {
                self.search = SearchState::Active {
                    input: TextInput::new(String::new()),
                    matches: Vec::new(),
                    current: 0,
                    prev_scroll: self.scroll,
                    prev_offset: self.last_offset,
                };
                AppAction::Nothing
            },
            KeyCode::Left => {
                self.browse_command(-1);
                AppAction::Nothing
            },
            KeyCode::Right => {
                self.browse_command(1);
                AppAction::Nothing
            },
            KeyCode::Up | KeyCode::Char('k') => {
                self.scroll_by(-1);
                AppAction::Nothing
            },
            KeyCode::Down | KeyCode::Char('j') => {
                self.scroll_by(1);
                AppAction::Nothing
            },
            KeyCode::PageUp => {
                self.scroll_by(-20);
                AppAction::Nothing
            },
            KeyCode::PageDown => {
                self.scroll_by(20);
                AppAction::Nothing
            },
            KeyCode::Char('z') => {
                self.scroll = match self.scroll {
                    ScrollMode::Follow => ScrollMode::Free { offset: 0 },
                    _ => ScrollMode::Follow,
                };
                AppAction::Nothing
            },
            _ => AppAction::Nothing,
        }
    }
}

/// A command's elapsed time as shown after it: ` (S.CCs)` with seconds and
/// two digits of hundredths.
pub open spec fn duration_text(d: nat) -> Seq<char> {
    let cs = (d % 1000) / 10;
    " ("@ + decimal(d / 1000) + "."@ + (if cs < 10 { "0"@ + decimal(cs) } else { decimal(cs) }) + "s)"@
}

/// Formats a duration in milliseconds as ` (S.CCs)`.
pub fn format_duration(d: u128) -> (res: String)
    ensures
        res@ == duration_text(d as nat),
{
    let mut s = copy_str(" (");
    push_decimal(&mut s, d / 1000);
    push_str(&mut s, ".");
    let cs = (d % 1000) / 10;
    if cs < 10 {
        push_str(&mut s, "0");
    }
    push_decimal(&mut s, cs);
    push_str(&mut s, "s)");
    assert(s@ =~= duration_text(d as nat));
    s
}

} // verus!
