//! What the execution screen keeps over a whole batch of execution events,
//! and over skipping the rest of a run and then continuing it.

use vstd::prelude::*;
use crate::executor::ExecutionEvent;
use crate::ui::execution_screen::{
    appended_lines, counters_have_room, event_step, events_post, first_pending, output_appended, remaining_skipped,
    reset_post, skipped_state, unskipped_state, CmdState, CmdStatus, ExecutionScreenState, MAX_OUTPUT_LINES,
};

verus! {

/// The first pending command among the first `n` is pending and comes
/// before every other pending one; without one, none of them is pending.
proof fn lemma_first_pending(states: Seq<CmdState>, n: int)
    requires
        0 <= n <= states.len() <= usize::MAX,
    ensures
        match first_pending(states, n) {
            Some(c) => {
                &&& c < n
                &&& states[c as int].status == CmdStatus::Pending
                &&& forall|j: int| 0 <= j < c ==> states[j].status != CmdStatus::Pending
            },
            None => forall|j: int| 0 <= j < n ==> states[j].status != CmdStatus::Pending,
        },
    decreases n,
{
    if n > 0 {
        lemma_first_pending(states, n - 1);
    }
}

/// Skipping the rest of a run in which no command was skipped, then
/// continuing from the point that records, gives every command back its
/// state (the skipped ones are pending again, their output kept); the run
/// is no longer completed and has no continue point.
pub proof fn lemma_skip_then_continue_restores(s: ExecutionScreenState, m: ExecutionScreenState, r: ExecutionScreenState)
    requires
        s.continue_from is None,
        forall|i: int| 0 <= i < s.cmd_states@.len() ==> (#[trigger] s.cmd_states@[i]).status != CmdStatus::Skipped,
        remaining_skipped(s, m),
        m.continue_from is Some,
        reset_post(m, r, m.continue_from->0 as int),
    ensures
        r.cmd_states@ == s.cmd_states@,
        !r.completed,
        r.continue_from is None,
        r.set_name == s.set_name,
        r.total == s.total,
        r.succeeded == s.succeeded,
        r.failed == s.failed,
        r.current_index == s.current_index,
        r.output_truncated == s.output_truncated,
{
    let n = s.cmd_states@.len() as int;
    let c = m.continue_from->0 as int;
    assert(s.cmd_states@.len() == s.cmd_states.len());
    lemma_first_pending(s.cmd_states@, n);
    assert forall|i: int| 0 <= i < n implies r.cmd_states@[i] == s.cmd_states@[i] by {
        assert(m.cmd_states@[i] == skipped_state(s.cmd_states@[i]));
        assert(r.cmd_states@[i] == unskipped_state(m.cmd_states@[i], i, c));
        if i < c {
            assert(s.cmd_states@[i].status != CmdStatus::Pending);
        }
    }
    assert(r.cmd_states@ =~= s.cmd_states@);
}

/// The command an event is about; none for the end of the run.
pub open spec fn event_index(e: ExecutionEvent) -> Option<usize> {
    match e {
        ExecutionEvent::Starting { index, .. } => Some(index),
        ExecutionEvent::StdoutLine { index, .. } => Some(index),
        ExecutionEvent::StderrLine { index, .. } => Some(index),
        ExecutionEvent::Finished { index, .. } => Some(index),
        ExecutionEvent::CompletedAll { .. } => None,
    }
}

/// The event is about a command the screen `s` does not have.
pub open spec fn out_of_range(s: &ExecutionScreenState, e: ExecutionEvent) -> bool {
    match event_index(e) {
        Some(i) => i >= s.cmd_states@.len(),
        None => false,
    }
}

/// The event is a finish marked skipped.
pub open spec fn is_skip_finish(e: ExecutionEvent) -> bool {
    match e {
        ExecutionEvent::Finished { skipped, .. } => skipped,
        _ => false,
    }
}

/// Every command's output is within `MAX_OUTPUT_LINES` lines.
pub open spec fn lines_fit(s: &ExecutionScreenState) -> bool {
    forall|i: int| 0 <= i < s.cmd_states@.len() ==> (#[trigger] s.cmd_states@[i]).output_lines@.len() <= MAX_OUTPUT_LINES
}

/// The line an event adds to the output of command `i`, as text: a stdout
/// line as sent, a stderr line prefixed with `[stderr] `.
pub open spec fn added_line(e: ExecutionEvent, i: int) -> Option<Seq<char>> {
    match e {
        ExecutionEvent::StdoutLine { index, line } => if index == i { Some(line@) } else { None },
        ExecutionEvent::StderrLine { index, line } => if index == i { Some("[stderr] "@ + line@) } else { None },
        _ => None,
    }
}

/// The lines the events add to the output of command `i`, in order.
pub open spec fn added_lines(evs: Seq<ExecutionEvent>, i: int) -> Seq<Seq<char>>
    decreases evs.len(),
{
    if evs.len() == 0 {
        Seq::empty()
    } else {
        let rest = added_lines(evs.drop_last(), i);
        match added_line(evs.last(), i) {
            Some(l) => rest.push(l),
            None => rest,
        }
    }
}

/// The last `n` entries of `x`, or all of them when there are fewer.
pub open spec fn last_n(x: Seq<Seq<char>>, n: int) -> Seq<Seq<char>> {
    if x.len() > n { x.skip(x.len() - n) } else { x }
}

/// A command's output as text.
pub open spec fn output_text(c: CmdState) -> Seq<Seq<char>> {
    c.output_lines@.map_values(|l: String| l@)
}

/// What a batch of events from `s` to `t` keeps: the commands, the set
/// name, the total and the continue point; the skipped count grows only
/// through finishes marked skipped, and no counter by more than one an
/// event; outputs within the limit stay within it; truncation marks stay,
/// and a command newly truncated marks the screen; events only about
/// commands the screen does not have change nothing.
pub open spec fn batch_kept(s: ExecutionScreenState, t: ExecutionScreenState, evs: Seq<ExecutionEvent>) -> bool {
    &&& t.cmd_states@.len() == s.cmd_states@.len()
    &&& t.set_name == s.set_name
    &&& t.total == s.total
    &&& t.continue_from == s.continue_from
    &&& s.skipped <= t.skipped <= s.skipped + evs.len()
    &&& (forall|k: int| 0 <= k < evs.len() ==> !is_skip_finish(#[trigger] evs[k])) ==> t.skipped == s.skipped
    &&& t.succeeded <= s.succeeded + evs.len()
    &&& t.failed <= s.failed + evs.len()
    &&& lines_fit(&s) ==> lines_fit(&t)
    &&& s.output_truncated ==> t.output_truncated
    &&& forall|i: int| 0 <= i < s.cmd_states@.len() ==> {
        &&& (s.cmd_states@[i].truncated ==> (#[trigger] t.cmd_states@[i]).truncated)
        &&& (t.cmd_states@[i].truncated && !s.cmd_states@[i].truncated ==> t.output_truncated)
    }
    &&& (forall|k: int| 0 <= k < evs.len() ==> out_of_range(&s, #[trigger] evs[k])) ==> t == s
}

/// The outputs after a batch of events from `s` to `t` in which every event
/// was applied: each command keeps the last `MAX_OUTPUT_LINES` of its old
/// output followed by the lines the batch sent it, and is marked truncated
/// exactly when it was, or when those lines together exceed the limit.
pub open spec fn batch_output(s: ExecutionScreenState, t: ExecutionScreenState, evs: Seq<ExecutionEvent>) -> bool {
    forall|i: int| 0 <= i < s.cmd_states@.len() ==> {
        let all = output_text(s.cmd_states@[i]) + added_lines(evs, i);
        &&& output_text(#[trigger] t.cmd_states@[i]) == last_n(all, MAX_OUTPUT_LINES as int)
        &&& t.cmd_states@[i].truncated == (s.cmd_states@[i].truncated || all.len() > MAX_OUTPUT_LINES)
    }
}

/// Appending `l` to the last `n` entries of `x` and keeping the last `n`
/// keeps the last `n` entries of `x` followed by `l`.
proof fn lemma_last_n_push(x: Seq<Seq<char>>, l: Seq<char>, n: int)
    requires
        n >= 1,
    ensures
        last_n(last_n(x, n).push(l), n) == last_n(x.push(l), n),
{
    if x.len() > n {
        assert(last_n(x, n).push(l).skip(1) =~= x.push(l).skip(x.len() + 1 - n));
    } else if x.len() == n {
        assert(x.push(l).skip(1) =~= x.push(l).skip(x.len() + 1 - n));
    }
}

/// One event, as the screen takes it: the facts a batch is built from.
proof fn lemma_event_step(s: ExecutionScreenState, t: ExecutionScreenState, e: ExecutionEvent)
    requires
        event_step(s, t, e),
    ensures
        t.cmd_states@.len() == s.cmd_states@.len(),
        t.set_name == s.set_name,
        t.total == s.total,
        t.continue_from == s.continue_from,
        t.skipped == s.skipped + if counters_have_room(&s) && is_skip_finish(e) && !out_of_range(&s, e) {
            1int
        } else {
            0int
        },
        t.succeeded <= s.succeeded + 1,
        t.failed <= s.failed + 1,
        s.output_truncated ==> t.output_truncated,
        out_of_range(&s, e) ==> t == s,
        forall|i: int| 0 <= i < s.cmd_states@.len() ==> {
            let c = s.cmd_states@[i];
            let d = #[trigger] t.cmd_states@[i];
            &&& (c.truncated ==> d.truncated)
            &&& (d.truncated && !c.truncated ==> t.output_truncated)
            &&& (c.output_lines@.len() <= MAX_OUTPUT_LINES ==> d.output_lines@.len() <= MAX_OUTPUT_LINES)
            &&& (counters_have_room(&s) && c.output_lines@.len() <= MAX_OUTPUT_LINES) ==> {
                &&& output_text(d) == match added_line(e, i) {
                    Some(l) => last_n(output_text(c).push(l), MAX_OUTPUT_LINES as int),
                    None => output_text(c),
                }
                &&& d.truncated == (c.truncated || (added_line(e, i) is Some && c.output_lines@.len() + 1
                    > MAX_OUTPUT_LINES))
            }
        },
{
    if counters_have_room(&s) {
        match e {
            ExecutionEvent::StdoutLine { index, line } => {
                if index < s.cmd_states@.len() {
                    lemma_appended(s, t, index as int, line);
                }
            },
            ExecutionEvent::StderrLine { index, line } => {
                if index < s.cmd_states@.len() {
                    let text = choose|text: String| text@ == "[stderr] "@ + line@ && #[trigger] output_appended(
                        &s,
                        &t,
                        index as int,
                        text,
                    );
                    lemma_appended(s, t, index as int, text);
                }
            },
            _ => {},
        }
    }
}

/// One line appended to command `index`: its text and its truncation.
proof fn lemma_appended(s: ExecutionScreenState, t: ExecutionScreenState, index: int, line: String)
    requires
        0 <= index < s.cmd_states@.len(),
        output_appended(&s, &t, index, line),
    ensures
        ({
            let c = s.cmd_states@[index];
            let d = t.cmd_states@[index];
            c.output_lines@.len() <= MAX_OUTPUT_LINES ==> d.output_lines@.len() <= MAX_OUTPUT_LINES
                && output_text(d) == last_n(output_text(c).push(line@), MAX_OUTPUT_LINES as int)
        }),
{
    let c = s.cmd_states@[index];
    let d = t.cmd_states@[index];
    assert(output_text(c).push(line@).len() == c.output_lines@.len() + 1);
    if c.output_lines@.len() + 1 > MAX_OUTPUT_LINES {
        assert(output_text(d) =~= output_text(c).push(line@).skip(1));
    } else {
        assert(output_text(d) =~= output_text(c).push(line@));
    }
}

/// The counters of `s` have room for every one of `n` events.
pub open spec fn room_for(s: ExecutionScreenState, n: int) -> bool {
    s.succeeded + n < usize::MAX && s.failed + n < usize::MAX && s.skipped + n < usize::MAX
}

/// A batch's trace up to its `n`th screen.
proof fn lemma_trace_prefix(trace: Seq<ExecutionScreenState>, evs: Seq<ExecutionEvent>, n: int)
    requires
        trace.len() == evs.len() + 1,
        forall|k: int| 0 <= k < evs.len() ==> #[trigger] event_step(trace[k], trace[k + 1], evs[k]),
        0 <= n <= evs.len(),
    ensures
        batch_kept(trace[0], trace[n], evs.take(n)),
        room_for(trace[0], evs.len() as int) && lines_fit(&trace[0]) ==> batch_output(trace[0], trace[n], evs.take(n)),
    decreases n,
{
    let s = trace[0];
    if n == 0 {
        assert(evs.take(0) =~= Seq::<ExecutionEvent>::empty());
        if lines_fit(&s) {
            assert forall|i: int| 0 <= i < s.cmd_states@.len() implies {
                let all = output_text(s.cmd_states@[i]) + added_lines(evs.take(0), i);
                &&& output_text(#[trigger] s.cmd_states@[i]) == last_n(all, MAX_OUTPUT_LINES as int)
                &&& s.cmd_states@[i].truncated == (s.cmd_states@[i].truncated || all.len() > MAX_OUTPUT_LINES)
            } by {
                let x = output_text(s.cmd_states@[i]);
                assert(x + added_lines(evs.take(0), i) =~= x);
            }
        }
    } else {
        lemma_trace_prefix(trace, evs, n - 1);
        let u = trace[n - 1];
        let t = trace[n];
        let e = evs[n - 1];
        assert(event_step(trace[n - 1], trace[n - 1 + 1], evs[n - 1]));
        lemma_event_step(u, t, e);
        let pre = evs.take(n - 1);
        let cur = evs.take(n);
        assert(cur.drop_last() =~= pre);
        assert(cur.last() == e);
        assert(cur[n - 1] == e);
        assert forall|k: int| 0 <= k < n - 1 implies #[trigger] pre[k] == cur[k] by {}
        if forall|k: int| 0 <= k < cur.len() ==> !is_skip_finish(#[trigger] cur[k]) {
            assert forall|k: int| 0 <= k < pre.len() implies !is_skip_finish(#[trigger] pre[k]) by {
                assert(pre[k] == cur[k]);
            }
        }
        if forall|k: int| 0 <= k < cur.len() ==> out_of_range(&s, #[trigger] cur[k]) {
            assert forall|k: int| 0 <= k < pre.len() implies out_of_range(&s, #[trigger] pre[k]) by {
                assert(pre[k] == cur[k]);
            }
        }
        if lines_fit(&s) {
            assert(lines_fit(&u));
            assert forall|i: int| 0 <= i < t.cmd_states@.len() implies (#[trigger] t.cmd_states@[i]).output_lines@.len()
                <= MAX_OUTPUT_LINES by {
                assert(u.cmd_states@[i].output_lines@.len() <= MAX_OUTPUT_LINES);
            }
        }
        if room_for(s, evs.len() as int) && lines_fit(&s) {
            assert(counters_have_room(&u));
            assert forall|i: int| 0 <= i < s.cmd_states@.len() implies {
                let all = output_text(s.cmd_states@[i]) + added_lines(cur, i);
                &&& output_text(#[trigger] t.cmd_states@[i]) == last_n(all, MAX_OUTPUT_LINES as int)
                &&& t.cmd_states@[i].truncated == (s.cmd_states@[i].truncated || all.len() > MAX_OUTPUT_LINES)
            } by {
                let x0 = output_text(s.cmd_states@[i]);
                let x = x0 + added_lines(pre, i);
                assert(output_text(u.cmd_states@[i]) == last_n(x, MAX_OUTPUT_LINES as int));
                assert(u.cmd_states@[i].output_lines@.len() <= MAX_OUTPUT_LINES);
                assert(output_text(u.cmd_states@[i]).len() == u.cmd_states@[i].output_lines@.len());
                match added_line(e, i) {
                    Some(l) => {
                        assert(added_lines(cur, i) == added_lines(pre, i).push(l));
                        assert(x0 + added_lines(pre, i).push(l) =~= x.push(l));
                        lemma_last_n_push(x, l, MAX_OUTPUT_LINES as int);
                    },
                    None => {
                        assert(added_lines(cur, i) == added_lines(pre, i));
                    },
                }
            }
        }
    }
}

/// Draining a batch of events keeps the screen's commands, set name, total
/// and continue point. The skipped count grows only through finishes marked
/// skipped, and no counter by more than one an event. Outputs within
/// `MAX_OUTPUT_LINES` stay within it; a command or screen marked truncated
/// stays so, and a command newly truncated marks the screen. Events only
/// about commands the screen does not have change nothing.
pub proof fn lemma_events_keep(s: ExecutionScreenState, t: ExecutionScreenState, evs: Seq<ExecutionEvent>)
    requires
        events_post(s, t, evs),
    ensures
        batch_kept(s, t, evs),
{
    let trace = choose|trace: Seq<ExecutionScreenState>| {
        &&& trace.len() == evs.len() + 1
        &&& trace[0] == s
        &&& trace.last() == t
        &&& forall|i: int| 0 <= i < evs.len() ==> #[trigger] event_step(trace[i], trace[i + 1], evs[i])
    };
    lemma_trace_prefix(trace, evs, evs.len() as int);
    assert(evs.take(evs.len() as int) =~= evs);
}

/// With room in the counters for every event and every output within
/// `MAX_OUTPUT_LINES`, draining a batch leaves each command with the last
/// `MAX_OUTPUT_LINES` lines of its old output followed by the lines the
/// batch sent it (stderr lines prefixed with `[stderr] `), marked truncated
/// exactly when it was or when those lines together exceed the limit.
pub proof fn lemma_events_output(s: ExecutionScreenState, t: ExecutionScreenState, evs: Seq<ExecutionEvent>)
    requires
        events_post(s, t, evs),
        room_for(s, evs.len() as int),
        lines_fit(&s),
    ensures
        batch_output(s, t, evs),
{
    let trace = choose|trace: Seq<ExecutionScreenState>| {
        &&& trace.len() == evs.len() + 1
        &&& trace[0] == s
        &&& trace.last() == t
        &&& forall|i: int| 0 <= i < evs.len() ==> #[trigger] event_step(trace[i], trace[i + 1], evs[i])
    };
    lemma_trace_prefix(trace, evs, evs.len() as int);
    assert(evs.take(evs.len() as int) =~= evs);
}

} // verus!
