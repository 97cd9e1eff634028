//! The rows of the execution screen's output list: for each command its
//! header, the truncation marker, its output lines and the rule after it;
//! then the totals of a completed run.

use vstd::prelude::*;
use crate::text::{chars_of, copy_str, occurs_at, occurs_at_exec, push_str};
use crate::ui::execution_screen::{header_line, header_text, summary_text, CmdState, ExecutionScreenState};

verus! {

/// A row of the output list.
#[derive(Debug)]
pub enum OutputRow {
    /// The header of command `index`.
    Header { index: usize, text: String },
    /// The marker above output whose oldest lines were dropped.
    Truncated,
    /// An output line, indented; `stderr` when it came from standard error.
    Line { text: String, stderr: bool },
    /// An empty row.
    Blank,
    /// The rule between two commands; `thick` before the first deferred one.
    Separator { thick: bool },
    /// The hint shown when the set has no command.
    NoCommands,
    /// The totals of a completed run.
    Summary { text: String },
}

/// A row as a value.
pub enum RowView {
    Header(int, Seq<char>),
    Truncated,
    Line(Seq<char>, bool),
    Blank,
    Separator(bool),
    NoCommands,
    Summary(Seq<char>),
}

/// The value of a row.
pub open spec fn row_view(r: OutputRow) -> RowView {
    match r {
        OutputRow::Header { index, text } => RowView::Header(index as int, text@),
        OutputRow::Truncated => RowView::Truncated,
        OutputRow::Line { text, stderr } => RowView::Line(text@, stderr),
        OutputRow::Blank => RowView::Blank,
        OutputRow::Separator { thick } => RowView::Separator(thick),
        OutputRow::NoCommands => RowView::NoCommands,
        OutputRow::Summary { text } => RowView::Summary(text@),
    }
}

/// The values of a list of rows.
pub open spec fn rows_view(rows: Seq<OutputRow>) -> Seq<RowView> {
    rows.map_values(|r: OutputRow| row_view(r))
}

/// The marker of standard-error lines.
pub open spec fn stderr_mark() -> Seq<char> {
    seq!['[', 's', 't', 'd', 'e', 'r', 'r', ']']
}

/// The row of output line `l`: indented by three spaces, flagged when it
/// came from standard error.
pub open spec fn line_row(l: Seq<char>) -> RowView {
    RowView::Line(seq![' ', ' ', ' '] + l, occurs_at(l, stderr_mark(), 0))
}

/// Command `i` is the last normal command before the deferred ones.
pub open spec fn defer_boundary(states: Seq<CmdState>, i: int) -> bool {
    i + 1 < states.len() && !states[i].defer && states[i + 1].defer
}

/// The rows of command `i`: its header, the marker when its output was cut,
/// its output lines, and, unless it is the last, a rule (thick, after an
/// empty row, before the first deferred command).
pub open spec fn cmd_rows(states: Seq<CmdState>, i: int) -> Seq<RowView> {
    let c = states[i];
    seq![RowView::Header(i, header_text(c))]
        + (if c.truncated { seq![RowView::Truncated] } else { Seq::empty() })
        + c.output_lines@.map_values(|l: String| line_row(l@))
        + (if i + 1 < states.len() {
            (if defer_boundary(states, i) { seq![RowView::Blank] } else { Seq::empty() })
                + seq![RowView::Separator(defer_boundary(states, i))]
        } else {
            Seq::empty()
        })
}

/// The rows of commands `0..n`.
pub open spec fn rows_upto(states: Seq<CmdState>, n: int) -> Seq<RowView>
    decreases n,
{
    if n <= 0 {
        Seq::empty()
    } else {
        rows_upto(states, n - 1) + cmd_rows(states, n - 1)
    }
}

/// The rows of the output list: those of every command, the hint when there
/// is none, and an empty row and the totals once the run is complete.
pub open spec fn output_rows_spec(s: &ExecutionScreenState) -> Seq<RowView> {
    let n = s.cmd_states@.len() as int;
    rows_upto(s.cmd_states@, n)
        + (if n == 0 { seq![RowView::NoCommands] } else { Seq::empty() })
        + (if s.completed { seq![RowView::Blank, RowView::Summary(summary_text(s))] } else { Seq::empty() })
}

/// Appends the rows of command `i` to `rows`.
fn push_cmd_rows(rows: &mut Vec<OutputRow>, states: &Vec<CmdState>, i: usize)
    requires
        i < states@.len(),
    ensures
        rows_view(final(rows)@) == rows_view(old(rows)@) + cmd_rows(states@, i as int),
{
    let ghost start = rows_view(rows@);
    let c = &states[i];
    rows.push(OutputRow::Header { index: i, text: header_line(c) });
    if c.truncated {
        rows.push(OutputRow::Truncated);
    }
    let ghost before_lines = rows_view(rows@);
    proof {
        assert(before_lines =~= start + seq![RowView::Header(i as int, header_text(*c))]
            + (if c.truncated { seq![RowView::Truncated] } else { Seq::empty() }));
    }
    let ghost lines = c.output_lines@.map_values(|l: String| line_row(l@));
    let mark = chars_of("[stderr]");
    proof {
        reveal_strlit("[stderr]");
        reveal_strlit("   ");
        assert(mark@ =~= stderr_mark());
    }
    let mut j: usize = 0;
    while j < c.output_lines.len()
        invariant
            i < states@.len(),
            *c == states@[i as int],
            j <= c.output_lines@.len(),
            mark@ == stderr_mark(),
            lines == c.output_lines@.map_values(|l: String| line_row(l@)),
            before_lines == start + seq![RowView::Header(i as int, header_text(*c))]
                + (if c.truncated { seq![RowView::Truncated] } else { Seq::empty() }),
            rows_view(rows@) == before_lines + lines.take(j as int),
        decreases c.output_lines@.len() - j,
    {
        proof {
            reveal_strlit("   ");
        }
        let line = &c.output_lines[j];
        assert(*line == c.output_lines@[j as int]);
        let line_chars = chars_of(line.as_str());
        let stderr = occurs_at_exec(&line_chars, &mark, 0);
        let mut text = copy_str("   ");
        push_str(&mut text, line.as_str());
        let ghost row = RowView::Line(text@, stderr);
        assert(text@ == "   "@ + line@);
        assert("   "@ =~= seq![' ', ' ', ' ']);
        assert(text@ =~= seq![' ', ' ', ' '] + line@);
        assert(line_chars@ == line@);
        assert(stderr == occurs_at(line@, stderr_mark(), 0));
        assert(row == line_row(line@));
        assert(lines[j as int] == row);
        let ghost prev = rows@;
        rows.push(OutputRow::Line { text, stderr });
        proof {
            assert(rows_view(rows@) =~= rows_view(prev).push(row));
            assert(lines.take(j + 1) =~= lines.take(j as int).push(lines[j as int]));
        }
        j = j + 1;
    }
    proof {
        assert(lines.take(lines.len() as int) =~= lines);
    }
    let ghost mid = rows_view(rows@);
    let ghost tail = if i + 1 < states@.len() {
        (if defer_boundary(states@, i as int) { seq![RowView::Blank] } else { Seq::empty() })
            + seq![RowView::Separator(defer_boundary(states@, i as int))]
    } else {
        Seq::<RowView>::empty()
    };
    let n = states.len();
    if i + 1 < n {
        let boundary = !c.defer && states[i + 1].defer;
        assert(boundary == defer_boundary(states@, i as int));
        if boundary {
            rows.push(OutputRow::Blank);
        }
        rows.push(OutputRow::Separator { thick: boundary });
    }
    proof {
        assert(rows_view(rows@) =~= mid + tail);
        let head = seq![RowView::Header(i as int, header_text(*c))]
            + (if c.truncated { seq![RowView::Truncated] } else { Seq::empty() });
        assert(cmd_rows(states@, i as int) == head + lines + tail);
        assert(mid =~= start + (head + lines));
        assert(rows_view(rows@) =~= start + (head + lines + tail));
    }
}

impl ExecutionScreenState {
    /// The rows of the output list.
    pub fn output_rows(&self) -> (res: Vec<OutputRow>)
        ensures
            rows_view(res@) == output_rows_spec(self),
    {
        let mut rows: Vec<OutputRow> = Vec::new();
        let mut i: usize = 0;
        assert(rows_view(rows@) =~= rows_upto(self.cmd_states@, 0));
        while i < self.cmd_states.len()
            invariant
                i <= self.cmd_states@.len(),
                rows_view(rows@) == rows_upto(self.cmd_states@, i as int),
            decreases self.cmd_states@.len() - i,
        {
            push_cmd_rows(&mut rows, &self.cmd_states, i);
            i = i + 1;
        }
        if self.cmd_states.len() == 0 {
            rows.push(OutputRow::NoCommands);
        }
        match self.summary_line() {
            Some(text) => {
                rows.push(OutputRow::Blank);
                rows.push(OutputRow::Summary { text });
            },
            None => {},
        }
        assert(rows_view(rows@) =~= output_rows_spec(self));
        rows
    }
}

} // verus!
