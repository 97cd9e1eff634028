//! The rows of the main screen's lists: each group with its set count
//! aligned to the right, and each visible set with its execution mode, shell
//! and command count (and, while searching, its group on the right).

use vstd::prelude::*;
use crate::models::{shell_label, AppData, CommandSetView, ExecMode, GroupView};
use crate::models::queries::FilterResult;
use crate::text::{byte_len, chars_of, copy_str, decimal, push_decimal, push_str, utf8_len};
use crate::ui::main_screen::{visible_spec, MainScreenState, Panel};

verus! {

/// The number of terminal columns `s` takes, as `unicode_width` measures it.
pub uninterp spec fn display_width(s: Seq<char>) -> nat;

/// `UnicodeWidthStr::width`: the columns `s` takes on a terminal.
#[verifier::external_body]
fn str_width(s: &str) -> (w: usize)
    ensures
        w == display_width(s@),
{
    unicode_width::UnicodeWidthStr::width(s)
}

/// `n` spaces (none for `n <= 0`).
pub open spec fn spaces(n: int) -> Seq<char> {
    Seq::new(if n > 0 { n as nat } else { 0 }, |i: int| ' ')
}

/// The text of a group row: the marker, the name, then the set count in
/// brackets at the right edge of `avail` columns.
pub open spec fn group_row_text(marker: Seq<char>, name: Seq<char>, count: nat, avail: int) -> Seq<char> {
    let head = marker + name;
    let tail = "("@ + decimal(count) + ")"@;
    head + spaces(avail - display_width(head) - tail.len()) + tail
}

/// The rows of the group list on `avail` columns: the selected group marked
/// `▶` (showing the new name while it is renamed), and whether each row is
/// the selected one.
pub open spec fn group_rows_spec(s: &MainScreenState, data: Seq<GroupView>, avail: int) -> Seq<(Seq<char>, bool)> {
    Seq::new(data.len(), |i: int| {
        let selected = i == s.group_list.selected;
        let marker = if selected { "▶ "@ } else { "  "@ };
        let name = if s.rename_mode && selected { s.rename_input.content@ } else { data[i].name@ };
        (group_row_text(marker, name, data[i].sets.len(), avail), selected)
    })
}

/// The mark of an execution mode on a set row.
pub open spec fn mode_icon(m: ExecMode) -> Seq<char> {
    match m {
        ExecMode::StopOnError => "🛑"@,
        ExecMode::ContinueOnError => "⏩"@,
    }
}

/// The parts of a set row: what comes before the name, what comes after it,
/// whether the row is selected, whether matches of the query are to be
/// highlighted in the name, and, while searching, the padding and group
/// name at the right edge.
pub struct SetRowParts {
    pub group_index: usize,
    pub prefix: String,
    pub suffix: String,
    pub selected: bool,
    pub highlight: bool,
    pub group_tail: Option<String>,
}

/// Text before a set's name.
pub open spec fn set_prefix(set: CommandSetView) -> Seq<char> {
    " "@ + mode_icon(set.exec_mode) + "  "@
}

/// Text after a set's name: its shell and its number of commands.
pub open spec fn set_suffix(set: CommandSetView) -> Seq<char> {
    "  ["@ + shell_label(set.shell) + "] ("@ + decimal(set.commands.len()) + " cmd)"@
}

/// What the row of visible set `k` shows, on `avail` columns.
pub open spec fn set_row_ok(s: &MainScreenState, data: Seq<GroupView>, avail: int, k: int, r: SetRowParts) -> bool {
    let (gi, si) = visible_spec(s, data)[k];
    let set = data[gi].sets[si];
    let selected = k == s.set_list.selected && s.active_panel == Panel::Sets;
    let used = display_width(r.prefix@) + display_width(set.name@) + display_width(r.suffix@);
    &&& r.group_index == gi
    &&& r.prefix@ == set_prefix(set)
    &&& r.suffix@ == set_suffix(set)
    &&& r.selected == selected
    &&& r.highlight == (s.search_mode && s.search_input.content@.len() > 0 && !selected)
    &&& if s.search_mode {
        r.group_tail matches Some(t) && t@ == spaces(avail - (used + utf8_len(data[gi].name@) + 1)) + data[gi].name@
    } else {
        r.group_tail is None
    }
}

/// `n` spaces.
fn spaces_exec(n: usize) -> (res: String)
    ensures
        res@ == spaces(n as int),
{
    let mut s = String::new();
    let mut i: usize = 0;
    while i < n
        invariant
            i <= n,
            s@ == spaces(i as int),
        decreases n - i,
    {
        crate::text::push_char(&mut s, ' ');
        assert(s@ =~= spaces(i + 1));
        i = i + 1;
    }
    s
}

/// The row text of a group.
fn group_row(marker: &str, name: &str, count: usize, avail: usize) -> (res: String)
    ensures
        res@ == group_row_text(marker@, name@, count as nat, avail as int),
{
    proof {
        reveal_strlit("(");
        reveal_strlit(")");
    }
    let mut head = copy_str(marker);
    push_str(&mut head, name);
    let mut tail = copy_str("(");
    push_decimal(&mut tail, count as u128);
    push_str(&mut tail, ")");
    let w = str_width(head.as_str());
    let t = chars_of(tail.as_str()).len();
    let pad: usize = if w as u128 + t as u128 >= avail as u128 { 0 } else { avail - w - t };
    assert(tail@ == "("@ + decimal(count as nat) + ")"@);
    let mut row = head;
    let gap = spaces_exec(pad);
    push_str(&mut row, gap.as_str());
    push_str(&mut row, tail.as_str());
    assert(spaces(pad as int) =~= spaces(avail - display_width(marker@ + name@) - tail@.len()));
    row
}

impl MainScreenState {
    /// The rows of the group list on `avail` columns, and which is selected.
    pub fn group_rows(&self, data: &AppData, avail: usize) -> (res: Vec<(String, bool)>)
        ensures
            res@.map_values(|r: (String, bool)| (r.0@, r.1)) == group_rows_spec(self, data@, avail as int),
    {
        let ghost want = group_rows_spec(self, data@, avail as int);
        let mut rows: Vec<(String, bool)> = Vec::new();
        let mut i: usize = 0;
        while i < data.groups.len()
            invariant
                i <= data@.len(),
                want == group_rows_spec(self, data@, avail as int),
                rows@.len() == i,
                forall|k: int| 0 <= k < i ==> ((#[trigger] rows@[k]).0@, rows@[k].1) == want[k],
            decreases data@.len() - i,
        {
            let g = &data.groups[i];
            assert(data@[i as int] == g@);
            let selected = i == self.group_list.selected;
            let marker = if selected { "▶ " } else { "  " };
            let name = if self.rename_mode && selected { self.rename_input.content.as_str() } else { g.name.as_str() };
            let text = group_row(marker, name, g.sets.len(), avail);
            rows.push((text, selected));
            i = i + 1;
        }
        assert(rows@.map_values(|r: (String, bool)| (r.0@, r.1)) =~= want);
        rows
    }

    /// The parts of the rows of the visible sets on `avail` columns.
    pub fn set_rows(&self, data: &AppData, avail: usize) -> (res: Vec<SetRowParts>)
        ensures
            res@.len() == visible_spec(self, data@).len(),
            forall|k: int| 0 <= k < res@.len() ==> set_row_ok(self, data@, avail as int, k, #[trigger] res@[k]),
    {
        let sets = self.visible_sets(data);
        let mut rows: Vec<SetRowParts> = Vec::new();
        let mut k: usize = 0;
        while k < sets.len()
            invariant
                k <= sets@.len(),
                sets@.len() == visible_spec(self, data@).len(),
                forall|j: int| #![trigger sets@[j]] 0 <= j < sets@.len() ==> {
                    let (g, s) = visible_spec(self, data@)[j];
                    &&& sets@[j].group_index == g
                    &&& sets@[j].set_index == s
                    &&& 0 <= g < data@.len()
                    &&& 0 <= s < data@[g].sets.len()
                    &&& sets@[j].set@ == data@[g].sets[s]
                },
                rows@.len() == k,
                forall|j: int| 0 <= j < k ==> set_row_ok(self, data@, avail as int, j, #[trigger] rows@[j]),
            decreases sets@.len() - k,
        {
            let r = &sets[k];
            assert(sets@[k as int] == *r);
            let row = self.set_row(data, r, k, avail);
            rows.push(row);
            assert forall|j: int| 0 <= j < k + 1 implies set_row_ok(self, data@, avail as int, j, #[trigger] rows@[j]) by {
                if j < k {
                    assert(rows@[j] == rows@.drop_last()[j]);
                }
            }
            k = k + 1;
        }
        rows
    }

    /// The parts of the row of visible set `k`, found as `r`.
    fn set_row(&self, data: &AppData, r: &FilterResult, k: usize, avail: usize) -> (res: SetRowParts)
        requires
            k < visible_spec(self, data@).len(),
            r.group_index == visible_spec(self, data@)[k as int].0,
            r.set_index == visible_spec(self, data@)[k as int].1,
            r.group_index < data@.len(),
            r.set_index < data@[r.group_index as int].sets.len(),
            r.set@ == data@[r.group_index as int].sets[r.set_index as int],
        ensures
            set_row_ok(self, data@, avail as int, k as int, res),
    {
        proof {
            reveal_strlit(" ");
            reveal_strlit("  ");
            reveal_strlit("  [");
            reveal_strlit("] (");
            reveal_strlit(" cmd)");
        }
        let set = r.set;
        let mut prefix = copy_str(" ");
        match set.exec_mode {
            ExecMode::StopOnError => push_str(&mut prefix, "🛑"),
            ExecMode::ContinueOnError => push_str(&mut prefix, "⏩"),
        }
        push_str(&mut prefix, "  ");
        let mut suffix = copy_str("  [");
        let label = set.shell.label();
        push_str(&mut suffix, label.as_str());
        push_str(&mut suffix, "] (");
        push_decimal(&mut suffix, set.commands.len() as u128);
        push_str(&mut suffix, " cmd)");
        let selected = k == self.set_list.selected && self.active_panel == Panel::Sets;
        let highlight = self.search_mode && chars_of(self.search_input.content.as_str()).len() > 0 && !selected;
        let group_tail = if self.search_mode {
            let gname = data.groups[r.group_index].name.as_str();
            assert(data@[r.group_index as int].name@ == gname@);
            let used = str_width(prefix.as_str()) as u128 + str_width(set.name.as_str()) as u128
                + str_width(suffix.as_str()) as u128 + byte_len(gname) as u128 + 1;
            let pad: usize = if used >= avail as u128 { 0 } else { (avail as u128 - used) as usize };
            let mut tail = spaces_exec(pad);
            push_str(&mut tail, gname);
            assert(spaces(pad as int) =~= spaces(avail - used));
            Some(tail)
        } else {
            None
        };
        SetRowParts { group_index: r.group_index, prefix, suffix, selected, highlight, group_tail }
    }
}

} // verus!
