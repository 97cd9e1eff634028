//! Look-ups and search over the data model.

use vstd::prelude::*;
use crate::models::{AppData, Command, CommandSet, CommandSetView, Group, GroupView};
use crate::search::{fuzzy, fuzzy_match};

verus! {

/// A command set that a search selected, with where it is and which bytes
/// of its name matched the query (empty when the match was in a command).
pub struct FilterResult<'a> {
    pub group_index: usize,
    pub set_index: usize,
    pub set: &'a CommandSet,
    pub name_matches: Vec<(usize, usize)>,
}

/// Every command set of every group, group by group.
pub open spec fn all_sets_spec(groups: Seq<GroupView>) -> Seq<CommandSetView>
    decreases groups.len(),
{
    if groups.len() == 0 {
        Seq::empty()
    } else {
        all_sets_spec(groups.drop_last()) + groups.last().sets
    }
}

/// Some command of `cmds` fuzzy-matches `q`.
pub open spec fn some_command_matches(cmds: Seq<Command>, q: Seq<char>) -> bool {
    exists|i: int| 0 <= i < cmds.len() && (#[trigger] fuzzy(cmds[i].command@, q)) is Some
}

/// A search for `q` selects set `s`: every set for an empty query, else the
/// sets whose name or some command fuzzy-matches.
pub open spec fn set_selected(s: CommandSetView, q: Seq<char>) -> bool {
    q.len() == 0 || fuzzy(s.name@, q) is Some || some_command_matches(s.commands, q)
}

/// The name match positions reported for a selected set.
pub open spec fn name_matches_spec(s: CommandSetView, q: Seq<char>) -> Seq<(usize, usize)> {
    if q.len() == 0 {
        Seq::empty()
    } else {
        match fuzzy(s.name@, q) {
            Some(m) => m,
            None => Seq::empty(),
        }
    }
}

/// Positions of the sets among the first `n` of group `g` (at index `gi`)
/// that a search for `q` selects.
pub open spec fn filter_in_group(g: GroupView, gi: int, q: Seq<char>, n: int) -> Seq<(int, int)>
    decreases n,
{
    if n <= 0 {
        Seq::empty()
    } else {
        filter_in_group(g, gi, q, n - 1) + if set_selected(g.sets[n - 1], q) {
            seq![(gi, n - 1)]
        } else {
            Seq::empty()
        }
    }
}

/// Positions of the sets in the first `k` groups that a search for `q`
/// selects, group by group.
pub open spec fn filter_upto(groups: Seq<GroupView>, q: Seq<char>, k: int) -> Seq<(int, int)>
    decreases k,
{
    if k <= 0 {
        Seq::empty()
    } else {
        filter_upto(groups, q, k - 1) + filter_in_group(groups[k - 1], k - 1, q, groups[k - 1].sets.len() as int)
    }
}

/// Positions of all sets that a search for `q` selects, in order.
pub open spec fn filter_spec(groups: Seq<GroupView>, q: Seq<char>) -> Seq<(int, int)> {
    filter_upto(groups, q, groups.len() as int)
}

/// `id` belongs to no set of the first `n` sets of group `g`.
pub open spec fn id_absent_in(g: GroupView, id: u128, n: int) -> bool {
    forall|s: int| 0 <= s < n ==> (#[trigger] g.sets[s]).id != id
}

/// Whether some command of `cmds` fuzzy-matches `query`.
fn any_command_matches(cmds: &Vec<Command>, query: &str) -> (res: bool)
    ensures
        res == some_command_matches(cmds@, query@),
{
    let mut i: usize = 0;
    while i < cmds.len()
        invariant
            i <= cmds.len(),
            forall|j: int| 0 <= j < i ==> (#[trigger] fuzzy(cmds@[j].command@, query@)) is None,
        decreases cmds.len() - i,
    {
        if fuzzy_match(cmds[i].command.as_str(), query).is_some() {
            return true;
        }
        i = i + 1;
    }
    false
}

impl AppData {
    /// Every command set across all groups, group by group.
    pub fn all_sets_iter(&self) -> (res: Vec<&CommandSet>)
        ensures
            res@.map_values(|s: &CommandSet| s@) == all_sets_spec(self@),
    {
        let mut res: Vec<&CommandSet> = Vec::new();
        let mut gi: usize = 0;
        while gi < self.groups.len()
            invariant
                gi <= self.groups.len(),
                res@.map_values(|s: &CommandSet| s@) == all_sets_spec(self@.take(gi as int)),
            decreases self.groups.len() - gi,
        {
            let g = &self.groups[gi];
            let ghost before = res@.map_values(|s: &CommandSet| s@);
            let mut si: usize = 0;
            while si < g.sets.len()
                invariant
                    si <= g.sets.len(),
                    res@.map_values(|s: &CommandSet| s@) == before + g@.sets.take(si as int),
                decreases g.sets.len() - si,
            {
                let ghost r0 = res@;
                res.push(&g.sets[si]);
                assert(g@.sets[si as int] == g.sets@[si as int]@);
                assert(g@.sets.take(si + 1) =~= g@.sets.take(si as int).push(g.sets@[si as int]@));
                assert(res@.map_values(|s: &CommandSet| s@) =~= r0.map_values(|s: &CommandSet| s@).push(g.sets@[si as int]@));
                assert(res@.map_values(|s: &CommandSet| s@) =~= before + g@.sets.take(si + 1));
                si = si + 1;
            }
            assert(g@.sets.take(g@.sets.len() as int) =~= g@.sets);
            assert(self@.take(gi + 1).drop_last() =~= self@.take(gi as int));
            gi = gi + 1;
        }
        assert(self@.take(self@.len() as int) =~= self@);
        res
    }

    /// The first group, in order, whose id is `id`.
    pub fn find_group_by_id(&self, id: u128) -> (res: Option<&Group>)
        ensures
            match res {
                Some(g) => exists|i: int|
                    0 <= i < self@.len() && self@[i].id == id && g@ == self@[i]
                        && forall|j: int| 0 <= j < i ==> (#[trigger] self@[j]).id != id,
                None => forall|j: int| 0 <= j < self@.len() ==> (#[trigger] self@[j]).id != id,
            },
    {
        let mut i: usize = 0;
        while i < self.groups.len()
            invariant
                i <= self.groups.len(),
                forall|j: int| 0 <= j < i ==> (#[trigger] self@[j]).id != id,
            decreases self.groups.len() - i,
        {
            if self.groups[i].id == id {
                assert(self@[i as int] == self.groups@[i as int]@);
                return Some(&self.groups[i]);
            }
            i = i + 1;
        }
        None
    }

    /// The first group, in order, whose id is `id`, to change in place:
    /// what is written through the result is the group at that index
    /// afterwards, and nothing else changes.
    pub fn find_group_by_id_mut(&mut self, id: u128) -> (res: Option<&mut Group>)
        ensures
            match res {
                Some(g) => exists|i: int| {
                    &&& 0 <= i < old(self).groups@.len()
                    &&& old(self)@[i].id == id
                    &&& forall|j: int| 0 <= j < i ==> (#[trigger] old(self)@[j]).id != id
                    &&& *g == old(self).groups@[i]
                    &&& final(self).groups@ == old(self).groups@.update(i, *final(g))
                },
                None => {
                    &&& forall|j: int| 0 <= j < old(self)@.len() ==> (#[trigger] old(self)@[j]).id != id
                    &&& *final(self) == *old(self)
                },
            },
    {
        let mut i: usize = 0;
        while i < self.groups.len()
            invariant
                i <= self.groups.len(),
                *self == *old(self),
                forall|j: int| 0 <= j < i ==> (#[trigger] self@[j]).id != id,
            decreases self.groups.len() - i,
        {
            if self.groups[i].id == id {
                assert(self@[i as int] == self.groups@[i as int]@);
                return Some(&mut self.groups[i]);
            }
            i = i + 1;
        }
        None
    }

    /// Group and set index of the first set, in order, whose id is `id`.
    pub fn find_set_by_id(&self, id: u128) -> (res: Option<(usize, usize)>)
        ensures
            match res {
                Some((gi, si)) => {
                    &&& gi < self@.len()
                    &&& si < self@[gi as int].sets.len()
                    &&& self@[gi as int].sets[si as int].id == id
                    &&& forall|g: int| 0 <= g < gi ==> id_absent_in(#[trigger] self@[g], id, self@[g].sets.len() as int)
                    &&& id_absent_in(self@[gi as int], id, si as int)
                },
                None => forall|g: int| 0 <= g < self@.len() ==> id_absent_in(#[trigger] self@[g], id, self@[g].sets.len() as int),
            },
    {
        let mut gi: usize = 0;
        while gi < self.groups.len()
            invariant
                gi <= self.groups.len(),
                forall|g: int| 0 <= g < gi ==> id_absent_in(#[trigger] self@[g], id, self@[g].sets.len() as int),
            decreases self.groups.len() - gi,
        {
            let g = &self.groups[gi];
            assert(self@[gi as int] == g@);
            let mut si: usize = 0;
            while si < g.sets.len()
                invariant
                    si <= g.sets.len(),
                    gi < self.groups.len(),
                    self@[gi as int] == g@,
                    forall|g: int| 0 <= g < gi ==> id_absent_in(#[trigger] self@[g], id, self@[g].sets.len() as int),
                    id_absent_in(g@, id, si as int),
                decreases g.sets.len() - si,
            {
                if g.sets[si].id == id {
                    assert(g@.sets[si as int] == g.sets@[si as int]@);
                    return Some((gi, si));
                }
                si = si + 1;
            }
            gi = gi + 1;
        }
        None
    }

    /// The sets that a search for `query` selects, in order: all sets for an
    /// empty query, else those whose name or some command fuzzy-matches it,
    /// with the byte ranges of the name that matched.
    pub fn filter_sets(&self, query: &str) -> (res: Vec<FilterResult<'_>>)
        ensures
            res@.len() == filter_spec(self@, query@).len(),
            forall|k: int| #![trigger res@[k]] 0 <= k < res@.len() ==> {
                let (g, s) = filter_spec(self@, query@)[k];
                &&& res@[k].group_index == g
                &&& res@[k].set_index == s
                &&& 0 <= g < self@.len()
                &&& 0 <= s < self@[g].sets.len()
                &&& res@[k].set@ == self@[g].sets[s]
                &&& res@[k].name_matches@ == name_matches_spec(self@[g].sets[s], query@)
            },
    {
        let empty = query.is_empty();
        let mut results: Vec<FilterResult<'_>> = Vec::new();
        let mut gi: usize = 0;
        while gi < self.groups.len()
            invariant
                gi <= self.groups.len(),
                empty == (query@.len() == 0),
                results@.len() == filter_upto(self@, query@, gi as int).len(),
                forall|k: int| #![trigger results@[k]] 0 <= k < results@.len() ==> {
                    let (g, s) = filter_upto(self@, query@, gi as int)[k];
                    &&& results@[k].group_index == g
                    &&& results@[k].set_index == s
                    &&& 0 <= g < self@.len()
                    &&& 0 <= s < self@[g].sets.len()
                    &&& results@[k].set@ == self@[g].sets[s]
                    &&& results@[k].name_matches@ == name_matches_spec(self@[g].sets[s], query@)
                },
            decreases self.groups.len() - gi,
        {
            let group = &self.groups[gi];
            let ghost base = filter_upto(self@, query@, gi as int);
            let mut si: usize = 0;
            while si < group.sets.len()
                invariant
                    si <= group.sets.len(),
                    gi < self.groups.len(),
                    group@ == self@[gi as int],
                    empty == (query@.len() == 0),
                    results@.len() == base.len() + filter_in_group(group@, gi as int, query@, si as int).len(),
                    forall|k: int| #![trigger results@[k]] 0 <= k < results@.len() ==> {
                        let (g, s) = (base + filter_in_group(group@, gi as int, query@, si as int))[k];
                        &&& results@[k].group_index == g
                        &&& results@[k].set_index == s
                        &&& 0 <= g < self@.len()
                        &&& 0 <= s < self@[g].sets.len()
                        &&& results@[k].set@ == self@[g].sets[s]
                        &&& results@[k].name_matches@ == name_matches_spec(self@[g].sets[s], query@)
                    },
                decreases group.sets.len() - si,
            {
                let set = &group.sets[si];
                let ghost before = base + filter_in_group(group@, gi as int, query@, si as int);
                let ghost after = base + filter_in_group(group@, gi as int, query@, si + 1);
                let selected: bool;
                let matches: Vec<(usize, usize)>;
                if empty {
                    selected = true;
                    matches = Vec::new();
                } else {
                    match fuzzy_match(set.name.as_str(), query) {
                        Some(m) => {
                            selected = true;
                            matches = m;
                        },
                        None => {
                            selected = any_command_matches(&set.commands, query);
                            matches = Vec::new();
                        },
                    }
                }
                assert(selected == set_selected(set@, query@));
                assert(matches@ == name_matches_spec(set@, query@));
                if selected {
                    let r = FilterResult { group_index: gi, set_index: si, set, name_matches: matches };
                    results.push(r);
                    assert(after =~= before.push((gi as int, si as int)));
                } else {
                    assert(after =~= before);
                }
                si = si + 1;
            }
            assert(base + filter_in_group(group@, gi as int, query@, group@.sets.len() as int)
                =~= filter_upto(self@, query@, gi + 1));
            gi = gi + 1;
        }
        results
    }
}

proof fn lemma_empty_query_in_group(g: GroupView, gi: int, n: int)
    requires
        0 <= n,
    ensures
        filter_in_group(g, gi, Seq::empty(), n) == Seq::new(n as nat, |j: int| (gi, j)),
    decreases n,
{
    if n > 0 {
        lemma_empty_query_in_group(g, gi, n - 1);
        assert(filter_in_group(g, gi, Seq::empty(), n) =~= Seq::new(n as nat, |j: int| (gi, j)));
    } else {
        assert(filter_in_group(g, gi, Seq::empty(), n) =~= Seq::new(n as nat, |j: int| (gi, j)));
    }
}

proof fn lemma_empty_query_upto(groups: Seq<GroupView>, k: int)
    requires
        0 <= k <= groups.len(),
    ensures
        filter_upto(groups, Seq::empty(), k).len() == all_sets_spec(groups.take(k)).len(),
        forall|i: int| 0 <= i < filter_upto(groups, Seq::empty(), k).len() ==> {
            let (g, s) = #[trigger] filter_upto(groups, Seq::empty(), k)[i];
            &&& 0 <= g < k
            &&& 0 <= s < groups[g].sets.len()
            &&& groups[g].sets[s] == all_sets_spec(groups.take(k))[i]
        },
    decreases k,
{
    let e = Seq::<char>::empty();
    if k == 0 {
        assert(groups.take(0) =~= Seq::<GroupView>::empty());
    } else {
        lemma_empty_query_upto(groups, k - 1);
        let g = groups[k - 1];
        lemma_empty_query_in_group(g, k - 1, g.sets.len() as int);
        assert(groups.take(k).drop_last() =~= groups.take(k - 1));
        assert(groups.take(k).last() == g);
        let prev = filter_upto(groups, e, k - 1);
        let here = Seq::new(g.sets.len(), |j: int| (k - 1, j));
        let all_prev = all_sets_spec(groups.take(k - 1));
        assert(filter_upto(groups, e, k) == prev + here);
        assert(all_sets_spec(groups.take(k)) == all_prev + g.sets);
        assert forall|i: int| 0 <= i < filter_upto(groups, e, k).len() implies {
            let (g2, s2) = #[trigger] filter_upto(groups, e, k)[i];
            &&& 0 <= g2 < k
            &&& 0 <= s2 < groups[g2].sets.len()
            &&& groups[g2].sets[s2] == all_sets_spec(groups.take(k))[i]
        } by {
            if i < prev.len() {
                assert(filter_upto(groups, e, k)[i] == prev[i]);
                assert(all_sets_spec(groups.take(k))[i] == all_prev[i]);
            } else {
                let j = i - prev.len();
                assert(filter_upto(groups, e, k)[i] == here[j]);
                assert(all_sets_spec(groups.take(k))[i] == g.sets[j]);
            }
        }
    }
}

/// An empty search lists every set, group by group, in order.
pub proof fn lemma_empty_query_lists_every_set(groups: Seq<GroupView>)
    ensures
        filter_spec(groups, Seq::empty()).len() == all_sets_spec(groups).len(),
        forall|i: int| 0 <= i < filter_spec(groups, Seq::empty()).len() ==> {
            let (g, s) = #[trigger] filter_spec(groups, Seq::empty())[i];
            &&& 0 <= g < groups.len()
            &&& 0 <= s < groups[g].sets.len()
            &&& groups[g].sets[s] == all_sets_spec(groups)[i]
        },
{
    lemma_empty_query_upto(groups, groups.len() as int);
    assert(groups.take(groups.len() as int) =~= groups);
}

/// A search for `q` takes set `set`: every set for an empty query, else one
/// whose name, or any one of its commands, fuzzy-matches the query.
pub open spec fn takes_set(set: CommandSetView, q: Seq<char>) -> bool {
    ||| q.len() == 0
    ||| fuzzy(set.name@, q) is Some
    ||| exists|i: int| 0 <= i < set.commands.len() && #[trigger] fuzzy(set.commands[i].command@, q) is Some
}

proof fn lemma_filter_in_group_members(g: GroupView, gi: int, q: Seq<char>, n: int)
    requires
        0 <= n <= g.sets.len(),
    ensures
        forall|p: (int, int)| #![trigger filter_in_group(g, gi, q, n).contains(p)]
            filter_in_group(g, gi, q, n).contains(p) <==> p.0 == gi && 0 <= p.1 < n && takes_set(g.sets[p.1], q),
    decreases n,
{
    if n > 0 {
        lemma_filter_in_group_members(g, gi, q, n - 1);
        let prev = filter_in_group(g, gi, q, n - 1);
        let cur = filter_in_group(g, gi, q, n);
        assert(set_selected(g.sets[n - 1], q) == takes_set(g.sets[n - 1], q));
        assert forall|p: (int, int)| #![trigger cur.contains(p)]
            cur.contains(p) <==> p.0 == gi && 0 <= p.1 < n && takes_set(g.sets[p.1], q) by {
            if cur.contains(p) {
                let k = choose|k: int| 0 <= k < cur.len() && cur[k] == p;
                if k < prev.len() {
                    assert(prev[k] == p);
                    assert(prev.contains(p));
                }
            }
            if p.0 == gi && 0 <= p.1 < n && takes_set(g.sets[p.1], q) {
                if p.1 < n - 1 {
                    assert(prev.contains(p));
                    let k = choose|k: int| 0 <= k < prev.len() && prev[k] == p;
                    assert(cur[k] == p);
                } else {
                    assert(cur[prev.len() as int] == p);
                }
            }
        }
    }
}

proof fn lemma_filter_upto_members(groups: Seq<GroupView>, q: Seq<char>, k: int)
    requires
        0 <= k <= groups.len(),
    ensures
        forall|p: (int, int)| #![trigger filter_upto(groups, q, k).contains(p)]
            filter_upto(groups, q, k).contains(p) <==> 0 <= p.0 < k && 0 <= p.1 < groups[p.0].sets.len()
                && takes_set(groups[p.0].sets[p.1], q),
    decreases k,
{
    if k > 0 {
        lemma_filter_upto_members(groups, q, k - 1);
        let g = groups[k - 1];
        lemma_filter_in_group_members(g, k - 1, q, g.sets.len() as int);
        let prev = filter_upto(groups, q, k - 1);
        let here = filter_in_group(g, k - 1, q, g.sets.len() as int);
        let cur = filter_upto(groups, q, k);
        assert(cur == prev + here);
        assert forall|p: (int, int)| #![trigger cur.contains(p)]
            cur.contains(p) <==> 0 <= p.0 < k && 0 <= p.1 < groups[p.0].sets.len()
                && takes_set(groups[p.0].sets[p.1], q) by {
            if cur.contains(p) {
                let j = choose|j: int| 0 <= j < cur.len() && cur[j] == p;
                if j < prev.len() {
                    assert(prev[j] == p);
                    assert(prev.contains(p));
                } else {
                    assert(here[j - prev.len()] == p);
                    assert(here.contains(p));
                }
            }
            if 0 <= p.0 < k && 0 <= p.1 < groups[p.0].sets.len() && takes_set(groups[p.0].sets[p.1], q) {
                if p.0 < k - 1 {
                    assert(prev.contains(p));
                    let j = choose|j: int| 0 <= j < prev.len() && prev[j] == p;
                    assert(cur[j] == p);
                } else {
                    assert(here.contains(p));
                    let j = choose|j: int| 0 <= j < here.len() && here[j] == p;
                    assert(cur[prev.len() + j] == p);
                }
            }
        }
    }
}

/// A search lists set `s` of group `g` exactly when the query is empty, or
/// the set's name fuzzy-matches it, or any one of its commands does (the
/// last as well as the first).
pub proof fn lemma_filter_selects_name_or_any_command(groups: Seq<GroupView>, q: Seq<char>)
    ensures
        forall|p: (int, int)| #![trigger filter_spec(groups, q).contains(p)]
            filter_spec(groups, q).contains(p) <==> 0 <= p.0 < groups.len() && 0 <= p.1 < groups[p.0].sets.len()
                && takes_set(groups[p.0].sets[p.1], q),
{
    lemma_filter_upto_members(groups, q, groups.len() as int);
}

} // verus!
