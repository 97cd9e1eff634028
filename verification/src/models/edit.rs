//! Changes to the data model: adding, renaming, removing, moving and saving
//! groups and command sets.

use vstd::prelude::*;
use crate::models::{groups_view, sets_view, AppData, CommandSet, CommandSetView, Group, GroupView, Timestamp};

verus! {

/// `s` with the items at `a` and `b` exchanged.
pub open spec fn swapped<T>(s: Seq<T>, a: int, b: int) -> Seq<T> {
    s.update(a, s[b]).update(b, s[a])
}

/// Group `g` with its sets replaced by `sets`.
pub open spec fn with_sets(g: GroupView, sets: Seq<CommandSetView>) -> GroupView {
    GroupView { sets: sets, ..g }
}

/// Position of the first set with id `id`: its group and index, if any.
pub open spec fn set_position(data: Seq<GroupView>, id: u128) -> Option<(int, int)> {
    if exists|g: int, s: int| 0 <= g < data.len() && 0 <= s < data[g].sets.len() && data[g].sets[s].id == id {
        Some(choose|g: int, s: int| {
            &&& 0 <= g < data.len()
            &&& 0 <= s < data[g].sets.len()
            &&& data[g].sets[s].id == id
            &&& forall|g2: int, s2: int| #![trigger data[g2].sets[s2]]
                0 <= g2 < data.len() && 0 <= s2 < data[g2].sets.len() && data[g2].sets[s2].id == id
                    ==> g < g2 || (g == g2 && s <= s2)
        })
    } else {
        None
    }
}

/// Index of the first group with id `id`, if any.
pub open spec fn group_position(data: Seq<GroupView>, id: u128) -> Option<int> {
    if exists|g: int| 0 <= g < data.len() && data[g].id == id {
        Some(choose|g: int| 0 <= g < data.len() && data[g].id == id && forall|h: int| 0 <= h < g ==> data[h].id != id)
    } else {
        None
    }
}

/// Where saving `set` takes it: `None` when no stored set has its id, else
/// the position of the stored set and whether its group changed.
pub open spec fn save_source(data: Seq<GroupView>, set: CommandSetView) -> Option<(int, int, bool)> {
    match set_position(data, set.id) {
        Some((gi, pos)) => Some((gi, pos, set.group_id != data[gi].id)),
        None => None,
    }
}

/// `data` without set `pos` of group `gi`.
pub open spec fn without_set(data: Seq<GroupView>, gi: int, pos: int) -> Seq<GroupView> {
    data.update(gi, with_sets(data[gi], data[gi].sets.remove(pos)))
}

/// The data after saving `set` (with `updated_at` set to `now` wherever it
/// lands): it replaces the stored set with its id when its group is
/// unchanged; when its group changed it leaves the old group and goes to the
/// end of its new group (and is lost if no group has the new id). Nothing
/// changes when no stored set has its id.
pub open spec fn saved_data(data: Seq<GroupView>, set: CommandSetView, now: Timestamp) -> Seq<GroupView> {
    let stamped = CommandSetView { updated_at: now, ..set };
    match save_source(data, set) {
        Some((gi, pos, true)) => {
            let removed = without_set(data, gi, pos);
            match group_position(removed, set.group_id) {
                Some(ti) => removed.update(ti, with_sets(removed[ti], removed[ti].sets.push(stamped))),
                None => removed,
            }
        },
        Some((gi, pos, false)) => data.update(gi, with_sets(data[gi], data[gi].sets.update(pos, stamped))),
        None => data,
    }
}

/// The group a saved set leaves (when its group changed) and the position it
/// lands at in its new group (when that group exists).
pub open spec fn saved_moves(data: Seq<GroupView>, set: CommandSetView) -> (Option<usize>, Option<(usize, usize)>) {
    match save_source(data, set) {
        Some((gi, pos, true)) => {
            let removed = without_set(data, gi, pos);
            (Some(gi as usize), match group_position(removed, set.group_id) {
                Some(ti) => Some((ti as usize, removed[ti].sets.len() as usize)),
                None => None,
            })
        },
        _ => (None, None),
    }
}

pub proof fn lemma_sets_view_insert(sets: Seq<CommandSet>, i: int, s: CommandSet)
    requires
        0 <= i <= sets.len(),
    ensures
        sets_view(sets.insert(i, s)) == sets_view(sets).insert(i, s@),
{
    assert(sets_view(sets.insert(i, s)) =~= sets_view(sets).insert(i, s@));
}

pub proof fn lemma_sets_view_remove(sets: Seq<CommandSet>, i: int)
    requires
        0 <= i < sets.len(),
    ensures
        sets_view(sets.remove(i)) == sets_view(sets).remove(i),
{
    assert(sets_view(sets.remove(i)) =~= sets_view(sets).remove(i));
}

/// `(g, s)` is the first position, group by group and set by set, of a set
/// with id `id`.
pub proof fn lemma_set_position_is(data: Seq<GroupView>, id: u128, g: int, s: int)
    requires
        0 <= g < data.len(),
        0 <= s < data[g].sets.len(),
        data[g].sets[s].id == id,
        forall|g2: int, s2: int| #![trigger data[g2].sets[s2]]
            0 <= g2 < g && 0 <= s2 < data[g2].sets.len() ==> data[g2].sets[s2].id != id,
        forall|s2: int| 0 <= s2 < s ==> #[trigger] data[g].sets[s2].id != id,
    ensures
        set_position(data, id) == Some((g, s)),
{
    let first = |a: int, b: int| {
        &&& 0 <= a < data.len()
        &&& 0 <= b < data[a].sets.len()
        &&& data[a].sets[b].id == id
        &&& forall|g2: int, s2: int| #![trigger data[g2].sets[s2]]
            0 <= g2 < data.len() && 0 <= s2 < data[g2].sets.len() && data[g2].sets[s2].id == id
                ==> a < g2 || (a == g2 && b <= s2)
    };
    assert forall|g2: int, s2: int| #![trigger data[g2].sets[s2]]
        0 <= g2 < data.len() && 0 <= s2 < data[g2].sets.len() && data[g2].sets[s2].id == id
            implies g < g2 || (g == g2 && s <= s2) by {
        if g2 < g {
        } else if g2 == g {
            if s2 < s {
                assert(data[g].sets[s2].id != id);
            }
        }
    }
    assert(first(g, s));
    assert(exists|a: int, b: int| 0 <= a < data.len() && 0 <= b < data[a].sets.len() && data[a].sets[b].id == id) by {
        assert(data[g].sets[s].id == id);
    }
    let (a, b) = choose|a: int, b: int| {
        &&& 0 <= a < data.len()
        &&& 0 <= b < data[a].sets.len()
        &&& data[a].sets[b].id == id
        &&& forall|g2: int, s2: int| #![trigger data[g2].sets[s2]]
            0 <= g2 < data.len() && 0 <= s2 < data[g2].sets.len() && data[g2].sets[s2].id == id
                ==> a < g2 || (a == g2 && b <= s2)
    };
    assert(data[a].sets[b].id == id);
    assert(data[g].sets[s].id == id);
}

/// `g` is the first group with id `id`.
pub proof fn lemma_group_position_is(data: Seq<GroupView>, id: u128, g: int)
    requires
        0 <= g < data.len(),
        data[g].id == id,
        forall|h: int| 0 <= h < g ==> #[trigger] data[h].id != id,
    ensures
        group_position(data, id) == Some(g),
{
    let a = choose|a: int| 0 <= a < data.len() && data[a].id == id && forall|h: int| 0 <= h < a ==> data[h].id != id;
    assert(0 <= a < data.len() && data[a].id == id && forall|h: int| 0 <= h < a ==> data[h].id != id);
    if a < g {
        assert(data[a].id != id);
    }
    if g < a {
        assert(data[g].id != id);
    }
}

/// Exchanges the items at `a` and `b` of `v`.
pub fn swap_items<T>(v: &mut Vec<T>, a: usize, b: usize)
    requires
        a < old(v)@.len(),
        b < old(v)@.len(),
    ensures
        final(v)@ == swapped(old(v)@, a as int, b as int),
{
    if a == b {
        assert(v@ =~= swapped(old(v)@, a as int, b as int));
        return;
    }
    let (lo, hi) = if a < b { (a, b) } else { (b, a) };
    let x = v.remove(hi);
    let y = v.remove(lo);
    v.insert(lo, x);
    v.insert(hi, y);
    assert(v@ =~= swapped(old(v)@, a as int, b as int));
}

impl AppData {
    /// The first position, group by group and set by set, of a set with id `id`.
    pub fn set_position_of(&self, id: u128) -> (res: Option<(usize, usize)>)
        ensures
            match res {
                Some((g, s)) => {
                    &&& set_position(self@, id) == Some((g as int, s as int))
                    &&& g < self@.len()
                    &&& s < self@[g as int].sets.len()
                },
                None => set_position(self@, id) is None,
            },
    {
        let ghost data = self@;
        let mut g: usize = 0;
        while g < self.groups.len()
            invariant
                data == self@,
                g <= data.len(),
                forall|g2: int, s2: int| #![trigger data[g2].sets[s2]]
                    0 <= g2 < g && 0 <= s2 < data[g2].sets.len() ==> data[g2].sets[s2].id != id,
            decreases data.len() - g,
        {
            let sets = &self.groups[g].sets;
            assert(data[g as int].sets == sets_view(sets@));
            let mut s: usize = 0;
            while s < sets.len()
                invariant
                    data == self@,
                    g < data.len(),
                    data[g as int].sets == sets_view(sets@),
                    s <= sets@.len(),
                    forall|g2: int, s2: int| #![trigger data[g2].sets[s2]]
                        0 <= g2 < g && 0 <= s2 < data[g2].sets.len() ==> data[g2].sets[s2].id != id,
                    forall|s2: int| 0 <= s2 < s ==> #[trigger] data[g as int].sets[s2].id != id,
                decreases sets@.len() - s,
            {
                assert(data[g as int].sets[s as int] == sets@[s as int]@);
                if sets[s].id == id {
                    proof {
                        lemma_set_position_is(data, id, g as int, s as int);
                    }
                    return Some((g, s));
                }
                s = s + 1;
            }
            g = g + 1;
        }
        None
    }

    /// The index of the first group with id `id`.
    pub fn group_position_of(&self, id: u128) -> (res: Option<usize>)
        ensures
            match res {
                Some(g) => group_position(self@, id) == Some(g as int) && g < self@.len() && self@[g as int].id == id,
                None => group_position(self@, id) is None,
            },
    {
        let ghost data = self@;
        let mut g: usize = 0;
        while g < self.groups.len()
            invariant
                data == self@,
                g <= data.len(),
                forall|h: int| 0 <= h < g ==> #[trigger] data[h].id != id,
            decreases data.len() - g,
        {
            assert(data[g as int].id == self.groups@[g as int].id);
            if self.groups[g].id == id {
                proof {
                    lemma_group_position_is(data, id, g as int);
                }
                return Some(g);
            }
            g = g + 1;
        }
        None
    }

    /// Inserts `group` at index `gi`.
    pub fn insert_group(&mut self, gi: usize, group: Group)
        requires
            gi <= old(self)@.len(),
        ensures
            final(self)@ == old(self)@.insert(gi as int, group@),
    {
        self.groups.insert(gi, group);
        assert(groups_view(self.groups@) =~= groups_view(old(self).groups@).insert(gi as int, group@));
    }

    /// Renames group `gi`.
    pub fn rename_group(&mut self, gi: usize, name: String)
        requires
            gi < old(self)@.len(),
        ensures
            final(self)@ == old(self)@.update(gi as int, GroupView { name: name, ..old(self)@[gi as int] }),
    {
        self.groups[gi].name = name;
        assert(self@ =~= old(self)@.update(gi as int, GroupView { name: name, ..old(self)@[gi as int] }));
    }

    /// Removes and returns group `gi`.
    pub fn remove_group(&mut self, gi: usize) -> (removed: Group)
        requires
            gi < old(self)@.len(),
        ensures
            final(self)@ == old(self)@.remove(gi as int),
            removed@ == old(self)@[gi as int],
    {
        let g = self.groups.remove(gi);
        assert(self@ =~= old(self)@.remove(gi as int));
        g
    }

    /// Inserts `set` at index `si` of group `gi`.
    pub fn insert_set(&mut self, gi: usize, si: usize, set: CommandSet)
        requires
            gi < old(self)@.len(),
            si <= old(self)@[gi as int].sets.len(),
        ensures
            final(self)@ == old(self)@.update(
                gi as int,
                with_sets(old(self)@[gi as int], old(self)@[gi as int].sets.insert(si as int, set@)),
            ),
    {
        let ghost sv = set@;
        let ghost g0 = self.groups@[gi as int];
        self.groups[gi].sets.insert(si, set);
        proof {
            lemma_sets_view_insert(g0.sets@, si as int, set);
        }
        assert(self@ =~= old(self)@.update(
            gi as int,
            with_sets(old(self)@[gi as int], old(self)@[gi as int].sets.insert(si as int, sv)),
        ));
    }

    /// Removes and returns set `si` of group `gi`.
    pub fn remove_set(&mut self, gi: usize, si: usize) -> (removed: CommandSet)
        requires
            gi < old(self)@.len(),
            si < old(self)@[gi as int].sets.len(),
        ensures
            final(self)@ == old(self)@.update(
                gi as int,
                with_sets(old(self)@[gi as int], old(self)@[gi as int].sets.remove(si as int)),
            ),
            removed@ == old(self)@[gi as int].sets[si as int],
    {
        let ghost g0 = self.groups@[gi as int];
        let s = self.groups[gi].sets.remove(si);
        proof {
            lemma_sets_view_remove(g0.sets@, si as int);
        }
        assert(self@ =~= old(self)@.update(
            gi as int,
            with_sets(old(self)@[gi as int], old(self)@[gi as int].sets.remove(si as int)),
        ));
        s
    }

    /// Appends `set` to group `ti` and returns its index there.
    fn push_set(&mut self, ti: usize, set: CommandSet) -> (n: usize)
        requires
            ti < old(self)@.len(),
        ensures
            final(self)@ == old(self)@.update(
                ti as int,
                with_sets(old(self)@[ti as int], old(self)@[ti as int].sets.push(set@)),
            ),
            n == old(self)@[ti as int].sets.len(),
    {
        let ghost sv = set@;
        let n = self.groups[ti].sets.len();
        assert(self@[ti as int].sets.len() == n);
        self.insert_set(ti, n, set);
        assert(old(self)@[ti as int].sets.insert(n as int, sv) =~= old(self)@[ti as int].sets.push(sv));
        n
    }

    /// Moves set `pos` of group `gi`, replaced by `stamped`, to the end of
    /// the first group with id `stamped.group_id`, if there is one.
    fn move_set(&mut self, gi: usize, pos: usize, stamped: CommandSet) -> (res: Option<(usize, usize)>)
        requires
            gi < old(self)@.len(),
            pos < old(self)@[gi as int].sets.len(),
            stamped.group_id != old(self)@[gi as int].id,
        ensures
            final(self)@.len() == old(self)@.len(),
            final(self)@[gi as int].sets.len() == old(self)@[gi as int].sets.len() - 1,
            ({
                let removed = without_set(old(self)@, gi as int, pos as int);
                &&& final(self)@ == match group_position(removed, stamped.group_id) {
                    Some(ti) => removed.update(ti, with_sets(removed[ti], removed[ti].sets.push(stamped@))),
                    None => removed,
                }
                &&& res == match group_position(removed, stamped.group_id) {
                    Some(ti) => Some((ti as usize, removed[ti].sets.len() as usize)),
                    None => None,
                }
            }),
    {
        let ghost removed = without_set(old(self)@, gi as int, pos as int);
        let _ = self.remove_set(gi, pos);
        assert(self@ == removed);
        assert(removed[gi as int].id == old(self)@[gi as int].id);
        match self.group_position_of(stamped.group_id) {
            Some(ti) => {
                assert(ti != gi);
                let n = self.push_set(ti, stamped);
                Some((ti, n))
            },
            None => None,
        }
    }

    /// Replaces set `pos` of group `gi` by `stamped`.
    fn replace_set(&mut self, gi: usize, pos: usize, stamped: CommandSet)
        requires
            gi < old(self)@.len(),
            pos < old(self)@[gi as int].sets.len(),
        ensures
            final(self)@ == old(self)@.update(
                gi as int,
                with_sets(old(self)@[gi as int], old(self)@[gi as int].sets.update(pos as int, stamped@)),
            ),
    {
        let ghost data = self@;
        let ghost sv = stamped@;
        let _ = self.remove_set(gi, pos);
        self.insert_set(gi, pos, stamped);
        assert(data[gi as int].sets.remove(pos as int).insert(pos as int, sv) =~= data[gi as int].sets.update(pos as int, sv));
    }

    /// Saves `set` with `updated_at` set to `now`, as `saved_data` says, and
    /// tells where it moved, as `saved_moves` says.
    pub fn save_set(&mut self, set: CommandSet, now: Timestamp) -> (res: (Option<usize>, Option<(usize, usize)>))
        ensures
            final(self)@ == saved_data(old(self)@, set@, now),
            res == saved_moves(old(self)@, set@),
            res.0 matches Some(gi) ==> gi < old(self)@.len() && final(self)@.len() == old(self)@.len()
                && final(self)@[gi as int].sets.len() == old(self)@[gi as int].sets.len() - 1,
    {
        let ghost data = self@;
        let mut stamped = set;
        stamped.updated_at = now;
        assert(stamped@ == CommandSetView { updated_at: now, ..set@ });
        match self.set_position_of(stamped.id) {
            None => (None, None),
            Some((gi, pos)) => {
                assert(data[gi as int].id == self.groups@[gi as int].id);
                if stamped.group_id != self.groups[gi].id {
                    let landed = self.move_set(gi, pos, stamped);
                    (Some(gi), landed)
                } else {
                    self.replace_set(gi, pos, stamped);
                    (None, None)
                }
            },
        }
    }

    /// Exchanges groups `a` and `b`.
    pub fn swap_groups(&mut self, a: usize, b: usize)
        requires
            a < old(self)@.len(),
            b < old(self)@.len(),
        ensures
            final(self)@ == swapped(old(self)@, a as int, b as int),
    {
        swap_items(&mut self.groups, a, b);
        assert(self@ =~= swapped(old(self)@, a as int, b as int));
    }

    /// Exchanges sets `a` and `b` of group `gi`.
    pub fn swap_sets(&mut self, gi: usize, a: usize, b: usize)
        requires
            gi < old(self)@.len(),
            a < old(self)@[gi as int].sets.len(),
            b < old(self)@[gi as int].sets.len(),
        ensures
            final(self)@ == old(self)@.update(
                gi as int,
                with_sets(old(self)@[gi as int], swapped(old(self)@[gi as int].sets, a as int, b as int)),
            ),
    {
        let ghost g0 = self.groups@[gi as int];
        swap_items(&mut self.groups[gi].sets, a, b);
        assert(sets_view(self.groups@[gi as int].sets@) =~= swapped(sets_view(g0.sets@), a as int, b as int));
        assert(self@ =~= old(self)@.update(
            gi as int,
            with_sets(old(self)@[gi as int], swapped(old(self)@[gi as int].sets, a as int, b as int)),
        ));
    }
}

} // verus!
