//! Case-insensitive matching of a query in a text: contiguous matches for
//! highlighting, and a fuzzy (in-order subsequence) match for filtering.

use vstd::prelude::*;
use crate::lowercase::{lower_all, lower_all_exec, lower_each, lower_each_exec};
use crate::text::{
    byte_len, char_len, char_utf8_len, chars_of, lemma_utf8_len_full, lemma_utf8_len_take_mono,
    lemma_utf8_len_take_step, utf8_len,
};

verus! {

/// Byte offset of char index `i` of `s`.
pub open spec fn byte_at(s: Seq<char>, i: int) -> int {
    utf8_len(s.take(i)) as int
}

/// The byte offsets of every char boundary of `s`: entry `i` is the offset
/// of char `i`, and the last entry is the length of `s` in bytes.
pub fn boundary_offsets(s: &str) -> (res: (Vec<char>, Vec<usize>))
    ensures
        res.0@ == s@,
        res.1@.len() == s@.len() + 1,
        forall|i: int| 0 <= i <= s@.len() ==> #[trigger] res.1@[i] == byte_at(s@, i),
        forall|i: int| 0 <= i <= s@.len() ==> #[trigger] res.1@[i] <= isize::MAX,
{
    let total = byte_len(s);
    let chars = chars_of(s);
    let mut offs: Vec<usize> = Vec::new();
    offs.push(0);
    let mut pos: usize = 0;
    let mut i: usize = 0;
    assert(chars@.take(0) =~= Seq::<char>::empty());
    while i < chars.len()
        invariant
            i <= chars.len(),
            chars@ == s@,
            total == utf8_len(s@),
            total <= isize::MAX,
            offs@.len() == i + 1,
            pos == utf8_len(chars@.take(i as int)),
            forall|j: int| 0 <= j <= i ==> #[trigger] offs@[j] == byte_at(s@, j),
            forall|j: int| 0 <= j <= i ==> #[trigger] offs@[j] <= isize::MAX,
        decreases chars.len() - i,
    {
        proof {
            lemma_utf8_len_take_step(chars@, i as int);
            lemma_utf8_len_take_mono(chars@, i as int + 1, chars@.len() as int);
            lemma_utf8_len_full(chars@);
        }
        pos = pos + char_utf8_len(chars[i]);
        offs.push(pos);
        i = i + 1;
    }
    (chars, offs)
}

/// Non-overlapping matches of `q` in `t`, scanning from char index `i`:
/// each match is the char range it covers; after a match the scan resumes
/// past it.
pub open spec fn contiguous_matches(t: Seq<char>, q: Seq<char>, i: int) -> Seq<(int, int)>
    decreases t.len() - i,
{
    if q.len() == 0 || i < 0 || i + q.len() > t.len() {
        Seq::empty()
    } else if t.subrange(i, i + q.len()) == q {
        seq![(i, i + q.len())] + contiguous_matches(t, q, i + q.len())
    } else {
        contiguous_matches(t, q, i + 1)
    }
}

/// The byte ranges in `s` of the char ranges `ranges`.
pub open spec fn byte_ranges(s: Seq<char>, ranges: Seq<(int, int)>) -> Seq<(usize, usize)> {
    ranges.map_values(|r: (int, int)| (byte_at(s, r.0) as usize, byte_at(s, r.1) as usize))
}

/// Case-insensitive matches of `query` in `text`, as byte ranges of `text`:
/// the text is compared char by char in lower case, the query by its full
/// lower-case form; matches do not overlap and are found left to right.
pub open spec fn case_insensitive_matches(text: Seq<char>, query: Seq<char>) -> Seq<(usize, usize)> {
    if query.len() == 0 {
        Seq::empty()
    } else {
        byte_ranges(text, contiguous_matches(lower_each(text), lower_all(query), 0))
    }
}

/// Whether `q` matches `t` at char index `i`.
fn matches_at(t: &Vec<char>, q: &Vec<char>, i: usize) -> (res: bool)
    requires
        i + q.len() <= t.len(),
    ensures
        res == (t@.subrange(i as int, i + q.len()) == q@),
{
    let mut j: usize = 0;
    while j < q.len()
        invariant
            j <= q.len(),
            i + q.len() <= t.len(),
            forall|k: int| 0 <= k < j ==> t@[i + k] == q@[k],
        decreases q.len() - j,
    {
        if t[i + j] != q[j] {
            assert(t@.subrange(i as int, i + q.len())[j as int] != q@[j as int]);
            return false;
        }
        j = j + 1;
    }
    assert(t@.subrange(i as int, i + q.len()) =~= q@);
    true
}

/// Find case-insensitive matches of `query` in `text`, returning byte-offset
/// pairs into `text` that are valid for slicing.
pub fn find_matches_case_insensitive(text: &str, query: &str) -> (res: Vec<(usize, usize)>)
    ensures
        res@ == case_insensitive_matches(text@, query@),
{
    if query.is_empty() {
        return Vec::new();
    }
    let (chars, offs) = boundary_offsets(text);
    let qchars = chars_of(query);
    let ql = lower_all_exec(&qchars);
    let tl = lower_each_exec(&chars);
    let ghost full = contiguous_matches(tl@, ql@, 0);
    let mut out: Vec<(usize, usize)> = Vec::new();
    let mut acc: Ghost<Seq<(int, int)>> = Ghost(Seq::empty());
    let mut i: usize = 0;
    while i <= tl.len() && ql.len() <= tl.len() - i
        invariant
            ql@.len() > 0,
            tl@.len() == chars@.len(),
            chars@ == text@,
            offs@.len() == text@.len() + 1,
            forall|k: int| 0 <= k <= text@.len() ==> #[trigger] offs@[k] == byte_at(text@, k),
            i <= tl.len() + 1,
            full == acc@ + contiguous_matches(tl@, ql@, i as int),
            out@ == byte_ranges(text@, acc@),
            forall|k: int| 0 <= k < acc@.len() ==> 0 <= #[trigger] acc@[k].0 <= acc@[k].1 <= i,
        decreases tl.len() + 1 - i,
    {
        if matches_at(&tl, &ql, i) {
            let e = i + ql.len();
            out.push((offs[i], offs[e]));
            proof {
                let old_acc = acc@;
                acc@ = acc@.push((i as int, e as int));
                assert(byte_ranges(text@, acc@) =~= byte_ranges(text@, old_acc).push(
                    (byte_at(text@, i as int) as usize, byte_at(text@, e as int) as usize),
                ));
                assert(seq![(i as int, e as int)] + contiguous_matches(tl@, ql@, e as int)
                    == contiguous_matches(tl@, ql@, i as int));
                assert(old_acc + contiguous_matches(tl@, ql@, i as int)
                    =~= acc@ + contiguous_matches(tl@, ql@, e as int));
            }
            i = e;
        } else {
            i = i + 1;
        }
    }
    proof {
        assert(contiguous_matches(tl@, ql@, i as int) =~= Seq::<(int, int)>::empty());
        assert(full =~= acc@);
    }
    out
}

/// Index of the first char of `t` at or after `from` that equals `c`, or -1.
pub open spec fn first_at(t: Seq<char>, c: char, from: int) -> int
    decreases t.len() - from,
{
    if from < 0 || from >= t.len() {
        -1
    } else if t[from] == c {
        from
    } else {
        first_at(t, c, from + 1)
    }
}

/// `prefix` followed by the positions of `rest`, when there are any.
pub open spec fn prepend(prefix: Seq<int>, rest: Option<Seq<int>>) -> Option<Seq<int>> {
    match rest {
        Some(r) => Some(prefix + r),
        None => None,
    }
}

/// Greedy in-order match of the chars of `q` in `t` from index `from`: each
/// query char is matched to the first equal text char after the previous
/// match. `None` when some query char finds no partner.
pub open spec fn greedy_match(t: Seq<char>, q: Seq<char>, from: int) -> Option<Seq<int>>
    decreases q.len(),
{
    if q.len() == 0 {
        Some(Seq::empty())
    } else {
        let j = first_at(t, q[0], from);
        if j < 0 {
            None
        } else {
            prepend(seq![j], greedy_match(t, q.drop_first(), j + 1))
        }
    }
}

/// The fuzzy match of `query` in `text`: `text` compared char by char in
/// lower case against the full lower-case form of `query`; on success the
/// byte range of each matched char of `text`.
pub open spec fn fuzzy(text: Seq<char>, query: Seq<char>) -> Option<Seq<(usize, usize)>> {
    match greedy_match(lower_each(text), lower_all(query), 0) {
        Some(ps) => Some(ps.map_values(|p: int| (byte_at(text, p) as usize, byte_at(text, p + 1) as usize))),
        None => None,
    }
}

pub proof fn lemma_first_at_bounds(t: Seq<char>, c: char, from: int)
    ensures
        first_at(t, c, from) == -1 || (from <= first_at(t, c, from) < t.len() && t[first_at(t, c, from)] == c),
    decreases t.len() - from,
{
    if from >= 0 && from < t.len() && t[from] != c {
        lemma_first_at_bounds(t, c, from + 1);
    }
}

pub proof fn lemma_greedy_in_bounds(t: Seq<char>, q: Seq<char>, from: int)
    requires
        from >= 0,
    ensures
        greedy_match(t, q, from) matches Some(ps) ==> ps.len() == q.len()
            && forall|k: int| 0 <= k < ps.len() ==> from <= #[trigger] ps[k] < t.len(),
    decreases q.len(),
{
    if q.len() > 0 {
        let j = first_at(t, q[0], from);
        lemma_first_at_bounds(t, q[0], from);
        if j >= 0 {
            lemma_greedy_in_bounds(t, q.drop_first(), j + 1);
            if let Some(rest) = greedy_match(t, q.drop_first(), j + 1) {
                let ps = seq![j] + rest;
                assert forall|k: int| 0 <= k < ps.len() implies from <= #[trigger] ps[k] < t.len() by {
                    if k > 0 {
                        assert(ps[k] == rest[k - 1]);
                    }
                }
            }
        }
    }
}

/// `ps` places the chars of `q` in `t` in order from index `from` on: one
/// position per query char, holding that char, each after the one before.
pub open spec fn picks_in_order(t: Seq<char>, q: Seq<char>, ps: Seq<int>, from: int) -> bool {
    &&& ps.len() == q.len()
    &&& forall|k: int| 0 <= k < ps.len() ==> from <= #[trigger] ps[k] < t.len() && t[ps[k]] == q[k]
    &&& forall|k: int, l: int| 0 <= k < l < ps.len() ==> #[trigger] ps[k] < #[trigger] ps[l]
}

proof fn lemma_first_at_before(t: Seq<char>, c: char, from: int, i: int)
    requires
        0 <= from <= i < t.len(),
        t[i] == c,
    ensures
        from <= first_at(t, c, from) <= i,
    decreases i - from,
{
    if t[from] != c {
        lemma_first_at_before(t, c, from + 1, i);
    }
}

proof fn lemma_greedy_picks(t: Seq<char>, q: Seq<char>, from: int)
    requires
        from >= 0,
    ensures
        greedy_match(t, q, from) matches Some(ps) ==> picks_in_order(t, q, ps, from),
        (exists|ps: Seq<int>| picks_in_order(t, q, ps, from)) ==> greedy_match(t, q, from) is Some,
    decreases q.len(),
{
    if q.len() > 0 {
        let j = first_at(t, q[0], from);
        lemma_first_at_bounds(t, q[0], from);
        if j >= 0 {
            lemma_greedy_picks(t, q.drop_first(), j + 1);
            if let Some(r) = greedy_match(t, q.drop_first(), j + 1) {
                let ps = seq![j] + r;
                assert forall|k: int| 0 <= k < ps.len() implies from <= #[trigger] ps[k] < t.len() && t[ps[k]] == q[k] by {
                    if k > 0 {
                        assert(ps[k] == r[k - 1]);
                        assert(q.drop_first()[k - 1] == q[k]);
                    }
                }
                assert forall|k: int, l: int| 0 <= k < l < ps.len() implies #[trigger] ps[k] < #[trigger] ps[l] by {
                    assert(ps[l] == r[l - 1]);
                    if k > 0 {
                        assert(ps[k] == r[k - 1]);
                    }
                }
            }
        }
        if exists|ps: Seq<int>| picks_in_order(t, q, ps, from) {
            let ps = choose|ps: Seq<int>| picks_in_order(t, q, ps, from);
            assert(from <= ps[0] < t.len() && t[ps[0]] == q[0]);
            lemma_first_at_before(t, q[0], from, ps[0]);
            let rest = ps.drop_first();
            assert forall|k: int| 0 <= k < rest.len() implies j + 1 <= #[trigger] rest[k] < t.len()
                && t[rest[k]] == q.drop_first()[k] by {
                assert(rest[k] == ps[k + 1]);
                assert(ps[0] < ps[k + 1]);
            }
            assert forall|k: int, l: int| 0 <= k < l < rest.len() implies #[trigger] rest[k] < #[trigger] rest[l] by {
                assert(rest[k] == ps[k + 1] && rest[l] == ps[l + 1]);
            }
            assert(picks_in_order(t, q.drop_first(), rest, j + 1));
        }
    }
}

/// A fuzzy match succeeds exactly when the chars of the lower-cased query
/// can be found in the lower-cased text in order, each at a later char than
/// the one before (so a char the query repeats must occur as often in the
/// text); on success it reports one byte range per query char, for such an
/// in-order placement.
pub proof fn lemma_fuzzy_is_in_order_subsequence(text: Seq<char>, query: Seq<char>)
    ensures
        fuzzy(text, query) is Some <==> exists|ps: Seq<int>| picks_in_order(lower_each(text), lower_all(query), ps, 0),
        fuzzy(text, query) matches Some(r) ==> r.len() == lower_all(query).len() && exists|ps: Seq<int>| {
            &&& picks_in_order(lower_each(text), lower_all(query), ps, 0)
            &&& r == ps.map_values(|p: int| (byte_at(text, p) as usize, byte_at(text, p + 1) as usize))
        },
{
    lemma_greedy_picks(lower_each(text), lower_all(query), 0);
    if let Some(ps) = greedy_match(lower_each(text), lower_all(query), 0) {
        assert(picks_in_order(lower_each(text), lower_all(query), ps, 0));
    }
}

/// Fuzzy-match `query` against `text` (see [`fuzzy`]).
pub fn fuzzy_match(text: &str, query: &str) -> (res: Option<Vec<(usize, usize)>>)
    ensures
        match res {
            Some(v) => fuzzy(text@, query@) == Some(v@),
            None => fuzzy(text@, query@) is None,
        },
{
    let (chars, offs) = boundary_offsets(text);
    let qchars = chars_of(query);
    let q = lower_all_exec(&qchars);
    let t = lower_each_exec(&chars);
    let ghost full = greedy_match(t@, q@, 0);
    let mut positions: Vec<usize> = Vec::new();
    let mut ti: usize = 0;
    let mut qi: usize = 0;
    proof {
        assert(q@.skip(0) =~= q@);
        assert(positions@.map_values(|p: usize| p as int) =~= Seq::<int>::empty());
        match greedy_match(t@, q@, 0) {
            Some(r) => { assert(Seq::<int>::empty() + r =~= r); },
            None => {},
        }
    }
    while qi < q.len()
        invariant
            qi <= q.len(),
            ti <= t.len(),
            t@.len() == chars@.len(),
            t@ == lower_each(text@),
            q@ == lower_all(query@),
            full == greedy_match(t@, q@, 0),
            full == prepend(positions@.map_values(|p: usize| p as int), greedy_match(t@, q@.skip(qi as int), ti as int)),
            forall|k: int| 0 <= k < positions@.len() ==> #[trigger] positions@[k] < t.len(),
        decreases q.len() - qi,
    {
        let c = q[qi];
        let mut k: usize = ti;
        while k < t.len() && t[k] != c
            invariant
                ti <= k <= t.len(),
                first_at(t@, c, ti as int) == first_at(t@, c, k as int),
            decreases t.len() - k,
        {
            k = k + 1;
        }
        let ghost rest = q@.skip(qi as int);
        assert(rest[0] == c);
        assert(rest.drop_first() =~= q@.skip(qi + 1));
        if k == t.len() {
            assert(first_at(t@, c, k as int) == -1);
            assert(greedy_match(t@, rest, ti as int) is None);
            assert(full is None);
            return None;
        }
        proof {
            let pv = positions@.map_values(|p: usize| p as int);
            assert(pv.push(k as int) =~= (positions@.push(k)).map_values(|p: usize| p as int));
            assert(prepend(pv, prepend(seq![k as int], greedy_match(t@, q@.skip(qi + 1), k + 1)))
                == prepend(pv.push(k as int), greedy_match(t@, q@.skip(qi + 1), k + 1))) by {
                match greedy_match(t@, q@.skip(qi + 1), k + 1) {
                    Some(r) => { assert(pv + (seq![k as int] + r) =~= pv.push(k as int) + r); },
                    None => {},
                }
            }
        }
        positions.push(k);
        ti = k + 1;
        qi = qi + 1;
    }
    proof {
        assert(q@.skip(qi as int).len() == 0);
        let pv = positions@.map_values(|p: usize| p as int);
        assert(pv + Seq::<int>::empty() =~= pv);
        assert(full == Some(pv));
    }
    let mut out: Vec<(usize, usize)> = Vec::new();
    let mut i: usize = 0;
    while i < positions.len()
        invariant
            i <= positions.len(),
            offs@.len() == text@.len() + 1,
            t@.len() == text@.len(),
            forall|k: int| 0 <= k <= text@.len() ==> #[trigger] offs@[k] == byte_at(text@, k),
            forall|k: int| 0 <= k < positions@.len() ==> #[trigger] positions@[k] < t.len(),
            out@ == positions@.take(i as int).map_values(
                |p: usize| (byte_at(text@, p as int) as usize, byte_at(text@, p + 1) as usize),
            ),
        decreases positions.len() - i,
    {
        let p = positions[i];
        out.push((offs[p], offs[p + 1]));
        assert(out@ =~= positions@.take(i + 1).map_values(
            |p: usize| (byte_at(text@, p as int) as usize, byte_at(text@, p + 1) as usize),
        ));
        i = i + 1;
    }
    proof {
        let pv = positions@.map_values(|p: usize| p as int);
        assert(positions@.take(positions@.len() as int) =~= positions@);
        assert(out@ =~= pv.map_values(|p: int| (byte_at(text@, p) as usize, byte_at(text@, p + 1) as usize)));
    }
    Some(out)
}

} // verus!
