//! The command-line side of the library: finding a set from its id or its
//! group and set names, `--var` overrides, defaults, the text of ids, and
//! the column text of search results.

use vstd::prelude::*;
use crate::error::CliError;
use crate::models::{AppData, CommandSet, GroupView};
use crate::executor::owned_pairs_view;
use crate::lowercase::{str_lower, str_to_lowercase};
use crate::models::queries::id_absent_in;
use crate::executor::ExecuteResult;
use crate::models::queries::filter_spec;
use crate::models::{shell_label, ExecMode, Group, Variable};
use crate::text::{contains, decimal, occurs_at, push_decimal, str_contains};
use crate::text::{
    byte_len, chars_of, copy_str, find_char, find_char_exec, floor_chars, push_char, push_str, str_eq, string_of_range,
    trim_str, trimmed, utf8_len,
};
use crate::ui::text_input::floor_boundary;

verus! {

/// The lower-case hex digit of `d`, for `d < 16`.
pub open spec fn hex_char(d: nat) -> char {
    if d < 10 { ((d + 48) as u8) as char } else { ((d + 87) as u8) as char }
}

/// The last `k` hex digits of `n`, most significant first.
pub open spec fn hex_digits(n: nat, k: nat) -> Seq<char>
    decreases k,
{
    if k == 0 {
        Seq::empty()
    } else {
        hex_digits(n / 16, (k - 1) as nat).push(hex_char(n % 16))
    }
}

/// The hyphenated text of a UUID: its 32 lower-case hex digits grouped
/// 8-4-4-4-12.
pub open spec fn uuid_text(id: u128) -> Seq<char> {
    let h = hex_digits(id as nat, 32);
    h.subrange(0, 8) + "-"@ + h.subrange(8, 12) + "-"@ + h.subrange(12, 16) + "-"@ + h.subrange(16, 20) + "-"@
        + h.subrange(20, 32)
}

proof fn lemma_hex_digits_len(n: nat, k: nat)
    ensures
        hex_digits(n, k).len() == k,
    decreases k,
{
    if k > 0 {
        lemma_hex_digits_len(n / 16, (k - 1) as nat);
    }
}

fn hex_char_exec(d: u8) -> (c: char)
    requires
        d < 16,
    ensures
        c == hex_char(d as nat),
{
    if d < 10 {
        let b: u8 = d + 48;
        b as char
    } else {
        let b: u8 = d + 87;
        b as char
    }
}

fn hex_digits_exec(n: u128, k: usize) -> (res: Vec<char>)
    ensures
        res@ == hex_digits(n as nat, k as nat),
    decreases k,
{
    if k == 0 {
        Vec::new()
    } else {
        let mut v = hex_digits_exec(n / 16, k - 1);
        v.push(hex_char_exec((n % 16) as u8));
        v
    }
}

/// The hyphenated text of a UUID, as `Uuid`'s `Display` writes it.
pub fn uuid_to_string(id: u128) -> (res: String)
    ensures
        res@ == uuid_text(id),
{
    let h = hex_digits_exec(id, 32);
    proof {
        lemma_hex_digits_len(id as nat, 32);
        reveal_strlit("-");
    }
    let mut s = string_of_range(&h, 0, 8);
    push_str(&mut s, "-");
    let p = string_of_range(&h, 8, 12);
    push_str(&mut s, p.as_str());
    push_str(&mut s, "-");
    let p = string_of_range(&h, 12, 16);
    push_str(&mut s, p.as_str());
    push_str(&mut s, "-");
    let p = string_of_range(&h, 16, 20);
    push_str(&mut s, p.as_str());
    push_str(&mut s, "-");
    let p = string_of_range(&h, 20, 32);
    push_str(&mut s, p.as_str());
    s
}

/// `s` cut to fit `max` bytes: whole when it fits, else the characters
/// that fit in `max - 1` bytes followed by `…`.
pub open spec fn truncated(s: Seq<char>, max: int) -> Seq<char> {
    if utf8_len(s) <= max {
        s
    } else {
        s.take(floor_chars(s, if max > 0 { max - 1 } else { 0 })) + seq!['…']
    }
}

/// Cuts `s` to fit a column of `max` bytes, marking a cut with `…`.
pub fn truncate(s: &str, max: usize) -> (res: String)
    ensures
        res@ == truncated(s@, max as int),
{
    let n = byte_len(s);
    if n <= max {
        return copy_str(s);
    }
    let chars = chars_of(s);
    let (k, _) = floor_boundary(&chars, max.saturating_sub(1));
    let mut r = string_of_range(&chars, 0, k);
    push_char(&mut r, '…');
    r
}

/// The code of `c` with ASCII upper-case letters lowered.
pub open spec fn ascii_lower_code(c: char) -> u32 {
    if 65 <= (c as u32) <= 90 { ((c as u32) + 32) as u32 } else { c as u32 }
}

/// `a` and `b` are equal up to ASCII case.
pub open spec fn eq_ascii_ci(a: Seq<char>, b: Seq<char>) -> bool {
    a.len() == b.len() && forall|i: int| 0 <= i < a.len() ==> ascii_lower_code(#[trigger] a[i]) == ascii_lower_code(b[i])
}

/// Whether `a` and `b` are equal up to ASCII case (`str::eq_ignore_ascii_case`).
pub fn eq_ignore_ascii_case(a: &str, b: &str) -> (res: bool)
    ensures
        res == eq_ascii_ci(a@, b@),
{
    let x = chars_of(a);
    let y = chars_of(b);
    if x.len() != y.len() {
        return false;
    }
    let mut i: usize = 0;
    while i < x.len()
        invariant
            x@ == a@,
            y@ == b@,
            x@.len() == y@.len(),
            i <= x@.len(),
            forall|j: int| 0 <= j < i ==> ascii_lower_code(#[trigger] x@[j]) == ascii_lower_code(y@[j]),
        decreases x@.len() - i,
    {
        let cx = x[i] as u32;
        let cy = y[i] as u32;
        let lx = if 65 <= cx && cx <= 90 { cx + 32 } else { cx };
        let ly = if 65 <= cy && cy <= 90 { cy + 32 } else { cy };
        if lx != ly {
            return false;
        }
        i = i + 1;
    }
    true
}

/// `--var default` alone asks for the default values without prompting.
pub open spec fn uses_defaults(vars: Seq<Seq<char>>) -> bool {
    vars.len() == 1 && eq_ascii_ci(vars[0], "default"@)
}

/// The text of each of `v`.
pub open spec fn texts(v: Seq<String>) -> Seq<Seq<char>> {
    v.map_values(|s: String| s@)
}

/// Whether the `--var` values ask for the defaults without prompting.
pub fn use_defaults(vars: &Vec<String>) -> (res: bool)
    ensures
        res == uses_defaults(texts(vars@)),
{
    vars.len() == 1 && eq_ignore_ascii_case(vars[0].as_str(), "default")
}

/// Index of the first pair of `m` whose key is `k`.
pub open spec fn key_index(m: Seq<(Seq<char>, Seq<char>)>, k: Seq<char>) -> Option<int> {
    if exists|i: int| 0 <= i < m.len() && m[i].0 == k {
        Some(choose|i: int| 0 <= i < m.len() && m[i].0 == k && forall|j: int| 0 <= j < i ==> m[j].0 != k)
    } else {
        None
    }
}

/// `m`, a list of distinct keys with their values, with `k` set to `v`: the
/// value of a present key is replaced in place, a new key goes last.
pub open spec fn map_put(m: Seq<(Seq<char>, Seq<char>)>, k: Seq<char>, v: Seq<char>) -> Seq<(Seq<char>, Seq<char>)> {
    match key_index(m, k) {
        Some(i) => m.update(i, (k, v)),
        None => m.push((k, v)),
    }
}

/// The key and value of an override `key=value`, split at the first `=`
/// and trimmed; `None` without `=`.
pub open spec fn split_override(ov: Seq<char>) -> Option<(Seq<char>, Seq<char>)> {
    match find_char(ov, '=') {
        Some(i) => Some((trimmed(ov.take(i)), trimmed(ov.skip(i + 1)))),
        None => None,
    }
}

/// The overrides given by the first `n` of `ovs`, a later value for a key
/// replacing an earlier one, or the first of them without `=`.
pub open spec fn parsed_overrides(ovs: Seq<Seq<char>>, n: int) -> Result<Seq<(Seq<char>, Seq<char>)>, Seq<char>>
    decreases n,
{
    if n <= 0 {
        Ok(Seq::empty())
    } else {
        match parsed_overrides(ovs, n - 1) {
            Err(e) => Err(e),
            Ok(m) => match split_override(ovs[n - 1]) {
                Some((k, v)) => Ok(map_put(m, k, v)),
                None => Err(ovs[n - 1]),
            },
        }
    }
}

/// Once an override fails to parse, the parse of any longer prefix fails
/// with it.
proof fn lemma_parse_error_sticks(ovs: Seq<Seq<char>>, n: int, m: int)
    requires
        n <= m,
        parsed_overrides(ovs, n) is Err,
    ensures
        parsed_overrides(ovs, m) == parsed_overrides(ovs, n),
    decreases m - n,
{
    if n < m {
        lemma_parse_error_sticks(ovs, n, m - 1);
    }
}

/// Index of the first pair of `m` whose key is `k`.
fn key_index_exec(m: &Vec<(String, String)>, k: &str) -> (res: Option<usize>)
    ensures
        match res {
            Some(i) => key_index(owned_pairs_view(m@), k@) == Some(i as int) && i < m@.len(),
            None => key_index(owned_pairs_view(m@), k@) is None,
        },
{
    let ghost v = owned_pairs_view(m@);
    let mut i: usize = 0;
    while i < m.len()
        invariant
            v == owned_pairs_view(m@),
            i <= m@.len(),
            forall|j: int| 0 <= j < i ==> v[j].0 != k@,
        decreases m@.len() - i,
    {
        assert(v[i as int].0 == m@[i as int].0@);
        if str_eq(m[i].0.as_str(), k) {
            proof {
                let w = choose|x: int| 0 <= x < v.len() && v[x].0 == k@ && forall|j: int| 0 <= j < x ==> v[j].0 != k@;
                assert(0 <= i < v.len() && v[i as int].0 == k@ && forall|j: int| 0 <= j < i ==> v[j].0 != k@);
                if w < i {
                } else if w > i {
                }
                assert(w == i);
            }
            return Some(i);
        }
        i = i + 1;
    }
    None
}

/// Sets key `k` of the pair list `m` to `v`, as `map_put` says.
pub fn put_pair(m: &mut Vec<(String, String)>, k: String, v: String)
    ensures
        owned_pairs_view(final(m)@) == map_put(owned_pairs_view(old(m)@), k@, v@),
{
    let ghost kv = k@;
    let ghost vv = v@;
    match key_index_exec(m, k.as_str()) {
        Some(i) => {
            m.set(i, (k, v));
            assert(owned_pairs_view(m@) =~= owned_pairs_view(old(m)@).update(i as int, (kv, vv)));
        },
        None => {
            m.push((k, v));
            assert(owned_pairs_view(m@) =~= owned_pairs_view(old(m)@).push((kv, vv)));
        },
    }
}

/// Parses `--var key=value` overrides into a list of distinct keys with
/// their values (a later value for a key replaces an earlier one). The
/// first override without `=` is an error.
pub fn parse_var_overrides(overrides: &Vec<String>) -> (res: Result<Vec<(String, String)>, CliError>)
    ensures
        match parsed_overrides(texts(overrides@), overrides@.len() as int) {
            Ok(m) => res matches Ok(v) && owned_pairs_view(v@) == m,
            Err(bad) => res matches Err(CliError::InvalidVar(s)) && s@ == bad,
        },
{
    let ghost ovs = texts(overrides@);
    let mut map: Vec<(String, String)> = Vec::new();
    assert(owned_pairs_view(map@) =~= Seq::<(Seq<char>, Seq<char>)>::empty());
    let mut i: usize = 0;
    while i < overrides.len()
        invariant
            ovs == texts(overrides@),
            i <= overrides@.len(),
            parsed_overrides(ovs, i as int) == Ok::<Seq<(Seq<char>, Seq<char>)>, Seq<char>>(owned_pairs_view(map@)),
        decreases overrides@.len() - i,
    {
        let ov = &overrides[i];
        assert(ovs[i as int] == ov@);
        let chars = chars_of(ov.as_str());
        match find_char_exec(&chars, '=') {
            Some(eq) => {
                let k = trim_str(string_of_range(&chars, 0, eq).as_str());
                let v = trim_str(string_of_range(&chars, eq + 1, chars.len()).as_str());
                assert(chars@.subrange(0, eq as int) =~= ov@.take(eq as int));
                assert(chars@.subrange(eq + 1, chars@.len() as int) =~= ov@.skip(eq + 1));
                put_pair(&mut map, k, v);
            },
            None => {
                proof {
                    lemma_parse_error_sticks(ovs, i + 1, overrides@.len() as int);
                }
                return Err(CliError::InvalidVar(ov.clone()));
            },
        }
        i = i + 1;
    }
    Ok(map)
}

/// Takes the override for variable `name` out of `m`, if there is one.
pub fn take_override(m: &mut Vec<(String, String)>, name: &str) -> (res: Option<String>)
    ensures
        match key_index(owned_pairs_view(old(m)@), name@) {
            Some(i) => res matches Some(v) && v@ == owned_pairs_view(old(m)@)[i].1
                && owned_pairs_view(final(m)@) == owned_pairs_view(old(m)@).remove(i),
            None => res is None && final(m)@ == old(m)@,
        },
{
    match key_index_exec(m, name) {
        Some(i) => {
            let (_, v) = m.remove(i);
            assert(owned_pairs_view(m@) =~= owned_pairs_view(old(m)@).remove(i as int));
            Some(v)
        },
        None => None,
    }
}

/// The value of a variable from the line typed at its prompt: the trimmed
/// line, or `default` when it is blank or could not be read.
pub open spec fn answer_value(input: Option<Seq<char>>, default: Seq<char>) -> Seq<char> {
    match input {
        Some(line) => if trimmed(line).len() == 0 { default } else { trimmed(line) },
        None => default,
    }
}

/// The value of a variable from the line typed at its prompt (`None` when
/// reading failed).
pub fn answer_or_default(input: Option<&str>, default: &str) -> (res: String)
    ensures
        res@ == answer_value(match input { Some(l) => Some(l@), None => None }, default@),
{
    match input {
        Some(line) => {
            let t = trim_str(line);
            if chars_of(t.as_str()).len() == 0 {
                copy_str(default)
            } else {
                t
            }
        },
        None => copy_str(default),
    }
}

/// The default values of the first `n` of `vars`, by name.
pub open spec fn defaults_map(vars: Seq<Variable>, n: int) -> Seq<(Seq<char>, Seq<char>)>
    decreases n,
{
    if n <= 0 {
        Seq::empty()
    } else {
        map_put(defaults_map(vars, n - 1), vars[n - 1].name@, vars[n - 1].default_value@)
    }
}

/// The default values of the variables of `set`, by name.
pub fn defaults_of(set: &CommandSet) -> (res: Vec<(String, String)>)
    ensures
        owned_pairs_view(res@) == defaults_map(set.variables@, set.variables@.len() as int),
{
    let mut m: Vec<(String, String)> = Vec::new();
    let mut i: usize = 0;
    while i < set.variables.len()
        invariant
            i <= set.variables@.len(),
            owned_pairs_view(m@) == defaults_map(set.variables@, i as int),
        decreases set.variables@.len() - i,
    {
        let v = &set.variables[i];
        put_pair(&mut m, v.name.clone(), v.default_value.clone());
        i = i + 1;
    }
    m
}

/// What parsing text as a UUID gives (`uuid::Uuid::parse_str`, as the
/// UUID's 128-bit value).
pub uninterp spec fn uuid_parsed(s: Seq<char>) -> Option<u128>;

/// Parses a UUID (`uuid::Uuid::parse_str`); the result is named
/// `uuid_parsed`. The crate reads the hyphenated text of a UUID back as
/// that UUID; what it does with other texts is not stated here.
#[verifier::external_body]
fn parse_uuid(s: &str) -> (res: Option<u128>)
    ensures
        res == uuid_parsed(s@),
        forall|x: u128| #[trigger] uuid_text(x) == s@ ==> res == Some(x),
{
    uuid::Uuid::parse_str(s).ok().map(|u| u.as_u128())
}

/// `(gi, si)` is the first position, group by group, of a set with id `id`.
pub open spec fn first_with_id(data: Seq<GroupView>, id: u128, gi: int, si: int) -> bool {
    &&& 0 <= gi < data.len()
    &&& 0 <= si < data[gi].sets.len()
    &&& data[gi].sets[si].id == id
    &&& forall|g: int| 0 <= g < gi ==> id_absent_in(#[trigger] data[g], id, data[g].sets.len() as int)
    &&& id_absent_in(data[gi], id, si)
}

/// No set has id `id`.
pub open spec fn no_set_with_id(data: Seq<GroupView>, id: u128) -> bool {
    forall|g: int| 0 <= g < data.len() ==> id_absent_in(#[trigger] data[g], id, data[g].sets.len() as int)
}

/// Looking a set up by the text `id_text` of its id, which parsed as
/// `parsed`: an invalid UUID, the first set with that id, or none.
pub open spec fn by_uuid_post<'a>(
    data: Seq<GroupView>,
    id_text: Seq<char>,
    parsed: Option<u128>,
    res: Result<(&'a CommandSet, usize, usize), CliError>,
) -> bool {
    match parsed {
        None => res matches Err(CliError::InvalidUuid(t)) && t@ == id_text,
        Some(u) => match res {
            Ok((set, gi, si)) => first_with_id(data, u, gi as int, si as int) && set@ == data[gi as int].sets[si as int],
            Err(e) => no_set_with_id(data, u) && (e matches CliError::SetNotFound(t) && t@ == uuid_text(u)),
        },
    }
}

/// Looks up the set whose id the text `id_text` holds, given what parsing
/// that text as a UUID gave.
pub fn resolve_set_by_uuid<'a>(data: &'a AppData, id_text: String, parsed: Option<u128>) -> (res: Result<
    (&'a CommandSet, usize, usize),
    CliError,
>)
    ensures
        by_uuid_post(data@, id_text@, parsed, res),
{
    let u = match parsed {
        Some(u) => u,
        None => return Err(CliError::InvalidUuid(id_text)),
    };
    match data.find_set_by_id(u) {
        Some((gi, si)) => {
            assert(data@[gi as int].sets[si as int] == data.groups@[gi as int].sets@[si as int]@);
            Ok((&data.groups[gi].sets[si], gi, si))
        },
        None => Err(CliError::SetNotFound(uuid_to_string(u))),
    }
}

/// Positions of the sets among the first `n` of group `g` (at index `gi`)
/// whose group and set names, lower-cased, are `gl` and `sl`.
pub open spec fn name_hits_in(g: GroupView, gi: int, gl: Seq<char>, sl: Seq<char>, n: int) -> Seq<(int, int)>
    decreases n,
{
    if n <= 0 {
        Seq::empty()
    } else {
        name_hits_in(g, gi, gl, sl, n - 1) + if str_lower(g.name@) == gl && str_lower(g.sets[n - 1].name@) == sl {
            seq![(gi, n - 1)]
        } else {
            Seq::empty()
        }
    }
}

/// Positions of the sets in the first `k` groups whose group and set names,
/// lower-cased, are `gl` and `sl`, group by group.
pub open spec fn name_hits_upto(data: Seq<GroupView>, gl: Seq<char>, sl: Seq<char>, k: int) -> Seq<(int, int)>
    decreases k,
{
    if k <= 0 {
        Seq::empty()
    } else {
        name_hits_upto(data, gl, sl, k - 1) + name_hits_in(data[k - 1], k - 1, gl, sl, data[k - 1].sets.len() as int)
    }
}

/// Positions of the sets named `set` in groups named `group`, ignoring case.
pub open spec fn name_hits(data: Seq<GroupView>, group: Seq<char>, set: Seq<char>) -> Seq<(int, int)> {
    name_hits_upto(data, str_lower(group), str_lower(set), data.len() as int)
}

/// The line that shows a match among several: `  <id> | <group> | <set>`.
pub open spec fn hit_line(data: Seq<GroupView>, hit: (int, int)) -> Seq<char> {
    let g = data[hit.0];
    "  "@ + uuid_text(g.sets[hit.1].id) + " | "@ + g.name@ + " | "@ + g.sets[hit.1].name@
}

/// `lines` joined with newlines.
pub open spec fn joined(lines: Seq<Seq<char>>) -> Seq<char>
    decreases lines.len(),
{
    if lines.len() == 0 {
        Seq::empty()
    } else if lines.len() == 1 {
        lines[0]
    } else {
        joined(lines.drop_last()) + "\n"@ + lines.last()
    }
}

/// Looking a set up by its group and set names, ignoring case: the one
/// match, none, or several (listed one per line).
pub open spec fn by_names_post<'a>(
    data: Seq<GroupView>,
    group: Seq<char>,
    set: Seq<char>,
    res: Result<(&'a CommandSet, usize, usize), CliError>,
) -> bool {
    let hits = name_hits(data, group, set);
    if hits.len() == 0 {
        res matches Err(CliError::SetByGroupNotFound { group: g, set: s }) && g@ == group && s@ == set
    } else if hits.len() == 1 {
        res matches Ok((r, gi, si)) && gi == hits[0].0 && si == hits[0].1 && r@ == data[gi as int].sets[si as int]
    } else {
        res matches Err(CliError::Ambiguous { count, detail }) && count == hits.len()
            && detail@ == joined(hits.map_values(|h: (int, int)| hit_line(data, h)))
    }
}

/// The pairs of `v` as integers.
pub open spec fn positions(v: Seq<(usize, usize)>) -> Seq<(int, int)> {
    v.map_values(|p: (usize, usize)| (p.0 as int, p.1 as int))
}

/// The positions of the sets named `set` in groups named `group`, ignoring
/// case.
fn find_name_hits(data: &AppData, group: &str, set: &str) -> (res: Vec<(usize, usize)>)
    ensures
        positions(res@) == name_hits(data@, group@, set@),
        forall|k: int| 0 <= k < res@.len() ==> (#[trigger] res@[k]).0 < data@.len()
            && res@[k].1 < data@[res@[k].0 as int].sets.len(),
{
    let gl = str_to_lowercase(group);
    let sl = str_to_lowercase(set);
    let ghost d = data@;
    let mut hits: Vec<(usize, usize)> = Vec::new();
    let mut gi: usize = 0;
    assert(positions(hits@) =~= Seq::<(int, int)>::empty());
    while gi < data.groups.len()
        invariant
            d == data@,
            gi <= d.len(),
            positions(hits@) == name_hits_upto(d, gl@, sl@, gi as int),
            forall|k: int| 0 <= k < hits@.len() ==> (#[trigger] hits@[k]).0 < d.len()
                && hits@[k].1 < d[hits@[k].0 as int].sets.len(),
        decreases d.len() - gi,
    {
        let g = &data.groups[gi];
        assert(d[gi as int] == g@);
        let gname = str_to_lowercase(g.name.as_str());
        let group_matches = crate::text::str_eq(gname.as_str(), gl.as_str());
        let ghost base = positions(hits@);
        let mut si: usize = 0;
        while si < g.sets.len()
            invariant
                d == data@,
                gi < d.len(),
                d[gi as int] == g@,
                group_matches == (str_lower(g.name@) == gl@),
                si <= g.sets@.len(),
                positions(hits@) == base + name_hits_in(g@, gi as int, gl@, sl@, si as int),
                forall|k: int| 0 <= k < hits@.len() ==> (#[trigger] hits@[k]).0 < d.len()
                    && hits@[k].1 < d[hits@[k].0 as int].sets.len(),
            decreases g.sets@.len() - si,
        {
            assert(g@.sets[si as int] == g.sets@[si as int]@);
            if group_matches {
                let sname = str_to_lowercase(g.sets[si].name.as_str());
                if crate::text::str_eq(sname.as_str(), sl.as_str()) {
                    let ghost before = hits@;
                    hits.push((gi, si));
                    assert(positions(hits@) =~= positions(before).push((gi as int, si as int)));
                    assert(positions(hits@) =~= base + name_hits_in(g@, gi as int, gl@, sl@, si + 1));
                } else {
                    assert(positions(hits@) =~= base + name_hits_in(g@, gi as int, gl@, sl@, si + 1));
                }
            } else {
                assert(positions(hits@) =~= base + name_hits_in(g@, gi as int, gl@, sl@, si + 1));
            }
            si = si + 1;
        }
        gi = gi + 1;
    }
    hits
}

/// Looks up a set by its group and set names, ignoring case.
pub fn resolve_set_by_names<'a>(data: &'a AppData, group: String, set: String) -> (res: Result<
    (&'a CommandSet, usize, usize),
    CliError,
>)
    ensures
        by_names_post(data@, group@, set@, res),
{
    let hits = find_name_hits(data, group.as_str(), set.as_str());
    let ghost h = name_hits(data@, group@, set@);
    if hits.len() == 0 {
        return Err(CliError::SetByGroupNotFound { group, set });
    }
    if hits.len() == 1 {
        let (gi, si) = hits[0];
        assert(positions(hits@)[0] == (gi as int, si as int));
        assert(data@[gi as int].sets[si as int] == data.groups@[gi as int].sets@[si as int]@);
        return Ok((&data.groups[gi].sets[si], gi, si));
    }
    let ghost lines = h.map_values(|x: (int, int)| hit_line(data@, x));
    let mut detail = String::new();
    let mut k: usize = 0;
    proof {
        reveal_strlit("\n");
        reveal_strlit("  ");
        reveal_strlit(" | ");
    }
    while k < hits.len()
        invariant
            positions(hits@) == h,
            lines == h.map_values(|x: (int, int)| hit_line(data@, x)),
            k <= hits@.len(),
            detail@ == joined(lines.take(k as int)),
            forall|j: int| 0 <= j < hits@.len() ==> (#[trigger] hits@[j]).0 < data@.len()
                && hits@[j].1 < data@[hits@[j].0 as int].sets.len(),
        decreases hits@.len() - k,
    {
        let (gi, si) = hits[k];
        assert(positions(hits@)[k as int] == (gi as int, si as int));
        let g = &data.groups[gi];
        let st = &g.sets[si];
        assert(data@[gi as int] == g@);
        assert(g@.sets[si as int] == st@);
        if k > 0 {
            push_str(&mut detail, "\n");
        }
        push_str(&mut detail, "  ");
        let id_text = uuid_to_string(st.id);
        push_str(&mut detail, id_text.as_str());
        push_str(&mut detail, " | ");
        push_str(&mut detail, g.name.as_str());
        push_str(&mut detail, " | ");
        push_str(&mut detail, st.name.as_str());
        proof {
            assert(lines[k as int] == hit_line(data@, (gi as int, si as int)));
            assert(lines.take(k + 1).drop_last() =~= lines.take(k as int));
            if k == 0 {
                assert(lines.take(0) =~= Seq::<Seq<char>>::empty());
            }
            assert(detail@ =~= joined(lines.take(k + 1)));
        }
        k = k + 1;
    }
    assert(lines.take(hits@.len() as int) =~= lines);
    Err(CliError::Ambiguous { count: hits.len(), detail })
}

/// Looks up the set a command line names: by `id` when given, else by
/// `group` and `set` together.
pub fn resolve_set<'a>(data: &'a AppData, id: Option<String>, group: Option<String>, set: Option<String>) -> (res: Result<
    (&'a CommandSet, usize, usize),
    CliError,
>)
    ensures
        match id {
            Some(t) => by_uuid_post(data@, t@, uuid_parsed(t@), res),
            None => match (group, set) {
                (Some(g), Some(s)) => by_names_post(data@, g@, s@, res),
                _ => res matches Err(CliError::MissingArgs),
            },
        },
{
    match id {
        Some(t) => {
            let parsed = parse_uuid(t.as_str());
            resolve_set_by_uuid(data, t, parsed)
        },
        None => match (group, set) {
            (Some(g), Some(s)) => resolve_set_by_names(data, g, s),
            _ => Err(CliError::MissingArgs),
        },
    }
}

/// What a search shows of a set.
#[derive(Debug)]
pub struct SetInfo {
    pub id: String,
    pub name: String,
    pub group_name: String,
    pub shell: String,
    pub exec_mode: String,
    pub command_count: usize,
}

/// What a search shows of a group.
#[derive(Debug)]
pub struct GroupInfo {
    pub id: String,
    pub name: String,
    pub set_count: usize,
}

/// The name of an execution mode in search output.
pub open spec fn exec_mode_name(m: ExecMode) -> Seq<char> {
    match m {
        ExecMode::StopOnError => "stop_on_error"@,
        ExecMode::ContinueOnError => "continue_on_error"@,
    }
}

/// `i` shows `set` of the group named `group_name`.
pub open spec fn shows_set(i: SetInfo, set: crate::models::CommandSetView, group_name: Seq<char>) -> bool {
    &&& i.id@ == uuid_text(set.id)
    &&& i.name@ == set.name@
    &&& i.group_name@ == group_name
    &&& i.shell@ == shell_label(set.shell)
    &&& i.exec_mode@ == exec_mode_name(set.exec_mode)
    &&& i.command_count == set.commands.len()
}

/// The sets a search for `query` finds, as the search shows them.
pub fn search_sets(data: &AppData, query: &str) -> (res: Vec<SetInfo>)
    ensures
        res@.len() == filter_spec(data@, query@).len(),
        forall|k: int| #![trigger res@[k]] 0 <= k < res@.len() ==> {
            let (g, s) = filter_spec(data@, query@)[k];
            shows_set(res@[k], data@[g].sets[s], data@[g].name@)
        },
{
    let found = data.filter_sets(query);
    let mut res: Vec<SetInfo> = Vec::new();
    let mut k: usize = 0;
    while k < found.len()
        invariant
            k <= found@.len(),
            res@.len() == k,
            found@.len() == filter_spec(data@, query@).len(),
            forall|j: int| #![trigger found@[j]] 0 <= j < found@.len() ==> {
                let (g, s) = filter_spec(data@, query@)[j];
                &&& found@[j].group_index == g
                &&& found@[j].set_index == s
                &&& 0 <= g < data@.len()
                &&& 0 <= s < data@[g].sets.len()
                &&& found@[j].set@ == data@[g].sets[s]
            },
            forall|j: int| #![trigger res@[j]] 0 <= j < k ==> {
                let (g, s) = filter_spec(data@, query@)[j];
                shows_set(res@[j], data@[g].sets[s], data@[g].name@)
            },
        decreases found@.len() - k,
    {
        let r = &found[k];
        let ghost gs = filter_spec(data@, query@)[k as int];
        assert(found@[k as int].group_index == gs.0);
        let set = r.set;
        let gi = r.group_index;
        assert(data@[gi as int].name == data.groups@[gi as int].name);
        proof {
            reveal_strlit("stop_on_error");
            reveal_strlit("continue_on_error");
        }
        let exec_mode = match set.exec_mode {
            ExecMode::StopOnError => copy_str("stop_on_error"),
            ExecMode::ContinueOnError => copy_str("continue_on_error"),
        };
        res.push(SetInfo {
            id: uuid_to_string(set.id),
            name: set.name.clone(),
            group_name: data.groups[gi].name.clone(),
            shell: set.shell.label(),
            exec_mode,
            command_count: set.commands.len(),
        });
        k = k + 1;
    }
    res
}

/// Indices of the first `n` groups whose name contains `query`, ignoring
/// case.
pub open spec fn group_hits(data: Seq<GroupView>, query: Seq<char>, n: int) -> Seq<int>
    decreases n,
{
    if n <= 0 {
        Seq::empty()
    } else {
        group_hits(data, query, n - 1) + if contains(str_lower(data[n - 1].name@), str_lower(query)) {
            seq![n - 1]
        } else {
            Seq::empty()
        }
    }
}

/// The lower-cased name of group `i` holds the lower-cased query at some
/// position `p`: the `|query|` chars from `p` on are the query.
pub open spec fn name_holds_query(data: Seq<GroupView>, query: Seq<char>, i: int) -> bool {
    let name = str_lower(data[i].name@);
    let q = str_lower(query);
    exists|p: int| 0 <= p && p + q.len() <= name.len() && #[trigger] name.subrange(p, p + q.len()) == q
}

proof fn lemma_group_hits_upto(data: Seq<GroupView>, query: Seq<char>, n: int)
    requires
        0 <= n <= data.len(),
    ensures
        forall|i: int| #![trigger group_hits(data, query, n).contains(i)]
            group_hits(data, query, n).contains(i) <==> 0 <= i < n && name_holds_query(data, query, i),
        forall|k: int| 0 <= k < group_hits(data, query, n).len() ==> 0 <= #[trigger] group_hits(data, query, n)[k] < n,
        forall|k: int, l: int| 0 <= k < l < group_hits(data, query, n).len()
            ==> #[trigger] group_hits(data, query, n)[k] < #[trigger] group_hits(data, query, n)[l],
    decreases n,
{
    if n > 0 {
        lemma_group_hits_upto(data, query, n - 1);
        let prev = group_hits(data, query, n - 1);
        let cur = group_hits(data, query, n);
        let name = str_lower(data[n - 1].name@);
        let q = str_lower(query);
        assert(contains(name, q) <==> name_holds_query(data, query, n - 1)) by {
            if contains(name, q) {
                let p = choose|p: int| occurs_at(name, q, p);
                assert(name.subrange(p, p + q.len()) == q);
            }
            if name_holds_query(data, query, n - 1) {
                let p = choose|p: int| 0 <= p && p + q.len() <= name.len() && #[trigger] name.subrange(p, p + q.len()) == q;
                assert(occurs_at(name, q, p));
            }
        }
        assert forall|i: int| #![trigger cur.contains(i)] cur.contains(i) <==> 0 <= i < n && name_holds_query(data, query, i) by {
            if cur.contains(i) {
                let k = choose|k: int| 0 <= k < cur.len() && cur[k] == i;
                if k < prev.len() {
                    assert(prev[k] == i);
                    assert(prev.contains(i));
                }
            }
            if 0 <= i < n && name_holds_query(data, query, i) {
                if i < n - 1 {
                    assert(prev.contains(i));
                    let k = choose|k: int| 0 <= k < prev.len() && prev[k] == i;
                    assert(cur[k] == i);
                } else {
                    assert(cur[prev.len() as int] == i);
                }
            }
        }
        assert forall|k: int, l: int| 0 <= k < l < cur.len() implies #[trigger] cur[k] < #[trigger] cur[l] by {
            if l < prev.len() {
                assert(cur[k] == prev[k] && cur[l] == prev[l]);
            } else {
                assert(cur[k] == prev[k]);
            }
        }
        assert forall|k: int| 0 <= k < cur.len() implies 0 <= #[trigger] cur[k] < n by {
            if k < prev.len() {
                assert(cur[k] == prev[k]);
            }
        }
    }
}

/// The group search lists group `i` exactly when its lower-cased name holds
/// the lower-cased query somewhere, at any position; the groups listed come
/// in data order, each once.
pub proof fn lemma_group_search_is_substring_search(data: Seq<GroupView>, query: Seq<char>)
    ensures
        forall|i: int| #![trigger group_hits(data, query, data.len() as int).contains(i)]
            group_hits(data, query, data.len() as int).contains(i)
            <==> 0 <= i < data.len() && name_holds_query(data, query, i),
        forall|k: int, l: int| 0 <= k < l < group_hits(data, query, data.len() as int).len()
            ==> #[trigger] group_hits(data, query, data.len() as int)[k]
            < #[trigger] group_hits(data, query, data.len() as int)[l],
{
    lemma_group_hits_upto(data, query, data.len() as int);
}

/// `i` shows group `g`.
pub open spec fn shows_group(i: GroupInfo, g: GroupView) -> bool {
    &&& i.id@ == uuid_text(g.id)
    &&& i.name@ == g.name@
    &&& i.set_count == g.sets.len()
}

/// The groups whose name contains `query`, ignoring case, as the search
/// shows them.
pub fn search_groups(data: &AppData, query: &str) -> (res: Vec<GroupInfo>)
    ensures
        res@.len() == group_hits(data@, query@, data@.len() as int).len(),
        forall|k: int| #![trigger res@[k]] 0 <= k < res@.len() ==> {
            let g = group_hits(data@, query@, data@.len() as int)[k];
            0 <= g < data@.len() && shows_group(res@[k], data@[g])
        },
{
    let q = str_to_lowercase(query);
    let ghost all = group_hits(data@, query@, data@.len() as int);
    let mut idx: Vec<usize> = Vec::new();
    let mut gi: usize = 0;
    assert(data@.len() == data.groups@.len());
    while gi < data.groups.len()
        invariant
            data@.len() == data.groups@.len(),
            gi <= data@.len(),
            q@ == str_lower(query@),
            idx@.map_values(|x: usize| x as int) == group_hits(data@, query@, gi as int),
            forall|k: int| 0 <= k < idx@.len() ==> #[trigger] idx@[k] < gi,
        decreases data@.len() - gi,
    {
        let g = &data.groups[gi];
        assert(data@[gi as int] == g@);
        let name = str_to_lowercase(g.name.as_str());
        let ghost before = idx@;
        if str_contains(name.as_str(), q.as_str()) {
            idx.push(gi);
            assert(idx@.map_values(|x: usize| x as int) =~= before.map_values(|x: usize| x as int).push(gi as int));
        }
        gi = gi + 1;
    }
    let mut res: Vec<GroupInfo> = Vec::new();
    let mut k: usize = 0;
    while k < idx.len()
        invariant
            data@.len() == data.groups@.len(),
            idx@.map_values(|x: usize| x as int) == all,
            forall|j: int| 0 <= j < idx@.len() ==> #[trigger] idx@[j] < data@.len(),
            k <= idx@.len(),
            res@.len() == k,
            forall|j: int| #![trigger res@[j]] 0 <= j < k ==> shows_group(res@[j], data@[idx@[j] as int]),
        decreases idx@.len() - k,
    {
        let gi = idx[k];
        let g = &data.groups[gi];
        assert(data@[gi as int] == g@);
        res.push(GroupInfo { id: uuid_to_string(g.id), name: g.name.clone(), set_count: g.sets.len() });
        k = k + 1;
    }
    assert forall|j: int| #![trigger res@[j]] 0 <= j < res@.len() implies {
        let g = all[j];
        0 <= g < data@.len() && shows_group(res@[j], data@[g])
    } by {
        assert(all[j] == idx@[j] as int);
    }
    res
}

/// The summary printed after a blocking run with failures.
pub open spec fn failure_summary(r: ExecuteResult) -> Seq<char> {
    "Completed: "@ + decimal(r.succeeded as nat) + "/"@ + decimal(r.total as nat) + " succeeded, "@
        + decimal(r.failed as nat) + "/"@ + decimal(r.total as nat) + " failed"@
}

/// The exit code of a blocking run, with the summary to print when a
/// command failed.
pub fn run_outcome(r: &ExecuteResult) -> (res: (i32, Option<String>))
    ensures
        r.failed > 0 ==> res.0 == 1 && (res.1 matches Some(m) && m@ == failure_summary(*r)),
        r.failed == 0 ==> res.0 == 0 && res.1 is None,
{
    if r.failed == 0 {
        return (0, None);
    }
    proof {
        reveal_strlit("Completed: ");
        reveal_strlit("/");
        reveal_strlit(" succeeded, ");
        reveal_strlit(" failed");
    }
    let mut m = copy_str("Completed: ");
    push_decimal(&mut m, r.succeeded as u128);
    push_str(&mut m, "/");
    push_decimal(&mut m, r.total as u128);
    push_str(&mut m, " succeeded, ");
    push_decimal(&mut m, r.failed as u128);
    push_str(&mut m, "/");
    push_decimal(&mut m, r.total as u128);
    push_str(&mut m, " failed");
    (1, Some(m))
}

/// What `export` writes, given what parsing `id` as a UUID gave: every
/// group with `all`; else the set with that id alone in a copy of its
/// group; else the message to print.
pub open spec fn export_post(
    data: Seq<GroupView>,
    all: bool,
    id: Option<Seq<char>>,
    parsed: Option<u128>,
    res: Result<AppData, String>,
) -> bool {
    if all {
        res matches Ok(d) && d@ == data
    } else {
        match id {
            Some(t) => match parsed {
                None => res matches Err(m) && m@ == "Invalid UUID: "@ + t,
                Some(u) => match res {
                    Ok(d) => exists|gi: int, si: int| {
                        &&& #[trigger] first_with_id(data, u, gi, si)
                        &&& d@ == seq![GroupView { sets: seq![data[gi].sets[si]], ..data[gi] }]
                    },
                    Err(m) => no_set_with_id(data, u) && m@ == "No command set with UUID "@ + uuid_text(u),
                },
            },
            None => res matches Err(m) && m@ == "Specify --id <uuid> or --all"@,
        }
    }
}

/// What `export` writes, given what parsing the id text gave.
pub fn export_selection(data: &AppData, all: bool, id: Option<String>, parsed: Option<u128>) -> (res: Result<AppData, String>)
    ensures
        export_post(data@, all, match id { Some(t) => Some(t@), None => None }, parsed, res),
{
    if all {
        return Ok(data.clone());
    }
    let t = match id {
        Some(t) => t,
        None => {
            proof {
                reveal_strlit("Specify --id <uuid> or --all");
            }
            return Err(copy_str("Specify --id <uuid> or --all"));
        },
    };
    let u = match parsed {
        Some(u) => u,
        None => {
            let mut m = copy_str("Invalid UUID: ");
            proof {
                reveal_strlit("Invalid UUID: ");
            }
            push_str(&mut m, t.as_str());
            return Err(m);
        },
    };
    match data.find_set_by_id(u) {
        Some((gi, si)) => {
            let g = &data.groups[gi];
            assert(data@[gi as int] == g@);
            let mut sets: Vec<CommandSet> = Vec::new();
            sets.push(g.sets[si].clone());
            let one = Group { id: g.id, name: g.name.clone(), sets };
            let mut groups: Vec<Group> = Vec::new();
            groups.push(one);
            let d = AppData { groups };
            proof {
                assert(first_with_id(data@, u, gi as int, si as int));
                assert(crate::models::sets_view(sets@) =~= seq![data@[gi as int].sets[si as int]]);
                assert(d@ =~= seq![GroupView { sets: seq![data@[gi as int].sets[si as int]], ..data@[gi as int] }]);
            }
            Ok(d)
        },
        None => {
            let mut m = copy_str("No command set with UUID ");
            proof {
                reveal_strlit("No command set with UUID ");
            }
            let id_text = uuid_to_string(u);
            push_str(&mut m, id_text.as_str());
            Err(m)
        },
    }
}

/// What `export` writes: every group with `all`, else the set with id `id`
/// alone in a copy of its group, else the message to print.
pub fn export_data(data: &AppData, all: bool, id: Option<String>) -> (res: Result<AppData, String>)
    ensures
        match id {
            Some(t) => export_post(data@, all, Some(t@), uuid_parsed(t@), res),
            None => export_post(data@, all, None, None, res),
        },
{
    let parsed = match &id {
        Some(t) => parse_uuid(t.as_str()),
        None => None,
    };
    export_selection(data, all, id, parsed)
}

} // verus!
