//! Unicode lower-casing, as std's `char::to_lowercase` and `str::to_lowercase`
//! compute it.

use vstd::prelude::*;

verus! {

/// The chars that `char::to_lowercase` yields for `c`.
pub uninterp spec fn char_lower(c: char) -> Seq<char>;

/// The string that `str::to_lowercase` returns for `s`.
pub uninterp spec fn str_lower(s: Seq<char>) -> Seq<char>;

/// `char::to_lowercase`: the lower-case mapping of `c`, which std documents
/// as one or more chars.
#[verifier::external_body]
pub(crate) fn char_to_lowercase(c: char) -> (res: Vec<char>)
    ensures
        res@ == char_lower(c),
        res@.len() >= 1,
{
    c.to_lowercase().collect()
}

/// `str::to_lowercase`: the lower-case form of `s`.
#[verifier::external_body]
pub(crate) fn str_to_lowercase(s: &str) -> (res: String)
    ensures
        res@ == str_lower(s@),
{
    s.to_lowercase()
}

/// The first char of the lower-case mapping of `c` (or `c` itself, were the
/// mapping empty).
pub open spec fn lower_first(c: char) -> char {
    if char_lower(c).len() > 0 { char_lower(c)[0] } else { c }
}

/// The lower-case mappings of all chars of `s`, concatenated.
pub open spec fn lower_all(s: Seq<char>) -> Seq<char>
    decreases s.len(),
{
    if s.len() == 0 {
        Seq::empty()
    } else {
        lower_all(s.drop_last()) + char_lower(s.last())
    }
}

/// `lower_first` of each char of `s`.
pub open spec fn lower_each(s: Seq<char>) -> Seq<char> {
    Seq::new(s.len(), |i: int| lower_first(s[i]))
}

/// The first lower-case char of `c`.
pub fn lower_first_exec(c: char) -> (res: char)
    ensures
        res == lower_first(c),
{
    let l = char_to_lowercase(c);
    if l.len() > 0 { l[0] } else { c }
}

/// `lower_first` of each char of `s`.
pub fn lower_each_exec(s: &Vec<char>) -> (res: Vec<char>)
    ensures
        res@ == lower_each(s@),
{
    let mut res: Vec<char> = Vec::new();
    let mut i: usize = 0;
    while i < s.len()
        invariant
            i <= s.len(),
            res@ == lower_each(s@).take(i as int),
        decreases s.len() - i,
    {
        let c = lower_first_exec(s[i]);
        res.push(c);
        assert(res@ =~= lower_each(s@).take(i + 1));
        i = i + 1;
    }
    assert(res@ =~= lower_each(s@));
    res
}

/// The lower-case mappings of all chars of `s`, concatenated.
pub fn lower_all_exec(s: &Vec<char>) -> (res: Vec<char>)
    ensures
        res@ == lower_all(s@),
        s@.len() > 0 ==> res@.len() > 0,
{
    let mut res: Vec<char> = Vec::new();
    let mut i: usize = 0;
    assert(s@.take(0) =~= Seq::<char>::empty());
    while i < s.len()
        invariant
            i <= s.len(),
            res@ == lower_all(s@.take(i as int)),
            i > 0 ==> res@.len() > 0,
        decreases s.len() - i,
    {
        let l = char_to_lowercase(s[i]);
        let ghost before = res@;
        let mut j: usize = 0;
        while j < l.len()
            invariant
                j <= l.len(),
                res@ == before + l@.take(j as int),
            decreases l.len() - j,
        {
            res.push(l[j]);
            assert(before + l@.take(j + 1) =~= (before + l@.take(j as int)).push(l@[j as int]));
            j = j + 1;
        }
        assert(l@.take(l@.len() as int) =~= l@);
        assert(s@.take(i + 1).drop_last() =~= s@.take(i as int));
        i = i + 1;
    }
    assert(s@.take(s@.len() as int) =~= s@);
    res
}

} // verus!
