//! Character-level text utilities: string equality, character search, and a
//! model of splitting a string at a separator character.
//!
//! The daemon's record format is line oriented (`key=value` lines separated
//! by `'\n'`), so the parsers in this crate are specified against
//! [`spec_split`], the mathematical splitting of a character sequence at a
//! separator.  It matches the behaviour of Rust's `str::split` on a single
//! `char` pattern: splitting the empty string gives one empty part, a
//! trailing separator produces a trailing empty part, and `n` separators
//! produce `n + 1` parts.

use vstd::prelude::*;
use vstd::string::*;

verus! {

/// The parts of `s` split at every occurrence of `sep`, in order.
pub open spec fn spec_split(s: Seq<char>, sep: char) -> Seq<Seq<char>>
    decreases s.len(),
{
    if s.len() == 0 {
        seq![Seq::<char>::empty()]
    } else if s[0] == sep {
        seq![Seq::<char>::empty()] + spec_split(s.drop_first(), sep)
    } else {
        let rest = spec_split(s.drop_first(), sep);
        seq![seq![s[0]] + rest[0]] + rest.drop_first()
    }
}

/// Splitting always yields at least one part.
pub proof fn lemma_split_len(s: Seq<char>, sep: char)
    ensures
        spec_split(s, sep).len() >= 1,
    decreases s.len(),
{
    if s.len() != 0 && s[0] != sep {
        lemma_split_len(s.drop_first(), sep);
    }
}

/// The shape of a split around the first separator: everything before the
/// first occurrence of `sep` is the first part, and the remaining parts are
/// the split of what follows that occurrence.  With `i == s.len()` (no
/// separator at all) the whole of `s` is the only part.
pub proof fn lemma_split_first(s: Seq<char>, sep: char, i: int)
    requires
        0 <= i <= s.len(),
        forall|j: int| 0 <= j < i ==> s[j] != sep,
        i < s.len() ==> s[i] == sep,
        i == s.len() ==> forall|j: int| 0 <= j < s.len() ==> s[j] != sep,
    ensures
        i == s.len() ==> spec_split(s, sep) == seq![s],
        i < s.len() ==> spec_split(s, sep) == seq![s.take(i)] + spec_split(s.skip(i + 1), sep),
    decreases s.len(),
{
    lemma_split_len(s, sep);
    if s.len() == 0 {
        assert(spec_split(s, sep) =~~= seq![s]);
    } else if i == 0 {
        if i < s.len() {
            assert(s.take(0) =~= Seq::<char>::empty());
            assert(s.skip(1) =~= s.drop_first());
            assert(spec_split(s, sep) =~~= seq![s.take(0)] + spec_split(s.skip(1), sep));
        }
    } else {
        let t = s.drop_first();
        assert(forall|j: int| 0 <= j < i - 1 ==> t[j] == s[j + 1] && s[j + 1] != sep);
        lemma_split_first(t, sep, i - 1);
        let rest = spec_split(t, sep);
        lemma_split_len(t, sep);
        if i == s.len() {
            assert(rest == seq![t]);
            assert(spec_split(s, sep) =~~= seq![s]);
        } else {
            assert(rest == seq![t.take(i - 1)] + spec_split(t.skip(i), sep));
            assert(rest[0] == t.take(i - 1));
            assert(seq![s[0]] + t.take(i - 1) =~= s.take(i));
            assert(rest.drop_first() =~= spec_split(t.skip(i), sep));
            assert(t.skip(i) =~= s.skip(i + 1));
            assert(spec_split(s, sep) =~~= seq![s.take(i)] + spec_split(s.skip(i + 1), sep));
        }
    }
}

/// Character-by-character string equality, proved equivalent to equality of
/// the two views.
pub fn str_eq(a: &str, b: &str) -> (r: bool)
    ensures
        r == (a@ == b@),
{
    let alen = a.unicode_len();
    let blen = b.unicode_len();
    if alen != blen {
        return false;
    }
    let mut i: usize = 0;
    while i < alen
        invariant
            alen == a@.len(),
            alen == b@.len(),
            0 <= i <= alen,
            forall|j: int| 0 <= j < i ==> a@[j] == b@[j],
        decreases alen - i,
    {
        if a.get_char(i) != b.get_char(i) {
            return false;
        }
        i += 1;
    }
    proof {
        assert(a@ =~= b@);
    }
    true
}

/// The first occurrence of `sep` in `s` at or after position `from`, if any.
pub fn find_char_from(s: &str, from: usize, sep: char) -> (r: Option<usize>)
    requires
        from <= s@.len(),
    ensures
        match r {
            Some(i) => from <= i < s@.len() && s@[i as int] == sep && forall|j: int|
                from <= j < i ==> s@[j] != sep,
            None => forall|j: int| from <= j < s@.len() ==> s@[j] != sep,
        },
{
    let len = s.unicode_len();
    let mut i: usize = from;
    while i < len
        invariant
            len == s@.len(),
            from <= i <= len,
            forall|j: int| from <= j < i ==> s@[j] != sep,
        decreases len - i,
    {
        if s.get_char(i) == sep {
            return Some(i);
        }
        i += 1;
    }
    None
}

/// The text before the first `'\n'` of `s` (the whole of `s` if it has
/// none): the first part of the split at `'\n'`.
pub fn first_line(s: &String) -> (r: String)
    ensures
        r@ == spec_split(s@, '\n')[0],
{
    let sref = s.as_str();
    let end = match find_char_from(sref, 0, '\n') {
        Some(i) => i,
        None => sref.unicode_len(),
    };
    let line = sref.substring_char(0, end);
    proof {
        lemma_split_first(s@, '\n', end as int);
        if end < s@.len() {
            assert(spec_split(s@, '\n')[0] == s@.take(end as int));
        } else {
            assert(s@.take(end as int) =~= s@);
        }
    }
    line.to_owned()
}

} // verus!
