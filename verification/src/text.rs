//! Helpers on strings and their views.

use vstd::prelude::*;
use vstd::std_specs::iter::IteratorSpec;

verus! {

/// The view of an optional string.
pub open spec fn option_view(s: Option<String>) -> Option<Seq<char>> {
    match s {
        Some(s) => Some(s@),
        None => None,
    }
}

/// The views of a sequence of strings, element by element.
pub open spec fn strings_view(v: Seq<String>) -> Seq<Seq<char>> {
    Seq::new(v.len(), |i: int| v[i]@)
}

/// A copy of an optional string.
pub fn clone_option(s: &Option<String>) -> (r: Option<String>)
    ensures
        option_view(r) == option_view(*s),
{
    match s {
        Some(s) => Some(s.clone()),
        None => None,
    }
}

/// The view of a result: the view of what it holds, on either side.
pub open spec fn result_view<T: View, E: View>(r: Result<T, E>) -> Result<T::V, E::V> {
    match r {
        Ok(value) => Ok(value@),
        Err(error) => Err(error@),
    }
}

/// The characters of `s`, in order.
pub fn chars_of(s: &str) -> (chars: Vec<char>)
    ensures
        chars@ == s@,
{
    broadcast use vstd::string::group_string_axioms;

    let iter = s.chars();
    let mut chars: Vec<char> = Vec::new();
    for c in it: iter
        invariant
            it.seq() == s@,
            chars@ == s@.take(it.index()),
    {
        chars.push(c);
    }
    chars
}

/// Whether two strings hold the same characters.
pub fn str_eq(a: &str, b: &str) -> (same: bool)
    ensures
        same == (a@ == b@),
{
    a.to_owned() == b.to_owned()
}

/// Whether `s` ends in `suffix`.
pub open spec fn has_suffix(s: Seq<char>, suffix: Seq<char>) -> bool {
    s.len() >= suffix.len() && s.subrange(s.len() - suffix.len(), s.len() as int) == suffix
}

/// Whether `s` ends in `suffix`.
pub fn ends_with(s: &str, suffix: &str) -> (found: bool)
    ensures
        found == has_suffix(s@, suffix@),
{
    let chars = chars_of(s);
    let tail = chars_of(suffix);
    if chars.len() < tail.len() {
        return false;
    }
    let start = chars.len() - tail.len();
    for i in 0..tail.len()
        invariant
            chars@ == s@,
            tail@ == suffix@,
            start + tail.len() == chars.len(),
            forall|j: int| 0 <= j < i ==> chars[start + j] == tail[j],
    {
        if chars[start + i] != tail[i] {
            assert(s@.subrange(start as int, s@.len() as int)[i as int] != suffix@[i as int]);
            return false;
        }
    }
    assert(s@.subrange(start as int, s@.len() as int) =~= suffix@);
    true
}

/// `s` with every occurrence of `c` left out.
pub open spec fn without_char(s: Seq<char>, c: char) -> Seq<char>
    decreases s.len(),
{
    if s.len() == 0 {
        s
    } else if s.last() == c {
        without_char(s.drop_last(), c)
    } else {
        without_char(s.drop_last(), c).push(s.last())
    }
}

/// What is left holds no `c`, holds every other character of `s` as often
/// as `s` does, and is `s` itself where `s` holds no `c`.
pub proof fn lemma_without_char(s: Seq<char>, c: char)
    ensures
        !without_char(s, c).contains(c),
        forall|other: char|
            other != c ==> without_char(s, c).to_multiset().count(other) == s.to_multiset().count(
                other,
            ),
        !s.contains(c) ==> without_char(s, c) == s,
        without_char(s, c).len() <= s.len(),
    decreases s.len(),
{
    broadcast use vstd::seq_lib::group_to_multiset_ensures;

    if s.len() > 0 {
        let rest = s.drop_last();
        lemma_without_char(rest, c);
        assert(rest.push(s.last()) =~= s);
        if !s.contains(c) {
            assert(forall|i: int| 0 <= i < rest.len() ==> rest[i] == s[i]);
            assert(!rest.contains(c));
            assert(s.last() == s[s.len() - 1]);
        }
        if s.last() != c {
            let kept = without_char(rest, c);
            assert forall|i: int| 0 <= i < kept.push(s.last()).len() implies kept.push(
                s.last(),
            )[i] != c by {
                if i < kept.len() {
                    assert(kept.contains(kept[i]));
                }
            }
        }
    }
}

/// A copy of `s` with every occurrence of `c` left out.
pub fn remove_char(s: &str, c: char) -> (stripped: String)
    ensures
        stripped@ == without_char(s@, c),
{
    let chars = chars_of(s);
    let mut stripped = String::new();
    for i in 0..chars.len()
        invariant
            chars@ == s@,
            stripped@ == without_char(s@.take(i as int), c),
    {
        assert(s@.take(i + 1).drop_last() =~= s@.take(i as int));
        if chars[i] != c {
            stripped.append(s.substring_char(i, i + 1));
            assert(s@.subrange(i as int, i + 1) =~= seq![s@[i as int]]);
        }
    }
    assert(s@.take(chars.len() as int) =~= s@);
    stripped
}

} // verus!
