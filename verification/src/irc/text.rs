//! Character-sequence helpers shared by the parsers.
//!
//! The parsers work on slices of `char`; their contracts are stated over
//! `Seq<char>` with the spec functions of this module.

use vstd::prelude::*;
use vstd::slice::slice_subrange;

verus! {

/// Index of the first occurrence of `c` in `s`, or `s.len()` if there is none.
pub open spec fn position(s: Seq<char>, c: char) -> int
    decreases s.len(),
{
    if s.len() == 0 {
        0
    } else if s[0] == c {
        0
    } else {
        1 + position(s.drop_first(), c)
    }
}

/// Whether `c` occurs in `s`.
pub open spec fn has_char(s: Seq<char>, c: char) -> bool {
    position(s, c) < s.len()
}

/// The part of `s` before the first `c`; all of `s` if `c` does not occur.
pub open spec fn before(s: Seq<char>, c: char) -> Seq<char> {
    s.subrange(0, position(s, c))
}

/// The part of `s` behind the first `c`; empty if `c` does not occur.
pub open spec fn after(s: Seq<char>, c: char) -> Seq<char> {
    if has_char(s, c) {
        s.subrange(position(s, c) + 1, s.len() as int)
    } else {
        Seq::empty()
    }
}

/// The pieces of `s` between occurrences of `c`. Never empty: a sequence
/// without `c` is its own single piece.
pub open spec fn split(s: Seq<char>, c: char) -> Seq<Seq<char>>
    decreases s.len(),
{
    if has_char(s, c) {
        proof {
            lemma_after_shorter(s, c);
        }
        seq![before(s, c)] + split(after(s, c), c)
    } else {
        seq![s]
    }
}

/// What `position` returns is the least index holding `c`.
pub proof fn lemma_position(s: Seq<char>, c: char)
    ensures
        0 <= position(s, c) <= s.len(),
        position(s, c) < s.len() ==> s[position(s, c)] == c,
        forall|j: int| 0 <= j < position(s, c) ==> s[j] != c,
    decreases s.len(),
{
    if s.len() != 0 && s[0] != c {
        let t = s.drop_first();
        lemma_position(t, c);
        assert forall|j: int| 0 <= j < position(s, c) implies s[j] != c by {
            if j > 0 {
                assert(t[j - 1] == s[j]);
            }
        }
    }
}

/// An index that holds `c`, with no `c` before it, is the position of `c`.
pub proof fn lemma_position_is(s: Seq<char>, c: char, i: int)
    requires
        0 <= i <= s.len(),
        i < s.len() ==> s[i] == c,
        forall|j: int| 0 <= j < i ==> s[j] != c,
    ensures
        position(s, c) == i,
    decreases s.len(),
{
    if s.len() != 0 && i > 0 {
        let t = s.drop_first();
        assert(s[0] != c);
        assert forall|j: int| 0 <= j < i - 1 implies t[j] != c by {
            assert(t[j] == s[j + 1]);
        }
        lemma_position_is(t, c, i - 1);
    }
}

/// A text has `c` exactly where one of its characters is `c`.
pub proof fn lemma_has_char(s: Seq<char>, c: char)
    ensures
        has_char(s, c) <==> exists|j: int| 0 <= j < s.len() && s[j] == c,
{
    lemma_position(s, c);
    if has_char(s, c) {
        assert(s[position(s, c)] == c);
    }
}

/// The part behind the first `c` is shorter than the whole.
pub proof fn lemma_after_shorter(s: Seq<char>, c: char)
    requires
        has_char(s, c),
    ensures
        after(s, c).len() < s.len(),
        before(s, c).len() < s.len(),
        !has_char(before(s, c), c),
{
    lemma_position(s, c);
    let b = before(s, c);
    lemma_position(b, c);
    if has_char(b, c) {
        assert(b[position(b, c)] == s[position(b, c)]);
    }
}

/// The first index of `c` in `s`, or the length of `s`.
pub fn find_char(s: &[char], c: char) -> (i: usize)
    ensures
        i == position(s@, c),
        i <= s@.len(),
{
    let mut i: usize = 0;
    while i < s.len() && s[i] != c
        invariant
            i <= s.len(),
            forall|j: int| 0 <= j < i ==> s@[j] != c,
        decreases s.len() - i,
    {
        i += 1;
    }
    proof {
        lemma_position_is(s@, c, i as int);
    }
    i
}

/// Splits `s` at the first `c`, which is dropped.
pub fn split_once<'a>(s: &'a [char], c: char) -> (r: Option<(&'a [char], &'a [char])>)
    ensures
        r is Some <==> has_char(s@, c),
        r matches Some((head, tail)) ==> head@ == before(s@, c) && tail@ == after(s@, c),
{
    let i = find_char(s, c);
    if i < s.len() {
        Some((slice_subrange(s, 0, i), slice_subrange(s, i + 1, s.len())))
    } else {
        None
    }
}

/// The part of `s` before the first `c`, and the part behind it where `c`
/// occurs: what a split into at most two pieces yields.
pub fn split_first<'a>(s: &'a [char], c: char) -> (r: (&'a [char], Option<&'a [char]>))
    ensures
        r.0@ == before(s@, c),
        r.1 is Some <==> has_char(s@, c),
        r.1 matches Some(tail) ==> tail@ == after(s@, c),
{
    let i = find_char(s, c);
    if i < s.len() {
        (slice_subrange(s, 0, i), Some(slice_subrange(s, i + 1, s.len())))
    } else {
        proof {
            assert(s@.subrange(0, s@.len() as int) =~= s@);
        }
        (s, None)
    }
}

/// Appends one character to a string.
///
/// Trusted: calls `String::push`, which std documents as appending the given
/// `char` to the end of the string.
#[verifier::external_body]
pub(crate) fn push_char(s: &mut String, c: char)
    ensures
        final(s)@ == old(s)@.push(c),
{
    s.push(c)
}

/// Whether two string slices hold the same characters.
///
/// Trusted: calls `==` on `str`, which std documents as comparing the two
/// slices' contents.
#[verifier::external_body]
pub(crate) fn str_eq(a: &str, b: &str) -> (r: bool)
    ensures
        r == (a@ == b@),
{
    a == b
}

/// Builds a string holding exactly the given characters.
pub fn string_from_chars(chars: &[char]) -> (s: String)
    ensures
        s@ == chars@,
{
    let mut s = String::new();
    let mut i: usize = 0;
    while i < chars.len()
        invariant
            i <= chars.len(),
            s@ == chars@.subrange(0, i as int),
        decreases chars.len() - i,
    {
        push_char(&mut s, chars[i]);
        proof {
            assert(chars@.subrange(0, i + 1) =~= chars@.subrange(0, i as int).push(
                chars@[i as int],
            ));
        }
        i += 1;
    }
    proof {
        assert(chars@.subrange(0, chars.len() as int) =~= chars@);
    }
    s
}

/// Copies the characters of a string into a vector.
pub fn chars_of(s: &str) -> (v: Vec<char>)
    ensures
        v@ == s@,
{
    let mut v: Vec<char> = Vec::new();
    for c in it: s.chars()
        invariant
            v@ == it.seq().subrange(0, it.index() as int),
            it.seq() == s@,
    {
        proof {
            assert(it.seq().subrange(0, it.index() + 1) =~= it.seq().subrange(
                0,
                it.index() as int,
            ).push(c));
        }
        v.push(c);
    }
    proof {
        assert(s@.subrange(0, s@.len() as int) =~= s@);
    }
    v
}

/// The characters of each slice of a sequence.
pub open spec fn slices_view(v: Seq<&[char]>) -> Seq<Seq<char>> {
    Seq::new(v.len(), |i: int| v[i]@)
}

/// The pieces of `s` between occurrences of `c`.
pub fn split_all<'a>(s: &'a [char], c: char) -> (parts: Vec<&'a [char]>)
    ensures
        slices_view(parts@) == split(s@, c),
        parts@.len() > 0,
{
    let mut parts: Vec<&'a [char]> = Vec::new();
    let mut rest: Option<&'a [char]> = Some(s);
    proof {
        assert(slices_view(parts@) + split(s@, c) =~= split(s@, c));
    }
    while rest.is_some()
        invariant
            rest matches Some(r) ==> split(s@, c) == slices_view(parts@) + split(r@, c),
            rest is None ==> split(s@, c) == slices_view(parts@) && parts@.len() > 0,
        decreases
                (match rest {
                    Some(r) => r@.len() + 1,
                    None => 0,
                }),
    {
        let r = rest.unwrap();
        let ghost acc = slices_view(parts@);
        let (head, tail) = split_first(r, c);
        parts.push(head);
        proof {
            assert(slices_view(parts@) =~= acc.push(head@));
            if tail is Some {
                lemma_after_shorter(r@, c);
                assert(acc + (seq![head@] + split(tail.unwrap()@, c)) =~= acc.push(head@) + split(
                    tail.unwrap()@,
                    c,
                ));
            } else {
                lemma_position(r@, c);
                assert(head@ =~= r@);
                assert(acc + seq![r@] =~= acc.push(head@));
            }
        }
        rest = tail;
    }
    parts
}

/// Whether one of the strings holds exactly the characters of `s`.
pub fn contains_string(v: &Vec<String>, s: &str) -> (b: bool)
    ensures
        b == crate::irc::message::strings_view(v@).contains(s@),
{
    let ghost view = crate::irc::message::strings_view(v@);
    let mut i: usize = 0;
    while i < v.len()
        invariant
            i <= v.len(),
            view == crate::irc::message::strings_view(v@),
            forall|j: int| 0 <= j < i ==> view[j] != s@,
        decreases v.len() - i,
    {
        if str_eq(v[i].as_str(), s) {
            proof {
                assert(view[i as int] == s@);
            }
            return true;
        }
        i += 1;
    }
    false
}

} // verus!
