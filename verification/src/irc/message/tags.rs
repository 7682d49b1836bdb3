//! The tag block of a line: `key[=value]` pairs, kept in the order in which
//! their keys first appeared, with no key twice.

use vstd::prelude::*;
use crate::irc::text::{
    after, before, chars_of, has_char, lemma_after_shorter, push_char, split_first, str_eq,
};

verus! {

/// The character that an escape sequence `\c` stands for.
pub open spec fn unescaped(c: char) -> char {
    if c == ':' {
        ';'
    } else if c == 's' {
        ' '
    } else if c == 'r' {
        '\r'
    } else if c == 'n' {
        '\n'
    } else {
        c
    }
}

/// The value that a raw tag value stands for: `\:` is `;`, `\s` a space,
/// `\\` a backslash, `\r` and `\n` CR and LF; a backslash before any other
/// character is dropped, and so is one at the very end.
pub open spec fn decoded(raw: Seq<char>) -> Seq<char>
    decreases raw.len(),
{
    if raw.len() == 0 {
        Seq::empty()
    } else if raw[0] != '\\' {
        seq![raw[0]] + decoded(raw.skip(1))
    } else if raw.len() == 1 {
        Seq::empty()
    } else {
        seq![unescaped(raw[1])] + decoded(raw.skip(2))
    }
}

/// How one character of a tag value is written on the wire.
pub open spec fn escaped(c: char) -> Seq<char> {
    if c == ';' {
        seq!['\\', ':']
    } else if c == ' ' {
        seq!['\\', 's']
    } else if c == '\\' {
        seq!['\\', '\\']
    } else if c == '\r' {
        seq!['\\', 'r']
    } else if c == '\n' {
        seq!['\\', 'n']
    } else {
        seq![c]
    }
}

/// The wire form of a tag value: each character escaped in turn.
pub open spec fn encoded(value: Seq<char>) -> Seq<char>
    decreases value.len(),
{
    if value.len() == 0 {
        Seq::empty()
    } else {
        escaped(value[0]) + encoded(value.skip(1))
    }
}

/// Decodes the characters of a raw tag value.
pub fn decode_chars(raw: &[char]) -> (out: String)
    ensures
        out@ == decoded(raw@),
{
    let mut out = String::new();
    let mut i: usize = 0;
    proof {
        assert(raw@.skip(0) =~= raw@);
        assert(out@ + decoded(raw@) =~= decoded(raw@));
    }
    while i < raw.len()
        invariant
            i <= raw.len(),
            decoded(raw@) == out@ + decoded(raw@.skip(i as int)),
        decreases raw.len() - i,
    {
        let ghost rest = raw@.skip(i as int);
        let ghost prev = out@;
        let c = raw[i];
        proof {
            assert(rest[0] == c);
        }
        if c != '\\' {
            push_char(&mut out, c);
            proof {
                assert(rest.skip(1) =~= raw@.skip(i + 1));
                assert(prev + (seq![c] + decoded(rest.skip(1))) =~= prev.push(c) + decoded(
                    rest.skip(1),
                ));
            }
            i += 1;
        } else if i + 1 < raw.len() {
            let n = raw[i + 1];
            let d = if n == ':' {
                ';'
            } else if n == 's' {
                ' '
            } else if n == 'r' {
                '\r'
            } else if n == 'n' {
                '\n'
            } else {
                n
            };
            push_char(&mut out, d);
            proof {
                assert(rest[1] == n);
                assert(rest.skip(2) =~= raw@.skip(i + 2));
                assert(prev + (seq![d] + decoded(rest.skip(2))) =~= prev.push(d) + decoded(
                    rest.skip(2),
                ));
            }
            i += 2;
        } else {
            proof {
                assert(rest.len() == 1);
                assert(raw@.skip(i + 1).len() == 0);
                assert(prev + Seq::<char>::empty() =~= prev);
                assert(prev + decoded(raw@.skip(i + 1)) =~= prev);
            }
            i += 1;
        }
    }
    proof {
        assert(out@ + Seq::<char>::empty() =~= out@);
    }
    out
}

/// Decodes a raw tag value.
pub fn decode_tag_value(raw: &str) -> (out: String)
    ensures
        out@ == decoded(raw@),
{
    let chars = chars_of(raw);
    decode_chars(chars.as_slice())
}

/// Appends the wire form of a tag value to `out`.
pub fn encode_into(out: &mut String, value: &[char])
    ensures
        final(out)@ == old(out)@ + encoded(value@),
{
    let mut i: usize = 0;
    proof {
        assert(value@.skip(0) =~= value@);
    }
    while i < value.len()
        invariant
            i <= value.len(),
            old(out)@ + encoded(value@) == out@ + encoded(value@.skip(i as int)),
        decreases value.len() - i,
    {
        let ghost rest = value@.skip(i as int);
        let ghost prev = out@;
        let c = value[i];
        proof {
            assert(rest[0] == c);
            assert(rest.skip(1) =~= value@.skip(i + 1));
        }
        if c == ';' {
            push_char(out, '\\');
            push_char(out, ':');
        } else if c == ' ' {
            push_char(out, '\\');
            push_char(out, 's');
        } else if c == '\\' {
            push_char(out, '\\');
            push_char(out, '\\');
        } else if c == '\r' {
            push_char(out, '\\');
            push_char(out, 'r');
        } else if c == '\n' {
            push_char(out, '\\');
            push_char(out, 'n');
        } else {
            push_char(out, c);
        }
        proof {
            assert(out@ =~= prev + escaped(c));
            assert(prev + (escaped(c) + encoded(rest.skip(1))) =~= (prev + escaped(c)) + encoded(
                rest.skip(1),
            ));
        }
        i += 1;
    }
    proof {
        assert(out@ + Seq::<char>::empty() =~= out@);
    }
}

/// Encodes a tag value for the wire.
pub fn encode_tag_value(raw: &str) -> (out: String)
    ensures
        out@ == encoded(raw@),
{
    let chars = chars_of(raw);
    let mut out = String::new();
    encode_into(&mut out, chars.as_slice());
    proof {
        assert(Seq::<char>::empty() + encoded(raw@) =~= encoded(raw@));
    }
    out
}

/// Index of the first pair with the given key, or the number of pairs.
pub open spec fn key_index(tags: Seq<(Seq<char>, Seq<char>)>, key: Seq<char>) -> int
    decreases tags.len(),
{
    if tags.len() == 0 {
        0
    } else if tags[0].0 == key {
        0
    } else {
        1 + key_index(tags.drop_first(), key)
    }
}

/// Whether a pair with the given key is present.
pub open spec fn has_key(tags: Seq<(Seq<char>, Seq<char>)>, key: Seq<char>) -> bool {
    key_index(tags, key) < tags.len()
}

/// The value stored under `key`, if any.
pub open spec fn value_of(tags: Seq<(Seq<char>, Seq<char>)>, key: Seq<char>) -> Option<
    Seq<char>,
> {
    if has_key(tags, key) {
        Some(tags[key_index(tags, key)].1)
    } else {
        None
    }
}

/// The pairs after storing `value` under `key`: an existing pair keeps its
/// place and takes the new value, a new pair goes to the end.
pub open spec fn with_pair(
    tags: Seq<(Seq<char>, Seq<char>)>,
    key: Seq<char>,
    value: Seq<char>,
) -> Seq<(Seq<char>, Seq<char>)> {
    if has_key(tags, key) {
        tags.update(key_index(tags, key), (key, value))
    } else {
        tags.push((key, value))
    }
}

/// No key occurs twice.
pub open spec fn unique_keys(tags: Seq<(Seq<char>, Seq<char>)>) -> bool {
    forall|i: int, j: int| 0 <= i < j < tags.len() ==> tags[i].0 != tags[j].0
}

/// The key of one raw `key[=value]` item.
pub open spec fn raw_key(raw: Seq<char>) -> Seq<char> {
    before(raw, '=')
}

/// The decoded value of one raw `key[=value]` item; empty without `=`.
pub open spec fn raw_value(raw: Seq<char>) -> Seq<char> {
    if has_char(raw, '=') {
        decoded(after(raw, '='))
    } else {
        Seq::empty()
    }
}

/// The pairs after storing, on top of `acc`, each `;`-separated item of `s`
/// in turn.
pub open spec fn parsed_onto(acc: Seq<(Seq<char>, Seq<char>)>, s: Seq<char>) -> Seq<
    (Seq<char>, Seq<char>),
>
    decreases s.len(),
{
    let raw = before(s, ';');
    let next = with_pair(acc, raw_key(raw), raw_value(raw));
    if has_char(s, ';') {
        proof {
            lemma_after_shorter(s, ';');
        }
        parsed_onto(next, after(s, ';'))
    } else {
        next
    }
}

/// The pairs that a tag block (without its `@`) stands for.
pub open spec fn parsed_tags(s: Seq<char>) -> Seq<(Seq<char>, Seq<char>)> {
    parsed_onto(Seq::empty(), s)
}

/// The wire form of one pair: the key, and `=` with the encoded value where
/// the value is not empty.
pub open spec fn pair_text(pair: (Seq<char>, Seq<char>)) -> Seq<char> {
    if pair.1.len() > 0 {
        pair.0 + seq!['='] + encoded(pair.1)
    } else {
        pair.0
    }
}

/// The wire form of the pairs, each but the first after a `;` where `first`
/// is set, each after a `;` where it is not.
pub open spec fn pairs_text(tags: Seq<(Seq<char>, Seq<char>)>, first: bool) -> Seq<char>
    decreases tags.len(),
{
    if tags.len() == 0 {
        Seq::empty()
    } else {
        (if first {
            Seq::empty()
        } else {
            seq![';']
        }) + pair_text(tags[0]) + pairs_text(tags.drop_first(), false)
    }
}

/// The wire form of a tag block, without its `@`.
pub open spec fn tags_text(tags: Seq<(Seq<char>, Seq<char>)>) -> Seq<char> {
    pairs_text(tags, true)
}

/// What `key_index` returns is the least index holding the key.
pub proof fn lemma_key_index(tags: Seq<(Seq<char>, Seq<char>)>, key: Seq<char>)
    ensures
        0 <= key_index(tags, key) <= tags.len(),
        key_index(tags, key) < tags.len() ==> tags[key_index(tags, key)].0 == key,
        forall|j: int| 0 <= j < key_index(tags, key) ==> tags[j].0 != key,
    decreases tags.len(),
{
    if tags.len() != 0 && tags[0].0 != key {
        let t = tags.drop_first();
        lemma_key_index(t, key);
        assert forall|j: int| 0 <= j < key_index(tags, key) implies tags[j].0 != key by {
            if j > 0 {
                assert(t[j - 1] == tags[j]);
            }
        }
    }
}

/// An index that holds the key, with the key nowhere before it, is its index.
pub proof fn lemma_key_index_is(tags: Seq<(Seq<char>, Seq<char>)>, key: Seq<char>, i: int)
    requires
        0 <= i <= tags.len(),
        i < tags.len() ==> tags[i].0 == key,
        forall|j: int| 0 <= j < i ==> tags[j].0 != key,
    ensures
        key_index(tags, key) == i,
    decreases tags.len(),
{
    if tags.len() != 0 && i > 0 {
        let t = tags.drop_first();
        assert(tags[0].0 != key);
        assert forall|j: int| 0 <= j < i - 1 implies t[j].0 != key by {
            assert(t[j] == tags[j + 1]);
        }
        lemma_key_index_is(t, key, i - 1);
    }
}

/// Storing a pair keeps the keys unique.
pub proof fn lemma_with_pair_unique(
    tags: Seq<(Seq<char>, Seq<char>)>,
    key: Seq<char>,
    value: Seq<char>,
)
    requires
        unique_keys(tags),
    ensures
        unique_keys(with_pair(tags, key, value)),
{
    lemma_key_index(tags, key);
}

/// The tags of a line.
#[derive(Debug, PartialEq, Eq)]
pub struct IrcTags {
    pub entries: Vec<(String, String)>,
}

impl View for IrcTags {
    type V = Seq<(Seq<char>, Seq<char>)>;

    open spec fn view(&self) -> Seq<(Seq<char>, Seq<char>)> {
        Seq::new(self.entries@.len(), |i: int| (self.entries@[i].0@, self.entries@[i].1@))
    }
}

impl IrcTags {
    /// No key occurs twice.
    pub open spec fn wf(&self) -> bool {
        unique_keys(self@)
    }

    /// Creates a new empty collection of tags.
    pub fn new() -> (tags: IrcTags)
        ensures
            tags@ == Seq::<(Seq<char>, Seq<char>)>::empty(),
            tags.wf(),
    {
        let tags = IrcTags { entries: Vec::new() };
        proof {
            assert(tags@ =~= Seq::<(Seq<char>, Seq<char>)>::empty());
        }
        tags
    }

    /// The number of tags.
    pub fn len(&self) -> (n: usize)
        ensures
            n == self@.len(),
    {
        self.entries.len()
    }

    /// Whether there is no tag.
    pub fn is_empty(&self) -> (b: bool)
        ensures
            b == (self@.len() == 0),
    {
        self.entries.len() == 0
    }

    /// Index of the pair with the given key, or the number of pairs.
    fn find(&self, key: &str) -> (i: usize)
        ensures
            i == key_index(self@, key@),
            i <= self@.len(),
    {
        let mut i: usize = 0;
        while i < self.entries.len() && !str_eq(self.entries[i].0.as_str(), key)
            invariant
                i <= self.entries.len(),
                forall|j: int| 0 <= j < i ==> self@[j].0 != key@,
            decreases self.entries.len() - i,
        {
            i += 1;
        }
        proof {
            lemma_key_index_is(self@, key@, i as int);
        }
        i
    }

    /// The value stored under `key`, if any.
    pub fn get(&self, key: &str) -> (value: Option<&str>)
        ensures
            value is Some <==> has_key(self@, key@),
            value matches Some(v) ==> Some(v@) == value_of(self@, key@),
    {
        let i = self.find(key);
        if i < self.entries.len() {
            Some(self.entries[i].1.as_str())
        } else {
            None
        }
    }

    /// Whether a value is stored under `key`.
    pub fn contains_key(&self, key: &str) -> (b: bool)
        ensures
            b == has_key(self@, key@),
    {
        let i = self.find(key);
        i < self.entries.len()
    }

    /// Stores `value` under `key`, in place of an earlier value if there is
    /// one.
    pub fn insert(&mut self, key: String, value: String)
        ensures
            final(self)@ == with_pair(old(self)@, key@, value@),
            old(self).wf() ==> final(self).wf(),
    {
        let i = self.find(key.as_str());
        proof {
            if old(self).wf() {
                lemma_with_pair_unique(old(self)@, key@, value@);
            }
        }
        if i < self.entries.len() {
            self.entries.set(i, (key, value));
        } else {
            self.entries.push((key, value));
        }
        proof {
            assert(self@ =~= with_pair(old(self)@, key@, value@));
        }
    }

    /// Parses the characters of a tag block, which is not empty.
    pub fn parse_chars(source: &[char]) -> (tags: IrcTags)
        requires
            source@.len() > 0,
        ensures
            tags@ == parsed_tags(source@),
            tags.wf(),
    {
        let mut tags = IrcTags::new();
        let mut rest: Option<&[char]> = Some(source);
        while rest.is_some()
            invariant
                tags.wf(),
                rest matches Some(r) ==> parsed_tags(source@) == parsed_onto(tags@, r@),
                rest is None ==> tags@ == parsed_tags(source@),
            decreases
                    (match rest {
                        Some(r) => r@.len() + 1,
                        None => 0,
                    }),
        {
            let r = rest.unwrap();
            let (raw, tail) = split_first(r, ';');
            let (key, value_src) = split_first(raw, '=');
            let value = match value_src {
                Some(v) => decode_chars(v),
                None => String::new(),
            };
            let key = crate::irc::text::string_from_chars(key);
            tags.insert(key, value);
            proof {
                if tail is Some {
                    lemma_after_shorter(r@, ';');
                }
            }
            rest = tail;
        }
        tags
    }

    /// Parses a tag block, which is not empty.
    pub fn parse(source: &str) -> (tags: IrcTags)
        requires
            source@.len() > 0,
        ensures
            tags@ == parsed_tags(source@),
            tags.wf(),
    {
        let chars = chars_of(source);
        IrcTags::parse_chars(chars.as_slice())
    }

    /// Appends the wire form of the tags to `out`.
    pub fn write_raw(&self, out: &mut String)
        ensures
            final(out)@ == old(out)@ + tags_text(self@),
    {
        let mut i: usize = 0;
        proof {
            assert(self@.skip(0) =~= self@);
        }
        while i < self.entries.len()
            invariant
                i <= self.entries.len(),
                old(out)@ + tags_text(self@) == out@ + pairs_text(self@.skip(i as int), i == 0),
            decreases self.entries.len() - i,
        {
            let ghost rest = self@.skip(i as int);
            let ghost prev = out@;
            proof {
                assert(rest[0] == self@[i as int]);
                assert(rest.drop_first() =~= self@.skip(i + 1));
            }
            if i > 0 {
                push_char(out, ';');
            }
            let ghost with_sep = out@;
            out.append(self.entries[i].0.as_str());
            if !self.entries[i].1.as_str().is_empty() {
                push_char(out, '=');
                let value = chars_of(self.entries[i].1.as_str());
                encode_into(out, value.as_slice());
            }
            proof {
                assert(out@ =~= with_sep + pair_text(rest[0]));
                assert(with_sep =~= prev + (if i == 0 {
                    Seq::<char>::empty()
                } else {
                    seq![';']
                }));
                assert(out@ + pairs_text(rest.drop_first(), false) =~= prev + pairs_text(
                    rest,
                    i == 0,
                ));
            }
            i += 1;
        }
        proof {
            assert(out@ + Seq::<char>::empty() =~= out@);
        }
    }
}

} // verus!
