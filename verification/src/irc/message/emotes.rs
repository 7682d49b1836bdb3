//! Emote occurrences: the tag that lists them, decoded against the message
//! text and ordered by where they start.

use vstd::prelude::*;
use crate::irc::message::extract::{
    err_is, ok_is, tag_value, ParseErrorView, ServerMessageParseError,
};
use crate::irc::message::twitch::{emotes_view, Emote, EmoteView};
use crate::irc::message::{IrcMessage, IrcMessageView};
use crate::irc::number::{as_usize, parse_usize};
use crate::irc::text::{
    after, before, chars_of, has_char, slices_view, split, split_all, split_once,
    string_from_chars,
};

verus! {

/// The characters of `text` from `start` to `end`, as far as the text goes.
pub open spec fn clipped(text: Seq<char>, start: int, end: int) -> Seq<char> {
    let n = text.len() as int;
    text.subrange(
        if start < n {
            start
        } else {
            n
        },
        if end < n {
            end
        } else {
            n
        },
    )
}

/// The occurrence that one `first-last` item of the emote `id` stands for.
/// `last` is the index of the last character covered, so the range ends one
/// behind it. An item whose numbers cannot be read, whose end does not fit,
/// or which ends before it starts stands for nothing.
pub open spec fn emote_of(id: Seq<char>, item: Seq<char>, text: Seq<char>) -> Option<EmoteView> {
    if !has_char(item, '-') {
        None
    } else {
        match (as_usize(before(item, '-')), as_usize(after(item, '-'))) {
            (Some(start), Some(last)) => if last < usize::MAX && start <= last + 1 {
                Some(
                    EmoteView {
                        id,
                        start: start as int,
                        end: last + 1,
                        code: clipped(text, start as int, last + 1),
                    },
                )
            } else {
                None
            },
            _ => None,
        }
    }
}

/// Every item stands for an occurrence.
pub open spec fn all_emotes(id: Seq<char>, items: Seq<Seq<char>>, text: Seq<char>) -> bool {
    forall|i: int| 0 <= i < items.len() ==> emote_of(id, #[trigger] items[i], text) is Some
}

/// The occurrences that the items stand for.
pub open spec fn items_emotes(id: Seq<char>, items: Seq<Seq<char>>, text: Seq<char>) -> Seq<
    EmoteView,
> {
    Seq::new(items.len(), |i: int| emote_of(id, items[i], text)->0)
}

/// The occurrences that one `id:first-last,first-last,...` group stands for.
pub open spec fn group_emotes(group: Seq<char>, text: Seq<char>) -> Option<Seq<EmoteView>> {
    if !has_char(group, ':') {
        None
    } else if all_emotes(before(group, ':'), split(after(group, ':'), ','), text) {
        Some(items_emotes(before(group, ':'), split(after(group, ':'), ','), text))
    } else {
        None
    }
}

/// The occurrences that the groups stand for, in the order of the groups.
pub open spec fn groups_emotes(groups: Seq<Seq<char>>, text: Seq<char>) -> Option<
    Seq<EmoteView>,
>
    decreases groups.len(),
{
    if groups.len() == 0 {
        Some(Seq::empty())
    } else {
        match (groups_emotes(groups.drop_last(), text), group_emotes(groups.last(), text)) {
            (Some(a), Some(b)) => Some(a + b),
            _ => None,
        }
    }
}

/// The occurrences that a tag value lists: `/`-separated groups; an empty
/// value lists none.
pub open spec fn listed_emotes(value: Seq<char>, text: Seq<char>) -> Option<Seq<EmoteView>> {
    if value.len() == 0 {
        Some(Seq::empty())
    } else {
        groups_emotes(split(value, '/'), text)
    }
}

/// The first index in `sorted` whose occurrence starts behind `start`, or
/// the length of `sorted`.
pub open spec fn slot(sorted: Seq<EmoteView>, start: int) -> int
    decreases sorted.len(),
{
    if sorted.len() == 0 {
        0
    } else if sorted[0].start > start {
        0
    } else {
        1 + slot(sorted.drop_first(), start)
    }
}

/// The occurrences ordered by start; those that start together keep their
/// order.
pub open spec fn by_start(s: Seq<EmoteView>) -> Seq<EmoteView>
    decreases s.len(),
{
    if s.len() == 0 {
        Seq::empty()
    } else {
        let t = by_start(s.drop_last());
        t.insert(slot(t, s.last().start), s.last())
    }
}

/// No occurrence starts before an earlier one.
pub open spec fn ordered(s: Seq<EmoteView>) -> bool {
    forall|i: int, j: int| 0 <= i <= j < s.len() ==> s[i].start <= s[j].start
}

/// The occurrence's code is the text at its range, as far as the text goes.
pub open spec fn faithful(e: EmoteView, text: Seq<char>) -> bool {
    0 <= e.start <= e.end && e.code == clipped(text, e.start, e.end)
}

/// Every occurrence is faithful to the text.
pub open spec fn all_faithful(s: Seq<EmoteView>, text: Seq<char>) -> bool {
    forall|i: int| 0 <= i < s.len() ==> faithful(#[trigger] s[i], text)
}

/// The emotes listed under `key`, decoded against `text` and ordered by
/// start.
pub open spec fn emotes_of(m: IrcMessageView, key: Seq<char>, text: Seq<char>) -> Result<
    Seq<EmoteView>,
    ParseErrorView,
> {
    match tag_value(m, key) {
        Err(e) => Err(e),
        Ok(v) => match listed_emotes(v, text) {
            Some(l) => Ok(by_start(l)),
            None => Err(ParseErrorView::MalformedTagValue(m, key, v)),
        },
    }
}

/// What `slot` returns: everything before it starts no later than `start`,
/// and what stands at it starts later.
pub proof fn lemma_slot(sorted: Seq<EmoteView>, start: int)
    ensures
        0 <= slot(sorted, start) <= sorted.len(),
        forall|j: int| 0 <= j < slot(sorted, start) ==> sorted[j].start <= start,
        slot(sorted, start) < sorted.len() ==> sorted[slot(sorted, start)].start > start,
    decreases sorted.len(),
{
    if sorted.len() != 0 && sorted[0].start <= start {
        let t = sorted.drop_first();
        lemma_slot(t, start);
        assert forall|j: int| 0 <= j < slot(sorted, start) implies sorted[j].start <= start by {
            if j > 0 {
                assert(t[j - 1] == sorted[j]);
            }
        }
    }
}

/// The first index that starts behind `start` is the slot.
pub proof fn lemma_slot_is(sorted: Seq<EmoteView>, start: int, i: int)
    requires
        0 <= i <= sorted.len(),
        forall|j: int| 0 <= j < i ==> sorted[j].start <= start,
        i < sorted.len() ==> sorted[i].start > start,
    ensures
        slot(sorted, start) == i,
    decreases sorted.len(),
{
    if sorted.len() != 0 && i > 0 {
        let t = sorted.drop_first();
        assert(sorted[0].start <= start);
        assert forall|j: int| 0 <= j < i - 1 implies t[j].start <= start by {
            assert(t[j] == sorted[j + 1]);
        }
        lemma_slot_is(t, start, i - 1);
    }
}

/// Ordering by start yields an ordered sequence of the same occurrences:
/// as many, each of them one of the given ones, all faithful if those were.
pub proof fn lemma_by_start(s: Seq<EmoteView>, text: Seq<char>)
    ensures
        ordered(by_start(s)),
        by_start(s).len() == s.len(),
        by_start(s).to_multiset() == s.to_multiset(),
        all_faithful(s, text) ==> all_faithful(by_start(s), text),
    decreases s.len(),
{
    broadcast use vstd::seq_lib::group_to_multiset_ensures;

    if s.len() == 0 {
        assert(s =~= Seq::<EmoteView>::empty());
    } else {
        let init = s.drop_last();
        let e = s.last();
        let t = by_start(init);
        lemma_by_start(init, text);
        lemma_slot(t, e.start);
        let p = slot(t, e.start);
        let r = t.insert(p, e);
        assert forall|i: int, j: int| 0 <= i <= j < r.len() implies r[i].start <= r[j].start by {
            if i < p && j > p {
                assert(r[i] == t[i] && r[j] == t[j - 1]);
            } else if i < p && j < p {
                assert(r[i] == t[i] && r[j] == t[j]);
            } else if i > p {
                assert(r[i] == t[i - 1] && r[j] == t[j - 1]);
            } else if i == p && j > p {
                assert(r[j] == t[j - 1]);
                assert(t[p].start <= t[j - 1].start);
            }
        }
        assert(s =~= init.push(e));
        assert(r.remove(p) =~= t);
        assert(r[p] == e);
        vstd::seq_lib::to_multiset_remove(r, p);
        assert(r.contains(e));
        r.to_multiset_ensures();
        init.to_multiset_ensures();
        assert(r.to_multiset() =~= t.to_multiset().insert(e));
        assert(r.to_multiset() =~= s.to_multiset());
        if all_faithful(s, text) {
            assert forall|i: int| 0 <= i < init.len() implies faithful(
                #[trigger] init[i],
                text,
            ) by {
                assert(init[i] == s[i]);
            }
            assert forall|i: int| 0 <= i < r.len() implies faithful(#[trigger] r[i], text) by {
                if i < p {
                    assert(r[i] == t[i]);
                } else if i > p {
                    assert(r[i] == t[i - 1]);
                } else {
                    assert(r[i] == s[s.len() - 1]);
                }
            }
        }
    }
}

/// Every listed occurrence is faithful to the text.
pub proof fn lemma_groups_faithful(groups: Seq<Seq<char>>, text: Seq<char>)
    ensures
        groups_emotes(groups, text) matches Some(l) ==> all_faithful(l, text),
    decreases groups.len(),
{
    if groups.len() > 0 {
        lemma_groups_faithful(groups.drop_last(), text);
        if let Some(l) = groups_emotes(groups, text) {
            let a = groups_emotes(groups.drop_last(), text)->0;
            let b = group_emotes(groups.last(), text)->0;
            let g = groups.last();
            let items = split(after(g, ':'), ',');
            assert forall|i: int| 0 <= i < l.len() implies faithful(#[trigger] l[i], text) by {
                if i < a.len() {
                    assert(l[i] == a[i]);
                } else {
                    let k = i - a.len();
                    assert(l[i] == b[k]);
                    assert(emote_of(before(g, ':'), items[k], text) is Some);
                }
            }
        }
    }
}

/// The emotes of a message come ordered by start, and the code of each is
/// the message text at its range, taken as far as the text goes.
pub proof fn law_emotes_ordered_and_faithful(
    m: IrcMessageView,
    key: Seq<char>,
    text: Seq<char>,
)
    ensures
        emotes_of(m, key, text) matches Ok(l) ==> ordered(l) && all_faithful(l, text),
{
    if let Ok(l) = emotes_of(m, key, text) {
        let v = tag_value(m, key)->Ok_0;
        let listed = listed_emotes(v, text)->0;
        if v.len() > 0 {
            lemma_groups_faithful(split(v, '/'), text);
        }
        lemma_by_start(listed, text);
    }
}

/// Reads one `first-last` item of the emote `id`.
fn parse_emote(id: &[char], item: &[char], text: &[char]) -> (r: Option<Emote>)
    ensures
        match r {
            Some(e) => emote_of(id@, item@, text@) == Some(e@),
            None => emote_of(id@, item@, text@) is None,
        },
{
    let (first, last) = match split_once(item, '-') {
        Some(pair) => pair,
        None => {
            return None;
        },
    };
    let start = match parse_usize(first) {
        Some(n) => n,
        None => {
            return None;
        },
    };
    let last = match parse_usize(last) {
        Some(n) => n,
        None => {
            return None;
        },
    };
    if last == usize::MAX || start > last + 1 {
        return None;
    }
    let end = last + 1;
    let n = text.len();
    let from = if start < n {
        start
    } else {
        n
    };
    let to = if end < n {
        end
    } else {
        n
    };
    let code = string_from_chars(vstd::slice::slice_subrange(text, from, to));
    Some(Emote { id: string_from_chars(id), range: start..end, code })
}

/// Puts `e` into `sorted` before the first occurrence that starts later.
fn insert_by_start(sorted: &mut Vec<Emote>, e: Emote)
    ensures
        emotes_view(final(sorted)@) == emotes_view(old(sorted)@).insert(
            slot(emotes_view(old(sorted)@), e@.start),
            e@,
        ),
{
    let ghost view = emotes_view(sorted@);
    let mut p: usize = 0;
    while p < sorted.len() && sorted[p].range.start <= e.range.start
        invariant
            p <= sorted.len(),
            view == emotes_view(sorted@),
            sorted@ == old(sorted)@,
            forall|j: int| 0 <= j < p ==> view[j].start <= e@.start,
        decreases sorted.len() - p,
    {
        p += 1;
    }
    proof {
        lemma_slot_is(view, e@.start, p as int);
    }
    sorted.insert(p, e);
    proof {
        assert(emotes_view(sorted@) =~= view.insert(p as int, e@));
    }
}

impl IrcMessage {
    /// The emotes listed under `tag_key`, decoded against `message_text`:
    /// ordered by start, the code of each being the text at its range as far
    /// as the text goes.
    pub fn try_get_emotes(&self, tag_key: &'static str, message_text: &str) -> (r: Result<
        Vec<Emote>,
        ServerMessageParseError,
    >)
        ensures
            match r {
                Ok(v) => ok_is(emotes_of(self@, tag_key@, message_text@), emotes_view(v@))
                    && ordered(emotes_view(v@)) && all_faithful(emotes_view(v@), message_text@),
                Err(e) => err_is(emotes_of(self@, tag_key@, message_text@), e@),
            },
    {
        proof {
            law_emotes_ordered_and_faithful(self@, tag_key@, message_text@);
        }
        let value = self.try_get_tag_value(tag_key)?;
        let mut emotes: Vec<Emote> = Vec::new();
        if value.is_empty() {
            proof {
                assert(emotes_view(emotes@) =~= Seq::<EmoteView>::empty());
                assert(by_start(Seq::<EmoteView>::empty()) =~= Seq::<EmoteView>::empty());
            }
            return Ok(emotes);
        }
        let chars = chars_of(value);
        let text = chars_of(message_text);
        let groups = split_all(chars.as_slice(), '/');
        let ghost all = split(value@, '/');
        let ghost mut listed: Seq<EmoteView> = Seq::empty();
        let mut i: usize = 0;
        proof {
            assert(all.subrange(0, 0) =~= Seq::<Seq<char>>::empty());
            assert(emotes_view(emotes@) =~= Seq::<EmoteView>::empty());
            assert(by_start(listed) =~= Seq::<EmoteView>::empty());
        }
        while i < groups.len()
            invariant
                i <= groups.len(),
                all == slices_view(groups@),
                all == split(value@, '/'),
                value@.len() > 0,
                text@ == message_text@,
                ok_is(tag_value(self@, tag_key@), value@),
                groups_emotes(all.subrange(0, i as int), text@) == Some(listed),
                emotes_view(emotes@) == by_start(listed),
            decreases groups.len() - i,
        {
            let ghost upto = all.subrange(0, i + 1);
            proof {
                assert(upto.drop_last() =~= all.subrange(0, i as int));
                assert(upto.last() == groups@[i as int]@);
                if all.subrange(0, all.len() as int) =~= all && groups_emotes(upto, text@) is None {
                    lemma_groups_none(all, i + 1, text@);
                }
            }
            let (id, indices) = match split_once(groups[i], ':') {
                Some(pair) => pair,
                None => {
                    return Err(
                        ServerMessageParseError::MalformedTagValue(
                            self.clone(),
                            tag_key,
                            value.to_owned(),
                        ),
                    );
                },
            };
            let items = split_all(indices, ',');
            let ghost group_items = split(indices@, ',');
            let ghost before_group = listed;
            let mut j: usize = 0;
            proof {
                assert(listed =~= before_group + items_emotes(id@, group_items, text@).subrange(
                    0,
                    0,
                ));
            }
            while j < items.len()
                invariant
                    j <= items.len(),
                    group_items == slices_view(items@),
                    forall|k: int|
                        0 <= k < j ==> emote_of(id@, #[trigger] group_items[k], text@) is Some,
                    listed == before_group + items_emotes(id@, group_items, text@).subrange(
                        0,
                        j as int,
                    ),
                    emotes_view(emotes@) == by_start(listed),
                    group_emotes(groups@[i as int]@, text@) is None ==> groups_emotes(
                        upto,
                        text@,
                    ) is None,
                    groups_emotes(upto, text@) is None ==> listed_emotes(value@, text@) is None,
                    ok_is(tag_value(self@, tag_key@), value@),
                    text@ == message_text@,
                    !all_emotes(id@, group_items, text@) ==> group_emotes(
                        groups@[i as int]@,
                        text@,
                    ) is None,
                decreases items.len() - j,
            {
                match parse_emote(id, items[j], text.as_slice()) {
                    None => {
                        proof {
                            assert(emote_of(id@, group_items[j as int], text@) is None);
                        }
                        return Err(
                            ServerMessageParseError::MalformedTagValue(
                                self.clone(),
                                tag_key,
                                value.to_owned(),
                            ),
                        );
                    },
                    Some(e) => {
                        proof {
                            let whole = items_emotes(id@, group_items, text@);
                            assert(whole.subrange(0, j + 1) =~= whole.subrange(0, j as int).push(
                                e@,
                            ));
                            assert(before_group + whole.subrange(0, j + 1) =~= listed.push(e@));
                            assert(listed.push(e@).drop_last() =~= listed);
                            listed = listed.push(e@);
                        }
                        insert_by_start(&mut emotes, e);
                    },
                }
                j += 1;
            }
            proof {
                let whole = items_emotes(id@, group_items, text@);
                assert(whole.subrange(0, whole.len() as int) =~= whole);
                assert(all_emotes(id@, group_items, text@));
            }
            i += 1;
        }
        proof {
            assert(all.subrange(0, all.len() as int) =~= all);
        }
        Ok(emotes)
    }
}

/// Groups that cannot all be read cannot be read with more groups added.
pub proof fn lemma_groups_none(groups: Seq<Seq<char>>, n: int, text: Seq<char>)
    requires
        0 <= n <= groups.len(),
        groups_emotes(groups.subrange(0, n), text) is None,
    ensures
        groups_emotes(groups, text) is None,
    decreases groups.len() - n,
{
    if n == groups.len() {
        assert(groups.subrange(0, n) =~= groups);
    } else {
        let longer = groups.subrange(0, n + 1);
        assert(longer.drop_last() =~= groups.subrange(0, n));
        lemma_groups_none(groups, n + 1, text);
    }
}

} // verus!
