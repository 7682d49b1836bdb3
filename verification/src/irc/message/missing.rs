//! A message that lacks a tag which its command requires, and nothing
//! else, is reported as lacking that very tag.

use vstd::prelude::*;
use crate::irc::message::commands::{
    clear_chat_fault, clear_msg_fault, global_user_state_fault, room_state_fault,
    user_state_fault, whisper_fault,
};
use crate::irc::message::extract::{fault, nonempty_tag_value, ParseErrorView};
use crate::irc::message::privmsg::privmsg_fault;
use crate::irc::message::tags::{has_key, key_index, lemma_key_index, lemma_key_index_is, value_of};
use crate::irc::message::thread::got;
use crate::irc::message::usernotice::{
    announcement_event, anon_gift_paid_upgrade_event, anon_mystery_gift_event,
    anonymous_gifter_id, bits_badge_tier_event, event_of, gift_paid_upgrade_event,
    mystery_gift_event, raid_event, ritual_event, sub_event, sub_gift_event, user_notice_fault,
};
use crate::irc::message::IrcMessageView;

verus! {

/// The message with one more tag, at the end.
pub open spec fn with_tag(m: IrcMessageView, key: Seq<char>, value: Seq<char>) -> IrcMessageView {
    IrcMessageView { tags: m.tags.push((key, value)), ..m }
}

/// One more tag at the end changes nothing under another key.
pub proof fn lemma_other_tag(
    tags: Seq<(Seq<char>, Seq<char>)>,
    key: Seq<char>,
    value: Seq<char>,
    other: Seq<char>,
)
    requires
        other != key,
    ensures
        value_of(tags.push((key, value)), other) == value_of(tags, other),
        has_key(tags.push((key, value)), other) == has_key(tags, other),
{
    let more = tags.push((key, value));
    lemma_key_index(tags, other);
    let i = key_index(tags, other);
    if i < tags.len() {
        assert(more[i] == tags[i]);
        assert forall|j: int| 0 <= j < i implies more[j].0 != other by {
            assert(more[j] == tags[j]);
        }
        lemma_key_index_is(more, other, i);
    } else {
        assert forall|j: int| 0 <= j < more.len() implies more[j].0 != other by {
            if j < tags.len() {
                assert(more[j] == tags[j]);
            }
        }
        lemma_key_index_is(more, other, more.len() as int);
    }
}

/// One more tag at the end changes nothing under any other key, and is
/// found under its own key where that key was not there.
pub proof fn lemma_with_tag(tags: Seq<(Seq<char>, Seq<char>)>, key: Seq<char>, value: Seq<char>)
    ensures
        forall|other: Seq<char>|
            other != key ==> #[trigger] value_of(tags.push((key, value)), other) == value_of(
                tags,
                other,
            ),
        forall|other: Seq<char>|
            other != key ==> #[trigger] has_key(tags.push((key, value)), other) == has_key(
                tags,
                other,
            ),
        !has_key(tags, key) ==> value_of(tags.push((key, value)), key) == Some(value),
{
    let more = tags.push((key, value));
    assert forall|other: Seq<char>| other != key implies #[trigger] value_of(more, other)
        == value_of(tags, other) by {
        lemma_other_tag(tags, key, value, other);
    }
    assert forall|other: Seq<char>| other != key implies #[trigger] has_key(more, other)
        == has_key(tags, other) by {
        lemma_other_tag(tags, key, value, other);
    }
    if !has_key(tags, key) {
        lemma_key_index(tags, key);
        assert forall|j: int| 0 <= j < tags.len() implies more[j].0 != key by {
            assert(more[j] == tags[j]);
        }
        lemma_key_index_is(more, key, tags.len() as int);
    }
}

/// The character at an index of a text, or a space where the text has
/// no such index.
pub open spec fn char_at(key: Seq<char>, i: int) -> char {
    if 0 <= i < key.len() {
        key[i]
    } else {
        ' '
    }
}

/// What tells the tag keys that typing reads apart: the length of a key
/// and three of its characters.
pub open spec fn key_print(key: Seq<char>) -> (nat, char, char, char) {
    (key.len(), char_at(key, 0), char_at(key, 10), char_at(key, key.len() - 1))
}

/// Every tag key that typing reads has a print of its own, so no two of
/// them are the same text.
pub proof fn lemma_key_prints()
    ensures
        key_print("room-id"@) == (7nat, 'r', ' ', 'd'),
        key_print("tmi-sent-ts"@) == (11nat, 't', 's', 's'),
        key_print("target-user-id"@) == (14nat, 't', 'r', 'd'),
        key_print("ban-duration"@) == (12nat, 'b', 'o', 'n'),
        key_print("historical"@) == (10nat, 'h', ' ', 'l'),
        key_print("login"@) == (5nat, 'l', ' ', 'n'),
        key_print("target-msg-id"@) == (13nat, 't', '-', 'd'),
        key_print("user-id"@) == (7nat, 'u', ' ', 'd'),
        key_print("display-name"@) == (12nat, 'd', 'm', 'e'),
        key_print("badge-info"@) == (10nat, 'b', ' ', 'o'),
        key_print("badges"@) == (6nat, 'b', ' ', 's'),
        key_print("emote-sets"@) == (10nat, 'e', ' ', 's'),
        key_print("color"@) == (5nat, 'c', ' ', 'r'),
        key_print("bits"@) == (4nat, 'b', ' ', 's'),
        key_print("emotes"@) == (6nat, 'e', ' ', 's'),
        key_print("id"@) == (2nat, 'i', ' ', 'd'),
        key_print("mod"@) == (3nat, 'm', ' ', 'd'),
        key_print("subscriber"@) == (10nat, 's', ' ', 'r'),
        key_print("rm-deleted"@) == (10nat, 'r', ' ', 'd'),
        key_print("emote-only"@) == (10nat, 'e', ' ', 'y'),
        key_print("followers-only"@) == (14nat, 'f', 'o', 'y'),
        key_print("r9k"@) == (3nat, 'r', ' ', 'k'),
        key_print("slow"@) == (4nat, 's', ' ', 'w'),
        key_print("subs-only"@) == (9nat, 's', ' ', 'y'),
        key_print("msg-id"@) == (6nat, 'm', ' ', 'd'),
        key_print("system-msg"@) == (10nat, 's', ' ', 'g'),
        key_print("reply-parent-msg-id"@) == (19nat, 'r', 'n', 'd'),
        key_print("reply-parent-user-id"@) == (20nat, 'r', 'n', 'd'),
        key_print("reply-parent-user-login"@) == (23nat, 'r', 'n', 'n'),
        key_print("reply-parent-display-name"@) == (25nat, 'r', 'n', 'e'),
        key_print("reply-parent-msg-body"@) == (21nat, 'r', 'n', 'y'),
        key_print("reply-thread-parent-msg-id"@) == (26nat, 'r', 'a', 'd'),
        key_print("reply-thread-parent-user-id"@) == (27nat, 'r', 'a', 'd'),
        key_print("reply-thread-parent-user-login"@) == (30nat, 'r', 'a', 'n'),
        key_print("reply-thread-parent-display-name"@) == (32nat, 'r', 'a', 'e'),
        key_print("source-id"@) == (9nat, 's', ' ', 'd'),
        key_print("source-msg-id"@) == (13nat, 's', '-', 'd'),
        key_print("source-room-id"@) == (14nat, 's', 'm', 'd'),
        key_print("source-badges"@) == (13nat, 's', 'g', 's'),
        key_print("source-badge-info"@) == (17nat, 's', 'g', 'o'),
        key_print("msg-param-color"@) == (15nat, 'm', 'c', 'r'),
        key_print("msg-param-cumulative-months"@) == (27nat, 'm', 'c', 's'),
        key_print("msg-param-should-share-streak"@) == (29nat, 'm', 's', 'k'),
        key_print("msg-param-streak-months"@) == (23nat, 'm', 's', 's'),
        key_print("msg-param-sub-plan"@) == (18nat, 'm', 's', 'n'),
        key_print("msg-param-sub-plan-name"@) == (23nat, 'm', 's', 'e'),
        key_print("msg-param-viewerCount"@) == (21nat, 'm', 'v', 't'),
        key_print("msg-param-profileImageURL"@) == (25nat, 'm', 'p', 'L'),
        key_print("msg-param-months"@) == (16nat, 'm', 'm', 's'),
        key_print("msg-param-recipient-id"@) == (22nat, 'm', 'r', 'd'),
        key_print("msg-param-recipient-user-name"@) == (29nat, 'm', 'r', 'e'),
        key_print("msg-param-recipient-display-name"@) == (32nat, 'm', 'r', 'e'),
        key_print("msg-param-gift-months"@) == (21nat, 'm', 'g', 's'),
        key_print("msg-param-sender-count"@) == (22nat, 'm', 's', 't'),
        key_print("msg-param-mass-gift-count"@) == (25nat, 'm', 'm', 't'),
        key_print("msg-param-sender-login"@) == (22nat, 'm', 's', 'n'),
        key_print("msg-param-sender-name"@) == (21nat, 'm', 's', 'e'),
        key_print("msg-param-promo-gift-total"@) == (26nat, 'm', 'p', 'l'),
        key_print("msg-param-promo-name"@) == (20nat, 'm', 'p', 'e'),
        key_print("msg-param-ritual-name"@) == (21nat, 'm', 'r', 'e'),
        key_print("msg-param-threshold"@) == (19nat, 'm', 't', 'd'),
{
    reveal_strlit("room-id");
    assert("room-id"@.len() == 7);
    assert("room-id"@[0] == 'r');
    assert("room-id"@[6] == 'd');
    reveal_strlit("tmi-sent-ts");
    assert("tmi-sent-ts"@.len() == 11);
    assert("tmi-sent-ts"@[0] == 't');
    assert("tmi-sent-ts"@[10] == 's');
    reveal_strlit("target-user-id");
    assert("target-user-id"@.len() == 14);
    assert("target-user-id"@[0] == 't');
    assert("target-user-id"@[10] == 'r');
    assert("target-user-id"@[13] == 'd');
    reveal_strlit("ban-duration");
    assert("ban-duration"@.len() == 12);
    assert("ban-duration"@[0] == 'b');
    assert("ban-duration"@[10] == 'o');
    assert("ban-duration"@[11] == 'n');
    reveal_strlit("historical");
    assert("historical"@.len() == 10);
    assert("historical"@[0] == 'h');
    assert("historical"@[9] == 'l');
    reveal_strlit("login");
    assert("login"@.len() == 5);
    assert("login"@[0] == 'l');
    assert("login"@[4] == 'n');
    reveal_strlit("target-msg-id");
    assert("target-msg-id"@.len() == 13);
    assert("target-msg-id"@[0] == 't');
    assert("target-msg-id"@[10] == '-');
    assert("target-msg-id"@[12] == 'd');
    reveal_strlit("user-id");
    assert("user-id"@.len() == 7);
    assert("user-id"@[0] == 'u');
    assert("user-id"@[6] == 'd');
    reveal_strlit("display-name");
    assert("display-name"@.len() == 12);
    assert("display-name"@[0] == 'd');
    assert("display-name"@[10] == 'm');
    assert("display-name"@[11] == 'e');
    reveal_strlit("badge-info");
    assert("badge-info"@.len() == 10);
    assert("badge-info"@[0] == 'b');
    assert("badge-info"@[9] == 'o');
    reveal_strlit("badges");
    assert("badges"@.len() == 6);
    assert("badges"@[0] == 'b');
    assert("badges"@[5] == 's');
    reveal_strlit("emote-sets");
    assert("emote-sets"@.len() == 10);
    assert("emote-sets"@[0] == 'e');
    assert("emote-sets"@[9] == 's');
    reveal_strlit("color");
    assert("color"@.len() == 5);
    assert("color"@[0] == 'c');
    assert("color"@[4] == 'r');
    reveal_strlit("bits");
    assert("bits"@.len() == 4);
    assert("bits"@[0] == 'b');
    assert("bits"@[3] == 's');
    reveal_strlit("emotes");
    assert("emotes"@.len() == 6);
    assert("emotes"@[0] == 'e');
    assert("emotes"@[5] == 's');
    reveal_strlit("id");
    assert("id"@.len() == 2);
    assert("id"@[0] == 'i');
    assert("id"@[1] == 'd');
    reveal_strlit("mod");
    assert("mod"@.len() == 3);
    assert("mod"@[0] == 'm');
    assert("mod"@[2] == 'd');
    reveal_strlit("subscriber");
    assert("subscriber"@.len() == 10);
    assert("subscriber"@[0] == 's');
    assert("subscriber"@[9] == 'r');
    reveal_strlit("rm-deleted");
    assert("rm-deleted"@.len() == 10);
    assert("rm-deleted"@[0] == 'r');
    assert("rm-deleted"@[9] == 'd');
    reveal_strlit("emote-only");
    assert("emote-only"@.len() == 10);
    assert("emote-only"@[0] == 'e');
    assert("emote-only"@[9] == 'y');
    reveal_strlit("followers-only");
    assert("followers-only"@.len() == 14);
    assert("followers-only"@[0] == 'f');
    assert("followers-only"@[10] == 'o');
    assert("followers-only"@[13] == 'y');
    reveal_strlit("r9k");
    assert("r9k"@.len() == 3);
    assert("r9k"@[0] == 'r');
    assert("r9k"@[2] == 'k');
    reveal_strlit("slow");
    assert("slow"@.len() == 4);
    assert("slow"@[0] == 's');
    assert("slow"@[3] == 'w');
    reveal_strlit("subs-only");
    assert("subs-only"@.len() == 9);
    assert("subs-only"@[0] == 's');
    assert("subs-only"@[8] == 'y');
    reveal_strlit("msg-id");
    assert("msg-id"@.len() == 6);
    assert("msg-id"@[0] == 'm');
    assert("msg-id"@[5] == 'd');
    reveal_strlit("system-msg");
    assert("system-msg"@.len() == 10);
    assert("system-msg"@[0] == 's');
    assert("system-msg"@[9] == 'g');
    reveal_strlit("reply-parent-msg-id");
    assert("reply-parent-msg-id"@.len() == 19);
    assert("reply-parent-msg-id"@[0] == 'r');
    assert("reply-parent-msg-id"@[10] == 'n');
    assert("reply-parent-msg-id"@[18] == 'd');
    reveal_strlit("reply-parent-user-id");
    assert("reply-parent-user-id"@.len() == 20);
    assert("reply-parent-user-id"@[0] == 'r');
    assert("reply-parent-user-id"@[10] == 'n');
    assert("reply-parent-user-id"@[19] == 'd');
    reveal_strlit("reply-parent-user-login");
    assert("reply-parent-user-login"@.len() == 23);
    assert("reply-parent-user-login"@[0] == 'r');
    assert("reply-parent-user-login"@[10] == 'n');
    assert("reply-parent-user-login"@[22] == 'n');
    reveal_strlit("reply-parent-display-name");
    assert("reply-parent-display-name"@.len() == 25);
    assert("reply-parent-display-name"@[0] == 'r');
    assert("reply-parent-display-name"@[10] == 'n');
    assert("reply-parent-display-name"@[24] == 'e');
    reveal_strlit("reply-parent-msg-body");
    assert("reply-parent-msg-body"@.len() == 21);
    assert("reply-parent-msg-body"@[0] == 'r');
    assert("reply-parent-msg-body"@[10] == 'n');
    assert("reply-parent-msg-body"@[20] == 'y');
    reveal_strlit("reply-thread-parent-msg-id");
    assert("reply-thread-parent-msg-id"@.len() == 26);
    assert("reply-thread-parent-msg-id"@[0] == 'r');
    assert("reply-thread-parent-msg-id"@[10] == 'a');
    assert("reply-thread-parent-msg-id"@[25] == 'd');
    reveal_strlit("reply-thread-parent-user-id");
    assert("reply-thread-parent-user-id"@.len() == 27);
    assert("reply-thread-parent-user-id"@[0] == 'r');
    assert("reply-thread-parent-user-id"@[10] == 'a');
    assert("reply-thread-parent-user-id"@[26] == 'd');
    reveal_strlit("reply-thread-parent-user-login");
    assert("reply-thread-parent-user-login"@.len() == 30);
    assert("reply-thread-parent-user-login"@[0] == 'r');
    assert("reply-thread-parent-user-login"@[10] == 'a');
    assert("reply-thread-parent-user-login"@[29] == 'n');
    reveal_strlit("reply-thread-parent-display-name");
    assert("reply-thread-parent-display-name"@.len() == 32);
    assert("reply-thread-parent-display-name"@[0] == 'r');
    assert("reply-thread-parent-display-name"@[10] == 'a');
    assert("reply-thread-parent-display-name"@[31] == 'e');
    reveal_strlit("source-id");
    assert("source-id"@.len() == 9);
    assert("source-id"@[0] == 's');
    assert("source-id"@[8] == 'd');
    reveal_strlit("source-msg-id");
    assert("source-msg-id"@.len() == 13);
    assert("source-msg-id"@[0] == 's');
    assert("source-msg-id"@[10] == '-');
    assert("source-msg-id"@[12] == 'd');
    reveal_strlit("source-room-id");
    assert("source-room-id"@.len() == 14);
    assert("source-room-id"@[0] == 's');
    assert("source-room-id"@[10] == 'm');
    assert("source-room-id"@[13] == 'd');
    reveal_strlit("source-badges");
    assert("source-badges"@.len() == 13);
    assert("source-badges"@[0] == 's');
    assert("source-badges"@[10] == 'g');
    assert("source-badges"@[12] == 's');
    reveal_strlit("source-badge-info");
    assert("source-badge-info"@.len() == 17);
    assert("source-badge-info"@[0] == 's');
    assert("source-badge-info"@[10] == 'g');
    assert("source-badge-info"@[16] == 'o');
    reveal_strlit("msg-param-color");
    assert("msg-param-color"@.len() == 15);
    assert("msg-param-color"@[0] == 'm');
    assert("msg-param-color"@[10] == 'c');
    assert("msg-param-color"@[14] == 'r');
    reveal_strlit("msg-param-cumulative-months");
    assert("msg-param-cumulative-months"@.len() == 27);
    assert("msg-param-cumulative-months"@[0] == 'm');
    assert("msg-param-cumulative-months"@[10] == 'c');
    assert("msg-param-cumulative-months"@[26] == 's');
    reveal_strlit("msg-param-should-share-streak");
    assert("msg-param-should-share-streak"@.len() == 29);
    assert("msg-param-should-share-streak"@[0] == 'm');
    assert("msg-param-should-share-streak"@[10] == 's');
    assert("msg-param-should-share-streak"@[28] == 'k');
    reveal_strlit("msg-param-streak-months");
    assert("msg-param-streak-months"@.len() == 23);
    assert("msg-param-streak-months"@[0] == 'm');
    assert("msg-param-streak-months"@[10] == 's');
    assert("msg-param-streak-months"@[22] == 's');
    reveal_strlit("msg-param-sub-plan");
    assert("msg-param-sub-plan"@.len() == 18);
    assert("msg-param-sub-plan"@[0] == 'm');
    assert("msg-param-sub-plan"@[10] == 's');
    assert("msg-param-sub-plan"@[17] == 'n');
    reveal_strlit("msg-param-sub-plan-name");
    assert("msg-param-sub-plan-name"@.len() == 23);
    assert("msg-param-sub-plan-name"@[0] == 'm');
    assert("msg-param-sub-plan-name"@[10] == 's');
    assert("msg-param-sub-plan-name"@[22] == 'e');
    reveal_strlit("msg-param-viewerCount");
    assert("msg-param-viewerCount"@.len() == 21);
    assert("msg-param-viewerCount"@[0] == 'm');
    assert("msg-param-viewerCount"@[10] == 'v');
    assert("msg-param-viewerCount"@[20] == 't');
    reveal_strlit("msg-param-profileImageURL");
    assert("msg-param-profileImageURL"@.len() == 25);
    assert("msg-param-profileImageURL"@[0] == 'm');
    assert("msg-param-profileImageURL"@[10] == 'p');
    assert("msg-param-profileImageURL"@[24] == 'L');
    reveal_strlit("msg-param-months");
    assert("msg-param-months"@.len() == 16);
    assert("msg-param-months"@[0] == 'm');
    assert("msg-param-months"@[10] == 'm');
    assert("msg-param-months"@[15] == 's');
    reveal_strlit("msg-param-recipient-id");
    assert("msg-param-recipient-id"@.len() == 22);
    assert("msg-param-recipient-id"@[0] == 'm');
    assert("msg-param-recipient-id"@[10] == 'r');
    assert("msg-param-recipient-id"@[21] == 'd');
    reveal_strlit("msg-param-recipient-user-name");
    assert("msg-param-recipient-user-name"@.len() == 29);
    assert("msg-param-recipient-user-name"@[0] == 'm');
    assert("msg-param-recipient-user-name"@[10] == 'r');
    assert("msg-param-recipient-user-name"@[28] == 'e');
    reveal_strlit("msg-param-recipient-display-name");
    assert("msg-param-recipient-display-name"@.len() == 32);
    assert("msg-param-recipient-display-name"@[0] == 'm');
    assert("msg-param-recipient-display-name"@[10] == 'r');
    assert("msg-param-recipient-display-name"@[31] == 'e');
    reveal_strlit("msg-param-gift-months");
    assert("msg-param-gift-months"@.len() == 21);
    assert("msg-param-gift-months"@[0] == 'm');
    assert("msg-param-gift-months"@[10] == 'g');
    assert("msg-param-gift-months"@[20] == 's');
    reveal_strlit("msg-param-sender-count");
    assert("msg-param-sender-count"@.len() == 22);
    assert("msg-param-sender-count"@[0] == 'm');
    assert("msg-param-sender-count"@[10] == 's');
    assert("msg-param-sender-count"@[21] == 't');
    reveal_strlit("msg-param-mass-gift-count");
    assert("msg-param-mass-gift-count"@.len() == 25);
    assert("msg-param-mass-gift-count"@[0] == 'm');
    assert("msg-param-mass-gift-count"@[10] == 'm');
    assert("msg-param-mass-gift-count"@[24] == 't');
    reveal_strlit("msg-param-sender-login");
    assert("msg-param-sender-login"@.len() == 22);
    assert("msg-param-sender-login"@[0] == 'm');
    assert("msg-param-sender-login"@[10] == 's');
    assert("msg-param-sender-login"@[21] == 'n');
    reveal_strlit("msg-param-sender-name");
    assert("msg-param-sender-name"@.len() == 21);
    assert("msg-param-sender-name"@[0] == 'm');
    assert("msg-param-sender-name"@[10] == 's');
    assert("msg-param-sender-name"@[20] == 'e');
    reveal_strlit("msg-param-promo-gift-total");
    assert("msg-param-promo-gift-total"@.len() == 26);
    assert("msg-param-promo-gift-total"@[0] == 'm');
    assert("msg-param-promo-gift-total"@[10] == 'p');
    assert("msg-param-promo-gift-total"@[25] == 'l');
    reveal_strlit("msg-param-promo-name");
    assert("msg-param-promo-name"@.len() == 20);
    assert("msg-param-promo-name"@[0] == 'm');
    assert("msg-param-promo-name"@[10] == 'p');
    assert("msg-param-promo-name"@[19] == 'e');
    reveal_strlit("msg-param-ritual-name");
    assert("msg-param-ritual-name"@.len() == 21);
    assert("msg-param-ritual-name"@[0] == 'm');
    assert("msg-param-ritual-name"@[10] == 'r');
    assert("msg-param-ritual-name"@[20] == 'e');
    reveal_strlit("msg-param-threshold");
    assert("msg-param-threshold"@.len() == 19);
    assert("msg-param-threshold"@[0] == 'm');
    assert("msg-param-threshold"@[10] == 't');
    assert("msg-param-threshold"@[18] == 'd');
}

/// The tags that a `CLEARCHAT` must have, whatever else it holds.
pub open spec fn clear_chat_requires(key: Seq<char>) -> bool {
    key == "room-id"@ || key == "tmi-sent-ts"@
}

/// A `CLEARCHAT` that lacks a required tag, and would be faultless with it, is
/// reported as lacking that tag.
pub proof fn law_clear_chat_names_missing_tag(m: IrcMessageView, key: Seq<char>, value: Seq<char>)
    requires
        clear_chat_requires(key),
        !has_key(m.tags, key),
        clear_chat_fault(with_tag(m, key, value)) is None,
    ensures
        clear_chat_fault(m) == Some(ParseErrorView::MissingTag(m, key)),
{
    lemma_key_prints();
    lemma_with_tag(m.tags, key, value);
}

/// The tags that a `CLEARMSG` must have, whatever else it holds.
pub open spec fn clear_msg_requires(key: Seq<char>) -> bool {
    key == "room-id"@ || key == "login"@ || key == "target-msg-id"@ || key == "tmi-sent-ts"@
}

/// A `CLEARMSG` that lacks a required tag, and would be faultless with it, is
/// reported as lacking that tag.
pub proof fn law_clear_msg_names_missing_tag(m: IrcMessageView, key: Seq<char>, value: Seq<char>)
    requires
        clear_msg_requires(key),
        !has_key(m.tags, key),
        clear_msg_fault(with_tag(m, key, value)) is None,
    ensures
        clear_msg_fault(m) == Some(ParseErrorView::MissingTag(m, key)),
{
    lemma_key_prints();
    lemma_with_tag(m.tags, key, value);
}

/// The tags that a `GLOBALUSERSTATE` must have, whatever else it holds.
pub open spec fn global_user_state_requires(key: Seq<char>) -> bool {
    key == "user-id"@ || key == "display-name"@ || key == "badge-info"@ || key == "badges"@
        || key == "emote-sets"@ || key == "color"@
}

/// A `GLOBALUSERSTATE` that lacks a required tag, and would be faultless with it, is
/// reported as lacking that tag.
pub proof fn law_global_user_state_names_missing_tag(
    m: IrcMessageView,
    key: Seq<char>,
    value: Seq<char>,
)
    requires
        global_user_state_requires(key),
        !has_key(m.tags, key),
        global_user_state_fault(with_tag(m, key, value)) is None,
    ensures
        global_user_state_fault(m) == Some(ParseErrorView::MissingTag(m, key)),
{
    lemma_key_prints();
    lemma_with_tag(m.tags, key, value);
}

/// The tags that a `PRIVMSG` must have, whatever else it holds.
pub open spec fn privmsg_requires(key: Seq<char>) -> bool {
    key == "room-id"@ || key == "user-id"@ || key == "display-name"@ || key == "badge-info"@
        || key == "badges"@ || key == "color"@ || key == "emotes"@ || key == "tmi-sent-ts"@
        || key == "id"@ || key == "mod"@ || key == "subscriber"@
}

/// A `PRIVMSG` that lacks a required tag, and would be faultless with it, is
/// reported as lacking that tag.
pub proof fn law_privmsg_names_missing_tag(m: IrcMessageView, key: Seq<char>, value: Seq<char>)
    requires
        privmsg_requires(key),
        !has_key(m.tags, key),
        privmsg_fault(with_tag(m, key, value)) is None,
    ensures
        privmsg_fault(m) == Some(ParseErrorView::MissingTag(m, key)),
{
    lemma_key_prints();
    lemma_with_tag(m.tags, key, value);
}

/// The tags that a `ROOMSTATE` must have, whatever else it holds.
pub open spec fn room_state_requires(key: Seq<char>) -> bool {
    key == "room-id"@
}

/// A `ROOMSTATE` that lacks a required tag, and would be faultless with it, is
/// reported as lacking that tag.
pub proof fn law_room_state_names_missing_tag(m: IrcMessageView, key: Seq<char>, value: Seq<char>)
    requires
        room_state_requires(key),
        !has_key(m.tags, key),
        room_state_fault(with_tag(m, key, value)) is None,
    ensures
        room_state_fault(m) == Some(ParseErrorView::MissingTag(m, key)),
{
    lemma_key_prints();
    lemma_with_tag(m.tags, key, value);
}

/// The tags that a `USERSTATE` must have, whatever else it holds.
pub open spec fn user_state_requires(key: Seq<char>) -> bool {
    key == "display-name"@ || key == "badge-info"@ || key == "badges"@ || key == "emote-sets"@
        || key == "color"@
}

/// A `USERSTATE` that lacks a required tag, and would be faultless with it, is
/// reported as lacking that tag.
pub proof fn law_user_state_names_missing_tag(m: IrcMessageView, key: Seq<char>, value: Seq<char>)
    requires
        user_state_requires(key),
        !has_key(m.tags, key),
        user_state_fault(with_tag(m, key, value)) is None,
    ensures
        user_state_fault(m) == Some(ParseErrorView::MissingTag(m, key)),
{
    lemma_key_prints();
    lemma_with_tag(m.tags, key, value);
}

/// The tags that a `WHISPER` must have, whatever else it holds.
pub open spec fn whisper_requires(key: Seq<char>) -> bool {
    key == "emotes"@ || key == "user-id"@ || key == "display-name"@ || key == "color"@
        || key == "badges"@
}

/// A `WHISPER` that lacks a required tag, and would be faultless with it, is
/// reported as lacking that tag.
pub proof fn law_whisper_names_missing_tag(m: IrcMessageView, key: Seq<char>, value: Seq<char>)
    requires
        whisper_requires(key),
        !has_key(m.tags, key),
        whisper_fault(with_tag(m, key, value)) is None,
    ensures
        whisper_fault(m) == Some(ParseErrorView::MissingTag(m, key)),
{
    lemma_key_prints();
    lemma_with_tag(m.tags, key, value);
}

/// The tags that a `USERNOTICE` must have, whatever else it holds.
pub open spec fn user_notice_requires(key: Seq<char>) -> bool {
    key == "user-id"@ || key == "login"@ || key == "display-name"@ || key == "msg-id"@
        || key == "room-id"@ || key == "badge-info"@ || key == "badges"@ || key == "color"@
        || key == "id"@ || key == "tmi-sent-ts"@
}

/// A tag that every `USERNOTICE` must have is none that `announcement_event` reads.
pub proof fn lemma_announcement_event_ignores(m: IrcMessageView, key: Seq<char>, value: Seq<char>)
    requires
        user_notice_requires(key),
        !has_key(m.tags, key),
    ensures
        fault(announcement_event(with_tag(m, key, value))) is None
            ==> fault(announcement_event(m)) is None,
{
    lemma_key_prints();
    lemma_with_tag(m.tags, key, value);
}

/// A tag that every `USERNOTICE` must have is none that `sub_event` reads.
pub proof fn lemma_sub_event_ignores(
    m: IrcMessageView,
    key: Seq<char>,
    value: Seq<char>,
    flag: bool,
)
    requires
        user_notice_requires(key),
        !has_key(m.tags, key),
    ensures
        fault(sub_event(with_tag(m, key, value), flag)) is None
            ==> fault(sub_event(m, flag)) is None,
{
    lemma_key_prints();
    lemma_with_tag(m.tags, key, value);
}

/// A tag that every `USERNOTICE` must have is none that `raid_event` reads.
pub proof fn lemma_raid_event_ignores(m: IrcMessageView, key: Seq<char>, value: Seq<char>)
    requires
        user_notice_requires(key),
        !has_key(m.tags, key),
    ensures
        fault(raid_event(with_tag(m, key, value))) is None ==> fault(raid_event(m)) is None,
{
    lemma_key_prints();
    lemma_with_tag(m.tags, key, value);
}

/// A tag that every `USERNOTICE` must have is none that `sub_gift_event` reads.
pub proof fn lemma_sub_gift_event_ignores(
    m: IrcMessageView,
    key: Seq<char>,
    value: Seq<char>,
    flag: bool,
)
    requires
        user_notice_requires(key),
        !has_key(m.tags, key),
    ensures
        fault(sub_gift_event(with_tag(m, key, value), flag)) is None
            ==> fault(sub_gift_event(m, flag)) is None,
{
    lemma_key_prints();
    lemma_with_tag(m.tags, key, value);
}

/// A tag that every `USERNOTICE` must have is none that `anon_mystery_gift_event` reads.
pub proof fn lemma_anon_mystery_gift_event_ignores(
    m: IrcMessageView,
    key: Seq<char>,
    value: Seq<char>,
)
    requires
        user_notice_requires(key),
        !has_key(m.tags, key),
    ensures
        fault(anon_mystery_gift_event(with_tag(m, key, value))) is None
            ==> fault(anon_mystery_gift_event(m)) is None,
{
    lemma_key_prints();
    lemma_with_tag(m.tags, key, value);
}

/// A tag that every `USERNOTICE` must have is none that `mystery_gift_event` reads.
pub proof fn lemma_mystery_gift_event_ignores(
    m: IrcMessageView,
    key: Seq<char>,
    value: Seq<char>,
    login: Seq<char>,
)
    requires
        user_notice_requires(key),
        !has_key(m.tags, key),
    ensures
        fault(mystery_gift_event(with_tag(m, key, value), login)) is None
            ==> fault(mystery_gift_event(m, login)) is None,
{
    lemma_key_prints();
    lemma_with_tag(m.tags, key, value);
}

/// A tag that every `USERNOTICE` must have is none that `gift_paid_upgrade_event` reads.
pub proof fn lemma_gift_paid_upgrade_event_ignores(
    m: IrcMessageView,
    key: Seq<char>,
    value: Seq<char>,
)
    requires
        user_notice_requires(key),
        !has_key(m.tags, key),
    ensures
        fault(gift_paid_upgrade_event(with_tag(m, key, value))) is None
            ==> fault(gift_paid_upgrade_event(m)) is None,
{
    lemma_key_prints();
    lemma_with_tag(m.tags, key, value);
}

/// A tag that every `USERNOTICE` must have is none that `anon_gift_paid_upgrade_event` reads.
pub proof fn lemma_anon_gift_paid_upgrade_event_ignores(
    m: IrcMessageView,
    key: Seq<char>,
    value: Seq<char>,
)
    requires
        user_notice_requires(key),
        !has_key(m.tags, key),
    ensures
        fault(anon_gift_paid_upgrade_event(with_tag(m, key, value))) is None
            ==> fault(anon_gift_paid_upgrade_event(m)) is None,
{
    lemma_key_prints();
    lemma_with_tag(m.tags, key, value);
}

/// A tag that every `USERNOTICE` must have is none that `ritual_event` reads.
pub proof fn lemma_ritual_event_ignores(m: IrcMessageView, key: Seq<char>, value: Seq<char>)
    requires
        user_notice_requires(key),
        !has_key(m.tags, key),
    ensures
        fault(ritual_event(with_tag(m, key, value))) is None ==> fault(ritual_event(m)) is None,
{
    lemma_key_prints();
    lemma_with_tag(m.tags, key, value);
}

/// A tag that every `USERNOTICE` must have is none that `bits_badge_tier_event` reads.
pub proof fn lemma_bits_badge_tier_event_ignores(
    m: IrcMessageView,
    key: Seq<char>,
    value: Seq<char>,
)
    requires
        user_notice_requires(key),
        !has_key(m.tags, key),
    ensures
        fault(bits_badge_tier_event(with_tag(m, key, value))) is None
            ==> fault(bits_badge_tier_event(m)) is None,
{
    lemma_key_prints();
    lemma_with_tag(m.tags, key, value);
}

/// A tag that every `USERNOTICE` must have is none that its event reads.
pub proof fn lemma_event_ignores(
    m: IrcMessageView,
    key: Seq<char>,
    value: Seq<char>,
    event_id: Seq<char>,
    sender_id: Seq<char>,
    sender_login: Seq<char>,
)
    requires
        user_notice_requires(key),
        !has_key(m.tags, key),
    ensures
        fault(event_of(with_tag(m, key, value), event_id, sender_id, sender_login)) is None
            ==> fault(event_of(m, event_id, sender_id, sender_login)) is None,
{
    lemma_announcement_event_ignores(m, key, value);
    lemma_sub_event_ignores(m, key, value, event_id == "resub"@);
    lemma_raid_event_ignores(m, key, value);
    lemma_sub_gift_event_ignores(
        m,
        key,
        value,
        event_id == "anonsubgift"@ || sender_id == anonymous_gifter_id(),
    );
    lemma_anon_mystery_gift_event_ignores(m, key, value);
    lemma_mystery_gift_event_ignores(m, key, value, sender_login);
    lemma_gift_paid_upgrade_event_ignores(m, key, value);
    lemma_anon_gift_paid_upgrade_event_ignores(m, key, value);
    lemma_ritual_event_ignores(m, key, value);
    lemma_bits_badge_tier_event_ignores(m, key, value);
}

/// A `USERNOTICE` that lacks a required tag, and would be faultless with
/// it, is reported as lacking that tag.
#[verifier::rlimit(50)]
pub proof fn law_user_notice_names_missing_tag(m: IrcMessageView, key: Seq<char>, value: Seq<char>)
    requires
        user_notice_requires(key),
        !has_key(m.tags, key),
        user_notice_fault(with_tag(m, key, value)) is None,
    ensures
        user_notice_fault(m) == Some(ParseErrorView::MissingTag(m, key)),
{
    lemma_key_prints();
    lemma_with_tag(m.tags, key, value);
    let more = with_tag(m, key, value);
    if key != "user-id"@ && key != "login"@ && key != "display-name"@ && key != "msg-id"@ {
        let event_id = got(nonempty_tag_value(m, "msg-id"@));
        let sender_id = got(nonempty_tag_value(m, "user-id"@));
        let sender_login = got(nonempty_tag_value(m, "login"@));
        assert(event_id == got(nonempty_tag_value(more, "msg-id"@)));
        assert(sender_id == got(nonempty_tag_value(more, "user-id"@)));
        assert(sender_login == got(nonempty_tag_value(more, "login"@)));
        lemma_event_ignores(m, key, value, event_id, sender_id, sender_login);
    }
}

} // verus!
