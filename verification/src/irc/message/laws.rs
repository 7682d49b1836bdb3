//! What holds of every fault that typing a raw message can find.

use vstd::prelude::*;
use crate::irc::message::commands::{
    clear_chat_fault, clear_msg_fault, global_user_state_fault, join_fault, notice_fault,
    part_fault, room_state_fault, user_state_fault, whisper_fault,
};
use crate::irc::message::extract::{fault, nonempty_tag_value, ParseErrorView};
use crate::irc::message::privmsg::privmsg_fault;
use crate::irc::message::server::server_message_fault;
use crate::irc::message::tags::has_key;
use crate::irc::message::thread::{got, source_of};
use crate::irc::message::usernotice::{
    announcement_event, anon_gift_paid_upgrade_event, anon_mystery_gift_event,
    anonymous_gifter_id, bits_badge_tier_event, event_of, gift_paid_upgrade_event,
    mystery_gift_event, raid_event, ritual_event, sub_event, sub_gift_event, system_message_of,
    user_notice_emotes, user_notice_event, user_notice_fault,
};
use crate::irc::message::IrcMessageView;

verus! {

/// A fault is honest about a message where it holds that very message and,
/// if it reports a missing tag, names a key under which the message has no
/// tag.
pub open spec fn honest(f: Option<ParseErrorView>, m: IrcMessageView) -> bool {
    f matches Some(e) ==> e.source() == m && (e matches ParseErrorView::MissingTag(_, k)
        ==> !has_key(m.tags, k))
}

/// The fault that a typed message finds is not about the command where the
/// command is its own.
pub open spec fn specific(f: Option<ParseErrorView>) -> bool {
    f matches Some(e) ==> !(e is MismatchedCommand)
}

/// The faults of a `CLEARCHAT` are honest, and specific under that command.
pub proof fn lemma_clear_chat_honest(m: IrcMessageView)
    ensures
        honest(clear_chat_fault(m), m),
        m.command == "CLEARCHAT"@ ==> specific(clear_chat_fault(m)),
{
}

/// The faults of a `CLEARMSG` are honest, and specific under that command.
pub proof fn lemma_clear_msg_honest(m: IrcMessageView)
    ensures
        honest(clear_msg_fault(m), m),
        m.command == "CLEARMSG"@ ==> specific(clear_msg_fault(m)),
{
}

/// The faults of a `GLOBALUSERSTATE` are honest, and specific under that
/// command.
pub proof fn lemma_global_user_state_honest(m: IrcMessageView)
    ensures
        honest(global_user_state_fault(m), m),
        m.command == "GLOBALUSERSTATE"@ ==> specific(global_user_state_fault(m)),
{
}

/// The faults of a `JOIN` and of a `PART` are honest, and specific under
/// those commands.
pub proof fn lemma_join_part_honest(m: IrcMessageView)
    ensures
        honest(join_fault(m), m),
        honest(part_fault(m), m),
        m.command == "JOIN"@ ==> specific(join_fault(m)),
        m.command == "PART"@ ==> specific(part_fault(m)),
{
}

/// The faults of a `NOTICE` are honest, and specific under that command.
pub proof fn lemma_notice_honest(m: IrcMessageView)
    ensures
        honest(notice_fault(m), m),
        m.command == "NOTICE"@ ==> specific(notice_fault(m)),
{
}

/// The faults of a `PRIVMSG` are honest, and specific under that command.
pub proof fn lemma_privmsg_honest(m: IrcMessageView)
    ensures
        honest(privmsg_fault(m), m),
        m.command == "PRIVMSG"@ ==> specific(privmsg_fault(m)),
{
}

/// The faults of a `ROOMSTATE` are honest, and specific under that command.
pub proof fn lemma_room_state_honest(m: IrcMessageView)
    ensures
        honest(room_state_fault(m), m),
        m.command == "ROOMSTATE"@ ==> specific(room_state_fault(m)),
{
}

/// The fault of `announcement_event` is honest and specific.
pub proof fn lemma_announcement_event_honest(m: IrcMessageView)
    ensures
        honest(fault(announcement_event(m)), m),
        specific(fault(announcement_event(m))),
{
}

/// The fault of `sub_event` is honest and specific.
pub proof fn lemma_sub_event_honest(m: IrcMessageView, is_resub: bool)
    ensures
        honest(fault(sub_event(m, is_resub)), m),
        specific(fault(sub_event(m, is_resub))),
{
}

/// The fault of `raid_event` is honest and specific.
pub proof fn lemma_raid_event_honest(m: IrcMessageView)
    ensures
        honest(fault(raid_event(m)), m),
        specific(fault(raid_event(m))),
{
}

/// The fault of `sub_gift_event` is honest and specific.
pub proof fn lemma_sub_gift_event_honest(m: IrcMessageView, anonymous: bool)
    ensures
        honest(fault(sub_gift_event(m, anonymous)), m),
        specific(fault(sub_gift_event(m, anonymous))),
{
}

/// The fault of `anon_mystery_gift_event` is honest and specific.
pub proof fn lemma_anon_mystery_gift_event_honest(m: IrcMessageView)
    ensures
        honest(fault(anon_mystery_gift_event(m)), m),
        specific(fault(anon_mystery_gift_event(m))),
{
}

/// The fault of `mystery_gift_event` is honest and specific.
pub proof fn lemma_mystery_gift_event_honest(m: IrcMessageView, sender_login: Seq<char>)
    ensures
        honest(fault(mystery_gift_event(m, sender_login)), m),
        specific(fault(mystery_gift_event(m, sender_login))),
{
}

/// The fault of `gift_paid_upgrade_event` is honest and specific.
pub proof fn lemma_gift_paid_upgrade_event_honest(m: IrcMessageView)
    ensures
        honest(fault(gift_paid_upgrade_event(m)), m),
        specific(fault(gift_paid_upgrade_event(m))),
{
}

/// The fault of `anon_gift_paid_upgrade_event` is honest and specific.
pub proof fn lemma_anon_gift_paid_upgrade_event_honest(m: IrcMessageView)
    ensures
        honest(fault(anon_gift_paid_upgrade_event(m)), m),
        specific(fault(anon_gift_paid_upgrade_event(m))),
{
}

/// The fault of `ritual_event` is honest and specific.
pub proof fn lemma_ritual_event_honest(m: IrcMessageView)
    ensures
        honest(fault(ritual_event(m)), m),
        specific(fault(ritual_event(m))),
{
}

/// The fault of `bits_badge_tier_event` is honest and specific.
pub proof fn lemma_bits_badge_tier_event_honest(m: IrcMessageView)
    ensures
        honest(fault(bits_badge_tier_event(m)), m),
        specific(fault(bits_badge_tier_event(m))),
{
}

/// The fault of the event of a user notice is honest and specific, whatever
/// its event id and sender.
pub proof fn lemma_event_honest(
    m: IrcMessageView,
    event_id: Seq<char>,
    sender_id: Seq<char>,
    sender_login: Seq<char>,
)
    ensures
        honest(fault(event_of(m, event_id, sender_id, sender_login)), m),
        specific(fault(event_of(m, event_id, sender_id, sender_login))),
{
    lemma_announcement_event_honest(m);
    lemma_sub_event_honest(m, event_id == "resub"@);
    lemma_raid_event_honest(m);
    lemma_sub_gift_event_honest(
        m,
        event_id == "anonsubgift"@ || sender_id == anonymous_gifter_id(),
    );
    lemma_anon_mystery_gift_event_honest(m);
    lemma_mystery_gift_event_honest(m, sender_login);
    lemma_gift_paid_upgrade_event_honest(m);
    lemma_anon_gift_paid_upgrade_event_honest(m);
    lemma_ritual_event_honest(m);
    lemma_bits_badge_tier_event_honest(m);
}

/// The faults of a `USERNOTICE` are honest, and specific under that command.
#[verifier::rlimit(50)]
pub proof fn lemma_user_notice_honest(m: IrcMessageView)
    ensures
        honest(user_notice_fault(m), m),
        m.command == "USERNOTICE"@ ==> specific(user_notice_fault(m)),
{
    lemma_event_honest(
        m,
        got(nonempty_tag_value(m, "msg-id"@)),
        got(nonempty_tag_value(m, "user-id"@)),
        got(nonempty_tag_value(m, "login"@)),
    );
    let event = fault(user_notice_event(m));
    let emotes = fault(user_notice_emotes(m));
    let system = fault(system_message_of(m));
    let source = fault(source_of(m));
    assert(honest(event, m) && specific(event));
    assert(honest(emotes, m) && specific(emotes));
    assert(honest(system, m) && specific(system));
    assert(honest(source, m) && specific(source));
}

/// The faults of a `USERSTATE` are honest, and specific under that command.
pub proof fn lemma_user_state_honest(m: IrcMessageView)
    ensures
        honest(user_state_fault(m), m),
        m.command == "USERSTATE"@ ==> specific(user_state_fault(m)),
{
}

/// The faults of a `WHISPER` are honest, and specific under that command.
pub proof fn lemma_whisper_honest(m: IrcMessageView)
    ensures
        honest(whisper_fault(m), m),
        m.command == "WHISPER"@ ==> specific(whisper_fault(m)),
{
}

/// Whatever fault typing a raw message by its command finds, it holds that
/// message, it is never the mismatch of a command, and where it reports a
/// missing tag it names a key under which the message has no tag.
pub proof fn law_fault_is_honest(m: IrcMessageView)
    ensures
        honest(server_message_fault(m), m),
        specific(server_message_fault(m)),
{
    lemma_clear_chat_honest(m);
    lemma_clear_msg_honest(m);
    lemma_global_user_state_honest(m);
    lemma_join_part_honest(m);
    lemma_notice_honest(m);
    lemma_privmsg_honest(m);
    lemma_room_state_honest(m);
    lemma_user_notice_honest(m);
    lemma_user_state_honest(m);
    lemma_whisper_honest(m);
}

} // verus!
