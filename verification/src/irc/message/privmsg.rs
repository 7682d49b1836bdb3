//! The chat post.

use vstd::prelude::*;
use crate::irc::message::commands::command_fault;
use crate::irc::message::emotes::emotes_of;
use crate::irc::message::extract::{
    badges_of, bool_if_any, bool_of, bool_or_false, channel_login, fault, flag_of, message_text,
    nonempty_tag_value, optional_u64_of, prefix_nickname, tag_if_any, tag_value, u64_of,
    ParseErrorView, ServerMessageParseError,
};
use crate::irc::message::thread::{got, reply_of, reply_view, source_of, source_view, then_fault};
use crate::irc::message::twitch::{
    badges_view, emotes_view, Badge, BasicUser, BasicUserView, Emote, EmoteView, Reply, Source,
};
use crate::irc::message::{IrcMessage, IrcMessageView};
use crate::irc::text::str_eq;

verus! {

/// A message that a user posted in a channel.
#[derive(Debug, Clone, PartialEq, Eq)]
pub struct PrivmsgMessage {
    pub channel_login: String,
    pub channel_id: String,
    /// The text, without the wrapping of an action.
    pub message_text: String,
    pub reply: Option<Reply>,
    pub is_action: bool,
    pub is_first_msg: bool,
    pub is_returning_chatter: bool,
    pub is_highlighted: bool,
    pub is_mod: bool,
    pub is_subscriber: bool,
    pub sender: BasicUser,
    pub badge_info: Vec<Badge>,
    pub badges: Vec<Badge>,
    pub bits: Option<u64>,
    pub name_color: String,
    pub emotes: Vec<Emote>,
    pub message_id: String,
    pub deleted: bool,
    pub is_recent: bool,
    pub server_timestamp: u64,
    pub source_only: Option<bool>,
    pub source: Option<Source>,
    pub raw: IrcMessage,
}

/// The emotes of a chat post, decoded against its text.
pub open spec fn privmsg_emotes(m: IrcMessageView) -> Result<Seq<EmoteView>, ParseErrorView> {
    emotes_of(m, "emotes"@, got(message_text(m)).0)
}

/// Whether the post was highlighted by its sender.
pub open spec fn is_highlighted(m: IrcMessageView) -> bool {
    tag_if_any(m, "msg-id"@) == Some("highlighted-message"@)
}
/// Why a raw message is no `PRIVMSG`: the first fault, looking in turn at
/// the command, the text, the channel, the tags `room-id` and `user-id`, the
/// nickname in the prefix, the tags `display-name`, `badge-info`, `badges`,
/// `bits`, `color`, `emotes`, `tmi-sent-ts` and `id`, the reply linkage, the
/// tags `mod`, `subscriber`, `rm-deleted` and `historical`, and the origin.
pub open spec fn privmsg_fault(m: IrcMessageView) -> Option<ParseErrorView> {
    let found = command_fault(m, "PRIVMSG"@);
    let found = then_fault(found, fault(message_text(m)));
    let found = then_fault(found, fault(channel_login(m)));
    let found = then_fault(found, fault(nonempty_tag_value(m, "room-id"@)));
    let found = then_fault(found, fault(nonempty_tag_value(m, "user-id"@)));
    let found = then_fault(found, fault(prefix_nickname(m)));
    let found = then_fault(found, fault(nonempty_tag_value(m, "display-name"@)));
    let found = then_fault(found, fault(badges_of(m, "badge-info"@)));
    let found = then_fault(found, fault(badges_of(m, "badges"@)));
    let found = then_fault(found, fault(optional_u64_of(m, "bits"@)));
    let found = then_fault(found, fault(tag_value(m, "color"@)));
    let found = then_fault(found, fault(privmsg_emotes(m)));
    let found = then_fault(found, fault(u64_of(m, "tmi-sent-ts"@)));
    let found = then_fault(found, fault(nonempty_tag_value(m, "id"@)));
    let found = then_fault(found, fault(reply_of(m)));
    let found = then_fault(found, fault(bool_of(m, "mod"@)));
    let found = then_fault(found, fault(bool_of(m, "subscriber"@)));
    let found = then_fault(found, fault(flag_of(m, "rm-deleted"@)));
    let found = then_fault(found, fault(flag_of(m, "historical"@)));
    let found = then_fault(found, fault(source_of(m)));
    found
}

impl PrivmsgMessage {
    /// The raw message is a faultless `PRIVMSG`, and each field holds what
    /// the raw message gives for it. The flags under `first-msg` and
    /// `returning-chatter` are unset where they cannot be read; the flag
    /// under `source-only` is held where it can be read.
    pub open spec fn wf(&self) -> bool {
        let m = self.raw@;
        &&& privmsg_fault(m) is None
        &&& self.channel_login@ == got(channel_login(m))
        &&& self.channel_id@ == got(nonempty_tag_value(m, "room-id"@))
        &&& self.message_text@ == got(message_text(m)).0
        &&& reply_view(self.reply) == got(reply_of(m))
        &&& self.is_action == got(message_text(m)).1
        &&& self.is_first_msg == bool_or_false(m, "first-msg"@)
        &&& self.is_returning_chatter == bool_or_false(m, "returning-chatter"@)
        &&& self.is_highlighted == is_highlighted(m)
        &&& self.is_mod == got(bool_of(m, "mod"@))
        &&& self.is_subscriber == got(bool_of(m, "subscriber"@))
        &&& self.sender@ == (BasicUserView {
            id: got(nonempty_tag_value(m, "user-id"@)),
            login: got(prefix_nickname(m)),
            name: got(nonempty_tag_value(m, "display-name"@)),
        })
        &&& badges_view(self.badge_info@) == got(badges_of(m, "badge-info"@))
        &&& badges_view(self.badges@) == got(badges_of(m, "badges"@))
        &&& self.bits == got(optional_u64_of(m, "bits"@))
        &&& self.name_color@ == got(tag_value(m, "color"@))
        &&& emotes_view(self.emotes@) == got(privmsg_emotes(m))
        &&& self.message_id@ == got(nonempty_tag_value(m, "id"@))
        &&& self.deleted == got(flag_of(m, "rm-deleted"@))
        &&& self.is_recent == got(flag_of(m, "historical"@))
        &&& self.server_timestamp == got(u64_of(m, "tmi-sent-ts"@))
        &&& self.source_only == bool_if_any(m, "source-only"@)
        &&& source_view(self.source) == got(source_of(m))
    }

    /// Types a raw message as a `PRIVMSG`.
    pub fn try_from(msg: IrcMessage) -> (r: Result<PrivmsgMessage, ServerMessageParseError>)
        ensures
            r is Ok <==> privmsg_fault(msg@) is None,
            match r {
                Ok(t) => t.raw@ == msg@ && t.wf(),
                Err(e) => privmsg_fault(msg@) == Some(e@),
            },
    {
        if !str_eq(msg.command.as_str(), "PRIVMSG") {
            return Err(ServerMessageParseError::MismatchedCommand(msg));
        }
        let (message_text, is_action) = msg.try_get_message_text()?;
        let is_highlighted = match msg.tags.get("msg-id") {
            Some(id) => str_eq(id, "highlighted-message"),
            None => false,
        };
        let channel_login = msg.try_get_channel_login()?;
        let channel_id = msg.try_get_nonempty_tag_value("room-id")?.to_owned();
        let id = msg.try_get_nonempty_tag_value("user-id")?.to_owned();
        let login = msg.try_get_prefix_nickname()?.to_owned();
        let name = msg.try_get_nonempty_tag_value("display-name")?.to_owned();
        let badge_info = msg.try_get_badges("badge-info")?;
        let badges = msg.try_get_badges("badges")?;
        let bits = msg.try_get_optional_number("bits")?;
        let name_color = msg.try_get_color("color")?.to_owned();
        let emotes = msg.try_get_emotes("emotes", message_text.as_str())?;
        let server_timestamp = msg.try_get_timestamp("tmi-sent-ts")?;
        let message_id = msg.try_get_nonempty_tag_value("id")?.to_owned();
        let reply = msg.try_get_optional_reply()?;
        let is_first_msg = msg.get_bool_or_false("first-msg");
        let is_returning_chatter = msg.get_bool_or_false("returning-chatter");
        let is_mod = msg.try_get_bool("mod")?;
        let is_subscriber = msg.try_get_bool("subscriber")?;
        let deleted = msg.try_get_flag("rm-deleted")?;
        let is_recent = msg.try_get_flag("historical")?;
        let source_only = msg.get_bool_if_any("source-only");
        let source = msg.try_get_source()?;
        Ok(
            PrivmsgMessage {
                channel_login,
                channel_id,
                message_text,
                reply,
                is_action,
                is_first_msg,
                is_returning_chatter,
                is_highlighted,
                is_mod,
                is_subscriber,
                sender: BasicUser { id, login, name },
                badge_info,
                badges,
                bits,
                name_color,
                emotes,
                message_id,
                deleted,
                is_recent,
                server_timestamp,
                source_only,
                source,
                raw: msg,
            },
        )
    }
}

} // verus!
