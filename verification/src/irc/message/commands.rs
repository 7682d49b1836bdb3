//! Typed server messages: each is built from a raw message of its command,
//! keeps that raw message, and holds the values read from its tags and
//! parameters.

use vstd::prelude::*;
use crate::irc::message::emotes::emotes_of;
use crate::irc::message::extract::{
    badges_of, channel_login, emote_sets_of, err_is, fault, flag_of, message_text,
    nonempty_tag_value, ok_is, optional_bool_of, optional_channel_login, optional_i64_of,
    optional_nonempty_tag_value, optional_u64_of, param_at, prefix_nickname, tag_value,
    u64_if_any, u64_of, ParseErrorView, ServerMessageParseError,
};
use crate::irc::message::prefix::option_view;
use crate::irc::message::thread::{got, then_fault};
use crate::irc::message::twitch::{
    badges_view, emotes_view, Badge, BasicUser, BasicUserView, Emote,
};
use crate::irc::message::{strings_view, IrcMessage, IrcMessageView};
use crate::irc::text::str_eq;

verus! {

/// The fault for a raw message whose command is not `command`.
pub open spec fn command_fault(m: IrcMessageView, command: Seq<char>) -> Option<ParseErrorView> {
    if m.command != command {
        Some(ParseErrorView::MismatchedCommand(m))
    } else {
        None
    }
}

/// What a `CLEARCHAT` did.
#[derive(Debug, Clone, PartialEq, Eq)]
pub enum ClearChatAction {
    /// The whole chat was cleared.
    ChatClear,
    /// A user was banned for good.
    UserBan { user_login: String, user_id: String },
    /// A user was timed out, for `duration` seconds.
    UserTimeout { user_login: String, user_id: String, duration: u64 },
}

/// A clear-chat action as plain values.
pub enum ClearChatActionView {
    ChatClear,
    UserBan { user_login: Seq<char>, user_id: Seq<char> },
    UserTimeout { user_login: Seq<char>, user_id: Seq<char>, duration: u64 },
}

impl View for ClearChatAction {
    type V = ClearChatActionView;

    open spec fn view(&self) -> ClearChatActionView {
        match *self {
            ClearChatAction::ChatClear => ClearChatActionView::ChatClear,
            ClearChatAction::UserBan { user_login, user_id } => ClearChatActionView::UserBan {
                user_login: user_login@,
                user_id: user_id@,
            },
            ClearChatAction::UserTimeout {
                user_login,
                user_id,
                duration,
            } => ClearChatActionView::UserTimeout {
                user_login: user_login@,
                user_id: user_id@,
                duration,
            },
        }
    }
}

/// The action of a `CLEARCHAT`: without a second parameter the chat was
/// cleared; with one, the user it names was timed out for the seconds under
/// `ban-duration`, or banned where that tag is absent. The user's id under
/// `target-user-id` must then be there.
pub open spec fn clear_chat_action(m: IrcMessageView) -> Result<
    ClearChatActionView,
    ParseErrorView,
> {
    if m.params.len() > 1 {
        match nonempty_tag_value(m, "target-user-id"@) {
            Err(e) => Err(e),
            Ok(user_id) => match optional_u64_of(m, "ban-duration"@) {
                Err(e) => Err(e),
                Ok(Some(duration)) => Ok(
                    ClearChatActionView::UserTimeout { user_login: m.params[1], user_id, duration },
                ),
                Ok(None) => Ok(ClearChatActionView::UserBan { user_login: m.params[1], user_id }),
            },
        }
    } else {
        Ok(ClearChatActionView::ChatClear)
    }
}

/// A chat was cleared, or a user banned or timed out.
#[derive(Debug, Clone, PartialEq, Eq)]
pub struct ClearChatMessage {
    pub channel_login: String,
    pub channel_id: String,
    pub action: ClearChatAction,
    pub is_recent: bool,
    pub server_timestamp: u64,
    pub raw: IrcMessage,
}
/// Why a raw message is no `CLEARCHAT`: the first fault, looking in turn at
/// the command, the action, the channel, and the tags `room-id`,
/// `historical` and `tmi-sent-ts`.
pub open spec fn clear_chat_fault(m: IrcMessageView) -> Option<ParseErrorView> {
    let found = command_fault(m, "CLEARCHAT"@);
    let found = then_fault(found, fault(clear_chat_action(m)));
    let found = then_fault(found, fault(channel_login(m)));
    let found = then_fault(found, fault(nonempty_tag_value(m, "room-id"@)));
    let found = then_fault(found, fault(flag_of(m, "historical"@)));
    let found = then_fault(found, fault(u64_of(m, "tmi-sent-ts"@)));
    found
}

impl ClearChatMessage {
    /// The raw message is a faultless `CLEARCHAT`, and each field holds what
    /// the raw message gives for it.
    pub open spec fn wf(&self) -> bool {
        let m = self.raw@;
        &&& clear_chat_fault(m) is None
        &&& self.channel_login@ == got(channel_login(m))
        &&& self.channel_id@ == got(nonempty_tag_value(m, "room-id"@))
        &&& self.action@ == got(clear_chat_action(m))
        &&& self.is_recent == got(flag_of(m, "historical"@))
        &&& self.server_timestamp == got(u64_of(m, "tmi-sent-ts"@))
    }

    /// Reads the action of a `CLEARCHAT`.
    fn read_action(msg: &IrcMessage) -> (r: Result<ClearChatAction, ServerMessageParseError>)
        ensures
            match r {
                Ok(a) => ok_is(clear_chat_action(msg@), a@),
                Err(e) => err_is(clear_chat_action(msg@), e@),
            },
    {
        if msg.params.len() > 1 {
            let user_login = msg.params[1].clone();
            let user_id = msg.try_get_nonempty_tag_value("target-user-id")?.to_owned();
            match msg.try_get_optional_number("ban-duration")? {
                Some(duration) => Ok(
                    ClearChatAction::UserTimeout { user_login, user_id, duration },
                ),
                None => Ok(ClearChatAction::UserBan { user_login, user_id }),
            }
        } else {
            Ok(ClearChatAction::ChatClear)
        }
    }

    /// Types a raw message as a `CLEARCHAT`.
    pub fn try_from(msg: IrcMessage) -> (r: Result<ClearChatMessage, ServerMessageParseError>)
        ensures
            r is Ok <==> clear_chat_fault(msg@) is None,
            match r {
                Ok(t) => t.raw@ == msg@ && t.wf(),
                Err(e) => clear_chat_fault(msg@) == Some(e@),
            },
    {
        if !str_eq(msg.command.as_str(), "CLEARCHAT") {
            return Err(ServerMessageParseError::MismatchedCommand(msg));
        }
        let action = ClearChatMessage::read_action(&msg)?;
        let channel_login = msg.try_get_channel_login()?;
        let channel_id = msg.try_get_nonempty_tag_value("room-id")?.to_owned();
        let is_recent = msg.try_get_flag("historical")?;
        let server_timestamp = msg.try_get_timestamp("tmi-sent-ts")?;
        Ok(
            ClearChatMessage {
                channel_login,
                channel_id,
                action,
                is_recent,
                server_timestamp,
                raw: msg,
            },
        )
    }
}

/// A single message was removed from a channel.
#[derive(Debug, Clone, PartialEq, Eq)]
pub struct ClearMsgMessage {
    pub channel_login: String,
    pub channel_id: String,
    pub sender_login: String,
    pub message_id: String,
    pub message_text: String,
    pub is_action: bool,
    pub is_recent: bool,
    pub server_timestamp: u64,
    pub raw: IrcMessage,
}
/// Why a raw message is no `CLEARMSG`: the first fault, looking in turn at
/// the command, the text, the channel, and the tags `room-id`, `login`,
/// `target-msg-id`, `tmi-sent-ts` and `historical`.
pub open spec fn clear_msg_fault(m: IrcMessageView) -> Option<ParseErrorView> {
    let found = command_fault(m, "CLEARMSG"@);
    let found = then_fault(found, fault(message_text(m)));
    let found = then_fault(found, fault(channel_login(m)));
    let found = then_fault(found, fault(nonempty_tag_value(m, "room-id"@)));
    let found = then_fault(found, fault(nonempty_tag_value(m, "login"@)));
    let found = then_fault(found, fault(nonempty_tag_value(m, "target-msg-id"@)));
    let found = then_fault(found, fault(u64_of(m, "tmi-sent-ts"@)));
    let found = then_fault(found, fault(flag_of(m, "historical"@)));
    found
}

impl ClearMsgMessage {
    /// The raw message is a faultless `CLEARMSG`, and each field holds what
    /// the raw message gives for it.
    pub open spec fn wf(&self) -> bool {
        let m = self.raw@;
        &&& clear_msg_fault(m) is None
        &&& self.channel_login@ == got(channel_login(m))
        &&& self.channel_id@ == got(nonempty_tag_value(m, "room-id"@))
        &&& self.sender_login@ == got(nonempty_tag_value(m, "login"@))
        &&& self.message_id@ == got(nonempty_tag_value(m, "target-msg-id"@))
        &&& self.message_text@ == got(message_text(m)).0
        &&& self.is_action == got(message_text(m)).1
        &&& self.is_recent == got(flag_of(m, "historical"@))
        &&& self.server_timestamp == got(u64_of(m, "tmi-sent-ts"@))
    }

    /// Types a raw message as a `CLEARMSG`.
    pub fn try_from(msg: IrcMessage) -> (r: Result<ClearMsgMessage, ServerMessageParseError>)
        ensures
            r is Ok <==> clear_msg_fault(msg@) is None,
            match r {
                Ok(t) => t.raw@ == msg@ && t.wf(),
                Err(e) => clear_msg_fault(msg@) == Some(e@),
            },
    {
        if !str_eq(msg.command.as_str(), "CLEARMSG") {
            return Err(ServerMessageParseError::MismatchedCommand(msg));
        }
        let (message_text, is_action) = msg.try_get_message_text()?;
        let channel_login = msg.try_get_channel_login()?;
        let channel_id = msg.try_get_nonempty_tag_value("room-id")?.to_owned();
        let sender_login = msg.try_get_nonempty_tag_value("login")?.to_owned();
        let message_id = msg.try_get_nonempty_tag_value("target-msg-id")?.to_owned();
        let server_timestamp = msg.try_get_timestamp("tmi-sent-ts")?;
        let is_recent = msg.try_get_flag("historical")?;
        Ok(
            ClearMsgMessage {
                channel_login,
                channel_id,
                sender_login,
                message_id,
                message_text,
                is_action,
                is_recent,
                server_timestamp,
                raw: msg,
            },
        )
    }
}

/// The state of the logged-in user, sent once after login.
#[derive(Debug, Clone, PartialEq, Eq)]
pub struct GlobalUserStateMessage {
    pub user_id: String,
    pub user_name: String,
    pub badge_info: Vec<Badge>,
    pub badges: Vec<Badge>,
    /// The emote sets of the user, each once.
    pub emote_sets: Vec<String>,
    pub name_color: String,
    pub raw: IrcMessage,
}
/// Why a raw message is no `GLOBALUSERSTATE`: the first fault, looking in
/// turn at the command and the tags `user-id`, `display-name`, `badge-info`,
/// `badges`, `emote-sets` and `color`.
pub open spec fn global_user_state_fault(m: IrcMessageView) -> Option<ParseErrorView> {
    let found = command_fault(m, "GLOBALUSERSTATE"@);
    let found = then_fault(found, fault(nonempty_tag_value(m, "user-id"@)));
    let found = then_fault(found, fault(nonempty_tag_value(m, "display-name"@)));
    let found = then_fault(found, fault(badges_of(m, "badge-info"@)));
    let found = then_fault(found, fault(badges_of(m, "badges"@)));
    let found = then_fault(found, fault(emote_sets_of(m, "emote-sets"@)));
    let found = then_fault(found, fault(tag_value(m, "color"@)));
    found
}

impl GlobalUserStateMessage {
    /// The raw message is a faultless `GLOBALUSERSTATE`, and each field
    /// holds what the raw message gives for it.
    pub open spec fn wf(&self) -> bool {
        let m = self.raw@;
        &&& global_user_state_fault(m) is None
        &&& self.user_id@ == got(nonempty_tag_value(m, "user-id"@))
        &&& self.user_name@ == got(nonempty_tag_value(m, "display-name"@))
        &&& badges_view(self.badge_info@) == got(badges_of(m, "badge-info"@))
        &&& badges_view(self.badges@) == got(badges_of(m, "badges"@))
        &&& strings_view(self.emote_sets@) == got(emote_sets_of(m, "emote-sets"@))
        &&& self.name_color@ == got(tag_value(m, "color"@))
    }

    /// Types a raw message as a `GLOBALUSERSTATE`.
    pub fn try_from(msg: IrcMessage) -> (r: Result<
        GlobalUserStateMessage,
        ServerMessageParseError,
    >)
        ensures
            r is Ok <==> global_user_state_fault(msg@) is None,
            match r {
                Ok(t) => t.raw@ == msg@ && t.wf(),
                Err(e) => global_user_state_fault(msg@) == Some(e@),
            },
    {
        if !str_eq(msg.command.as_str(), "GLOBALUSERSTATE") {
            return Err(ServerMessageParseError::MismatchedCommand(msg));
        }
        let user_id = msg.try_get_nonempty_tag_value("user-id")?.to_owned();
        let user_name = msg.try_get_nonempty_tag_value("display-name")?.to_owned();
        let badge_info = msg.try_get_badges("badge-info")?;
        let badges = msg.try_get_badges("badges")?;
        let emote_sets = msg.try_get_emote_sets("emote-sets")?;
        let name_color = msg.try_get_color("color")?.to_owned();
        Ok(
            GlobalUserStateMessage {
                user_id,
                user_name,
                badge_info,
                badges,
                emote_sets,
                name_color,
                raw: msg,
            },
        )
    }
}

/// A user joined a channel; for the logged-in user, the server confirms a join.
#[derive(Debug, Clone, PartialEq, Eq)]
pub struct JoinMessage {
    pub channel_login: String,
    pub user_login: String,
    pub raw: IrcMessage,
}
/// Why a raw message is no `JOIN`: the first fault, looking in turn at the
/// command, the channel and the nickname in the prefix.
pub open spec fn join_fault(m: IrcMessageView) -> Option<ParseErrorView> {
    let found = command_fault(m, "JOIN"@);
    let found = then_fault(found, fault(channel_login(m)));
    let found = then_fault(found, fault(prefix_nickname(m)));
    found
}

impl JoinMessage {
    /// The raw message is a faultless `JOIN`, and each field holds what the
    /// raw message gives for it.
    pub open spec fn wf(&self) -> bool {
        let m = self.raw@;
        &&& join_fault(m) is None
        &&& self.channel_login@ == got(channel_login(m))
        &&& self.user_login@ == got(prefix_nickname(m))
    }

    /// Types a raw message as a `JOIN`.
    pub fn try_from(msg: IrcMessage) -> (r: Result<JoinMessage, ServerMessageParseError>)
        ensures
            r is Ok <==> join_fault(msg@) is None,
            match r {
                Ok(t) => t.raw@ == msg@ && t.wf(),
                Err(e) => join_fault(msg@) == Some(e@),
            },
    {
        if !str_eq(msg.command.as_str(), "JOIN") {
            return Err(ServerMessageParseError::MismatchedCommand(msg));
        }
        let channel_login = msg.try_get_channel_login()?;
        let user_login = msg.try_get_prefix_nickname()?.to_owned();
        Ok(JoinMessage { channel_login, user_login, raw: msg })
    }
}

/// A user left a channel; for the logged-in user, the server confirms a part.
#[derive(Debug, Clone, PartialEq, Eq)]
pub struct PartMessage {
    pub channel_login: String,
    pub user_login: String,
    pub raw: IrcMessage,
}
/// Why a raw message is no `PART`: the first fault, looking in turn at the
/// command, the channel and the nickname in the prefix.
pub open spec fn part_fault(m: IrcMessageView) -> Option<ParseErrorView> {
    let found = command_fault(m, "PART"@);
    let found = then_fault(found, fault(channel_login(m)));
    let found = then_fault(found, fault(prefix_nickname(m)));
    found
}

impl PartMessage {
    /// The raw message is a faultless `PART`, and each field holds what the
    /// raw message gives for it.
    pub open spec fn wf(&self) -> bool {
        let m = self.raw@;
        &&& part_fault(m) is None
        &&& self.channel_login@ == got(channel_login(m))
        &&& self.user_login@ == got(prefix_nickname(m))
    }

    /// Types a raw message as a `PART`.
    pub fn try_from(msg: IrcMessage) -> (r: Result<PartMessage, ServerMessageParseError>)
        ensures
            r is Ok <==> part_fault(msg@) is None,
            match r {
                Ok(t) => t.raw@ == msg@ && t.wf(),
                Err(e) => part_fault(msg@) == Some(e@),
            },
    {
        if !str_eq(msg.command.as_str(), "PART") {
            return Err(ServerMessageParseError::MismatchedCommand(msg));
        }
        let channel_login = msg.try_get_channel_login()?;
        let user_login = msg.try_get_prefix_nickname()?.to_owned();
        Ok(PartMessage { channel_login, user_login, raw: msg })
    }
}

/// A notice of the server, to a channel or to the connection.
#[derive(Debug, Clone, PartialEq, Eq)]
pub struct NoticeMessage {
    pub channel_login: Option<String>,
    pub message_text: String,
    pub message_id: Option<String>,
    pub deleted: bool,
    pub is_recent: bool,
    pub recent_timestamp: Option<u64>,
    pub raw: IrcMessage,
}
/// Why a raw message is no `NOTICE`: the first fault, looking in turn at the
/// command, the channel (or `*`), the text, and the tags `msg-id`,
/// `rm-deleted` and `historical`.
pub open spec fn notice_fault(m: IrcMessageView) -> Option<ParseErrorView> {
    let found = command_fault(m, "NOTICE"@);
    let found = then_fault(found, fault(optional_channel_login(m)));
    let found = then_fault(found, fault(param_at(m, 1)));
    let found = then_fault(found, fault(optional_nonempty_tag_value(m, "msg-id"@)));
    let found = then_fault(found, fault(flag_of(m, "rm-deleted"@)));
    let found = then_fault(found, fault(flag_of(m, "historical"@)));
    found
}

impl NoticeMessage {
    /// The raw message is a faultless `NOTICE`, and each field holds what
    /// the raw message gives for it; the timestamp under `rm-received-ts` is
    /// held where it can be read.
    pub open spec fn wf(&self) -> bool {
        let m = self.raw@;
        &&& notice_fault(m) is None
        &&& option_view(self.channel_login) == got(optional_channel_login(m))
        &&& self.message_text@ == got(param_at(m, 1))
        &&& option_view(self.message_id) == got(optional_nonempty_tag_value(m, "msg-id"@))
        &&& self.deleted == got(flag_of(m, "rm-deleted"@))
        &&& self.is_recent == got(flag_of(m, "historical"@))
        &&& self.recent_timestamp == u64_if_any(m, "rm-received-ts"@)
    }

    /// Types a raw message as a `NOTICE`.
    pub fn try_from(msg: IrcMessage) -> (r: Result<NoticeMessage, ServerMessageParseError>)
        ensures
            r is Ok <==> notice_fault(msg@) is None,
            match r {
                Ok(t) => t.raw@ == msg@ && t.wf(),
                Err(e) => notice_fault(msg@) == Some(e@),
            },
    {
        if !str_eq(msg.command.as_str(), "NOTICE") {
            return Err(ServerMessageParseError::MismatchedCommand(msg));
        }
        let channel_login = msg.try_get_optional_channel_login()?;
        let message_text = msg.try_get_param(1)?.to_owned();
        let message_id = match msg.try_get_optional_nonempty_tag_value("msg-id")? {
            Some(s) => Some(s.to_owned()),
            None => None,
        };
        let deleted = msg.try_get_flag("rm-deleted")?;
        let is_recent = msg.try_get_flag("historical")?;
        let recent_timestamp = msg.get_number_if_any("rm-received-ts");
        Ok(
            NoticeMessage {
                channel_login,
                message_text,
                message_id,
                deleted,
                is_recent,
                recent_timestamp,
                raw: msg,
            },
        )
    }
}

/// A keepalive request.
#[derive(Debug, Clone, PartialEq, Eq)]
pub struct PingMessage {
    pub raw: IrcMessage,
}

impl PingMessage {
    /// The raw message is a `PING`.
    pub open spec fn wf(&self) -> bool {
        command_fault(self.raw@, "PING"@) is None
    }

    /// Types a raw message as a `PING`.
    pub fn try_from(msg: IrcMessage) -> (r: Result<PingMessage, ServerMessageParseError>)
        ensures
            r is Ok <==> command_fault(msg@, "PING"@) is None,
            match r {
                Ok(t) => t.raw@ == msg@ && t.wf(),
                Err(e) => command_fault(msg@, "PING"@) == Some(e@),
            },
    {
        if !str_eq(msg.command.as_str(), "PING") {
            return Err(ServerMessageParseError::MismatchedCommand(msg));
        }
        Ok(PingMessage { raw: msg })
    }
}

/// The answer to a keepalive request.
#[derive(Debug, Clone, PartialEq, Eq)]
pub struct PongMessage {
    pub raw: IrcMessage,
}

impl PongMessage {
    /// The raw message is a `PONG`.
    pub open spec fn wf(&self) -> bool {
        command_fault(self.raw@, "PONG"@) is None
    }

    /// Types a raw message as a `PONG`.
    pub fn try_from(msg: IrcMessage) -> (r: Result<PongMessage, ServerMessageParseError>)
        ensures
            r is Ok <==> command_fault(msg@, "PONG"@) is None,
            match r {
                Ok(t) => t.raw@ == msg@ && t.wf(),
                Err(e) => command_fault(msg@, "PONG"@) == Some(e@),
            },
    {
        if !str_eq(msg.command.as_str(), "PONG") {
            return Err(ServerMessageParseError::MismatchedCommand(msg));
        }
        Ok(PongMessage { raw: msg })
    }
}

/// The server asks the client to connect anew.
#[derive(Debug, Clone, PartialEq, Eq)]
pub struct ReconnectMessage {
    pub source: IrcMessage,
}

impl ReconnectMessage {
    /// The raw message is a `RECONNECT`.
    pub open spec fn wf(&self) -> bool {
        command_fault(self.source@, "RECONNECT"@) is None
    }

    /// Types a raw message as a `RECONNECT`.
    pub fn try_from(msg: IrcMessage) -> (r: Result<ReconnectMessage, ServerMessageParseError>)
        ensures
            r is Ok <==> command_fault(msg@, "RECONNECT"@) is None,
            match r {
                Ok(t) => t.source@ == msg@ && t.wf(),
                Err(e) => command_fault(msg@, "RECONNECT"@) == Some(e@),
            },
    {
        if !str_eq(msg.command.as_str(), "RECONNECT") {
            return Err(ServerMessageParseError::MismatchedCommand(msg));
        }
        Ok(ReconnectMessage { source: msg })
    }
}

/// Whether only followers may chat, and for how long they must have followed.
#[derive(Debug, Clone, Copy, PartialEq, Eq)]
pub enum FollowersOnlyMode {
    /// Anybody may chat.
    Disabled,
    /// Only who has followed for at least this many seconds may chat.
    Enabled(u64),
}

/// The followers-only mode under `followers-only`: a negative number of
/// minutes switches the mode off, any other is the time one must have
/// followed. A number of minutes whose seconds do not fit in an `i64` is
/// malformed.
pub open spec fn followers_only_of(m: IrcMessageView) -> Result<
    Option<FollowersOnlyMode>,
    ParseErrorView,
> {
    match optional_i64_of(m, "followers-only"@) {
        Err(e) => Err(e),
        Ok(None) => Ok(None),
        Ok(Some(n)) => if n < 0 {
            Ok(Some(FollowersOnlyMode::Disabled))
        } else if n * 60 <= i64::MAX {
            Ok(Some(FollowersOnlyMode::Enabled((n * 60) as u64)))
        } else {
            Err(
                ParseErrorView::MalformedTagValue(
                    m,
                    "followers-only"@,
                    got(tag_value(m, "followers-only"@)),
                ),
            )
        },
    }
}

/// The settings of a channel, or a change of some of them: a setting that
/// the message does not speak of is absent.
#[derive(Debug, Clone, PartialEq, Eq)]
pub struct RoomStateMessage {
    pub channel_login: String,
    pub channel_id: String,
    pub emote_only: Option<bool>,
    pub followers_only: Option<FollowersOnlyMode>,
    pub r9k: Option<bool>,
    /// Seconds between two messages of one user.
    pub slow_mode: Option<u64>,
    pub subscribers_only: Option<bool>,
    pub raw: IrcMessage,
}
/// Why a raw message is no `ROOMSTATE`: the first fault, looking in turn at
/// the command, the channel, and the tags `room-id`, `emote-only`,
/// `followers-only`, `r9k`, `slow` and `subs-only`.
pub open spec fn room_state_fault(m: IrcMessageView) -> Option<ParseErrorView> {
    let found = command_fault(m, "ROOMSTATE"@);
    let found = then_fault(found, fault(channel_login(m)));
    let found = then_fault(found, fault(nonempty_tag_value(m, "room-id"@)));
    let found = then_fault(found, fault(optional_bool_of(m, "emote-only"@)));
    let found = then_fault(found, fault(followers_only_of(m)));
    let found = then_fault(found, fault(optional_bool_of(m, "r9k"@)));
    let found = then_fault(found, fault(optional_u64_of(m, "slow"@)));
    let found = then_fault(found, fault(optional_bool_of(m, "subs-only"@)));
    found
}

impl RoomStateMessage {
    /// The raw message is a faultless `ROOMSTATE`, and each field holds what
    /// the raw message gives for it.
    pub open spec fn wf(&self) -> bool {
        let m = self.raw@;
        &&& room_state_fault(m) is None
        &&& self.channel_login@ == got(channel_login(m))
        &&& self.channel_id@ == got(nonempty_tag_value(m, "room-id"@))
        &&& self.emote_only == got(optional_bool_of(m, "emote-only"@))
        &&& self.followers_only == got(followers_only_of(m))
        &&& self.r9k == got(optional_bool_of(m, "r9k"@))
        &&& self.slow_mode == got(optional_u64_of(m, "slow"@))
        &&& self.subscribers_only == got(optional_bool_of(m, "subs-only"@))
    }

    /// Reads the followers-only mode.
    fn read_followers_only(msg: &IrcMessage) -> (r: Result<
        Option<FollowersOnlyMode>,
        ServerMessageParseError,
    >)
        ensures
            match r {
                Ok(v) => ok_is(followers_only_of(msg@), v),
                Err(e) => err_is(followers_only_of(msg@), e@),
            },
    {
        match msg.try_get_optional_signed("followers-only")? {
            None => Ok(None),
            Some(n) => if n < 0 {
                Ok(Some(FollowersOnlyMode::Disabled))
            } else if n <= i64::MAX / 60 {
                Ok(Some(FollowersOnlyMode::Enabled((n * 60) as u64)))
            } else {
                let value = msg.try_get_tag_value("followers-only")?.to_owned();
                Err(
                    ServerMessageParseError::MalformedTagValue(
                        msg.clone(),
                        "followers-only",
                        value,
                    ),
                )
            },
        }
    }

    /// Types a raw message as a `ROOMSTATE`.
    pub fn try_from(msg: IrcMessage) -> (r: Result<RoomStateMessage, ServerMessageParseError>)
        ensures
            r is Ok <==> room_state_fault(msg@) is None,
            match r {
                Ok(t) => t.raw@ == msg@ && t.wf(),
                Err(e) => room_state_fault(msg@) == Some(e@),
            },
    {
        if !str_eq(msg.command.as_str(), "ROOMSTATE") {
            return Err(ServerMessageParseError::MismatchedCommand(msg));
        }
        let channel_login = msg.try_get_channel_login()?;
        let channel_id = msg.try_get_nonempty_tag_value("room-id")?.to_owned();
        let emote_only = msg.try_get_optional_bool("emote-only")?;
        let followers_only = RoomStateMessage::read_followers_only(&msg)?;
        let r9k = msg.try_get_optional_bool("r9k")?;
        let slow_mode = msg.try_get_optional_number("slow")?;
        let subscribers_only = msg.try_get_optional_bool("subs-only")?;
        Ok(
            RoomStateMessage {
                channel_login,
                channel_id,
                emote_only,
                followers_only,
                r9k,
                slow_mode,
                subscribers_only,
                raw: msg,
            },
        )
    }
}

/// The state of the logged-in user in one channel.
#[derive(Debug, Clone, PartialEq, Eq)]
pub struct UserStateMessage {
    pub channel_login: String,
    pub user_name: String,
    pub badge_info: Vec<Badge>,
    pub badges: Vec<Badge>,
    /// The emote sets of the user, each once.
    pub emote_sets: Vec<String>,
    pub name_color: String,
    pub raw: IrcMessage,
}
/// Why a raw message is no `USERSTATE`: the first fault, looking in turn at
/// the command, the channel, and the tags `display-name`, `badge-info`,
/// `badges`, `emote-sets` and `color`.
pub open spec fn user_state_fault(m: IrcMessageView) -> Option<ParseErrorView> {
    let found = command_fault(m, "USERSTATE"@);
    let found = then_fault(found, fault(channel_login(m)));
    let found = then_fault(found, fault(nonempty_tag_value(m, "display-name"@)));
    let found = then_fault(found, fault(badges_of(m, "badge-info"@)));
    let found = then_fault(found, fault(badges_of(m, "badges"@)));
    let found = then_fault(found, fault(emote_sets_of(m, "emote-sets"@)));
    let found = then_fault(found, fault(tag_value(m, "color"@)));
    found
}

impl UserStateMessage {
    /// The raw message is a faultless `USERSTATE`, and each field holds what
    /// the raw message gives for it.
    pub open spec fn wf(&self) -> bool {
        let m = self.raw@;
        &&& user_state_fault(m) is None
        &&& self.channel_login@ == got(channel_login(m))
        &&& self.user_name@ == got(nonempty_tag_value(m, "display-name"@))
        &&& badges_view(self.badge_info@) == got(badges_of(m, "badge-info"@))
        &&& badges_view(self.badges@) == got(badges_of(m, "badges"@))
        &&& strings_view(self.emote_sets@) == got(emote_sets_of(m, "emote-sets"@))
        &&& self.name_color@ == got(tag_value(m, "color"@))
    }

    /// Types a raw message as a `USERSTATE`.
    pub fn try_from(msg: IrcMessage) -> (r: Result<UserStateMessage, ServerMessageParseError>)
        ensures
            r is Ok <==> user_state_fault(msg@) is None,
            match r {
                Ok(t) => t.raw@ == msg@ && t.wf(),
                Err(e) => user_state_fault(msg@) == Some(e@),
            },
    {
        if !str_eq(msg.command.as_str(), "USERSTATE") {
            return Err(ServerMessageParseError::MismatchedCommand(msg));
        }
        let channel_login = msg.try_get_channel_login()?;
        let user_name = msg.try_get_nonempty_tag_value("display-name")?.to_owned();
        let badge_info = msg.try_get_badges("badge-info")?;
        let badges = msg.try_get_badges("badges")?;
        let emote_sets = msg.try_get_emote_sets("emote-sets")?;
        let name_color = msg.try_get_color("color")?.to_owned();
        Ok(
            UserStateMessage {
                channel_login,
                user_name,
                badge_info,
                badges,
                emote_sets,
                name_color,
                raw: msg,
            },
        )
    }
}

/// A direct message to the logged-in user.
#[derive(Debug, Clone, PartialEq, Eq)]
pub struct WhisperMessage {
    pub recipient_login: String,
    pub sender: BasicUser,
    pub message_text: String,
    pub name_color: String,
    pub badges: Vec<Badge>,
    pub emotes: Vec<Emote>,
    pub raw: IrcMessage,
}

/// The emotes of a `WHISPER`, decoded against its text.
pub open spec fn whisper_emotes(m: IrcMessageView) -> Result<
    Seq<crate::irc::message::twitch::EmoteView>,
    ParseErrorView,
> {
    emotes_of(m, "emotes"@, got(param_at(m, 1)))
}
/// Why a raw message is no `WHISPER`: the first fault, looking in turn at
/// the command, the text, the tag `emotes`, the recipient, the tag
/// `user-id`, the nickname in the prefix, and the tags `display-name`,
/// `color` and `badges`.
pub open spec fn whisper_fault(m: IrcMessageView) -> Option<ParseErrorView> {
    let found = command_fault(m, "WHISPER"@);
    let found = then_fault(found, fault(param_at(m, 1)));
    let found = then_fault(found, fault(whisper_emotes(m)));
    let found = then_fault(found, fault(param_at(m, 0)));
    let found = then_fault(found, fault(nonempty_tag_value(m, "user-id"@)));
    let found = then_fault(found, fault(prefix_nickname(m)));
    let found = then_fault(found, fault(nonempty_tag_value(m, "display-name"@)));
    let found = then_fault(found, fault(tag_value(m, "color"@)));
    let found = then_fault(found, fault(badges_of(m, "badges"@)));
    found
}

impl WhisperMessage {
    /// The raw message is a faultless `WHISPER`, and each field holds what
    /// the raw message gives for it.
    pub open spec fn wf(&self) -> bool {
        let m = self.raw@;
        &&& whisper_fault(m) is None
        &&& self.recipient_login@ == got(param_at(m, 0))
        &&& self.sender@ == (BasicUserView {
            id: got(nonempty_tag_value(m, "user-id"@)),
            login: got(prefix_nickname(m)),
            name: got(nonempty_tag_value(m, "display-name"@)),
        })
        &&& self.message_text@ == got(param_at(m, 1))
        &&& self.name_color@ == got(tag_value(m, "color"@))
        &&& badges_view(self.badges@) == got(badges_of(m, "badges"@))
        &&& emotes_view(self.emotes@) == got(whisper_emotes(m))
    }

    /// Types a raw message as a `WHISPER`.
    pub fn try_from(msg: IrcMessage) -> (r: Result<WhisperMessage, ServerMessageParseError>)
        ensures
            r is Ok <==> whisper_fault(msg@) is None,
            match r {
                Ok(t) => t.raw@ == msg@ && t.wf(),
                Err(e) => whisper_fault(msg@) == Some(e@),
            },
    {
        if !str_eq(msg.command.as_str(), "WHISPER") {
            return Err(ServerMessageParseError::MismatchedCommand(msg));
        }
        let message_text = msg.try_get_param(1)?.to_owned();
        let emotes = msg.try_get_emotes("emotes", message_text.as_str())?;
        let recipient_login = msg.try_get_param(0)?.to_owned();
        let id = msg.try_get_nonempty_tag_value("user-id")?.to_owned();
        let login = msg.try_get_prefix_nickname()?.to_owned();
        let name = msg.try_get_nonempty_tag_value("display-name")?.to_owned();
        let name_color = msg.try_get_color("color")?.to_owned();
        let badges = msg.try_get_badges("badges")?;
        Ok(
            WhisperMessage {
                recipient_login,
                sender: BasicUser { id, login, name },
                message_text,
                name_color,
                badges,
                emotes,
                raw: msg,
            },
        )
    }
}

} // verus!
