//! The closed set of typed server messages, with a catch-all for every
//! command that is not typed.

use vstd::prelude::*;
use crate::irc::message::commands::{
    clear_chat_fault, clear_msg_fault, global_user_state_fault, join_fault, notice_fault,
    part_fault, room_state_fault, user_state_fault, whisper_fault,
    ClearChatMessage, ClearMsgMessage, GlobalUserStateMessage, JoinMessage, NoticeMessage,
    PartMessage, PingMessage, PongMessage, ReconnectMessage, RoomStateMessage, UserStateMessage,
    WhisperMessage,
};
use crate::irc::message::extract::{ParseErrorView, ServerMessageParseError};
use crate::irc::message::privmsg::{privmsg_fault, PrivmsgMessage};
use crate::irc::message::usernotice::{user_notice_fault, UserNoticeMessage};
use crate::irc::message::{line_text, AsRawIrc, IrcMessage, IrcMessageView};
use crate::irc::text::str_eq;

verus! {

/// A raw message that is not typed.
#[derive(Debug, Clone, PartialEq, Eq)]
pub struct HiddenIrcMessage(pub IrcMessage);

/// A message of the server.
#[derive(Debug, Clone, PartialEq, Eq)]
#[non_exhaustive]
pub enum ServerMessage {
    ClearChat(ClearChatMessage),
    ClearMsg(ClearMsgMessage),
    GlobalUserState(GlobalUserStateMessage),
    Join(JoinMessage),
    Notice(NoticeMessage),
    Part(PartMessage),
    Ping(PingMessage),
    Pong(PongMessage),
    Privmsg(PrivmsgMessage),
    Reconnect(ReconnectMessage),
    RoomState(RoomStateMessage),
    UserNotice(UserNoticeMessage),
    UserState(UserStateMessage),
    Whisper(WhisperMessage),
    Generic(HiddenIrcMessage),
}

/// Whether a command is one of those that are typed.
pub open spec fn is_known_command(command: Seq<char>) -> bool {
    command == "CLEARCHAT"@
        || command == "CLEARMSG"@
        || command == "GLOBALUSERSTATE"@
        || command == "JOIN"@
        || command == "NOTICE"@
        || command == "PART"@
        || command == "PING"@
        || command == "PONG"@
        || command == "PRIVMSG"@
        || command == "RECONNECT"@
        || command == "ROOMSTATE"@
        || command == "USERNOTICE"@
        || command == "USERSTATE"@
        || command == "WHISPER"@
}

/// Why a raw message cannot be typed: the fault that the typed message of
/// its command finds in it. A message whose command is not typed has none.
pub open spec fn server_message_fault(m: IrcMessageView) -> Option<ParseErrorView> {
    if m.command == "CLEARCHAT"@ {
        clear_chat_fault(m)
    } else if m.command == "CLEARMSG"@ {
        clear_msg_fault(m)
    } else if m.command == "GLOBALUSERSTATE"@ {
        global_user_state_fault(m)
    } else if m.command == "JOIN"@ {
        join_fault(m)
    } else if m.command == "NOTICE"@ {
        notice_fault(m)
    } else if m.command == "PART"@ {
        part_fault(m)
    } else if m.command == "PING"@ {
        None
    } else if m.command == "PONG"@ {
        None
    } else if m.command == "PRIVMSG"@ {
        privmsg_fault(m)
    } else if m.command == "RECONNECT"@ {
        None
    } else if m.command == "ROOMSTATE"@ {
        room_state_fault(m)
    } else if m.command == "USERNOTICE"@ {
        user_notice_fault(m)
    } else if m.command == "USERSTATE"@ {
        user_state_fault(m)
    } else if m.command == "WHISPER"@ {
        whisper_fault(m)
    } else {
        None
    }
}

impl ServerMessage {
    /// The raw message that the message was built from.
    pub open spec fn raw(&self) -> IrcMessage {
        match *self {
            ServerMessage::ClearChat(msg) => msg.raw,
            ServerMessage::ClearMsg(msg) => msg.raw,
            ServerMessage::GlobalUserState(msg) => msg.raw,
            ServerMessage::Join(msg) => msg.raw,
            ServerMessage::Notice(msg) => msg.raw,
            ServerMessage::Part(msg) => msg.raw,
            ServerMessage::Ping(msg) => msg.raw,
            ServerMessage::Pong(msg) => msg.raw,
            ServerMessage::Privmsg(msg) => msg.raw,
            ServerMessage::Reconnect(msg) => msg.source,
            ServerMessage::RoomState(msg) => msg.raw,
            ServerMessage::UserNotice(msg) => msg.raw,
            ServerMessage::UserState(msg) => msg.raw,
            ServerMessage::Whisper(msg) => msg.raw,
            ServerMessage::Generic(msg) => msg.0,
        }
    }

    /// A typed message holds what its raw message gives; the catch-all holds
    /// any raw message.
    pub open spec fn wf(&self) -> bool {
        match *self {
            ServerMessage::ClearChat(msg) => msg.wf(),
            ServerMessage::ClearMsg(msg) => msg.wf(),
            ServerMessage::GlobalUserState(msg) => msg.wf(),
            ServerMessage::Join(msg) => msg.wf(),
            ServerMessage::Notice(msg) => msg.wf(),
            ServerMessage::Part(msg) => msg.wf(),
            ServerMessage::Ping(msg) => msg.wf(),
            ServerMessage::Pong(msg) => msg.wf(),
            ServerMessage::Privmsg(msg) => msg.wf(),
            ServerMessage::Reconnect(msg) => msg.wf(),
            ServerMessage::RoomState(msg) => msg.wf(),
            ServerMessage::UserNotice(msg) => msg.wf(),
            ServerMessage::UserState(msg) => msg.wf(),
            ServerMessage::Whisper(msg) => msg.wf(),
            ServerMessage::Generic(_) => true,
        }
    }

    /// Types a raw message by its command. A command that is not typed
    /// gives the catch-all; a typed command whose message has a fault gives
    /// that fault.
    pub fn try_from(source: IrcMessage) -> (r: Result<ServerMessage, ServerMessageParseError>)
        ensures
            r is Ok <==> server_message_fault(source@) is None,
            match r {
                Ok(t) => server_message_fault(source@) is None && t.raw()@ == source@ && t.wf()
                    && (t is Generic <==> !is_known_command(source@.command)),
                Err(e) => server_message_fault(source@) == Some(e@),
            },
    {
        if str_eq(source.command.as_str(), "CLEARCHAT") {
            match ClearChatMessage::try_from(source) {
                Ok(msg) => Ok(ServerMessage::ClearChat(msg)),
                Err(e) => Err(e),
            }
        } else if str_eq(source.command.as_str(), "CLEARMSG") {
            match ClearMsgMessage::try_from(source) {
                Ok(msg) => Ok(ServerMessage::ClearMsg(msg)),
                Err(e) => Err(e),
            }
        } else if str_eq(source.command.as_str(), "GLOBALUSERSTATE") {
            match GlobalUserStateMessage::try_from(source) {
                Ok(msg) => Ok(ServerMessage::GlobalUserState(msg)),
                Err(e) => Err(e),
            }
        } else if str_eq(source.command.as_str(), "JOIN") {
            match JoinMessage::try_from(source) {
                Ok(msg) => Ok(ServerMessage::Join(msg)),
                Err(e) => Err(e),
            }
        } else if str_eq(source.command.as_str(), "NOTICE") {
            match NoticeMessage::try_from(source) {
                Ok(msg) => Ok(ServerMessage::Notice(msg)),
                Err(e) => Err(e),
            }
        } else if str_eq(source.command.as_str(), "PART") {
            match PartMessage::try_from(source) {
                Ok(msg) => Ok(ServerMessage::Part(msg)),
                Err(e) => Err(e),
            }
        } else if str_eq(source.command.as_str(), "PING") {
            match PingMessage::try_from(source) {
                Ok(msg) => Ok(ServerMessage::Ping(msg)),
                Err(e) => Err(e),
            }
        } else if str_eq(source.command.as_str(), "PONG") {
            match PongMessage::try_from(source) {
                Ok(msg) => Ok(ServerMessage::Pong(msg)),
                Err(e) => Err(e),
            }
        } else if str_eq(source.command.as_str(), "PRIVMSG") {
            match PrivmsgMessage::try_from(source) {
                Ok(msg) => Ok(ServerMessage::Privmsg(msg)),
                Err(e) => Err(e),
            }
        } else if str_eq(source.command.as_str(), "RECONNECT") {
            match ReconnectMessage::try_from(source) {
                Ok(msg) => Ok(ServerMessage::Reconnect(msg)),
                Err(e) => Err(e),
            }
        } else if str_eq(source.command.as_str(), "ROOMSTATE") {
            match RoomStateMessage::try_from(source) {
                Ok(msg) => Ok(ServerMessage::RoomState(msg)),
                Err(e) => Err(e),
            }
        } else if str_eq(source.command.as_str(), "USERNOTICE") {
            match UserNoticeMessage::try_from(source) {
                Ok(msg) => Ok(ServerMessage::UserNotice(msg)),
                Err(e) => Err(e),
            }
        } else if str_eq(source.command.as_str(), "USERSTATE") {
            match UserStateMessage::try_from(source) {
                Ok(msg) => Ok(ServerMessage::UserState(msg)),
                Err(e) => Err(e),
            }
        } else if str_eq(source.command.as_str(), "WHISPER") {
            match WhisperMessage::try_from(source) {
                Ok(msg) => Ok(ServerMessage::Whisper(msg)),
                Err(e) => Err(e),
            }
        } else {
            Ok(ServerMessage::Generic(HiddenIrcMessage(source)))
        }
    }

    /// The message for a raw message, whatever it holds: the typed message
    /// where the command is typed and the message has no fault, the
    /// catch-all otherwise.
    pub fn from_raw(source: IrcMessage) -> (t: ServerMessage)
        ensures
            t.raw()@ == source@,
            t.wf(),
            t is Generic <==> !is_known_command(source@.command) || server_message_fault(
                source@,
            ) is Some,
    {
        match ServerMessage::try_from(source) {
            Ok(t) => t,
            Err(e) => {
                proof {
                    crate::irc::message::laws::law_fault_is_honest(source@);
                }
                ServerMessage::new_generic(e.into_message())
            },
        }
    }

    /// The raw message that the message was built from.
    pub fn source(&self) -> (m: &IrcMessage)
        ensures
            *m == self.raw(),
    {
        match self {
            ServerMessage::ClearChat(msg) => &msg.raw,
            ServerMessage::ClearMsg(msg) => &msg.raw,
            ServerMessage::GlobalUserState(msg) => &msg.raw,
            ServerMessage::Join(msg) => &msg.raw,
            ServerMessage::Notice(msg) => &msg.raw,
            ServerMessage::Part(msg) => &msg.raw,
            ServerMessage::Ping(msg) => &msg.raw,
            ServerMessage::Pong(msg) => &msg.raw,
            ServerMessage::Privmsg(msg) => &msg.raw,
            ServerMessage::Reconnect(msg) => &msg.source,
            ServerMessage::RoomState(msg) => &msg.raw,
            ServerMessage::UserNotice(msg) => &msg.raw,
            ServerMessage::UserState(msg) => &msg.raw,
            ServerMessage::Whisper(msg) => &msg.raw,
            ServerMessage::Generic(msg) => &msg.0,
        }
    }

    /// Gives back the raw message that the message was built from.
    pub fn into_message(self) -> (m: IrcMessage)
        ensures
            m == self.raw(),
    {
        match self {
            ServerMessage::ClearChat(msg) => msg.raw,
            ServerMessage::ClearMsg(msg) => msg.raw,
            ServerMessage::GlobalUserState(msg) => msg.raw,
            ServerMessage::Join(msg) => msg.raw,
            ServerMessage::Notice(msg) => msg.raw,
            ServerMessage::Part(msg) => msg.raw,
            ServerMessage::Ping(msg) => msg.raw,
            ServerMessage::Pong(msg) => msg.raw,
            ServerMessage::Privmsg(msg) => msg.raw,
            ServerMessage::Reconnect(msg) => msg.source,
            ServerMessage::RoomState(msg) => msg.raw,
            ServerMessage::UserNotice(msg) => msg.raw,
            ServerMessage::UserState(msg) => msg.raw,
            ServerMessage::Whisper(msg) => msg.raw,
            ServerMessage::Generic(msg) => msg.0,
        }
    }

    /// The catch-all for a raw message.
    pub fn new_generic(message: IrcMessage) -> (t: ServerMessage)
        ensures
            t == ServerMessage::Generic(HiddenIrcMessage(message)),
    {
        ServerMessage::Generic(HiddenIrcMessage(message))
    }
}

impl AsRawIrc for ServerMessage {
    open spec fn raw_irc(&self) -> Seq<char> {
        line_text(self.raw()@)
    }

    fn format_as_raw_irc(&self, out: &mut String) {
        self.source().write_raw(out);
    }
}

} // verus!
