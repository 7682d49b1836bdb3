//! The lines that a client sends.

use vstd::prelude::*;
use crate::irc::connection::simple_view;
use crate::irc::message::tags::IrcTags;
use crate::irc::message::{strings_view, IrcMessage, IrcMessageView};

verus! {

/// The name of a channel as a parameter: `#` and the login.
pub open spec fn channel_param(channel_login: Seq<char>) -> Seq<char> {
    "#"@ + channel_login
}

/// The line that posts a text in a channel.
pub open spec fn privmsg_line(channel_login: Seq<char>, text: Seq<char>) -> IrcMessageView {
    simple_view("PRIVMSG"@, seq![channel_param(channel_login), text])
}

/// The line that posts a text as an action.
pub open spec fn me_line(channel_login: Seq<char>, text: Seq<char>) -> IrcMessageView {
    privmsg_line(channel_login, "/me "@ + text)
}

/// The line that posts a text as an answer to the message with the id.
pub open spec fn reply_line(
    channel_login: Seq<char>,
    text: Seq<char>,
    reply_to_id: Seq<char>,
) -> IrcMessageView {
    IrcMessageView {
        tags: seq![("reply-parent-msg-id"@, reply_to_id)],
        ..privmsg_line(channel_login, text)
    }
}

/// The name of a channel as a parameter.
pub fn channel_target(channel_login: &str) -> (target: String)
    ensures
        target@ == channel_param(channel_login@),
{
    let mut target = "#".to_owned();
    target.append(channel_login);
    target
}

/// A message without tags and prefix that speaks of a channel: the command,
/// the channel, and one more parameter if there is one.
pub fn channel_message(command: &str, channel_login: &str, more: Option<String>) -> (m: IrcMessage)
    ensures
        m@ == simple_view(
            command@,
            match more {
                Some(p) => seq![channel_param(channel_login@), p@],
                None => seq![channel_param(channel_login@)],
            },
        ),
        m.wf(),
{
    let mut params: Vec<String> = Vec::new();
    params.push(channel_target(channel_login));
    if let Some(p) = more {
        params.push(p);
    }
    proof {
        assert(strings_view(params@) =~= (match more {
            Some(p) => seq![channel_param(channel_login@), p@],
            None => seq![channel_param(channel_login@)],
        }));
    }
    IrcMessage::new_simple(command.to_owned(), params)
}

/// The line that asks the server to join a channel.
pub fn join_message(channel_login: &str) -> (m: IrcMessage)
    ensures
        m@ == simple_view("JOIN"@, seq![channel_param(channel_login@)]),
        m.wf(),
{
    channel_message("JOIN", channel_login, None)
}

/// The line that asks the server to part a channel.
pub fn part_message(channel_login: &str) -> (m: IrcMessage)
    ensures
        m@ == simple_view("PART"@, seq![channel_param(channel_login@)]),
        m.wf(),
{
    channel_message("PART", channel_login, None)
}

/// The line that posts a text in a channel.
pub fn privmsg(channel_login: &str, text: String) -> (m: IrcMessage)
    ensures
        m@ == privmsg_line(channel_login@, text@),
        m.wf(),
{
    channel_message("PRIVMSG", channel_login, Some(text))
}

/// The line that posts a text as an action.
pub fn me(channel_login: &str, text: &str) -> (m: IrcMessage)
    ensures
        m@ == me_line(channel_login@, text@),
        m.wf(),
{
    let mut action = "/me ".to_owned();
    action.append(text);
    privmsg(channel_login, action)
}

/// The line that posts a text as an answer to the message with the id.
pub fn reply(channel_login: &str, text: String, reply_to_id: String) -> (m: IrcMessage)
    ensures
        m@ == reply_line(channel_login@, text@, reply_to_id@),
        m.wf(),
{
    let mut m = privmsg(channel_login, text);
    let mut tags = IrcTags::new();
    tags.insert("reply-parent-msg-id".to_owned(), reply_to_id);
    proof {
        assert(tags@ =~= seq![("reply-parent-msg-id"@, reply_to_id@)]);
    }
    m.tags = tags;
    m
}

} // verus!
