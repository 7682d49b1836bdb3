//! Reply linkage and shared-chat origin of a message, read from its tags.

use vstd::prelude::*;
use crate::irc::message::extract::{
    badges_or_none, err_is, fault, nonempty_tag_value, ok_is, tag_if_any, tag_value,
    ParseErrorView, ServerMessageParseError,
};
use crate::irc::message::tags::has_key;
use crate::irc::message::twitch::{
    BasicUser, BasicUserView, Reply, ReplyParent, ReplyParentView, ReplyThread, ReplyThreadView,
    ReplyView, Source, SourceView,
};
use crate::irc::message::{IrcMessage, IrcMessageView};

verus! {

/// The first of two faults, in the order in which they are looked for.
pub open spec fn then_fault(a: Option<ParseErrorView>, b: Option<ParseErrorView>) -> Option<
    ParseErrorView,
> {
    if a is Some {
        a
    } else {
        b
    }
}

/// The value of an outcome that is one.
pub open spec fn got<T>(r: Result<T, ParseErrorView>) -> T {
    r->Ok_0
}

/// The first fault among the tags of a reply, looked for in this order: the
/// parent's message id, user id, login, display name and text, then the
/// thread's message id, user id, login and display name.
pub open spec fn reply_fault(m: IrcMessageView) -> Option<ParseErrorView> {
    let found = fault(tag_value(m, "reply-parent-msg-id"@));
    let found = then_fault(found, fault(nonempty_tag_value(m, "reply-parent-user-id"@)));
    let found = then_fault(found, fault(nonempty_tag_value(m, "reply-parent-user-login"@)));
    let found = then_fault(found, fault(nonempty_tag_value(m, "reply-parent-display-name"@)));
    let found = then_fault(found, fault(tag_value(m, "reply-parent-msg-body"@)));
    let found = then_fault(found, fault(tag_value(m, "reply-thread-parent-msg-id"@)));
    let found = then_fault(found, fault(nonempty_tag_value(m, "reply-thread-parent-user-id"@)));
    let found = then_fault(found, fault(nonempty_tag_value(m, "reply-thread-parent-user-login"@)));
    let found = then_fault(
        found,
        fault(nonempty_tag_value(m, "reply-thread-parent-display-name"@)),
    );
    found
}

/// The reply linkage that the tags of a faultless reply give.
pub open spec fn reply_read(m: IrcMessageView) -> ReplyView {
    ReplyView {
        parent: ReplyParentView {
            message_id: got(tag_value(m, "reply-parent-msg-id"@)),
            message_text: got(tag_value(m, "reply-parent-msg-body"@)),
            user: BasicUserView {
                id: got(nonempty_tag_value(m, "reply-parent-user-id"@)),
                login: got(nonempty_tag_value(m, "reply-parent-user-login"@)),
                name: got(nonempty_tag_value(m, "reply-parent-display-name"@)),
            },
        },
        thread: ReplyThreadView {
            message_id: got(tag_value(m, "reply-thread-parent-msg-id"@)),
            user: BasicUserView {
                id: got(nonempty_tag_value(m, "reply-thread-parent-user-id"@)),
                login: got(nonempty_tag_value(m, "reply-thread-parent-user-login"@)),
                name: got(nonempty_tag_value(m, "reply-thread-parent-display-name"@)),
            },
        },
    }
}

/// The reply linkage of a message: none without a parent message id,
/// otherwise parent and thread, all of whose tags must then be there.
pub open spec fn reply_of(m: IrcMessageView) -> Result<Option<ReplyView>, ParseErrorView> {
    if !has_key(m.tags, "reply-parent-msg-id"@) {
        Ok(None)
    } else {
        match reply_fault(m) {
            Some(e) => Err(e),
            None => Ok(Some(reply_read(m))),
        }
    }
}

/// The first fault among the tags of an origin: its message id, then its
/// channel id.
pub open spec fn source_fault(m: IrcMessageView) -> Option<ParseErrorView> {
    let found = fault(nonempty_tag_value(m, "source-id"@));
    let found = then_fault(found, fault(nonempty_tag_value(m, "source-room-id"@)));
    found
}

/// The origin that the tags of a faultless origin give.
pub open spec fn source_read(m: IrcMessageView) -> SourceView {
    SourceView {
        message_id: got(nonempty_tag_value(m, "source-id"@)),
        event_id: tag_if_any(m, "source-msg-id"@),
        channel_id: got(nonempty_tag_value(m, "source-room-id"@)),
        badges: badges_or_none(m, "source-badges"@),
        badge_info: badges_or_none(m, "source-badge-info"@),
    }
}

/// The origin of a message: none without a source id; otherwise message id
/// and channel id must be there, the event id may be, and badges that cannot
/// be read count as none.
pub open spec fn source_of(m: IrcMessageView) -> Result<Option<SourceView>, ParseErrorView> {
    if !has_key(m.tags, "source-id"@) {
        Ok(None)
    } else {
        match source_fault(m) {
            Some(e) => Err(e),
            None => Ok(Some(source_read(m))),
        }
    }
}

/// The view of an optional reply.
pub open spec fn reply_view(r: Option<Reply>) -> Option<ReplyView> {
    match r {
        Some(r) => Some(r@),
        None => None,
    }
}

/// The view of an optional origin.
pub open spec fn source_view(s: Option<Source>) -> Option<SourceView> {
    match s {
        Some(s) => Some(s@),
        None => None,
    }
}

impl IrcMessage {
    /// The reply linkage of the message, if it answers another.
    pub fn try_get_optional_reply(&self) -> (r: Result<Option<Reply>, ServerMessageParseError>)
        ensures
            match r {
                Ok(v) => ok_is(reply_of(self@), reply_view(v)),
                Err(e) => err_is(reply_of(self@), e@),
            },
    {
        if !self.tags.contains_key("reply-parent-msg-id") {
            return Ok(None);
        }
        let parent_id = self.try_get_tag_value("reply-parent-msg-id")?.to_owned();
        let parent_user_id = self.try_get_nonempty_tag_value("reply-parent-user-id")?.to_owned();
        let parent_login = self.try_get_nonempty_tag_value("reply-parent-user-login")?.to_owned();
        let parent_name = self.try_get_nonempty_tag_value("reply-parent-display-name")?.to_owned();
        let parent_text = self.try_get_tag_value("reply-parent-msg-body")?.to_owned();
        let parent = ReplyParent {
            message_id: parent_id,
            user: BasicUser { id: parent_user_id, login: parent_login, name: parent_name },
            message_text: parent_text,
        };
        let thread_id = self.try_get_tag_value("reply-thread-parent-msg-id")?.to_owned();
        let thread_user_id = self.try_get_nonempty_tag_value(
            "reply-thread-parent-user-id",
        )?.to_owned();
        let thread_login = self.try_get_nonempty_tag_value(
            "reply-thread-parent-user-login",
        )?.to_owned();
        let thread_name = self.try_get_nonempty_tag_value(
            "reply-thread-parent-display-name",
        )?.to_owned();
        let thread = ReplyThread {
            message_id: thread_id,
            user: BasicUser { id: thread_user_id, login: thread_login, name: thread_name },
        };
        Ok(Some(Reply { parent, thread }))
    }

    /// The origin of the message, if it was shared from another channel.
    pub fn try_get_source(&self) -> (r: Result<Option<Source>, ServerMessageParseError>)
        ensures
            match r {
                Ok(v) => ok_is(source_of(self@), source_view(v)),
                Err(e) => err_is(source_of(self@), e@),
            },
    {
        if !self.tags.contains_key("source-id") {
            return Ok(None);
        }
        let message_id = self.try_get_nonempty_tag_value("source-id")?.to_owned();
        let event_id = match self.tags.get("source-msg-id") {
            Some(v) => Some(v.to_owned()),
            None => None,
        };
        let channel_id = self.try_get_nonempty_tag_value("source-room-id")?.to_owned();
        let badges = self.get_badges_or_none("source-badges");
        let badge_info = self.get_badges_or_none("source-badge-info");
        Ok(Some(Source { message_id, event_id, channel_id, badges, badge_info }))
    }
}

} // verus!
