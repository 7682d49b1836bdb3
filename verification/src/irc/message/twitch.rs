//! The platform's value types that typed messages carry.

use std::ops::Range;
use vstd::prelude::*;

verus! {

/// A user: numeric id, login name and display name.
#[derive(Debug, Clone, PartialEq, Eq)]
pub struct BasicUser {
    pub id: String,
    pub login: String,
    pub name: String,
}

/// A user as plain character sequences.
pub struct BasicUserView {
    pub id: Seq<char>,
    pub login: Seq<char>,
    pub name: Seq<char>,
}

impl View for BasicUser {
    type V = BasicUserView;

    open spec fn view(&self) -> BasicUserView {
        BasicUserView { id: self.id@, login: self.login@, name: self.name@ }
    }
}

/// One occurrence of an emote in a message text: the emote's id, the range
/// of characters it covers (end exclusive), and the text found there.
#[derive(Debug, PartialEq, Eq)]
pub struct Emote {
    pub id: String,
    pub range: Range<usize>,
    pub code: String,
}

/// An emote occurrence as plain values.
pub struct EmoteView {
    pub id: Seq<char>,
    pub start: int,
    pub end: int,
    pub code: Seq<char>,
}

impl View for Emote {
    type V = EmoteView;

    open spec fn view(&self) -> EmoteView {
        EmoteView {
            id: self.id@,
            start: self.range.start as int,
            end: self.range.end as int,
            code: self.code@,
        }
    }
}

impl Clone for Emote {
    fn clone(&self) -> (r: Self)
        ensures
            r@ == self@,
    {
        Emote {
            id: self.id.clone(),
            range: self.range.start..self.range.end,
            code: self.code.clone(),
        }
    }
}

/// The views of a sequence of emotes.
pub open spec fn emotes_view(v: Seq<Emote>) -> Seq<EmoteView> {
    Seq::new(v.len(), |i: int| v[i]@)
}

/// A badge: its name and version.
#[derive(Debug, Clone, PartialEq, Eq)]
pub struct Badge {
    pub name: String,
    pub version: String,
}

/// A badge as plain character sequences.
pub struct BadgeView {
    pub name: Seq<char>,
    pub version: Seq<char>,
}

impl View for Badge {
    type V = BadgeView;

    open spec fn view(&self) -> BadgeView {
        BadgeView { name: self.name@, version: self.version@ }
    }
}

/// The views of a sequence of badges.
pub open spec fn badges_view(v: Seq<Badge>) -> Seq<BadgeView> {
    Seq::new(v.len(), |i: int| v[i]@)
}

/// The message that a reply answers.
#[derive(Debug, Clone, PartialEq, Eq)]
pub struct ReplyParent {
    pub message_id: String,
    pub message_text: String,
    pub user: BasicUser,
}

/// A reply's parent as plain values.
pub struct ReplyParentView {
    pub message_id: Seq<char>,
    pub message_text: Seq<char>,
    pub user: BasicUserView,
}

impl View for ReplyParent {
    type V = ReplyParentView;

    open spec fn view(&self) -> ReplyParentView {
        ReplyParentView {
            message_id: self.message_id@,
            message_text: self.message_text@,
            user: self.user@,
        }
    }
}

/// The message that started the thread of a reply.
#[derive(Debug, Clone, PartialEq, Eq)]
pub struct ReplyThread {
    pub message_id: String,
    pub user: BasicUser,
}

/// A reply's thread as plain values.
pub struct ReplyThreadView {
    pub message_id: Seq<char>,
    pub user: BasicUserView,
}

impl View for ReplyThread {
    type V = ReplyThreadView;

    open spec fn view(&self) -> ReplyThreadView {
        ReplyThreadView { message_id: self.message_id@, user: self.user@ }
    }
}

/// The thread linkage of a chat post that answers another.
#[derive(Debug, Clone, PartialEq, Eq)]
pub struct Reply {
    pub parent: ReplyParent,
    pub thread: ReplyThread,
}

/// A reply linkage as plain values.
pub struct ReplyView {
    pub parent: ReplyParentView,
    pub thread: ReplyThreadView,
}

impl View for Reply {
    type V = ReplyView;

    open spec fn view(&self) -> ReplyView {
        ReplyView { parent: self.parent@, thread: self.thread@ }
    }
}

/// Where a message shared between channels was first posted.
#[derive(Debug, Clone, PartialEq, Eq)]
pub struct Source {
    pub message_id: String,
    pub event_id: Option<String>,
    pub channel_id: String,
    pub badges: Vec<Badge>,
    pub badge_info: Vec<Badge>,
}

/// A message's origin as plain values.
pub struct SourceView {
    pub message_id: Seq<char>,
    pub event_id: Option<Seq<char>>,
    pub channel_id: Seq<char>,
    pub badges: Seq<BadgeView>,
    pub badge_info: Seq<BadgeView>,
}

impl View for Source {
    type V = SourceView;

    open spec fn view(&self) -> SourceView {
        SourceView {
            message_id: self.message_id@,
            event_id: match self.event_id {
                Some(s) => Some(s@),
                None => None,
            },
            channel_id: self.channel_id@,
            badges: badges_view(self.badges@),
            badge_info: badges_view(self.badge_info@),
        }
    }
}

} // verus!
