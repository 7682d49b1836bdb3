//! The user notice: an event in a channel that the server announces, such
//! as a subscription, a gift or a raid.

use vstd::prelude::*;
use crate::irc::message::commands::command_fault;
use crate::irc::message::emotes::emotes_of;
use crate::irc::message::extract::{
    badges_of, bool_if_any, bool_of, channel_login, err_is, fault, flag_of, nonempty_tag_value,
    ok_is, optional_nonempty_tag_value, optional_u64_of, param_at, tag_value, u64_if_any, u64_of,
    ParseErrorView, ServerMessageParseError,
};
use crate::irc::message::prefix::option_view;
use crate::irc::message::thread::{got, source_of, source_view, then_fault};
use crate::irc::message::twitch::{
    badges_view, emotes_view, Badge, BasicUser, BasicUserView, Emote, EmoteView, Source,
};
use crate::irc::message::{IrcMessage, IrcMessageView};
use crate::irc::text::str_eq;

verus! {

/// The promotion under which a gifted subscription was bought.
#[derive(Debug, Clone, PartialEq, Eq)]
pub struct SubGiftPromo {
    pub total_gifts: u64,
    pub promo_name: String,
}

/// A promotion as plain values.
pub struct SubGiftPromoView {
    pub total_gifts: u64,
    pub promo_name: Seq<char>,
}

impl View for SubGiftPromo {
    type V = SubGiftPromoView;

    open spec fn view(&self) -> SubGiftPromoView {
        SubGiftPromoView { total_gifts: self.total_gifts, promo_name: self.promo_name@ }
    }
}

/// The view of an optional promotion.
pub open spec fn promo_view(p: Option<SubGiftPromo>) -> Option<SubGiftPromoView> {
    match p {
        Some(p) => Some(p@),
        None => None,
    }
}

/// The promotion of a message: there is one where both the number under
/// `msg-param-promo-gift-total` and the name under `msg-param-promo-name`
/// are there.
pub open spec fn promo_of(m: IrcMessageView) -> Result<Option<SubGiftPromoView>, ParseErrorView> {
    match optional_u64_of(m, "msg-param-promo-gift-total"@) {
        Err(e) => Err(e),
        Ok(total) => match optional_nonempty_tag_value(m, "msg-param-promo-name"@) {
            Err(e) => Err(e),
            Ok(name) => match (total, name) {
                (Some(total_gifts), Some(promo_name)) => Ok(
                    Some(SubGiftPromoView { total_gifts, promo_name }),
                ),
                _ => Ok(None),
            },
        },
    }
}

impl SubGiftPromo {
    /// Reads the promotion of a message, if it has one.
    pub fn parse_if_present(msg: &IrcMessage) -> (r: Result<
        Option<SubGiftPromo>,
        ServerMessageParseError,
    >)
        ensures
            match r {
                Ok(p) => ok_is(promo_of(msg@), promo_view(p)),
                Err(e) => err_is(promo_of(msg@), e@),
            },
    {
        let total = msg.try_get_optional_number("msg-param-promo-gift-total")?;
        let name = msg.try_get_optional_nonempty_tag_value("msg-param-promo-name")?;
        match (total, name) {
            (Some(total_gifts), Some(promo_name)) => Ok(
                Some(SubGiftPromo { total_gifts, promo_name: promo_name.to_owned() }),
            ),
            _ => Ok(None),
        }
    }
}

/// What a user notice announces.
#[non_exhaustive]
#[derive(Debug, Clone, PartialEq, Eq)]
pub enum UserNoticeEvent {
    Announcement { color: String },
    SubOrResub {
        is_resub: bool,
        cumulative_months: u64,
        streak_months: Option<u64>,
        sub_plan: String,
        sub_plan_name: String,
    },
    Raid { viewer_count: u64, profile_image_url: String },
    SubGift {
        is_sender_anonymous: bool,
        cumulative_months: u64,
        recipient: BasicUser,
        sub_plan: String,
        sub_plan_name: String,
        num_gifted_months: u64,
        sender_total_months: u64,
    },
    SubMysteryGift { mass_gift_count: u64, sender_total_gifts: Option<u64>, sub_plan: String },
    AnonSubMysteryGift { mass_gift_count: u64, sub_plan: String },
    GiftPaidUpgrade { gifter_login: String, gifter_name: String, promotion: Option<SubGiftPromo> },
    AnonGiftPaidUpgrade { promotion: Option<SubGiftPromo> },
    Ritual { ritual_name: String },
    BitsBadgeTier { threshold: u64 },
    Unknown,
}

/// An event as plain values.
pub enum UserNoticeEventView {
    Announcement { color: Seq<char> },
    SubOrResub {
        is_resub: bool,
        cumulative_months: u64,
        streak_months: Option<u64>,
        sub_plan: Seq<char>,
        sub_plan_name: Seq<char>,
    },
    Raid { viewer_count: u64, profile_image_url: Seq<char> },
    SubGift {
        is_sender_anonymous: bool,
        cumulative_months: u64,
        recipient: BasicUserView,
        sub_plan: Seq<char>,
        sub_plan_name: Seq<char>,
        num_gifted_months: u64,
        sender_total_months: u64,
    },
    SubMysteryGift { mass_gift_count: u64, sender_total_gifts: Option<u64>, sub_plan: Seq<char> },
    AnonSubMysteryGift { mass_gift_count: u64, sub_plan: Seq<char> },
    GiftPaidUpgrade {
        gifter_login: Seq<char>,
        gifter_name: Seq<char>,
        promotion: Option<SubGiftPromoView>,
    },
    AnonGiftPaidUpgrade { promotion: Option<SubGiftPromoView> },
    Ritual { ritual_name: Seq<char> },
    BitsBadgeTier { threshold: u64 },
    Unknown,
}

impl View for UserNoticeEvent {
    type V = UserNoticeEventView;

    open spec fn view(&self) -> UserNoticeEventView {
        match *self {
            UserNoticeEvent::Announcement { color } => UserNoticeEventView::Announcement {
                color: color@,
            },
            UserNoticeEvent::SubOrResub {
                is_resub,
                cumulative_months,
                streak_months,
                sub_plan,
                sub_plan_name,
            } => UserNoticeEventView::SubOrResub {
                is_resub,
                cumulative_months,
                streak_months,
                sub_plan: sub_plan@,
                sub_plan_name: sub_plan_name@,
            },
            UserNoticeEvent::Raid { viewer_count, profile_image_url } => UserNoticeEventView::Raid {
                viewer_count,
                profile_image_url: profile_image_url@,
            },
            UserNoticeEvent::SubGift {
                is_sender_anonymous,
                cumulative_months,
                recipient,
                sub_plan,
                sub_plan_name,
                num_gifted_months,
                sender_total_months,
            } => UserNoticeEventView::SubGift {
                is_sender_anonymous,
                cumulative_months,
                recipient: recipient@,
                sub_plan: sub_plan@,
                sub_plan_name: sub_plan_name@,
                num_gifted_months,
                sender_total_months,
            },
            UserNoticeEvent::SubMysteryGift {
                mass_gift_count,
                sender_total_gifts,
                sub_plan,
            } => UserNoticeEventView::SubMysteryGift {
                mass_gift_count,
                sender_total_gifts,
                sub_plan: sub_plan@,
            },
            UserNoticeEvent::AnonSubMysteryGift {
                mass_gift_count,
                sub_plan,
            } => UserNoticeEventView::AnonSubMysteryGift { mass_gift_count, sub_plan: sub_plan@ },
            UserNoticeEvent::GiftPaidUpgrade {
                gifter_login,
                gifter_name,
                promotion,
            } => UserNoticeEventView::GiftPaidUpgrade {
                gifter_login: gifter_login@,
                gifter_name: gifter_name@,
                promotion: promo_view(promotion),
            },
            UserNoticeEvent::AnonGiftPaidUpgrade {
                promotion,
            } => UserNoticeEventView::AnonGiftPaidUpgrade { promotion: promo_view(promotion) },
            UserNoticeEvent::Ritual { ritual_name } => UserNoticeEventView::Ritual {
                ritual_name: ritual_name@,
            },
            UserNoticeEvent::BitsBadgeTier { threshold } => UserNoticeEventView::BitsBadgeTier {
                threshold,
            },
            UserNoticeEvent::Unknown => UserNoticeEventView::Unknown,
        }
    }
}

/// The id of the user in whose name anonymous gifts are given.
pub open spec fn anonymous_gifter_id() -> Seq<char> {
    "274598607"@
}

/// The months of a streak, which are there where the subscriber shares them.
pub open spec fn streak_of(m: IrcMessageView) -> Result<Option<u64>, ParseErrorView> {
    match bool_of(m, "msg-param-should-share-streak"@) {
        Err(e) => Err(e),
        Ok(shared) => if shared {
            match u64_of(m, "msg-param-streak-months"@) {
                Ok(n) => Ok(Some(n)),
                Err(e) => Err(e),
            }
        } else {
            Ok(None)
        },
    }
}

/// How many subscriptions the sender has gifted: required of every sender
/// but the platform's own account, of which it is taken where it can be
/// read.
pub open spec fn sender_count_of(m: IrcMessageView, sender_login: Seq<char>) -> Result<
    Option<u64>,
    ParseErrorView,
> {
    if sender_login != "twitch"@ {
        match u64_of(m, "msg-param-sender-count"@) {
            Ok(n) => Ok(Some(n)),
            Err(e) => Err(e),
        }
    } else {
        Ok(u64_if_any(m, "msg-param-sender-count"@))
    }
}

/// The months under `msg-param-sender-count`, zero where the tag is absent.
pub open spec fn sender_months_of(m: IrcMessageView) -> Result<u64, ParseErrorView> {
    match optional_u64_of(m, "msg-param-sender-count"@) {
        Err(e) => Err(e),
        Ok(Some(n)) => Ok(n),
        Ok(None) => Ok(0),
    }
}
/// An announcement and its colour.
pub open spec fn announcement_event(
    m: IrcMessageView,
) -> Result<UserNoticeEventView, ParseErrorView> {
    match fault(nonempty_tag_value(m, "msg-param-color"@)) {
        Some(e) => Err(e),
        None => Ok(
            UserNoticeEventView::Announcement {
                color: got(nonempty_tag_value(m, "msg-param-color"@)),
            },
        ),
    }
}

/// A subscription, new or renewed.
pub open spec fn sub_event(
    m: IrcMessageView,
    is_resub: bool,
) -> Result<UserNoticeEventView, ParseErrorView> {
    let found = fault(u64_of(m, "msg-param-cumulative-months"@));
    let found = then_fault(found, fault(streak_of(m)));
    let found = then_fault(found, fault(nonempty_tag_value(m, "msg-param-sub-plan"@)));
    let found = then_fault(found, fault(nonempty_tag_value(m, "msg-param-sub-plan-name"@)));
    match found {
        Some(e) => Err(e),
        None => Ok(
            UserNoticeEventView::SubOrResub {
                is_resub,
                cumulative_months: got(u64_of(m, "msg-param-cumulative-months"@)),
                streak_months: got(streak_of(m)),
                sub_plan: got(nonempty_tag_value(m, "msg-param-sub-plan"@)),
                sub_plan_name: got(nonempty_tag_value(m, "msg-param-sub-plan-name"@)),
            },
        ),
    }
}

/// A raid.
pub open spec fn raid_event(m: IrcMessageView) -> Result<UserNoticeEventView, ParseErrorView> {
    let found = fault(u64_of(m, "msg-param-viewerCount"@));
    let found = then_fault(found, fault(nonempty_tag_value(m, "msg-param-profileImageURL"@)));
    match found {
        Some(e) => Err(e),
        None => Ok(
            UserNoticeEventView::Raid {
                viewer_count: got(u64_of(m, "msg-param-viewerCount"@)),
                profile_image_url: got(nonempty_tag_value(m, "msg-param-profileImageURL"@)),
            },
        ),
    }
}

/// A subscription gifted to one user.
pub open spec fn sub_gift_event(
    m: IrcMessageView,
    is_sender_anonymous: bool,
) -> Result<UserNoticeEventView, ParseErrorView> {
    let found = fault(u64_of(m, "msg-param-months"@));
    let found = then_fault(found, fault(nonempty_tag_value(m, "msg-param-recipient-id"@)));
    let found = then_fault(found, fault(nonempty_tag_value(m, "msg-param-recipient-user-name"@)));
    let found = then_fault(
        found,
        fault(nonempty_tag_value(m, "msg-param-recipient-display-name"@)),
    );
    let found = then_fault(found, fault(nonempty_tag_value(m, "msg-param-sub-plan"@)));
    let found = then_fault(found, fault(nonempty_tag_value(m, "msg-param-sub-plan-name"@)));
    let found = then_fault(found, fault(u64_of(m, "msg-param-gift-months"@)));
    let found = then_fault(found, fault(sender_months_of(m)));
    match found {
        Some(e) => Err(e),
        None => Ok(
            UserNoticeEventView::SubGift {
                is_sender_anonymous,
                cumulative_months: got(u64_of(m, "msg-param-months"@)),
                recipient: BasicUserView {
                    id: got(nonempty_tag_value(m, "msg-param-recipient-id"@)),
                    login: got(nonempty_tag_value(m, "msg-param-recipient-user-name"@)),
                    name: got(nonempty_tag_value(m, "msg-param-recipient-display-name"@)),
                },
                sub_plan: got(nonempty_tag_value(m, "msg-param-sub-plan"@)),
                sub_plan_name: got(nonempty_tag_value(m, "msg-param-sub-plan-name"@)),
                num_gifted_months: got(u64_of(m, "msg-param-gift-months"@)),
                sender_total_months: got(sender_months_of(m)),
            },
        ),
    }
}

/// Subscriptions gifted to the channel by nobody in particular.
pub open spec fn anon_mystery_gift_event(
    m: IrcMessageView,
) -> Result<UserNoticeEventView, ParseErrorView> {
    let found = fault(u64_of(m, "msg-param-mass-gift-count"@));
    let found = then_fault(found, fault(nonempty_tag_value(m, "msg-param-sub-plan"@)));
    match found {
        Some(e) => Err(e),
        None => Ok(
            UserNoticeEventView::AnonSubMysteryGift {
                mass_gift_count: got(u64_of(m, "msg-param-mass-gift-count"@)),
                sub_plan: got(nonempty_tag_value(m, "msg-param-sub-plan"@)),
            },
        ),
    }
}

/// Subscriptions gifted to the channel.
pub open spec fn mystery_gift_event(
    m: IrcMessageView,
    sender_login: Seq<char>,
) -> Result<UserNoticeEventView, ParseErrorView> {
    let found = fault(u64_of(m, "msg-param-mass-gift-count"@));
    let found = then_fault(found, fault(sender_count_of(m, sender_login)));
    let found = then_fault(found, fault(nonempty_tag_value(m, "msg-param-sub-plan"@)));
    match found {
        Some(e) => Err(e),
        None => Ok(
            UserNoticeEventView::SubMysteryGift {
                mass_gift_count: got(u64_of(m, "msg-param-mass-gift-count"@)),
                sender_total_gifts: got(sender_count_of(m, sender_login)),
                sub_plan: got(nonempty_tag_value(m, "msg-param-sub-plan"@)),
            },
        ),
    }
}

/// A gifted subscription that its holder goes on paying for.
pub open spec fn gift_paid_upgrade_event(
    m: IrcMessageView,
) -> Result<UserNoticeEventView, ParseErrorView> {
    let found = fault(nonempty_tag_value(m, "msg-param-sender-login"@));
    let found = then_fault(found, fault(nonempty_tag_value(m, "msg-param-sender-name"@)));
    let found = then_fault(found, fault(promo_of(m)));
    match found {
        Some(e) => Err(e),
        None => Ok(
            UserNoticeEventView::GiftPaidUpgrade {
                gifter_login: got(nonempty_tag_value(m, "msg-param-sender-login"@)),
                gifter_name: got(nonempty_tag_value(m, "msg-param-sender-name"@)),
                promotion: got(promo_of(m)),
            },
        ),
    }
}

/// An anonymously gifted subscription that its holder goes on paying for.
pub open spec fn anon_gift_paid_upgrade_event(
    m: IrcMessageView,
) -> Result<UserNoticeEventView, ParseErrorView> {
    match fault(promo_of(m)) {
        Some(e) => Err(e),
        None => Ok(
            UserNoticeEventView::AnonGiftPaidUpgrade { promotion: got(promo_of(m)) },
        ),
    }
}

/// A ritual, such as the greeting of a new chatter.
pub open spec fn ritual_event(m: IrcMessageView) -> Result<UserNoticeEventView, ParseErrorView> {
    match fault(nonempty_tag_value(m, "msg-param-ritual-name"@)) {
        Some(e) => Err(e),
        None => Ok(
            UserNoticeEventView::Ritual {
                ritual_name: got(nonempty_tag_value(m, "msg-param-ritual-name"@)),
            },
        ),
    }
}

/// A user reached a new tier of the bits badge.
pub open spec fn bits_badge_tier_event(
    m: IrcMessageView,
) -> Result<UserNoticeEventView, ParseErrorView> {
    match fault(u64_of(m, "msg-param-threshold"@)) {
        Some(e) => Err(e),
        None => Ok(
            UserNoticeEventView::BitsBadgeTier {
                threshold: got(u64_of(m, "msg-param-threshold"@)),
            },
        ),
    }
}

/// The event of a user notice, by its event id. A gift counts as anonymous
/// also where it comes in the name of the anonymous gifter, whatever the
/// event id says; an event id that is not known is the unknown event.
pub open spec fn event_of(
    m: IrcMessageView,
    event_id: Seq<char>,
    sender_id: Seq<char>,
    sender_login: Seq<char>,
) -> Result<UserNoticeEventView, ParseErrorView> {
    if event_id == "announcement"@ {
        announcement_event(m)
    } else if event_id == "sub"@ || event_id == "resub"@ {
        sub_event(m, event_id == "resub"@)
    } else if event_id == "raid"@ {
        raid_event(m)
    } else if event_id == "subgift"@ || event_id == "anonsubgift"@ {
        sub_gift_event(m, event_id == "anonsubgift"@ || sender_id == anonymous_gifter_id())
    } else if (sender_id == anonymous_gifter_id() && event_id == "submysterygift"@) || event_id
        == "anonsubmysterygift"@ {
        anon_mystery_gift_event(m)
    } else if event_id == "submysterygift"@ {
        mystery_gift_event(m, sender_login)
    } else if event_id == "giftpaidupgrade"@ {
        gift_paid_upgrade_event(m)
    } else if event_id == "anongiftpaidupgrade"@ {
        anon_gift_paid_upgrade_event(m)
    } else if event_id == "ritual"@ {
        ritual_event(m)
    } else if event_id == "bitsbadgetier"@ {
        bits_badge_tier_event(m)
    } else {
        Ok(UserNoticeEventView::Unknown)
    }
}

/// The event of a user notice whose sender and event id can be read.
pub open spec fn user_notice_event(m: IrcMessageView) -> Result<
    UserNoticeEventView,
    ParseErrorView,
> {
    event_of(
        m,
        got(nonempty_tag_value(m, "msg-id"@)),
        got(nonempty_tag_value(m, "user-id"@)),
        got(nonempty_tag_value(m, "login"@)),
    )
}

/// The text that the user added to the notice, if any: the second parameter.
pub open spec fn user_notice_text(m: IrcMessageView) -> Option<Seq<char>> {
    if m.params.len() > 1 {
        Some(m.params[1])
    } else {
        None
    }
}

/// The emotes of a user notice, decoded against its text; none without a
/// text.
pub open spec fn user_notice_emotes(m: IrcMessageView) -> Result<Seq<EmoteView>, ParseErrorView> {
    if m.params.len() > 1 {
        emotes_of(m, "emotes"@, m.params[1])
    } else {
        Ok(Seq::empty())
    }
}

/// The server's own sentence about the event, under `system-msg`; for an
/// announcement without one, the second parameter.
pub open spec fn system_message_of(m: IrcMessageView) -> Result<Seq<char>, ParseErrorView> {
    match nonempty_tag_value(m, "system-msg"@) {
        Ok(v) => Ok(v),
        Err(e) => if got(nonempty_tag_value(m, "msg-id"@)) == "announcement"@ {
            param_at(m, 1)
        } else {
            Err(e)
        },
    }
}

/// An event in a channel, announced by the server.
#[derive(Debug, Clone, PartialEq, Eq)]
pub struct UserNoticeMessage {
    pub channel_login: String,
    pub channel_id: String,
    pub sender: BasicUser,
    pub message_text: Option<String>,
    pub system_message: String,
    pub event: UserNoticeEvent,
    pub event_id: String,
    pub badge_info: Vec<Badge>,
    pub badges: Vec<Badge>,
    pub emotes: Vec<Emote>,
    pub name_color: String,
    pub message_id: String,
    pub deleted: bool,
    pub is_recent: bool,
    pub server_timestamp: u64,
    pub source_only: Option<bool>,
    pub source: Option<Source>,
    pub raw: IrcMessage,
}
/// Why a raw message is no `USERNOTICE`: the first fault, looking in turn
/// at the command, the tags `user-id`, `login`, `display-name` and `msg-id`,
/// the event, the emotes, the system message, the channel, the tags
/// `room-id`, `badge-info`, `badges`, `color`, `id`, `rm-deleted`,
/// `historical` and `tmi-sent-ts`, and the origin.
pub open spec fn user_notice_fault(m: IrcMessageView) -> Option<ParseErrorView> {
    let found = command_fault(m, "USERNOTICE"@);
    let found = then_fault(found, fault(nonempty_tag_value(m, "user-id"@)));
    let found = then_fault(found, fault(nonempty_tag_value(m, "login"@)));
    let found = then_fault(found, fault(nonempty_tag_value(m, "display-name"@)));
    let found = then_fault(found, fault(nonempty_tag_value(m, "msg-id"@)));
    let found = then_fault(found, fault(user_notice_event(m)));
    let found = then_fault(found, fault(user_notice_emotes(m)));
    let found = then_fault(found, fault(system_message_of(m)));
    let found = then_fault(found, fault(channel_login(m)));
    let found = then_fault(found, fault(nonempty_tag_value(m, "room-id"@)));
    let found = then_fault(found, fault(badges_of(m, "badge-info"@)));
    let found = then_fault(found, fault(badges_of(m, "badges"@)));
    let found = then_fault(found, fault(tag_value(m, "color"@)));
    let found = then_fault(found, fault(nonempty_tag_value(m, "id"@)));
    let found = then_fault(found, fault(flag_of(m, "rm-deleted"@)));
    let found = then_fault(found, fault(flag_of(m, "historical"@)));
    let found = then_fault(found, fault(u64_of(m, "tmi-sent-ts"@)));
    let found = then_fault(found, fault(source_of(m)));
    found
}

impl UserNoticeMessage {
    /// The raw message is a faultless `USERNOTICE`, and each field holds
    /// what the raw message gives for it; the flag under `source-only` is
    /// held where it can be read.
    pub open spec fn wf(&self) -> bool {
        let m = self.raw@;
        &&& user_notice_fault(m) is None
        &&& self.channel_login@ == got(channel_login(m))
        &&& self.channel_id@ == got(nonempty_tag_value(m, "room-id"@))
        &&& self.sender@ == (BasicUserView {
            id: got(nonempty_tag_value(m, "user-id"@)),
            login: got(nonempty_tag_value(m, "login"@)),
            name: got(nonempty_tag_value(m, "display-name"@)),
        })
        &&& option_view(self.message_text) == user_notice_text(m)
        &&& self.system_message@ == got(system_message_of(m))
        &&& self.event@ == got(user_notice_event(m))
        &&& self.event_id@ == got(nonempty_tag_value(m, "msg-id"@))
        &&& badges_view(self.badge_info@) == got(badges_of(m, "badge-info"@))
        &&& badges_view(self.badges@) == got(badges_of(m, "badges"@))
        &&& emotes_view(self.emotes@) == got(user_notice_emotes(m))
        &&& self.name_color@ == got(tag_value(m, "color"@))
        &&& self.message_id@ == got(nonempty_tag_value(m, "id"@))
        &&& self.deleted == got(flag_of(m, "rm-deleted"@))
        &&& self.is_recent == got(flag_of(m, "historical"@))
        &&& self.server_timestamp == got(u64_of(m, "tmi-sent-ts"@))
        &&& self.source_only == bool_if_any(m, "source-only"@)
        &&& source_view(self.source) == got(source_of(m))
    }

    /// Reads the event that `announcement_event` describes.
    fn read_announcement(msg: &IrcMessage) -> (r: Result<UserNoticeEvent, ServerMessageParseError>)
        ensures
            match r {
                Ok(v) => ok_is(announcement_event(msg@), v@),
                Err(e) => err_is(announcement_event(msg@), e@),
            },
    {
        let color = msg.try_get_nonempty_tag_value("msg-param-color")?.to_owned();
        Ok(UserNoticeEvent::Announcement { color })
    }

    /// Reads the months of a streak.
    fn read_streak(msg: &IrcMessage) -> (r: Result<Option<u64>, ServerMessageParseError>)
        ensures
            match r {
                Ok(v) => ok_is(streak_of(msg@), v),
                Err(e) => err_is(streak_of(msg@), e@),
            },
    {
        if msg.try_get_bool("msg-param-should-share-streak")? {
            Ok(Some(msg.try_get_number("msg-param-streak-months")?))
        } else {
            Ok(None)
        }
    }

    /// Reads how many subscriptions the sender has gifted.
    fn read_sender_count(msg: &IrcMessage, sender_login: &str) -> (r: Result<
        Option<u64>,
        ServerMessageParseError,
    >)
        ensures
            match r {
                Ok(v) => ok_is(sender_count_of(msg@, sender_login@), v),
                Err(e) => err_is(sender_count_of(msg@, sender_login@), e@),
            },
    {
        if !str_eq(sender_login, "twitch") {
            Ok(Some(msg.try_get_number("msg-param-sender-count")?))
        } else {
            Ok(msg.get_number_if_any("msg-param-sender-count"))
        }
    }

    /// Reads the months under `msg-param-sender-count`.
    fn read_sender_months(msg: &IrcMessage) -> (r: Result<u64, ServerMessageParseError>)
        ensures
            match r {
                Ok(v) => ok_is(sender_months_of(msg@), v),
                Err(e) => err_is(sender_months_of(msg@), e@),
            },
    {
        match msg.try_get_optional_number("msg-param-sender-count")? {
            Some(n) => Ok(n),
            None => Ok(0),
        }
    }

    /// Reads the event that `sub_event` describes.
    fn read_sub(
        msg: &IrcMessage,
        is_resub: bool,
    ) -> (r: Result<UserNoticeEvent, ServerMessageParseError>)
        ensures
            match r {
                Ok(v) => ok_is(sub_event(msg@, is_resub), v@),
                Err(e) => err_is(sub_event(msg@, is_resub), e@),
            },
    {
        let cumulative_months = msg.try_get_number("msg-param-cumulative-months")?;
        let streak_months = UserNoticeMessage::read_streak(msg)?;
        let sub_plan = msg.try_get_nonempty_tag_value("msg-param-sub-plan")?.to_owned();
        let sub_plan_name = msg.try_get_nonempty_tag_value("msg-param-sub-plan-name")?.to_owned();
        Ok(
            UserNoticeEvent::SubOrResub {
                is_resub,
                cumulative_months,
                streak_months,
                sub_plan,
                sub_plan_name,
            },
        )
    }

    /// Reads the event that `raid_event` describes.
    fn read_raid(msg: &IrcMessage) -> (r: Result<UserNoticeEvent, ServerMessageParseError>)
        ensures
            match r {
                Ok(v) => ok_is(raid_event(msg@), v@),
                Err(e) => err_is(raid_event(msg@), e@),
            },
    {
        let viewer_count = msg.try_get_number("msg-param-viewerCount")?;
        let profile_image_url = msg.try_get_nonempty_tag_value(
            "msg-param-profileImageURL",
        )?.to_owned();
        Ok(UserNoticeEvent::Raid { viewer_count, profile_image_url })
    }

    /// Reads the event that `sub_gift_event` describes.
    fn read_sub_gift(
        msg: &IrcMessage,
        is_sender_anonymous: bool,
    ) -> (r: Result<UserNoticeEvent, ServerMessageParseError>)
        ensures
            match r {
                Ok(v) => ok_is(sub_gift_event(msg@, is_sender_anonymous), v@),
                Err(e) => err_is(sub_gift_event(msg@, is_sender_anonymous), e@),
            },
    {
        let cumulative_months = msg.try_get_number("msg-param-months")?;
        let id = msg.try_get_nonempty_tag_value("msg-param-recipient-id")?.to_owned();
        let login = msg.try_get_nonempty_tag_value("msg-param-recipient-user-name")?.to_owned();
        let name = msg.try_get_nonempty_tag_value("msg-param-recipient-display-name")?.to_owned();
        let sub_plan = msg.try_get_nonempty_tag_value("msg-param-sub-plan")?.to_owned();
        let sub_plan_name = msg.try_get_nonempty_tag_value("msg-param-sub-plan-name")?.to_owned();
        let num_gifted_months = msg.try_get_number("msg-param-gift-months")?;
        let sender_total_months = UserNoticeMessage::read_sender_months(msg)?;
        Ok(
            UserNoticeEvent::SubGift {
                is_sender_anonymous,
                cumulative_months,
                recipient: BasicUser { id, login, name },
                sub_plan,
                sub_plan_name,
                num_gifted_months,
                sender_total_months,
            },
        )
    }

    /// Reads the event that `anon_mystery_gift_event` describes.
    fn read_anon_mystery_gift(
        msg: &IrcMessage,
    ) -> (r: Result<UserNoticeEvent, ServerMessageParseError>)
        ensures
            match r {
                Ok(v) => ok_is(anon_mystery_gift_event(msg@), v@),
                Err(e) => err_is(anon_mystery_gift_event(msg@), e@),
            },
    {
        let mass_gift_count = msg.try_get_number("msg-param-mass-gift-count")?;
        let sub_plan = msg.try_get_nonempty_tag_value("msg-param-sub-plan")?.to_owned();
        Ok(UserNoticeEvent::AnonSubMysteryGift { mass_gift_count, sub_plan })
    }

    /// Reads the event that `mystery_gift_event` describes.
    fn read_mystery_gift(
        msg: &IrcMessage,
        sender_login: &str,
    ) -> (r: Result<UserNoticeEvent, ServerMessageParseError>)
        ensures
            match r {
                Ok(v) => ok_is(mystery_gift_event(msg@, sender_login@), v@),
                Err(e) => err_is(mystery_gift_event(msg@, sender_login@), e@),
            },
    {
        let mass_gift_count = msg.try_get_number("msg-param-mass-gift-count")?;
        let sender_total_gifts = UserNoticeMessage::read_sender_count(msg, sender_login)?;
        let sub_plan = msg.try_get_nonempty_tag_value("msg-param-sub-plan")?.to_owned();
        Ok(UserNoticeEvent::SubMysteryGift { mass_gift_count, sender_total_gifts, sub_plan })
    }

    /// Reads the event that `gift_paid_upgrade_event` describes.
    fn read_gift_paid_upgrade(
        msg: &IrcMessage,
    ) -> (r: Result<UserNoticeEvent, ServerMessageParseError>)
        ensures
            match r {
                Ok(v) => ok_is(gift_paid_upgrade_event(msg@), v@),
                Err(e) => err_is(gift_paid_upgrade_event(msg@), e@),
            },
    {
        let gifter_login = msg.try_get_nonempty_tag_value("msg-param-sender-login")?.to_owned();
        let gifter_name = msg.try_get_nonempty_tag_value("msg-param-sender-name")?.to_owned();
        let promotion = SubGiftPromo::parse_if_present(msg)?;
        Ok(UserNoticeEvent::GiftPaidUpgrade { gifter_login, gifter_name, promotion })
    }

    /// Reads the event that `anon_gift_paid_upgrade_event` describes.
    fn read_anon_gift_paid_upgrade(
        msg: &IrcMessage,
    ) -> (r: Result<UserNoticeEvent, ServerMessageParseError>)
        ensures
            match r {
                Ok(v) => ok_is(anon_gift_paid_upgrade_event(msg@), v@),
                Err(e) => err_is(anon_gift_paid_upgrade_event(msg@), e@),
            },
    {
        let promotion = SubGiftPromo::parse_if_present(msg)?;
        Ok(UserNoticeEvent::AnonGiftPaidUpgrade { promotion })
    }

    /// Reads the event that `ritual_event` describes.
    fn read_ritual(msg: &IrcMessage) -> (r: Result<UserNoticeEvent, ServerMessageParseError>)
        ensures
            match r {
                Ok(v) => ok_is(ritual_event(msg@), v@),
                Err(e) => err_is(ritual_event(msg@), e@),
            },
    {
        let ritual_name = msg.try_get_nonempty_tag_value("msg-param-ritual-name")?.to_owned();
        Ok(UserNoticeEvent::Ritual { ritual_name })
    }

    /// Reads the event that `bits_badge_tier_event` describes.
    fn read_bits_badge_tier(
        msg: &IrcMessage,
    ) -> (r: Result<UserNoticeEvent, ServerMessageParseError>)
        ensures
            match r {
                Ok(v) => ok_is(bits_badge_tier_event(msg@), v@),
                Err(e) => err_is(bits_badge_tier_event(msg@), e@),
            },
    {
        let threshold = msg.try_get_number("msg-param-threshold")?;
        Ok(UserNoticeEvent::BitsBadgeTier { threshold })
    }

    /// Reads the event of a user notice, given its event id and its sender.
    pub fn read_event(msg: &IrcMessage, event_id: &str, sender: &BasicUser) -> (r: Result<
        UserNoticeEvent,
        ServerMessageParseError,
    >)
        ensures
            match r {
                Ok(v) => ok_is(event_of(msg@, event_id@, sender.id@, sender.login@), v@),
                Err(e) => err_is(event_of(msg@, event_id@, sender.id@, sender.login@), e@),
            },
    {
        let anonymous = str_eq(sender.id.as_str(), "274598607");
        if str_eq(event_id, "announcement") {
            UserNoticeMessage::read_announcement(msg)
        } else if str_eq(event_id, "sub") || str_eq(event_id, "resub") {
            UserNoticeMessage::read_sub(msg, str_eq(event_id, "resub"))
        } else if str_eq(event_id, "raid") {
            UserNoticeMessage::read_raid(msg)
        } else if str_eq(event_id, "subgift") || str_eq(event_id, "anonsubgift") {
            UserNoticeMessage::read_sub_gift(msg, str_eq(event_id, "anonsubgift") || anonymous)
        } else if (anonymous && str_eq(event_id, "submysterygift")) || str_eq(
            event_id,
            "anonsubmysterygift",
        ) {
            UserNoticeMessage::read_anon_mystery_gift(msg)
        } else if str_eq(event_id, "submysterygift") {
            UserNoticeMessage::read_mystery_gift(msg, sender.login.as_str())
        } else if str_eq(event_id, "giftpaidupgrade") {
            UserNoticeMessage::read_gift_paid_upgrade(msg)
        } else if str_eq(event_id, "anongiftpaidupgrade") {
            UserNoticeMessage::read_anon_gift_paid_upgrade(msg)
        } else if str_eq(event_id, "ritual") {
            UserNoticeMessage::read_ritual(msg)
        } else if str_eq(event_id, "bitsbadgetier") {
            UserNoticeMessage::read_bits_badge_tier(msg)
        } else {
            Ok(UserNoticeEvent::Unknown)
        }
    }

    /// Reads the system message.
    fn read_system_message(msg: &IrcMessage, event_id: &str) -> (r: Result<
        String,
        ServerMessageParseError,
    >)
        requires
            ok_is(nonempty_tag_value(msg@, "msg-id"@), event_id@),
        ensures
            match r {
                Ok(v) => ok_is(system_message_of(msg@), v@),
                Err(e) => err_is(system_message_of(msg@), e@),
            },
    {
        match msg.try_get_nonempty_tag_value("system-msg") {
            Ok(v) => Ok(v.to_owned()),
            Err(e) => if str_eq(event_id, "announcement") {
                Ok(msg.try_get_param(1)?.to_owned())
            } else {
                Err(e)
            },
        }
    }

    /// Types a raw message as a `USERNOTICE`.
    pub fn try_from(msg: IrcMessage) -> (r: Result<UserNoticeMessage, ServerMessageParseError>)
        ensures
            r is Ok <==> user_notice_fault(msg@) is None,
            match r {
                Ok(t) => t.raw@ == msg@ && t.wf(),
                Err(e) => user_notice_fault(msg@) == Some(e@),
            },
    {
        if !str_eq(msg.command.as_str(), "USERNOTICE") {
            return Err(ServerMessageParseError::MismatchedCommand(msg));
        }
        let id = msg.try_get_nonempty_tag_value("user-id")?.to_owned();
        let login = msg.try_get_nonempty_tag_value("login")?.to_owned();
        let name = msg.try_get_nonempty_tag_value("display-name")?.to_owned();
        let sender = BasicUser { id, login, name };
        let event_id = msg.try_get_nonempty_tag_value("msg-id")?.to_owned();
        let event = UserNoticeMessage::read_event(&msg, event_id.as_str(), &sender)?;
        let message_text = if msg.params.len() > 1 {
            Some(msg.params[1].clone())
        } else {
            None
        };
        let emotes = match &message_text {
            Some(text) => msg.try_get_emotes("emotes", text.as_str())?,
            None => {
                let v: Vec<Emote> = Vec::new();
                proof {
                    assert(emotes_view(v@) =~= Seq::<EmoteView>::empty());
                }
                v
            },
        };
        let system_message = UserNoticeMessage::read_system_message(&msg, event_id.as_str())?;
        let channel_login = msg.try_get_channel_login()?;
        let channel_id = msg.try_get_nonempty_tag_value("room-id")?.to_owned();
        let badge_info = msg.try_get_badges("badge-info")?;
        let badges = msg.try_get_badges("badges")?;
        let name_color = msg.try_get_color("color")?.to_owned();
        let message_id = msg.try_get_nonempty_tag_value("id")?.to_owned();
        let deleted = msg.try_get_flag("rm-deleted")?;
        let is_recent = msg.try_get_flag("historical")?;
        let server_timestamp = msg.try_get_timestamp("tmi-sent-ts")?;
        let source_only = msg.get_bool_if_any("source-only");
        let source = msg.try_get_source()?;
        Ok(
            UserNoticeMessage {
                channel_login,
                channel_id,
                sender,
                message_text,
                system_message,
                event,
                event_id,
                badge_info,
                badges,
                emotes,
                name_color,
                message_id,
                deleted,
                is_recent,
                server_timestamp,
                source_only,
                source,
                raw: msg,
            },
        )
    }
}

} // verus!
