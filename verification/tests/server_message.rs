use hypeline::irc::message::commands::{
    ClearChatAction, ClearChatMessage, ClearMsgMessage, FollowersOnlyMode,
    GlobalUserStateMessage, JoinMessage, NoticeMessage, PartMessage, PingMessage, PongMessage,
    ReconnectMessage, RoomStateMessage, UserStateMessage, WhisperMessage,
};
use hypeline::irc::message::extract::ServerMessageParseError;
use hypeline::irc::message::privmsg::PrivmsgMessage;
use hypeline::irc::message::server::ServerMessage;
use hypeline::irc::message::twitch::{Badge, BasicUser, Emote};
use hypeline::irc::message::usernotice::{SubGiftPromo, UserNoticeEvent, UserNoticeMessage};
use hypeline::irc::message::{AsRawIrc, IrcMessage};

fn raw(line: &str) -> IrcMessage {
    IrcMessage::parse(line).unwrap()
}

fn badge(name: &str, version: &str) -> Badge {
    Badge { name: name.to_owned(), version: version.to_owned() }
}

const PRIVMSG: &str = "@badge-info=;badges=;color=#FF0000;display-name=Foo;emotes=;flags=;id=e9d998c3-36f1-430f-89ec-6b887c28af36;mod=0;room-id=11148817;subscriber=0;tmi-sent-ts=1594545155039;turbo=0;user-id=29803735;user-type= :foo!foo@foo.tmi.twitch.tv PRIVMSG #bar :hello";

#[test]
fn chat_post_scenario() {
    let typed = ServerMessage::try_from(raw(PRIVMSG)).unwrap();
    let msg = match typed {
        ServerMessage::Privmsg(msg) => msg,
        other => panic!("not a chat post: {:?}", other),
    };
    assert_eq!(msg.sender.name, "Foo");
    assert_eq!(msg.sender.login, "foo");
    assert_eq!(msg.sender.id, "29803735");
    assert_eq!(msg.message_text, "hello");
    assert!(msg.badges.is_empty());
    assert!(msg.badge_info.is_empty());
    assert!(msg.emotes.is_empty());
    assert_eq!(msg.channel_login, "bar");
    assert_eq!(msg.channel_id, "11148817");
    assert_eq!(msg.name_color, "#FF0000");
    assert_eq!(msg.message_id, "e9d998c3-36f1-430f-89ec-6b887c28af36");
    assert_eq!(msg.server_timestamp, 1594545155039);
    assert_eq!(msg.bits, None);
    assert_eq!(msg.reply, None);
    assert_eq!(msg.source, None);
    assert_eq!(msg.source_only, None);
    assert!(!msg.is_action);
    assert!(!msg.is_mod);
    assert!(!msg.is_subscriber);
    assert!(!msg.is_highlighted);
    assert!(!msg.is_first_msg);
    assert!(!msg.is_returning_chatter);
    assert!(!msg.deleted);
    assert!(!msg.is_recent);
    assert_eq!(msg.raw, raw(PRIVMSG));
}

#[test]
fn chat_post_with_badges_bits_and_flags() {
    let line = "@badge-info=subscriber/22;badges=moderator/1,subscriber/12;bits=100;color=;display-name=Foo;emotes=;first-msg=1;historical=1;id=abc;mod=1;msg-id=highlighted-message;returning-chatter=1;rm-deleted=1;room-id=1;source-only=0;subscriber=1;tmi-sent-ts=5;user-id=2 :foo!foo@foo.tmi.twitch.tv PRIVMSG #bar :cheer100";
    let msg = PrivmsgMessage::try_from(raw(line)).unwrap();
    assert_eq!(msg.badge_info, vec![badge("subscriber", "22")]);
    assert_eq!(msg.badges, vec![badge("moderator", "1"), badge("subscriber", "12")]);
    assert_eq!(msg.bits, Some(100));
    assert_eq!(msg.name_color, "");
    assert!(msg.is_mod);
    assert!(msg.is_subscriber);
    assert!(msg.is_highlighted);
    assert!(msg.is_first_msg);
    assert!(msg.is_returning_chatter);
    assert!(msg.deleted);
    assert!(msg.is_recent);
    assert_eq!(msg.source_only, Some(false));
}

#[test]
fn chat_post_action() {
    let line = "@badge-info=;badges=;color=;display-name=Foo;emotes=;id=abc;mod=0;room-id=1;subscriber=0;tmi-sent-ts=5;user-id=2 :foo!foo@foo.tmi.twitch.tv PRIVMSG #bar :\u{1}ACTION waves\u{1}";
    let msg = PrivmsgMessage::try_from(raw(line)).unwrap();
    assert!(msg.is_action);
    assert_eq!(msg.message_text, "waves");
    let line = "@badge-info=;badges=;color=;display-name=Foo;emotes=;id=abc;mod=0;room-id=1;subscriber=0;tmi-sent-ts=5;user-id=2 :foo!foo@foo.tmi.twitch.tv PRIVMSG #bar :\u{1}ACTION \u{1}";
    let msg = PrivmsgMessage::try_from(raw(line)).unwrap();
    assert!(msg.is_action);
    assert_eq!(msg.message_text, "");
    let line = "@badge-info=;badges=;color=;display-name=Foo;emotes=;id=abc;mod=0;room-id=1;subscriber=0;tmi-sent-ts=5;user-id=2 :foo!foo@foo.tmi.twitch.tv PRIVMSG #bar :\u{1}ACTION waves";
    let msg = PrivmsgMessage::try_from(raw(line)).unwrap();
    assert!(!msg.is_action);
    assert_eq!(msg.message_text, "\u{1}ACTION waves");
}

#[test]
fn emotes_are_sorted_and_match_the_text() {
    let line = "@badge-info=;badges=;color=;display-name=Foo;emotes=25:12-16/1902:6-10,0-4;id=abc;mod=0;room-id=1;subscriber=0;tmi-sent-ts=5;user-id=2 :foo!foo@foo.tmi.twitch.tv PRIVMSG #bar :Keepo Keepo Kappa";
    let msg = PrivmsgMessage::try_from(raw(line)).unwrap();
    assert_eq!(
        msg.emotes,
        vec![
            Emote { id: "1902".to_owned(), range: 0..5, code: "Keepo".to_owned() },
            Emote { id: "1902".to_owned(), range: 6..11, code: "Keepo".to_owned() },
            Emote { id: "25".to_owned(), range: 12..17, code: "Kappa".to_owned() },
        ]
    );
}

#[test]
fn emote_ranges_count_characters_and_are_clamped() {
    let line = "@badge-info=;badges=;color=;display-name=Foo;emotes=1:2-6/2:8-20/3:40-45;id=abc;mod=0;room-id=1;subscriber=0;tmi-sent-ts=5;user-id=2 :foo!foo@foo.tmi.twitch.tv PRIVMSG #bar :äö Kappa abc";
    let msg = PrivmsgMessage::try_from(raw(line)).unwrap();
    assert_eq!(
        msg.emotes,
        vec![
            Emote { id: "1".to_owned(), range: 2..7, code: " Kapp".to_owned() },
            Emote { id: "2".to_owned(), range: 8..21, code: " abc".to_owned() },
            Emote { id: "3".to_owned(), range: 40..46, code: "".to_owned() },
        ]
    );
}

#[test]
fn emotes_that_start_together_keep_their_order() {
    let line = "@badge-info=;badges=;color=;display-name=Foo;emotes=b:0-1/a:0-0;id=abc;mod=0;room-id=1;subscriber=0;tmi-sent-ts=5;user-id=2 :foo!foo@foo.tmi.twitch.tv PRIVMSG #bar :xyz";
    let msg = PrivmsgMessage::try_from(raw(line)).unwrap();
    assert_eq!(
        msg.emotes,
        vec![
            Emote { id: "b".to_owned(), range: 0..2, code: "xy".to_owned() },
            Emote { id: "a".to_owned(), range: 0..1, code: "x".to_owned() },
        ]
    );
}

#[test]
fn malformed_emotes_are_reported_with_tag_and_value() {
    for value in ["25", "25:1", "25:a-2", "25:1-b", "25:5-2", "25:1-2,", "/25:1-2", "25:1-18446744073709551615"] {
        let line = format!("@badge-info=;badges=;color=;display-name=Foo;emotes={};id=abc;mod=0;room-id=1;subscriber=0;tmi-sent-ts=5;user-id=2 :foo!foo@foo.tmi.twitch.tv PRIVMSG #bar :Keepo", value);
        let source = raw(&line);
        assert_eq!(
            PrivmsgMessage::try_from(source.clone()),
            Err(ServerMessageParseError::MalformedTagValue(source, "emotes", value.to_owned()))
        );
    }
}

#[test]
fn empty_range_just_before_its_start_is_accepted() {
    let line = "@badge-info=;badges=;color=;display-name=Foo;emotes=25:3-2;id=abc;mod=0;room-id=1;subscriber=0;tmi-sent-ts=5;user-id=2 :foo!foo@foo.tmi.twitch.tv PRIVMSG #bar :Keepo";
    let msg = PrivmsgMessage::try_from(raw(line)).unwrap();
    assert_eq!(msg.emotes, vec![Emote { id: "25".to_owned(), range: 3..3, code: "".to_owned() }]);
}

#[test]
fn chat_post_with_reply_and_source() {
    let line = "@badge-info=;badges=;color=;display-name=Foo;emotes=;id=abc;mod=0;reply-parent-display-name=Par;reply-parent-msg-body=hi\\sthere;reply-parent-msg-id=parent-msg;reply-parent-user-id=10;reply-parent-user-login=par;reply-thread-parent-display-name=Thr;reply-thread-parent-msg-id=thread-msg;reply-thread-parent-user-id=11;reply-thread-parent-user-login=thr;room-id=1;source-badge-info=;source-badges=vip/1;source-id=source-msg;source-room-id=77;subscriber=0;tmi-sent-ts=5;user-id=2 :foo!foo@foo.tmi.twitch.tv PRIVMSG #bar :@par yo";
    let msg = PrivmsgMessage::try_from(raw(line)).unwrap();
    let reply = msg.reply.unwrap();
    assert_eq!(reply.parent.message_id, "parent-msg");
    assert_eq!(reply.parent.message_text, "hi there");
    assert_eq!(
        reply.parent.user,
        BasicUser { id: "10".to_owned(), login: "par".to_owned(), name: "Par".to_owned() }
    );
    assert_eq!(reply.thread.message_id, "thread-msg");
    assert_eq!(
        reply.thread.user,
        BasicUser { id: "11".to_owned(), login: "thr".to_owned(), name: "Thr".to_owned() }
    );
    let source = msg.source.unwrap();
    assert_eq!(source.message_id, "source-msg");
    assert_eq!(source.channel_id, "77");
    assert_eq!(source.event_id, None);
    assert_eq!(source.badges, vec![badge("vip", "1")]);
    assert!(source.badge_info.is_empty());
}

#[test]
fn reply_with_a_missing_part_is_an_error() {
    let line = "@badge-info=;badges=;color=;display-name=Foo;emotes=;id=abc;mod=0;reply-parent-msg-id=parent-msg;room-id=1;subscriber=0;tmi-sent-ts=5;user-id=2 :foo!foo@foo.tmi.twitch.tv PRIVMSG #bar :yo";
    let source = raw(line);
    assert_eq!(
        PrivmsgMessage::try_from(source.clone()),
        Err(ServerMessageParseError::MissingTag(source, "reply-parent-user-id"))
    );
}

#[test]
fn missing_required_tag_is_named() {
    for key in [
        "room-id", "user-id", "display-name", "badge-info", "badges", "color", "emotes",
        "tmi-sent-ts", "id", "mod", "subscriber",
    ] {
        let mut source = raw(PRIVMSG);
        source.tags.entries.retain(|(k, _)| k != key);
        match ServerMessage::try_from(source.clone()) {
            Err(ServerMessageParseError::MissingTag(m, k)) => {
                assert_eq!(m, source);
                assert_eq!(k, key);
            }
            other => panic!("tag {}: {:?}", key, other),
        }
    }
}

#[test]
fn empty_required_tag_is_named() {
    let mut source = raw(PRIVMSG);
    source.tags.insert("room-id".to_owned(), "".to_owned());
    assert_eq!(
        PrivmsgMessage::try_from(source.clone()),
        Err(ServerMessageParseError::MissingTagValue(source, "room-id"))
    );
}

#[test]
fn malformed_number_is_reported_with_tag_and_value() {
    let mut source = raw(PRIVMSG);
    source.tags.insert("tmi-sent-ts".to_owned(), "12x".to_owned());
    assert_eq!(
        PrivmsgMessage::try_from(source.clone()),
        Err(ServerMessageParseError::MalformedTagValue(source, "tmi-sent-ts", "12x".to_owned()))
    );
    let mut source = raw(PRIVMSG);
    source.tags.insert("mod".to_owned(), "256".to_owned());
    assert_eq!(
        PrivmsgMessage::try_from(source.clone()),
        Err(ServerMessageParseError::MalformedTagValue(source, "mod", "256".to_owned()))
    );
}

#[test]
fn malformed_badges_are_reported() {
    let mut source = raw(PRIVMSG);
    source.tags.insert("badges".to_owned(), "vip/1,broken".to_owned());
    assert_eq!(
        PrivmsgMessage::try_from(source.clone()),
        Err(ServerMessageParseError::MalformedTagValue(
            source,
            "badges",
            "vip/1,broken".to_owned()
        ))
    );
}

#[test]
fn missing_parameter_is_indexed() {
    let source = raw("@room-id=1 :foo!foo@foo PRIVMSG #bar");
    assert_eq!(
        PrivmsgMessage::try_from(source.clone()),
        Err(ServerMessageParseError::MissingParameter(source, 1))
    );
    let source = raw(":foo!foo@foo JOIN");
    assert_eq!(
        JoinMessage::try_from(source.clone()),
        Err(ServerMessageParseError::MissingParameter(source, 0))
    );
}

#[test]
fn malformed_channel_is_reported() {
    for channel in ["bar", "#", "##"] {
        let source = raw(&format!(":foo!foo@foo JOIN {}", channel));
        let result = JoinMessage::try_from(source.clone());
        if channel == "##" {
            assert_eq!(result.unwrap().channel_login, "#");
        } else {
            assert_eq!(result, Err(ServerMessageParseError::MalformedChannel(source)));
        }
    }
}

#[test]
fn missing_prefix_and_nickname_are_reported() {
    let source = raw("JOIN #bar");
    assert_eq!(
        JoinMessage::try_from(source.clone()),
        Err(ServerMessageParseError::MissingPrefix(source))
    );
    let source = raw(":tmi.twitch.tv JOIN #bar");
    assert_eq!(
        JoinMessage::try_from(source.clone()),
        Err(ServerMessageParseError::MissingNickname(source))
    );
}

#[test]
fn mismatched_command_hands_the_message_back() {
    let source = raw(":foo!foo@foo JOIN #bar");
    let error = PartMessage::try_from(source.clone()).unwrap_err();
    assert_eq!(error, ServerMessageParseError::MismatchedCommand(source.clone()));
    assert_eq!(error.into_message(), source);
}

#[test]
fn unknown_command_is_generic_and_kept() {
    let source = raw(":tmi.twitch.tv 001 me :Welcome, GLHF!");
    let typed = ServerMessage::try_from(source.clone()).unwrap();
    assert!(matches!(typed, ServerMessage::Generic(_)));
    assert_eq!(typed.source(), &source);
    assert_eq!(typed.as_raw_irc(), ":tmi.twitch.tv 001 me :Welcome, GLHF!");
    assert_eq!(typed.into_message(), source);
}

#[test]
fn faulty_known_command_falls_back_to_generic() {
    let source = raw("JOIN #bar");
    assert!(ServerMessage::try_from(source.clone()).is_err());
    let typed = ServerMessage::from_raw(source.clone());
    assert!(matches!(typed, ServerMessage::Generic(_)));
    assert_eq!(typed.source(), &source);
    let typed = ServerMessage::from_raw(raw(PRIVMSG));
    assert!(matches!(typed, ServerMessage::Privmsg(_)));
    assert_eq!(ServerMessage::new_generic(source.clone()).into_message(), source);
}

#[test]
fn join_and_part() {
    let join = JoinMessage::try_from(raw(":me!me@me.tmi.twitch.tv JOIN #pajlada")).unwrap();
    assert_eq!(join.channel_login, "pajlada");
    assert_eq!(join.user_login, "me");
    let part = PartMessage::try_from(raw(":me!me@me.tmi.twitch.tv PART #pajlada")).unwrap();
    assert_eq!(part.channel_login, "pajlada");
    assert_eq!(part.user_login, "me");
    assert!(matches!(
        ServerMessage::try_from(raw(":me!me@me.tmi.twitch.tv JOIN #pajlada")),
        Ok(ServerMessage::Join(_))
    ));
    assert!(matches!(
        ServerMessage::try_from(raw(":me!me@me.tmi.twitch.tv PART #pajlada")),
        Ok(ServerMessage::Part(_))
    ));
}

#[test]
fn ping_pong_reconnect() {
    let ping = PingMessage::try_from(raw("PING :tmi.twitch.tv")).unwrap();
    assert_eq!(ping.raw, raw("PING :tmi.twitch.tv"));
    let pong = PongMessage::try_from(raw(":tmi.twitch.tv PONG tmi.twitch.tv :x")).unwrap();
    assert_eq!(pong.raw.command, "PONG");
    let reconnect = ReconnectMessage::try_from(raw(":tmi.twitch.tv RECONNECT")).unwrap();
    assert_eq!(reconnect.source.command, "RECONNECT");
    assert!(PingMessage::try_from(raw("PONG")).is_err());
    assert!(matches!(ServerMessage::try_from(raw("PING")), Ok(ServerMessage::Ping(_))));
    assert!(matches!(ServerMessage::try_from(raw("PONG")), Ok(ServerMessage::Pong(_))));
    assert!(matches!(ServerMessage::try_from(raw("RECONNECT")), Ok(ServerMessage::Reconnect(_))));
}

#[test]
fn clear_chat_actions() {
    let msg = ClearChatMessage::try_from(raw(
        "@room-id=11148817;tmi-sent-ts=1594561392337 :tmi.twitch.tv CLEARCHAT #pajlada",
    ))
    .unwrap();
    assert_eq!(msg.action, ClearChatAction::ChatClear);
    assert_eq!(msg.channel_login, "pajlada");
    assert_eq!(msg.channel_id, "11148817");
    assert_eq!(msg.server_timestamp, 1594561392337);
    assert!(!msg.is_recent);

    let msg = ClearChatMessage::try_from(raw(
        "@ban-duration=600;room-id=1;target-user-id=70948394;tmi-sent-ts=2 :tmi.twitch.tv CLEARCHAT #pajlada :weeb123",
    ))
    .unwrap();
    assert_eq!(
        msg.action,
        ClearChatAction::UserTimeout {
            user_login: "weeb123".to_owned(),
            user_id: "70948394".to_owned(),
            duration: 600,
        }
    );

    let msg = ClearChatMessage::try_from(raw(
        "@historical=1;room-id=1;target-user-id=70948394;tmi-sent-ts=2 :tmi.twitch.tv CLEARCHAT #pajlada :weeb123",
    ))
    .unwrap();
    assert_eq!(
        msg.action,
        ClearChatAction::UserBan { user_login: "weeb123".to_owned(), user_id: "70948394".to_owned() }
    );
    assert!(msg.is_recent);

    let source =
        raw("@ban-duration=abc;room-id=1;target-user-id=7;tmi-sent-ts=2 CLEARCHAT #pajlada :weeb123");
    assert_eq!(
        ClearChatMessage::try_from(source.clone()),
        Err(ServerMessageParseError::MalformedTagValue(source, "ban-duration", "abc".to_owned()))
    );
    let source = raw("@room-id=1;tmi-sent-ts=2 CLEARCHAT #pajlada :weeb123");
    assert_eq!(
        ClearChatMessage::try_from(source.clone()),
        Err(ServerMessageParseError::MissingTag(source, "target-user-id"))
    );
}

#[test]
fn clear_msg() {
    let msg = ClearMsgMessage::try_from(raw(
        "@login=alazymeme;room-id=5;target-msg-id=3c92014f;tmi-sent-ts=1594561955611 :tmi.twitch.tv CLEARMSG #pajlada :\u{1}ACTION lol\u{1}",
    ))
    .unwrap();
    assert_eq!(msg.channel_login, "pajlada");
    assert_eq!(msg.channel_id, "5");
    assert_eq!(msg.sender_login, "alazymeme");
    assert_eq!(msg.message_id, "3c92014f");
    assert_eq!(msg.message_text, "lol");
    assert!(msg.is_action);
    assert_eq!(msg.server_timestamp, 1594561955611);
}

#[test]
fn global_user_state_and_user_state() {
    let msg = GlobalUserStateMessage::try_from(raw(
        "@badge-info=;badges=;color=#19E6E6;display-name=randers;emote-sets=0,42,237,0,42;user-id=40286300;user-type= :tmi.twitch.tv GLOBALUSERSTATE",
    ))
    .unwrap();
    assert_eq!(msg.user_id, "40286300");
    assert_eq!(msg.user_name, "randers");
    assert_eq!(msg.name_color, "#19E6E6");
    assert_eq!(msg.emote_sets, vec!["0".to_owned(), "42".to_owned(), "237".to_owned()]);

    let msg = UserStateMessage::try_from(raw(
        "@badge-info=;badges=vip/1;color=;display-name=randers;emote-sets=;mod=0 :tmi.twitch.tv USERSTATE #pajlada",
    ))
    .unwrap();
    assert_eq!(msg.channel_login, "pajlada");
    assert_eq!(msg.user_name, "randers");
    assert_eq!(msg.badges, vec![badge("vip", "1")]);
    assert!(msg.emote_sets.is_empty());
    assert_eq!(msg.name_color, "");
}

#[test]
fn notice_with_and_without_channel() {
    let msg = NoticeMessage::try_from(raw(
        "@msg-id=msg_banned :tmi.twitch.tv NOTICE #forsen :You are permanently banned.",
    ))
    .unwrap();
    assert_eq!(msg.channel_login, Some("forsen".to_owned()));
    assert_eq!(msg.message_text, "You are permanently banned.");
    assert_eq!(msg.message_id, Some("msg_banned".to_owned()));
    assert_eq!(msg.recent_timestamp, None);

    let msg = NoticeMessage::try_from(raw(
        "@rm-received-ts=17 :tmi.twitch.tv NOTICE * :Improperly formatted auth",
    ))
    .unwrap();
    assert_eq!(msg.channel_login, None);
    assert_eq!(msg.message_id, None);
    assert_eq!(msg.recent_timestamp, Some(17));

    let source = raw("@msg-id= :tmi.twitch.tv NOTICE * :x");
    assert_eq!(
        NoticeMessage::try_from(source.clone()),
        Err(ServerMessageParseError::MissingTagValue(source, "msg-id"))
    );
}

#[test]
fn room_state_settings() {
    let msg = RoomStateMessage::try_from(raw(
        "@emote-only=0;followers-only=-1;r9k=1;rituals=0;room-id=40286300;slow=10;subs-only=0 :tmi.twitch.tv ROOMSTATE #randers",
    ))
    .unwrap();
    assert_eq!(msg.channel_login, "randers");
    assert_eq!(msg.channel_id, "40286300");
    assert_eq!(msg.emote_only, Some(false));
    assert_eq!(msg.followers_only, Some(FollowersOnlyMode::Disabled));
    assert_eq!(msg.r9k, Some(true));
    assert_eq!(msg.slow_mode, Some(10));
    assert_eq!(msg.subscribers_only, Some(false));

    let msg =
        RoomStateMessage::try_from(raw("@followers-only=10;room-id=1 :tmi.twitch.tv ROOMSTATE #randers"))
            .unwrap();
    assert_eq!(msg.followers_only, Some(FollowersOnlyMode::Enabled(600)));
    assert_eq!(msg.emote_only, None);
    assert_eq!(msg.slow_mode, None);

    let msg =
        RoomStateMessage::try_from(raw("@followers-only=0;room-id=1 :tmi.twitch.tv ROOMSTATE #randers"))
            .unwrap();
    assert_eq!(msg.followers_only, Some(FollowersOnlyMode::Enabled(0)));

    let source = raw("@followers-only=9223372036854775807;room-id=1 ROOMSTATE #randers");
    assert_eq!(
        RoomStateMessage::try_from(source.clone()),
        Err(ServerMessageParseError::MalformedTagValue(
            source,
            "followers-only",
            "9223372036854775807".to_owned()
        ))
    );
}

#[test]
fn whisper() {
    let msg = WhisperMessage::try_from(raw(
        "@badges=;color=#19E6E6;display-name=randers;emotes=25:7-11;message-id=1;thread-id=1_2;turbo=0;user-id=40286300;user-type= :randers!randers@randers.tmi.twitch.tv WHISPER randers811 :hello, Kappa",
    ))
    .unwrap();
    assert_eq!(msg.recipient_login, "randers811");
    assert_eq!(
        msg.sender,
        BasicUser {
            id: "40286300".to_owned(),
            login: "randers".to_owned(),
            name: "randers".to_owned()
        }
    );
    assert_eq!(msg.message_text, "hello, Kappa");
    assert_eq!(msg.name_color, "#19E6E6");
    assert_eq!(msg.emotes, vec![Emote { id: "25".to_owned(), range: 7..12, code: "Kappa".to_owned() }]);
}

const NOTICE_TAGS: &str = "badge-info=;badges=;color=#FF0000;display-name=Foo;emotes=;id=n1;login=foo;room-id=1;system-msg=sys\\smsg;tmi-sent-ts=9;user-id=2";

fn notice(extra: &str, tail: &str) -> Result<UserNoticeMessage, ServerMessageParseError> {
    UserNoticeMessage::try_from(raw(&format!(
        "@{};{} :tmi.twitch.tv USERNOTICE #bar{}",
        NOTICE_TAGS, extra, tail
    )))
}

#[test]
fn user_notice_resub() {
    let msg = notice(
        "msg-id=resub;msg-param-cumulative-months=15;msg-param-streak-months=7;msg-param-should-share-streak=1;msg-param-sub-plan=Prime;msg-param-sub-plan-name=Channel\\sSub",
        " :hello Kappa",
    )
    .unwrap();
    assert_eq!(msg.event_id, "resub");
    assert_eq!(
        msg.event,
        UserNoticeEvent::SubOrResub {
            is_resub: true,
            cumulative_months: 15,
            streak_months: Some(7),
            sub_plan: "Prime".to_owned(),
            sub_plan_name: "Channel Sub".to_owned(),
        }
    );
    assert_eq!(msg.message_text, Some("hello Kappa".to_owned()));
    assert_eq!(msg.system_message, "sys msg");
    assert_eq!(msg.channel_login, "bar");
    assert_eq!(msg.message_id, "n1");
    assert_eq!(msg.server_timestamp, 9);
    assert_eq!(
        msg.sender,
        BasicUser { id: "2".to_owned(), login: "foo".to_owned(), name: "Foo".to_owned() }
    );
}

#[test]
fn user_notice_sub_without_shared_streak() {
    let msg = notice(
        "msg-id=sub;msg-param-cumulative-months=1;msg-param-should-share-streak=0;msg-param-sub-plan=1000;msg-param-sub-plan-name=x",
        "",
    )
    .unwrap();
    assert_eq!(
        msg.event,
        UserNoticeEvent::SubOrResub {
            is_resub: false,
            cumulative_months: 1,
            streak_months: None,
            sub_plan: "1000".to_owned(),
            sub_plan_name: "x".to_owned(),
        }
    );
    assert_eq!(msg.message_text, None);
    assert!(msg.emotes.is_empty());
}

#[test]
fn user_notice_raid_ritual_bits_announcement() {
    let msg = notice("msg-id=raid;msg-param-viewerCount=430;msg-param-profileImageURL=https://x/y.png", "").unwrap();
    assert_eq!(
        msg.event,
        UserNoticeEvent::Raid { viewer_count: 430, profile_image_url: "https://x/y.png".to_owned() }
    );
    let msg = notice("msg-id=ritual;msg-param-ritual-name=new_chatter", " :HeyGuys").unwrap();
    assert_eq!(msg.event, UserNoticeEvent::Ritual { ritual_name: "new_chatter".to_owned() });
    let msg = notice("msg-id=bitsbadgetier;msg-param-threshold=10000", "").unwrap();
    assert_eq!(msg.event, UserNoticeEvent::BitsBadgeTier { threshold: 10000 });
    let msg = notice("msg-id=announcement;msg-param-color=PRIMARY", " :news").unwrap();
    assert_eq!(msg.event, UserNoticeEvent::Announcement { color: "PRIMARY".to_owned() });
    let msg = notice("msg-id=somethingnew", "").unwrap();
    assert_eq!(msg.event, UserNoticeEvent::Unknown);
    assert_eq!(msg.event_id, "somethingnew");
}

#[test]
fn announcement_without_system_message_takes_the_text() {
    let line = "@badge-info=;badges=;color=;display-name=Foo;emotes=;id=n1;login=foo;msg-id=announcement;msg-param-color=PRIMARY;room-id=1;tmi-sent-ts=9;user-id=2 :tmi.twitch.tv USERNOTICE #bar :the news";
    let msg = UserNoticeMessage::try_from(raw(line)).unwrap();
    assert_eq!(msg.system_message, "the news");
    let line = "@badge-info=;badges=;color=;display-name=Foo;emotes=;id=n1;login=foo;msg-id=raid;msg-param-viewerCount=1;msg-param-profileImageURL=u;room-id=1;tmi-sent-ts=9;user-id=2 :tmi.twitch.tv USERNOTICE #bar :the news";
    let source = raw(line);
    assert_eq!(
        UserNoticeMessage::try_from(source.clone()),
        Err(ServerMessageParseError::MissingTag(source, "system-msg"))
    );
}

const GIFT: &str = "msg-param-months=2;msg-param-recipient-id=7;msg-param-recipient-user-name=rec;msg-param-recipient-display-name=Rec;msg-param-sub-plan=1000;msg-param-sub-plan-name=plan;msg-param-gift-months=3";

#[test]
fn user_notice_sub_gift() {
    let msg = notice(&format!("msg-id=subgift;msg-param-sender-count=4;{}", GIFT), "").unwrap();
    assert_eq!(
        msg.event,
        UserNoticeEvent::SubGift {
            is_sender_anonymous: false,
            cumulative_months: 2,
            recipient: BasicUser {
                id: "7".to_owned(),
                login: "rec".to_owned(),
                name: "Rec".to_owned()
            },
            sub_plan: "1000".to_owned(),
            sub_plan_name: "plan".to_owned(),
            num_gifted_months: 3,
            sender_total_months: 4,
        }
    );
    let msg = notice(&format!("msg-id=anonsubgift;{}", GIFT), "").unwrap();
    match msg.event {
        UserNoticeEvent::SubGift { is_sender_anonymous, sender_total_months, .. } => {
            assert!(is_sender_anonymous);
            assert_eq!(sender_total_months, 0);
        }
        other => panic!("{:?}", other),
    }
}

fn anonymous_notice(extra: &str) -> Result<UserNoticeMessage, ServerMessageParseError> {
    UserNoticeMessage::try_from(raw(&format!(
        "@badge-info=;badges=;color=;display-name=AnAnonymousGifter;emotes=;id=n1;login=ananonymousgifter;room-id=1;system-msg=s;tmi-sent-ts=9;user-id=274598607;{} :tmi.twitch.tv USERNOTICE #bar",
        extra
    )))
}

#[test]
fn gifts_in_the_name_of_the_anonymous_gifter_are_anonymous() {
    let msg = anonymous_notice(&format!("msg-id=subgift;{}", GIFT)).unwrap();
    match msg.event {
        UserNoticeEvent::SubGift { is_sender_anonymous, .. } => assert!(is_sender_anonymous),
        other => panic!("{:?}", other),
    }
    let msg =
        anonymous_notice("msg-id=submysterygift;msg-param-mass-gift-count=5;msg-param-sub-plan=1000")
            .unwrap();
    assert_eq!(
        msg.event,
        UserNoticeEvent::AnonSubMysteryGift { mass_gift_count: 5, sub_plan: "1000".to_owned() }
    );
}

#[test]
fn user_notice_mystery_gifts() {
    let msg = notice(
        "msg-id=submysterygift;msg-param-mass-gift-count=5;msg-param-sender-count=12;msg-param-sub-plan=1000",
        "",
    )
    .unwrap();
    assert_eq!(
        msg.event,
        UserNoticeEvent::SubMysteryGift {
            mass_gift_count: 5,
            sender_total_gifts: Some(12),
            sub_plan: "1000".to_owned()
        }
    );
    let source = raw(&format!(
        "@{};msg-id=submysterygift;msg-param-mass-gift-count=5;msg-param-sub-plan=1000 :tmi.twitch.tv USERNOTICE #bar",
        NOTICE_TAGS
    ));
    assert_eq!(
        UserNoticeMessage::try_from(source.clone()),
        Err(ServerMessageParseError::MissingTag(source, "msg-param-sender-count"))
    );
    let line = "@badge-info=;badges=;color=;display-name=Twitch;emotes=;id=n1;login=twitch;msg-id=submysterygift;msg-param-mass-gift-count=5;msg-param-sub-plan=1000;room-id=1;system-msg=s;tmi-sent-ts=9;user-id=12826 :tmi.twitch.tv USERNOTICE #bar";
    let msg = UserNoticeMessage::try_from(raw(line)).unwrap();
    assert_eq!(
        msg.event,
        UserNoticeEvent::SubMysteryGift {
            mass_gift_count: 5,
            sender_total_gifts: None,
            sub_plan: "1000".to_owned()
        }
    );
    let msg = notice("msg-id=anonsubmysterygift;msg-param-mass-gift-count=5;msg-param-sub-plan=2000", "")
        .unwrap();
    assert_eq!(
        msg.event,
        UserNoticeEvent::AnonSubMysteryGift { mass_gift_count: 5, sub_plan: "2000".to_owned() }
    );
}

#[test]
fn user_notice_gift_paid_upgrades() {
    let msg = notice(
        "msg-id=giftpaidupgrade;msg-param-sender-login=giver;msg-param-sender-name=Giver;msg-param-promo-gift-total=3;msg-param-promo-name=Subtember",
        "",
    )
    .unwrap();
    assert_eq!(
        msg.event,
        UserNoticeEvent::GiftPaidUpgrade {
            gifter_login: "giver".to_owned(),
            gifter_name: "Giver".to_owned(),
            promotion: Some(SubGiftPromo { total_gifts: 3, promo_name: "Subtember".to_owned() }),
        }
    );
    let msg = notice("msg-id=anongiftpaidupgrade;msg-param-promo-name=Subtember", "").unwrap();
    assert_eq!(msg.event, UserNoticeEvent::AnonGiftPaidUpgrade { promotion: None });
    let msg = notice("msg-id=anongiftpaidupgrade", "").unwrap();
    assert_eq!(msg.event, UserNoticeEvent::AnonGiftPaidUpgrade { promotion: None });
}

#[test]
fn promotion_needs_both_tags() {
    let source = raw("@msg-param-promo-gift-total=3;msg-param-promo-name=P X");
    assert_eq!(
        SubGiftPromo::parse_if_present(&source),
        Ok(Some(SubGiftPromo { total_gifts: 3, promo_name: "P".to_owned() }))
    );
    assert_eq!(SubGiftPromo::parse_if_present(&raw("@msg-param-promo-gift-total=3 X")), Ok(None));
    let source = raw("@msg-param-promo-gift-total=x X");
    assert_eq!(
        SubGiftPromo::parse_if_present(&source),
        Err(ServerMessageParseError::MalformedTagValue(
            source.clone(),
            "msg-param-promo-gift-total",
            "x".to_owned()
        ))
    );
}

#[test]
fn user_notice_emotes_follow_the_text() {
    let line = "@badge-info=;badges=;color=;display-name=Foo;emotes=25:6-10;id=n1;login=foo;msg-id=ritual;msg-param-ritual-name=new_chatter;room-id=1;system-msg=s;tmi-sent-ts=9;user-id=2 :tmi.twitch.tv USERNOTICE #bar :hello Kappa";
    let msg = UserNoticeMessage::try_from(raw(line)).unwrap();
    assert_eq!(msg.emotes, vec![Emote { id: "25".to_owned(), range: 6..11, code: "Kappa".to_owned() }]);
}
