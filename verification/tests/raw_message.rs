use hypeline::irc::message::prefix::IrcPrefix;
use hypeline::irc::message::tags::{decode_tag_value, encode_tag_value, IrcTags};
use hypeline::irc::message::{AsRawIrc, IrcMessage, IrcParseError};
use hypeline::irc::number::{parse_i64, parse_u64, parse_u8, parse_usize};
use hypeline::irc::text::{chars_of, find_char, split_all, string_from_chars};

fn chars(s: &str) -> Vec<char> {
    s.chars().collect()
}

fn strings(v: &[&str]) -> Vec<String> {
    v.iter().map(|s| s.to_string()).collect()
}

#[test]
fn parses_command_and_params() {
    let msg = IrcMessage::parse("PRIVMSG #bar :hello world").unwrap();
    assert_eq!(msg.command, "PRIVMSG");
    assert_eq!(msg.params, strings(&["#bar", "hello world"]));
    assert!(msg.prefix.is_none());
    assert!(msg.tags.is_empty());
}

#[test]
fn command_is_uppercased() {
    let msg = IrcMessage::parse("ping :tmi.twitch.tv").unwrap();
    assert_eq!(msg.command, "PING");
    assert_eq!(msg.params, strings(&["tmi.twitch.tv"]));
}

#[test]
fn numeric_command_is_accepted() {
    let msg = IrcMessage::parse(":tmi.twitch.tv 001 me :Welcome, GLHF!").unwrap();
    assert_eq!(msg.command, "001");
    assert_eq!(msg.params, strings(&["me", "Welcome, GLHF!"]));
    assert_eq!(msg.prefix, Some(IrcPrefix::HostOnly { host: "tmi.twitch.tv".to_owned() }));
}

#[test]
fn command_without_params() {
    let msg = IrcMessage::parse("RECONNECT").unwrap();
    assert_eq!(msg.command, "RECONNECT");
    assert!(msg.params.is_empty());
}

#[test]
fn trailing_param_may_be_empty_or_hold_colons() {
    let msg = IrcMessage::parse("PRIVMSG #a :").unwrap();
    assert_eq!(msg.params, strings(&["#a", ""]));
    let msg = IrcMessage::parse("PRIVMSG #a ::) :D").unwrap();
    assert_eq!(msg.params, strings(&["#a", ":) :D"]));
}

#[test]
fn parses_tags_in_order_of_first_appearance() {
    let msg = IrcMessage::parse("@a=1;b=2;a=3;c PING").unwrap();
    assert_eq!(
        msg.tags.entries,
        vec![
            ("a".to_owned(), "3".to_owned()),
            ("b".to_owned(), "2".to_owned()),
            ("c".to_owned(), "".to_owned()),
        ]
    );
    assert_eq!(msg.tags.get("a"), Some("3"));
    assert_eq!(msg.tags.get("c"), Some(""));
    assert_eq!(msg.tags.get("d"), None);
    assert!(msg.tags.contains_key("b"));
    assert!(!msg.tags.contains_key("B"));
    assert_eq!(msg.tags.len(), 3);
}

#[test]
fn tag_values_are_unescaped() {
    let msg = IrcMessage::parse(r"@k=a\:b\sc\\d\re\nf\gh\ PING").unwrap();
    assert_eq!(msg.tags.get("k"), Some("a;b c\\d\re\nfgh"));
}

#[test]
fn tag_value_may_hold_equal_signs() {
    let tags = IrcTags::parse("k=a=b;=x");
    assert_eq!(tags.get("k"), Some("a=b"));
    assert_eq!(tags.get(""), Some("x"));
}

#[test]
fn decode_and_encode_tag_values() {
    assert_eq!(decode_tag_value(r"\:\s\\\r\n"), "; \\\r\n");
    assert_eq!(decode_tag_value(r"abc\"), "abc");
    assert_eq!(decode_tag_value(r"a\bc"), "abc");
    assert_eq!(encode_tag_value("; \\\r\n"), r"\:\s\\\r\n");
    assert_eq!(encode_tag_value("plain=value"), "plain=value");
    assert_eq!(decode_tag_value(&encode_tag_value("a;b c\\d\re\nf")), "a;b c\\d\re\nf");
}

#[test]
fn inserting_a_key_again_keeps_its_place() {
    let mut tags = IrcTags::new();
    tags.insert("x".to_owned(), "1".to_owned());
    tags.insert("y".to_owned(), "2".to_owned());
    tags.insert("x".to_owned(), "3".to_owned());
    assert_eq!(
        tags.entries,
        vec![("x".to_owned(), "3".to_owned()), ("y".to_owned(), "2".to_owned())]
    );
    assert_eq!(tags.as_raw_irc(), "x=3;y=2");
}

#[test]
fn parses_prefix_forms() {
    assert_eq!(
        IrcPrefix::parse("tmi.twitch.tv"),
        IrcPrefix::HostOnly { host: "tmi.twitch.tv".to_owned() }
    );
    assert_eq!(
        IrcPrefix::parse("nick!user@host"),
        IrcPrefix::Full {
            nick: "nick".to_owned(),
            user: Some("user".to_owned()),
            host: Some("host".to_owned()),
        }
    );
    assert_eq!(
        IrcPrefix::parse("nick@host"),
        IrcPrefix::Full { nick: "nick".to_owned(), user: None, host: Some("host".to_owned()) }
    );
    assert_eq!(
        IrcPrefix::parse("a!b@c@d"),
        IrcPrefix::Full {
            nick: "a".to_owned(),
            user: Some("b".to_owned()),
            host: Some("c@d".to_owned()),
        }
    );
    assert_eq!(
        IrcPrefix::parse("nick!user"),
        IrcPrefix::HostOnly { host: "nick!user".to_owned() }
    );
}

#[test]
fn formats_prefix_forms() {
    assert_eq!(IrcPrefix::HostOnly { host: "h".to_owned() }.as_raw_irc(), "h");
    assert_eq!(
        IrcPrefix::Full { nick: "n".to_owned(), user: Some("u".to_owned()), host: None }
            .as_raw_irc(),
        "n"
    );
    assert_eq!(
        IrcPrefix::Full {
            nick: "n".to_owned(),
            user: Some("u".to_owned()),
            host: Some("h".to_owned())
        }
        .as_raw_irc(),
        "n!u@h"
    );
    assert_eq!(
        IrcPrefix::Full { nick: "n".to_owned(), user: None, host: Some("h".to_owned()) }
            .as_raw_irc(),
        "n@h"
    );
}

#[test]
fn rejects_newlines() {
    assert_eq!(IrcMessage::parse("PING\r\n"), Err(IrcParseError::NewlinesInMessage));
    assert_eq!(IrcMessage::parse("PING :a\nb"), Err(IrcParseError::NewlinesInMessage));
}

#[test]
fn rejects_tags_without_space() {
    assert_eq!(IrcMessage::parse("@a=b"), Err(IrcParseError::NoSpaceAfterTags));
}

#[test]
fn rejects_empty_tags() {
    assert_eq!(IrcMessage::parse("@ PING"), Err(IrcParseError::EmptyTagsDeclaration));
}

#[test]
fn rejects_prefix_without_space() {
    assert_eq!(IrcMessage::parse(":tmi.twitch.tv"), Err(IrcParseError::NoSpaceAfterPrefix));
    assert_eq!(IrcMessage::parse("@a=b :tmi.twitch.tv"), Err(IrcParseError::NoSpaceAfterPrefix));
}

#[test]
fn rejects_empty_prefix() {
    assert_eq!(IrcMessage::parse(": PING"), Err(IrcParseError::EmptyPrefixDeclaration));
}

#[test]
fn rejects_malformed_command() {
    assert_eq!(IrcMessage::parse(""), Err(IrcParseError::MalformedCommand));
    assert_eq!(IrcMessage::parse("PING1"), Err(IrcParseError::MalformedCommand));
    assert_eq!(IrcMessage::parse("PI-NG x"), Err(IrcParseError::MalformedCommand));
    assert_eq!(IrcMessage::parse(" PING"), Err(IrcParseError::MalformedCommand));
    assert_eq!(IrcMessage::parse("@a=b  PING"), Err(IrcParseError::MalformedCommand));
}

#[test]
fn rejects_double_spaces_between_params() {
    assert_eq!(
        IrcMessage::parse("PRIVMSG  #a"),
        Err(IrcParseError::TooManySpacesInMiddleParams)
    );
    assert_eq!(
        IrcMessage::parse("PRIVMSG #a  :b"),
        Err(IrcParseError::TooManySpacesInMiddleParams)
    );
    assert_eq!(IrcMessage::parse("PRIVMSG "), Err(IrcParseError::TooManySpacesInMiddleParams));
}

#[test]
fn parse_error_sentences() {
    assert_eq!(
        IrcParseError::NoSpaceAfterTags.message(),
        "No space found after tags (no command/prefix)"
    );
    assert_eq!(
        IrcParseError::NewlinesInMessage.message(),
        "Newlines are not permitted in raw IRC messages"
    );
}

#[test]
fn formats_with_sentinel_only_where_needed() {
    let msg = IrcMessage::new_simple("PRIVMSG".to_owned(), strings(&["#a", "hello"]));
    assert_eq!(msg.as_raw_irc(), "PRIVMSG #a hello");
    let msg = IrcMessage::new_simple("PRIVMSG".to_owned(), strings(&["#a", "hello world"]));
    assert_eq!(msg.as_raw_irc(), "PRIVMSG #a :hello world");
    let msg = IrcMessage::new_simple("PRIVMSG".to_owned(), strings(&["#a", ""]));
    assert_eq!(msg.as_raw_irc(), "PRIVMSG #a :");
    let msg = IrcMessage::new_simple("PRIVMSG".to_owned(), strings(&["#a", ":x"]));
    assert_eq!(msg.as_raw_irc(), "PRIVMSG #a ::x");
    let msg = IrcMessage::new_simple("PING".to_owned(), vec![]);
    assert_eq!(msg.as_raw_irc(), "PING");
}

#[test]
fn formatting_stops_at_the_first_param_that_needs_the_sentinel() {
    let msg = IrcMessage::new_simple("X".to_owned(), strings(&["a b", "c"]));
    assert_eq!(msg.as_raw_irc(), "X :a b");
}

#[test]
fn round_trip_of_canonical_lines() {
    for line in [
        "PING",
        "PRIVMSG #a :hello world",
        ":tmi.twitch.tv PONG tmi.twitch.tv :x y",
        ":a!b@c JOIN #d",
        "@k=v;e;x=a\\sb\\:c\\\\ :n@h CMD first second :t r a i l",
        "@=x 001",
    ] {
        let msg = IrcMessage::parse(line).unwrap();
        assert_eq!(msg.as_raw_irc(), line);
        assert_eq!(IrcMessage::parse(&msg.as_raw_irc()).unwrap(), msg);
    }
}

#[test]
fn parsing_what_was_formatted_gives_the_message_back() {
    let mut tags = IrcTags::new();
    tags.insert("key".to_owned(), "a;b c\\d\re\nf".to_owned());
    tags.insert("flag".to_owned(), "".to_owned());
    let msg = IrcMessage::new(
        tags,
        Some(IrcPrefix::Full {
            nick: "nick".to_owned(),
            user: Some("user".to_owned()),
            host: Some("host".to_owned()),
        }),
        "PRIVMSG".to_owned(),
        strings(&["#chan", "hello there"]),
    );
    let line = msg.as_raw_irc();
    assert_eq!(line, "@key=a\\:b\\sc\\\\d\\re\\nf;flag :nick!user@host PRIVMSG #chan :hello there");
    assert_eq!(IrcMessage::parse(&line).unwrap(), msg);
}

#[test]
fn a_non_canonical_line_is_normalised() {
    let msg = IrcMessage::parse("privmsg #a :hello").unwrap();
    assert_eq!(msg.as_raw_irc(), "PRIVMSG #a hello");
    assert_eq!(IrcMessage::parse("PRIVMSG #a hello").unwrap(), msg);
}

#[test]
fn text_helpers() {
    assert_eq!(chars_of("héllo"), chars("héllo"));
    assert_eq!(string_from_chars(&chars("héllo")), "héllo");
    assert_eq!(find_char(&chars("a,b"), ','), 1);
    assert_eq!(find_char(&chars("ab"), ','), 2);
    let src = chars("a,,b,");
    let parts = split_all(&src, ',');
    assert_eq!(parts, vec![&chars("a")[..], &chars("")[..], &chars("b")[..], &chars("")[..]]);
    let empty: Vec<char> = Vec::new();
    assert_eq!(split_all(&empty, ','), vec![&empty[..]]);
}

#[test]
fn reads_decimal_numbers() {
    assert_eq!(parse_u64(&chars("0")), Some(0));
    assert_eq!(parse_u64(&chars("+17")), Some(17));
    assert_eq!(parse_u64(&chars("007")), Some(7));
    assert_eq!(parse_u64(&chars("18446744073709551615")), Some(u64::MAX));
    assert_eq!(parse_u64(&chars("18446744073709551616")), None);
    assert_eq!(parse_u64(&chars("")), None);
    assert_eq!(parse_u64(&chars("+")), None);
    assert_eq!(parse_u64(&chars("-1")), None);
    assert_eq!(parse_u64(&chars("1a")), None);
    assert_eq!(parse_u64(&chars("++1")), None);
    assert_eq!(parse_u64(&chars("٣")), None);
    assert_eq!(parse_u8(&chars("255")), Some(255));
    assert_eq!(parse_u8(&chars("256")), None);
    assert_eq!(parse_usize(&chars("42")), Some(42));
    assert_eq!(parse_i64(&chars("-5")), Some(-5));
    assert_eq!(parse_i64(&chars("+5")), Some(5));
    assert_eq!(parse_i64(&chars("-9223372036854775808")), Some(i64::MIN));
    assert_eq!(parse_i64(&chars("9223372036854775807")), Some(i64::MAX));
    assert_eq!(parse_i64(&chars("9223372036854775808")), None);
    assert_eq!(parse_i64(&chars("-9223372036854775809")), None);
    assert_eq!(parse_i64(&chars("-")), None);
    assert_eq!(parse_i64(&chars("-+5")), None);
}
