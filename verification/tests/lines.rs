use hypeline::irc::message::extract::ServerMessageParseError;
use hypeline::irc::message::{AsRawIrc, IrcMessage, IrcParseError};
use hypeline::irc::number::{parse_i64, parse_u64, parse_u8, parse_usize, push_decimal};
use hypeline::irc::outgoing::{channel_target, join_message, me, part_message, privmsg, reply};
use hypeline::irc::transport::parse_frame;

#[test]
fn outgoing_lines() {
    assert_eq!(channel_target("forsen"), "#forsen");
    assert_eq!(join_message("forsen").as_raw_irc(), "JOIN #forsen");
    assert_eq!(part_message("forsen").as_raw_irc(), "PART #forsen");
    assert_eq!(privmsg("forsen", "hello".to_owned()).as_raw_irc(), "PRIVMSG #forsen hello");
    assert_eq!(
        privmsg("forsen", "hello world".to_owned()).as_raw_irc(),
        "PRIVMSG #forsen :hello world"
    );
    assert_eq!(me("forsen", "waves").as_raw_irc(), "PRIVMSG #forsen :/me waves");
    assert_eq!(
        reply("forsen", "yes indeed".to_owned(), "abc-1".to_owned()).as_raw_irc(),
        "@reply-parent-msg-id=abc-1 PRIVMSG #forsen :yes indeed"
    );
}

#[test]
fn outgoing_lines_parse_back() {
    for message in [
        join_message("forsen"),
        privmsg("forsen", "hello world".to_owned()),
        me("forsen", "waves"),
        reply("forsen", "a; b".to_owned(), "id 1".to_owned()),
    ] {
        assert_eq!(IrcMessage::parse(&message.as_raw_irc()).unwrap(), message);
    }
}

#[test]
fn frame_is_cut_into_lines() {
    let results = parse_frame("PING :a\r\n\r\n:tmi.twitch.tv PONG b\nJOIN  x\r\nRECONNECT");
    assert_eq!(results.len(), 4);
    assert_eq!(results[0].as_ref().unwrap().as_raw_irc(), "PING a");
    assert_eq!(results[1].as_ref().unwrap().as_raw_irc(), ":tmi.twitch.tv PONG b");
    assert_eq!(results[2], Err(IrcParseError::TooManySpacesInMiddleParams));
    assert_eq!(results[3].as_ref().unwrap().command, "RECONNECT");
}

#[test]
fn frame_edge_cases() {
    assert!(parse_frame("").is_empty());
    assert!(parse_frame("\r\n\n\r\n").is_empty());
    assert_eq!(parse_frame("PING\r\n").len(), 1);
    assert_eq!(parse_frame("PING\r"), vec![Err(IrcParseError::NewlinesInMessage)]);
    assert_eq!(parse_frame("PI\rNG\r\n"), vec![Err(IrcParseError::NewlinesInMessage)]);
    assert_eq!(parse_frame("\r\r\n"), vec![Err(IrcParseError::NewlinesInMessage)]);
}

#[test]
fn decimal_form() {
    for (n, text) in [(0u64, "0"), (7, "7"), (10, "10"), (1905, "1905"), (u64::MAX, "18446744073709551615")] {
        let mut s = String::from("n=");
        push_decimal(&mut s, n);
        assert_eq!(s, format!("n={}", text));
        let digits: Vec<char> = text.chars().collect();
        assert_eq!(parse_u64(&digits), Some(n));
    }
}

#[test]
fn typed_parse_error_sentences() {
    let source = IrcMessage::parse("@a=b :n!u@h PRIVMSG #c :hi there").unwrap();
    let head = "Could not parse IRC message @a=b :n!u@h PRIVMSG #c :hi there as ServerMessage: ";
    let cases = [
        (
            ServerMessageParseError::MismatchedCommand(source.clone()),
            "That command's data is not parsed by this implementation",
        ),
        (
            ServerMessageParseError::MissingTag(source.clone(), "room-id"),
            "No tag present under key `room-id`",
        ),
        (
            ServerMessageParseError::MissingTagValue(source.clone(), "room-id"),
            "No tag value present under key `room-id`",
        ),
        (
            ServerMessageParseError::MalformedTagValue(source.clone(), "bits", "x1".to_owned()),
            "Malformed tag value for tag `bits`, value was `x1`",
        ),
        (
            ServerMessageParseError::MissingParameter(source.clone(), 12),
            "No parameter found at index 12",
        ),
        (
            ServerMessageParseError::MalformedChannel(source.clone()),
            "Malformed channel parameter (# must be present + something after it)",
        ),
        (ServerMessageParseError::MissingPrefix(source.clone()), "Missing prefix altogether"),
        (ServerMessageParseError::MissingNickname(source.clone()), "No nickname found in prefix"),
    ];
    for (error, tail) in cases {
        assert_eq!(error.message(), format!("{}{}", head, tail));
        assert_eq!(error.source(), &source);
    }
}

fn samples() -> Vec<String> {
    let pieces = ["", "0", "1", "9", "00", "+", "-", "+1", "-1", "12", "255", "256", "a", " ", "٣"];
    let mut all: Vec<String> = Vec::new();
    for a in pieces {
        for b in pieces {
            all.push(format!("{}{}", a, b));
        }
    }
    for n in [
        "18446744073709551615",
        "18446744073709551616",
        "9223372036854775807",
        "9223372036854775808",
        "-9223372036854775808",
        "-9223372036854775809",
        "99999999999999999999999",
        "000000000000000000000000001",
    ] {
        all.push(n.to_owned());
        all.push(format!("+{}", n));
    }
    all
}

#[test]
fn decimal_reading_agrees_with_std() {
    for text in samples() {
        let digits: Vec<char> = text.chars().collect();
        assert_eq!(parse_u64(&digits), text.parse::<u64>().ok(), "u64 {:?}", text);
        assert_eq!(parse_u8(&digits), text.parse::<u8>().ok(), "u8 {:?}", text);
        assert_eq!(parse_usize(&digits), text.parse::<usize>().ok(), "usize {:?}", text);
        assert_eq!(parse_i64(&digits), text.parse::<i64>().ok(), "i64 {:?}", text);
    }
}

#[test]
fn frame_lines_agree_with_std() {
    for frame in [
        "",
        "PING",
        "PING\n",
        "PING\r\n",
        "PING\r\nPONG\r\n",
        "PING\n\nPONG",
        "\r\n\r\nPING\r\n\r\n",
        "A b\r\nC :d e\nF\r\n",
    ] {
        let expected: Vec<Result<IrcMessage, IrcParseError>> =
            frame.lines().filter(|l| !l.is_empty()).map(IrcMessage::parse).collect();
        assert_eq!(parse_frame(frame), expected, "{:?}", frame);
    }
}
