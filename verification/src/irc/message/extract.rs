//! Validated access to the parts of a raw message: positional parameters,
//! tags and their typed values. Each accessor either yields the value or
//! names what is missing or malformed.

use vstd::prelude::*;
use crate::irc::message::prefix::{IrcPrefix, PrefixView};
use crate::irc::message::tags::value_of;
use crate::irc::message::twitch::{badges_view, Badge, BadgeView};
use crate::irc::message::{line_text, strings_view, IrcMessage, IrcMessageView};
use crate::irc::number::{
    as_i64, as_u64, as_u8, decimal_text, parse_i64, parse_u64, parse_u8, push_decimal,
};
use crate::irc::text::{
    after, before, chars_of, contains_string, has_char, split, split_all, split_once,
    string_from_chars,
};

verus! {

/// Why a raw message is not the typed message that was asked for. Each
/// variant holds the raw message.
#[derive(Debug, PartialEq, Eq)]
pub enum ServerMessageParseError {
    /// The command is not the one of the typed message.
    MismatchedCommand(IrcMessage),
    /// No tag under the key.
    MissingTag(IrcMessage, &'static str),
    /// The tag under the key has an empty value.
    MissingTagValue(IrcMessage, &'static str),
    /// The value under the key, given last, is not of the expected form.
    MalformedTagValue(IrcMessage, &'static str, String),
    /// No parameter at the index.
    MissingParameter(IrcMessage, usize),
    /// The channel parameter is not a `#` followed by a name.
    MalformedChannel(IrcMessage),
    /// The message has no prefix.
    MissingPrefix(IrcMessage),
    /// The prefix holds no nickname.
    MissingNickname(IrcMessage),
}

/// A typed-parse error as plain values.
pub enum ParseErrorView {
    MismatchedCommand(IrcMessageView),
    MissingTag(IrcMessageView, Seq<char>),
    MissingTagValue(IrcMessageView, Seq<char>),
    MalformedTagValue(IrcMessageView, Seq<char>, Seq<char>),
    MissingParameter(IrcMessageView, int),
    MalformedChannel(IrcMessageView),
    MissingPrefix(IrcMessageView),
    MissingNickname(IrcMessageView),
}

impl View for ServerMessageParseError {
    type V = ParseErrorView;

    open spec fn view(&self) -> ParseErrorView {
        match *self {
            ServerMessageParseError::MismatchedCommand(m) => ParseErrorView::MismatchedCommand(m@),
            ServerMessageParseError::MissingTag(m, k) => ParseErrorView::MissingTag(m@, k@),
            ServerMessageParseError::MissingTagValue(m, k) => ParseErrorView::MissingTagValue(
                m@,
                k@,
            ),
            ServerMessageParseError::MalformedTagValue(m, k, v) => {
                ParseErrorView::MalformedTagValue(m@, k@, v@)
            },
            ServerMessageParseError::MissingParameter(m, i) => ParseErrorView::MissingParameter(
                m@,
                i as int,
            ),
            ServerMessageParseError::MalformedChannel(m) => ParseErrorView::MalformedChannel(m@),
            ServerMessageParseError::MissingPrefix(m) => ParseErrorView::MissingPrefix(m@),
            ServerMessageParseError::MissingNickname(m) => ParseErrorView::MissingNickname(m@),
        }
    }
}

impl ParseErrorView {
    /// The raw message that the error is about.
    pub open spec fn source(self) -> IrcMessageView {
        match self {
            ParseErrorView::MismatchedCommand(m) => m,
            ParseErrorView::MissingTag(m, _) => m,
            ParseErrorView::MissingTagValue(m, _) => m,
            ParseErrorView::MalformedTagValue(m, _, _) => m,
            ParseErrorView::MissingParameter(m, _) => m,
            ParseErrorView::MalformedChannel(m) => m,
            ParseErrorView::MissingPrefix(m) => m,
            ParseErrorView::MissingNickname(m) => m,
        }
    }
}

impl ParseErrorView {
    /// What the error says of the raw message.
    pub open spec fn finding(self) -> Seq<char> {
        match self {
            ParseErrorView::MismatchedCommand(_) => {
                "That command's data is not parsed by this implementation"@
            },
            ParseErrorView::MissingTag(_, key) => "No tag present under key `"@ + key + "`"@,
            ParseErrorView::MissingTagValue(_, key) => "No tag value present under key `"@ + key
                + "`"@,
            ParseErrorView::MalformedTagValue(_, key, value) => "Malformed tag value for tag `"@
                + key + "`, value was `"@ + value + "`"@,
            ParseErrorView::MissingParameter(_, index) => "No parameter found at index "@
                + decimal_text(index as nat),
            ParseErrorView::MalformedChannel(_) => {
                "Malformed channel parameter (# must be present + something after it)"@
            },
            ParseErrorView::MissingPrefix(_) => "Missing prefix altogether"@,
            ParseErrorView::MissingNickname(_) => "No nickname found in prefix"@,
        }
    }

    /// The sentence that describes the error: the raw message in its wire
    /// form, and what the error says of it.
    pub open spec fn sentence(self) -> Seq<char> {
        "Could not parse IRC message "@ + line_text(self.source()) + " as ServerMessage: "@
            + self.finding()
    }
}

impl ServerMessageParseError {
    /// The raw message that could not be typed.
    pub fn source(&self) -> (m: &IrcMessage)
        ensures
            m@ == self@.source(),
    {
        match self {
            ServerMessageParseError::MismatchedCommand(m) => m,
            ServerMessageParseError::MissingTag(m, _) => m,
            ServerMessageParseError::MissingTagValue(m, _) => m,
            ServerMessageParseError::MalformedTagValue(m, _, _) => m,
            ServerMessageParseError::MissingParameter(m, _) => m,
            ServerMessageParseError::MalformedChannel(m) => m,
            ServerMessageParseError::MissingPrefix(m) => m,
            ServerMessageParseError::MissingNickname(m) => m,
        }
    }

    /// A sentence that describes the error.
    pub fn message(&self) -> (s: String)
        ensures
            s@ == self@.sentence(),
    {
        let mut s = "Could not parse IRC message ".to_owned();
        self.source().write_raw(&mut s);
        s.append(" as ServerMessage: ");
        let ghost head = s@;
        match self {
            ServerMessageParseError::MismatchedCommand(_) => {
                s.append("That command's data is not parsed by this implementation");
            },
            ServerMessageParseError::MissingTag(_, key) => {
                s.append("No tag present under key `");
                s.append(key);
                s.append("`");
            },
            ServerMessageParseError::MissingTagValue(_, key) => {
                s.append("No tag value present under key `");
                s.append(key);
                s.append("`");
            },
            ServerMessageParseError::MalformedTagValue(_, key, value) => {
                s.append("Malformed tag value for tag `");
                s.append(key);
                s.append("`, value was `");
                s.append(value.as_str());
                s.append("`");
            },
            ServerMessageParseError::MissingParameter(_, index) => {
                s.append("No parameter found at index ");
                push_decimal(&mut s, *index as u64);
            },
            ServerMessageParseError::MalformedChannel(_) => {
                s.append("Malformed channel parameter (# must be present + something after it)");
            },
            ServerMessageParseError::MissingPrefix(_) => {
                s.append("Missing prefix altogether");
            },
            ServerMessageParseError::MissingNickname(_) => {
                s.append("No nickname found in prefix");
            },
        }
        proof {
            assert(s@ =~= head + self@.finding());
        }
        s
    }

    /// Gives back the raw message that could not be typed.
    pub fn into_message(self) -> (m: IrcMessage)
        ensures
            m@ == self@.source(),
    {
        match self {
            ServerMessageParseError::MismatchedCommand(m) => m,
            ServerMessageParseError::MissingTag(m, _) => m,
            ServerMessageParseError::MissingTagValue(m, _) => m,
            ServerMessageParseError::MalformedTagValue(m, _, _) => m,
            ServerMessageParseError::MissingParameter(m, _) => m,
            ServerMessageParseError::MalformedChannel(m) => m,
            ServerMessageParseError::MissingPrefix(m) => m,
            ServerMessageParseError::MissingNickname(m) => m,
        }
    }
}

/// The outcome `r` is the value `v`.
pub open spec fn ok_is<T>(r: Result<T, ParseErrorView>, v: T) -> bool {
    r == Ok::<T, ParseErrorView>(v)
}

/// The outcome `r` is the error `e`.
pub open spec fn err_is<T>(r: Result<T, ParseErrorView>, e: ParseErrorView) -> bool {
    r == Err::<T, ParseErrorView>(e)
}

/// The error of an outcome, if it is one.
pub open spec fn fault<T>(r: Result<T, ParseErrorView>) -> Option<ParseErrorView> {
    match r {
        Ok(_) => None,
        Err(e) => Some(e),
    }
}

/// The parameter at `index`.
pub open spec fn param_at(m: IrcMessageView, index: int) -> Result<Seq<char>, ParseErrorView> {
    if 0 <= index < m.params.len() {
        Ok(m.params[index])
    } else {
        Err(ParseErrorView::MissingParameter(m, index))
    }
}

/// The marker that opens the text of an action: U+0001, `ACTION`, a space.
pub open spec fn action_prefix() -> Seq<char> {
    seq!['\u{1}', 'A', 'C', 'T', 'I', 'O', 'N', ' ']
}

/// A text that is wrapped as an action: it opens with the marker and closes
/// with U+0001.
pub open spec fn is_action(t: Seq<char>) -> bool {
    t.len() >= 9 && t.subrange(0, 8) == action_prefix() && t[t.len() - 1] == '\u{1}'
}

/// The text of the second parameter, without the action wrapping if it has
/// one, and whether it had one.
pub open spec fn message_text(m: IrcMessageView) -> Result<(Seq<char>, bool), ParseErrorView> {
    match param_at(m, 1) {
        Ok(t) => if is_action(t) {
            Ok((t.subrange(8, t.len() - 1), true))
        } else {
            Ok((t, false))
        },
        Err(e) => Err(e),
    }
}

/// The value of the tag under `key`, which must be present.
pub open spec fn tag_value(m: IrcMessageView, key: Seq<char>) -> Result<
    Seq<char>,
    ParseErrorView,
> {
    match value_of(m.tags, key) {
        Some(v) => Ok(v),
        None => Err(ParseErrorView::MissingTag(m, key)),
    }
}

/// The value of the tag under `key`, which must be present and not empty.
pub open spec fn nonempty_tag_value(m: IrcMessageView, key: Seq<char>) -> Result<
    Seq<char>,
    ParseErrorView,
> {
    match value_of(m.tags, key) {
        Some(v) => if v.len() == 0 {
            Err(ParseErrorView::MissingTagValue(m, key))
        } else {
            Ok(v)
        },
        None => Err(ParseErrorView::MissingTag(m, key)),
    }
}

/// The value of the tag under `key`, which may be absent but not empty.
pub open spec fn optional_nonempty_tag_value(m: IrcMessageView, key: Seq<char>) -> Result<
    Option<Seq<char>>,
    ParseErrorView,
> {
    match value_of(m.tags, key) {
        Some(v) => if v.len() == 0 {
            Err(ParseErrorView::MissingTagValue(m, key))
        } else {
            Ok(Some(v))
        },
        None => Ok(None),
    }
}

/// A channel parameter: `#` and at least one more character.
pub open spec fn is_channel(p: Seq<char>) -> bool {
    p.len() >= 2 && p[0] == '#'
}

/// The channel name in the first parameter, without its `#`.
pub open spec fn channel_login(m: IrcMessageView) -> Result<Seq<char>, ParseErrorView> {
    match param_at(m, 0) {
        Ok(p) => if is_channel(p) {
            Ok(p.skip(1))
        } else {
            Err(ParseErrorView::MalformedChannel(m))
        },
        Err(e) => Err(e),
    }
}

/// The channel name in the first parameter, where `*` stands for none.
pub open spec fn optional_channel_login(m: IrcMessageView) -> Result<
    Option<Seq<char>>,
    ParseErrorView,
> {
    match param_at(m, 0) {
        Ok(p) => if p == seq!['*'] {
            Ok(None)
        } else if is_channel(p) {
            Ok(Some(p.skip(1)))
        } else {
            Err(ParseErrorView::MalformedChannel(m))
        },
        Err(e) => Err(e),
    }
}

/// The nickname in the prefix.
pub open spec fn prefix_nickname(m: IrcMessageView) -> Result<Seq<char>, ParseErrorView> {
    match m.prefix {
        None => Err(ParseErrorView::MissingPrefix(m)),
        Some(PrefixView::HostOnly { host }) => Err(ParseErrorView::MissingNickname(m)),
        Some(PrefixView::Full { nick, user, host }) => Ok(nick),
    }
}

/// The badge that a `name/version` item stands for.
pub open spec fn badge_of(piece: Seq<char>) -> BadgeView {
    BadgeView { name: before(piece, '/'), version: after(piece, '/') }
}

/// Every piece holds the character `c`.
pub open spec fn all_have(pieces: Seq<Seq<char>>, c: char) -> bool {
    forall|i: int| 0 <= i < pieces.len() ==> has_char(#[trigger] pieces[i], c)
}

/// The badges listed under `key`: comma-separated `name/version` items; an
/// empty value is an empty list.
pub open spec fn badges_of(m: IrcMessageView, key: Seq<char>) -> Result<
    Seq<BadgeView>,
    ParseErrorView,
> {
    match tag_value(m, key) {
        Err(e) => Err(e),
        Ok(v) => if v.len() == 0 {
            Ok(Seq::empty())
        } else if all_have(split(v, ','), '/') {
            Ok(Seq::new(split(v, ',').len(), |i: int| badge_of(split(v, ',')[i])))
        } else {
            Err(ParseErrorView::MalformedTagValue(m, key, v))
        },
    }
}

/// The badges listed under `key`, or none where they cannot be read.
pub open spec fn badges_or_none(m: IrcMessageView, key: Seq<char>) -> Seq<BadgeView> {
    match badges_of(m, key) {
        Ok(b) => b,
        Err(_) => Seq::empty(),
    }
}

/// The items of `s` in order, each only where it first occurs.
pub open spec fn without_repeats(s: Seq<Seq<char>>) -> Seq<Seq<char>>
    decreases s.len(),
{
    if s.len() == 0 {
        Seq::empty()
    } else {
        let d = without_repeats(s.drop_last());
        if d.contains(s.last()) {
            d
        } else {
            d.push(s.last())
        }
    }
}

/// A list without its repeats holds nothing twice, and holds what the list
/// holds.
pub proof fn lemma_without_repeats(s: Seq<Seq<char>>)
    ensures
        without_repeats(s).no_duplicates(),
        forall|x: Seq<char>| #[trigger] without_repeats(s).contains(x) <==> s.contains(x),
    decreases s.len(),
{
    let d = without_repeats(s);
    if s.len() > 0 {
        let init = s.drop_last();
        let last = s.last();
        let e = without_repeats(init);
        lemma_without_repeats(init);
        assert forall|x: Seq<char>| #[trigger] d.contains(x) <==> s.contains(x) by {
            if s.contains(x) {
                let k = choose|k: int| 0 <= k < s.len() && s[k] == x;
                if k < init.len() {
                    assert(init[k] == x);
                    assert(init.contains(x));
                    assert(e.contains(x));
                    let j = choose|j: int| 0 <= j < e.len() && e[j] == x;
                    assert(d[j] == x);
                } else if !e.contains(last) {
                    assert(d[e.len() as int] == x);
                }
            }
            if d.contains(x) {
                let k = choose|k: int| 0 <= k < d.len() && d[k] == x;
                if k < e.len() {
                    assert(e[k] == x);
                    assert(e.contains(x));
                    assert(init.contains(x));
                    let j = choose|j: int| 0 <= j < init.len() && init[j] == x;
                    assert(s[j] == x);
                } else {
                    assert(s[s.len() - 1] == x);
                }
            }
        }
        if !e.contains(last) {
            assert forall|i: int, j: int| 0 <= i < d.len() && 0 <= j < d.len() && i
                != j implies d[i] != d[j] by {
                if i < e.len() && j < e.len() {
                    assert(d[i] == e[i] && d[j] == e[j]);
                } else if i < e.len() {
                    assert(d[i] == e[i]);
                    assert(e.contains(e[i]));
                } else {
                    assert(d[j] == e[j]);
                    assert(e.contains(e[j]));
                }
            }
        }
    } else {
        assert forall|x: Seq<char>| #[trigger] d.contains(x) <==> s.contains(x) by {}
    }
}

/// The emote sets listed under `key`: the comma-separated items, each once;
/// an empty value is an empty list.
pub open spec fn emote_sets_of(m: IrcMessageView, key: Seq<char>) -> Result<
    Seq<Seq<char>>,
    ParseErrorView,
> {
    match tag_value(m, key) {
        Err(e) => Err(e),
        Ok(v) => if v.len() == 0 {
            Ok(Seq::empty())
        } else {
            Ok(without_repeats(split(v, ',')))
        },
    }
}

/// The `u64` under `key`, which must be present.
pub open spec fn u64_of(m: IrcMessageView, key: Seq<char>) -> Result<u64, ParseErrorView> {
    match nonempty_tag_value(m, key) {
        Err(e) => Err(e),
        Ok(v) => match as_u64(v) {
            Some(n) => Ok(n),
            None => Err(ParseErrorView::MalformedTagValue(m, key, v)),
        },
    }
}

/// The `u64` under `key`, which may be absent.
pub open spec fn optional_u64_of(m: IrcMessageView, key: Seq<char>) -> Result<
    Option<u64>,
    ParseErrorView,
> {
    match optional_nonempty_tag_value(m, key) {
        Err(e) => Err(e),
        Ok(None) => Ok(None),
        Ok(Some(v)) => match as_u64(v) {
            Some(n) => Ok(Some(n)),
            None => Err(ParseErrorView::MalformedTagValue(m, key, v)),
        },
    }
}

/// The `i64` under `key`, which may be absent.
pub open spec fn optional_i64_of(m: IrcMessageView, key: Seq<char>) -> Result<
    Option<i64>,
    ParseErrorView,
> {
    match optional_nonempty_tag_value(m, key) {
        Err(e) => Err(e),
        Ok(None) => Ok(None),
        Ok(Some(v)) => match as_i64(v) {
            Some(n) => Ok(Some(n)),
            None => Err(ParseErrorView::MalformedTagValue(m, key, v)),
        },
    }
}

/// The flag under `key`, which must be present: a `u8`, set where it is not
/// zero.
pub open spec fn bool_of(m: IrcMessageView, key: Seq<char>) -> Result<bool, ParseErrorView> {
    match nonempty_tag_value(m, key) {
        Err(e) => Err(e),
        Ok(v) => match as_u8(v) {
            Some(n) => Ok(n > 0),
            None => Err(ParseErrorView::MalformedTagValue(m, key, v)),
        },
    }
}

/// The flag under `key`, which may be absent.
pub open spec fn optional_bool_of(m: IrcMessageView, key: Seq<char>) -> Result<
    Option<bool>,
    ParseErrorView,
> {
    match optional_nonempty_tag_value(m, key) {
        Err(e) => Err(e),
        Ok(None) => Ok(None),
        Ok(Some(v)) => match as_u8(v) {
            Some(n) => Ok(Some(n > 0)),
            None => Err(ParseErrorView::MalformedTagValue(m, key, v)),
        },
    }
}

/// The flag under `key`, unset where the tag is absent.
pub open spec fn flag_of(m: IrcMessageView, key: Seq<char>) -> Result<bool, ParseErrorView> {
    match optional_bool_of(m, key) {
        Err(e) => Err(e),
        Ok(None) => Ok(false),
        Ok(Some(b)) => Ok(b),
    }
}

/// The flag under `key`, unset where it cannot be read.
pub open spec fn bool_or_false(m: IrcMessageView, key: Seq<char>) -> bool {
    match bool_of(m, key) {
        Ok(b) => b,
        Err(_) => false,
    }
}

/// The flag under `key`, if it can be read.
pub open spec fn bool_if_any(m: IrcMessageView, key: Seq<char>) -> Option<bool> {
    match bool_of(m, key) {
        Ok(b) => Some(b),
        Err(_) => None,
    }
}

/// The `u64` under `key`, if it can be read.
pub open spec fn u64_if_any(m: IrcMessageView, key: Seq<char>) -> Option<u64> {
    match u64_of(m, key) {
        Ok(n) => Some(n),
        Err(_) => None,
    }
}

/// The value under `key`, if the tag is present.
pub open spec fn tag_if_any(m: IrcMessageView, key: Seq<char>) -> Option<Seq<char>> {
    value_of(m.tags, key)
}

impl IrcMessage {
    /// The parameter at `index`.
    pub fn try_get_param(&self, index: usize) -> (r: Result<&str, ServerMessageParseError>)
        ensures
            match r {
                Ok(v) => ok_is(param_at(self@, index as int), v@),
                Err(e) => err_is(param_at(self@, index as int), e@),
            },
    {
        if index < self.params.len() {
            Ok(self.params[index].as_str())
        } else {
            Err(ServerMessageParseError::MissingParameter(self.clone(), index))
        }
    }

    /// The text of the second parameter, without the action wrapping if it
    /// has one, and whether it had one.
    pub fn try_get_message_text(&self) -> (r: Result<(String, bool), ServerMessageParseError>)
        ensures
            match r {
                Ok(v) => ok_is(message_text(self@), (v.0@, v.1)),
                Err(e) => err_is(message_text(self@), e@),
            },
    {
        let text = self.try_get_param(1)?;
        let chars = chars_of(text);
        let n = chars.len();
        let wrapped = n >= 9 && chars[0] == '\u{1}' && chars[1] == 'A' && chars[2] == 'C'
            && chars[3] == 'T' && chars[4] == 'I' && chars[5] == 'O' && chars[6] == 'N'
            && chars[7] == ' ' && chars[n - 1] == '\u{1}';
        proof {
            if n >= 9 {
                let head = chars@.subrange(0, 8);
                if wrapped {
                    assert(head =~= action_prefix());
                } else if chars@[n - 1] == '\u{1}' {
                    assert(head[0] == chars@[0] && head[1] == chars@[1] && head[2] == chars@[2]
                        && head[3] == chars@[3] && head[4] == chars@[4] && head[5] == chars@[5]
                        && head[6] == chars@[6] && head[7] == chars@[7]);
                    assert(action_prefix()[0] == '\u{1}');
                    assert(action_prefix()[1] == 'A');
                    assert(action_prefix()[2] == 'C');
                    assert(action_prefix()[3] == 'T');
                    assert(action_prefix()[4] == 'I');
                    assert(action_prefix()[5] == 'O');
                    assert(action_prefix()[6] == 'N');
                    assert(action_prefix()[7] == ' ');
                }
            }
        }
        if wrapped {
            let inner = vstd::slice::slice_subrange(chars.as_slice(), 8, n - 1);
            Ok((string_from_chars(inner), true))
        } else {
            Ok((string_from_chars(chars.as_slice()), false))
        }
    }

    /// The value of the tag under `key`, which must be present.
    pub fn try_get_tag_value(&self, key: &'static str) -> (r: Result<
        &str,
        ServerMessageParseError,
    >)
        ensures
            match r {
                Ok(v) => ok_is(tag_value(self@, key@), v@),
                Err(e) => err_is(tag_value(self@, key@), e@),
            },
    {
        match self.tags.get(key) {
            Some(value) => Ok(value),
            None => Err(ServerMessageParseError::MissingTag(self.clone(), key)),
        }
    }

    /// The value of the tag under `key`, which must be present and not empty.
    pub fn try_get_nonempty_tag_value(&self, key: &'static str) -> (r: Result<
        &str,
        ServerMessageParseError,
    >)
        ensures
            match r {
                Ok(v) => ok_is(nonempty_tag_value(self@, key@), v@),
                Err(e) => err_is(nonempty_tag_value(self@, key@), e@),
            },
    {
        match self.tags.get(key) {
            Some(value) => if value.is_empty() {
                Err(ServerMessageParseError::MissingTagValue(self.clone(), key))
            } else {
                Ok(value)
            },
            None => Err(ServerMessageParseError::MissingTag(self.clone(), key)),
        }
    }

    /// The value of the tag under `key`, which may be absent but not empty.
    pub fn try_get_optional_nonempty_tag_value(&self, key: &'static str) -> (r: Result<
        Option<&str>,
        ServerMessageParseError,
    >)
        ensures
            match r {
                Ok(Some(v)) => ok_is(optional_nonempty_tag_value(self@, key@), Some(v@)),
                Ok(None) => ok_is(optional_nonempty_tag_value(self@, key@), None),
                Err(e) => err_is(optional_nonempty_tag_value(self@, key@), e@),
            },
    {
        match self.tags.get(key) {
            Some(value) => if value.is_empty() {
                Err(ServerMessageParseError::MissingTagValue(self.clone(), key))
            } else {
                Ok(Some(value))
            },
            None => Ok(None),
        }
    }

    /// The channel name in the first parameter, without its `#`.
    pub fn try_get_channel_login(&self) -> (r: Result<String, ServerMessageParseError>)
        ensures
            match r {
                Ok(v) => ok_is(channel_login(self@), v@),
                Err(e) => err_is(channel_login(self@), e@),
            },
    {
        let param = self.try_get_param(0)?;
        let chars = chars_of(param);
        if chars.len() < 2 || chars[0] != '#' {
            return Err(ServerMessageParseError::MalformedChannel(self.clone()));
        }
        let name = vstd::slice::slice_subrange(chars.as_slice(), 1, chars.len());
        proof {
            assert(name@ =~= chars@.skip(1));
        }
        Ok(string_from_chars(name))
    }

    /// The channel name in the first parameter, where `*` stands for none.
    pub fn try_get_optional_channel_login(&self) -> (r: Result<
        Option<String>,
        ServerMessageParseError,
    >)
        ensures
            match r {
                Ok(Some(v)) => ok_is(optional_channel_login(self@), Some(v@)),
                Ok(None) => ok_is(optional_channel_login(self@), None),
                Err(e) => err_is(optional_channel_login(self@), e@),
            },
    {
        let param = self.try_get_param(0)?;
        let chars = chars_of(param);
        if chars.len() == 1 && chars[0] == '*' {
            proof {
                assert(chars@ =~= seq!['*']);
            }
            return Ok(None);
        }
        proof {
            if chars@ == seq!['*'] {
                assert(seq!['*'].len() == 1);
                assert(seq!['*'][0] == '*');
            }
        }
        if chars.len() < 2 || chars[0] != '#' {
            return Err(ServerMessageParseError::MalformedChannel(self.clone()));
        }
        let name = vstd::slice::slice_subrange(chars.as_slice(), 1, chars.len());
        proof {
            assert(name@ =~= chars@.skip(1));
        }
        Ok(Some(string_from_chars(name)))
    }

    /// The nickname in the prefix.
    pub fn try_get_prefix_nickname(&self) -> (r: Result<&str, ServerMessageParseError>)
        ensures
            match r {
                Ok(v) => ok_is(prefix_nickname(self@), v@),
                Err(e) => err_is(prefix_nickname(self@), e@),
            },
    {
        match &self.prefix {
            None => Err(ServerMessageParseError::MissingPrefix(self.clone())),
            Some(IrcPrefix::HostOnly { host: _ }) => Err(
                ServerMessageParseError::MissingNickname(self.clone()),
            ),
            Some(IrcPrefix::Full { nick, user: _, host: _ }) => Ok(nick.as_str()),
        }
    }

    /// The emote sets listed under `tag_key`, each once, in the order in
    /// which they first occur.
    pub fn try_get_emote_sets(&self, tag_key: &'static str) -> (r: Result<
        Vec<String>,
        ServerMessageParseError,
    >)
        ensures
            match r {
                Ok(v) => ok_is(emote_sets_of(self@, tag_key@), strings_view(v@))
                    && strings_view(v@).no_duplicates(),
                Err(e) => err_is(emote_sets_of(self@, tag_key@), e@),
            },
    {
        let src = self.try_get_tag_value(tag_key)?;
        proof {
            lemma_without_repeats(split(src@, ','));
        }
        let mut sets: Vec<String> = Vec::new();
        if src.is_empty() {
            proof {
                assert(strings_view(sets@) =~= Seq::<Seq<char>>::empty());
            }
            return Ok(sets);
        }
        let chars = chars_of(src);
        let pieces = split_all(chars.as_slice(), ',');
        let ghost all = split(src@, ',');
        let mut i: usize = 0;
        proof {
            assert(all.subrange(0, 0) =~= Seq::<Seq<char>>::empty());
            assert(strings_view(sets@) =~= Seq::<Seq<char>>::empty());
        }
        while i < pieces.len()
            invariant
                i <= pieces.len(),
                all == crate::irc::text::slices_view(pieces@),
                strings_view(sets@) == without_repeats(all.subrange(0, i as int)),
            decreases pieces.len() - i,
        {
            let item = string_from_chars(pieces[i]);
            let ghost before_step = strings_view(sets@);
            proof {
                let upto = all.subrange(0, i + 1);
                assert(upto.drop_last() =~= all.subrange(0, i as int));
                assert(upto.last() == item@);
            }
            if !contains_string(&sets, item.as_str()) {
                sets.push(item);
                proof {
                    assert(strings_view(sets@) =~= before_step.push(item@));
                }
            }
            i += 1;
        }
        proof {
            assert(all.subrange(0, all.len() as int) =~= all);
        }
        Ok(sets)
    }

    /// The badges listed under `tag_key`.
    pub fn try_get_badges(&self, tag_key: &'static str) -> (r: Result<
        Vec<Badge>,
        ServerMessageParseError,
    >)
        ensures
            match r {
                Ok(v) => ok_is(badges_of(self@, tag_key@), badges_view(v@)),
                Err(e) => err_is(badges_of(self@, tag_key@), e@),
            },
    {
        let tag_value = self.try_get_tag_value(tag_key)?;
        let mut badges: Vec<Badge> = Vec::new();
        if tag_value.is_empty() {
            proof {
                assert(badges_view(badges@) =~= Seq::<BadgeView>::empty());
            }
            return Ok(badges);
        }
        let chars = chars_of(tag_value);
        let pieces = split_all(chars.as_slice(), ',');
        let ghost all = split(tag_value@, ',');
        let mut i: usize = 0;
        while i < pieces.len()
            invariant
                i <= pieces.len(),
                all == crate::irc::text::slices_view(pieces@),
                all == split(tag_value@, ','),
                tag_value@.len() > 0,
                ok_is(crate::irc::message::extract::tag_value(self@, tag_key@), tag_value@),
                badges@.len() == i,
                forall|j: int| 0 <= j < i ==> has_char(#[trigger] all[j], '/'),
                forall|j: int| 0 <= j < i ==> (#[trigger] badges@[j])@ == badge_of(all[j]),
            decreases pieces.len() - i,
        {
            match split_once(pieces[i], '/') {
                None => {
                    proof {
                        assert(!has_char(all[i as int], '/'));
                    }
                    return Err(
                        ServerMessageParseError::MalformedTagValue(
                            self.clone(),
                            tag_key,
                            tag_value.to_owned(),
                        ),
                    );
                },
                Some((name, version)) => {
                    badges.push(
                        Badge {
                            name: string_from_chars(name),
                            version: string_from_chars(version),
                        },
                    );
                },
            }
            i += 1;
        }
        proof {
            assert(badges_view(badges@) =~= Seq::new(all.len(), |i: int| badge_of(all[i])));
        }
        Ok(badges)
    }

    /// The badges listed under `tag_key`, or none where they cannot be read.
    pub fn get_badges_or_none(&self, tag_key: &'static str) -> (v: Vec<Badge>)
        ensures
            badges_view(v@) == badges_or_none(self@, tag_key@),
    {
        match self.try_get_badges(tag_key) {
            Ok(v) => v,
            Err(_) => {
                let v: Vec<Badge> = Vec::new();
                proof {
                    assert(badges_view(v@) =~= Seq::<BadgeView>::empty());
                }
                v
            },
        }
    }

    /// The colour under `tag_key`, which may be empty.
    pub fn try_get_color(&self, tag_key: &'static str) -> (r: Result<
        &str,
        ServerMessageParseError,
    >)
        ensures
            match r {
                Ok(v) => ok_is(tag_value(self@, tag_key@), v@),
                Err(e) => err_is(tag_value(self@, tag_key@), e@),
            },
    {
        self.try_get_tag_value(tag_key)
    }

    /// The `u64` under `tag_key`, which must be present.
    pub fn try_get_number(&self, tag_key: &'static str) -> (r: Result<
        u64,
        ServerMessageParseError,
    >)
        ensures
            match r {
                Ok(v) => ok_is(u64_of(self@, tag_key@), v),
                Err(e) => err_is(u64_of(self@, tag_key@), e@),
            },
    {
        let tag_value = self.try_get_nonempty_tag_value(tag_key)?;
        let chars = chars_of(tag_value);
        match parse_u64(chars.as_slice()) {
            Some(n) => Ok(n),
            None => Err(
                ServerMessageParseError::MalformedTagValue(
                    self.clone(),
                    tag_key,
                    tag_value.to_owned(),
                ),
            ),
        }
    }

    /// The flag under `tag_key`, which must be present.
    pub fn try_get_bool(&self, tag_key: &'static str) -> (r: Result<
        bool,
        ServerMessageParseError,
    >)
        ensures
            match r {
                Ok(v) => ok_is(bool_of(self@, tag_key@), v),
                Err(e) => err_is(bool_of(self@, tag_key@), e@),
            },
    {
        let tag_value = self.try_get_nonempty_tag_value(tag_key)?;
        let chars = chars_of(tag_value);
        match parse_u8(chars.as_slice()) {
            Some(n) => Ok(n > 0),
            None => Err(
                ServerMessageParseError::MalformedTagValue(
                    self.clone(),
                    tag_key,
                    tag_value.to_owned(),
                ),
            ),
        }
    }

    /// The `u64` under `tag_key`, which may be absent.
    pub fn try_get_optional_number(&self, tag_key: &'static str) -> (r: Result<
        Option<u64>,
        ServerMessageParseError,
    >)
        ensures
            match r {
                Ok(v) => ok_is(optional_u64_of(self@, tag_key@), v),
                Err(e) => err_is(optional_u64_of(self@, tag_key@), e@),
            },
    {
        let tag_value = match self.try_get_optional_nonempty_tag_value(tag_key)? {
            Some(v) => v,
            None => {
                return Ok(None);
            },
        };
        let chars = chars_of(tag_value);
        match parse_u64(chars.as_slice()) {
            Some(n) => Ok(Some(n)),
            None => Err(
                ServerMessageParseError::MalformedTagValue(
                    self.clone(),
                    tag_key,
                    tag_value.to_owned(),
                ),
            ),
        }
    }

    /// The `i64` under `tag_key`, which may be absent.
    pub fn try_get_optional_signed(&self, tag_key: &'static str) -> (r: Result<
        Option<i64>,
        ServerMessageParseError,
    >)
        ensures
            match r {
                Ok(v) => ok_is(optional_i64_of(self@, tag_key@), v),
                Err(e) => err_is(optional_i64_of(self@, tag_key@), e@),
            },
    {
        let tag_value = match self.try_get_optional_nonempty_tag_value(tag_key)? {
            Some(v) => v,
            None => {
                return Ok(None);
            },
        };
        let chars = chars_of(tag_value);
        match parse_i64(chars.as_slice()) {
            Some(n) => Ok(Some(n)),
            None => Err(
                ServerMessageParseError::MalformedTagValue(
                    self.clone(),
                    tag_key,
                    tag_value.to_owned(),
                ),
            ),
        }
    }

    /// The flag under `tag_key`, which may be absent.
    pub fn try_get_optional_bool(&self, tag_key: &'static str) -> (r: Result<
        Option<bool>,
        ServerMessageParseError,
    >)
        ensures
            match r {
                Ok(v) => ok_is(optional_bool_of(self@, tag_key@), v),
                Err(e) => err_is(optional_bool_of(self@, tag_key@), e@),
            },
    {
        let tag_value = match self.try_get_optional_nonempty_tag_value(tag_key)? {
            Some(v) => v,
            None => {
                return Ok(None);
            },
        };
        let chars = chars_of(tag_value);
        match parse_u8(chars.as_slice()) {
            Some(n) => Ok(Some(n > 0)),
            None => Err(
                ServerMessageParseError::MalformedTagValue(
                    self.clone(),
                    tag_key,
                    tag_value.to_owned(),
                ),
            ),
        }
    }

    /// The flag under `tag_key`, unset where the tag is absent.
    pub fn try_get_flag(&self, tag_key: &'static str) -> (r: Result<
        bool,
        ServerMessageParseError,
    >)
        ensures
            match r {
                Ok(v) => ok_is(flag_of(self@, tag_key@), v),
                Err(e) => err_is(flag_of(self@, tag_key@), e@),
            },
    {
        match self.try_get_optional_bool(tag_key)? {
            Some(b) => Ok(b),
            None => Ok(false),
        }
    }

    /// The timestamp under `tag_key`, in milliseconds since the epoch.
    pub fn try_get_timestamp(&self, tag_key: &'static str) -> (r: Result<
        u64,
        ServerMessageParseError,
    >)
        ensures
            match r {
                Ok(v) => ok_is(u64_of(self@, tag_key@), v),
                Err(e) => err_is(u64_of(self@, tag_key@), e@),
            },
    {
        self.try_get_number(tag_key)
    }

    /// The flag under `tag_key`, unset where it cannot be read.
    pub fn get_bool_or_false(&self, tag_key: &'static str) -> (b: bool)
        ensures
            b == bool_or_false(self@, tag_key@),
    {
        match self.try_get_bool(tag_key) {
            Ok(b) => b,
            Err(_) => false,
        }
    }

    /// The flag under `tag_key`, if it can be read.
    pub fn get_bool_if_any(&self, tag_key: &'static str) -> (b: Option<bool>)
        ensures
            b == bool_if_any(self@, tag_key@),
    {
        match self.try_get_bool(tag_key) {
            Ok(b) => Some(b),
            Err(_) => None,
        }
    }

    /// The `u64` under `tag_key`, if it can be read.
    pub fn get_number_if_any(&self, tag_key: &'static str) -> (n: Option<u64>)
        ensures
            n == u64_if_any(self@, tag_key@),
    {
        match self.try_get_number(tag_key) {
            Ok(n) => Some(n),
            Err(_) => None,
        }
    }
}

} // verus!
