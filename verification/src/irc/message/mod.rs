//! Raw lines: their parts, the strict parser, and the wire form.

pub mod commands;
pub mod emotes;
pub mod extract;
pub mod laws;
pub mod missing;
pub mod prefix;
pub mod privmsg;
pub mod roundtrip;
pub mod server;
pub mod tags;
pub mod thread;
pub mod twitch;
pub mod usernotice;

use vstd::prelude::*;
use crate::irc::text::{
    after, before, chars_of, find_char, has_char, lemma_after_shorter, push_char, split_first,
    split_once, string_from_chars,
};
pub use commands::{
    ClearChatAction, ClearChatMessage, ClearMsgMessage, FollowersOnlyMode,
    GlobalUserStateMessage, JoinMessage, NoticeMessage, PartMessage, PingMessage, PongMessage,
    ReconnectMessage, RoomStateMessage, UserStateMessage, WhisperMessage,
};
pub use extract::ServerMessageParseError;
use prefix::{parsed_prefix, prefix_text, IrcPrefix, PrefixView};
pub use privmsg::PrivmsgMessage;
pub use server::{HiddenIrcMessage, ServerMessage};
pub use tags::IrcTags;
use tags::{parsed_tags, tags_text};
pub use twitch::{Badge, BasicUser, Emote, Reply, ReplyParent, ReplyThread, Source};
pub use usernotice::{SubGiftPromo, UserNoticeEvent, UserNoticeMessage};

verus! {

/// Why a line is not a well-formed raw message.
#[derive(Debug, Clone, Copy, PartialEq, Eq)]
pub enum IrcParseError {
    /// No space found after tags (no command/prefix)
    NoSpaceAfterTags,
    /// No tags after @ sign
    EmptyTagsDeclaration,
    /// No space found after prefix (no command)
    NoSpaceAfterPrefix,
    /// No tags after : sign
    EmptyPrefixDeclaration,
    /// Expected command to only consist of alphabetic or numeric characters
    MalformedCommand,
    /// Expected only single spaces between middle parameters
    TooManySpacesInMiddleParams,
    /// Newlines are not permitted in raw IRC messages
    NewlinesInMessage,
}

impl IrcParseError {
    /// The sentence that describes the error.
    pub open spec fn sentence(&self) -> Seq<char> {
        match *self {
            IrcParseError::NoSpaceAfterTags => "No space found after tags (no command/prefix)"@,
            IrcParseError::EmptyTagsDeclaration => "No tags after @ sign"@,
            IrcParseError::NoSpaceAfterPrefix => "No space found after prefix (no command)"@,
            IrcParseError::EmptyPrefixDeclaration => "No tags after : sign"@,
            IrcParseError::MalformedCommand => {
                "Expected command to only consist of alphabetic or numeric characters"@
            },
            IrcParseError::TooManySpacesInMiddleParams => {
                "Expected only single spaces between middle parameters"@
            },
            IrcParseError::NewlinesInMessage => "Newlines are not permitted in raw IRC messages"@,
        }
    }

    /// A sentence that describes the error.
    pub fn message(&self) -> (s: &'static str)
        ensures
            s@ == self.sentence(),
    {
        match self {
            IrcParseError::NoSpaceAfterTags => "No space found after tags (no command/prefix)",
            IrcParseError::EmptyTagsDeclaration => "No tags after @ sign",
            IrcParseError::NoSpaceAfterPrefix => "No space found after prefix (no command)",
            IrcParseError::EmptyPrefixDeclaration => "No tags after : sign",
            IrcParseError::MalformedCommand => {
                "Expected command to only consist of alphabetic or numeric characters"
            },
            IrcParseError::TooManySpacesInMiddleParams => {
                "Expected only single spaces between middle parameters"
            },
            IrcParseError::NewlinesInMessage => "Newlines are not permitted in raw IRC messages",
        }
    }
}

/// A value that has a wire form.
pub trait AsRawIrc {
    /// The wire form.
    spec fn raw_irc(&self) -> Seq<char>;

    /// Appends the wire form to `out`.
    fn format_as_raw_irc(&self, out: &mut String)
        ensures
            final(out)@ == old(out)@ + self.raw_irc(),
    ;

    /// The wire form as a string of its own.
    fn as_raw_irc(&self) -> (s: String)
        ensures
            s@ == self.raw_irc(),
    {
        let mut s = String::new();
        self.format_as_raw_irc(&mut s);
        proof {
            assert(Seq::<char>::empty() + self.raw_irc() =~= self.raw_irc());
        }
        s
    }
}

impl AsRawIrc for IrcTags {
    open spec fn raw_irc(&self) -> Seq<char> {
        tags_text(self@)
    }

    fn format_as_raw_irc(&self, out: &mut String) {
        self.write_raw(out);
    }
}

/// The characters of each string of a sequence.
pub open spec fn strings_view(v: Seq<String>) -> Seq<Seq<char>> {
    Seq::new(v.len(), |i: int| v[i]@)
}

/// One line: tags, an optional prefix, a command and its parameters.
#[derive(Debug, PartialEq, Eq)]
pub struct IrcMessage {
    pub tags: IrcTags,
    pub prefix: Option<IrcPrefix>,
    pub command: String,
    pub params: Vec<String>,
}

/// A line as plain character sequences.
pub struct IrcMessageView {
    pub tags: Seq<(Seq<char>, Seq<char>)>,
    pub prefix: Option<PrefixView>,
    pub command: Seq<char>,
    pub params: Seq<Seq<char>>,
}

impl View for IrcMessage {
    type V = IrcMessageView;

    open spec fn view(&self) -> IrcMessageView {
        IrcMessageView {
            tags: self.tags@,
            prefix: match self.prefix {
                Some(p) => Some(p@),
                None => None,
            },
            command: self.command@,
            params: strings_view(self.params@),
        }
    }
}

/// The upper-case form of an ASCII letter; any other character unchanged.
pub open spec fn upper(c: char) -> char {
    if 'a' <= c && c <= 'z' {
        ((c as u8) - 32) as char
    } else {
        c
    }
}

/// A sequence with its ASCII letters in upper case.
pub open spec fn uppercased(s: Seq<char>) -> Seq<char> {
    Seq::new(s.len(), |i: int| upper(s[i]))
}

/// An ASCII letter.
pub open spec fn is_letter(c: char) -> bool {
    ('a' <= c && c <= 'z') || ('A' <= c && c <= 'Z')
}

/// An ASCII digit.
pub open spec fn is_digit(c: char) -> bool {
    '0' <= c && c <= '9'
}

/// A command is not empty and is made of ASCII letters only or of ASCII
/// digits only.
pub open spec fn valid_command(cmd: Seq<char>) -> bool {
    cmd.len() > 0 && ((forall|i: int| 0 <= i < cmd.len() ==> is_letter(#[trigger] cmd[i]))
        || (forall|i: int| 0 <= i < cmd.len() ==> is_digit(#[trigger] cmd[i])))
}

/// `acc` followed by the parameters of `r`, or the error of `r`.
pub open spec fn prepended(
    acc: Seq<Seq<char>>,
    r: Result<Seq<Seq<char>>, IrcParseError>,
) -> Result<Seq<Seq<char>>, IrcParseError> {
    match r {
        Ok(v) => Ok(acc + v),
        Err(e) => Err(e),
    }
}

/// The parameters that the text behind a command's space stands for: a text
/// that starts with `:` is one trailing parameter, taken whole; otherwise the
/// part before the first space is a middle parameter, which must not be
/// empty, and the rest stands for the parameters that follow.
pub open spec fn parsed_params(s: Seq<char>) -> Result<Seq<Seq<char>>, IrcParseError>
    decreases s.len(),
{
    if s.len() > 0 && s[0] == ':' {
        Ok(seq![s.skip(1)])
    } else if before(s, ' ').len() == 0 {
        Err(IrcParseError::TooManySpacesInMiddleParams)
    } else if has_char(s, ' ') {
        proof {
            lemma_after_shorter(s, ' ');
        }
        prepended(seq![before(s, ' ')], parsed_params(after(s, ' ')))
    } else {
        Ok(seq![before(s, ' ')])
    }
}

/// The message that command and parameters complete, given its tags and
/// prefix.
pub open spec fn parsed_command(
    tags: Seq<(Seq<char>, Seq<char>)>,
    prefix: Option<PrefixView>,
    s: Seq<char>,
) -> Result<IrcMessageView, IrcParseError> {
    let command = uppercased(before(s, ' '));
    if !valid_command(command) {
        Err(IrcParseError::MalformedCommand)
    } else if has_char(s, ' ') {
        match parsed_params(after(s, ' ')) {
            Ok(params) => Ok(IrcMessageView { tags, prefix, command, params }),
            Err(e) => Err(e),
        }
    } else {
        Ok(IrcMessageView { tags, prefix, command, params: Seq::empty() })
    }
}

/// The message that prefix, command and parameters complete, given its tags.
pub open spec fn parsed_after_tags(tags: Seq<(Seq<char>, Seq<char>)>, s: Seq<char>) -> Result<
    IrcMessageView,
    IrcParseError,
> {
    if s.len() > 0 && s[0] == ':' {
        let body = s.skip(1);
        if !has_char(body, ' ') {
            Err(IrcParseError::NoSpaceAfterPrefix)
        } else if before(body, ' ').len() == 0 {
            Err(IrcParseError::EmptyPrefixDeclaration)
        } else {
            parsed_command(tags, Some(parsed_prefix(before(body, ' '))), after(body, ' '))
        }
    } else {
        parsed_command(tags, None, s)
    }
}

/// What a line stands for: the message, or the first fault found, looking in
/// turn for a CR or LF, at the tag block behind `@`, at the prefix behind
/// `:`, at the command and at the parameters.
pub open spec fn parsed_line(s: Seq<char>) -> Result<IrcMessageView, IrcParseError> {
    if has_char(s, '\r') || has_char(s, '\n') {
        Err(IrcParseError::NewlinesInMessage)
    } else if s.len() > 0 && s[0] == '@' {
        let body = s.skip(1);
        if !has_char(body, ' ') {
            Err(IrcParseError::NoSpaceAfterTags)
        } else if before(body, ' ').len() == 0 {
            Err(IrcParseError::EmptyTagsDeclaration)
        } else {
            parsed_after_tags(parsed_tags(before(body, ' ')), after(body, ' '))
        }
    } else {
        parsed_after_tags(Seq::empty(), s)
    }
}

/// A parameter that can be written without the `:` sentinel: not empty,
/// without a space, not starting with `:`.
pub open spec fn is_middle(p: Seq<char>) -> bool {
    !has_char(p, ' ') && p.len() > 0 && p[0] != ':'
}

/// The wire form of the parameters: each after a space, the first that needs
/// the sentinel after ` :`, and nothing after that one.
pub open spec fn params_text(params: Seq<Seq<char>>) -> Seq<char>
    decreases params.len(),
{
    if params.len() == 0 {
        Seq::empty()
    } else if is_middle(params[0]) {
        seq![' '] + params[0] + params_text(params.drop_first())
    } else {
        seq![' ', ':'] + params[0]
    }
}

/// The wire form of a message.
pub open spec fn line_text(m: IrcMessageView) -> Seq<char> {
    (if m.tags.len() > 0 {
        seq!['@'] + tags_text(m.tags) + seq![' ']
    } else {
        Seq::empty()
    }) + (match m.prefix {
        Some(p) => seq![':'] + prefix_text(p) + seq![' '],
        None => Seq::empty(),
    }) + m.command + params_text(m.params)
}

/// The upper-case form of an ASCII letter; any other character unchanged.
pub fn to_upper(c: char) -> (u: char)
    ensures
        u == upper(c),
{
    if c >= 'a' && c <= 'z' {
        ((c as u8) - 32) as char
    } else {
        c
    }
}

/// Whether the characters form a valid command.
fn check_command(cmd: &Vec<char>) -> (ok: bool)
    ensures
        ok == valid_command(cmd@),
{
    let mut letters = true;
    let mut digits = true;
    let mut i: usize = 0;
    while i < cmd.len()
        invariant
            i <= cmd.len(),
            letters == (forall|j: int| 0 <= j < i ==> is_letter(#[trigger] cmd@[j])),
            digits == (forall|j: int| 0 <= j < i ==> is_digit(#[trigger] cmd@[j])),
        decreases cmd.len() - i,
    {
        let c = cmd[i];
        if !((c >= 'a' && c <= 'z') || (c >= 'A' && c <= 'Z')) {
            letters = false;
        }
        if !(c >= '0' && c <= '9') {
            digits = false;
        }
        i += 1;
    }
    cmd.len() > 0 && (letters || digits)
}

impl Clone for IrcTags {
    fn clone(&self) -> (r: Self)
        ensures
            r@ == self@,
    {
        let mut entries: Vec<(String, String)> = Vec::new();
        let mut i: usize = 0;
        while i < self.entries.len()
            invariant
                i <= self.entries.len(),
                entries@.len() == i,
                forall|j: int|
                    0 <= j < i ==> entries@[j].0@ == self.entries@[j].0@ && entries@[j].1@
                        == self.entries@[j].1@,
            decreases self.entries.len() - i,
        {
            entries.push((self.entries[i].0.clone(), self.entries[i].1.clone()));
            i += 1;
        }
        let r = IrcTags { entries };
        proof {
            assert(r@ =~= self@);
        }
        r
    }
}

/// A copy of each string.
pub fn clone_strings(v: &Vec<String>) -> (r: Vec<String>)
    ensures
        strings_view(r@) == strings_view(v@),
{
    let mut r: Vec<String> = Vec::new();
    let mut i: usize = 0;
    while i < v.len()
        invariant
            i <= v.len(),
            r@.len() == i,
            forall|j: int| 0 <= j < i ==> r@[j]@ == v@[j]@,
        decreases v.len() - i,
    {
        r.push(v[i].clone());
        i += 1;
    }
    proof {
        assert(strings_view(r@) =~= strings_view(v@));
    }
    r
}

impl Clone for IrcMessage {
    fn clone(&self) -> (r: Self)
        ensures
            r@ == self@,
    {
        IrcMessage {
            tags: self.tags.clone(),
            prefix: match &self.prefix {
                Some(p) => Some(p.clone()),
                None => None,
            },
            command: self.command.clone(),
            params: clone_strings(&self.params),
        }
    }
}

impl IrcMessage {
    /// The tags hold no key twice.
    pub open spec fn wf(&self) -> bool {
        self.tags.wf()
    }

    /// A message without tags and prefix.
    pub fn new_simple(command: String, params: Vec<String>) -> (m: IrcMessage)
        ensures
            m@ == (IrcMessageView {
                tags: Seq::empty(),
                prefix: None,
                command: command@,
                params: strings_view(params@),
            }),
            m.wf(),
    {
        IrcMessage { tags: IrcTags::new(), prefix: None, command, params }
    }

    /// A message of the given parts.
    pub fn new(
        tags: IrcTags,
        prefix: Option<IrcPrefix>,
        command: String,
        params: Vec<String>,
    ) -> (m: IrcMessage)
        ensures
            m.tags == tags,
            m.prefix == prefix,
            m.command == command,
            m.params == params,
    {
        IrcMessage { tags, prefix, command, params }
    }

    /// Parses the parameters behind a command's space.
    fn parse_params(source: &[char]) -> (r: Result<Vec<String>, IrcParseError>)
        ensures
            match r {
                Ok(params) => parsed_params(source@) == Ok::<Seq<Seq<char>>, IrcParseError>(
                    strings_view(params@),
                ),
                Err(e) => parsed_params(source@) == Err::<Seq<Seq<char>>, IrcParseError>(e),
            },
    {
        let mut params: Vec<String> = Vec::new();
        let mut rest: Option<&[char]> = Some(source);
        proof {
            assert(strings_view(params@) =~= Seq::<Seq<char>>::empty());
            lemma_prepended_empty(parsed_params(source@));
        }
        while rest.is_some()
            invariant
                rest matches Some(r) ==> parsed_params(source@) == prepended(
                    strings_view(params@),
                    parsed_params(r@),
                ),
                rest is None ==> parsed_params(source@) == Ok::<Seq<Seq<char>>, IrcParseError>(
                    strings_view(params@),
                ),
            decreases
                    (match rest {
                        Some(r) => r@.len() + 1,
                        None => 0,
                    }),
        {
            let r = rest.unwrap();
            let ghost acc = strings_view(params@);
            if r.len() > 0 && r[0] == ':' {
                let tail = vstd::slice::slice_subrange(r, 1, r.len());
                params.push(string_from_chars(tail));
                proof {
                    assert(tail@ =~= r@.skip(1));
                    assert(strings_view(params@) =~= acc + seq![r@.skip(1)]);
                }
                rest = None;
            } else {
                let (param, tail) = split_first(r, ' ');
                if param.len() == 0 {
                    return Err(IrcParseError::TooManySpacesInMiddleParams);
                }
                params.push(string_from_chars(param));
                proof {
                    assert(strings_view(params@) =~= acc.push(param@));
                    if tail is Some {
                        lemma_after_shorter(r@, ' ');
                        lemma_prepended_push(acc, param@, parsed_params(tail.unwrap()@));
                    } else {
                        assert(acc + seq![param@] =~= acc.push(param@));
                    }
                }
                rest = tail;
            }
        }
        Ok(params)
    }

    /// Parses command and parameters, and completes the message.
    fn parse_command(tags: IrcTags, prefix: Option<IrcPrefix>, source: &[char]) -> (r: Result<
        IrcMessage,
        IrcParseError,
    >)
        requires
            tags.wf(),
        ensures
            match r {
                Ok(m) => Ok::<IrcMessageView, IrcParseError>(m@) == parsed_command(
                    tags@,
                    match prefix {
                        Some(p) => Some(p@),
                        None => None,
                    },
                    source@,
                ) && m.wf(),
                Err(e) => Err::<IrcMessageView, IrcParseError>(e) == parsed_command(
                    tags@,
                    match prefix {
                        Some(p) => Some(p@),
                        None => None,
                    },
                    source@,
                ),
            },
    {
        let (command_src, params_src) = split_first(source, ' ');
        let mut command: Vec<char> = Vec::new();
        let mut i: usize = 0;
        while i < command_src.len()
            invariant
                i <= command_src.len(),
                command@.len() == i,
                forall|j: int| 0 <= j < i ==> command@[j] == upper(command_src@[j]),
            decreases command_src.len() - i,
        {
            command.push(to_upper(command_src[i]));
            i += 1;
        }
        proof {
            assert(command@ =~= uppercased(command_src@));
        }
        if !check_command(&command) {
            return Err(IrcParseError::MalformedCommand);
        }
        let params = match params_src {
            Some(p) => match IrcMessage::parse_params(p) {
                Ok(params) => params,
                Err(e) => {
                    return Err(e);
                },
            },
            None => {
                let v: Vec<String> = Vec::new();
                proof {
                    assert(strings_view(v@) =~= Seq::<Seq<char>>::empty());
                }
                v
            },
        };
        Ok(IrcMessage { tags, prefix, command: string_from_chars(command.as_slice()), params })
    }

    /// Parses prefix, command and parameters, and completes the message.
    fn parse_after_tags(tags: IrcTags, source: &[char]) -> (r: Result<IrcMessage, IrcParseError>)
        requires
            tags.wf(),
        ensures
            match r {
                Ok(m) => Ok::<IrcMessageView, IrcParseError>(m@) == parsed_after_tags(
                    tags@,
                    source@,
                ) && m.wf(),
                Err(e) => Err::<IrcMessageView, IrcParseError>(e) == parsed_after_tags(
                    tags@,
                    source@,
                ),
            },
    {
        if source.len() > 0 && source[0] == ':' {
            let body = vstd::slice::slice_subrange(source, 1, source.len());
            proof {
                assert(body@ =~= source@.skip(1));
            }
            match split_once(body, ' ') {
                None => Err(IrcParseError::NoSpaceAfterPrefix),
                Some((prefix_part, remainder)) => {
                    if prefix_part.len() == 0 {
                        return Err(IrcParseError::EmptyPrefixDeclaration);
                    }
                    let prefix = IrcPrefix::parse_chars(prefix_part);
                    IrcMessage::parse_command(tags, Some(prefix), remainder)
                },
            }
        } else {
            IrcMessage::parse_command(tags, None, source)
        }
    }

    /// Parses the characters of one line.
    pub fn parse_chars(source: &[char]) -> (r: Result<IrcMessage, IrcParseError>)
        ensures
            match r {
                Ok(m) => Ok::<IrcMessageView, IrcParseError>(m@) == parsed_line(source@) && m.wf(),
                Err(e) => Err::<IrcMessageView, IrcParseError>(e) == parsed_line(source@),
            },
    {
        if find_char(source, '\r') < source.len() || find_char(source, '\n') < source.len() {
            return Err(IrcParseError::NewlinesInMessage);
        }
        if source.len() > 0 && source[0] == '@' {
            let body = vstd::slice::slice_subrange(source, 1, source.len());
            proof {
                assert(body@ =~= source@.skip(1));
            }
            match split_once(body, ' ') {
                None => Err(IrcParseError::NoSpaceAfterTags),
                Some((tags_part, remainder)) => {
                    if tags_part.len() == 0 {
                        return Err(IrcParseError::EmptyTagsDeclaration);
                    }
                    let tags = IrcTags::parse_chars(tags_part);
                    IrcMessage::parse_after_tags(tags, remainder)
                },
            }
        } else {
            IrcMessage::parse_after_tags(IrcTags::new(), source)
        }
    }

    /// Parses one line, which holds no CR or LF, into a message, or reports
    /// the first fault in it.
    pub fn parse(source: &str) -> (r: Result<IrcMessage, IrcParseError>)
        ensures
            match r {
                Ok(m) => Ok::<IrcMessageView, IrcParseError>(m@) == parsed_line(source@) && m.wf(),
                Err(e) => Err::<IrcMessageView, IrcParseError>(e) == parsed_line(source@),
            },
    {
        let chars = chars_of(source);
        IrcMessage::parse_chars(chars.as_slice())
    }
}

/// Nothing prepended changes nothing.
pub proof fn lemma_prepended_empty(r: Result<Seq<Seq<char>>, IrcParseError>)
    ensures
        prepended(Seq::empty(), r) == r,
{
    if let Ok(v) = r {
        assert(Seq::<Seq<char>>::empty() + v =~= v);
    }
}

/// Prepending one more parameter and then the rest is prepending all at once.
pub proof fn lemma_prepended_push(
    acc: Seq<Seq<char>>,
    p: Seq<char>,
    r: Result<Seq<Seq<char>>, IrcParseError>,
)
    ensures
        prepended(acc, prepended(seq![p], r)) == prepended(acc.push(p), r),
{
    if let Ok(v) = r {
        assert(acc + (seq![p] + v) =~= acc.push(p) + v);
    }
}

impl IrcMessage {
    /// Appends the wire form of the message to `out`.
    pub fn write_raw(&self, out: &mut String)
        ensures
            final(out)@ == old(out)@ + line_text(self@),
    {
        if !self.tags.is_empty() {
            push_char(out, '@');
            self.tags.write_raw(out);
            push_char(out, ' ');
        }
        if let Some(prefix) = &self.prefix {
            push_char(out, ':');
            prefix.write_raw(out);
            push_char(out, ' ');
        }
        out.append(self.command.as_str());
        let ghost head = out@;
        let ghost all = strings_view(self.params@);
        let mut i: usize = 0;
        let mut done = false;
        proof {
            assert(all.skip(0) =~= all);
        }
        while i < self.params.len() && !done
            invariant
                i <= self.params.len(),
                all == strings_view(self.params@),
                !done ==> head + params_text(all) == out@ + params_text(all.skip(i as int)),
                done ==> head + params_text(all) == out@,
            decreases self.params.len() - i,
        {
            let ghost rest = all.skip(i as int);
            let ghost prev = out@;
            let param = chars_of(self.params[i].as_str());
            proof {
                assert(rest[0] == param@);
                assert(rest.drop_first() =~= all.skip(i + 1));
            }
            let simple = find_char(param.as_slice(), ' ') == param.len() && param.len() > 0
                && param[0] != ':';
            if simple {
                push_char(out, ' ');
                out.append(self.params[i].as_str());
                proof {
                    assert(out@ + params_text(rest.drop_first()) =~= prev + (seq![' '] + param@
                        + params_text(rest.drop_first())));
                }
            } else {
                push_char(out, ' ');
                push_char(out, ':');
                out.append(self.params[i].as_str());
                proof {
                    assert(out@ =~= prev + (seq![' ', ':'] + param@));
                }
                done = true;
            }
            i += 1;
        }
        proof {
            if !done {
                assert(out@ + Seq::<char>::empty() =~= out@);
            }
            assert(out@ =~= old(out)@ + line_text(self@));
        }
    }
}

impl AsRawIrc for IrcMessage {
    open spec fn raw_irc(&self) -> Seq<char> {
        line_text(self@)
    }

    fn format_as_raw_irc(&self, out: &mut String) {
        self.write_raw(out);
    }
}

} // verus!
