//! The sender prefix of a line: a bare host, or `nick[!user]@host`.

use vstd::prelude::*;
use crate::irc::message::AsRawIrc;
use crate::irc::text::{
    after, before, chars_of, has_char, push_char, split_first, string_from_chars,
};

verus! {

/// The sender of a line.
#[derive(Debug, PartialEq, Eq, Hash)]
#[allow(inconsistent_fields)]
pub enum IrcPrefix {
    HostOnly { host: String },
    Full { nick: String, user: Option<String>, host: Option<String> },
}

/// A prefix as plain character sequences.
#[allow(inconsistent_fields)]
pub enum PrefixView {
    HostOnly { host: Seq<char> },
    Full { nick: Seq<char>, user: Option<Seq<char>>, host: Option<Seq<char>> },
}

/// The characters of an optional string.
pub open spec fn option_view(s: Option<String>) -> Option<Seq<char>> {
    match s {
        Some(s) => Some(s@),
        None => None,
    }
}

impl View for IrcPrefix {
    type V = PrefixView;

    open spec fn view(&self) -> PrefixView {
        match *self {
            IrcPrefix::HostOnly { host } => PrefixView::HostOnly { host: host@ },
            IrcPrefix::Full { nick, user, host } => PrefixView::Full {
                nick: nick@,
                user: option_view(user),
                host: option_view(host),
            },
        }
    }
}

/// The prefix that the text behind a line's leading `:` stands for: a text
/// without `@` is a host; otherwise the host follows the first `@`, and the
/// part before it is the nick, with the user behind its first `!` if it has
/// one.
pub open spec fn parsed_prefix(s: Seq<char>) -> PrefixView {
    if !has_char(s, '@') {
        PrefixView::HostOnly { host: s }
    } else {
        let nick_and_user = before(s, '@');
        PrefixView::Full {
            nick: before(nick_and_user, '!'),
            user: if has_char(nick_and_user, '!') {
                Some(after(nick_and_user, '!'))
            } else {
                None
            },
            host: Some(after(s, '@')),
        }
    }
}

/// The wire form of a prefix, without the leading `:`. A user is written only
/// together with a host.
pub open spec fn prefix_text(p: PrefixView) -> Seq<char> {
    match p {
        PrefixView::HostOnly { host } => host,
        PrefixView::Full { nick, user, host } => match host {
            Some(h) => match user {
                Some(u) => nick + seq!['!'] + u + seq!['@'] + h,
                None => nick + seq!['@'] + h,
            },
            None => nick,
        },
    }
}

impl Clone for IrcPrefix {
    fn clone(&self) -> (r: Self)
        ensures
            r@ == self@,
    {
        match self {
            IrcPrefix::HostOnly { host } => IrcPrefix::HostOnly { host: host.clone() },
            IrcPrefix::Full { nick, user, host } => IrcPrefix::Full {
                nick: nick.clone(),
                user: match user {
                    Some(u) => Some(u.clone()),
                    None => None,
                },
                host: match host {
                    Some(h) => Some(h.clone()),
                    None => None,
                },
            },
        }
    }
}

impl IrcPrefix {
    /// Parses the characters behind a line's leading `:`.
    pub fn parse_chars(source: &[char]) -> (p: IrcPrefix)
        ensures
            p@ == parsed_prefix(source@),
    {
        let (nick_and_user, host) = split_first(source, '@');
        match host {
            None => {
                proof {
                    assert(source@.subrange(0, source@.len() as int) =~= source@);
                    crate::irc::text::lemma_position(source@, '@');
                }
                IrcPrefix::HostOnly { host: string_from_chars(source) }
            },
            Some(host) => {
                let (nick, user) = split_first(nick_and_user, '!');
                IrcPrefix::Full {
                    nick: string_from_chars(nick),
                    user: match user {
                        Some(u) => Some(string_from_chars(u)),
                        None => None,
                    },
                    host: Some(string_from_chars(host)),
                }
            },
        }
    }

    /// Parses the text behind a line's leading `:`.
    pub fn parse(source: &str) -> (p: IrcPrefix)
        ensures
            p@ == parsed_prefix(source@),
    {
        let chars = chars_of(source);
        IrcPrefix::parse_chars(chars.as_slice())
    }
}

impl IrcPrefix {
    /// Appends the wire form of the prefix, without the leading `:`, to
    /// `out`.
    pub fn write_raw(&self, out: &mut String)
        ensures
            final(out)@ == old(out)@ + prefix_text(self@),
    {
        match self {
            IrcPrefix::HostOnly { host } => {
                out.append(host.as_str());
            },
            IrcPrefix::Full { nick, user, host } => {
                out.append(nick.as_str());
                if let Some(host) = host {
                    if let Some(user) = user {
                        push_char(out, '!');
                        out.append(user.as_str());
                    }
                    push_char(out, '@');
                    out.append(host.as_str());
                }
                proof {
                    assert(out@ =~= old(out)@ + prefix_text(self@));
                }
            },
        }
    }
}

impl AsRawIrc for IrcPrefix {
    open spec fn raw_irc(&self) -> Seq<char> {
        prefix_text(self@)
    }

    fn format_as_raw_irc(&self, out: &mut String) {
        self.write_raw(out);
    }
}

} // verus!
