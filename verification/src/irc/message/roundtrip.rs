//! Parsing inverts formatting: the wire form of a canonical message parses
//! back into that message.

use vstd::prelude::*;
use crate::irc::message::prefix::{parsed_prefix, prefix_text, PrefixView};
use crate::irc::message::tags::{
    decoded, encoded, escaped, has_key, key_index, lemma_key_index, pair_text, pairs_text,
    parsed_onto, parsed_tags, raw_key, raw_value, tags_text, unescaped, unique_keys, with_pair,
};
use crate::irc::message::{
    is_digit, is_letter, is_middle, line_text, params_text, parsed_after_tags, parsed_command,
    parsed_line, parsed_params, upper, uppercased, valid_command, IrcMessageView, IrcParseError,
};
use crate::irc::text::{
    after, before, has_char, lemma_has_char, lemma_position, lemma_position_is, position,
};

verus! {

/// A character occurs in a concatenation where it occurs in a part.
pub proof fn lemma_has_char_concat(a: Seq<char>, b: Seq<char>, c: char)
    ensures
        has_char(a + b, c) <==> has_char(a, c) || has_char(b, c),
{
    lemma_has_char(a, c);
    lemma_has_char(b, c);
    lemma_has_char(a + b, c);
    let s = a + b;
    if has_char(a, c) {
        let j = choose|j: int| 0 <= j < a.len() && a[j] == c;
        assert(s[j] == c);
    }
    if has_char(b, c) {
        let j = choose|j: int| 0 <= j < b.len() && b[j] == c;
        assert(s[a.len() + j] == c);
    }
    if has_char(s, c) {
        let j = choose|j: int| 0 <= j < s.len() && s[j] == c;
        if j < a.len() {
            assert(a[j] == c);
        } else {
            assert(b[j - a.len()] == c);
        }
    }
}

/// A sequence of one character has exactly that character.
pub proof fn lemma_has_char_single(x: char, c: char)
    ensures
        has_char(seq![x], c) <==> x == c,
{
    lemma_has_char(seq![x], c);
    if x == c {
        assert(seq![x][0] == c);
    }
}

/// Where `c` does not occur in `a`, the text `a`, `c`, `b` splits at that
/// `c`.
pub proof fn lemma_split_at(a: Seq<char>, c: char, b: Seq<char>)
    requires
        !has_char(a, c),
    ensures
        has_char(a + seq![c] + b, c),
        before(a + seq![c] + b, c) == a,
        after(a + seq![c] + b, c) == b,
{
    let s = a + seq![c] + b;
    lemma_has_char(a, c);
    assert(s[a.len() as int] == c);
    assert forall|j: int| 0 <= j < a.len() implies s[j] != c by {
        assert(s[j] == a[j]);
    }
    lemma_position_is(s, c, a.len() as int);
    assert(s.subrange(0, a.len() as int) =~= a);
    assert(s.subrange(a.len() as int + 1, s.len() as int) =~= b);
}

/// A text in which `c` does not occur is all before the first `c`.
pub proof fn lemma_unsplit(s: Seq<char>, c: char)
    requires
        !has_char(s, c),
    ensures
        before(s, c) == s,
        after(s, c) == Seq::<char>::empty(),
{
    lemma_position(s, c);
    assert(s.subrange(0, s.len() as int) =~= s);
}

/// The wire form of a value holds no space, semicolon, CR or LF.
pub proof fn lemma_encoded_clean(v: Seq<char>)
    ensures
        !has_char(encoded(v), ' '),
        !has_char(encoded(v), ';'),
        !has_char(encoded(v), '\r'),
        !has_char(encoded(v), '\n'),
    decreases v.len(),
{
    if v.len() == 0 {
        lemma_has_char(encoded(v), ' ');
        lemma_has_char(encoded(v), ';');
        lemma_has_char(encoded(v), '\r');
        lemma_has_char(encoded(v), '\n');
    } else {
        lemma_encoded_clean(v.skip(1));
        let e = escaped(v[0]);
        lemma_escaped_clean(v[0], ' ');
        lemma_escaped_clean(v[0], ';');
        lemma_escaped_clean(v[0], '\r');
        lemma_escaped_clean(v[0], '\n');
        lemma_has_char_concat(e, encoded(v.skip(1)), ' ');
        lemma_has_char_concat(e, encoded(v.skip(1)), ';');
        lemma_has_char_concat(e, encoded(v.skip(1)), '\r');
        lemma_has_char_concat(e, encoded(v.skip(1)), '\n');
    }
}

/// The wire form of one character holds no space, semicolon, CR or LF.
pub proof fn lemma_escaped_clean(x: char, c: char)
    requires
        c == ' ' || c == ';' || c == '\r' || c == '\n',
    ensures
        !has_char(escaped(x), c),
{
    let e = escaped(x);
    lemma_has_char(e, c);
    if has_char(e, c) {
        let j = choose|j: int| 0 <= j < e.len() && e[j] == c;
        if e.len() == 1 {
            assert(e[0] == x);
        } else {
            assert(e[0] == '\\');
            assert(j == 0 || j == 1);
        }
    }
}

/// Decoding the wire form of a value gives the value.
pub proof fn lemma_decoded_encoded(v: Seq<char>)
    ensures
        decoded(encoded(v)) == v,
    decreases v.len(),
{
    if v.len() == 0 {
        assert(v =~= Seq::<char>::empty());
    } else {
        let rest = v.skip(1);
        lemma_decoded_encoded(rest);
        let e = escaped(v[0]);
        let raw = e + encoded(rest);
        if e.len() == 1 {
            assert(raw[0] == v[0]);
            assert(raw.skip(1) =~= encoded(rest));
            assert(seq![v[0]] + rest =~= v);
        } else {
            assert(raw[0] == '\\');
            assert(raw[1] == e[1]);
            assert(raw.skip(2) =~= encoded(rest));
            assert(unescaped(e[1]) == v[0]);
            assert(seq![v[0]] + rest =~= v);
        }
    }
}

/// A key that can be written as it is: without space, semicolon, `=`, CR
/// and LF.
pub open spec fn clean_key(k: Seq<char>) -> bool {
    !has_char(k, ' ') && !has_char(k, ';') && !has_char(k, '=') && !has_char(k, '\r')
        && !has_char(k, '\n')
}

/// Every key can be written as it is.
pub open spec fn clean_keys(tags: Seq<(Seq<char>, Seq<char>)>) -> bool {
    forall|i: int| 0 <= i < tags.len() ==> clean_key(#[trigger] tags[i].0)
}

/// The wire form of a pair with a clean key holds no space, semicolon, CR
/// or LF, and stands for the pair.
pub proof fn lemma_pair_text(pair: (Seq<char>, Seq<char>))
    requires
        clean_key(pair.0),
    ensures
        !has_char(pair_text(pair), ' '),
        !has_char(pair_text(pair), ';'),
        !has_char(pair_text(pair), '\r'),
        !has_char(pair_text(pair), '\n'),
        raw_key(pair_text(pair)) == pair.0,
        raw_value(pair_text(pair)) == pair.1,
{
    let (k, v) = pair;
    if v.len() > 0 {
        let e = encoded(v);
        lemma_encoded_clean(v);
        lemma_decoded_encoded(v);
        lemma_split_at(k, '=', e);
        let ke = k + seq!['='];
        lemma_has_char_single('=', ' ');
        lemma_has_char_single('=', ';');
        lemma_has_char_single('=', '\r');
        lemma_has_char_single('=', '\n');
        lemma_has_char_concat(k, seq!['='], ' ');
        lemma_has_char_concat(k, seq!['='], ';');
        lemma_has_char_concat(k, seq!['='], '\r');
        lemma_has_char_concat(k, seq!['='], '\n');
        lemma_has_char_concat(ke, e, ' ');
        lemma_has_char_concat(ke, e, ';');
        lemma_has_char_concat(ke, e, '\r');
        lemma_has_char_concat(ke, e, '\n');
    } else {
        lemma_unsplit(k, '=');
        assert(v =~= Seq::<char>::empty());
    }
}

/// Pairs after a first one are written behind a semicolon each.
pub proof fn lemma_pairs_text_later(tags: Seq<(Seq<char>, Seq<char>)>)
    requires
        tags.len() > 0,
    ensures
        pairs_text(tags, false) == seq![';'] + pairs_text(tags, true),
{
    assert(Seq::<char>::empty() + pair_text(tags[0]) + pairs_text(tags.drop_first(), false)
        =~= pair_text(tags[0]) + pairs_text(tags.drop_first(), false));
    assert(seq![';'] + pair_text(tags[0]) + pairs_text(tags.drop_first(), false) =~= seq![';']
        + (pair_text(tags[0]) + pairs_text(tags.drop_first(), false)));
}

/// The wire form of pairs with clean keys holds no space, CR or LF.
pub proof fn lemma_pairs_text_clean(tags: Seq<(Seq<char>, Seq<char>)>, first: bool, c: char)
    requires
        clean_keys(tags),
        c == ' ' || c == '\r' || c == '\n',
    ensures
        !has_char(pairs_text(tags, first), c),
    decreases tags.len(),
{
    if tags.len() == 0 {
        lemma_has_char(pairs_text(tags, first), c);
    } else {
        let rest = tags.drop_first();
        assert forall|i: int| 0 <= i < rest.len() implies clean_key(#[trigger] rest[i].0) by {
            assert(rest[i] == tags[i + 1]);
        }
        lemma_pairs_text_clean(rest, false, c);
        assert(clean_key(tags[0].0));
        lemma_pair_text(tags[0]);
        let sep = if first {
            Seq::<char>::empty()
        } else {
            seq![';']
        };
        lemma_has_char(sep, c);
        if !first {
            lemma_has_char_single(';', c);
        }
        lemma_has_char_concat(sep, pair_text(tags[0]), c);
        lemma_has_char_concat(sep + pair_text(tags[0]), pairs_text(rest, false), c);
    }
}

/// No key of `tags` is a key of `acc`.
pub open spec fn fresh_keys(
    acc: Seq<(Seq<char>, Seq<char>)>,
    tags: Seq<(Seq<char>, Seq<char>)>,
) -> bool {
    forall|i: int, j: int| 0 <= i < acc.len() && 0 <= j < tags.len() ==> acc[i].0 != tags[j].0
}

/// Parsing the wire form of pairs with clean keys, none of them twice and
/// none stored yet, stores the pairs in their order.
pub proof fn lemma_parsed_onto_pairs(
    acc: Seq<(Seq<char>, Seq<char>)>,
    tags: Seq<(Seq<char>, Seq<char>)>,
)
    requires
        tags.len() > 0,
        clean_keys(tags),
        unique_keys(tags),
        fresh_keys(acc, tags),
    ensures
        parsed_onto(acc, pairs_text(tags, true)) == acc + tags,
    decreases tags.len(),
{
    let first = tags[0];
    let rest = tags.drop_first();
    let text = pairs_text(tags, true);
    assert(clean_key(first.0));
    lemma_pair_text(first);
    lemma_key_index(acc, first.0);
    if has_key(acc, first.0) {
        assert(acc[key_index(acc, first.0)].0 == tags[0].0);
    }
    let stored = acc.push(first);
    assert(with_pair(acc, first.0, first.1) == stored);
    if rest.len() == 0 {
        assert(pairs_text(rest, false) =~= Seq::<char>::empty());
        assert(text =~= pair_text(first));
        lemma_unsplit(text, ';');
        assert(tags =~= seq![first]);
        assert(acc + tags =~= stored);
    } else {
        lemma_pairs_text_later(rest);
        let tail = pairs_text(rest, true);
        assert(text =~= pair_text(first) + seq![';'] + tail);
        lemma_split_at(pair_text(first), ';', tail);
        assert forall|i: int| 0 <= i < rest.len() implies clean_key(#[trigger] rest[i].0) by {
            assert(rest[i] == tags[i + 1]);
        }
        assert forall|i: int, j: int| 0 <= i < j < rest.len() implies rest[i].0 != rest[j].0 by {
            assert(rest[i] == tags[i + 1] && rest[j] == tags[j + 1]);
        }
        assert forall|i: int, j: int|
            0 <= i < stored.len() && 0 <= j < rest.len() implies stored[i].0 != rest[j].0 by {
            assert(rest[j] == tags[j + 1]);
            if i < acc.len() {
                assert(stored[i] == acc[i]);
            } else {
                assert(stored[i] == tags[0]);
            }
        }
        lemma_parsed_onto_pairs(stored, rest);
        assert(stored + rest =~= acc + tags);
    }
}

/// The wire form of a tag block with clean keys, none of them twice, parses
/// back into the pairs.
pub proof fn lemma_tags_round_trip(tags: Seq<(Seq<char>, Seq<char>)>)
    requires
        tags.len() > 0,
        clean_keys(tags),
        unique_keys(tags),
    ensures
        parsed_tags(tags_text(tags)) == tags,
        !has_char(tags_text(tags), ' '),
        !has_char(tags_text(tags), '\r'),
        !has_char(tags_text(tags), '\n'),
{
    lemma_parsed_onto_pairs(Seq::empty(), tags);
    assert(Seq::<(Seq<char>, Seq<char>)>::empty() + tags =~= tags);
    lemma_pairs_text_clean(tags, true, ' ');
    lemma_pairs_text_clean(tags, true, '\r');
    lemma_pairs_text_clean(tags, true, '\n');
}

/// A text without space, CR and LF.
pub open spec fn plain(s: Seq<char>) -> bool {
    !has_char(s, ' ') && !has_char(s, '\r') && !has_char(s, '\n')
}

/// A text without CR and LF.
pub open spec fn one_line(s: Seq<char>) -> bool {
    !has_char(s, '\r') && !has_char(s, '\n')
}

/// A concatenation is plain where its parts are.
pub proof fn lemma_plain_concat(a: Seq<char>, b: Seq<char>)
    ensures
        plain(a + b) <==> plain(a) && plain(b),
        one_line(a + b) <==> one_line(a) && one_line(b),
{
    lemma_has_char_concat(a, b, ' ');
    lemma_has_char_concat(a, b, '\r');
    lemma_has_char_concat(a, b, '\n');
}

/// One character that is no space, CR or LF is plain.
pub proof fn lemma_plain_single(x: char)
    ensures
        plain(seq![x]) <==> x != ' ' && x != '\r' && x != '\n',
        one_line(seq![x]) <==> x != '\r' && x != '\n',
{
    lemma_has_char_single(x, ' ');
    lemma_has_char_single(x, '\r');
    lemma_has_char_single(x, '\n');
}

/// A prefix that can be written and read back: a host without `@`, or a
/// nick with a host and maybe a user, where nick and user hold no `@`, the
/// nick no `!`, and no part a space, CR or LF.
pub open spec fn canonical_prefix(p: PrefixView) -> bool {
    match p {
        PrefixView::HostOnly { host } => host.len() > 0 && !has_char(host, '@') && plain(host),
        PrefixView::Full { nick, user, host } => {
            &&& host matches Some(h) && plain(h)
            &&& plain(nick) && !has_char(nick, '@') && !has_char(nick, '!')
            &&& user matches Some(u) ==> plain(u) && !has_char(u, '@')
        },
    }
}

/// The wire form of a canonical prefix is plain, not empty, and parses back
/// into the prefix.
pub proof fn lemma_prefix_round_trip(p: PrefixView)
    requires
        canonical_prefix(p),
    ensures
        parsed_prefix(prefix_text(p)) == p,
        plain(prefix_text(p)),
        prefix_text(p).len() > 0,
{
    match p {
        PrefixView::HostOnly { host } => {},
        PrefixView::Full { nick, user, host } => {
            let h = host->0;
            lemma_plain_single('@');
            lemma_plain_single('!');
            match user {
                Some(u) => {
                    let nu = nick + seq!['!'] + u;
                    let text = nu + seq!['@'] + h;
                    lemma_has_char_single('!', '@');
                    lemma_has_char_concat(nick, seq!['!'], '@');
                    lemma_has_char_concat(nick + seq!['!'], u, '@');
                    lemma_split_at(nu, '@', h);
                    lemma_split_at(nick, '!', u);
                    lemma_plain_concat(nick, seq!['!']);
                    lemma_plain_concat(nick + seq!['!'], u);
                    lemma_plain_concat(nu, seq!['@']);
                    lemma_plain_concat(nu + seq!['@'], h);
                    assert(prefix_text(p) == text);
                },
                None => {
                    let text = nick + seq!['@'] + h;
                    lemma_split_at(nick, '@', h);
                    lemma_unsplit(nick, '!');
                    lemma_plain_concat(nick, seq!['@']);
                    lemma_plain_concat(nick + seq!['@'], h);
                    assert(prefix_text(p) == text);
                },
            }
        },
    }
}

/// Parameters that can be written and read back: none holds a CR or LF,
/// and each but the last can be written without the sentinel.
pub open spec fn canonical_params(params: Seq<Seq<char>>) -> bool {
    forall|i: int|
        0 <= i < params.len() ==> one_line(#[trigger] params[i]) && (i < params.len() - 1
            ==> is_middle(params[i]))
}

/// The wire form of canonical parameters, of which there is one at least,
/// starts with a space, holds no CR or LF, and what follows the space parses
/// back into the parameters.
pub proof fn lemma_params_round_trip(params: Seq<Seq<char>>)
    requires
        params.len() > 0,
        canonical_params(params),
    ensures
        params_text(params).len() > 0,
        params_text(params)[0] == ' ',
        one_line(params_text(params)),
        parsed_params(params_text(params).skip(1)) == Ok::<Seq<Seq<char>>, IrcParseError>(
            params,
        ),
    decreases params.len(),
{
    let first = params[0];
    let rest = params.drop_first();
    let text = params_text(params);
    assert(one_line(first));
    lemma_plain_single(' ');
    lemma_plain_single(':');
    if !is_middle(first) {
        assert(params.len() == 1);
        assert(text == seq![' ', ':'] + first);
        assert(seq![' ', ':'] =~= seq![' '] + seq![':']);
        lemma_plain_concat(seq![' '], seq![':']);
        lemma_plain_concat(seq![' ', ':'], first);
        let body = text.skip(1);
        assert(body =~= seq![':'] + first);
        assert(body[0] == ':');
        assert(body.skip(1) =~= first);
        assert(params =~= seq![first]);
    } else {
        lemma_plain_concat(seq![' '], first);
        lemma_plain_concat(seq![' '] + first, params_text(rest));
        let body = text.skip(1);
        assert(body =~= first + params_text(rest));
        assert(body[0] == first[0]);
        if rest.len() == 0 {
            assert(params_text(rest) =~= Seq::<char>::empty());
            lemma_has_char(params_text(rest), '\r');
            lemma_has_char(params_text(rest), '\n');
            assert(body =~= first);
            lemma_unsplit(first, ' ');
            assert(params =~= seq![first]);
        } else {
            assert forall|i: int| 0 <= i < rest.len() implies one_line(#[trigger] rest[i]) && (i
                < rest.len() - 1 ==> is_middle(rest[i])) by {
                assert(rest[i] == params[i + 1]);
            }
            lemma_params_round_trip(rest);
            let later = params_text(rest);
            assert(later =~= seq![' '] + later.skip(1));
            assert(body =~= first + seq![' '] + later.skip(1));
            lemma_split_at(first, ' ', later.skip(1));
            assert(seq![first] + rest =~= params);
        }
    }
}

/// A command that can be written and read back: ASCII upper-case letters
/// only, or ASCII digits only, and one at least.
pub open spec fn canonical_command(command: Seq<char>) -> bool {
    valid_command(command) && forall|i: int|
        0 <= i < command.len() ==> !('a' <= #[trigger] command[i] && command[i] <= 'z')
}

/// A canonical command is plain, reads as itself in upper case, and does
/// not start like a tag block or a prefix.
pub proof fn lemma_command(command: Seq<char>)
    requires
        canonical_command(command),
    ensures
        plain(command),
        uppercased(command) == command,
        command[0] != '@',
        command[0] != ':',
{
    assert(uppercased(command) =~= command);
    lemma_has_char(command, ' ');
    lemma_has_char(command, '\r');
    lemma_has_char(command, '\n');
    assert(is_letter(command[0]) || is_digit(command[0]));
    assert forall|j: int| 0 <= j < command.len() implies command[j] != ' ' && command[j] != '\r'
        && command[j] != '\n' by {
        assert(is_letter(command[j]) || is_digit(command[j]));
    }
}

/// A message that can be written and read back. Its tags, if it has any,
/// have clean keys, none of them twice, and are not a lone empty key
/// without a value; its prefix, if it has one, its command and its
/// parameters are canonical.
pub open spec fn canonical(m: IrcMessageView) -> bool {
    &&& clean_keys(m.tags)
    &&& unique_keys(m.tags)
    &&& m.tags.len() > 0 ==> tags_text(m.tags).len() > 0
    &&& m.prefix matches Some(p) ==> canonical_prefix(p)
    &&& canonical_command(m.command)
    &&& canonical_params(m.params)
}

/// Command and parameters of a canonical message parse back.
pub proof fn lemma_command_round_trip(
    tags: Seq<(Seq<char>, Seq<char>)>,
    prefix: Option<PrefixView>,
    m: IrcMessageView,
)
    requires
        canonical_command(m.command),
        canonical_params(m.params),
    ensures
        parsed_command(tags, prefix, m.command + params_text(m.params)) == Ok::<
            IrcMessageView,
            IrcParseError,
        >(IrcMessageView { tags, prefix, command: m.command, params: m.params }),
        one_line(m.command + params_text(m.params)),
        (m.command + params_text(m.params))[0] == m.command[0],
{
    let text = m.command + params_text(m.params);
    lemma_command(m.command);
    if m.params.len() == 0 {
        assert(params_text(m.params) =~= Seq::<char>::empty());
        assert(text =~= m.command);
        lemma_unsplit(m.command, ' ');
        assert(m.params =~= Seq::<Seq<char>>::empty());
    } else {
        lemma_params_round_trip(m.params);
        let later = params_text(m.params);
        assert(later =~= seq![' '] + later.skip(1));
        assert(text =~= m.command + seq![' '] + later.skip(1));
        lemma_split_at(m.command, ' ', later.skip(1));
        lemma_plain_concat(m.command, later);
    }
}

/// Parsing inverts formatting: the wire form of a canonical message holds
/// no CR or LF and parses back into that message.
pub proof fn law_parse_inverts_format(m: IrcMessageView)
    requires
        canonical(m),
    ensures
        parsed_line(line_text(m)) == Ok::<IrcMessageView, IrcParseError>(m),
        one_line(line_text(m)),
{
    let tail = m.command + params_text(m.params);
    lemma_command(m.command);
    lemma_plain_single(':');
    lemma_plain_single('@');
    lemma_plain_single(' ');
    let prefix_part = match m.prefix {
        Some(p) => seq![':'] + prefix_text(p) + seq![' '],
        None => Seq::<char>::empty(),
    };
    let tags_part = if m.tags.len() > 0 {
        seq!['@'] + tags_text(m.tags) + seq![' ']
    } else {
        Seq::<char>::empty()
    };
    let middle = prefix_part + tail;
    let line = line_text(m);
    assert(line =~= tags_part + middle);
    lemma_command_round_trip(m.tags, m.prefix, m);
    // prefix, command and parameters
    match m.prefix {
        Some(p) => {
            lemma_prefix_round_trip(p);
            let text = prefix_text(p);
            assert(middle[0] == ':');
            assert(middle.skip(1) =~= text + seq![' '] + tail);
            lemma_split_at(text, ' ', tail);
            lemma_plain_concat(seq![':'], text);
            lemma_plain_concat(seq![':'] + text, seq![' ']);
            lemma_plain_concat(prefix_part, tail);
        },
        None => {
            assert(middle =~= tail);
        },
    }
    assert(parsed_after_tags(m.tags, middle) == Ok::<IrcMessageView, IrcParseError>(m));
    assert(one_line(middle));
    assert(middle[0] != '@');
    // tags
    if m.tags.len() > 0 {
        lemma_tags_round_trip(m.tags);
        let text = tags_text(m.tags);
        assert(line[0] == '@');
        assert(line.skip(1) =~= text + seq![' '] + middle);
        lemma_split_at(text, ' ', middle);
        lemma_plain_concat(seq!['@'], text);
        lemma_plain_concat(seq!['@'] + text, seq![' ']);
        lemma_plain_concat(tags_part, middle);
    } else {
        assert(line =~= middle);
        assert(m.tags =~= Seq::<(Seq<char>, Seq<char>)>::empty());
    }
}

/// A line that is the wire form of a canonical message comes out of parsing
/// and formatting as it went in.
pub proof fn law_canonical_line_round_trips(line: Seq<char>, m: IrcMessageView)
    requires
        canonical(m),
        line == line_text(m),
    ensures
        parsed_line(line) matches Ok(parsed) && line_text(parsed) == line,
{
    law_parse_inverts_format(m);
}

/// A character that does not occur in a text occurs in no part of it.
pub proof fn lemma_part_clean(s: Seq<char>, i: int, j: int, x: char)
    requires
        0 <= i <= j <= s.len(),
        !has_char(s, x),
    ensures
        !has_char(s.subrange(i, j), x),
{
    let part = s.subrange(i, j);
    lemma_has_char(s, x);
    lemma_has_char(part, x);
    if has_char(part, x) {
        let k = choose|k: int| 0 <= k < part.len() && part[k] == x;
        assert(s[i + k] == x);
    }
}

/// A character that does not occur in a text occurs neither before nor
/// behind the first `c` in it.
pub proof fn lemma_sides_clean(s: Seq<char>, c: char, x: char)
    requires
        !has_char(s, x),
    ensures
        !has_char(before(s, c), x),
        !has_char(after(s, c), x),
{
    lemma_position(s, c);
    lemma_part_clean(s, 0, position(s, c), x);
    if has_char(s, c) {
        lemma_part_clean(s, position(s, c) + 1, s.len() as int, x);
    } else {
        lemma_has_char(after(s, c), x);
    }
}

/// No `c` occurs before the first `c`.
pub proof fn lemma_before_clean(s: Seq<char>, c: char)
    ensures
        !has_char(before(s, c), c),
{
    if has_char(s, c) {
        crate::irc::text::lemma_after_shorter(s, c);
    } else {
        lemma_unsplit(s, c);
    }
}

/// The sides of a plain text are plain.
pub proof fn lemma_sides_plain(s: Seq<char>, c: char)
    requires
        plain(s),
    ensures
        plain(before(s, c)),
        plain(after(s, c)),
{
    lemma_sides_clean(s, c, ' ');
    lemma_sides_clean(s, c, '\r');
    lemma_sides_clean(s, c, '\n');
}

/// Storing a pair with a clean key among clean keys leaves the keys clean.
pub proof fn lemma_with_pair_clean(
    acc: Seq<(Seq<char>, Seq<char>)>,
    key: Seq<char>,
    value: Seq<char>,
)
    requires
        clean_keys(acc),
        clean_key(key),
    ensures
        clean_keys(with_pair(acc, key, value)),
{
    lemma_key_index(acc, key);
    let stored = with_pair(acc, key, value);
    assert forall|i: int| 0 <= i < stored.len() implies clean_key(#[trigger] stored[i].0) by {
        if has_key(acc, key) {
            if i != key_index(acc, key) {
                assert(stored[i] == acc[i]);
            }
        } else if i < acc.len() {
            assert(stored[i] == acc[i]);
        }
    }
}

/// Parsing a plain tag block onto clean keys, none of them twice, gives
/// clean keys, none of them twice.
pub proof fn lemma_parsed_onto_canonical(acc: Seq<(Seq<char>, Seq<char>)>, s: Seq<char>)
    requires
        clean_keys(acc),
        unique_keys(acc),
        plain(s),
    ensures
        clean_keys(parsed_onto(acc, s)),
        unique_keys(parsed_onto(acc, s)),
    decreases s.len(),
{
    let raw = before(s, ';');
    lemma_sides_plain(s, ';');
    lemma_before_clean(s, ';');
    lemma_sides_plain(raw, '=');
    lemma_sides_clean(raw, '=', ';');
    lemma_before_clean(raw, '=');
    let key = raw_key(raw);
    assert(clean_key(key));
    let next = with_pair(acc, key, raw_value(raw));
    lemma_with_pair_clean(acc, key, raw_value(raw));
    crate::irc::message::tags::lemma_with_pair_unique(acc, key, raw_value(raw));
    if has_char(s, ';') {
        crate::irc::text::lemma_after_shorter(s, ';');
        lemma_parsed_onto_canonical(next, after(s, ';'));
    }
}

/// The prefix that a plain text, which is not empty, stands for is
/// canonical.
pub proof fn lemma_parsed_prefix_canonical(s: Seq<char>)
    requires
        plain(s),
        s.len() > 0,
    ensures
        canonical_prefix(parsed_prefix(s)),
{
    if has_char(s, '@') {
        let nu = before(s, '@');
        lemma_sides_plain(s, '@');
        lemma_before_clean(s, '@');
        lemma_sides_plain(nu, '!');
        lemma_before_clean(nu, '!');
        lemma_sides_clean(nu, '!', '@');
    }
}

/// A command in upper case holds no lower-case letter, and is valid where
/// the command was.
pub proof fn lemma_uppercased_canonical(command: Seq<char>)
    requires
        valid_command(uppercased(command)),
    ensures
        canonical_command(uppercased(command)),
{
    let u = uppercased(command);
    assert forall|i: int| 0 <= i < u.len() implies !('a' <= #[trigger] u[i] && u[i] <= 'z') by {
        let c = command[i];
        assert(u[i] == upper(c));
        if 'a' <= c && c <= 'z' {
            assert(upper(c) as int == c as int - 32);
        }
    }
}

/// The parameters that a text without CR and LF stands for are canonical.
pub proof fn lemma_parsed_params_canonical(s: Seq<char>)
    requires
        one_line(s),
    ensures
        parsed_params(s) matches Ok(params) ==> canonical_params(params) && params.len() > 0,
    decreases s.len(),
{
    if let Ok(params) = parsed_params(s) {
        if s.len() > 0 && s[0] == ':' {
            lemma_part_clean(s, 1, s.len() as int, '\r');
            lemma_part_clean(s, 1, s.len() as int, '\n');
            assert(s.skip(1) =~= s.subrange(1, s.len() as int));
            assert(params[0] == s.skip(1));
        } else {
            let first = before(s, ' ');
            lemma_sides_clean(s, ' ', '\r');
            lemma_sides_clean(s, ' ', '\n');
            lemma_before_clean(s, ' ');
            lemma_position(s, ' ');
            assert(first[0] == s[0]);
            assert(is_middle(first));
            if has_char(s, ' ') {
                crate::irc::text::lemma_after_shorter(s, ' ');
                lemma_parsed_params_canonical(after(s, ' '));
                let rest = parsed_params(after(s, ' '))->Ok_0;
                assert(params == seq![first] + rest);
                assert forall|i: int| 0 <= i < params.len() implies one_line(#[trigger] params[i])
                    && (i < params.len() - 1 ==> is_middle(params[i])) by {
                    if i > 0 {
                        assert(params[i] == rest[i - 1]);
                    }
                }
            } else {
                assert(params[0] == first);
            }
        }
    }
}

/// A message that a line stands for is canonical, but for one case: tags
/// that are a lone empty key without a value, which have no wire form.
pub proof fn lemma_parsed_line_canonical(s: Seq<char>)
    ensures
        parsed_line(s) matches Ok(m) ==> clean_keys(m.tags) && unique_keys(m.tags) && (
        m.prefix matches Some(p) ==> canonical_prefix(p)) && canonical_command(m.command)
            && canonical_params(m.params),
{
    if let Ok(m) = parsed_line(s) {
        let after_tags = if s.len() > 0 && s[0] == '@' {
            let body = s.skip(1);
            assert(body =~= s.subrange(1, s.len() as int));
            lemma_part_clean(s, 1, s.len() as int, '\r');
            lemma_part_clean(s, 1, s.len() as int, '\n');
            lemma_sides_clean(body, ' ', '\r');
            lemma_sides_clean(body, ' ', '\n');
            lemma_before_clean(body, ' ');
            lemma_parsed_onto_canonical(Seq::empty(), before(body, ' '));
            after(body, ' ')
        } else {
            s
        };
        assert(one_line(after_tags));
        let rest = if after_tags.len() > 0 && after_tags[0] == ':' {
            let body = after_tags.skip(1);
            assert(body =~= after_tags.subrange(1, after_tags.len() as int));
            lemma_part_clean(after_tags, 1, after_tags.len() as int, '\r');
            lemma_part_clean(after_tags, 1, after_tags.len() as int, '\n');
            lemma_sides_clean(body, ' ', '\r');
            lemma_sides_clean(body, ' ', '\n');
            lemma_before_clean(body, ' ');
            lemma_parsed_prefix_canonical(before(body, ' '));
            after(body, ' ')
        } else {
            after_tags
        };
        assert(one_line(rest));
        lemma_uppercased_canonical(before(rest, ' '));
        if has_char(rest, ' ') {
            lemma_sides_clean(rest, ' ', '\r');
            lemma_sides_clean(rest, ' ', '\n');
            lemma_parsed_params_canonical(after(rest, ' '));
        }
    }
}

/// What parsing gives is stable: the message that a line stands for has a
/// wire form which stands for the same message. The one exception is a
/// message whose tags are a lone empty key without a value, which have no
/// wire form.
pub proof fn law_reparse_is_stable(line: Seq<char>)
    ensures
        parsed_line(line) matches Ok(m) ==> (m.tags.len() > 0 ==> tags_text(m.tags).len() > 0)
            ==> parsed_line(line_text(m)) == Ok::<IrcMessageView, IrcParseError>(m),
{
    lemma_parsed_line_canonical(line);
    if let Ok(m) = parsed_line(line) {
        if m.tags.len() > 0 ==> tags_text(m.tags).len() > 0 {
            law_parse_inverts_format(m);
        }
    }
}

} // verus!
