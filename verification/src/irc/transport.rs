//! What the transport hands on: a text frame of the socket, cut into lines
//! and parsed.

use vstd::prelude::*;
use crate::irc::message::{parsed_line, IrcMessage, IrcMessageView, IrcParseError};
use crate::irc::text::{after, before, chars_of, has_char, lemma_after_shorter, split_first};

verus! {

/// A line without the CR at its end, if it has one.
pub open spec fn without_cr(line: Seq<char>) -> Seq<char> {
    if line.len() > 0 && line.last() == '\r' {
        line.drop_last()
    } else {
        line
    }
}

/// One line as a sequence: empty for an empty line.
pub open spec fn kept(line: Seq<char>) -> Seq<Seq<char>> {
    if line.len() == 0 {
        Seq::empty()
    } else {
        seq![line]
    }
}

/// The lines of a frame that are not empty, in order. A line ends at an LF,
/// or at a CR before an LF; what follows the last LF is a line too.
pub open spec fn frame_lines(s: Seq<char>) -> Seq<Seq<char>>
    decreases s.len(),
{
    if has_char(s, '\n') {
        proof {
            lemma_after_shorter(s, '\n');
        }
        kept(without_cr(before(s, '\n'))) + frame_lines(after(s, '\n'))
    } else {
        kept(s)
    }
}

/// The result is what the line stands for.
pub open spec fn reads(r: Result<IrcMessage, IrcParseError>, line: Seq<char>) -> bool {
    match r {
        Ok(m) => parsed_line(line) == Ok::<IrcMessageView, IrcParseError>(m@) && m.wf(),
        Err(e) => parsed_line(line) == Err::<IrcMessageView, IrcParseError>(e),
    }
}

/// Parses the lines of one frame: for each line that is not empty, in
/// order, the message it stands for or the fault in it.
pub fn parse_frame(text: &str) -> (results: Vec<Result<IrcMessage, IrcParseError>>)
    ensures
        results@.len() == frame_lines(text@).len(),
        forall|i: int|
            0 <= i < results@.len() ==> reads(#[trigger] results@[i], frame_lines(text@)[i]),
{
    let chars = chars_of(text);
    let mut results: Vec<Result<IrcMessage, IrcParseError>> = Vec::new();
    let mut rest: Option<&[char]> = Some(chars.as_slice());
    let ghost mut done: Seq<Seq<char>> = Seq::empty();
    proof {
        assert(done + frame_lines(text@) =~= frame_lines(text@));
    }
    while rest.is_some()
        invariant
            results@.len() == done.len(),
            forall|i: int| 0 <= i < results@.len() ==> reads(#[trigger] results@[i], done[i]),
            rest matches Some(r) ==> frame_lines(text@) == done + frame_lines(r@),
            rest is None ==> frame_lines(text@) == done,
        decreases
                (match rest {
                    Some(r) => r@.len() + 1,
                    None => 0,
                }),
    {
        let r = rest.unwrap();
        let (raw, tail) = split_first(r, '\n');
        let line = match tail {
            Some(_) => if raw.len() > 0 && raw[raw.len() - 1] == '\r' {
                let cut = vstd::slice::slice_subrange(raw, 0, raw.len() - 1);
                proof {
                    assert(cut@ =~= raw@.drop_last());
                }
                cut
            } else {
                raw
            },
            None => {
                proof {
                    crate::irc::text::lemma_position(r@, '\n');
                    assert(raw@ =~= r@);
                }
                raw
            },
        };
        let ghost before_step = done;
        if line.len() > 0 {
            results.push(IrcMessage::parse_chars(line));
            proof {
                done = done.push(line@);
            }
        }
        proof {
            assert(done =~= before_step + kept(line@));
            match tail {
                Some(t) => {
                    lemma_after_shorter(r@, '\n');
                    assert(before_step + (kept(line@) + frame_lines(t@)) =~= done + frame_lines(
                        t@,
                    ));
                },
                None => {},
            }
        }
        rest = tail;
    }
    results
}

} // verus!
