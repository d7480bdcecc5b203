//! Splitting captured text into lines.
//!
//! A line ends at a line feed, or at a carriage return directly followed by
//! a line feed; the terminator is not part of the line. The last line needs
//! no terminator, and a terminator at the very end starts no further line.

use crate::text::push_char;
use vstd::prelude::*;

verus! {

/// The line feed, which ends a line.
pub open spec fn is_line_feed(c: char) -> bool {
    c == '\n'
}

/// The position of the first line feed in `text`, or the length of `text`
/// where it holds none.
pub open spec fn first_line_feed(text: Seq<char>) -> nat
    decreases text.len(),
{
    if text.len() == 0 || is_line_feed(text[0]) {
        0
    } else {
        1 + first_line_feed(text.skip(1))
    }
}

/// A line as it stood before its line feed, without the carriage return
/// that belongs to the terminator.
pub open spec fn without_carriage_return(line: Seq<char>) -> Seq<char> {
    if line.len() > 0 && line.last() == '\r' {
        line.drop_last()
    } else {
        line
    }
}

/// The lines of `text`, in the order in which they stand in it.
pub open spec fn lines_of(text: Seq<char>) -> Seq<Seq<char>>
    decreases text.len(),
{
    if text.len() == 0 {
        Seq::empty()
    } else {
        let end = first_line_feed(text) as int;
        if end >= text.len() {
            seq![text]
        } else {
            seq![without_carriage_return(text.take(end))] + lines_of(text.skip(end + 1))
        }
    }
}

/// No character of `text` is a line feed.
pub open spec fn free_of_line_feeds(text: Seq<char>) -> bool {
    forall|i: int| 0 <= i < text.len() ==> !is_line_feed(#[trigger] text[i])
}

/// The characters of each string of `lines`.
pub open spec fn lines_view(lines: Seq<String>) -> Seq<Seq<char>> {
    lines.map_values(|line: String| line@)
}

/// `first_line_feed` is the least position that holds a line feed.
pub proof fn lemma_first_line_feed(text: Seq<char>)
    ensures
        first_line_feed(text) <= text.len(),
        first_line_feed(text) < text.len() ==> is_line_feed(text[first_line_feed(text) as int]),
        free_of_line_feeds(text.take(first_line_feed(text) as int)),
    decreases text.len(),
{
    if text.len() == 0 || is_line_feed(text[0]) {
    } else {
        let rest = text.skip(1);
        lemma_first_line_feed(rest);
        let end = first_line_feed(text) as int;
        assert forall|i: int| 0 <= i < text.take(end).len() implies !is_line_feed(
            #[trigger] text.take(end)[i],
        ) by {
            if i > 0 {
                assert(text.take(end)[i] == rest.take(end - 1)[i - 1]);
            }
        }
    }
}

/// In front of a text, a part without line feeds moves the first line feed
/// back by its length.
pub proof fn lemma_first_line_feed_after(head: Seq<char>, tail: Seq<char>)
    requires
        free_of_line_feeds(head),
    ensures
        first_line_feed(head + tail) == head.len() + first_line_feed(tail),
    decreases head.len(),
{
    if head.len() > 0 {
        assert((head + tail).skip(1) =~= head.skip(1) + tail);
        assert forall|i: int| 0 <= i < head.skip(1).len() implies !is_line_feed(
            #[trigger] head.skip(1)[i],
        ) by {}
        lemma_first_line_feed_after(head.skip(1), tail);
    }
}

/// A line that a line feed ends is the first line of the text, and the
/// lines of what follows the line feed come after it.
pub proof fn lemma_lines_of_terminated(line: Seq<char>, rest: Seq<char>)
    requires
        free_of_line_feeds(line),
    ensures
        lines_of(line + seq!['\n'] + rest) == seq![without_carriage_return(line)] + lines_of(rest),
{
    let text = line + seq!['\n'] + rest;
    let tail = seq!['\n'] + rest;
    assert(text =~= line + tail);
    lemma_first_line_feed_after(line, tail);
    let end = first_line_feed(text) as int;
    assert(text.take(end) =~= line);
    assert(text.skip(end + 1) =~= rest);
}

/// A text without line feeds is one line, or none where it is empty.
pub proof fn lemma_lines_of_unterminated(line: Seq<char>)
    requires
        free_of_line_feeds(line),
    ensures
        lines_of(line) == if line.len() == 0 {
            Seq::<Seq<char>>::empty()
        } else {
            seq![line]
        },
{
    lemma_first_line_feed_after(line, Seq::empty());
}

/// The line that is being read: what was already copied, and the carriage
/// return that is held back until the next character shows whether it
/// belongs to a terminator.
pub open spec fn line_in_progress(copied: Seq<char>, holds_cr: bool) -> Seq<char> {
    if holds_cr {
        copied.push('\r')
    } else {
        copied
    }
}

/// Splits `text` into its lines.
pub fn split_lines(text: &str) -> (lines: Vec<String>)
    ensures
        lines_view(lines@) == lines_of(text@),
{
    broadcast use vstd::string::group_string_axioms;

    let mut lines: Vec<String> = Vec::new();
    let mut line = String::new();
    let mut holds_cr = false;
    let chars = text.chars();
    assert(line_in_progress(line@, holds_cr) + text@.skip(0) =~= text@);
    for c in iter: chars
        invariant
            iter.seq() == text@,
            free_of_line_feeds(line_in_progress(line@, holds_cr)),
            !holds_cr ==> line@.len() == 0 || line@.last() != '\r',
            lines_of(text@) == lines_view(lines@) + lines_of(
                line_in_progress(line@, holds_cr) + text@.skip(iter.index()),
            ),
    {
        let ghost before = line_in_progress(line@, holds_cr);
        let ghost rest = text@.skip(iter.index() + 1);
        if c == '\n' {
            proof {
                lemma_lines_of_terminated(before, rest);
                assert(before + text@.skip(iter.index()) =~= before + seq!['\n'] + rest);
                assert(without_carriage_return(before) =~= line@);
            }
            lines.push(line);
            line = String::new();
            holds_cr = false;
        } else {
            if holds_cr {
                push_char(&mut line, '\r');
            }
            if c == '\r' {
                holds_cr = true;
            } else {
                holds_cr = false;
                push_char(&mut line, c);
            }
            proof {
                assert(before.push(c) + rest =~= before + text@.skip(iter.index()));
            }
        }
    }
    proof {
        lemma_lines_of_unterminated(line_in_progress(line@, holds_cr));
    }
    if holds_cr {
        push_char(&mut line, '\r');
    }
    if !line.as_str().is_empty() {
        lines.push(line);
    }
    lines
}

/// A line as a listing holds it: free of line feeds, and not ending in a
/// carriage return that a following line feed would take for its own.
pub open spec fn is_plain_line(line: Seq<char>) -> bool {
    free_of_line_feeds(line) && !(line.len() > 0 && line.last() == '\r')
}

/// The terminator that follows each line of a text: a line feed, preceded
/// by a carriage return where `crlf` holds.
pub open spec fn terminator(crlf: bool) -> Seq<char> {
    if crlf {
        seq!['\r', '\n']
    } else {
        seq!['\n']
    }
}

/// The text that holds `lines` in order, each followed by its terminator.
pub open spec fn join_lines(lines: Seq<Seq<char>>, crlf: bool) -> Seq<char>
    decreases lines.len(),
{
    if lines.len() == 0 {
        Seq::empty()
    } else {
        lines[0] + terminator(crlf) + join_lines(lines.skip(1), crlf)
    }
}

/// The number of line feeds in `text`.
pub open spec fn count_line_feeds(text: Seq<char>) -> nat
    decreases text.len(),
{
    if text.len() == 0 {
        0
    } else if is_line_feed(text[0]) {
        1 + count_line_feeds(text.skip(1))
    } else {
        count_line_feeds(text.skip(1))
    }
}

/// The text is empty or its last character is a line feed: every line in it
/// is terminated.
pub open spec fn ends_terminated(text: Seq<char>) -> bool {
    text.len() == 0 || is_line_feed(text.last())
}

/// Splitting gives back exactly the lines that a text was made of: as many,
/// in the same order, each with its own characters. This holds of no lines,
/// of one and of many, with either terminator.
pub proof fn law_split_inverts_join(lines: Seq<Seq<char>>, crlf: bool)
    requires
        forall|i: int| 0 <= i < lines.len() ==> is_plain_line(#[trigger] lines[i]),
    ensures
        lines_of(join_lines(lines, crlf)) == lines,
    decreases lines.len(),
{
    if lines.len() > 0 {
        let first = lines[0];
        let others = lines.skip(1);
        let rest = join_lines(others, crlf);
        assert forall|i: int| 0 <= i < others.len() implies is_plain_line(
            #[trigger] others[i],
        ) by {}
        law_split_inverts_join(others, crlf);
        if crlf {
            let held = first.push('\r');
            assert(join_lines(lines, crlf) =~= held + seq!['\n'] + rest);
            lemma_lines_of_terminated(held, rest);
            assert(without_carriage_return(held) =~= first);
        } else {
            lemma_lines_of_terminated(first, rest);
        }
    }
}

/// A last line that has no terminator is still a line: it comes out behind
/// the terminated ones, carriage return and all.
pub proof fn law_split_keeps_unterminated_last(lines: Seq<Seq<char>>, crlf: bool, last: Seq<char>)
    requires
        forall|i: int| 0 <= i < lines.len() ==> is_plain_line(#[trigger] lines[i]),
        free_of_line_feeds(last),
        last.len() > 0,
    ensures
        lines_of(join_lines(lines, crlf) + last) == lines.push(last),
{
    let joined = join_lines(lines, crlf);
    law_split_inverts_join(lines, crlf);
    lemma_join_lines_ends_terminated(lines, crlf);
    law_split_is_compositional(joined, last);
    lemma_lines_of_unterminated(last);
}

/// Lines joined with their terminators form a text in which every line is
/// terminated.
pub proof fn lemma_join_lines_ends_terminated(lines: Seq<Seq<char>>, crlf: bool)
    ensures
        ends_terminated(join_lines(lines, crlf)),
    decreases lines.len(),
{
    if lines.len() > 0 {
        lemma_join_lines_ends_terminated(lines.skip(1), crlf);
    }
}

/// Where every line of `head` is terminated, the lines of `head` followed by
/// `tail` are the lines of `head` followed by the lines of `tail`: what comes
/// later in the text comes later in the result, and nothing is lost or
/// repeated where two parts meet.
pub proof fn law_split_is_compositional(head: Seq<char>, tail: Seq<char>)
    requires
        ends_terminated(head),
    ensures
        lines_of(head + tail) == lines_of(head) + lines_of(tail),
    decreases head.len(),
{
    if head.len() > 0 {
        let end = first_line_feed(head) as int;
        lemma_first_line_feed(head);
        if end >= head.len() {
            assert(!is_line_feed(head.take(end)[head.len() - 1]));
        }
        let line = head.take(end);
        let head_rest = head.skip(end + 1);
        assert(head + tail =~= line + seq!['\n'] + (head_rest + tail));
        lemma_lines_of_terminated(line, head_rest);
        lemma_lines_of_terminated(line, head_rest + tail);
        law_split_is_compositional(head_rest, tail);
    }
}

/// Behind its first line feed a text holds one line feed fewer.
proof fn lemma_count_from_first_line_feed(text: Seq<char>)
    ensures
        count_line_feeds(text) == if first_line_feed(text) < text.len() {
            1 + count_line_feeds(text.skip(first_line_feed(text) as int + 1))
        } else {
            0
        },
    decreases text.len(),
{
    if text.len() == 0 || is_line_feed(text[0]) {
    } else {
        let rest = text.skip(1);
        lemma_count_from_first_line_feed(rest);
        if first_line_feed(rest) < rest.len() {
            assert(rest.skip(first_line_feed(rest) as int + 1) =~= text.skip(
                first_line_feed(text) as int + 1,
            ));
        }
    }
}

/// There are as many lines as line feeds, and one more where text follows
/// the last line feed.
pub proof fn law_line_count(text: Seq<char>)
    ensures
        lines_of(text).len() == count_line_feeds(text) + if ends_terminated(text) {
            0nat
        } else {
            1nat
        },
    decreases text.len(),
{
    if text.len() > 0 {
        let end = first_line_feed(text) as int;
        lemma_first_line_feed(text);
        lemma_count_from_first_line_feed(text);
        if end >= text.len() {
            assert(!is_line_feed(text.take(end)[text.len() - 1]));
        } else {
            law_line_count(text.skip(end + 1));
        }
    }
}

/// No line holds a line feed.
pub proof fn law_lines_hold_no_line_feed(text: Seq<char>)
    ensures
        forall|i: int|
            0 <= i < lines_of(text).len() ==> free_of_line_feeds(#[trigger] lines_of(text)[i]),
    decreases text.len(),
{
    if text.len() > 0 {
        let end = first_line_feed(text) as int;
        lemma_first_line_feed(text);
        if end >= text.len() {
            assert(text.take(end) =~= text);
        } else {
            let line = without_carriage_return(text.take(end));
            let rest = text.skip(end + 1);
            law_lines_hold_no_line_feed(rest);
            assert forall|j: int| 0 <= j < line.len() implies !is_line_feed(
                #[trigger] line[j],
            ) by {}
            assert forall|i: int| 0 <= i < lines_of(text).len() implies free_of_line_feeds(
                #[trigger] lines_of(text)[i],
            ) by {
                if i > 0 {
                    assert(lines_of(text)[i] == lines_of(rest)[i - 1]);
                }
            }
        }
    }
}

} // verus!
