//! A text as a sequence of lines, and a sequence of lines as a text.

use vstd::prelude::*;
use vstd::utf8::{encode_scalar, encode_utf8};
use crate::graphemes::texts;

verus! {

/// The number of characters in front of the first line feed of `text`; the
/// length of `text` where it holds none.
pub open spec fn line_end(text: Seq<char>) -> nat
    decreases text.len(),
{
    if text.len() == 0 || text[0] == '\n' {
        0
    } else {
        1 + line_end(text.drop_first())
    }
}

/// `line` without one carriage return at its end, if it has one there.
pub open spec fn without_cr(line: Seq<char>) -> Seq<char> {
    if line.len() > 0 && line.last() == '\r' {
        line.drop_last()
    } else {
        line
    }
}

/// The lines of `text`. A line ends at a line feed, or at a carriage return
/// directly in front of one; neither belongs to the line. What follows the
/// last line feed is a line unless it is empty, and it keeps a carriage
/// return at its end.
pub open spec fn lines_of(text: Seq<char>) -> Seq<Seq<char>>
    decreases text.len(),
{
    if text.len() == 0 {
        Seq::empty()
    } else {
        let end = line_end(text) as int;
        if end < text.len() {
            seq![without_cr(text.take(end))] + lines_of(text.skip(end + 1))
        } else {
            seq![text]
        }
    }
}

/// The text that holds each of `lines` followed by one line feed.
pub open spec fn text_of(lines: Seq<Seq<char>>) -> Seq<char>
    decreases lines.len(),
{
    if lines.len() == 0 {
        Seq::empty()
    } else {
        lines[0] + seq!['\n'] + text_of(lines.drop_first())
    }
}

/// A line that comes back as it is when it is written out and read in
/// again: it holds no line feed and does not end in a carriage return.
pub open spec fn plain_line(line: Seq<char>) -> bool {
    &&& !line.contains('\n')
    &&& line.len() > 0 ==> line.last() != '\r'
}

/// Calls `str::lines` and copies each line into a `String`.
///
/// Trusted: the lines are those that `lines_of` describes, which is what the
/// documentation of `str::lines` says: the text is cut at each line feed, a
/// carriage return directly in front of a line feed goes with it, an empty
/// rest behind the last line feed is no line, and a rest that is not empty
/// is a line as it stands.
#[verifier::external_body]
pub(crate) fn lines_in(text: &str) -> (lines: Vec<String>)
    ensures
        texts(lines@) == lines_of(text@),
{
    text.lines().map(String::from).collect()
}

/// The first line feed of a text stands where a prefix without one ends.
pub proof fn lemma_line_end(line: Seq<char>, rest: Seq<char>)
    requires
        !line.contains('\n'),
    ensures
        line_end(line + seq!['\n'] + rest) == line.len(),
    decreases line.len(),
{
    let text = line + seq!['\n'] + rest;
    if line.len() == 0 {
        assert(text[0] == '\n');
    } else {
        assert(text[0] == line[0]);
        assert(line.contains(line[0]));
        assert(text.drop_first() =~= line.drop_first() + seq!['\n'] + rest);
        assert forall|i: int| 0 <= i < line.drop_first().len() implies line.drop_first()[i]
            != '\n' by {
            assert(line.contains(line[i + 1]));
        }
        lemma_line_end(line.drop_first(), rest);
    }
}

/// `line_end` stays within the text, no line feed stands in front of it,
/// and one stands at it unless it is the end of the text.
pub proof fn lemma_line_end_bounds(text: Seq<char>)
    ensures
        line_end(text) <= text.len(),
        !text.take(line_end(text) as int).contains('\n'),
        line_end(text) < text.len() ==> text[line_end(text) as int] == '\n',
    decreases text.len(),
{
    if text.len() == 0 || text[0] == '\n' {
        assert(text.take(0) =~= Seq::<char>::empty());
    } else {
        let rest = text.drop_first();
        lemma_line_end_bounds(rest);
        let end = line_end(text) as int;
        assert forall|i: int| 0 <= i < end implies text.take(end)[i] != '\n' by {
            if i > 0 {
                assert(rest.take(end - 1)[i - 1] == text[i]);
                assert(rest.take(end - 1).contains(text[i]));
            }
        }
    }
}

/// No line of a text holds a line feed.
pub proof fn lemma_lines_hold_no_line_feed(text: Seq<char>)
    ensures
        forall|i: int|
            0 <= i < lines_of(text).len() ==> !(#[trigger] lines_of(text)[i]).contains('\n'),
    decreases text.len(),
{
    if text.len() > 0 {
        let end = line_end(text) as int;
        lemma_line_end_bounds(text);
        if end < text.len() {
            let first = text.take(end);
            let others = lines_of(text.skip(end + 1));
            lemma_lines_hold_no_line_feed(text.skip(end + 1));
            assert forall|j: int| 0 <= j < without_cr(first).len() implies without_cr(first)[j]
                != '\n' by {
                assert(first.contains(first[j]));
            }
            assert forall|i: int| 0 <= i < lines_of(text).len() implies !(
            #[trigger] lines_of(text)[i]).contains('\n') by {
                if i > 0 {
                    assert(lines_of(text)[i] == others[i - 1]);
                }
            }
        } else {
            assert(text.take(end) =~= text);
        }
    }
}

/// Lines that are written out, each with a line feed behind it, and read
/// in again, come back as they were, provided that each is a plain line.
pub proof fn lemma_lines_of_text_of(lines: Seq<Seq<char>>)
    requires
        forall|i: int| 0 <= i < lines.len() ==> plain_line(#[trigger] lines[i]),
    ensures
        lines_of(text_of(lines)) == lines,
    decreases lines.len(),
{
    if lines.len() > 0 {
        let first = lines[0];
        let rest = text_of(lines.drop_first());
        let text = first + seq!['\n'] + rest;
        assert(plain_line(first));
        lemma_line_end(first, rest);
        assert(text.take(first.len() as int) =~= first);
        assert(text.skip(first.len() as int + 1) =~= rest);
        assert forall|i: int| 0 <= i < lines.drop_first().len() implies plain_line(
            #[trigger] lines.drop_first()[i],
        ) by {
            assert(lines.drop_first()[i] == lines[i + 1]);
        }
        lemma_lines_of_text_of(lines.drop_first());
        assert(seq![first] + lines.drop_first() =~= lines);
    }
}

/// Writing out one more line puts that line and a line feed behind the
/// text of the lines before it.
pub proof fn lemma_text_of_push(lines: Seq<Seq<char>>, line: Seq<char>)
    ensures
        text_of(lines.push(line)) == text_of(lines) + line + seq!['\n'],
    decreases lines.len(),
{
    if lines.len() == 0 {
        assert(lines.push(line).drop_first() =~= Seq::<Seq<char>>::empty());
        assert(text_of(Seq::<Seq<char>>::empty()) =~= Seq::<char>::empty());
        assert(text_of(lines.push(line)) =~= text_of(lines) + line + seq!['\n']);
    } else {
        assert(lines.push(line).drop_first() =~= lines.drop_first().push(line));
        lemma_text_of_push(lines.drop_first(), line);
        assert(text_of(lines.push(line)) =~= text_of(lines) + line + seq!['\n']);
    }
}

/// The UTF-8 form of two texts, one behind the other, is the UTF-8 form
/// of the first followed by that of the second.
pub proof fn lemma_encode_concat(a: Seq<char>, b: Seq<char>)
    ensures
        encode_utf8(a + b) == encode_utf8(a) + encode_utf8(b),
    decreases a.len(),
{
    if a.len() == 0 {
        assert(a + b =~= b);
        assert(encode_utf8(a) + encode_utf8(b) =~= encode_utf8(b));
    } else {
        assert((a + b).drop_first() =~= a.drop_first() + b);
        lemma_encode_concat(a.drop_first(), b);
        assert(encode_utf8(a + b) =~= encode_utf8(a) + encode_utf8(b));
    }
}

/// A line feed is the one byte 10 in UTF-8.
pub proof fn lemma_encode_line_feed()
    ensures
        encode_utf8(seq!['\n']) == seq![10u8],
{
    let nl = seq!['\n'];
    assert(nl.drop_first() =~= Seq::<char>::empty());
    assert(encode_utf8(nl.drop_first()) =~= Seq::<u8>::empty());
    assert(nl[0] as u32 == 10u32);
    assert(vstd::utf8::leading_byte_width_1(10u32) == 10u8) by (bit_vector);
    assert(encode_scalar(10u32) =~= seq![10u8]);
    assert(encode_utf8(nl) =~= seq![10u8]);
}

} // verus!
