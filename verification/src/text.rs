//! Text buffers: editing a string by characters, and splitting a text into
//! lines.

use vstd::prelude::*;
use vstd::std_specs::iter::IteratorSpec;

verus! {

/// `String::push` appends the character to the end of the string.
pub assume_specification[ String::push ](s: &mut String, ch: char)
    ensures
        final(s)@ == old(s)@.push(ch),
;

/// `String::pop` removes the last character and returns it, or returns
/// `None` and leaves the string alone when it is empty.
pub assume_specification[ String::pop ](s: &mut String) -> (ch: Option<char>)
    ensures
        old(s)@.len() == 0 ==> ch is None && final(s)@ == old(s)@,
        old(s)@.len() > 0 ==> ch == Some(old(s)@.last()) && final(s)@ == old(s)@.drop_last(),
;

/// `String::clear` removes all contents of the string.
pub assume_specification[ String::clear ](s: &mut String)
    ensures
        final(s)@ == Seq::<char>::empty(),
;

/// The contents of a list of strings, as a sequence of character sequences.
pub open spec fn texts(strings: Seq<String>) -> Seq<Seq<char>> {
    Seq::new(strings.len(), |i: int| strings[i]@)
}

/// A line without the carriage return that may precede its line feed.
pub open spec fn strip_cr(line: Seq<char>) -> Seq<char> {
    if line.len() > 0 && line.last() == '\r' {
        line.drop_last()
    } else {
        line
    }
}

/// The lines of a text. A line ends at a line feed, or at a carriage return
/// directly followed by a line feed; neither belongs to the line. The last
/// line needs no line ending, and a text that ends in one has no empty line
/// after it. A carriage return that no line feed follows stays in its line.
pub open spec fn lines_of(text: Seq<char>) -> Seq<Seq<char>>
    decreases text.len(),
    via lines_of_decreases
{
    if text.len() == 0 {
        Seq::empty()
    } else {
        match text.index_of_first('\n') {
            Some(i) => seq![strip_cr(text.take(i))] + lines_of(text.skip(i + 1)),
            None => seq![text],
        }
    }
}

#[via_fn]
proof fn lines_of_decreases(text: Seq<char>) {
    text.index_of_first_ensures('\n');
}

/// A line feed at `k` with none before it is the first one.
proof fn lemma_first_line_feed(s: Seq<char>, k: int)
    requires
        0 <= k < s.len(),
        s[k] == '\n',
        forall|j: int| 0 <= j < k ==> s[j] != '\n',
    ensures
        s.index_of_first('\n') == Some(k),
{
    s.index_of_first_ensures('\n');
    assert(s.contains('\n'));
}

/// A text without a line feed has no first one.
proof fn lemma_no_line_feed(s: Seq<char>)
    requires
        forall|j: int| 0 <= j < s.len() ==> s[j] != '\n',
    ensures
        s.index_of_first('\n') is None,
{
    s.index_of_first_ensures('\n');
}

/// Splits `text` into its lines.
pub fn split_lines(text: &str) -> (lines: Vec<String>)
    ensures
        texts(lines@) == lines_of(text@),
{
    let mut lines: Vec<String> = Vec::new();
    let mut current = String::new();
    let mut ends_in_cr = false;
    let ghost mut start: int = 0;
    let chars = text.chars();
    assert(chars.remaining() == text@);
    assert(text@.skip(0) == text@);
    for c in it: chars
        invariant
            it.seq() == text@,
            0 <= start <= it.index(),
            current@ == text@.subrange(start, it.index()),
            forall|j: int| start <= j < it.index() ==> text@[j] != '\n',
            ends_in_cr == (current@.len() > 0 && current@.last() == '\r'),
            lines_of(text@) == texts(lines@) + lines_of(text@.skip(start)),
    {
        let ghost at = it.index();
        if c == '\n' {
            proof {
                let rest = text@.skip(start);
                lemma_first_line_feed(rest, at - start);
                assert(rest.take(at - start) == current@);
                assert(rest.skip(at - start + 1) == text@.skip(at + 1));
            }
            let ghost before = lines@;
            let ghost line = strip_cr(current@);
            if ends_in_cr {
                current.pop();
            }
            lines.push(current);
            current = String::new();
            ends_in_cr = false;
            proof {
                start = at + 1;
                assert(texts(lines@) == texts(before) + seq![line]);
                assert(current@ == text@.subrange(start, at + 1));
            }
        } else {
            current.push(c);
            ends_in_cr = c == '\r';
            assert(current@ == text@.subrange(start, at + 1));
        }
    }
    proof {
        let rest = text@.skip(start);
        assert(rest == current@);
        lemma_no_line_feed(rest);
    }
    if !current.as_str().is_empty() {
        let ghost before = lines@;
        lines.push(current);
        assert(texts(lines@) == texts(before) + seq![text@.skip(start)]);
    }
    lines
}

} // verus!
