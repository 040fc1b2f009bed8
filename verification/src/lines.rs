//! Splitting rendered text into lines.

use vstd::prelude::*;

verus! {

broadcast use Seq::lemma_flatten_push;

/// `String::push` appends one character.
pub assume_specification[ std::string::String::push ](text: &mut std::string::String, ch: char)
    ensures
        final(text)@ == old(text)@.push(ch),
;

/// The texts of `lines`.
pub open spec fn line_texts(lines: Seq<String>) -> Seq<Seq<char>> {
    lines.map_values(|line: String| line@)
}

/// A line is not empty and holds no line feed before its last character.
pub open spec fn is_line(line: Seq<char>) -> bool {
    &&& line.len() > 0
    &&& forall|i: int| 0 <= i < line.len() - 1 ==> line[i] != '\n'
}

/// Whether `lines` are the lines of `text`: joined they give `text`, each is a
/// line, and each but the last ends in a line feed. A text has exactly one
/// such division.
pub open spec fn is_line_split(text: Seq<char>, lines: Seq<Seq<char>>) -> bool {
    &&& lines.flatten() == text
    &&& forall|k: int| 0 <= k < lines.len() ==> is_line(#[trigger] lines[k])
    &&& forall|k: int| 0 <= k < lines.len() - 1 ==> (#[trigger] lines[k]).last() == '\n'
}

/// The lines after the first are the lines of the rest of the text.
proof fn lemma_line_split_tail(text: Seq<char>, lines: Seq<Seq<char>>)
    requires
        is_line_split(text, lines),
        lines.len() > 0,
    ensures
        lines[0].len() <= text.len(),
        lines[0] == text.take(lines[0].len() as int),
        is_line_split(text.skip(lines[0].len() as int), lines.drop_first()),
        lines.len() == 1 ==> lines[0] == text,
{
    let tail = lines.drop_first();
    assert(lines.flatten() == lines[0] + tail.flatten());
    assert(tail.flatten() == text.skip(lines[0].len() as int));
    assert forall|k: int| 0 <= k < tail.len() implies is_line(#[trigger] tail[k]) by {
        assert(tail[k] == lines[k + 1]);
    }
    assert forall|k: int| 0 <= k < tail.len() - 1 implies (#[trigger] tail[k]).last() == '\n' by {
        assert(tail[k] == lines[k + 1]);
    }
}

/// The first line of a split is no longer than the first line of another
/// split of the same text: were it longer, it would hold the line feed that
/// ends the other before its own last character.
proof fn lemma_first_line_bound(text: Seq<char>, a: Seq<Seq<char>>, b: Seq<Seq<char>>)
    requires
        is_line_split(text, a),
        is_line_split(text, b),
        a.len() > 0,
        b.len() > 0,
    ensures
        a[0].len() <= b[0].len(),
{
    lemma_line_split_tail(text, a);
    lemma_line_split_tail(text, b);
    if a[0].len() > b[0].len() {
        let end = b[0].len() - 1;
        assert(b[0].last() == '\n');
        assert(a[0][end] == text[end]);
    }
}

/// A text has one division into lines.
pub proof fn lemma_line_split_unique(text: Seq<char>, a: Seq<Seq<char>>, b: Seq<Seq<char>>)
    requires
        is_line_split(text, a),
        is_line_split(text, b),
    ensures
        a == b,
    decreases a.len(),
{
    if a.len() == 0 || b.len() == 0 {
        if a.len() > 0 {
            lemma_line_split_tail(text, a);
        }
        if b.len() > 0 {
            lemma_line_split_tail(text, b);
        }
    } else {
        lemma_line_split_tail(text, a);
        lemma_line_split_tail(text, b);
        lemma_first_line_bound(text, a, b);
        lemma_first_line_bound(text, b, a);
        assert(a[0] == b[0]);
        lemma_line_split_unique(text.skip(a[0].len() as int), a.drop_first(), b.drop_first());
        assert(a =~= seq![a[0]] + a.drop_first());
        assert(b =~= seq![b[0]] + b.drop_first());
    }
}

/// The lines of a text that ends in a line feed all end in one, and there
/// is at least one.
pub proof fn lemma_lines_of_terminated_text(text: Seq<char>, lines: Seq<Seq<char>>)
    requires
        is_line_split(text, lines),
        text.len() > 0,
        text.last() == '\n',
    ensures
        lines.len() > 0,
        forall|k: int| 0 <= k < lines.len() ==> (#[trigger] lines[k]).last() == '\n',
{
    lines.lemma_flatten_and_flatten_alt_are_equivalent();
    assert(lines.flatten_alt() == lines.drop_last().flatten_alt() + lines.last());
    assert(text.last() == lines.last().last());
}

/// Splits `text` after each line feed. The line feed stays with its line;
/// text after the last line feed is a line of its own.
pub fn split_lines(text: &str) -> (lines: Vec<String>)
    ensures
        is_line_split(text@, line_texts(lines@)),
{
    let mut lines: Vec<String> = Vec::new();
    let mut line = String::new();
    assert(text@.take(0) == Seq::<char>::empty());
    for ch in iter: text.chars()
        invariant
            iter.seq() == text@,
            line_texts(lines@).flatten() + line@ == text@.take(iter.index()),
            forall|k: int| 0 <= k < lines@.len() ==> is_line(#[trigger] line_texts(lines@)[k]),
            forall|k: int|
                0 <= k < lines@.len() ==> (#[trigger] line_texts(lines@)[k]).last() == '\n',
            forall|i: int| 0 <= i < line@.len() ==> line@[i] != '\n',
    {
        let ghost done = line_texts(lines@);
        let ghost partial = line@;
        line.push(ch);
        assert(text@.take(iter.index() + 1) == text@.take(iter.index()).push(ch));
        assert(done.flatten() + partial.push(ch) == (done.flatten() + partial).push(ch));
        if ch == '\n' {
            lines.push(line);
            line = String::new();
            assert(line_texts(lines@) == done.push(partial.push(ch)));
        }
    }
    assert(text@.take(text@.len() as int) == text@);
    if !line.as_str().is_empty() {
        let ghost done = line_texts(lines@);
        let ghost partial = line@;
        lines.push(line);
        assert(line_texts(lines@) == done.push(partial));
    }
    lines
}

} // verus!
