//! Lines of text: taking the terminator off a physical line, and joining
//! lines back into one text.

use vstd::prelude::*;
use vstd::string::*;

verus! {

/// A physical line without its terminator: a final line feed is dropped,
/// together with a carriage return that stands directly before it.
pub open spec fn without_line_ending(raw: Seq<char>) -> Seq<char> {
    let n = raw.len() as int;
    if n >= 2 && raw[n - 2] == '\r' && raw[n - 1] == '\n' {
        raw.subrange(0, n - 2)
    } else if n >= 1 && raw[n - 1] == '\n' {
        raw.subrange(0, n - 1)
    } else {
        raw
    }
}

/// The terminator of a physical line: what `without_line_ending` drops. It
/// is a line feed, a carriage return and a line feed, or nothing.
pub open spec fn line_ending(raw: Seq<char>) -> Seq<char> {
    raw.subrange(without_line_ending(raw).len() as int, raw.len() as int)
}

/// The lines with `separator` between each two neighbours, and nothing
/// before the first or after the last.
pub open spec fn joined(lines: Seq<Seq<char>>, separator: Seq<char>) -> Seq<char>
    decreases lines.len(),
{
    if lines.len() == 0 {
        Seq::empty()
    } else if lines.len() == 1 {
        lines[0]
    } else {
        joined(lines.drop_last(), separator) + separator + lines.last()
    }
}

/// The physical lines `raw`, each without its terminator.
pub open spec fn stripped(raw: Seq<Seq<char>>) -> Seq<Seq<char>> {
    Seq::new(raw.len(), |i: int| without_line_ending(raw[i]))
}

/// The texts of a vector of strings, in order.
pub open spec fn texts(strings: Seq<String>) -> Seq<Seq<char>> {
    Seq::new(strings.len(), |i: int| strings[i]@)
}

/// Takes the line terminator off a physical line.
pub fn strip_line_ending(raw: &str) -> (line: &str)
    ensures
        line@ == without_line_ending(raw@),
{
    let n: usize = raw.unicode_len();
    if n >= 1 && raw.get_char(n - 1) == '\n' {
        if n >= 2 && raw.get_char(n - 2) == '\r' {
            raw.substring_char(0, n - 2)
        } else {
            raw.substring_char(0, n - 1)
        }
    } else {
        raw
    }
}

/// The line terminator of a physical line.
pub fn line_ending_of(raw: &str) -> (ending: &str)
    ensures
        ending@ == line_ending(raw@),
{
    let n: usize = raw.unicode_len();
    if n >= 1 && raw.get_char(n - 1) == '\n' {
        if n >= 2 && raw.get_char(n - 2) == '\r' {
            raw.substring_char(n - 2, n)
        } else {
            raw.substring_char(n - 1, n)
        }
    } else {
        raw.substring_char(n, n)
    }
}

/// Joins `lines` with `separator` between them.
pub fn join_lines(lines: &Vec<String>, separator: &str) -> (text: String)
    ensures
        text@ == joined(texts(lines@), separator@),
{
    let mut text = String::new();
    let mut i: usize = 0;
    while i < lines.len()
        invariant
            i <= lines.len(),
            text@ == joined(texts(lines@).take(i as int), separator@),
        decreases lines.len() - i,
    {
        assert(texts(lines@).take(i + 1).drop_last() =~= texts(lines@).take(i as int));
        if i > 0 {
            text.append(separator);
        }
        text.append(lines[i].as_str());
        i += 1;
    }
    assert(texts(lines@).take(lines.len() as int) =~= texts(lines@));
    text
}

/// A physical line is its text followed by its terminator.
pub proof fn lemma_line_parts(raw: Seq<char>)
    ensures
        raw == without_line_ending(raw) + line_ending(raw),
{
}

/// Where every physical line of a text but the last ends in the same
/// terminator, joining the lines with that terminator, and appending the
/// terminator of the last line, gives the text back unchanged.
pub proof fn lemma_join_restores_text(raw: Seq<Seq<char>>, ending: Seq<char>)
    requires
        forall|i: int| 0 <= i < raw.len() - 1 ==> line_ending(#[trigger] raw[i]) == ending,
    ensures
        raw.len() == 0 ==> raw.flatten() == Seq::<char>::empty(),
        raw.len() > 0 ==> raw.flatten() == joined(stripped(raw), ending) + line_ending(raw.last()),
    decreases raw.len(),
{
    if raw.len() == 1 {
        raw.lemma_flatten_one_element();
        lemma_line_parts(raw[0]);
    } else if raw.len() > 1 {
        let init = raw.drop_last();
        lemma_join_restores_text(init, ending);
        lemma_line_parts(raw.last());
        assert(init.last() == raw[raw.len() - 2]);
        assert(stripped(init) =~= stripped(raw).drop_last());
        assert(raw =~= init.push(raw.last()));
        init.lemma_flatten_push(raw.last());
        assert(raw.flatten() =~= joined(stripped(raw), ending) + line_ending(raw.last()));
    }
}

} // verus!
