//! What the parser yields on a whole archive: the archive cut before every
//! boundary line but the first line, and one message for each piece.

use crate::error::ParseFailure;
use crate::mail::MailView;
use crate::mbox::{message_of, opens_message, MboxView, Phase};
use crate::text::{joined, lemma_join_restores_text, line_ending, stripped};
use vstd::prelude::*;

verus! {

/// The physical lines of an archive cut into the stored lines of its
/// messages: a line opens a new piece where it is the first line of the
/// archive or a boundary line, and goes to the end of the last piece
/// otherwise.
pub open spec fn pieces(pattern: Seq<char>, lines: Seq<Seq<char>>) -> Seq<Seq<Seq<char>>>
    decreases lines.len(),
{
    if lines.len() == 0 {
        Seq::empty()
    } else {
        let before = pieces(pattern, lines.drop_last());
        if before.len() == 0 || opens_message(pattern, lines.last()) {
            before.push(seq![lines.last()])
        } else {
            before.drop_last().push(before.last().push(lines.last()))
        }
    }
}

/// The messages of the archive: one for each piece, in order.
pub open spec fn records(pattern: Seq<char>, date_format: Seq<char>, lines: Seq<Seq<char>>) -> Seq<
    Result<MailView, ParseFailure>,
> {
    let cut = pieces(pattern, lines);
    Seq::new(cut.len(), |k: int| message_of(pattern, date_format, cut[k]))
}

/// The boundary lines among `lines`.
pub open spec fn boundary_lines(pattern: Seq<char>, lines: Seq<Seq<char>>) -> Seq<Seq<char>> {
    lines.filter(|line: Seq<char>| opens_message(pattern, line))
}

/// The index, in the archive, of the first line of its piece `k`.
pub open spec fn piece_start(pattern: Seq<char>, lines: Seq<Seq<char>>, k: int) -> int {
    pieces(pattern, lines).take(k).flatten().len() as int
}

/// The pieces of an archive are not empty, and there is none exactly where
/// the archive is empty. The first piece starts with the first line of the
/// archive and every later piece with a boundary line; no other line of a
/// piece is a boundary line. The pieces, one after the other, are the
/// archive: no line is lost, added or moved.
pub proof fn lemma_pieces_partition(pattern: Seq<char>, lines: Seq<Seq<char>>)
    ensures
        pieces(pattern, lines).len() == 0 <==> lines.len() == 0,
        pieces(pattern, lines).len() <= lines.len(),
        forall|k: int|
            0 <= k < pieces(pattern, lines).len() ==> (#[trigger] pieces(pattern, lines)[k]).len()
                > 0,
        lines.len() > 0 ==> pieces(pattern, lines)[0][0] == lines[0],
        forall|k: int|
            1 <= k < pieces(pattern, lines).len() ==> opens_message(
                pattern,
                (#[trigger] pieces(pattern, lines)[k])[0],
            ),
        forall|k: int, j: int|
            0 <= k < pieces(pattern, lines).len() && 1 <= j < pieces(pattern, lines)[k].len()
                ==> !opens_message(pattern, #[trigger] pieces(pattern, lines)[k][j]),
        pieces(pattern, lines).flatten() == lines,
    decreases lines.len(),
{
    if lines.len() > 0 {
        let init = lines.drop_last();
        let before = pieces(pattern, init);
        let line = lines.last();
        lemma_pieces_partition(pattern, init);
        if before.len() == 0 || opens_message(pattern, line) {
            before.lemma_flatten_push(seq![line]);
        } else {
            let grown = before.last().push(line);
            assert(before =~= before.drop_last().push(before.last()));
            before.drop_last().lemma_flatten_push(before.last());
            before.drop_last().lemma_flatten_push(grown);
            assert(init + seq![line] =~= lines);
        }
    }
}

/// A parser that has read nothing but the lines of an archive holds the
/// last piece of the archive, and has handed out the messages of the pieces
/// before it.
pub proof fn lemma_parser_follows_pieces(
    pattern: Seq<char>,
    date_format: Seq<char>,
    lines: Seq<Seq<char>>,
)
    requires
        lines.len() > 0,
    ensures
        MboxView::fresh(pattern, date_format).after(lines) == (MboxView {
            pattern,
            date_format,
            left: pieces(pattern, lines).last(),
            phase: Phase::InMessage,
        }),
        MboxView::fresh(pattern, date_format).emitted(lines) == records(
            pattern,
            date_format,
            lines,
        ).drop_last(),
    decreases lines.len(),
{
    let start = MboxView::fresh(pattern, date_format);
    let init = lines.drop_last();
    lemma_pieces_partition(pattern, init);
    lemma_pieces_partition(pattern, lines);
    if init.len() == 0 {
        assert(start.emitted(init) =~= Seq::empty());
    } else {
        lemma_parser_follows_pieces(pattern, date_format, init);
    }
}

/// What a parser that has read nothing yields on an archive is the
/// messages of the archive: one for each piece, in order, and none for an
/// empty archive.
pub proof fn lemma_parser_yields_records(
    pattern: Seq<char>,
    date_format: Seq<char>,
    lines: Seq<Seq<char>>,
)
    ensures
        MboxView::fresh(pattern, date_format).yields(lines) == records(pattern, date_format, lines),
{
    lemma_pieces_partition(pattern, lines);
    if lines.len() > 0 {
        lemma_parser_follows_pieces(pattern, date_format, lines);
    }
}

/// An archive has one message for its first line and one for every
/// boundary line after it. So where the first line is a boundary line,
/// there are as many messages as boundary lines.
pub proof fn lemma_record_count(pattern: Seq<char>, date_format: Seq<char>, lines: Seq<Seq<char>>)
    requires
        lines.len() > 0,
    ensures
        records(pattern, date_format, lines).len() == 1 + boundary_lines(
            pattern,
            lines.skip(1),
        ).len(),
        opens_message(pattern, lines[0]) ==> records(pattern, date_format, lines).len()
            == boundary_lines(pattern, lines).len(),
    decreases lines.len(),
{
    reveal(Seq::filter);
    let init = lines.drop_last();
    lemma_pieces_partition(pattern, init);
    if init.len() > 0 {
        lemma_record_count(pattern, date_format, init);
        assert(lines.skip(1).drop_last() =~= init.skip(1));
    }
}

/// The lines of a message are the lines of its piece after the boundary
/// line, each without its terminator and otherwise as it stands in the
/// archive; its line ending is the terminator of its boundary line.
pub proof fn lemma_record_lines(
    pattern: Seq<char>,
    date_format: Seq<char>,
    lines: Seq<Seq<char>>,
    k: int,
)
    requires
        0 <= k < records(pattern, date_format, lines).len(),
    ensures
        records(pattern, date_format, lines)[k] matches Ok(mail) ==> {
            &&& mail.lines == stripped(pieces(pattern, lines)[k].skip(1))
            &&& mail.ending == line_ending(pieces(pattern, lines)[k][0])
        },
{
    lemma_pieces_partition(pattern, lines);
}

/// Each of the sequences `parts` is a slice of all of them laid end to
/// end, and starts where the ones before it end.
proof fn lemma_piece_is_slice<A>(parts: Seq<Seq<A>>, k: int)
    requires
        0 <= k < parts.len(),
    ensures
        parts.take(k).flatten().len() + parts[k].len() <= parts.flatten().len(),
        parts.flatten().subrange(
            parts.take(k).flatten().len() as int,
            (parts.take(k).flatten().len() + parts[k].len()) as int,
        ) == parts[k],
    decreases parts.len(),
{
    let init = parts.drop_last();
    assert(parts =~= init.push(parts.last()));
    init.lemma_flatten_push(parts.last());
    if k < parts.len() - 1 {
        lemma_piece_is_slice(init, k);
        assert(parts.take(k) =~= init.take(k));
    }
}

/// Message `k` of an archive stands in the archive from its boundary line,
/// at `piece_start`, up to the next boundary line or the end, and its
/// lines are the physical lines after its boundary line, each without its
/// terminator.
pub proof fn lemma_record_place(
    pattern: Seq<char>,
    date_format: Seq<char>,
    raw: Seq<Seq<char>>,
    k: int,
)
    requires
        0 <= k < records(pattern, date_format, raw).len(),
    ensures
        ({
            let first = piece_start(pattern, raw, k) + 1;
            let end = first - 1 + pieces(pattern, raw)[k].len();
            &&& 0 < first <= end <= raw.len()
            &&& raw.subrange(first - 1, end) == pieces(pattern, raw)[k]
            &&& records(pattern, date_format, raw)[k] matches Ok(mail) ==> {
                &&& mail.lines == stripped(raw.subrange(first, end))
                &&& mail.ending == line_ending(raw[first - 1])
            }
        }),
{
    let cut = pieces(pattern, raw);
    let first = piece_start(pattern, raw, k) + 1;
    let end = first - 1 + cut[k].len();
    lemma_pieces_partition(pattern, raw);
    lemma_piece_is_slice(cut, k);
    assert(cut[k].skip(1) =~= raw.subrange(first, end));
    assert(cut[k][0] == raw.subrange(first - 1, end)[0]);
}

/// Joining the lines of message `k` with its line ending gives its part
/// of the archive back, byte for byte, but for the terminator of its last
/// line: where every line of the message but the last ends in the
/// terminator of its boundary line, the physical lines after the boundary
/// line are that join followed by the terminator of the last line. No
/// other line of the archive is asked anything.
pub proof fn lemma_round_trip(
    pattern: Seq<char>,
    date_format: Seq<char>,
    raw: Seq<Seq<char>>,
    k: int,
)
    requires
        0 <= k < records(pattern, date_format, raw).len(),
        ({
            let first = piece_start(pattern, raw, k) + 1;
            let end = first - 1 + pieces(pattern, raw)[k].len();
            forall|i: int|
                first <= i < end - 1 ==> line_ending(#[trigger] raw[i]) == line_ending(
                    raw[first - 1],
                )
        }),
    ensures
        ({
            let first = piece_start(pattern, raw, k) + 1;
            let end = first - 1 + pieces(pattern, raw)[k].len();
            records(pattern, date_format, raw)[k] matches Ok(mail) ==> {
                &&& mail.lines.len() == end - first
                &&& mail.lines.len() == 0 ==> raw.subrange(first, end).flatten() == Seq::<
                    char,
                >::empty()
                &&& mail.lines.len() > 0 ==> raw.subrange(first, end).flatten() == joined(
                    mail.lines,
                    mail.ending,
                ) + line_ending(raw[end - 1])
            }
        }),
{
    let first = piece_start(pattern, raw, k) + 1;
    let end = first - 1 + pieces(pattern, raw)[k].len();
    lemma_record_place(pattern, date_format, raw, k);
    let body = raw.subrange(first, end);
    assert forall|i: int| 0 <= i < body.len() - 1 implies line_ending(#[trigger] body[i])
        == line_ending(raw[first - 1]) by {
        assert(body[i] == raw[first + i]);
    }
    lemma_join_restores_text(body, line_ending(raw[first - 1]));
}

/// An archive without a boundary line after its first line is one
/// message, which holds every line after the first.
pub proof fn lemma_single_message(pattern: Seq<char>, date_format: Seq<char>, lines: Seq<Seq<char>>)
    requires
        lines.len() > 0,
        forall|i: int| 1 <= i < lines.len() ==> !opens_message(pattern, #[trigger] lines[i]),
    ensures
        pieces(pattern, lines) == seq![lines],
        records(pattern, date_format, lines) == seq![message_of(pattern, date_format, lines)],
        records(pattern, date_format, lines)[0] matches Ok(mail) ==> mail.lines == stripped(
            lines.skip(1),
        ),
    decreases lines.len(),
{
    let init = lines.drop_last();
    if init.len() == 0 {
        assert(seq![lines.last()] =~= lines);
    } else {
        lemma_single_message(pattern, date_format, init);
        assert(init.push(lines.last()) =~= lines);
    }
}

/// The last message of an archive that ends with the line that opened it
/// has no lines.
pub proof fn lemma_trailing_boundary(
    pattern: Seq<char>,
    date_format: Seq<char>,
    lines: Seq<Seq<char>>,
)
    requires
        lines.len() > 0,
        lines.len() == 1 || opens_message(pattern, lines.last()),
    ensures
        pieces(pattern, lines).last() == seq![lines.last()],
        records(pattern, date_format, lines).last() == message_of(
            pattern,
            date_format,
            seq![lines.last()],
        ),
        records(pattern, date_format, lines).last() matches Ok(mail) ==> mail.lines.len() == 0,
{
    lemma_pieces_partition(pattern, lines.drop_last());
}

/// A line that is no boundary line never ends a message: it goes to the
/// end of the message in progress.
pub proof fn lemma_body_line_stays(pattern: Seq<char>, lines: Seq<Seq<char>>, line: Seq<char>)
    requires
        lines.len() > 0,
        !opens_message(pattern, line),
    ensures
        pieces(pattern, lines.push(line)).len() == pieces(pattern, lines).len(),
        pieces(pattern, lines.push(line)).drop_last() == pieces(pattern, lines).drop_last(),
        pieces(pattern, lines.push(line)).last() == pieces(pattern, lines).last().push(line),
{
    lemma_pieces_partition(pattern, lines);
    assert(lines.push(line).drop_last() =~= lines);
}

} // verus!
