//! The mailbox parser: a state machine that is fed the physical lines of an
//! archive one at a time and hands out a message whenever one is complete.

use crate::archive::{lemma_parser_yields_records, records};
use crate::date::{parse_date, parsed_date};
use crate::error::ParseFailure;
use crate::mail::{Mail, MailView};
use crate::pattern::{
    boundary_fields, compile, is_boundary, match_from_line, regex_compiles, regex_matches,
    regex_pattern, InvalidPattern, FROM_LINE_WIDE,
};
use crate::text::{
    line_ending, line_ending_of, strip_line_ending, stripped, texts, without_line_ending,
};
use chrono::NaiveDateTime;
use regex::Regex;
use vstd::prelude::*;

verus! {

/// Where the parser stands in the archive.
#[derive(Clone, Copy, Debug, PartialEq, Eq, Structural)]
pub enum Phase {
    /// No line has been read yet. The first line never ends a message.
    AwaitingFirstLine,
    /// At least one line has been read.
    InMessage,
}

/// The parser.
pub struct Mbox {
    /// The compiled boundary pattern.
    pub from_line_regex: Regex,
    /// The grammar of the date field of a boundary line.
    pub date_format: String,
    /// The physical lines of the message in progress as they were read,
    /// its boundary line first.
    pub left: Vec<String>,
    /// Whether the first line of the archive has been read.
    pub phase: Phase,
}

/// The parser as a mathematical value.
#[verifier::ext_equal]
pub struct MboxView {
    pub pattern: Seq<char>,
    pub date_format: Seq<char>,
    pub left: Seq<Seq<char>>,
    pub phase: Phase,
}

impl View for Mbox {
    type V = MboxView;

    open spec fn view(&self) -> MboxView {
        MboxView {
            pattern: regex_pattern(self.from_line_regex),
            date_format: self.date_format@,
            left: texts(self.left@),
            phase: self.phase,
        }
    }
}

/// What the boundary line `line` says of its message: the sender address
/// and the date. A line on which the pattern finds no address and date
/// field is a failure of the archive's structure; a date field that the
/// grammar does not read is a failure of the date format.
pub open spec fn header_of(pattern: Seq<char>, date_format: Seq<char>, line: Seq<char>) -> Result<
    (Seq<char>, NaiveDateTime),
    ParseFailure,
> {
    match boundary_fields(pattern, line) {
        None => Err(ParseFailure::Structure),
        Some((address, date_text)) => match parsed_date(date_text, date_format) {
            None => Err(ParseFailure::DateFormat),
            Some(date) => Ok((address, date)),
        },
    }
}

/// Whether the physical line `raw` is a boundary line: its text, without
/// the terminator, is one.
pub open spec fn opens_message(pattern: Seq<char>, raw: Seq<char>) -> bool {
    is_boundary(pattern, without_line_ending(raw))
}

/// The message that the stored physical lines `stored` make with what
/// their first line says: the lines after the first, each without its
/// terminator, are its lines, and the terminator of the first is its line
/// ending. Without a stored line there is no boundary line, which is a
/// failure of the archive's structure.
pub open spec fn assembled(
    stored: Seq<Seq<char>>,
    header: Result<(Seq<char>, NaiveDateTime), ParseFailure>,
) -> Result<MailView, ParseFailure> {
    if stored.len() == 0 {
        Err(ParseFailure::Structure)
    } else {
        match header {
            Ok((address, date)) => Ok(
                MailView {
                    from: address,
                    date,
                    lines: stripped(stored.skip(1)),
                    ending: line_ending(stored[0]),
                },
            ),
            Err(failure) => Err(failure),
        }
    }
}

/// The message that the stored physical lines `stored` make: the address
/// and the date of their first line, which has to be a boundary line, and
/// the lines after it.
pub open spec fn message_of(
    pattern: Seq<char>,
    date_format: Seq<char>,
    stored: Seq<Seq<char>>,
) -> Result<MailView, ParseFailure> {
    if stored.len() == 0 {
        Err(ParseFailure::Structure)
    } else {
        assembled(stored, header_of(pattern, date_format, without_line_ending(stored[0])))
    }
}

/// A header as a mathematical value.
pub open spec fn header_view(header: Result<(String, NaiveDateTime), ParseFailure>) -> Result<
    (Seq<char>, NaiveDateTime),
    ParseFailure,
> {
    match header {
        Ok((address, date)) => Ok((address@, date)),
        Err(failure) => Err(failure),
    }
}

/// What a parser hands out, as a mathematical value.
pub open spec fn outcome_view(outcome: Result<Mail, ParseFailure>) -> Result<
    MailView,
    ParseFailure,
> {
    match outcome {
        Ok(mail) => Ok(mail@),
        Err(failure) => Err(failure),
    }
}

/// What one step of a parser hands out, as a mathematical value.
pub open spec fn step_view(emitted: Option<Result<Mail, ParseFailure>>) -> Option<
    Result<MailView, ParseFailure>,
> {
    match emitted {
        Some(outcome) => Some(outcome_view(outcome)),
        None => None,
    }
}

/// What a run of a parser hands out, as a mathematical value.
pub open spec fn outcome_views(outcomes: Seq<Result<Mail, ParseFailure>>) -> Seq<
    Result<MailView, ParseFailure>,
> {
    Seq::new(outcomes.len(), |i: int| outcome_view(outcomes[i]))
}

impl MboxView {
    /// A parser that has read nothing.
    pub open spec fn fresh(pattern: Seq<char>, date_format: Seq<char>) -> MboxView {
        MboxView { pattern, date_format, left: Seq::empty(), phase: Phase::AwaitingFirstLine }
    }

    /// Whether a line ends the message in progress: it is not the first
    /// line of the archive, and it is a boundary line.
    pub open spec fn closes(self, boundary: bool) -> bool {
        self.phase == Phase::InMessage && boundary
    }

    /// The parser after it has read the physical line `raw`, which is a
    /// boundary line or not as `boundary` says.
    pub open spec fn advance(self, raw: Seq<char>, boundary: bool) -> MboxView {
        if self.closes(boundary) {
            MboxView { left: seq![raw], ..self }
        } else {
            MboxView { left: self.left.push(raw), phase: Phase::InMessage, ..self }
        }
    }

    /// The parser after it has read the physical line `raw`.
    pub open spec fn push(self, raw: Seq<char>) -> MboxView {
        self.advance(raw, opens_message(self.pattern, raw))
    }

    /// What the parser hands out as it reads the physical line `raw`.
    pub open spec fn emits(self, raw: Seq<char>) -> Option<Result<MailView, ParseFailure>> {
        if self.closes(opens_message(self.pattern, raw)) {
            Some(message_of(self.pattern, self.date_format, self.left))
        } else {
            None
        }
    }

    /// The parser after the end of input: as one that has read nothing.
    pub open spec fn flush(self) -> MboxView {
        MboxView::fresh(self.pattern, self.date_format)
    }

    /// What the parser hands out at the end of input.
    pub open spec fn flushes(self) -> Option<Result<MailView, ParseFailure>> {
        if self.left.len() > 0 {
            Some(message_of(self.pattern, self.date_format, self.left))
        } else {
            None
        }
    }

    /// The parser after it has read the physical lines `lines`, first to
    /// last.
    pub open spec fn after(self, lines: Seq<Seq<char>>) -> MboxView
        decreases lines.len(),
    {
        if lines.len() == 0 {
            self
        } else {
            self.after(lines.drop_last()).push(lines.last())
        }
    }

    /// What the parser hands out while it reads `lines`.
    pub open spec fn emitted(self, lines: Seq<Seq<char>>) -> Seq<Result<MailView, ParseFailure>>
        decreases lines.len(),
    {
        if lines.len() == 0 {
            Seq::empty()
        } else {
            let before = self.emitted(lines.drop_last());
            match self.after(lines.drop_last()).emits(lines.last()) {
                Some(outcome) => before.push(outcome),
                None => before,
            }
        }
    }

    /// Everything the parser hands out on `lines` followed by the end of
    /// input.
    pub open spec fn yields(self, lines: Seq<Seq<char>>) -> Seq<Result<MailView, ParseFailure>> {
        match self.after(lines).flushes() {
            Some(outcome) => self.emitted(lines).push(outcome),
            None => self.emitted(lines),
        }
    }
}

impl Mbox {
    /// A parser for archives whose boundary lines have a date field of
    /// thirty characters.
    ///
    /// Whether the pattern compiles is for the `regex` crate to say.
    pub fn new(date_format: &str) -> (made: Result<Mbox, InvalidPattern>)
        ensures
            made is Ok <==> regex_compiles(FROM_LINE_WIDE@),
            made matches Ok(mbox) ==> mbox@ == MboxView::fresh(FROM_LINE_WIDE@, date_format@),
    {
        Mbox::with_pattern(FROM_LINE_WIDE, date_format)
    }

    /// A parser with a boundary pattern of the caller's: its first group is
    /// the sender address, its second the date field.
    ///
    /// Whether the pattern compiles is for the `regex` crate to say.
    pub fn with_pattern(pattern: &str, date_format: &str) -> (made: Result<Mbox, InvalidPattern>)
        ensures
            made is Ok <==> regex_compiles(pattern@),
            made matches Ok(mbox) ==> mbox@ == MboxView::fresh(pattern@, date_format@),
    {
        Mbox::from_compiled(compile(pattern), date_format)
    }

    /// A parser around a boundary pattern that is already compiled.
    pub fn from_regex(from_line_regex: Regex, date_format: &str) -> (mbox: Mbox)
        ensures
            mbox@ == MboxView::fresh(regex_pattern(from_line_regex), date_format@),
    {
        Mbox {
            from_line_regex,
            date_format: date_format.to_owned(),
            left: Vec::new(),
            phase: Phase::AwaitingFirstLine,
        }
    }

    /// A parser around what compiling a boundary pattern gave: one that
    /// has read nothing where there is a regex, and the failure handed on
    /// where there is none.
    pub fn from_compiled(
        compiled: Result<Regex, InvalidPattern>,
        date_format: &str,
    ) -> (made: Result<Mbox, InvalidPattern>)
        ensures
            match compiled {
                Ok(re) => made matches Ok(mbox) && mbox@ == MboxView::fresh(
                    regex_pattern(re),
                    date_format@,
                ),
                Err(failure) => made == Err::<Mbox, InvalidPattern>(failure),
            },
    {
        match compiled {
            Ok(from_line_regex) => Ok(Mbox::from_regex(from_line_regex, date_format)),
            Err(failure) => Err(failure),
        }
    }

    /// Whether `line`, the text of a physical line without its terminator,
    /// is a boundary line.
    pub fn is_from_line(&self, line: &str) -> (boundary: bool)
        ensures
            boundary == is_boundary(self@.pattern, line@),
    {
        regex_matches(&self.from_line_regex, line)
    }

    /// Reads what a boundary line says of its message: the sender address
    /// and the date. On a line that is no boundary line the failure is one
    /// of the archive's structure.
    pub fn read_header(&self, line: &str) -> (header: Result<(String, NaiveDateTime), ParseFailure>)
        ensures
            header_view(header) == header_of(self@.pattern, self@.date_format, line@),
            !is_boundary(self@.pattern, line@) ==> header == Err::<
                (String, NaiveDateTime),
                ParseFailure,
            >(ParseFailure::Structure),
    {
        match match_from_line(&self.from_line_regex, line) {
            None => Err(ParseFailure::Structure),
            Some((address, date_text)) => {
                match parse_date(date_text.as_str(), self.date_format.as_str()) {
                    Err(failure) => Err(failure),
                    Ok(date) => Ok((address, date)),
                }
            },
        }
    }

    /// Makes a message of stored physical lines and of what their first
    /// line says.
    pub fn assemble(
        stored: Vec<String>,
        header: Result<(String, NaiveDateTime), ParseFailure>,
    ) -> (outcome: Result<Mail, ParseFailure>)
        ensures
            outcome_view(outcome) == assembled(texts(stored@), header_view(header)),
    {
        if stored.len() == 0 {
            return Err(ParseFailure::Structure);
        }
        match header {
            Err(failure) => Err(failure),
            Ok((from, date)) => {
                let mut lines: Vec<String> = Vec::new();
                let mut i: usize = 1;
                while i < stored.len()
                    invariant
                        1 <= i <= stored.len(),
                        lines.len() == i - 1,
                        forall|j: int|
                            0 <= j < lines.len() ==> (#[trigger] lines@[j])@
                                == without_line_ending(stored@[j + 1]@),
                    decreases stored.len() - i,
                {
                    lines.push(strip_line_ending(stored[i].as_str()).to_owned());
                    i += 1;
                }
                assert(texts(lines@) =~= stripped(texts(stored@).skip(1)));
                let ending = line_ending_of(stored[0].as_str()).to_owned();
                Ok(Mail { from, date, lines, ending })
            },
        }
    }

    /// Makes a message of stored physical lines.
    pub fn message(&self, stored: Vec<String>) -> (outcome: Result<Mail, ParseFailure>)
        ensures
            outcome_view(outcome) == message_of(
                self@.pattern,
                self@.date_format,
                texts(stored@),
            ),
    {
        if stored.len() == 0 {
            return Err(ParseFailure::Structure);
        }
        let header = self.read_header(strip_line_ending(stored[0].as_str()));
        Mbox::assemble(stored, header)
    }

    /// Stores the physical line `raw`, which is a boundary line or not as
    /// `boundary` says. Where it ends the message in progress, the lines of
    /// that message are handed out and `raw` is the first of the next.
    pub fn advance(&mut self, raw: &str, boundary: bool) -> (closed: Option<Vec<String>>)
        ensures
            final(self)@ == old(self)@.advance(raw@, boundary),
            match closed {
                Some(stored) => old(self)@.closes(boundary) && texts(stored@) == old(self)@.left,
                None => !old(self)@.closes(boundary),
            },
    {
        if self.phase == Phase::InMessage && boundary {
            let mut stored: Vec<String> = Vec::new();
            stored.push(raw.to_owned());
            core::mem::swap(&mut self.left, &mut stored);
            Some(stored)
        } else {
            self.left.push(raw.to_owned());
            self.phase = Phase::InMessage;
            None
        }
    }

    /// Takes the lines of the message in progress, if there is one, and
    /// leaves the parser as one that has read nothing.
    pub fn drain(&mut self) -> (closed: Option<Vec<String>>)
        ensures
            final(self)@ == old(self)@.flush(),
            match closed {
                Some(stored) => old(self)@.left.len() > 0 && texts(stored@) == old(self)@.left,
                None => old(self)@.left.len() == 0,
            },
    {
        let mut stored: Vec<String> = Vec::new();
        core::mem::swap(&mut self.left, &mut stored);
        self.phase = Phase::AwaitingFirstLine;
        if stored.len() > 0 {
            Some(stored)
        } else {
            None
        }
    }

    /// Reads one physical line. Where the line ends the message in
    /// progress, that message is handed out, and the line starts the next.
    pub fn push_line(&mut self, raw: &str) -> (emitted: Option<Result<Mail, ParseFailure>>)
        ensures
            final(self)@ == old(self)@.push(raw@),
            step_view(emitted) == old(self)@.emits(raw@),
    {
        let boundary = self.is_from_line(strip_line_ending(raw));
        match self.advance(raw, boundary) {
            Some(stored) => Some(self.message(stored)),
            None => None,
        }
    }

    /// Reads the end of input: the message in progress, if there is one, is
    /// handed out, and the parser is as one that has read nothing.
    pub fn finish(&mut self) -> (emitted: Option<Result<Mail, ParseFailure>>)
        ensures
            final(self)@ == old(self)@.flush(),
            step_view(emitted) == old(self)@.flushes(),
    {
        match self.drain() {
            Some(stored) => Some(self.message(stored)),
            None => None,
        }
    }

    /// Reads a whole archive that is held in memory, line by line and then
    /// the end of input, and hands out everything the parser yields on it.
    /// A parser that had read nothing hands out the messages of the
    /// archive: one for each of its pieces, in order.
    pub fn parse_all(&mut self, raw_lines: &Vec<String>) -> (outcomes: Vec<
        Result<Mail, ParseFailure>,
    >)
        ensures
            outcome_views(outcomes@) == old(self)@.yields(texts(raw_lines@)),
            old(self)@ == old(self)@.flush() ==> outcome_views(outcomes@) == records(
                old(self)@.pattern,
                old(self)@.date_format,
                texts(raw_lines@),
            ),
            final(self)@ == old(self)@.flush(),
    {
        let ghost start = self@;
        let ghost lines = texts(raw_lines@);
        let mut outcomes: Vec<Result<Mail, ParseFailure>> = Vec::new();
        let mut i: usize = 0;
        while i < raw_lines.len()
            invariant
                i <= raw_lines.len(),
                lines == texts(raw_lines@),
                self@ == start.after(lines.take(i as int)),
                self@.pattern == start.pattern,
                self@.date_format == start.date_format,
                outcome_views(outcomes@) == start.emitted(lines.take(i as int)),
            decreases raw_lines.len() - i,
        {
            assert(lines.take(i + 1).drop_last() =~= lines.take(i as int));
            if let Some(outcome) = self.push_line(raw_lines[i].as_str()) {
                outcomes.push(outcome);
            }
            i += 1;
        }
        assert(lines.take(raw_lines.len() as int) =~= lines);
        if let Some(outcome) = self.finish() {
            outcomes.push(outcome);
        }
        proof {
            lemma_parser_yields_records(start.pattern, start.date_format, lines);
        }
        outcomes
    }
}

} // verus!
