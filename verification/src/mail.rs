//! A message of the archive.

use crate::date::{date_text, naive_to_string};
use crate::text::{join_lines, joined, texts};
use vstd::string::*;
use chrono::NaiveDateTime;
use vstd::prelude::*;

verus! {

/// One message: who sent it, when, and its lines.
#[derive(Debug)]
pub struct Mail {
    /// The sender address of the boundary line.
    pub from: String,
    /// The date of the boundary line, with no time zone.
    pub date: NaiveDateTime,
    /// The lines after the boundary line, each without its terminator.
    pub lines: Vec<String>,
    /// The terminator that the boundary line had in the archive.
    pub ending: String,
}

/// A message as a mathematical value.
#[verifier::ext_equal]
pub struct MailView {
    pub from: Seq<char>,
    pub date: NaiveDateTime,
    pub lines: Seq<Seq<char>>,
    pub ending: Seq<char>,
}

impl View for Mail {
    type V = MailView;

    open spec fn view(&self) -> MailView {
        MailView {
            from: self.from@,
            date: self.date,
            lines: texts(self.lines@),
            ending: self.ending@,
        }
    }
}

impl Mail {
    /// The text of the message: its lines, with the terminator of its
    /// archive between each two.
    pub fn as_body(&self) -> (body: String)
        ensures
            body@ == joined(self@.lines, self@.ending),
    {
        join_lines(&self.lines, self.ending.as_str())
    }

    /// The line that shows the message: its sender and its date.
    pub fn summary(&self) -> (line: String)
        ensures
            line@ == "From: "@ + self@.from + ", sent: "@ + date_text(self.date),
    {
        let mut line = "From: ".to_owned();
        line.append(self.from.as_str());
        line.append(", sent: ");
        line.append(naive_to_string(&self.date).as_str());
        line
    }
}

} // verus!
