//! The ways in which a migration fails.

use vstd::prelude::*;

verus! {

/// Why the parser could not make a message of the lines it had stored.
#[derive(Clone, Copy, Debug, PartialEq, Eq, Structural)]
pub enum ParseFailure {
    /// The first stored line is no boundary line with an address and a
    /// date field: the archive is damaged, or of another kind.
    Structure,
    /// The boundary line has a date field, and the date grammar does not
    /// read it: the configured grammar is not the archive's.
    DateFormat,
}

/// What the mail store answers when it does not take a message.
#[derive(Debug, PartialEq, Eq)]
pub enum SinkError {
    /// The store declines this one message; the next may still be sent.
    Recoverable(String),
    /// The store fails in a way that is not about this message.
    Fatal(String),
}

/// What ends a run.
#[derive(Debug, PartialEq, Eq)]
pub enum MigrateError {
    /// The parser could not make a message.
    Parse(ParseFailure),
    /// The date of a message cannot be placed at the configured offset.
    TimezoneConversion,
    /// The mail store failed, with its reason.
    Sink(String),
}

} // verus!
