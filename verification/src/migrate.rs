//! The migration, message by message: which mailbox a message goes to, at
//! which instant it was sent, what is handed to the mail store, and what a
//! reply of the store means for the run.

use crate::config::{ImapConfig, MboxConfig};
use crate::date::{instant_at, offset_east, seconds_east, to_instant, Instant};
use crate::error::{MigrateError, ParseFailure, SinkError};
use crate::mail::{Mail, MailView};
use crate::text::{joined, texts};
use chrono::FixedOffset;
use vstd::prelude::*;

verus! {

/// The mailbox for what the owner sent.
pub const SENT_MAILBOX: &'static str = "\\Sent";

/// A mark that the mail store keeps with a message.
#[derive(Clone, Copy, Debug, PartialEq, Eq, Structural)]
pub enum Flag {
    /// The message has been read.
    Seen,
    /// The message has been answered.
    Answered,
}

/// What is handed to the mail store for one message.
#[derive(Debug)]
pub struct Upload {
    /// The mailbox to append to.
    pub mailbox: String,
    /// The text of the message.
    pub body: String,
    /// The marks to set on it.
    pub flags: Vec<Flag>,
    /// When it was sent.
    pub timestamp: Instant,
}

/// An upload as a mathematical value.
#[verifier::ext_equal]
pub struct UploadView {
    pub mailbox: Seq<char>,
    pub body: Seq<char>,
    pub flags: Seq<Flag>,
    pub timestamp: Instant,
}

impl View for Upload {
    type V = UploadView;

    open spec fn view(&self) -> UploadView {
        UploadView {
            mailbox: self.mailbox@,
            body: self.body@,
            flags: self.flags@,
            timestamp: self.timestamp,
        }
    }
}

/// What became of a message that was handed to the mail store.
#[derive(Debug, PartialEq, Eq)]
pub enum Disposition {
    /// The store took it.
    Stored,
    /// The store declined it, with its reason; the run goes on.
    Skipped(String),
}

/// Whether `sender` is one of the addresses `emails`, letter for letter.
pub open spec fn is_owned(emails: Seq<Seq<char>>, sender: Seq<char>) -> bool {
    emails.contains(sender)
}

/// The mailbox for a message of `sender`: the sent-items mailbox for one of
/// the owner's addresses, `dest` for any other.
pub open spec fn destination_of(emails: Seq<Seq<char>>, dest: Seq<char>, sender: Seq<char>) -> Seq<
    char,
> {
    if is_owned(emails, sender) {
        SENT_MAILBOX@
    } else {
        dest
    }
}

/// The marks that every migrated message gets.
pub open spec fn migrated_flags() -> Seq<Flag> {
    seq![Flag::Seen, Flag::Answered]
}

/// What is handed to the mail store for `mail`, sent at `timestamp`: the
/// mailbox of its sender, its lines joined by the terminator of its
/// archive, and the marks of a message that was read and answered.
pub open spec fn upload_for(
    emails: Seq<Seq<char>>,
    dest: Seq<char>,
    mail: MailView,
    timestamp: Instant,
) -> UploadView {
    UploadView {
        mailbox: destination_of(emails, dest, mail.from),
        body: joined(mail.lines, mail.ending),
        flags: migrated_flags(),
        timestamp,
    }
}

/// What is handed to the mail store for `mail`, sent at the instant at
/// which a clock in the time zone `offset` showed its date. `None` where
/// that instant cannot be represented.
pub open spec fn planned(
    emails: Seq<Seq<char>>,
    dest: Seq<char>,
    offset: FixedOffset,
    mail: MailView,
) -> Option<UploadView> {
    match instant_at(offset, mail.date) {
        Some(utc) => Some(upload_for(emails, dest, mail, Instant { utc, offset })),
        None => None,
    }
}

impl MboxConfig {
    /// Whether `sender` is one of the owner's addresses.
    pub fn owns(&self, sender: &String) -> (owned: bool)
        ensures
            owned == is_owned(texts(self.emails@), sender@),
    {
        let mut i: usize = 0;
        while i < self.emails.len()
            invariant
                i <= self.emails.len(),
                forall|j: int| 0 <= j < i ==> texts(self.emails@)[j] != sender@,
            decreases self.emails.len() - i,
        {
            if self.emails[i] == *sender {
                assert(texts(self.emails@)[i as int] == sender@);
                return true;
            }
            i += 1;
        }
        false
    }

    /// The mailbox that a message of `sender` goes to.
    pub fn destination<'a>(&'a self, sender: &String) -> (mailbox: &'a str)
        ensures
            mailbox@ == destination_of(texts(self.emails@), self.dest@, sender@),
    {
        if self.owns(sender) {
            SENT_MAILBOX
        } else {
            self.dest.as_str()
        }
    }
}

impl ImapConfig {
    /// The time zone of the archive's dates. There is none where the
    /// configured offset is a day or more.
    pub fn offset(&self) -> (outcome: Result<FixedOffset, MigrateError>)
        ensures
            outcome is Ok <==> -86_400 < self.tz_offset < 86_400,
            outcome matches Ok(offset) ==> seconds_east(offset) == self.tz_offset,
            outcome matches Err(error) ==> error is TimezoneConversion,
    {
        offset_east(self.tz_offset)
    }
}

impl Upload {
    /// What to hand to the mail store for `mail`, sent at `timestamp`.
    pub fn for_mail(config: &MboxConfig, mail: &Mail, timestamp: Instant) -> (upload: Upload)
        ensures
            upload@ == upload_for(texts(config.emails@), config.dest@, mail@, timestamp),
    {
        let mut flags: Vec<Flag> = Vec::new();
        flags.push(Flag::Seen);
        flags.push(Flag::Answered);
        Upload {
            mailbox: config.destination(&mail.from).to_owned(),
            body: mail.as_body(),
            flags,
            timestamp,
        }
    }
}

/// What to hand to the mail store for `mail`: its mailbox, its text, the
/// marks of a message that was read and answered, and the instant at which
/// a clock in the time zone `offset` showed its date. Fails where that
/// instant cannot be represented.
pub fn plan_upload(config: &MboxConfig, offset: FixedOffset, mail: &Mail) -> (outcome: Result<
    Upload,
    MigrateError,
>)
    ensures
        match outcome {
            Ok(upload) => planned(texts(config.emails@), config.dest@, offset, mail@) == Some(
                upload@,
            ),
            Err(error) => planned(texts(config.emails@), config.dest@, offset, mail@) is None
                && error is TimezoneConversion,
        },
{
    match to_instant(offset, &mail.date) {
        Err(error) => Err(error),
        Ok(timestamp) => Ok(Upload::for_mail(config, mail, timestamp)),
    }
}

/// What to do with what the parser handed out: a failure of the parser
/// ends the run, a message is planned for upload.
pub fn next_upload(
    config: &MboxConfig,
    offset: FixedOffset,
    emitted: &Result<Mail, ParseFailure>,
) -> (outcome: Result<Upload, MigrateError>)
    ensures
        match *emitted {
            Err(failure) => outcome == Err::<Upload, MigrateError>(MigrateError::Parse(failure)),
            Ok(mail) => match outcome {
                Ok(upload) => planned(texts(config.emails@), config.dest@, offset, mail@) == Some(
                    upload@,
                ),
                Err(error) => planned(texts(config.emails@), config.dest@, offset, mail@) is None
                    && error is TimezoneConversion,
            },
        },
{
    match emitted {
        Err(failure) => Err(MigrateError::Parse(*failure)),
        Ok(mail) => plan_upload(config, offset, mail),
    }
}

/// What a reply of the mail store means for the run: a message that the
/// store declines is skipped and the run goes on; any other failure of the
/// store ends the run.
pub fn triage(reply: Result<(), SinkError>) -> (outcome: Result<Disposition, MigrateError>)
    ensures
        match reply {
            Ok(_) => outcome == Ok::<Disposition, MigrateError>(Disposition::Stored),
            Err(SinkError::Recoverable(reason)) => outcome == Ok::<Disposition, MigrateError>(
                Disposition::Skipped(reason),
            ),
            Err(SinkError::Fatal(reason)) => outcome == Err::<Disposition, MigrateError>(
                MigrateError::Sink(reason),
            ),
        },
{
    match reply {
        Ok(_) => Ok(Disposition::Stored),
        Err(SinkError::Recoverable(reason)) => Ok(Disposition::Skipped(reason)),
        Err(SinkError::Fatal(reason)) => Err(MigrateError::Sink(reason)),
    }
}

} // verus!
