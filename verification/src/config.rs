//! The settings of a run.

use vstd::prelude::*;

verus! {

/// Where the archive is, how it is read, and where its messages go.
#[derive(Debug)]
pub struct MboxConfig {
    /// The path of the archive.
    pub path: String,
    /// The mailbox for messages that others sent.
    pub dest: String,
    /// The owner's own addresses: what they sent goes to the sent-items
    /// mailbox.
    pub emails: Vec<String>,
    /// The dry-run flag of the settings.
    pub dryrun: bool,
    /// The grammar of the date field of a boundary line.
    pub date_format: String,
    /// The upper date filter of the settings, if there is one.
    pub before_date: Option<String>,
    /// The lower date filter of the settings, if there is one.
    pub after_date: Option<String>,
}

/// How the mail store is reached, and the time zone of the archive's dates.
#[derive(Debug)]
pub struct ImapConfig {
    /// The seconds that the archive's clock is east of UTC.
    pub tz_offset: i64,
    /// The host name of the mail store.
    pub domain: String,
    /// Its port.
    pub port: u16,
    /// The account.
    pub username: String,
    /// Its password.
    pub password: String,
}

} // verus!
