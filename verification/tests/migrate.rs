use chrono::{NaiveDate, NaiveDateTime};
use mbox_migrate::config::MboxConfig;
use mbox_migrate::date::{offset_east, Instant};
use mbox_migrate::pattern::FROM_LINE_NARROW;
use mbox_migrate::error::{MigrateError, ParseFailure, SinkError};
use mbox_migrate::mail::Mail;
use mbox_migrate::mbox::Mbox;
use mbox_migrate::migrate::{
    next_upload, plan_upload, triage, Disposition, Flag, Upload, SENT_MAILBOX,
};

fn config(emails: &[&str]) -> MboxConfig {
    MboxConfig {
        path: String::from("./archive.mbox"),
        dest: String::from("Archive"),
        emails: emails.iter().map(|email| String::from(*email)).collect(),
        dryrun: false,
        date_format: String::from("%a %b %d %T %z %Y"),
        before_date: None,
        after_date: None,
    }
}

fn mail(from: &str, lines: &[&str]) -> Mail {
    Mail {
        from: String::from(from),
        date: NaiveDate::from_ymd_opt(2018, 3, 8).unwrap().and_hms_opt(4, 14, 36).unwrap(),
        lines: lines.iter().map(|line| String::from(*line)).collect(),
        ending: String::from("\r\n"),
    }
}

fn three_messages() -> Vec<Result<Mail, ParseFailure>> {
    let archive = vec![
        String::from("From 1594@xxx Thu Mar 08 04:14:36 +0000 2018\r\n"),
        String::from("one\r\n"),
        String::from("From me@x.com Fri Mar 09 10:00:00 +0000 2018\r\n"),
        String::from("two\r\n"),
        String::from("From 1596@xxx Sat Mar 10 23:59:59 +0000 2018\r\n"),
        String::from("three\r\n"),
    ];
    Mbox::new("%a %b %d %T %z %Y").unwrap().parse_all(&archive)
}

/// Runs the uploads as an application does: one append for each message,
/// in order, until the store fails. Hands back the bodies that were
/// attempted and how the run ended.
fn run(
    emitted: Vec<Result<Mail, ParseFailure>>,
    replies: Vec<Result<(), SinkError>>,
) -> (Vec<String>, Vec<Disposition>, Result<(), MigrateError>) {
    let settings = config(&["me@x.com"]);
    let offset = offset_east(0).unwrap();
    let mut replies = replies.into_iter();
    let mut attempted = Vec::new();
    let mut dispositions = Vec::new();
    for outcome in emitted.iter() {
        let upload = match next_upload(&settings, offset, outcome) {
            Ok(upload) => upload,
            Err(error) => return (attempted, dispositions, Err(error)),
        };
        attempted.push(upload.body);
        match triage(replies.next().unwrap()) {
            Ok(disposition) => dispositions.push(disposition),
            Err(error) => return (attempted, dispositions, Err(error)),
        }
    }
    (attempted, dispositions, Ok(()))
}

#[test]
fn message_of_the_owner_goes_to_the_sent_mailbox() {
    let settings = config(&["me@x.com"]);
    assert_eq!(settings.destination(&String::from("me@x.com")), "\\Sent");
    assert_eq!(SENT_MAILBOX, "\\Sent");
    assert!(settings.owns(&String::from("me@x.com")));
}

#[test]
fn message_of_anyone_else_goes_to_the_configured_mailbox() {
    let settings = config(&["me@x.com"]);
    assert_eq!(settings.destination(&String::from("you@x.com")), "Archive");
    assert_eq!(settings.destination(&String::from("")), "Archive");
    assert!(!settings.owns(&String::from("you@x.com")));
}

#[test]
fn addresses_are_compared_letter_for_letter() {
    let settings = config(&["me@x.com"]);
    assert_eq!(settings.destination(&String::from("Me@x.com")), "Archive");
    assert_eq!(settings.destination(&String::from("me@x.com ")), "Archive");
    assert_eq!(settings.destination(&String::from("me@x.co")), "Archive");
    assert_eq!(settings.destination(&String::from("<me@x.com>")), "Archive");
}

#[test]
fn any_of_several_own_addresses_goes_to_the_sent_mailbox() {
    let settings = config(&["me@x.com", "me@work.example", "old@x.com"]);
    assert_eq!(settings.destination(&String::from("me@work.example")), "\\Sent");
    assert_eq!(settings.destination(&String::from("old@x.com")), "\\Sent");
    assert_eq!(settings.destination(&String::from("new@x.com")), "Archive");
}

#[test]
fn without_own_addresses_everything_goes_to_the_configured_mailbox() {
    let settings = config(&[]);
    assert_eq!(settings.destination(&String::from("me@x.com")), "Archive");
}

#[test]
fn upload_holds_mailbox_body_flags_and_instant() {
    let settings = config(&["me@x.com"]);
    let offset = offset_east(3600).unwrap();
    let upload: Upload =
        plan_upload(&settings, offset, &mail("you@x.com", &["Subject: hi", "", "hello"])).unwrap();
    assert_eq!(upload.mailbox, "Archive");
    assert_eq!(upload.body, "Subject: hi\r\n\r\nhello");
    assert_eq!(upload.flags, vec![Flag::Seen, Flag::Answered]);
    assert_eq!(upload.timestamp.utc.and_utc().timestamp(), 1_520_478_876);
    assert_eq!(upload.timestamp.utc.and_utc().timestamp_subsec_nanos(), 0);
    assert_eq!(upload.timestamp.offset.local_minus_utc(), 3600);
}

#[test]
fn upload_of_an_own_message_goes_to_the_sent_mailbox() {
    let settings = config(&["me@x.com"]);
    let offset = offset_east(0).unwrap();
    let upload = plan_upload(&settings, offset, &mail("me@x.com", &[])).unwrap();
    assert_eq!(upload.mailbox, "\\Sent");
    assert_eq!(upload.body, "");
    assert_eq!(upload.timestamp.utc.and_utc().timestamp(), 1_520_482_476);
}

#[test]
fn date_that_cannot_be_placed_is_a_timezone_failure() {
    let settings = config(&["me@x.com"]);
    let offset = offset_east(-3600).unwrap();
    let mut late = mail("you@x.com", &["x"]);
    late.date = NaiveDateTime::MAX;
    assert_eq!(
        plan_upload(&settings, offset, &late).map(|upload| upload.body),
        Err(MigrateError::TimezoneConversion)
    );
}

#[test]
fn failure_of_the_parser_ends_the_run() {
    let settings = config(&["me@x.com"]);
    let offset = offset_east(0).unwrap();
    assert_eq!(
        next_upload(&settings, offset, &Err(ParseFailure::Structure)).map(|upload| upload.body),
        Err(MigrateError::Parse(ParseFailure::Structure))
    );
    assert_eq!(
        next_upload(&settings, offset, &Err(ParseFailure::DateFormat)).map(|upload| upload.body),
        Err(MigrateError::Parse(ParseFailure::DateFormat))
    );
}

#[test]
fn message_of_the_parser_is_planned() {
    let settings = config(&["me@x.com"]);
    let offset = offset_east(0).unwrap();
    let upload = next_upload(&settings, offset, &Ok(mail("me@x.com", &["a", "b"]))).unwrap();
    assert_eq!(upload.mailbox, "\\Sent");
    assert_eq!(upload.body, "a\r\nb");
}

#[test]
fn stored_message_lets_the_run_go_on() {
    assert_eq!(triage(Ok(())), Ok(Disposition::Stored));
}

#[test]
fn declined_message_is_skipped_and_the_run_goes_on() {
    assert_eq!(
        triage(Err(SinkError::Recoverable(String::from("quota")))),
        Ok(Disposition::Skipped(String::from("quota")))
    );
}

#[test]
fn other_failure_of_the_store_ends_the_run() {
    assert_eq!(
        triage(Err(SinkError::Fatal(String::from("connection lost")))),
        Err(MigrateError::Sink(String::from("connection lost")))
    );
}

#[test]
fn declined_second_message_does_not_keep_the_third_from_being_sent() {
    let replies = vec![Ok(()), Err(SinkError::Recoverable(String::from("quota"))), Ok(())];
    let (attempted, dispositions, end) = run(three_messages(), replies);
    assert_eq!(attempted, vec!["one", "two", "three"]);
    assert_eq!(
        dispositions,
        vec![Disposition::Stored, Disposition::Skipped(String::from("quota")), Disposition::Stored]
    );
    assert_eq!(end, Ok(()));
}

#[test]
fn failed_store_keeps_the_later_messages_from_being_sent() {
    let replies = vec![Ok(()), Err(SinkError::Fatal(String::from("gone"))), Ok(())];
    let (attempted, dispositions, end) = run(three_messages(), replies);
    assert_eq!(attempted, vec!["one", "two"]);
    assert_eq!(dispositions, vec![Disposition::Stored]);
    assert_eq!(end, Err(MigrateError::Sink(String::from("gone"))));
}

#[test]
fn messages_reach_the_store_in_the_order_of_the_archive() {
    let settings = config(&["me@x.com"]);
    let offset = offset_east(0).unwrap();
    let uploads: Vec<Upload> = three_messages()
        .iter()
        .map(|outcome| next_upload(&settings, offset, outcome).unwrap())
        .collect();
    let mailboxes: Vec<&str> = uploads.iter().map(|upload| upload.mailbox.as_str()).collect();
    assert_eq!(mailboxes, vec!["Archive", "\\Sent", "Archive"]);
    let seconds: Vec<i64> =
        uploads.iter().map(|upload| upload.timestamp.utc.and_utc().timestamp()).collect();
    assert_eq!(seconds, vec![1_520_482_476, 1_520_589_600, 1_520_726_399]);
}

#[test]
fn upload_for_a_mail_keeps_the_instant_it_is_given() {
    let settings = config(&["me@x.com"]);
    let utc = NaiveDate::from_ymd_opt(1970, 1, 1).unwrap().and_hms_nano_opt(0, 0, 42, 7).unwrap();
    let timestamp = Instant { utc, offset: offset_east(-60).unwrap() };
    let upload = Upload::for_mail(&settings, &mail("me@x.com", &["a", "", "b"]), timestamp);
    assert_eq!(upload.mailbox, "\\Sent");
    assert_eq!(upload.body, "a\r\n\r\nb");
    assert_eq!(upload.flags, vec![Flag::Seen, Flag::Answered]);
    assert_eq!(upload.timestamp.utc, utc);
    assert_eq!(upload.timestamp.offset.local_minus_utc(), -60);
}

#[test]
fn upload_of_a_line_feed_archive_is_joined_by_line_feeds() {
    let archive = vec![
        String::from("From a@b.c Thu Mar  8 04:14:36 2018\n"),
        String::from("Subject: hi\n"),
        String::from("\n"),
        String::from("hello\n"),
    ];
    let found = Mbox::with_pattern(FROM_LINE_NARROW, "%a %b %e %T %Y").unwrap().parse_all(&archive);
    let upload = next_upload(&config(&[]), offset_east(0).unwrap(), &found[0]).unwrap();
    assert_eq!(upload.body, "Subject: hi\n\nhello");
}

#[test]
fn upload_of_a_carriage_return_archive_is_joined_by_both() {
    let upload =
        next_upload(&config(&[]), offset_east(0).unwrap(), &three_messages()[0]).unwrap();
    assert_eq!(upload.body, "one");
    let mut two_lines = mail("a@b.c", &["x", "y"]);
    two_lines.ending = String::from("\n");
    let upload = plan_upload(&config(&[]), offset_east(0).unwrap(), &two_lines).unwrap();
    assert_eq!(upload.body, "x\ny");
}
