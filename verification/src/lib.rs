//! Splits a line-oriented mailbox archive into messages and plans their
//! delivery to a remote mail store.
//!
//! The parser in [`mbox`] is a state machine fed one physical line at a time;
//! [`archive`] states what it yields on a whole archive, and proves it.
//! [`migrate`] decides, for each message, the mailbox it goes to, the instant
//! it was sent at, and what a reply of the store means for the run.
//!
//! Reading files and talking to the mail store are left to the caller. What
//! the crate takes on trust from `regex` and `chrono` stands at the top of
//! [`pattern`] and [`date`]; everything else is proved.

pub mod archive;
pub mod config;
pub mod date;
pub mod error;
pub mod mail;
pub mod mbox;
pub mod migrate;
pub mod pattern;
pub mod text;
