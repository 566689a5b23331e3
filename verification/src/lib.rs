//! Rules of a small HTTP bridge to IMAP and SMTP mailboxes.

pub mod accounts;
pub mod api;
pub mod auth;
pub mod command;
pub mod config;
pub mod courses;
pub mod date;
pub mod decimal;
pub mod exchange;
pub mod folder;
pub mod letter_case;
pub mod outcomes;
pub mod outgoing;
pub mod params;
pub mod reply;
pub mod summary;
pub mod text;
pub mod watch;
