//! Mailing list manager library: the data model, the rules for incoming
//! posts and requests, the list headers and the postfix configuration that
//! mailpot generates.

use vstd::prelude::*;

pub mod cli;
pub mod connection;
pub mod errors;
pub mod import;
pub mod lints;
pub mod mail;
pub mod migrations;
pub mod models;
pub mod policies;
pub mod postfix;
pub mod posts;
pub mod queue;
pub mod script;
pub mod templates;
pub mod text;

pub use models::MailtoAddress;

verus! {

/// The examples of the README, run as documentation tests.
pub struct ReadmeDoctests;

} // verus!
