//! Errors of this library.

use vstd::prelude::*;

use crate::text::{dec_nat, push_u64, string_push};

verus! {

/// Mailpot library error kind. Errors that come from outside the library
/// (sqlite3, I/O, e-mail parsing, JSON, templates) carry their message.
#[derive(Debug)]
pub enum ErrorKind {
    /// Post rejected.
    PostRejected(String),
    /// An entry was not found in the database.
    NotFound(&'static str),
    /// A request was invalid.
    InvalidRequest(String),
    /// An error happened and it was handled internally.
    Information(String),
    /// An error that shouldn't happen and should be reported.
    Bug(String),
    /// Error returned from an external user initiated operation such as
    /// deserialization or I/O.
    External(String),
    /// Generic
    Generic(String),
    /// Error returned from sqlite3.
    Sql(String),
    /// Error returned from the sqlite3 library.
    SqlLib(String),
    /// Error returned from internal I/O operations.
    Io(String),
    /// Error returned from e-mail protocol operations from `melib` crate.
    Melib(String),
    /// Error from deserializing JSON values.
    SerdeJson(String),
    /// Error returned from the template engine.
    Template(String),
}

/// The message of an error kind.
pub open spec fn kind_message(k: ErrorKind) -> Seq<char> {
    match k {
        ErrorKind::PostRejected(s) => "Your post has been rejected: "@ + s@,
        ErrorKind::NotFound(s) => "This "@ + s@ + " is not present in the database."@,
        ErrorKind::InvalidRequest(s) => "Your list request has been found invalid: "@ + s@
            + "."@,
        ErrorKind::Information(s) => "An error happened and it was handled internally: "@
            + s@ + "."@,
        ErrorKind::Bug(s) => "An error that shouldn't happen and should be reported: "@ + s@
            + "."@,
        ErrorKind::External(s) =>
            "Error returned from an external user initiated operation such as deserialization or I/O. "@
            + s@,
        ErrorKind::Generic(s) => s@,
        ErrorKind::Sql(s) => "Error returned from sqlite3 "@ + s@ + "."@,
        ErrorKind::SqlLib(s) => "Error returned from sqlite3. "@ + s@,
        ErrorKind::Io(s) => "Error returned from internal I/O operations. "@ + s@,
        ErrorKind::Melib(s) =>
            "Error returned from e-mail protocol operations from `melib` crate. "@ + s@,
        ErrorKind::SerdeJson(s) => "Error from deserializing JSON values. "@ + s@,
        ErrorKind::Template(s) => "Error returned from minijinja template engine. "@ + s@,
    }
}

impl ErrorKind {
    /// The message of this error kind.
    pub fn message(&self) -> (r: String)
        ensures
            r@ == kind_message(*self),
    {
        let mut r;
        match self {
            ErrorKind::PostRejected(s) => {
                r = String::from_str("Your post has been rejected: ");
                r.append(s.as_str());
            },
            ErrorKind::NotFound(s) => {
                r = String::from_str("This ");
                r.append(s);
                r.append(" is not present in the database.");
            },
            ErrorKind::InvalidRequest(s) => {
                r = String::from_str("Your list request has been found invalid: ");
                r.append(s.as_str());
                r.append(".");
            },
            ErrorKind::Information(s) => {
                r = String::from_str("An error happened and it was handled internally: ");
                r.append(s.as_str());
                r.append(".");
            },
            ErrorKind::Bug(s) => {
                r = String::from_str("An error that shouldn't happen and should be reported: ");
                r.append(s.as_str());
                r.append(".");
            },
            ErrorKind::External(s) => {
                r = String::from_str(
                    "Error returned from an external user initiated operation such as deserialization or I/O. ",
                );
                r.append(s.as_str());
            },
            ErrorKind::Generic(s) => {
                r = s.clone();
            },
            ErrorKind::Sql(s) => {
                r = String::from_str("Error returned from sqlite3 ");
                r.append(s.as_str());
                r.append(".");
            },
            ErrorKind::SqlLib(s) => {
                r = String::from_str("Error returned from sqlite3. ");
                r.append(s.as_str());
            },
            ErrorKind::Io(s) => {
                r = String::from_str("Error returned from internal I/O operations. ");
                r.append(s.as_str());
            },
            ErrorKind::Melib(s) => {
                r = String::from_str(
                    "Error returned from e-mail protocol operations from `melib` crate. ",
                );
                r.append(s.as_str());
            },
            ErrorKind::SerdeJson(s) => {
                r = String::from_str("Error from deserializing JSON values. ");
                r.append(s.as_str());
            },
            ErrorKind::Template(s) => {
                r = String::from_str("Error returned from minijinja template engine. ");
                r.append(s.as_str());
            },
        }
        r
    }
}

/// Mailpot library error: a kind and the error that caused it, if any.
#[derive(Debug)]
pub struct Error {
    /// What went wrong.
    pub kind: ErrorKind,
    /// The error that caused this one.
    pub source: Option<Box<Error>>,
}

/// The number of errors in a chain.
pub open spec fn chain_len(e: Error) -> nat
    decreases e,
{
    match e.source {
        Some(s) => 1 + chain_len(*s),
        None => 1,
    }
}

/// The error chain as it is displayed to a user, numbering the errors from
/// `counter`: `[n] message Caused by:` for each error with a source, and
/// `[n] message` for the last one, each on its own line.
pub open spec fn chain_display(e: Error, counter: nat) -> Seq<char>
    decreases e,
{
    match e.source {
        Some(s) => seq!['['] + dec_nat(counter) + "] "@ + kind_message(e.kind)
            + " Caused by:\n"@ + chain_display(*s, counter + 1),
        None => seq!['['] + dec_nat(counter) + "] "@ + kind_message(e.kind) + seq!['\n'],
    }
}

/// Result type of this library.
pub type Result<T> = std::result::Result<T, Error>;

impl Error {
    /// Error of the given kind, with no source.
    pub fn from_kind(kind: ErrorKind) -> (r: Error)
        ensures
            r.kind == kind,
            r.source is None,
    {
        Error { kind, source: None }
    }

    /// Helper function to create a new generic error message.
    pub fn new_external(msg: String) -> (r: Error)
        ensures
            r.kind == ErrorKind::External(msg),
            r.source is None,
    {
        Error { kind: ErrorKind::External(msg), source: None }
    }

    /// A generic error with the given message.
    pub fn generic(msg: String) -> (r: Error)
        ensures
            r.kind == ErrorKind::Generic(msg),
            r.source is None,
    {
        Error { kind: ErrorKind::Generic(msg), source: None }
    }

    /// Chain an error by introducing a new head of the error chain: the
    /// error that `lambda` returns, caused by `self`.
    pub fn chain_err<F: FnOnce() -> Error>(self, lambda: F) -> (r: Error)
        requires
            call_requires(lambda, ()),
        ensures
            exists|head: Error| call_ensures(lambda, (), head) && r.kind == head.kind,
            r.source == Some(Box::new(self)),
    {
        let new_head = lambda();
        Error { kind: new_head.kind, source: Some(Box::new(self)) }
    }

    /// Insert a source error into this Error.
    pub fn with_source(self, source: Error) -> (r: Error)
        ensures
            r.kind == self.kind,
            r.source == Some(Box::new(source)),
    {
        Error { kind: self.kind, source: Some(Box::new(source)) }
    }

    /// Getter for the kind field.
    pub fn kind(&self) -> (r: &ErrorKind)
        ensures
            *r == self.kind,
    {
        &self.kind
    }

    /// The message of this error (its kind's).
    pub fn to_string(&self) -> (r: String)
        ensures
            r@ == kind_message(self.kind),
    {
        self.kind.message()
    }

    /// Display error chain to user.
    pub fn display_chain(&self) -> (r: String)
        requires
            chain_len(*self) < u64::MAX,
        ensures
            r@ == chain_display(*self, 1),
    {
        let mut s = String::new();
        Self::push_chain(self, 1, &mut s);
        assert(s@ =~= chain_display(*self, 1));
        s
    }

    fn push_chain(e: &Error, counter: u64, s: &mut String)
        requires
            counter + chain_len(*e) <= u64::MAX,
        ensures
            final(s)@ == old(s)@ + chain_display(*e, counter as nat),
        decreases e,
    {
        string_push(s, '[');
        push_u64(s, counter);
        s.append("] ");
        let m = e.kind.message();
        s.append(m.as_str());
        match &e.source {
            Some(src) => {
                s.append(" Caused by:\n");
                let ghost mid = s@;
                Self::push_chain(src, counter + 1, s);
                assert(final(s)@ =~= old(s)@ + chain_display(*e, counter as nat));
            },
            None => {
                string_push(s, '\n');
                assert(final(s)@ =~= old(s)@ + chain_display(*e, counter as nat));
            },
        }
    }
}

/// Chaining a new head onto an error shows the head first, then the old
/// chain renumbered from two.
pub proof fn lemma_chain_err_display(e: Error, head: ErrorKind)
    ensures
        chain_display(Error { kind: head, source: Some(Box::new(e)) }, 1) == seq!['['] + dec_nat(1)
            + "] "@ + kind_message(head) + " Caused by:\n"@ + chain_display(e, 2),
        chain_len(Error { kind: head, source: Some(Box::new(e)) }) == chain_len(e) + 1,
{
}

} // verus!
