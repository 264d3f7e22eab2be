//! # Queues

use vstd::prelude::*;

use crate::text::str_eq;

verus! {

/// In-database queues of mail.
#[derive(Copy, Clone, Eq, PartialEq, Debug)]
pub enum Queue {
    /// Messages that have been submitted but not yet processed, await
    /// processing in the `maildrop` queue. Messages can be added to the
    /// `maildrop` queue even when mailpot is not running.
    Maildrop,
    /// List administrators may introduce rules for emails to be placed
    /// indefinitely in the `hold` queue. Messages placed in the `hold`
    /// queue stay there until the administrator intervenes. No periodic
    /// delivery attempts are made for messages in the `hold` queue.
    Hold,
    /// When all the deliverable recipients for a message are delivered, and for
    /// some recipients delivery failed for a transient reason (it might
    /// succeed later), the message is placed in the `deferred` queue.
    Deferred,
    /// Invalid received or generated e-mail saved for debug and troubleshooting
    /// reasons.
    Corrupt,
    /// Emails that must be sent as soon as possible.
    Out,
    /// Received mail that could not be processed.
    Error,
}

/// The name of a queue in the database schema.
pub open spec fn queue_name(q: Queue) -> Seq<char> {
    match q {
        Queue::Maildrop => "maildrop"@,
        Queue::Hold => "hold"@,
        Queue::Deferred => "deferred"@,
        Queue::Corrupt => "corrupt"@,
        Queue::Out => "out"@,
        Queue::Error => "error"@,
    }
}

/// The queue with the given name, if any.
pub open spec fn queue_by_name(s: Seq<char>) -> Option<Queue> {
    if s == "maildrop"@ {
        Some(Queue::Maildrop)
    } else if s == "hold"@ {
        Some(Queue::Hold)
    } else if s == "deferred"@ {
        Some(Queue::Deferred)
    } else if s == "corrupt"@ {
        Some(Queue::Corrupt)
    } else if s == "out"@ {
        Some(Queue::Out)
    } else if s == "error"@ {
        Some(Queue::Error)
    } else {
        None
    }
}

impl Queue {
    /// Returns the name of the queue used in the database schema.
    pub fn as_str(&self) -> (r: &'static str)
        ensures
            r@ == queue_name(*self),
    {
        match self {
            Self::Maildrop => "maildrop",
            Self::Hold => "hold",
            Self::Deferred => "deferred",
            Self::Corrupt => "corrupt",
            Self::Out => "out",
            Self::Error => "error",
        }
    }

    /// The queue with the given schema name.
    pub fn from_name(s: &str) -> (r: Option<Queue>)
        ensures
            r == queue_by_name(s@),
    {
        if str_eq(s, "maildrop") {
            Some(Queue::Maildrop)
        } else if str_eq(s, "hold") {
            Some(Queue::Hold)
        } else if str_eq(s, "deferred") {
            Some(Queue::Deferred)
        } else if str_eq(s, "corrupt") {
            Some(Queue::Corrupt)
        } else if str_eq(s, "out") {
            Some(Queue::Out)
        } else if str_eq(s, "error") {
            Some(Queue::Error)
        } else {
            None
        }
    }
}

/// Every queue is found again by its name.
pub proof fn lemma_queue_name_roundtrip(q: Queue)
    ensures
        queue_by_name(queue_name(q)) == Some(q),
{
    reveal_strlit("maildrop");
    reveal_strlit("hold");
    reveal_strlit("deferred");
    reveal_strlit("corrupt");
    reveal_strlit("out");
    reveal_strlit("error");
    assert("maildrop"@.len() == 8 && "hold"@.len() == 4 && "deferred"@.len() == 8);
    assert("corrupt"@.len() == 7 && "out"@.len() == 3 && "error"@.len() == 5);
    assert("deferred"@[0] != "maildrop"@[0]);
}

} // verus!
