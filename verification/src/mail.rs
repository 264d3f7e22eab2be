//! Types for processing new posts: [`PostEntry`], [`ListContext`], the
//! [`PostAction`] a post ends with and the [`MailJob`]s it schedules.

pub mod message_filters;

use vstd::prelude::*;

use crate::models::{opt_str, Address, ListMembership, ListOwner, MailingList, PostPolicy};

verus! {

/// The characters of an address: its display name and its address spec.
pub open spec fn addr_view(a: Address) -> (Option<Seq<char>>, Seq<char>) {
    (opt_str(a.display_name), a.address_spec@)
}

/// The characters of a sequence of addresses.
pub open spec fn addrs_view(v: Seq<Address>) -> Seq<(Option<Seq<char>>, Seq<char>)> {
    v.map_values(|a: Address| addr_view(a))
}

/// What to do with a post.
#[derive(Debug)]
pub enum PostAction {
    /// Keep it in the hold queue.
    Hold,
    /// Accept it.
    Accept,
    /// Reject it and tell the submitter why.
    Reject {
        /// Why.
        reason: String,
    },
    /// Defer it until the list owners approve it.
    Defer {
        /// Why.
        reason: String,
    },
}

/// A [`PostAction`] as characters.
pub enum ActionView {
    /// See [`PostAction::Hold`].
    Hold,
    /// See [`PostAction::Accept`].
    Accept,
    /// See [`PostAction::Reject`].
    Reject(Seq<char>),
    /// See [`PostAction::Defer`].
    Defer(Seq<char>),
}

/// The view of an action.
pub open spec fn action_view(a: PostAction) -> ActionView {
    match a {
        PostAction::Hold => ActionView::Hold,
        PostAction::Accept => ActionView::Accept,
        PostAction::Reject { reason } => ActionView::Reject(reason@),
        PostAction::Defer { reason } => ActionView::Defer(reason@),
    }
}

/// A job that processing a post schedules.
#[derive(Debug)]
pub enum MailJob {
    /// Send the post to these recipients.
    Send {
        /// Recipients.
        recipients: Vec<Address>,
    },
    /// Relay the post to these recipients.
    Relay {
        /// Recipients.
        recipients: Vec<Address>,
    },
    /// Report an error.
    Error {
        /// What went wrong.
        description: String,
    },
    /// Store the post for the digests of these recipients.
    StoreDigest {
        /// Recipients.
        recipients: Vec<Address>,
    },
    /// Confirm a subscription.
    ConfirmSubscription {
        /// Who subscribed.
        recipient: Address,
    },
    /// Confirm an unsubscription.
    ConfirmUnsubscription {
        /// Who unsubscribed.
        recipient: Address,
    },
}

/// The list a post is considered for, with what the filters need of it.
#[derive(Debug)]
pub struct ListContext {
    /// Which mailing list a post was addressed to.
    pub list: MailingList,
    /// The mailing list owners.
    pub list_owners: Vec<ListOwner>,
    /// The mailing list subscriptions.
    pub subscriptions: Vec<ListMembership>,
    /// The mailing list post policy.
    pub post_policy: Option<PostPolicy>,
    /// Schedule jobs, i.e. after the post is processed.
    pub scheduled_jobs: Vec<MailJob>,
}

/// Post to be considered by the list's filter stack.
#[derive(Debug)]
pub struct PostEntry {
    /// `Message-ID` header value of the post.
    pub message_id: String,
    /// `From` address of the post.
    pub from: Address,
    /// Raw bytes of the post.
    pub bytes: Vec<u8>,
    /// `To` addresses of the post.
    pub to: Vec<Address>,
    /// Final action set by each filter.
    pub action: PostAction,
}

} // verus!
