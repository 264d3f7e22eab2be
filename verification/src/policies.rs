//! How each list handles new posts and new subscriptions: which policies may
//! be set, and which subscription a request from an address creates.

use vstd::prelude::*;

use crate::errors::{Error, ErrorKind};
use crate::models::{opt_str, post_policy_nonempty, Address, ListMembership, PostPolicy};

verus! {

/// A mailing list subscription policy entry.
///
/// Only one of the boolean flags must be set to true.
#[derive(Debug)]
pub struct SubscriptionPolicy {
    /// Database primary key.
    pub pk: i64,
    /// Mailing list foreign key.
    pub list: i64,
    /// Send confirmation e-mail when subscription is finalized.
    pub send_confirmation: bool,
    /// Anyone can subscribe without restrictions.
    pub open: bool,
    /// Only list owners can manually add subscriptions.
    pub manual: bool,
    /// Anyone can request to subscribe.
    pub request: bool,
    /// Allow subscriptions, but handle it manually.
    pub custom: bool,
}

/// Whether a subscription policy sets at least one of its kinds.
pub open spec fn subscription_policy_nonempty(p: SubscriptionPolicy) -> bool {
    p.open || p.manual || p.request || p.custom
}

/// Checks a post policy before it is set: an empty one is refused.
pub fn check_post_policy(policy: &PostPolicy) -> (r: Result<(), Error>)
    ensures
        r is Ok <==> post_policy_nonempty(*policy),
        r matches Err(e) ==> (e.source is None && (e.kind matches ErrorKind::Generic(m) && m@
            == "Cannot add empty policy. Having no policies is probably what you want to do."@)),
{
    if !(policy.announce_only || policy.subscription_only || policy.approval_needed || policy.open
        || policy.custom) {
        return Err(
            Error::generic(
                String::from_str(
                    "Cannot add empty policy. Having no policies is probably what you want to do.",
                ),
            ),
        );
    }
    Ok(())
}

/// Checks a subscription policy before it is set: an empty one is refused.
pub fn check_subscription_policy(policy: &SubscriptionPolicy) -> (r: Result<(), Error>)
    ensures
        r is Ok <==> subscription_policy_nonempty(*policy),
        r matches Err(e) ==> (e.source is None && (e.kind matches ErrorKind::Generic(m) && m@
            == "Cannot add empty policy. Having no policy is probably what you want to do."@)),
{
    if !(policy.open || policy.manual || policy.request || policy.custom) {
        return Err(
            Error::generic(
                String::from_str(
                    "Cannot add empty policy. Having no policy is probably what you want to do.",
                ),
            ),
        );
    }
    Ok(())
}

/// The error of a database operation that `sqlite3` refused with `message`:
/// when the refusal is the one that means the entry was not there
/// (`is_not_found`), a `NotFound(what)` error caused by it, otherwise the
/// `sqlite3` error itself.
pub fn sql_error(message: String, is_not_found: bool, what: &'static str) -> (r: Error)
    ensures
        is_not_found ==> r.kind == ErrorKind::NotFound(what) && r.source == Some(
            Box::new(Error { kind: ErrorKind::Sql(message), source: None }),
        ),
        !is_not_found ==> r.kind == ErrorKind::Sql(message) && r.source is None,
{
    let e = Error::from_kind(ErrorKind::Sql(message));
    if is_not_found {
        e.chain_err(|| -> (h: Error)
            ensures
                h.kind == ErrorKind::NotFound(what),
            { Error::from_kind(ErrorKind::NotFound(what)) })
    } else {
        e
    }
}

/// Whether the list's post policy needs the owners' approval of new
/// subscriptions.
pub open spec fn approval_needed(post_policy: Option<PostPolicy>) -> bool {
    post_policy matches Some(p) && p.approval_needed
}

/// Whether `r` is the subscription that a subscribe request from `from`
/// creates on list `list`: it takes the sender's address and display name,
/// receives duplicates and confirmations but not its own posts, and is
/// enabled unless the list's post policy needs approval.
pub open spec fn request_subscription(
    r: ListMembership,
    list: i64,
    from: Address,
    post_policy: Option<PostPolicy>,
) -> bool {
    &&& r.pk == 0
    &&& r.list == list
    &&& r.address@ == from.address_spec@
    &&& (from.display_name matches Some(d) && d@.len() > 0) ==> opt_str(r.name) == opt_str(
        from.display_name,
    )
    &&& !(from.display_name matches Some(d) && d@.len() > 0) ==> r.name is None
    &&& !r.digest
    &&& !r.hide_address
    &&& r.receive_duplicates
    &&& !r.receive_own_posts
    &&& r.receive_confirmation
    &&& r.enabled == !approval_needed(post_policy)
}

/// The subscription that a subscribe request from `from` creates on list
/// `list` (see `request_subscription`).
pub fn subscription_for_request(list: i64, from: &Address, post_policy: &Option<PostPolicy>) -> (r:
    ListMembership)
    ensures
        request_subscription(r, list, *from, *post_policy),
{
    let approval_needed = match post_policy {
        Some(p) => p.approval_needed,
        None => false,
    };
    ListMembership {
        pk: 0,
        list,
        address: from.get_email(),
        name: from.get_display_name(),
        digest: false,
        hide_address: false,
        receive_duplicates: true,
        receive_own_posts: false,
        receive_confirmation: true,
        enabled: !approval_needed,
    }
}

} // verus!
