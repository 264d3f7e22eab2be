use mailpot::errors::ErrorKind;
use mailpot::models::{Address, PostPolicy};
use mailpot::policies::{
    check_post_policy, check_subscription_policy, sql_error, subscription_for_request,
    SubscriptionPolicy,
};

fn post_policy(open: bool, approval_needed: bool) -> PostPolicy {
    PostPolicy {
        pk: 0,
        list: 1,
        announce_only: false,
        subscription_only: false,
        approval_needed,
        open,
        custom: false,
    }
}

#[test]
fn empty_policies_are_refused() {
    let err = check_post_policy(&post_policy(false, false)).unwrap_err();
    assert_eq!(
        err.to_string(),
        "Cannot add empty policy. Having no policies is probably what you want to do."
    );
    assert!(check_post_policy(&post_policy(true, false)).is_ok());
    let empty = SubscriptionPolicy {
        pk: 0,
        list: 1,
        send_confirmation: true,
        open: false,
        manual: false,
        request: false,
        custom: false,
    };
    let err = check_subscription_policy(&empty).unwrap_err();
    assert_eq!(
        err.to_string(),
        "Cannot add empty policy. Having no policy is probably what you want to do."
    );
    assert!(check_subscription_policy(&SubscriptionPolicy { manual: true, ..empty }).is_ok());
}

#[test]
fn not_found_errors() {
    let e = sql_error("Query returned no rows".into(), true, "list");
    assert_eq!(e.to_string(), "This list is not present in the database.");
    assert_eq!(
        e.display_chain(),
        "[1] This list is not present in the database. Caused by:\n[2] Error returned from \
         sqlite3 Query returned no rows.\n"
    );
    let e = sql_error("disk I/O error".into(), false, "list");
    assert!(matches!(e.kind, ErrorKind::Sql(_)));
    assert!(e.source.is_none());
}

#[test]
fn subscription_requests() {
    let from = Address::new(Some("Jane".into()), "jane@example.com".into());
    let s = subscription_for_request(3, &from, &None);
    assert_eq!((s.pk, s.list, s.address.as_str()), (0, 3, "jane@example.com"));
    assert_eq!(s.name.as_deref(), Some("Jane"));
    assert!(s.enabled && s.receive_duplicates && s.receive_confirmation);
    assert!(!s.digest && !s.hide_address && !s.receive_own_posts);
    let s = subscription_for_request(3, &from, &Some(post_policy(false, true)));
    assert!(!s.enabled);
}
