use mailpot::cli::{enable_subscription_changeset, list_update_changeset, text_option, SubscriptionOptions};

fn no_options() -> SubscriptionOptions {
    SubscriptionOptions {
        name: None,
        digest: None,
        hide_address: None,
        verified: None,
        receive_confirmation: None,
        receive_duplicates: None,
        receive_own_posts: None,
        enabled: None,
    }
}

#[test]
fn subscription_option_defaults() {
    let s = no_options().into_subscription(4, "a@example.com".into());
    assert_eq!((s.pk, s.list, s.address.as_str()), (0, 4, "a@example.com"));
    assert!(!s.digest && !s.hide_address && !s.receive_own_posts);
    assert!(s.receive_confirmation && s.receive_duplicates && s.enabled);
    let mut o = no_options();
    o.digest = Some(true);
    o.enabled = Some(false);
    o.name = Some("A".into());
    let s = o.into_subscription(4, "a@example.com".into());
    assert!(s.digest && !s.enabled);
    assert_eq!(s.name.as_deref(), Some("A"));
}

#[test]
fn text_options_change_as_the_command_line_says() {
    assert_eq!(text_option(Some(String::new())), None);
    assert_eq!(text_option(None), Some(None));
    assert_eq!(text_option(Some("x".into())), Some(Some("x".to_string())));
}

#[test]
fn subscription_changesets() {
    let mut o = no_options();
    o.digest = Some(true);
    let c = o.into_changeset(2, "a@example.com".into());
    assert_eq!(c.name, Some(None));
    assert_eq!(c.digest, Some(true));
    assert_eq!(c.enabled, None);
    let c = enable_subscription_changeset(2, "a@example.com".into(), false);
    assert_eq!(c.enabled, Some(false));
    assert!(c.name.is_none() && c.digest.is_none());
}

#[test]
fn list_update_changesets() {
    let c = list_update_changeset(
        3,
        Some("New".into()),
        None,
        None,
        Some(String::new()),
        None,
        Some("owner".into()),
        None,
        Some(true),
        None,
        None,
    );
    assert_eq!(c.pk, 3);
    assert_eq!(c.name.as_deref(), Some("New"));
    assert_eq!(c.description, None);
    assert_eq!(c.archive_url, Some(None));
    assert_eq!(c.owner_local_part, Some(Some("owner".to_string())));
    assert_eq!(c.verify, Some(true));
}
