use mailpot::import::{base_url, basic_auth_header, roster_url, Entry};

#[test]
fn roster_entries_without_a_real_name() {
    for name in ["None", "", "   "] {
        let e = Entry::new(name.to_string(), "a@example.com".to_string());
        assert_eq!(e.display_name(), None);
        let s = e.into_subscription(7);
        assert_eq!(s.name, None);
        assert_eq!(s.list, 7);
        assert_eq!(s.pk, -1);
    }
}

#[test]
fn roster_entries_with_a_name() {
    let e = Entry::new("Alice".to_string(), "alice@example.com".to_string());
    assert_eq!(e.display_name(), Some("Alice"));
    assert_eq!(e.email(), "alice@example.com");
    let s = e.into_subscription(2);
    assert_eq!(s.address, "alice@example.com");
    assert_eq!(s.name.as_deref(), Some("Alice"));
    assert!(s.enabled && s.verified);
    assert_eq!(s.account, None);
    let m = Entry::new("Alice".to_string(), "alice@example.com".to_string())
        .into_subscription(2)
        .into_membership();
    assert_eq!((m.pk, m.list, m.address.as_str(), m.enabled), (-1, 2, "alice@example.com", true));
    assert!(!s.digest && !s.hide_address && !s.receive_duplicates);
    assert!(!s.receive_own_posts && !s.receive_confirmation);

    let o = Entry::new("Bob".to_string(), "bob@example.com".to_string()).into_owner(3);
    assert_eq!((o.pk, o.list, o.address.as_str(), o.name.as_deref()), (-1, 3, "bob@example.com", Some("Bob")));
}

#[test]
fn mailman_requests() {
    assert_eq!(basic_auth_header("user", "pass"), "Basic dXNlcjpwYXNz");
    assert_eq!(basic_auth_header("", ""), "Basic Og==");
    assert_eq!(base_url("https://mm.example.com/3.1///"), "https://mm.example.com/3.1");
    assert_eq!(base_url(""), "");
    assert_eq!(
        roster_url("https://mm.example.com/3.1", "list@example.com", "member"),
        "https://mm.example.com/3.1/lists/list@example.com/roster/member?fields=email&fields=display_name"
    );
}
