use mailpot::models::{Address, ListMembership, ListOwner, MailingList};

fn list() -> MailingList {
    MailingList {
        pk: 1,
        name: "foobar chat".to_string(),
        id: "foo-chat".to_string(),
        address: "foo-chat@example.com".to_string(),
        description: None,
        archive_url: None,
    }
}

#[test]
fn list_headers() {
    let l = list();
    assert_eq!(l.display_name(), "\"foobar chat\" <foo-chat@example.com>");
    assert_eq!(l.post_header().unwrap(), "<mailto:foo-chat@example.com>");
    assert_eq!(
        l.unsubscribe_header().unwrap(),
        "<mailto:foo-chat-request@example.com?subject=unsubscribe>"
    );
    assert_eq!(l.archive_header(), None);
    assert_eq!(l.to_display_string(), "[#1 foo-chat] foobar chat <foo-chat@example.com>");
}

#[test]
fn list_addresses() {
    let l = list();
    let u = l.unsubscribe_mailto().unwrap();
    assert_eq!(u.address, "foo-chat-request@example.com");
    assert_eq!(u.subject.as_deref(), Some("unsubscribe"));
    let s = l.subscribe_mailto().unwrap();
    assert_eq!(s.address, "foo-chat-request@example.com");
    assert_eq!(s.subject.as_deref(), Some("subscribe"));
    assert_eq!(l.subaddress("owner"), "foo-chat+owner@example.com");
    let a = l.address();
    assert_eq!(a.to_display_string(), "foobar chat <foo-chat@example.com>");
    assert_eq!(l.archive_url(), None);
}

#[test]
fn list_with_archive_and_description() {
    let mut l = list();
    l.archive_url = Some("https://lists.example.com".to_string());
    l.description = Some("Chat".to_string());
    assert_eq!(l.archive_header().as_deref(), Some("<https://lists.example.com>"));
    assert_eq!(l.archive_url(), Some("https://lists.example.com"));
    assert_eq!(
        l.to_display_string(),
        "[#1 foo-chat] foobar chat <foo-chat@example.com>: Chat"
    );
}

#[test]
fn address_display() {
    assert_eq!(Address::new(None, "a@example.com".into()).to_display_string(), "a@example.com");
    assert_eq!(
        Address::new(Some("".into()), "a@example.com".into()).to_display_string(),
        "a@example.com"
    );
    assert_eq!(
        Address::new(Some("Doe, Jane".into()), "j@example.com".into()).to_display_string(),
        "\"Doe, Jane\" <j@example.com>"
    );
    let a = Address::new(Some("".into()), "a@example.com".into());
    assert_eq!(a.get_display_name(), None);
    assert_eq!(a.get_email(), "a@example.com");
    assert!(a.same_as(&Address::new(Some("Other".into()), "a@example.com".into())));
}

#[test]
fn membership_and_owner_display() {
    let m = ListMembership {
        pk: 1,
        list: 1,
        address: "user@example.com".into(),
        name: Some("User".into()),
        digest: false,
        hide_address: true,
        receive_duplicates: true,
        receive_own_posts: false,
        receive_confirmation: true,
        enabled: true,
    };
    assert_eq!(
        m.to_display_string(),
        "User <user@example.com> [digest: false, hide_address: true enabled]"
    );
    let o = ListOwner { pk: 2, list: 1, address: "owner@example.com".into(), name: None };
    assert_eq!(o.to_display_string(), "[#2 1] owner@example.com");
    let from_owner = ListMembership::from_owner(ListOwner {
        pk: 2,
        list: 1,
        address: "owner@example.com".into(),
        name: Some("Owner".into()),
    });
    assert_eq!(from_owner.address, "owner@example.com");
    assert_eq!(from_owner.name.as_deref(), Some("Owner"));
}

#[test]
fn list_id_help_and_subscribe_headers() {
    let mut l = list();
    assert_eq!(l.id_header(), "<foo-chat.example.com>");
    assert_eq!(
        l.help_header().as_deref(),
        Some("<mailto:foo-chat-request@example.com?subject=help>")
    );
    assert_eq!(
        l.subscribe_header().as_deref(),
        Some("<mailto:foo-chat-request@example.com?subject=subscribe>")
    );
    l.description = Some("Chat about foobar".to_string());
    assert_eq!(l.id_header(), "Chat about foobar <foo-chat.example.com>");
}
