use mailpot::models::changesets::{
    update_statement, AccountChangeset, ListSubscriptionChangeset, MailingListChangeset, SqlValue,
};

fn columns(u: &[mailpot::models::changesets::ColumnUpdate]) -> Vec<&'static str> {
    u.iter().map(|c| c.column).collect()
}

#[test]
fn list_changeset_updates_in_order() {
    let empty = MailingListChangeset::default();
    assert!(empty.is_empty());
    assert!(empty.updates().is_empty());

    let c = MailingListChangeset {
        pk: 1,
        name: Some("new name".into()),
        description: Some(None),
        hidden: Some(true),
        ..Default::default()
    };
    assert!(!c.is_empty());
    let u = c.updates();
    assert_eq!(columns(&u), vec!["name", "description", "hidden"]);
    assert!(matches!(&u[0].value, SqlValue::Text(s) if s == "new name"));
    assert!(matches!(u[1].value, SqlValue::Null));
    assert!(matches!(u[2].value, SqlValue::Bool(true)));
}

#[test]
fn subscription_and_account_changesets() {
    let c = ListSubscriptionChangeset {
        list: 1,
        address: "a@example.com".into(),
        account: Some(Some(4)),
        digest: Some(true),
        receive_confirmation: Some(false),
        ..Default::default()
    };
    assert!(!c.is_empty());
    let u = c.updates();
    assert_eq!(columns(&u), vec!["account", "digest", "receive_confirmation"]);
    assert!(matches!(u[0].value, SqlValue::Int(4)));
    assert!(ListSubscriptionChangeset::default().is_empty());

    let a = AccountChangeset {
        address: "a@example.com".into(),
        password: Some("secret".into()),
        enabled: Some(None),
        ..Default::default()
    };
    assert!(!a.is_empty());
    let u = a.updates();
    assert_eq!(columns(&u), vec!["password", "enabled"]);
    assert!(matches!(u[1].value, SqlValue::Null));
    assert!(AccountChangeset::default().is_empty());
}

#[test]
fn update_statements() {
    assert_eq!(
        update_statement("list", "name", "pk = ?"),
        "UPDATE list SET name = ? WHERE pk = ?;"
    );
}
