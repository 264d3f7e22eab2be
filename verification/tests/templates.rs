use mailpot::errors::ErrorKind;
use mailpot::models::ListMembership;
use mailpot::templates::{reply_context, Template, ADMIN_NOTICE, GENERIC_FAILURE, GENERIC_HELP};

#[test]
fn built_in_templates() {
    let t = Template::default_generic_failure();
    assert_eq!(t.name, GENERIC_FAILURE);
    assert_eq!(t.pk, -1);
    assert_eq!(t.list, None);
    assert_eq!(t.headers_json, None);
    assert_eq!(
        t.subject.as_deref(),
        Some("{{ subject if subject else \"Your e-mail was not processed successfully.\" }}")
    );
    assert_eq!(
        t.body,
        "{{ details|safe if details else \"The list owners and administrators have been notified.\" }}"
    );
    assert_eq!(Template::default_admin_notice().name, ADMIN_NOTICE);
    assert_eq!(Template::default_generic_help().name, GENERIC_HELP);
    for t in [
        Template::default_generic_success(),
        Template::default_subscription_confirmation(),
        Template::default_unsubscription_confirmation(),
        Template::default_subscription_request_owner(),
        Template::default_subscription_request_candidate_accept(),
    ] {
        assert_eq!(t.pk, -1);
        assert!(t.subject.is_some());
    }
}

fn chat() -> mailpot::models::MailingList {
    mailpot::models::MailingList {
        pk: 7,
        name: "foobar chat".to_string(),
        id: "foo-chat".to_string(),
        address: "foo-chat@example.com".to_string(),
        description: None,
        archive_url: None,
    }
}

#[test]
fn rendering_built_in_templates() {
    let l = chat();
    let ctx = reply_context(&l, Some("Your post was rejected.".to_string()), None, None);
    let r = Template::default_generic_failure().render(&ctx).unwrap();
    assert_eq!(r.subject.as_deref(), Some("Your post was rejected."));
    assert_eq!(r.body, "The list owners and administrators have been notified.");

    let ctx = reply_context(&l, None, None, None);
    let r = Template::default_subscription_confirmation().render(&ctx).unwrap();
    assert_eq!(
        r.subject.as_deref(),
        Some("[foo-chat] You have successfully subscribed to foobar chat.")
    );
    let r = Template::default_admin_notice().render(&ctx).unwrap();
    assert_eq!(r.subject.as_deref(), Some("An error occured with list foo-chat"));
}

#[test]
fn rendering_a_subscription_request_notice() {
    let l = chat();
    let candidate = ListMembership {
        pk: 12,
        list: 7,
        address: "new@example.com".to_string(),
        name: None,
        digest: false,
        hide_address: false,
        receive_duplicates: true,
        receive_own_posts: false,
        receive_confirmation: true,
        enabled: false,
    };
    let ctx = reply_context(&l, None, None, Some(&candidate));
    let r = Template::default_subscription_request_owner().render(&ctx).unwrap();
    assert_eq!(r.body, "Candidate primary key: 12\n\n");
    assert!(r.subject.unwrap().starts_with("Subscription request for foo-chat by "));
}

#[test]
fn a_broken_template_is_a_template_error() {
    let l = chat();
    let mut t = Template::default_generic_success();
    t.body = "{% if %}".to_string();
    let err = t.render(&reply_context(&l, None, None, None)).unwrap_err();
    assert!(matches!(err.kind, ErrorKind::Template(_)));
}

#[test]
fn built_in_templates_by_name() {
    let t = Template::default_of(GENERIC_HELP).unwrap();
    assert_eq!(t.name, "generic-help");
    assert_eq!(t.body, "{{ details }}");
    assert_eq!(t.pk, -1);
    let f = Template::default_of(ADMIN_NOTICE).unwrap();
    assert_eq!(f.subject.as_deref(), Template::default_admin_notice().subject.as_deref());
    assert!(Template::default_of(GENERIC_FAILURE).is_some());
    assert!(Template::default_of("subscription-notice-candidate-accept").is_some());
    assert!(Template::default_of("no-such-template").is_none());
}
