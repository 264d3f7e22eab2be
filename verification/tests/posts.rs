use mailpot::mail::message_filters::post_body;
use mailpot::mail::{MailJob, PostAction};
use mailpot::models::{Address, ListMembership, MailingList, PostPolicy};
use mailpot::posts::{
    already_subscribed_subject, help_subject, password_step, route_received, post_disposition, read_post,
    replies_for, request_action, request_password, route_post, subscribe_outcome, subscribe_step, trim,
    unsubscribe_outcome, ListRequest, PasswordStep, PostDisposition, ReplyTo, RequestAction,
    RequestOutcome, Routing, SubscribeStep,
};
use mailpot::queue::Queue;

fn list(pk: i64, id: &str) -> MailingList {
    MailingList {
        pk,
        name: format!("{id} list"),
        id: id.to_string(),
        address: format!("{id}@example.com"),
        description: None,
        archive_url: None,
    }
}

fn addr(s: &str) -> Address {
    Address::new(None, s.to_string())
}

#[test]
fn routing_needs_recipients_senders_and_lists() {
    let lists = vec![list(1, "foo-chat")];
    assert!(matches!(route_post(&vec![], 1, &lists), Routing::NoRecipients));
    assert!(matches!(route_post(&vec![addr("foo-chat@example.com")], 0, &lists), Routing::NoSender));
    assert!(matches!(route_post(&vec![addr("foo-chat@example.com")], 1, &vec![]), Routing::NoLists));
    assert!(matches!(
        route_post(&vec![addr("other@example.com")], 1, &lists),
        Routing::Unrelated
    ));
}

#[test]
fn routing_posts_and_requests() {
    let lists = vec![list(1, "foo-chat"), list(2, "bar-chat")];
    match route_post(&vec![addr("bar-chat@example.com"), addr("x@example.com")], 1, &lists) {
        Routing::Post { lists } => assert_eq!(lists, vec![1]),
        other => panic!("unexpected {other:?}"),
    }
    match route_post(&vec![addr("foo-chat+subscribe@example.com")], 1, &lists) {
        Routing::Request { lists, request } => {
            assert_eq!(lists, vec![0]);
            assert_eq!(request, "subscribe");
        }
        other => panic!("unexpected {other:?}"),
    }
    // A sub-address of an address that is no list's is no request.
    assert!(matches!(
        route_post(&vec![addr("nobody+subscribe@example.com")], 1, &lists),
        Routing::Unrelated
    ));
}

#[test]
fn list_requests_by_sub_address_and_subject() {
    assert!(matches!(ListRequest::parse("subscribe", ""), ListRequest::Subscribe));
    assert!(matches!(ListRequest::parse("unsubscribe", "whatever"), ListRequest::Unsubscribe));
    assert!(matches!(ListRequest::parse("help", ""), ListRequest::Help));
    assert!(matches!(ListRequest::parse("request", "  subscribe \n"), ListRequest::Subscribe));
    assert!(matches!(ListRequest::parse("request", "help"), ListRequest::Help));
    match ListRequest::parse("request", " password ") {
        ListRequest::Other(n) => assert_eq!(n, "password"),
        other => panic!("unexpected {other:?}"),
    }
    match ListRequest::parse("owner", "") {
        ListRequest::Other(n) => assert_eq!(n, "owner"),
        other => panic!("unexpected {other:?}"),
    }
    assert_eq!(trim("\t a b \r\n"), "a b");
}

#[test]
fn request_actions() {
    assert!(matches!(request_action(&ListRequest::Help), RequestAction::SendHelp));
    assert!(matches!(request_action(&ListRequest::Subscribe), RequestAction::Subscribe));
    assert!(matches!(request_action(&ListRequest::Unsubscribe), RequestAction::Unsubscribe));
    assert!(matches!(
        request_action(&ListRequest::Other(" PassWord ".to_string())),
        RequestAction::SetPassword
    ));
    match request_action(&ListRequest::Other("owner".to_string())) {
        RequestAction::Refuse(m) => assert_eq!(m, "list-owner emails are not implemented yet."),
        other => panic!("unexpected {other:?}"),
    }
    match request_action(&ListRequest::Other("digest".to_string())) {
        RequestAction::Refuse(m) => assert_eq!(m, "Unknown request digest."),
        other => panic!("unexpected {other:?}"),
    }
}

#[test]
fn replies_to_request_outcomes() {
    let l = list(1, "foo-chat");
    assert_eq!(help_subject(&l), "Help for foo-chat list");
    assert_eq!(already_subscribed_subject(&l), "You are already subscribed to foo-chat.");

    let r = replies_for(&l, RequestOutcome::AlreadySubscribed);
    assert_eq!(r.len(), 1);
    assert_eq!(r[0].template, "generic-failure");
    assert_eq!(r[0].to, ReplyTo::Sender);
    assert_eq!(r[0].subject.as_deref(), Some("You are already subscribed to foo-chat."));
    assert_eq!(
        r[0].details.as_deref(),
        Some("No action has been taken since you are already subscribed to the list.")
    );

    let r = replies_for(&l, RequestOutcome::Subscribed);
    assert_eq!((r.len(), r[0].template, r[0].to), (1, "subscription-confirmation", ReplyTo::Sender));
    let r = replies_for(&l, RequestOutcome::CandidateAdded);
    assert_eq!((r.len(), r[0].template, r[0].to), (1, "subscription-notice-owner", ReplyTo::Owners));
    let r = replies_for(&l, RequestOutcome::Unsubscribed);
    assert_eq!((r.len(), r[0].template), (1, "unsubscription-confirmation"));

    let r = replies_for(&l, RequestOutcome::UnsubscribeFailed("no such subscription".to_string()));
    assert_eq!(r.len(), 2);
    assert_eq!((r[0].template, r[0].to), ("generic-failure", ReplyTo::Sender));
    assert_eq!((r[1].template, r[1].to), ("admin-notice", ReplyTo::Owners));
    assert_eq!(r[1].details.as_deref(), Some("no such subscription"));
    let r = replies_for(&l, RequestOutcome::SubscriptionFailed("duplicate".to_string()));
    assert_eq!(r.len(), 2);
    assert_eq!(r[1].details.as_deref(), Some("duplicate"));
}

#[test]
fn post_dispositions() {
    let l = list(1, "foo-chat");
    let jobs = vec![
        MailJob::Send { recipients: vec![addr("a@example.com"), addr("b@example.com")] },
        MailJob::StoreDigest { recipients: vec![addr("c@example.com")] },
        MailJob::Send { recipients: vec![addr("d@example.com")] },
    ];
    match post_disposition(&l, PostAction::Accept, &jobs) {
        PostDisposition::Deliver { recipients } => {
            let r: Vec<&str> = recipients.iter().map(|a| a.address_spec.as_str()).collect();
            assert_eq!(r, vec!["a@example.com", "b@example.com", "d@example.com"]);
        }
        other => panic!("unexpected {other:?}"),
    }
    match post_disposition(&l, PostAction::Reject { reason: "spam".to_string() }, &jobs) {
        PostDisposition::Refuse { reply, queue, comment } => {
            assert_eq!(reply.template, "generic-failure");
            assert_eq!(reply.subject.as_deref(), Some("Your post to foo-chat was rejected."));
            assert_eq!(reply.details.as_deref(), Some("spam"));
            assert_eq!(queue, None);
            assert_eq!(comment, "PostAction::Reject { reason: spam }");
        }
        other => panic!("unexpected {other:?}"),
    }
    match post_disposition(&l, PostAction::Defer { reason: "wait".to_string() }, &jobs) {
        PostDisposition::Refuse { reply, queue, comment } => {
            assert_eq!(reply.subject.as_deref(), Some("Your post to foo-chat was deferred."));
            assert_eq!(queue, Some(Queue::Deferred));
            assert_eq!(comment, "PostAction::Defer { reason: wait }");
        }
        other => panic!("unexpected {other:?}"),
    }
    match post_disposition(&l, PostAction::Hold, &jobs) {
        PostDisposition::Keep { queue, comment } => {
            assert_eq!(queue, Queue::Hold);
            assert_eq!(comment, "PostAction::Hold");
        }
        other => panic!("unexpected {other:?}"),
    }
}

#[test]
fn reading_a_post() {
    let raw = b"From: Jane <jane@example.com>\r\nTo: foo-chat@example.com\r\nSubject: hello\r\nMessage-ID: <abc@example.com>\r\nDate: Mon, 3 Jul 2023 12:00:00 +0000\r\n\r\nbody\r\n";
    let env = read_post(raw).unwrap();
    assert_eq!(env.to.len(), 1);
    assert_eq!(env.to[0].address_spec, "foo-chat@example.com");
    assert_eq!(env.from[0].address_spec, "jane@example.com");
    assert_eq!(env.from[0].display_name.as_deref(), Some("Jane"));
    assert_eq!(env.subject, "hello");
    assert_eq!(env.message_id, "<abc@example.com>");
    assert_eq!(env.date, "Mon, 3 Jul 2023 12:00:00 +0000");
    assert_eq!(env.timestamp, 1688385600);
    assert_eq!(post_body(raw), Some(b"body\r\n".to_vec()));
}

#[test]
fn retrieval_and_setting_requests_are_refused() {
    match request_action(&ListRequest::RetrieveMessages(vec!["<a@b>".to_string()])) {
        RequestAction::Refuse(m) => assert_eq!(m, "message retrievals are not implemented yet."),
        other => panic!("unexpected {other:?}"),
    }
    match request_action(&ListRequest::RetrieveArchive("2023-01".into(), "2023-02".into())) {
        RequestAction::Refuse(m) => assert_eq!(m, "message retrievals are not implemented yet."),
        other => panic!("unexpected {other:?}"),
    }
    match request_action(&ListRequest::ChangeSetting("digest".into(), true)) {
        RequestAction::Refuse(m) => {
            assert_eq!(m, "setting digest options via e-mail is not implemented yet.")
        }
        other => panic!("unexpected {other:?}"),
    }
}

fn policy(approval_needed: bool) -> PostPolicy {
    PostPolicy {
        pk: 1,
        list: 1,
        announce_only: false,
        subscription_only: false,
        approval_needed,
        open: !approval_needed,
        custom: false,
    }
}

#[test]
fn subscribe_steps() {
    let jane = Address::new(Some("Jane".to_string()), "jane@example.com".to_string());
    assert!(matches!(subscribe_step(1, &jane, true, &None), SubscribeStep::AlreadySubscribed));
    match subscribe_step(1, &jane, false, &Some(policy(false))) {
        SubscribeStep::AddSubscription(s) => {
            assert_eq!(s.list, 1);
            assert_eq!(s.address, "jane@example.com");
            assert_eq!(s.name.as_deref(), Some("Jane"));
            assert!(s.enabled);
        }
        other => panic!("unexpected {other:?}"),
    }
    match subscribe_step(1, &jane, false, &Some(policy(true))) {
        SubscribeStep::AddCandidate(s) => {
            assert_eq!(s.address, "jane@example.com");
            assert!(!s.enabled);
        }
        other => panic!("unexpected {other:?}"),
    }
    assert!(matches!(subscribe_step(1, &jane, false, &None), SubscribeStep::AddSubscription(_)));
}

#[test]
fn subscribe_and_unsubscribe_outcomes() {
    let jane = Address::new(None, "jane@example.com".to_string());
    let already = subscribe_step(1, &jane, true, &None);
    assert!(matches!(subscribe_outcome(&already, Ok(())), RequestOutcome::AlreadySubscribed));
    let add = subscribe_step(1, &jane, false, &None);
    assert!(matches!(subscribe_outcome(&add, Ok(())), RequestOutcome::Subscribed));
    match subscribe_outcome(&add, Err("disk full".to_string())) {
        RequestOutcome::SubscriptionFailed(m) => assert_eq!(m, "disk full"),
        other => panic!("unexpected {other:?}"),
    }
    let candidate = subscribe_step(1, &jane, false, &Some(policy(true)));
    assert!(matches!(subscribe_outcome(&candidate, Ok(())), RequestOutcome::CandidateAdded));
    assert!(matches!(unsubscribe_outcome(Ok(())), RequestOutcome::Unsubscribed));
    match unsubscribe_outcome(Err("no such subscription".to_string())) {
        RequestOutcome::UnsubscribeFailed(m) => assert_eq!(m, "no such subscription"),
        other => panic!("unexpected {other:?}"),
    }
}

#[test]
fn password_steps() {
    let sub = ListMembership {
        pk: 3,
        list: 1,
        address: "jane@example.com".to_string(),
        name: Some("Jane".to_string()),
        digest: false,
        hide_address: false,
        receive_duplicates: true,
        receive_own_posts: false,
        receive_confirmation: true,
        enabled: true,
    };
    assert!(matches!(password_step(None, true, "pw".to_string()), PasswordStep::Nothing));
    match password_step(Some(&sub), true, "pw".to_string()) {
        PasswordStep::UpdateAccount(c) => {
            assert_eq!(c.address, "jane@example.com");
            assert_eq!(c.password.as_deref(), Some("pw"));
            assert!(c.name.is_none() && c.public_key.is_none() && c.enabled.is_none());
        }
        other => panic!("unexpected {other:?}"),
    }
    match password_step(Some(&sub), false, "pw".to_string()) {
        PasswordStep::AddAccount { address, name, password, enabled } => {
            assert_eq!(address, "jane@example.com");
            assert_eq!(name.as_deref(), Some("Jane"));
            assert_eq!(password, "pw");
            assert!(enabled);
        }
        other => panic!("unexpected {other:?}"),
    }
}

#[test]
fn the_password_of_a_request_is_the_decoded_body() {
    let raw = b"From: jane@example.com\r\nTo: foo-chat+password@example.com\r\n\
Content-Type: text/plain; charset=utf-8\r\nContent-Transfer-Encoding: quoted-printable\r\n\r\nse=63ret";
    assert_eq!(request_password(raw), "secret");
}

#[test]
fn routing_errors_of_received_mail() {
    let lists = vec![list(1, "foo-chat")];
    let msg = |r: Result<Routing, mailpot::errors::Error>| match r {
        Err(e) => match e.kind {
            mailpot::errors::ErrorKind::Generic(m) => m,
            other => panic!("unexpected {other:?}"),
        },
        Ok(r) => panic!("unexpected {r:?}"),
    };
    assert_eq!(msg(route_received(&vec![], 1, &lists)), "Envelope To: field is empty!");
    assert_eq!(
        msg(route_received(&vec![addr("foo-chat@example.com")], 0, &lists)),
        "Envelope From: field is empty!"
    );
    assert_eq!(
        msg(route_received(&vec![addr("foo-chat@example.com")], 1, &vec![])),
        "No active mailing lists found."
    );
    let m = msg(route_received(&vec![addr("other@example.com")], 1, &lists));
    assert!(m.starts_with("No relevant mailing list found for these addresses: ["), "{m}");
    assert!(m.contains("other@example.com"), "{m}");
    assert!(matches!(
        route_received(&vec![addr("foo-chat@example.com")], 1, &lists),
        Ok(Routing::Post { .. })
    ));
}
