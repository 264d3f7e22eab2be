use mailpot::mail::message_filters::{
    crlf_normalize, list_filters, reply_message, run_filters, AddListHeaders, ArchivedAtLink, Filter,
    FilterOutcome, FinalizeRecipients, FixCRLF, PostRightsCheck,
};
use mailpot::mail::{ListContext, MailJob, PostAction, PostEntry};
use mailpot::models::{Address, ListMembership, ListOwner, MailingList, PostPolicy};

fn list() -> MailingList {
    MailingList {
        pk: 1,
        name: "foobar chat".to_string(),
        id: "foo-chat".to_string(),
        address: "foo-chat@example.com".to_string(),
        description: None,
        archive_url: None,
    }
}

fn member(address: &str, digest: bool, receive_own_posts: bool) -> ListMembership {
    ListMembership {
        pk: 0,
        list: 1,
        address: address.to_string(),
        name: None,
        digest,
        hide_address: false,
        receive_duplicates: true,
        receive_own_posts,
        receive_confirmation: true,
        enabled: true,
    }
}

fn owner(address: &str) -> ListOwner {
    ListOwner { pk: 1, list: 1, address: address.to_string(), name: None }
}

fn policy(announce_only: bool, subscription_only: bool, approval_needed: bool) -> PostPolicy {
    PostPolicy {
        pk: 1,
        list: 1,
        announce_only,
        subscription_only,
        approval_needed,
        open: !(announce_only || subscription_only || approval_needed),
        custom: false,
    }
}

fn ctx(post_policy: Option<PostPolicy>, subscriptions: Vec<ListMembership>) -> ListContext {
    ListContext {
        list: list(),
        list_owners: vec![owner("owner@example.com")],
        subscriptions,
        post_policy,
        scheduled_jobs: vec![],
    }
}

fn post(from: &str, bytes: &[u8]) -> PostEntry {
    PostEntry {
        message_id: "<abc@example.com>".to_string(),
        from: Address::new(None, from.to_string()),
        bytes: bytes.to_vec(),
        to: vec![Address::new(None, "foo-chat@example.com".to_string())],
        action: PostAction::Hold,
    }
}

const MAIL: &[u8] = b"From: user@example.com\r\nTo: foo-chat@example.com\r\nSubject: hello\r\n\r\nbody\r\n";

fn reason(a: &PostAction) -> (&'static str, String) {
    match a {
        PostAction::Hold => ("hold", String::new()),
        PostAction::Accept => ("accept", String::new()),
        PostAction::Reject { reason } => ("reject", reason.clone()),
        PostAction::Defer { reason } => ("defer", reason.clone()),
    }
}

#[test]
fn announce_only_lists_take_posts_from_owners_only() {
    let c = ctx(Some(policy(true, false, false)), vec![member("user@example.com", false, false)]);
    let mut p = post("user@example.com", MAIL);
    assert!(PostRightsCheck.feed(&mut p, &c).is_err());
    assert_eq!(
        reason(&p.action),
        ("reject", "You are not allowed to post on this list.".to_string())
    );
    let mut p = post("owner@example.com", MAIL);
    assert!(PostRightsCheck.feed(&mut p, &c).is_ok());
    assert_eq!(reason(&p.action).0, "hold");
}

#[test]
fn subscription_only_lists_take_posts_from_subscriptions_only() {
    let c = ctx(Some(policy(false, true, false)), vec![member("user@example.com", false, false)]);
    let mut p = post("stranger@example.com", MAIL);
    assert!(PostRightsCheck.feed(&mut p, &c).is_err());
    assert_eq!(
        reason(&p.action),
        ("reject", "Only subscriptions can post to this list.".to_string())
    );
    let mut p = post("user@example.com", MAIL);
    assert!(PostRightsCheck.feed(&mut p, &c).is_ok());
}

#[test]
fn approval_lists_defer_posts_of_strangers() {
    let c = ctx(Some(policy(false, false, true)), vec![member("user@example.com", false, false)]);
    let mut p = post("stranger@example.com", MAIL);
    assert!(PostRightsCheck.feed(&mut p, &c).is_err());
    assert_eq!(
        reason(&p.action),
        (
            "defer",
            "Your posting has been deferred. Approval from the list's moderators is required \
             before it is submitted."
                .to_string()
        )
    );
    let mut p = post("user@example.com", MAIL);
    assert!(PostRightsCheck.feed(&mut p, &c).is_ok());
}

#[test]
fn open_lists_and_lists_without_policy_take_any_post() {
    for pol in [None, Some(policy(false, false, false))] {
        let c = ctx(pol, vec![]);
        let mut p = post("stranger@example.com", MAIL);
        assert!(PostRightsCheck.feed(&mut p, &c).is_ok());
        assert_eq!(reason(&p.action).0, "hold");
    }
}

#[test]
fn finalize_recipients_skips_the_submitter_and_stores_digests() {
    let mut c = ctx(
        None,
        vec![
            member("a@example.com", false, false),
            member("user@example.com", false, false),
            member("b@example.com", true, false),
            member("c@example.com", false, true),
        ],
    );
    let mut p = post("user@example.com", MAIL);
    assert!(FinalizeRecipients.feed(&mut p, &mut c).is_ok());
    assert_eq!(reason(&p.action).0, "accept");
    assert_eq!(c.scheduled_jobs.len(), 2);
    match &c.scheduled_jobs[0] {
        MailJob::Send { recipients } => {
            let r: Vec<&str> = recipients.iter().map(|a| a.address_spec.as_str()).collect();
            assert_eq!(r, vec!["a@example.com", "c@example.com"]);
        }
        other => panic!("unexpected job {other:?}"),
    }
    match &c.scheduled_jobs[1] {
        MailJob::StoreDigest { recipients } => {
            let r: Vec<&str> = recipients.iter().map(|a| a.address_spec.as_str()).collect();
            assert_eq!(r, vec!["b@example.com"]);
        }
        other => panic!("unexpected job {other:?}"),
    }
}

#[test]
fn finalize_recipients_keeps_the_submitter_who_wants_own_posts() {
    let mut c = ctx(None, vec![member("user@example.com", false, true)]);
    let mut p = post("user@example.com", MAIL);
    assert!(FinalizeRecipients.feed(&mut p, &mut c).is_ok());
    assert_eq!(c.scheduled_jobs.len(), 1);
    match &c.scheduled_jobs[0] {
        MailJob::Send { recipients } => assert_eq!(recipients.len(), 1),
        other => panic!("unexpected job {other:?}"),
    }
}

#[test]
fn fix_crlf_ends_every_line_with_crlf() {
    let c = ctx(None, vec![]);
    let mut p = post("user@example.com", b"a\nb\r\nc");
    assert!(FixCRLF.feed(&mut p, &c).is_ok());
    assert_eq!(p.bytes, b"a\r\nb\r\nc\r\n".to_vec());
    assert_eq!(crlf_normalize(b""), Vec::<u8>::new());
    let once = crlf_normalize(b"x\r\n\ny");
    assert_eq!(once, b"x\r\n\r\ny\r\n".to_vec());
    assert_eq!(crlf_normalize(&once), once);
}

#[test]
fn archived_at_link_changes_nothing() {
    let c = ctx(None, vec![]);
    let mut p = post("user@example.com", MAIL);
    assert!(ArchivedAtLink.feed(&mut p, &c).is_ok());
    assert_eq!(p.bytes, MAIL.to_vec());
}

#[test]
fn add_list_headers_adds_the_list_headers() {
    let c = ctx(None, vec![]);
    let mut p = post("user@example.com", MAIL);
    assert!(AddListHeaders.feed(&mut p, &c).is_ok());
    let out = String::from_utf8(p.bytes.clone()).unwrap();
    assert!(out.starts_with("From: user@example.com\r\nTo: foo-chat@example.com\r\n"), "{out:?}");
    assert!(out.contains("Subject: [foo-chat] hello\r\n"), "{out:?}");
    assert!(out.contains("Sender: <foo-chat@example.com>\r\n"), "{out:?}");
    assert!(out.contains("List-Post: <mailto:foo-chat@example.com>\r\n"), "{out:?}");
    assert!(
        out.contains(
            "List-Unsubscribe: <mailto:foo-chat-request@example.com?subject=unsubscribe>\r\n"
        ),
        "{out:?}"
    );
    assert!(!out.contains("List-Archive"));
    let id = out.find("List-Id: <foo-chat.example.com>\r\n").unwrap();
    let help = out
        .find("List-Help: <mailto:foo-chat-request@example.com?subject=help>\r\n")
        .unwrap();
    let post = out.find("List-Post: ").unwrap();
    let unsub = out.find("List-Unsubscribe: ").unwrap();
    let sub = out
        .find("List-Subscribe: <mailto:foo-chat-request@example.com?subject=subscribe>\r\n")
        .unwrap();
    assert!(id < help && help < post && post < unsub && unsub < sub, "{out:?}");
    assert!(out.ends_with("\r\n\r\n\r\nbody\r\n"), "{out:?}");
}

#[test]
fn add_list_headers_adds_a_subject_and_an_archive() {
    let mut c = ctx(None, vec![]);
    c.list.archive_url = Some("https://lists.example.com".to_string());
    let mut p = post("user@example.com", b"From: user@example.com\r\n\r\nbody\r\n");
    assert!(AddListHeaders.feed(&mut p, &c).is_ok());
    let out = String::from_utf8(p.bytes.clone()).unwrap();
    assert!(out.contains("Subject: [foo-chat] \r\n"), "{out:?}");
    assert!(out.contains("List-Archive: <https://lists.example.com>\r\n"), "{out:?}");
}

#[test]
fn the_filter_stack_of_a_list() {
    let l = list();
    let filters = list_filters(&l);
    assert!(matches!(
        filters.as_slice(),
        [
            Filter::FixCRLF,
            Filter::PostRightsCheck,
            Filter::AddListHeaders,
            Filter::FinalizeRecipients
        ]
    ));
}

#[test]
fn run_filters_accepts_a_post_of_a_subscription() {
    let mut c = ctx(
        Some(policy(false, true, false)),
        vec![member("user@example.com", false, false), member("a@example.com", false, false)],
    );
    let mut p = post("user@example.com", b"From: user@example.com\nSubject: hi\n\nbody\n");
    assert_eq!(run_filters(&mut p, &mut c), FilterOutcome::Passed);
    assert_eq!(reason(&p.action).0, "accept");
    let out = String::from_utf8(p.bytes.clone()).unwrap();
    assert!(out.contains("Subject: [foo-chat] hi\r\n"), "{out:?}");
    assert_eq!(c.scheduled_jobs.len(), 1);
}

#[test]
fn run_filters_stops_a_post_of_a_stranger() {
    let mut c = ctx(Some(policy(false, true, false)), vec![]);
    let mut p = post("user@example.com", b"From: user@example.com\nSubject: hi\n\nbody\n");
    assert_eq!(run_filters(&mut p, &mut c), FilterOutcome::Stopped);
    assert_eq!(reason(&p.action).0, "reject");
    assert_eq!(p.bytes, b"From: user@example.com\r\nSubject: hi\r\n\r\nbody\r\n".to_vec());
    assert!(c.scheduled_jobs.is_empty());
}

#[test]
fn a_reply_carries_the_list_headers() {
    let l = list();
    let out = reply_message(
        &l,
        "jane@example.com",
        &Some("Help for foo-chat".to_string()),
        "Hello.\r\n",
        "Mon, 3 Jul 2023 12:00:00 +0000",
        "<1@example.com>",
    );
    let expected = "From: foo-chat+request@example.com\r\n\
        To: jane@example.com\r\n\
        Subject: Help for foo-chat\r\n\
        Date: Mon, 3 Jul 2023 12:00:00 +0000\r\n\
        Message-ID: <1@example.com>\r\n\
        List-Id: <foo-chat.example.com>\r\n\
        List-Help: <mailto:foo-chat-request@example.com?subject=help>\r\n\
        List-Post: <mailto:foo-chat@example.com>\r\n\
        List-Unsubscribe: <mailto:foo-chat-request@example.com?subject=unsubscribe>\r\n\
        List-Subscribe: <mailto:foo-chat-request@example.com?subject=subscribe>\r\n\
        MIME-Version: 1.0\r\n\
        Content-Type: text/plain; charset=utf-8\r\n\
        \r\n\
        Hello.\r\n";
    assert_eq!(String::from_utf8(out).unwrap(), expected);
}

#[test]
fn a_reply_without_subject_has_no_subject_header() {
    let l = list();
    let out = reply_message(&l, "jane@example.com", &None, "x", "d", "<2@example.com>");
    let out = String::from_utf8(out).unwrap();
    assert!(!out.contains("Subject:"), "{out:?}");
    assert!(out.ends_with("\r\n\r\nx"), "{out:?}");
}
