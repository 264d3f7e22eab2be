//! Filters to pass each mailing list post through. A filter can
//!
//! - transform post content.
//! - modify the final [`PostAction`] to take.
//! - modify the final scheduled jobs to perform. (See [`MailJob`]).
//!
//! Filters are executed in sequence, and processing stops at the first filter
//! that returns an error.

use vstd::prelude::*;

use super::{action_view, addrs_view, ActionView, ListContext, MailJob, PostAction, PostEntry};
use crate::models::{
    has_at, list_id_of, opt_str, request_header_of, sub_address, Address, ListMembership, ListOwner, MailingList, PostPolicy,
};
use crate::text::{find_elem, lemma_find_char_first, lemma_find_char_none, push_all, push_range};
use vstd::utf8::{encode_utf8, valid_utf8};

verus! {

/// Whether one of the owners has the address spec `from`.
pub open spec fn is_owner_address(owners: Seq<ListOwner>, from: Seq<char>) -> bool {
    exists|i: int| 0 <= i < owners.len() && #[trigger] owners[i].address@ == from
}

/// Whether one of the subscriptions has the address spec `from`.
pub open spec fn is_subscribed_address(subs: Seq<ListMembership>, from: Seq<char>) -> bool {
    exists|i: int| 0 <= i < subs.len() && #[trigger] subs[i].address@ == from
}

/// Whether the post policy lets a post from `from` through.
pub open spec fn post_rights_ok(
    policy: Option<PostPolicy>,
    owners: Seq<ListOwner>,
    subs: Seq<ListMembership>,
    from: Seq<char>,
) -> bool {
    match policy {
        None => true,
        Some(p) => if p.announce_only {
            is_owner_address(owners, from)
        } else if p.subscription_only {
            is_subscribed_address(subs, from)
        } else if p.approval_needed {
            is_subscribed_address(subs, from)
        } else {
            true
        },
    }
}

/// What a post that the post policy stops ends with.
pub open spec fn post_rights_refusal(p: PostPolicy) -> ActionView {
    if p.announce_only {
        ActionView::Reject("You are not allowed to post on this list."@)
    } else if p.subscription_only {
        ActionView::Reject("Only subscriptions can post to this list."@)
    } else {
        ActionView::Defer(
            "Your posting has been deferred. Approval from the list's moderators is required before it is submitted."@,
        )
    }
}

/// Whether the filter left everything of the post but its action as it was.
pub open spec fn same_but_action(a: PostEntry, b: PostEntry) -> bool {
    &&& a.message_id == b.message_id
    &&& a.from == b.from
    &&& a.bytes == b.bytes
    &&& a.to == b.to
}

fn owner_posts(owners: &Vec<ListOwner>, from: &Address) -> (r: bool)
    ensures
        r == is_owner_address(owners@, from.address_spec@),
{
    let mut i: usize = 0;
    while i < owners.len()
        invariant
            i <= owners@.len(),
            forall|j: int| 0 <= j < i ==> owners@[j].address@ != from.address_spec@,
        decreases owners@.len() - i,
    {
        let a = owners[i].address();
        if a.same_as(from) {
            assert(owners@[i as int].address@ == from.address_spec@);
            return true;
        }
        i = i + 1;
    }
    false
}

fn subscribed(subs: &Vec<ListMembership>, from: &Address) -> (r: bool)
    ensures
        r == is_subscribed_address(subs@, from.address_spec@),
{
    let email_from = from.get_email();
    let mut i: usize = 0;
    while i < subs.len()
        invariant
            i <= subs@.len(),
            email_from@ == from.address_spec@,
            forall|j: int| 0 <= j < i ==> subs@[j].address@ != from.address_spec@,
        decreases subs@.len() - i,
    {
        if crate::text::str_eq(subs[i].address.as_str(), email_from.as_str()) {
            assert(subs@[i as int].address@ == from.address_spec@);
            return true;
        }
        i = i + 1;
    }
    false
}

/// Check that submitter can post to list according to its post policy.
pub struct PostRightsCheck;

impl PostRightsCheck {
    /// Rejects posts of non-owners to announce-only lists and of
    /// non-subscribers to subscription-only lists, and defers posts of
    /// non-subscribers to lists that need approval; returns an error when it
    /// stops the post.
    pub fn feed(&self, post: &mut PostEntry, ctx: &ListContext) -> (r: Result<(), ()>)
        ensures
            same_but_action(*final(post), *old(post)),
            r is Ok <==> post_rights_ok(
                ctx.post_policy,
                ctx.list_owners@,
                ctx.subscriptions@,
                old(post).from.address_spec@,
            ),
            r is Ok ==> final(post).action == old(post).action,
            r is Err ==> (ctx.post_policy matches Some(p) && action_view(final(post).action)
                == post_rights_refusal(p)),
    {
        if let Some(policy) = &ctx.post_policy {
            if policy.announce_only {
                if !owner_posts(&ctx.list_owners, &post.from) {
                    post.action = PostAction::Reject {
                        reason: String::from_str("You are not allowed to post on this list."),
                    };
                    return Err(());
                }
            } else if policy.subscription_only {
                if !subscribed(&ctx.subscriptions, &post.from) {
                    post.action = PostAction::Reject {
                        reason: String::from_str("Only subscriptions can post to this list."),
                    };
                    return Err(());
                }
            } else if policy.approval_needed {
                if !subscribed(&ctx.subscriptions, &post.from) {
                    post.action = PostAction::Defer {
                        reason: String::from_str(
                            "Your posting has been deferred. Approval from the list's moderators is required before it is submitted.",
                        ),
                    };
                    return Err(());
                }
            }
        }
        Ok(())
    }
}

/// Adds `Archived-At` field, if configured; it currently leaves posts as
/// they are.
pub struct ArchivedAtLink;

impl ArchivedAtLink {
    /// Passes the post on unchanged.
    pub fn feed(&self, post: &mut PostEntry, ctx: &ListContext) -> (r: Result<(), ()>)
        ensures
            *final(post) == *old(post),
            r is Ok,
    {
        Ok(())
    }
}

/// Whether a subscription gets a copy of a post from `from`: it does not
/// take digests, and it is not the submitter's or it receives its own posts.
pub open spec fn gets_copy(m: ListMembership, from: Seq<char>) -> bool {
    !m.digest && (m.address@ != from || m.receive_own_posts)
}

/// Whether a subscription gets a post from `from` in its digest.
pub open spec fn gets_digest(m: ListMembership, from: Seq<char>) -> bool {
    m.digest && (m.address@ != from || m.receive_own_posts)
}

/// The address of a subscription, as characters.
pub open spec fn membership_addr(m: ListMembership) -> (Option<Seq<char>>, Seq<char>) {
    (opt_str(m.name), m.address@)
}

/// The addresses that get a copy of a post from `from`, in subscription order.
pub open spec fn copy_recipients(subs: Seq<ListMembership>, from: Seq<char>) -> Seq<
    (Option<Seq<char>>, Seq<char>),
>
    decreases subs.len(),
{
    if subs.len() == 0 {
        Seq::empty()
    } else if gets_copy(subs.last(), from) {
        copy_recipients(subs.drop_last(), from).push(membership_addr(subs.last()))
    } else {
        copy_recipients(subs.drop_last(), from)
    }
}

/// The addresses that get a post from `from` in their digest, in
/// subscription order.
pub open spec fn digest_recipients(subs: Seq<ListMembership>, from: Seq<char>) -> Seq<
    (Option<Seq<char>>, Seq<char>),
>
    decreases subs.len(),
{
    if subs.len() == 0 {
        Seq::empty()
    } else if gets_digest(subs.last(), from) {
        digest_recipients(subs.drop_last(), from).push(membership_addr(subs.last()))
    } else {
        digest_recipients(subs.drop_last(), from)
    }
}

/// Whether `job` sends to exactly `rs`.
pub open spec fn is_send_to(job: MailJob, rs: Seq<(Option<Seq<char>>, Seq<char>)>) -> bool {
    job matches MailJob::Send { recipients } && addrs_view(recipients@) == rs
}

/// Whether `job` stores digests for exactly `rs`.
pub open spec fn is_digest_for(job: MailJob, rs: Seq<(Option<Seq<char>>, Seq<char>)>) -> bool {
    job matches MailJob::StoreDigest { recipients } && addrs_view(recipients@) == rs
}

/// What `FinalizeRecipients` schedules after `jobs` for a post from `from`.
pub open spec fn finalized_jobs(
    jobs: Seq<MailJob>,
    new_jobs: Seq<MailJob>,
    subs: Seq<ListMembership>,
    from: Seq<char>,
) -> bool {
    let copies = copy_recipients(subs, from);
    let digests = digest_recipients(subs, from);
    let n = jobs.len();
    &&& new_jobs.len() >= n + 1
    &&& new_jobs.subrange(0, n as int) == jobs
    &&& is_send_to(new_jobs[n as int], copies)
    &&& digests.len() == 0 ==> new_jobs.len() == n + 1
    &&& digests.len() > 0 ==> new_jobs.len() == n + 2 && is_digest_for(new_jobs[(n + 1) as int], digests)
}

/// Assuming there are no more changes to be done on the post, it finalizes
/// which list subscriptions will receive the post in `post.action` field.
pub struct FinalizeRecipients;

impl FinalizeRecipients {
    /// Schedules a `Send` job to every subscription that gets a copy and,
    /// when there are any, a `StoreDigest` job for those that get digests,
    /// and accepts the post.
    pub fn feed(&self, post: &mut PostEntry, ctx: &mut ListContext) -> (r: Result<(), ()>)
        ensures
            r is Ok,
            same_but_action(*final(post), *old(post)),
            final(post).action == PostAction::Accept,
            final(ctx).list == old(ctx).list,
            final(ctx).list_owners == old(ctx).list_owners,
            final(ctx).subscriptions == old(ctx).subscriptions,
            final(ctx).post_policy == old(ctx).post_policy,
            finalized_jobs(
                old(ctx).scheduled_jobs@,
                final(ctx).scheduled_jobs@,
                old(ctx).subscriptions@,
                old(post).from.address_spec@,
            ),
    {
        let mut recipients: Vec<Address> = Vec::new();
        let mut digests: Vec<Address> = Vec::new();
        let email_from = post.from.get_email();
        let ghost from = post.from.address_spec@;
        let ghost subs = ctx.subscriptions@;
        let mut i: usize = 0;
        while i < ctx.subscriptions.len()
            invariant
                i <= subs.len(),
                subs == ctx.subscriptions@,
                email_from@ == from,
                addrs_view(recipients@) == copy_recipients(subs.take(i as int), from),
                addrs_view(digests@) == digest_recipients(subs.take(i as int), from),
            decreases subs.len() - i,
        {
            let sub = &ctx.subscriptions[i];
            let is_submitter = crate::text::str_eq(sub.address.as_str(), email_from.as_str());
            assert(subs.take(i + 1).drop_last() =~= subs.take(i as int));
            assert(subs.take(i + 1).last() == subs[i as int]);
            if sub.digest {
                if !is_submitter || sub.receive_own_posts {
                    let a = sub.address();
                    digests.push(a);
                    assert(addrs_view(digests@) =~= digest_recipients(subs.take(i + 1), from));
                } else {
                    assert(digest_recipients(subs.take(i + 1), from) == digest_recipients(
                        subs.take(i as int),
                        from,
                    ));
                }
                assert(copy_recipients(subs.take(i + 1), from) == copy_recipients(
                    subs.take(i as int),
                    from,
                ));
            } else {
                if !is_submitter || sub.receive_own_posts {
                    let a = sub.address();
                    recipients.push(a);
                    assert(addrs_view(recipients@) =~= copy_recipients(subs.take(i + 1), from));
                } else {
                    assert(copy_recipients(subs.take(i + 1), from) == copy_recipients(
                        subs.take(i as int),
                        from,
                    ));
                }
                assert(digest_recipients(subs.take(i + 1), from) == digest_recipients(
                    subs.take(i as int),
                    from,
                ));
            }
            i = i + 1;
        }
        assert(subs.take(subs.len() as int) =~= subs);
        let has_digests = digests.len() > 0;
        ctx.scheduled_jobs.push(MailJob::Send { recipients });
        if has_digests {
            ctx.scheduled_jobs.push(MailJob::StoreDigest { recipients: digests });
        }
        post.action = PostAction::Accept;
        proof {
            let n = old(ctx).scheduled_jobs@.len();
            assert(ctx.scheduled_jobs@.subrange(0, n as int) =~= old(ctx).scheduled_jobs@);
        }
        Ok(())
    }
}

/// A recipient of a post is never its submitter, unless the submitter's
/// subscription asks for its own posts.
pub proof fn lemma_copy_recipients_sender(subs: Seq<ListMembership>, from: Seq<char>, k: int)
    requires
        0 <= k < copy_recipients(subs, from).len(),
        copy_recipients(subs, from)[k].1 == from,
    ensures
        exists|i: int|
            0 <= i < subs.len() && subs[i].address@ == from && #[trigger] subs[i].receive_own_posts
                && !subs[i].digest,
    decreases subs.len(),
{
    if subs.len() > 0 {
        let rest = copy_recipients(subs.drop_last(), from);
        if gets_copy(subs.last(), from) && k == rest.len() {
            assert(subs[subs.len() - 1].address@ == from);
        } else {
            lemma_copy_recipients_sender(subs.drop_last(), from, k);
            let i = choose|i: int|
                0 <= i < subs.drop_last().len() && subs.drop_last()[i].address@ == from
                    && #[trigger] subs.drop_last()[i].receive_own_posts
                    && !subs.drop_last()[i].digest;
            assert(subs[i] == subs.drop_last()[i]);
        }
    }
}

/// Every subscription gets a post either as a copy or in its digest, unless
/// it is the submitter's and does not ask for its own posts; never both.
pub proof fn lemma_copy_or_digest(m: ListMembership, from: Seq<char>)
    ensures
        !(gets_copy(m, from) && gets_digest(m, from)),
        (m.address@ != from || m.receive_own_posts) <==> (gets_copy(m, from) || gets_digest(
            m,
            from,
        )),
{
}

/// A line without the carriage return that ends it, if any.
pub open spec fn strip_cr(l: Seq<u8>) -> Seq<u8> {
    if l.len() > 0 && l.last() == 13u8 {
        l.drop_last()
    } else {
        l
    }
}

/// The bytes read line by line, as `BufRead::lines` splits them (a line
/// ends at `\n`, and a `\r` before it is dropped), each line followed by
/// `\r\n`.
pub open spec fn crlf_lines(b: Seq<u8>) -> Seq<u8>
    decreases b.len(),
{
    if b.len() == 0 {
        Seq::empty()
    } else {
        match find_elem(b, 10u8) {
            Some(i) => if i < b.len() {
                strip_cr(b.take(i as int)) + seq![13u8, 10u8] + crlf_lines(b.skip((i + 1) as int))
            } else {
                Seq::empty()
            },
            None => b + seq![13u8, 10u8],
        }
    }
}

/// The bytes with every line ended by `\r\n` (see `crlf_lines`).
pub fn crlf_normalize(b: &[u8]) -> (r: Vec<u8>)
    ensures
        r@ == crlf_lines(b@),
{
    let mut out: Vec<u8> = Vec::new();
    let n = b.len();
    let mut start: usize = 0;
    let mut i: usize = 0;
    assert(b@.skip(0) =~= b@);
    while i < n
        invariant
            n == b@.len(),
            start <= i <= n,
            crlf_lines(b@) == out@ + crlf_lines(b@.skip(start as int)),
            forall|k: int| start <= k < i ==> b@[k] != 10u8,
        decreases n - i,
    {
        if b[i] == 10u8 {
            let ghost rest = b@.skip(start as int);
            proof {
                lemma_find_char_first(rest, 10u8, (i - start) as int);
                assert(rest.take((i - start) as int) =~= b@.subrange(start as int, i as int));
                assert(rest.skip((i - start) + 1) =~= b@.skip(i + 1));
            }
            let mut end = i;
            if end > start && b[end - 1] == 13u8 {
                end = end - 1;
            }
            assert(b@.subrange(start as int, end as int) =~= strip_cr(
                b@.subrange(start as int, i as int),
            ));
            push_range(&mut out, b, start, end);
            out.push(13u8);
            out.push(10u8);
            start = i + 1;
        }
        i = i + 1;
    }
    if start < n {
        let ghost rest = b@.skip(start as int);
        proof {
            lemma_find_char_none(rest, 10u8);
        }
        push_range(&mut out, b, start, n);
        out.push(13u8);
        out.push(10u8);
        assert(rest =~= b@.subrange(start as int, n as int));
        assert(out@ =~= crlf_lines(b@));
    } else {
        assert(b@.skip(start as int) =~= Seq::<u8>::empty());
        assert(out@ =~= crlf_lines(b@));
    }
    out
}

/// Ensure message contains only `\r\n` line terminators, required by SMTP.
pub struct FixCRLF;

impl FixCRLF {
    /// Replaces the post's bytes with its lines, each ended by `\r\n`. The
    /// bytes must be UTF-8, as reading them line by line needs.
    pub fn feed(&self, post: &mut PostEntry, ctx: &ListContext) -> (r: Result<(), ()>)
        requires
            valid_utf8(old(post).bytes@),
        ensures
            r is Ok,
            final(post).bytes@ == crlf_lines(old(post).bytes@),
            final(post).message_id == old(post).message_id,
            final(post).from == old(post).from,
            final(post).to == old(post).to,
            final(post).action == old(post).action,
    {
        let new_vec = crlf_normalize(post.bytes.as_slice());
        post.bytes = new_vec;
        Ok(())
    }
}

/// The headers and the body that the `melib` e-mail parser finds in
/// `bytes`, each header as its name and its value, or `None` when it cannot
/// parse them.
pub uninterp spec fn parsed_mail(bytes: Seq<u8>) -> Option<(Seq<(Seq<u8>, Seq<u8>)>, Seq<u8>)>;

/// The bytes of a list of headers.
pub open spec fn headers_view(v: Seq<(Vec<u8>, Vec<u8>)>) -> Seq<(Seq<u8>, Seq<u8>)> {
    v.map_values(|p: (Vec<u8>, Vec<u8>)| (p.0@, p.1@))
}

/// Splits an e-mail into its headers and its body with
/// `melib::email::parser::mail`. The contract states only that the result
/// is the one named by `parsed_mail`; what that parser accepts and how it
/// spells header names is left to `melib`.
#[verifier::external_body]
fn parse_mail(bytes: &[u8]) -> (r: Option<(Vec<(Vec<u8>, Vec<u8>)>, Vec<u8>)>)
    ensures
        r matches Some(p) ==> parsed_mail(bytes@) == Some((headers_view(p.0@), p.1@)),
        r is None ==> parsed_mail(bytes@) is None,
{
    match melib::email::parser::mail(bytes) {
        Ok((headers, body)) => Some((
            headers.into_iter().map(|(h, v)| (h.as_str().as_bytes().to_vec(), v.to_vec())).collect(),
            body.to_vec(),
        )),
        Err(_) => None,
    }
}

/// The body of the e-mail `bytes`, as the `melib` e-mail parser finds it.
pub fn post_body(bytes: &[u8]) -> (r: Option<Vec<u8>>)
    ensures
        r matches Some(b) ==> (parsed_mail(bytes@) matches Some(p) && b@ == p.1),
        r is None ==> parsed_mail(bytes@) is None,
{
    match parse_mail(bytes) {
        Some((_, body)) => Some(body),
        None => None,
    }
}

/// ASCII lower case of a byte.
pub open spec fn byte_lower(b: u8) -> u8 {
    if 65 <= b <= 90 { (b + 32) as u8 } else { b }
}

/// Whether two byte strings are equal ignoring ASCII case.
pub open spec fn bytes_eq_ignore_ascii_case(a: Seq<u8>, b: Seq<u8>) -> bool {
    a.len() == b.len() && forall|i: int| 0 <= i < a.len() ==> byte_lower(a[i]) == byte_lower(b[i])
}

fn bytes_eq_ignore_ascii_case_exec(a: &[u8], b: &[u8]) -> (r: bool)
    ensures
        r == bytes_eq_ignore_ascii_case(a@, b@),
{
    if a.len() != b.len() {
        return false;
    }
    let mut i: usize = 0;
    while i < a.len()
        invariant
            a@.len() == b@.len(),
            i <= a@.len(),
            forall|j: int| 0 <= j < i ==> byte_lower(a@[j]) == byte_lower(b@[j]),
        decreases a@.len() - i,
    {
        let x = if 65 <= a[i] && a[i] <= 90 { a[i] + 32 } else { a[i] };
        let y = if 65 <= b[i] && b[i] <= 90 { b[i] + 32 } else { b[i] };
        if x != y {
            return false;
        }
        i = i + 1;
    }
    true
}

/// Whether a header name is `Subject`, in any case.
pub open spec fn is_subject(name: Seq<u8>) -> bool {
    bytes_eq_ignore_ascii_case(name, encode_utf8("Subject"@))
}

/// Index of the first `Subject` header.
pub open spec fn find_subject(hs: Seq<(Seq<u8>, Seq<u8>)>) -> Option<nat>
    decreases hs.len(),
{
    if hs.len() == 0 {
        None
    } else if is_subject(hs[0].0) {
        Some(0nat)
    } else {
        match find_subject(hs.drop_first()) {
            Some(i) => Some(i + 1),
            None => None,
        }
    }
}

proof fn lemma_find_subject(hs: Seq<(Seq<u8>, Seq<u8>)>, i: int)
    requires
        0 <= i <= hs.len(),
        forall|j: int| 0 <= j < i ==> !is_subject(#[trigger] hs[j].0),
        i < hs.len() ==> is_subject(hs[i].0),
    ensures
        i < hs.len() ==> find_subject(hs) == Some(i as nat),
        i == hs.len() ==> find_subject(hs) is None,
    decreases i,
{
    if i > 0 {
        assert forall|j: int| 0 <= j < i - 1 implies !is_subject(#[trigger] hs.drop_first()[j].0) by {
            assert(hs.drop_first()[j] == hs[j + 1]);
        }
        lemma_find_subject(hs.drop_first(), i - 1);
    }
}

/// The bytes of a string.
pub open spec fn utf8(s: Seq<char>) -> Seq<u8> {
    encode_utf8(s)
}

/// The `List-*` headers of a list, in order: `List-Id`, `List-Help`,
/// `List-Post`, `List-Unsubscribe`, `List-Subscribe` and, when the list has
/// an archive, `List-Archive`.
pub open spec fn list_header_fields(list: MailingList) -> Seq<(Seq<u8>, Seq<u8>)> {
    let h = seq![
        (utf8("List-Id"@), utf8(list_id_of(list))),
        (utf8("List-Help"@), utf8(request_header_of(list.address@, "help"@))),
        (utf8("List-Post"@), utf8("<mailto:"@ + list.address@ + seq!['>'])),
        (utf8("List-Unsubscribe"@), utf8(request_header_of(list.address@, "unsubscribe"@))),
        (utf8("List-Subscribe"@), utf8(request_header_of(list.address@, "subscribe"@))),
    ];
    match list.archive_url {
        Some(u) => h.push((utf8("List-Archive"@), utf8(seq!['<'] + u@ + seq!['>']))),
        None => h,
    }
}

/// The headers of a post once the list's are added: `Sender` is the list
/// address, the subject gets the `[list-id] ` prefix (a `Subject` header is
/// added when there is none), and the list's `List-*` headers follow.
pub open spec fn with_list_headers(hs: Seq<(Seq<u8>, Seq<u8>)>, list: MailingList) -> Seq<
    (Seq<u8>, Seq<u8>),
> {
    let h1 = hs.push((utf8("Sender"@), utf8(seq!['<'] + list.address@ + seq!['>'])));
    let prefix = utf8(seq!['['] + list.id@ + "] "@);
    let h2 = match find_subject(h1) {
        Some(i) => h1.update(i as int, (h1[i as int].0, prefix + h1[i as int].1)),
        None => h1.push((utf8("Subject"@), prefix)),
    };
    h2 + list_header_fields(list)
}

fn push_header(v: &mut Vec<(Vec<u8>, Vec<u8>)>, name: &str, value: &str)
    ensures
        headers_view(final(v)@) == headers_view(old(v)@).push((utf8(name@), utf8(value@))),
{
    v.push((bytes_of(name), bytes_of(value)));
    assert(headers_view(final(v)@) =~= headers_view(old(v)@).push((utf8(name@), utf8(value@))));
}

/// The `List-*` headers of a list (see `list_header_fields`).
pub fn list_headers(list: &MailingList) -> (r: Vec<(Vec<u8>, Vec<u8>)>)
    requires
        has_at(list.address@),
    ensures
        headers_view(r@) == list_header_fields(*list),
{
    let mut v: Vec<(Vec<u8>, Vec<u8>)> = Vec::new();
    let id = list.id_header();
    push_header(&mut v, "List-Id", id.as_str());
    if let Some(h) = list.help_header() {
        push_header(&mut v, "List-Help", h.as_str());
    }
    if let Some(h) = list.post_header() {
        push_header(&mut v, "List-Post", h.as_str());
    }
    if let Some(h) = list.unsubscribe_header() {
        push_header(&mut v, "List-Unsubscribe", h.as_str());
    }
    if let Some(h) = list.subscribe_header() {
        push_header(&mut v, "List-Subscribe", h.as_str());
    }
    if let Some(h) = list.archive_header() {
        push_header(&mut v, "List-Archive", h.as_str());
    }
    assert(headers_view(v@) =~= list_header_fields(*list));
    v
}

/// Headers written out, each as `name: value\r\n`.
pub open spec fn header_lines(hs: Seq<(Seq<u8>, Seq<u8>)>) -> Seq<u8>
    decreases hs.len(),
{
    if hs.len() == 0 {
        Seq::empty()
    } else {
        header_lines(hs.drop_last()) + hs.last().0 + seq![58u8, 32u8] + hs.last().1 + seq![
            13u8,
            10u8,
        ]
    }
}

/// A post written out from its headers and body: the header lines, an
/// empty line pair `\r\n\r\n`, then the body.
pub open spec fn mail_bytes(hs: Seq<(Seq<u8>, Seq<u8>)>, body: Seq<u8>) -> Seq<u8> {
    header_lines(hs) + seq![13u8, 10u8, 13u8, 10u8] + body
}

fn bytes_of(s: &str) -> (r: Vec<u8>)
    ensures
        r@ == utf8(s@),
{
    let mut v: Vec<u8> = Vec::new();
    push_all(&mut v, s.as_bytes());
    v
}

fn copy_bytes(b: &Vec<u8>) -> (r: Vec<u8>)
    ensures
        r@ == b@,
{
    let mut v: Vec<u8> = Vec::new();
    push_all(&mut v, b.as_slice());
    v
}

/// Adds the list's headers to headers parsed out of a post and writes the
/// post out again (see `with_list_headers` and `mail_bytes`).
pub fn apply_list_headers(headers: Vec<(Vec<u8>, Vec<u8>)>, body: &[u8], list: &MailingList) -> (r:
    Vec<u8>)
    requires
        has_at(list.address@),
    ensures
        r@ == mail_bytes(with_list_headers(headers_view(headers@), *list), body@),
{
    let ghost hs0 = headers_view(headers@);
    let mut headers = headers;
    let mut sender = String::new();
    crate::text::string_push(&mut sender, '<');
    sender.append(list.address.as_str());
    crate::text::string_push(&mut sender, '>');
    assert(sender@ =~= seq!['<'] + list.address@ + seq!['>']);
    headers.push((bytes_of("Sender"), bytes_of(sender.as_str())));
    let ghost h1 = hs0.push((utf8("Sender"@), utf8(seq!['<'] + list.address@ + seq!['>'])));
    assert(headers_view(headers@) =~= h1);
    let mut prefix = String::new();
    crate::text::string_push(&mut prefix, '[');
    prefix.append(list.id.as_str());
    prefix.append("] ");
    let prefix = bytes_of(prefix.as_str());
    assert(prefix@ == utf8(seq!['['] + list.id@ + "] "@)) by {
        assert(seq!['['] + list.id@ + "] "@ =~= seq!['['] + list.id@ + "] "@);
    }
    let subject_name = bytes_of("Subject");
    let mut i: usize = 0;
    let mut found: Option<usize> = None;
    while i < headers.len()
        invariant_except_break
            found is None,
        invariant
            i <= headers@.len(),
            headers_view(headers@) == h1,
            subject_name@ == utf8("Subject"@),
            forall|j: int| 0 <= j < i ==> !is_subject(#[trigger] h1[j].0),
        ensures
            found is None ==> i == headers@.len(),
            found matches Some(k) ==> k == i && i < headers@.len() && is_subject(h1[i as int].0),
        decreases headers@.len() - i,
    {
        if bytes_eq_ignore_ascii_case_exec(headers[i].0.as_slice(), subject_name.as_slice()) {
            found = Some(i);
            break;
        }
        i = i + 1;
    }
    proof {
        lemma_find_subject(h1, i as int);
    }
    let ghost h2 = match find_subject(h1) {
        Some(k) => h1.update(k as int, (h1[k as int].0, prefix@ + h1[k as int].1)),
        None => h1.push((utf8("Subject"@), prefix@)),
    };
    match found {
        Some(k) => {
            let name = copy_bytes(&headers[k].0);
            let mut value = copy_bytes(&prefix);
            push_all(&mut value, headers[k].1.as_slice());
            headers.set(k, (name, value));
            assert(headers_view(headers@) =~= h2);
        },
        None => {
            headers.push((subject_name, prefix));
            assert(headers_view(headers@) =~= h2);
        },
    }
    let ghost h2v = headers_view(headers@);
    let extra = list_headers(list);
    let mut e: usize = 0;
    while e < extra.len()
        invariant
            e <= extra@.len(),
            headers_view(extra@) == list_header_fields(*list),
            headers_view(headers@) == h2v + headers_view(extra@).take(e as int),
        decreases extra@.len() - e,
    {
        let name = copy_bytes(&extra[e].0);
        let value = copy_bytes(&extra[e].1);
        let ghost before = headers_view(headers@);
        headers.push((name, value));
        assert(headers_view(extra@).take(e + 1) =~= headers_view(extra@).take(e as int).push(
            headers_view(extra@)[e as int],
        ));
        assert(headers_view(headers@) =~= before.push(headers_view(extra@)[e as int]));
        e = e + 1;
    }
    assert(headers_view(extra@).take(extra@.len() as int) =~= headers_view(extra@));
    assert(headers_view(headers@) =~= with_list_headers(hs0, *list));
    let ghost hs = headers_view(headers@);
    let mut out: Vec<u8> = Vec::new();
    let mut j: usize = 0;
    while j < headers.len()
        invariant
            j <= headers@.len(),
            hs == headers_view(headers@),
            out@ == header_lines(hs.take(j as int)),
        decreases headers@.len() - j,
    {
        push_all(&mut out, headers[j].0.as_slice());
        out.push(58u8);
        out.push(32u8);
        push_all(&mut out, headers[j].1.as_slice());
        out.push(13u8);
        out.push(10u8);
        assert(hs.take(j + 1).drop_last() =~= hs.take(j as int));
        j = j + 1;
        assert(out@ =~= header_lines(hs.take(j as int)));
    }
    assert(hs.take(hs.len() as int) =~= hs);
    out.push(13u8);
    out.push(10u8);
    out.push(13u8);
    out.push(10u8);
    push_all(&mut out, body);
    assert(out@ =~= mail_bytes(hs, body@));
    out
}

fn push_header_lines(out: &mut Vec<u8>, headers: &Vec<(Vec<u8>, Vec<u8>)>)
    ensures
        final(out)@ == old(out)@ + header_lines(headers_view(headers@)),
{
    let ghost hs = headers_view(headers@);
    let ghost start = out@;
    let mut j: usize = 0;
    assert(hs.take(0) =~= Seq::<(Seq<u8>, Seq<u8>)>::empty());
    assert(out@ =~= start + header_lines(hs.take(0)));
    while j < headers.len()
        invariant
            j <= headers@.len(),
            hs == headers_view(headers@),
            out@ == start + header_lines(hs.take(j as int)),
        decreases headers@.len() - j,
    {
        push_all(out, headers[j].0.as_slice());
        out.push(58u8);
        out.push(32u8);
        push_all(out, headers[j].1.as_slice());
        out.push(13u8);
        out.push(10u8);
        assert(hs.take(j + 1).drop_last() =~= hs.take(j as int));
        j = j + 1;
        assert(out@ =~= start + header_lines(hs.take(j as int)));
    }
    assert(hs.take(hs.len() as int) =~= hs);
}

/// The headers of a reply of `list` to `to`: `From` is the list's request
/// address `{local}+request@{domain}`, then `To`, the subject where there is
/// one, `Date` and `Message-ID`, the list's `List-*` headers, and a plain
/// text UTF-8 content type.
pub open spec fn reply_headers(
    list: MailingList,
    to: Seq<char>,
    subject: Option<Seq<char>>,
    date: Seq<char>,
    message_id: Seq<char>,
) -> Seq<(Seq<u8>, Seq<u8>)> {
    let h = seq![
        (utf8("From"@), utf8(sub_address(list.address@, "request"@))),
        (utf8("To"@), utf8(to)),
    ];
    let h = match subject {
        Some(x) => h.push((utf8("Subject"@), utf8(x))),
        None => h,
    };
    h.push((utf8("Date"@), utf8(date))).push((utf8("Message-ID"@), utf8(message_id)))
        + list_header_fields(list) + seq![
        (utf8("MIME-Version"@), utf8("1.0"@)),
        (utf8("Content-Type"@), utf8("text/plain; charset=utf-8"@)),
    ]
}

/// A reply written out: its header lines, an empty line, and the body.
pub open spec fn reply_bytes(hs: Seq<(Seq<u8>, Seq<u8>)>, body: Seq<char>) -> Seq<u8> {
    header_lines(hs) + seq![13u8, 10u8] + utf8(body)
}

/// The message of a reply of `list` to `to` with the rendered subject and
/// body, sent at `date` with the id `message_id` (see `reply_headers`).
pub fn reply_message(
    list: &MailingList,
    to: &str,
    subject: &Option<String>,
    body: &str,
    date: &str,
    message_id: &str,
) -> (r: Vec<u8>)
    requires
        has_at(list.address@),
    ensures
        r@ == reply_bytes(reply_headers(*list, to@, opt_str(*subject), date@, message_id@), body@),
{
    let mut hs: Vec<(Vec<u8>, Vec<u8>)> = Vec::new();
    let from = list.subaddress("request");
    push_header(&mut hs, "From", from.as_str());
    push_header(&mut hs, "To", to);
    match subject {
        Some(x) => push_header(&mut hs, "Subject", x.as_str()),
        None => {},
    }
    push_header(&mut hs, "Date", date);
    push_header(&mut hs, "Message-ID", message_id);
    let extra = list_headers(list);
    let mut e: usize = 0;
    let ghost before = headers_view(hs@);
    while e < extra.len()
        invariant
            e <= extra@.len(),
            headers_view(extra@) == list_header_fields(*list),
            headers_view(hs@) == before + headers_view(extra@).take(e as int),
        decreases extra@.len() - e,
    {
        let name = copy_bytes(&extra[e].0);
        let value = copy_bytes(&extra[e].1);
        let ghost b = headers_view(hs@);
        hs.push((name, value));
        assert(headers_view(extra@).take(e + 1) =~= headers_view(extra@).take(e as int).push(
            headers_view(extra@)[e as int],
        ));
        assert(headers_view(hs@) =~= b.push(headers_view(extra@)[e as int]));
        e = e + 1;
    }
    assert(headers_view(extra@).take(extra@.len() as int) =~= headers_view(extra@));
    push_header(&mut hs, "MIME-Version", "1.0");
    push_header(&mut hs, "Content-Type", "text/plain; charset=utf-8");
    assert(headers_view(hs@) =~= reply_headers(*list, to@, opt_str(*subject), date@, message_id@));
    let mut out: Vec<u8> = Vec::new();
    push_header_lines(&mut out, &hs);
    out.push(13u8);
    out.push(10u8);
    push_all(&mut out, body.as_bytes());
    assert(out@ =~= reply_bytes(headers_view(hs@), body@));
    out
}

/// Add `List-*` headers, a `Sender` header and the list's subject prefix.
pub struct AddListHeaders;

impl AddListHeaders {
    /// Rewrites the post with the list's headers added (see
    /// `with_list_headers`). The post must be one that `melib` parses, and
    /// the list address must have an `@`.
    pub fn feed(&self, post: &mut PostEntry, ctx: &ListContext) -> (r: Result<(), ()>)
        requires
            parsed_mail(old(post).bytes@) is Some,
            has_at(ctx.list.address@),
        ensures
            r is Ok,
            ({
                let (hs, body) = parsed_mail(old(post).bytes@).unwrap();
                final(post).bytes@ == mail_bytes(with_list_headers(hs, ctx.list), body)
            }),
            final(post).message_id == old(post).message_id,
            final(post).from == old(post).from,
            final(post).to == old(post).to,
            final(post).action == old(post).action,
    {
        match parse_mail(post.bytes.as_slice()) {
            Some((headers, body)) => {
                let new_vec = apply_list_headers(headers, body.as_slice(), &ctx.list);
                post.bytes = new_vec;
                Ok(())
            },
            None => Ok(()),
        }
    }
}

/// The filters of a mailing list's post stack.
#[derive(Debug, Clone, Copy, PartialEq, Eq)]
pub enum Filter {
    /// See [`FixCRLF`].
    FixCRLF,
    /// See [`PostRightsCheck`].
    PostRightsCheck,
    /// See [`AddListHeaders`].
    AddListHeaders,
    /// See [`ArchivedAtLink`].
    ArchivedAtLink,
    /// See [`FinalizeRecipients`].
    FinalizeRecipients,
}

/// The post filters of a mailing list, in the order they run.
pub fn list_filters(_list: &MailingList) -> (r: Vec<Filter>)
    ensures
        r@ == seq![
            Filter::FixCRLF,
            Filter::PostRightsCheck,
            Filter::AddListHeaders,
            Filter::FinalizeRecipients,
        ],
{
    let v = vec![
        Filter::FixCRLF,
        Filter::PostRightsCheck,
        Filter::AddListHeaders,
        Filter::FinalizeRecipients,
    ];
    assert(v@ =~= seq![
        Filter::FixCRLF,
        Filter::PostRightsCheck,
        Filter::AddListHeaders,
        Filter::FinalizeRecipients,
    ]);
    v
}

/// How a post came out of the filter stack.
#[derive(Debug, Clone, Copy, PartialEq, Eq)]
pub enum FilterOutcome {
    /// Every filter passed it on.
    Passed,
    /// A filter stopped it, and set its action.
    Stopped,
    /// Its lines could not be parsed as an e-mail to add the list headers to.
    Unparsable,
}

/// Whether the list context kept its list, owners, subscriptions and post
/// policy.
pub open spec fn same_list(a: ListContext, b: ListContext) -> bool {
    &&& a.list == b.list
    &&& a.list_owners == b.list_owners
    &&& a.subscriptions == b.subscriptions
    &&& a.post_policy == b.post_policy
}

/// Runs a post through the list's filters (`list_filters`): its lines get
/// `\r\n` endings, the post policy may stop it, the list headers are added
/// and the recipients are scheduled. Processing stops at the first filter
/// that stops the post; when the lines cannot be parsed as an e-mail, the
/// outcome says so and nothing more is done.
pub fn run_filters(post: &mut PostEntry, ctx: &mut ListContext) -> (r: FilterOutcome)
    requires
        valid_utf8(old(post).bytes@),
        has_at(old(ctx).list.address@),
    ensures
        same_list(*final(ctx), *old(ctx)),
        final(post).message_id == old(post).message_id,
        final(post).from == old(post).from,
        final(post).to == old(post).to,
        ({
            let b1 = crlf_lines(old(post).bytes@);
            let from = old(post).from.address_spec@;
            let ok = post_rights_ok(
                old(ctx).post_policy,
                old(ctx).list_owners@,
                old(ctx).subscriptions@,
                from,
            );
            &&& !ok ==> {
                &&& r == FilterOutcome::Stopped
                &&& final(post).bytes@ == b1
                &&& old(ctx).post_policy matches Some(p) && action_view(final(post).action)
                    == post_rights_refusal(p)
                &&& final(ctx).scheduled_jobs == old(ctx).scheduled_jobs
            }
            &&& ok && parsed_mail(b1) is None ==> {
                &&& r == FilterOutcome::Unparsable
                &&& final(post).bytes@ == b1
                &&& final(post).action == old(post).action
                &&& final(ctx).scheduled_jobs == old(ctx).scheduled_jobs
            }
            &&& ok && parsed_mail(b1) is Some ==> {
                let (hs, body) = parsed_mail(b1).unwrap();
                &&& r == FilterOutcome::Passed
                &&& final(post).bytes@ == mail_bytes(with_list_headers(hs, old(ctx).list), body)
                &&& final(post).action == PostAction::Accept
                &&& finalized_jobs(
                    old(ctx).scheduled_jobs@,
                    final(ctx).scheduled_jobs@,
                    old(ctx).subscriptions@,
                    from,
                )
            }
        }),
{
    let _ = FixCRLF.feed(post, ctx);
    if PostRightsCheck.feed(post, ctx).is_err() {
        return FilterOutcome::Stopped;
    }
    match parse_mail(post.bytes.as_slice()) {
        None => {
            return FilterOutcome::Unparsable;
        },
        Some(_) => {},
    }
    let _ = AddListHeaders.feed(post, ctx);
    let _ = FinalizeRecipients.feed(post, ctx);
    FilterOutcome::Passed
}

proof fn lemma_crlf_line_unfold(l: Seq<u8>, x: Seq<u8>)
    requires
        forall|j: int| 0 <= j < l.len() ==> l[j] != 10u8,
    ensures
        crlf_lines(l + seq![13u8, 10u8] + x) == l + seq![13u8, 10u8] + crlf_lines(x),
{
    let out = l + seq![13u8, 10u8] + x;
    let k = l.len() as int + 1;
    assert(out[k] == 10u8);
    assert forall|j: int| 0 <= j < k implies out[j] != 10u8 by {
        if j < l.len() {
            assert(out[j] == l[j]);
        } else {
            assert(out[j] == 13u8);
        }
    }
    lemma_find_char_first(out, 10u8, k);
    assert(out.take(k) =~= l + seq![13u8]);
    assert(strip_cr(out.take(k)) =~= l);
    assert(out.skip(k + 1) =~= x);
}

/// Ending the lines of a post with `\r\n` twice gives what doing it once
/// gives: `FixCRLF` leaves its own output unchanged.
pub proof fn lemma_crlf_lines_idempotent(b: Seq<u8>)
    ensures
        crlf_lines(crlf_lines(b)) == crlf_lines(b),
    decreases b.len(),
{
    if b.len() > 0 {
        crate::text::lemma_find_char_some(b, 10u8);
        match find_elem(b, 10u8) {
            Some(i) => {
                let l = strip_cr(b.take(i as int));
                let rest = b.skip((i + 1) as int);
                assert forall|j: int| 0 <= j < l.len() implies l[j] != 10u8 by {
                    assert(l[j] == b[j]);
                }
                lemma_crlf_lines_idempotent(rest);
                lemma_crlf_line_unfold(l, crlf_lines(rest));
            },
            None => {
                lemma_crlf_line_unfold(b, Seq::empty());
                assert(b + seq![13u8, 10u8] + Seq::<u8>::empty() =~= b + seq![13u8, 10u8]);
                assert(crlf_lines(Seq::<u8>::empty()) =~= Seq::<u8>::empty());
            },
        }
    }
}

/// A post with lines ended by `FixCRLF` is empty or ends with `\r\n`.
pub proof fn lemma_crlf_lines_end(b: Seq<u8>)
    ensures
        crlf_lines(b).len() == 0 || (crlf_lines(b).len() >= 2 && crlf_lines(b).last() == 10u8
            && crlf_lines(b)[crlf_lines(b).len() - 2] == 13u8),
        crlf_lines(b).len() == 0 <==> b.len() == 0,
    decreases b.len(),
{
    if b.len() > 0 {
        crate::text::lemma_find_char_some(b, 10u8);
        match find_elem(b, 10u8) {
            Some(i) => {
                lemma_crlf_lines_end(b.skip((i + 1) as int));
            },
            None => {},
        }
    }
}

/// On a list whose post policy is open, anyone may post.
pub proof fn lemma_open_policy_accepts(
    p: PostPolicy,
    owners: Seq<ListOwner>,
    subs: Seq<ListMembership>,
    from: Seq<char>,
)
    requires
        p.open,
        !p.announce_only,
        !p.subscription_only,
        !p.approval_needed,
    ensures
        post_rights_ok(Some(p), owners, subs, from),
{
}

/// On an announce-only list, exactly the owners may post.
pub proof fn lemma_announce_only_owners(
    p: PostPolicy,
    owners: Seq<ListOwner>,
    subs: Seq<ListMembership>,
    from: Seq<char>,
)
    requires
        p.announce_only,
    ensures
        post_rights_ok(Some(p), owners, subs, from) <==> is_owner_address(owners, from),
{
}

} // verus!
