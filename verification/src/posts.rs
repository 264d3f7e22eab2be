//! Processing new posts: to which lists a received e-mail goes, as a post or
//! as a request, which request it is, and the subjects of the replies.

use vstd::prelude::*;

use crate::errors::{Error, ErrorKind};
use crate::mail::{addr_view, addrs_view, action_view, ActionView, MailJob, PostAction};
use crate::queue::Queue;
use crate::models::changesets::AccountChangeset;
use crate::models::{clone_opt_string, opt_str, Address, ListMembership, MailingList, PostPolicy};
use crate::policies::{approval_needed, request_subscription, subscription_for_request};
use crate::templates::{
    ADMIN_NOTICE, GENERIC_FAILURE, SUBSCRIPTION_CONFIRMATION, SUBSCRIPTION_REQUEST_NOTICE_OWNER,
    UNSUBSCRIPTION_CONFIRMATION,
};
use crate::text::{eq_ignore_ascii_case, is_blank, str_eq, str_eq_ignore_ascii_case};

verus! {

/// The address and sub-address that `melib` finds in an address with
/// display name `name` and address spec `spec` for the separator `sep`
/// (`local+sub@domain` gives `local@domain` and `sub`).
pub uninterp spec fn melib_subaddress(
    name: Option<Seq<char>>,
    spec: Seq<char>,
    sep: Seq<char>,
) -> Option<((Option<Seq<char>>, Seq<char>), Seq<char>)>;

/// Splits the sub-address out of an address with `melib::Address::subaddress`.
/// The contract states only that the result is the one named by
/// `melib_subaddress`; how `melib` parses the address spec is left to it.
#[verifier::external_body]
fn subaddress(a: &Address, separator: &str) -> (r: Option<(Address, String)>)
    ensures
        r matches Some(p) ==> melib_subaddress(
            opt_str(a.display_name),
            a.address_spec@,
            separator@,
        ) == Some((addr_view(p.0), p.1@)),
        r is None ==> melib_subaddress(opt_str(a.display_name), a.address_spec@, separator@) is None,
{
    let m = melib::Address::new(a.display_name.clone(), a.address_spec.clone());
    m.subaddress(separator).map(|(b, s)| (Address::new(b.get_display_name(), b.get_email()), s))
}

/// The fields of a received e-mail that its processing reads.
#[derive(Debug)]
pub struct Envelope {
    /// The `To` addresses.
    pub to: Vec<Address>,
    /// The `From` addresses.
    pub from: Vec<Address>,
    /// The subject.
    pub subject: String,
    /// The `Message-ID`, in angle brackets.
    pub message_id: String,
    /// The `Date` value.
    pub date: String,
    /// The moment of the `Date` value, as a UNIX timestamp.
    pub timestamp: u64,
}

/// An envelope as plain values.
pub open spec fn envelope_view(e: Envelope) -> (
    Seq<(Option<Seq<char>>, Seq<char>)>,
    Seq<(Option<Seq<char>>, Seq<char>)>,
    Seq<char>,
    Seq<char>,
    Seq<char>,
    u64,
) {
    (addrs_view(e.to@), addrs_view(e.from@), e.subject@, e.message_id@, e.date@, e.timestamp)
}

/// The recipients, senders, subject, `Message-ID`, `Date` value and its
/// moment that `melib` reads from the e-mail `bytes`, where it parses. The
/// moment is parsed in the built-in "C" locale only.
pub uninterp spec fn parsed_envelope(bytes: Seq<u8>) -> Option<
    (
        Seq<(Option<Seq<char>>, Seq<char>)>,
        Seq<(Option<Seq<char>>, Seq<char>)>,
        Seq<char>,
        Seq<char>,
        Seq<char>,
        u64,
    ),
>;

/// Reads an e-mail with `melib::Envelope::from_bytes`. The contract claims
/// only that the fields are the ones named by `parsed_envelope`.
#[verifier::external_body]
fn parse_envelope(bytes: &[u8]) -> (r: Option<Envelope>)
    ensures
        r matches Some(e) ==> parsed_envelope(bytes@) == Some(envelope_view(e)),
        r is None ==> parsed_envelope(bytes@) is None,
{
    melib::Envelope::from_bytes(bytes, None).ok().map(|e| Envelope {
        to: e.to().iter().map(|a| Address::new(a.get_display_name(), a.get_email())).collect(),
        from: e.from().iter().map(|a| Address::new(a.get_display_name(), a.get_email())).collect(),
        subject: e.subject().to_string(),
        message_id: e.message_id().display_brackets().to_string(),
        date: e.date_as_str().to_string(),
        timestamp: e.date(),
    })
}

/// The message of the error of an e-mail that does not parse.
pub open spec fn unparsable_message() -> Seq<char> {
    "Couldn't parse mail."@
}

/// Reads a received e-mail: its envelope, or a `melib` error where it does
/// not parse.
pub fn read_post(raw: &[u8]) -> (r: Result<Envelope, Error>)
    ensures
        parsed_envelope(raw@) matches Some(v) ==> (r matches Ok(e) && envelope_view(e) == v),
        parsed_envelope(raw@) is None ==> (r matches Err(e) && e.source is None && (e.kind matches ErrorKind::Melib(m) && m@ == unparsable_message())),
{
    match parse_envelope(raw) {
        Some(e) => Ok(e),
        None => Err(Error::from_kind(ErrorKind::Melib(String::from_str("Couldn't parse mail.")))),
    }
}

/// The indices of the lists whose address is `spec`, in order.
pub open spec fn lists_with_address(lists: Seq<MailingList>, spec: Seq<char>) -> Seq<usize>
    decreases lists.len(),
{
    if lists.len() == 0 {
        Seq::empty()
    } else if lists.last().address@ == spec {
        lists_with_address(lists.drop_last(), spec).push((lists.len() - 1) as usize)
    } else {
        lists_with_address(lists.drop_last(), spec)
    }
}

/// The indices of the lists whose address is one of `tos`, in order.
pub open spec fn lists_addressed(lists: Seq<MailingList>, tos: Seq<Address>) -> Seq<usize>
    decreases lists.len(),
{
    if lists.len() == 0 {
        Seq::empty()
    } else if exists|t: int| 0 <= t < tos.len() && #[trigger] tos[t].address_spec@ == lists.last().address@ {
        lists_addressed(lists.drop_last(), tos).push((lists.len() - 1) as usize)
    } else {
        lists_addressed(lists.drop_last(), tos)
    }
}

/// A post goes to every list that one of its recipients has the address
/// of, wherever that recipient stands among them, and to no other list; each
/// list once, in the order of the lists.
pub proof fn lemma_posted_lists(lists: Seq<MailingList>, tos: Seq<Address>)
    requires
        lists.len() <= usize::MAX,
    ensures
        forall|i: int, t: int|
            0 <= i < lists.len() && 0 <= t < tos.len() && #[trigger] tos[t].address_spec@
                == #[trigger] lists[i].address@ ==> lists_addressed(lists, tos).contains(i as usize),
        forall|k: int|
            0 <= k < lists_addressed(lists, tos).len() ==> ({
                let i = #[trigger] lists_addressed(lists, tos)[k] as int;
                &&& 0 <= i < lists.len()
                &&& exists|t: int| 0 <= t < tos.len() && tos[t].address_spec@ == lists[i].address@
            }),
        forall|k1: int, k2: int|
            0 <= k1 < k2 < lists_addressed(lists, tos).len() ==> #[trigger] lists_addressed(
                lists,
                tos,
            )[k1] < #[trigger] lists_addressed(lists, tos)[k2],
    decreases lists.len(),
{
    if lists.len() > 0 {
        let init = lists.drop_last();
        let last = (lists.len() - 1) as int;
        lemma_posted_lists(init, tos);
        let rest = lists_addressed(init, tos);
        assert forall|i: int, t: int|
            0 <= i < lists.len() && 0 <= t < tos.len() && #[trigger] tos[t].address_spec@
                == #[trigger] lists[i].address@ implies lists_addressed(lists, tos).contains(
            i as usize,
        ) by {
            if i < last {
                assert(init[i] == lists[i]);
                assert(rest.contains(i as usize));
                let k = choose|k: int| 0 <= k < rest.len() && rest[k] == i as usize;
                if exists|u: int| 0 <= u < tos.len() && #[trigger] tos[u].address_spec@
                    == lists.last().address@ {
                    assert(lists_addressed(lists, tos) == rest.push(last as usize));
                    assert(lists_addressed(lists, tos)[k] == i as usize);
                } else {
                    assert(lists_addressed(lists, tos) == rest);
                }
            } else {
                assert(lists.last() == lists[i]);
                assert(tos[t].address_spec@ == lists.last().address@);
                assert(lists_addressed(lists, tos) == rest.push(last as usize));
                assert(lists_addressed(lists, tos)[rest.len() as int] == last as usize);
            }
        }
        assert forall|k: int| 0 <= k < lists_addressed(lists, tos).len() implies ({
            let i = #[trigger] lists_addressed(lists, tos)[k] as int;
            &&& 0 <= i < lists.len()
            &&& exists|t: int| 0 <= t < tos.len() && tos[t].address_spec@ == lists[i].address@
        }) by {
            if k < rest.len() {
                let i = rest[k] as int;
                assert(lists_addressed(lists, tos)[k] == rest[k]);
                assert(init[i] == lists[i]);
            } else {
                assert(exists|u: int| 0 <= u < tos.len() && #[trigger] tos[u].address_spec@
                    == lists.last().address@);
                assert(lists_addressed(lists, tos)[k] == last as usize);
            }
        }
        if exists|u: int| 0 <= u < tos.len() && #[trigger] tos[u].address_spec@
            == lists.last().address@ {
            let r = lists_addressed(lists, tos);
            assert(r == rest.push(last as usize));
            assert forall|k1: int, k2: int| 0 <= k1 < k2 < r.len() implies #[trigger] r[k1]
                < #[trigger] r[k2] by {
                assert(r[k1] == rest[k1]);
                if k2 < rest.len() {
                    assert(r[k2] == rest[k2]);
                } else {
                    assert(rest[k1] < init.len());
                }
            }
        }
    }
}

/// The first recipient with a `+` sub-address whose address is a list's: its
/// address and its sub-address.
pub open spec fn first_request(tos: Seq<Address>, lists: Seq<MailingList>) -> Option<
    ((Option<Seq<char>>, Seq<char>), Seq<char>),
>
    decreases tos.len(),
{
    if tos.len() == 0 {
        None
    } else {
        match melib_subaddress(opt_str(tos[0].display_name), tos[0].address_spec@, "+"@) {
            Some(p) => if lists_with_address(lists, p.0.1).len() > 0 {
                Some(p)
            } else {
                first_request(tos.drop_first(), lists)
            },
            None => first_request(tos.drop_first(), lists),
        }
    }
}

/// Where a received e-mail goes.
#[derive(Debug)]
pub enum Routing {
    /// It has no recipients.
    NoRecipients,
    /// It has no sender.
    NoSender,
    /// There are no lists.
    NoLists,
    /// It is a request (the sub-address) to the lists at these indices.
    Request {
        /// The lists, by index.
        lists: Vec<usize>,
        /// The sub-address.
        request: String,
    },
    /// It is a post to the lists at these indices.
    Post {
        /// The lists, by index.
        lists: Vec<usize>,
    },
    /// It is addressed to none of the lists.
    Unrelated,
}

fn indices_with_address(lists: &Vec<MailingList>, spec: &str) -> (r: Vec<usize>)
    ensures
        r@ == lists_with_address(lists@, spec@),
{
    let mut r: Vec<usize> = Vec::new();
    let mut i: usize = 0;
    while i < lists.len()
        invariant
            i <= lists@.len(),
            r@ == lists_with_address(lists@.take(i as int), spec@),
        decreases lists@.len() - i,
    {
        assert(lists@.take(i + 1).drop_last() =~= lists@.take(i as int));
        assert(lists@.take(i + 1).last() == lists@[i as int]);
        if str_eq(lists[i].address.as_str(), spec) {
            r.push(i);
        }
        i = i + 1;
    }
    assert(lists@.take(lists@.len() as int) =~= lists@);
    r
}

fn addressed_by(tos: &Vec<Address>, spec: &str) -> (r: bool)
    ensures
        r == exists|t: int| 0 <= t < tos@.len() && #[trigger] tos@[t].address_spec@ == spec@,
{
    let mut t: usize = 0;
    while t < tos.len()
        invariant
            t <= tos@.len(),
            forall|k: int| 0 <= k < t ==> tos@[k].address_spec@ != spec@,
        decreases tos@.len() - t,
    {
        if str_eq(tos[t].address_spec.as_str(), spec) {
            return true;
        }
        t = t + 1;
    }
    false
}

/// Where a received e-mail with recipients `tos` and `from_count` senders
/// goes, among `lists`: nowhere when it has no recipient, no sender or there
/// are no lists; as a request to the lists whose address is that of the
/// first recipient with a `+` sub-address that is a list's; otherwise as a
/// post to the lists it is addressed to, if any.
pub fn route_post(tos: &Vec<Address>, from_count: usize, lists: &Vec<MailingList>) -> (r: Routing)
    ensures
        tos@.len() == 0 ==> r is NoRecipients,
        tos@.len() > 0 && from_count == 0 ==> r is NoSender,
        tos@.len() > 0 && from_count > 0 && lists@.len() == 0 ==> r is NoLists,
        tos@.len() > 0 && from_count > 0 && lists@.len() > 0 ==> match first_request(tos@, lists@) {
            Some(p) => r matches Routing::Request { lists: ls, request } && ls@
                == lists_with_address(lists@, p.0.1) && request@ == p.1,
            None => if lists_addressed(lists@, tos@).len() > 0 {
                r matches Routing::Post { lists: ls } && ls@ == lists_addressed(lists@, tos@)
            } else {
                r is Unrelated
            },
        },
{
    if tos.len() == 0 {
        return Routing::NoRecipients;
    }
    if from_count == 0 {
        return Routing::NoSender;
    }
    if lists.len() == 0 {
        return Routing::NoLists;
    }
    let mut t: usize = 0;
    assert(tos@.skip(0) =~= tos@);
    while t < tos.len()
        invariant
            t <= tos@.len(),
            tos@.len() > 0,
            from_count > 0,
            lists@.len() > 0,
            first_request(tos@, lists@) == first_request(tos@.skip(t as int), lists@),
        decreases tos@.len() - t,
    {
        assert(tos@.skip(t as int).drop_first() =~= tos@.skip(t + 1));
        assert(tos@.skip(t as int)[0] == tos@[t as int]);
        match subaddress(&tos[t], "+") {
            Some((addr, sub)) => {
                let ls = indices_with_address(lists, addr.address_spec.as_str());
                if ls.len() > 0 {
                    return Routing::Request { lists: ls, request: sub };
                }
            },
            None => {},
        }
        t = t + 1;
    }
    assert(tos@.skip(tos@.len() as int) =~= Seq::<Address>::empty());
    let mut related: Vec<usize> = Vec::new();
    let mut i: usize = 0;
    while i < lists.len()
        invariant
            i <= lists@.len(),
            related@ == lists_addressed(lists@.take(i as int), tos@),
        decreases lists@.len() - i,
    {
        assert(lists@.take(i + 1).drop_last() =~= lists@.take(i as int));
        assert(lists@.take(i + 1).last() == lists@[i as int]);
        if addressed_by(tos, lists[i].address.as_str()) {
            related.push(i);
        }
        i = i + 1;
    }
    assert(lists@.take(lists@.len() as int) =~= lists@);
    if related.len() > 0 {
        Routing::Post { lists: related }
    } else {
        Routing::Unrelated
    }
}

/// How `melib` prints a sequence of addresses with `{:?}` (the `Debug` of
/// a `Vec` of `melib::Address`), each given by its display name and
/// address spec.
pub uninterp spec fn melib_addresses_debug(addrs: Seq<(Option<Seq<char>>, Seq<char>)>) -> Seq<char>;

/// The `Debug` text of the addresses `tos` as `melib` addresses: each is
/// made with `melib::Address::new` and the vector is printed with `{:?}`.
/// Not stated: the text itself, which the name `melib_addresses_debug`
/// stands for; it depends on the addresses alone.
#[verifier::external_body]
fn addresses_debug(tos: &Vec<Address>) -> (r: String)
    ensures
        r@ == melib_addresses_debug(addrs_view(tos@)),
{
    let v: Vec<melib::Address> = tos
        .iter()
        .map(|a| melib::Address::new(a.display_name.clone(), a.address_spec.clone()))
        .collect();
    format!("{:?}", v)
}

/// Whether `e` is a generic error with message `m` and no source.
pub open spec fn generic_error(e: Error, m: Seq<char>) -> bool {
    &&& e.kind matches ErrorKind::Generic(s) && s@ == m
    &&& e.source is None
}

/// `No relevant mailing list found for these addresses: ` and the
/// recipients as `melib` prints them.
pub open spec fn unrelated_message(tos: Seq<Address>) -> Seq<char> {
    "No relevant mailing list found for these addresses: "@ + melib_addresses_debug(addrs_view(tos))
}

/// Where a received e-mail with recipients `tos` and `from_count` senders
/// goes among `lists`, as `route_post` finds, or the error of one that goes
/// nowhere, checked in this order: no recipient, no sender, no list, and no
/// list it is a request or a post to.
pub fn route_received(tos: &Vec<Address>, from_count: usize, lists: &Vec<MailingList>) -> (r:
    Result<Routing, Error>)
    ensures
        tos@.len() == 0 ==> (r matches Err(e) && generic_error(e, "Envelope To: field is empty!"@)),
        tos@.len() > 0 && from_count == 0 ==> (r matches Err(e) && generic_error(
            e,
            "Envelope From: field is empty!"@,
        )),
        tos@.len() > 0 && from_count > 0 && lists@.len() == 0 ==> (r matches Err(e)
            && generic_error(e, "No active mailing lists found."@)),
        tos@.len() > 0 && from_count > 0 && lists@.len() > 0 ==> match first_request(tos@, lists@) {
            Some(p) => r matches Ok(Routing::Request { lists: ls, request }) && ls@
                == lists_with_address(lists@, p.0.1) && request@ == p.1,
            None => if lists_addressed(lists@, tos@).len() > 0 {
                r matches Ok(Routing::Post { lists: ls }) && ls@ == lists_addressed(lists@, tos@)
            } else {
                r matches Err(e) && generic_error(e, unrelated_message(tos@))
            },
        },
{
    match route_post(tos, from_count, lists) {
        Routing::NoRecipients => Err(Error::generic(String::from_str("Envelope To: field is empty!"))),
        Routing::NoSender => Err(Error::generic(String::from_str("Envelope From: field is empty!"))),
        Routing::NoLists => Err(Error::generic(String::from_str("No active mailing lists found."))),
        Routing::Unrelated => {
            let mut m = String::from_str("No relevant mailing list found for these addresses: ");
            let d = addresses_debug(tos);
            m.append(d.as_str());
            Err(Error::generic(m))
        },
        other => Ok(other),
    }
}

/// A request to a list, sent to one of its `+` sub-addresses.
#[derive(Debug)]
pub enum ListRequest {
    /// Ask for help.
    Help,
    /// Subscribe.
    Subscribe,
    /// Unsubscribe.
    Unsubscribe,
    /// Retrieve the posts with these message ids.
    RetrieveMessages(Vec<String>),
    /// Retrieve the archive between two dates.
    RetrieveArchive(String, String),
    /// Change a setting of the subscription to a value.
    ChangeSetting(String, bool),
    /// Any other request, by its name.
    Other(String),
}

/// `s` without leading and trailing whitespace.
pub open spec fn trimmed(s: Seq<char>) -> Seq<char>
    decreases s.len(),
{
    if s.len() > 0 && crate::text::is_whitespace(s[0]) {
        trimmed(s.drop_first())
    } else if s.len() > 0 && crate::text::is_whitespace(s.last()) {
        trimmed(s.drop_last())
    } else {
        s
    }
}

/// The request that the sub-address `sub` of a message with subject
/// `subject` makes: `subscribe`, `unsubscribe` and `help` name their
/// request, and `request` makes the request that its trimmed subject names.
pub open spec fn request_of(sub: Seq<char>, subject: Seq<char>) -> (Seq<char>, u8) {
    let name = if sub == "request"@ { trimmed(subject) } else { sub };
    if name == "subscribe"@ {
        (name, 1)
    } else if name == "unsubscribe"@ {
        (name, 2)
    } else if name == "help"@ {
        (name, 0)
    } else {
        (trimmed(name), 3)
    }
}

/// The kind of a request (see `request_of`).
pub open spec fn request_kind(r: ListRequest) -> u8 {
    match r {
        ListRequest::Help => 0,
        ListRequest::Subscribe => 1,
        ListRequest::Unsubscribe => 2,
        ListRequest::Other(_) => 3,
        ListRequest::RetrieveMessages(_) => 4,
        ListRequest::RetrieveArchive(_, _) => 5,
        ListRequest::ChangeSetting(_, _) => 6,
    }
}

/// `s` without leading and trailing whitespace.
pub fn trim(s: &str) -> (r: String)
    ensures
        r@ == trimmed(s@),
{
    let n = s.unicode_len();
    let mut start: usize = 0;
    let mut end: usize = n;
    assert(s@.subrange(0, n as int) =~= s@);
    while start < end && crate::text::char_is_whitespace(s.get_char(start))
        invariant
            n == s@.len(),
            start <= end <= n,
            end == n,
            trimmed(s@) == trimmed(s@.subrange(start as int, end as int)),
        decreases end - start,
    {
        assert(s@.subrange(start as int, end as int).drop_first() =~= s@.subrange(
            start + 1,
            end as int,
        ));
        start = start + 1;
    }
    while start < end && crate::text::char_is_whitespace(s.get_char(end - 1))
        invariant
            n == s@.len(),
            start <= end <= n,
            trimmed(s@) == trimmed(s@.subrange(start as int, end as int)),
            start < end ==> !crate::text::is_whitespace(s@[start as int]),
        decreases end - start,
    {
        assert(s@.subrange(start as int, end as int)[0] == s@[start as int]);
        assert(s@.subrange(start as int, end as int).drop_last() =~= s@.subrange(
            start as int,
            end - 1,
        ));
        end = end - 1;
    }
    crate::text::substring(s, start, end)
}

/// A request to the `+request` sub-address is the one its subject names,
/// once trimmed: `subscribe`, `unsubscribe` and `help` are the requests that
/// the sub-addresses of those names make, whatever the subject then; any
/// other sub-address or subject is another request, by its trimmed name.
pub proof fn lemma_request_by_subject(subject: Seq<char>, other: Seq<char>)
    ensures
        trimmed(subject) == "subscribe"@ ==> request_of("request"@, subject).1 == 1,
        trimmed(subject) == "unsubscribe"@ ==> request_of("request"@, subject).1 == 2,
        trimmed(subject) == "help"@ ==> request_of("request"@, subject).1 == 0,
        request_of("subscribe"@, other).1 == 1,
        request_of("unsubscribe"@, other).1 == 2,
        request_of("help"@, other).1 == 0,
        request_kind(ListRequest::Help) == 0 && request_kind(ListRequest::Subscribe) == 1
            && request_kind(ListRequest::Unsubscribe) == 2,
        forall|n: String| request_kind(ListRequest::Other(n)) == 3,
        trimmed(subject) != "subscribe"@ && trimmed(subject) != "unsubscribe"@ && trimmed(subject)
            != "help"@ ==> request_of("request"@, subject) == (trimmed(trimmed(subject)), 3u8),
{
    reveal_strlit("request");
    reveal_strlit("subscribe");
    reveal_strlit("unsubscribe");
    reveal_strlit("help");
    assert("subscribe"@ != "request"@) by {
        assert("subscribe"@[0] != "request"@[0]);
    }
    assert("unsubscribe"@ != "request"@) by {
        assert("unsubscribe"@.len() != "request"@.len());
    }
    assert("help"@ != "request"@) by {
        assert("help"@.len() != "request"@.len());
    }
    assert("unsubscribe"@ != "subscribe"@) by {
        assert("unsubscribe"@.len() != "subscribe"@.len());
    }
    assert("help"@ != "subscribe"@) by {
        assert("help"@.len() != "subscribe"@.len());
    }
    assert("help"@ != "unsubscribe"@) by {
        assert("help"@.len() != "unsubscribe"@.len());
    }
}

impl ListRequest {
    /// The request made by the sub-address `sub` of a message with subject
    /// `subject` (see `request_of`).
    pub fn parse(sub: &str, subject: &str) -> (r: ListRequest)
        ensures
            request_kind(r) == request_of(sub@, subject@).1,
            r matches ListRequest::Other(n) ==> n@ == request_of(sub@, subject@).0,
    {
        let name = if str_eq(sub, "request") {
            trim(subject)
        } else {
            String::from_str(sub)
        };
        if str_eq(name.as_str(), "subscribe") {
            ListRequest::Subscribe
        } else if str_eq(name.as_str(), "unsubscribe") {
            ListRequest::Unsubscribe
        } else if str_eq(name.as_str(), "help") {
            ListRequest::Help
        } else {
            ListRequest::Other(trim(name.as_str()))
        }
    }
}

/// The subject of the help reply of a list: `Help for {name}`.
pub fn help_subject(list: &MailingList) -> (r: String)
    ensures
        r@ == "Help for "@ + list.name@,
{
    let mut s = String::from_str("Help for ");
    s.append(list.name.as_str());
    s
}

/// The subject of the reply to a subscribe request of an address already
/// subscribed: `You are already subscribed to {id}.`.
pub fn already_subscribed_subject(list: &MailingList) -> (r: String)
    ensures
        r@ == "You are already subscribed to "@ + list.id@ + "."@,
{
    let mut s = String::from_str("You are already subscribed to ");
    s.append(list.id.as_str());
    s.append(".");
    s
}

/// The subject of the reply to a rejected post: `Your post to {id} was
/// rejected.`.
pub fn rejected_subject(list: &MailingList) -> (r: String)
    ensures
        r@ == "Your post to "@ + list.id@ + " was rejected."@,
{
    let mut s = String::from_str("Your post to ");
    s.append(list.id.as_str());
    s.append(" was rejected.");
    s
}

/// The subject of the reply to a deferred post: `Your post to {id} was
/// deferred.`.
pub fn deferred_subject(list: &MailingList) -> (r: String)
    ensures
        r@ == "Your post to "@ + list.id@ + " was deferred."@,
{
    let mut s = String::from_str("Your post to ");
    s.append(list.id.as_str());
    s.append(" was deferred.");
    s
}

/// What the library does with a request to a list.
#[derive(Debug)]
pub enum RequestAction {
    /// Reply to each sender with the list's help.
    SendHelp,
    /// Subscribe each sender.
    Subscribe,
    /// Unsubscribe each sender.
    Unsubscribe,
    /// Set the password of each sender that is subscribed to the text of
    /// the message body.
    SetPassword,
    /// Refuse the request with this message.
    Refuse(String),
}

/// What a request with name `n` (for `ListRequest::Other`) makes the
/// library do: `owner` and unknown requests are refused, and `password`
/// (trimmed, in any ASCII case) sets a password.
pub open spec fn other_request_refusal(n: Seq<char>) -> Option<Seq<char>> {
    if n == "owner"@ {
        Some("list-owner emails are not implemented yet."@)
    } else if eq_ignore_ascii_case(trimmed(n), "password"@) {
        None
    } else {
        Some("Unknown request "@ + n + "."@)
    }
}

/// The action for the request `req`.
pub fn request_action(req: &ListRequest) -> (r: RequestAction)
    ensures
        req is Help ==> r is SendHelp,
        req is Subscribe ==> r is Subscribe,
        req is Unsubscribe ==> r is Unsubscribe,
        req matches ListRequest::Other(n) ==> match other_request_refusal(n@) {
            Some(m) => r matches RequestAction::Refuse(x) && x@ == m,
            None => r is SetPassword,
        },
        (req is RetrieveMessages || req is RetrieveArchive) ==> (r matches RequestAction::Refuse(x)
            && x@ == "message retrievals are not implemented yet."@),
        req is ChangeSetting ==> (r matches RequestAction::Refuse(x) && x@
            == "setting digest options via e-mail is not implemented yet."@),
{
    match req {
        ListRequest::RetrieveMessages(_) | ListRequest::RetrieveArchive(_, _) => {
            RequestAction::Refuse(String::from_str("message retrievals are not implemented yet."))
        },
        ListRequest::ChangeSetting(_, _) => {
            RequestAction::Refuse(
                String::from_str("setting digest options via e-mail is not implemented yet."),
            )
        },
        ListRequest::Help => RequestAction::SendHelp,
        ListRequest::Subscribe => RequestAction::Subscribe,
        ListRequest::Unsubscribe => RequestAction::Unsubscribe,
        ListRequest::Other(n) => {
            if str_eq(n.as_str(), "owner") {
                RequestAction::Refuse(String::from_str("list-owner emails are not implemented yet."))
            } else {
                let t = trim(n.as_str());
                if str_eq_ignore_ascii_case(t.as_str(), "password") {
                    RequestAction::SetPassword
                } else {
                    let mut m = String::from_str("Unknown request ");
                    m.append(n.as_str());
                    m.append(".");
                    RequestAction::Refuse(m)
                }
            }
        },
    }
}

/// How a request went for one sender.
#[derive(Debug)]
pub enum RequestOutcome {
    /// The sender asked to subscribe and is subscribed already.
    AlreadySubscribed,
    /// The sender is now subscribed.
    Subscribed,
    /// The sender's subscription awaits the approval of the owners.
    CandidateAdded,
    /// The subscription failed, with this error.
    SubscriptionFailed(String),
    /// The sender is now unsubscribed.
    Unsubscribed,
    /// The unsubscription failed, with this error.
    UnsubscribeFailed(String),
}

/// What a subscribe request does for one sender.
#[derive(Debug)]
pub enum SubscribeStep {
    /// Nothing: the sender is subscribed already.
    AlreadySubscribed,
    /// Store this subscription.
    AddSubscription(ListMembership),
    /// Store this subscription as a request for the owners to approve.
    AddCandidate(ListMembership),
}

/// Whether `r` is what a subscribe request of `from` to list `list` does:
/// nothing where the sender is subscribed already; otherwise it stores the
/// subscription of a subscribe request, as a request for approval where the
/// list's post policy needs one.
pub open spec fn subscribe_step_of(
    r: SubscribeStep,
    list: i64,
    from: Address,
    already_subscribed: bool,
    post_policy: Option<PostPolicy>,
) -> bool {
    &&& already_subscribed ==> r is AlreadySubscribed
    &&& !already_subscribed && approval_needed(post_policy) ==> (r matches SubscribeStep::AddCandidate(
        s,
    ) && request_subscription(s, list, from, post_policy))
    &&& !already_subscribed && !approval_needed(post_policy) ==> (r matches SubscribeStep::AddSubscription(
        s,
    ) && request_subscription(s, list, from, post_policy))
}

/// What a subscribe request of `from` to list `list` does (see
/// `subscribe_step_of`).
pub fn subscribe_step(
    list: i64,
    from: &Address,
    already_subscribed: bool,
    post_policy: &Option<PostPolicy>,
) -> (r: SubscribeStep)
    ensures
        subscribe_step_of(r, list, *from, already_subscribed, *post_policy),
{
    if already_subscribed {
        return SubscribeStep::AlreadySubscribed;
    }
    let s = subscription_for_request(list, from, post_policy);
    if s.enabled {
        SubscribeStep::AddSubscription(s)
    } else {
        SubscribeStep::AddCandidate(s)
    }
}

/// How a subscribe request went for one sender once its step was taken,
/// where `stored` is the error of storing the subscription, if any: already
/// subscribed; subscribed, or waiting for approval, once stored; failed with
/// the error otherwise.
pub open spec fn subscribe_outcome_of(step: SubscribeStep, stored: Result<(), String>) -> RequestOutcome {
    match step {
        SubscribeStep::AlreadySubscribed => RequestOutcome::AlreadySubscribed,
        SubscribeStep::AddSubscription(_) => match stored {
            Ok(_) => RequestOutcome::Subscribed,
            Err(e) => RequestOutcome::SubscriptionFailed(e),
        },
        SubscribeStep::AddCandidate(_) => match stored {
            Ok(_) => RequestOutcome::CandidateAdded,
            Err(e) => RequestOutcome::SubscriptionFailed(e),
        },
    }
}

/// How a subscribe request went for one sender, once its step was taken
/// (see `subscribe_outcome_of`).
pub fn subscribe_outcome(step: &SubscribeStep, stored: Result<(), String>) -> (r: RequestOutcome)
    ensures
        r == subscribe_outcome_of(*step, stored),
{
    match step {
        SubscribeStep::AlreadySubscribed => RequestOutcome::AlreadySubscribed,
        SubscribeStep::AddSubscription(_) => match stored {
            Ok(_) => RequestOutcome::Subscribed,
            Err(e) => RequestOutcome::SubscriptionFailed(e),
        },
        SubscribeStep::AddCandidate(_) => match stored {
            Ok(_) => RequestOutcome::CandidateAdded,
            Err(e) => RequestOutcome::SubscriptionFailed(e),
        },
    }
}

/// A subscribe request creates an enabled subscription exactly when the
/// list has no post policy or its policy does not need approval, whatever
/// its other flags (announce only, subscription only, open, custom); where
/// it needs approval, the subscription is stored as a disabled candidate.
pub proof fn lemma_enabled_unless_approval_needed(
    r: ListMembership,
    step: SubscribeStep,
    list: i64,
    from: Address,
    post_policy: Option<PostPolicy>,
)
    ensures
        request_subscription(r, list, from, post_policy) ==> (r.enabled <==> match post_policy {
            None => true,
            Some(p) => !p.approval_needed,
        }),
        subscribe_step_of(step, list, from, false, post_policy) ==> ((step is AddSubscription)
            <==> match post_policy {
            None => true,
            Some(p) => !p.approval_needed,
        }),
        subscribe_step_of(step, list, from, false, post_policy) ==> ((step is AddCandidate)
            <==> match post_policy {
            None => false,
            Some(p) => p.approval_needed,
        }),
{
}

/// A subscribe request of a sender who is not subscribed yet, to a list
/// whose post policy needs no approval, stores an enabled subscription of
/// the sender's address, which receives duplicates and confirmations but no
/// digests and not its own posts; once it is stored, one reply goes out, to
/// the sender alone: the subscription confirmation. Where the policy needs
/// approval, the subscription is stored disabled and the owners alone are
/// told of it.
pub proof fn lemma_subscribe_request(
    list: MailingList,
    from: Address,
    post_policy: Option<PostPolicy>,
    step: SubscribeStep,
)
    requires
        subscribe_step_of(step, list.pk, from, false, post_policy),
    ensures
        !approval_needed(post_policy) ==> ({
            &&& step matches SubscribeStep::AddSubscription(s) && s.enabled && s.list == list.pk
                && s.address@ == from.address_spec@ && s.receive_duplicates
                && s.receive_confirmation && !s.digest && !s.hide_address && !s.receive_own_posts
            &&& replies_of(list, subscribe_outcome_of(step, Ok(()))) == seq![
                ("subscription-confirmation"@, ReplyTo::Sender, None::<Seq<char>>, None::<Seq<char>>),
            ]
        }),
        approval_needed(post_policy) ==> ({
            &&& step matches SubscribeStep::AddCandidate(s) && !s.enabled && s.address@
                == from.address_spec@
            &&& replies_of(list, subscribe_outcome_of(step, Ok(()))) == seq![
                ("subscription-notice-owner"@, ReplyTo::Owners, None::<Seq<char>>, None::<Seq<char>>),
            ]
        }),
{
}

/// How an unsubscribe request went for one sender: `removed` is the error
/// of removing the subscription, if any.
pub fn unsubscribe_outcome(removed: Result<(), String>) -> (r: RequestOutcome)
    ensures
        removed is Ok ==> r is Unsubscribed,
        removed matches Err(e) ==> (r matches RequestOutcome::UnsubscribeFailed(m) && m@ == e@),
{
    match removed {
        Ok(_) => RequestOutcome::Unsubscribed,
        Err(e) => RequestOutcome::UnsubscribeFailed(e),
    }
}

/// The plain text of the body of the message `raw`, as melib decodes it.
pub uninterp spec fn melib_body_text(raw: Seq<u8>) -> Seq<char>;

/// melib's `Envelope::body_bytes(raw)` (an `AttachmentBuilder` built from
/// the message) and `Attachment::text(Text::Plain)`: the body decoded by its
/// transfer encoding and charset. Not stated: the decoding itself, which the
/// name `melib_body_text` stands for; it depends on the bytes alone.
#[verifier::external_body]
fn body_text(raw: &[u8]) -> (r: String)
    ensures
        r@ == melib_body_text(raw@),
{
    melib::email::AttachmentBuilder::new(raw).build().text(melib::email::attachment_types::Text::Plain)
}

/// The password that a password request sets: the plain text of the body of
/// the request message `raw`.
pub fn request_password(raw: &[u8]) -> (r: String)
    ensures
        r@ == melib_body_text(raw@),
{
    body_text(raw)
}

/// What a password request does for one sender.
#[derive(Debug)]
pub enum PasswordStep {
    /// Nothing: the sender is not subscribed to the list.
    Nothing,
    /// Set the password of the sender's account.
    UpdateAccount(AccountChangeset),
    /// Create an account for the sender with this password.
    AddAccount {
        /// The address.
        address: String,
        /// The name.
        name: Option<String>,
        /// The password.
        password: String,
        /// Whether the account is enabled.
        enabled: bool,
    },
}

/// What a password request sets for a sender whose subscription to the
/// list is `subscription`: nothing where there is none; otherwise the
/// password of the account of the subscribed address where there is one
/// (`account_exists`), and else a new account with the subscription's
/// address, name and enabled state.
pub fn password_step(subscription: Option<&ListMembership>, account_exists: bool, password: String) -> (r:
    PasswordStep)
    ensures
        subscription is None ==> r is Nothing,
        subscription matches Some(s) ==> (account_exists ==> (r matches PasswordStep::UpdateAccount(c)
            && c.address@ == s.address@ && (c.password matches Some(p) && p@ == password@)
            && c.name is None && c.public_key is None && c.enabled is None)),
        subscription matches Some(s) ==> (!account_exists ==> (r matches PasswordStep::AddAccount {
            address,
            name,
            password: p,
            enabled,
        } && address@ == s.address@ && opt_str(name) == opt_str(s.name) && p@ == password@
            && enabled == s.enabled)),
{
    match subscription {
        None => PasswordStep::Nothing,
        Some(s) => {
            if account_exists {
                PasswordStep::UpdateAccount(
                    AccountChangeset {
                        address: s.address.clone(),
                        name: None,
                        public_key: None,
                        password: Some(password),
                        enabled: None,
                    },
                )
            } else {
                PasswordStep::AddAccount {
                    address: s.address.clone(),
                    name: clone_opt_string(&s.name),
                    password,
                    enabled: s.enabled,
                }
            }
        },
    }
}

/// To whom a reply goes.
#[derive(Debug, Clone, Copy, PartialEq, Eq, Structural)]
pub enum ReplyTo {
    /// The sender of the request.
    Sender,
    /// The owners of the list.
    Owners,
}

/// A reply to send: the template, its recipients, and the subject and
/// details it is rendered with, where it has them.
#[derive(Debug)]
pub struct Reply {
    /// The template's name.
    pub template: &'static str,
    /// The recipients.
    pub to: ReplyTo,
    /// The subject given to the template.
    pub subject: Option<String>,
    /// The details given to the template.
    pub details: Option<String>,
}

/// A reply as plain values.
pub open spec fn reply_view(r: Reply) -> (Seq<char>, ReplyTo, Option<Seq<char>>, Option<Seq<char>>) {
    (r.template@, r.to, opt_str(r.subject), opt_str(r.details))
}

/// The details of the reply to a subscribe request of an address already
/// subscribed.
pub open spec fn already_subscribed_details() -> Seq<char> {
    "No action has been taken since you are already subscribed to the list."@
}

/// The replies that the outcome `o` of a request to `list` sends, in order:
/// a failure notice to the sender and the error to the owners where it
/// failed, the owners' notice of a candidate, and the confirmation to the
/// sender otherwise.
pub open spec fn replies_of(list: MailingList, o: RequestOutcome) -> Seq<
    (Seq<char>, ReplyTo, Option<Seq<char>>, Option<Seq<char>>),
> {
    match o {
        RequestOutcome::AlreadySubscribed => seq![
            (
                "generic-failure"@,
                ReplyTo::Sender,
                Some("You are already subscribed to "@ + list.id@ + "."@),
                Some(already_subscribed_details()),
            ),
        ],
        RequestOutcome::Subscribed => seq![
            ("subscription-confirmation"@, ReplyTo::Sender, None, None),
        ],
        RequestOutcome::CandidateAdded => seq![
            ("subscription-notice-owner"@, ReplyTo::Owners, None, None),
        ],
        RequestOutcome::SubscriptionFailed(e) => seq![
            ("generic-failure"@, ReplyTo::Sender, None, None),
            ("admin-notice"@, ReplyTo::Owners, None, Some(e@)),
        ],
        RequestOutcome::Unsubscribed => seq![
            ("unsubscription-confirmation"@, ReplyTo::Sender, None, None),
        ],
        RequestOutcome::UnsubscribeFailed(e) => seq![
            ("generic-failure"@, ReplyTo::Sender, None, None),
            ("admin-notice"@, ReplyTo::Owners, None, Some(e@)),
        ],
    }
}

/// A request that failed for a sender is answered alike whether it was a
/// subscription or an unsubscription: a failure notice to the sender first,
/// then the error itself to the owners of the list.
pub proof fn lemma_failed_request_replies(list: MailingList, e: String)
    ensures
        replies_of(list, RequestOutcome::SubscriptionFailed(e)) == replies_of(
            list,
            RequestOutcome::UnsubscribeFailed(e),
        ),
        replies_of(list, RequestOutcome::SubscriptionFailed(e)).len() == 2,
        replies_of(list, RequestOutcome::SubscriptionFailed(e))[0].0 == "generic-failure"@,
        replies_of(list, RequestOutcome::SubscriptionFailed(e))[0].1 == ReplyTo::Sender,
        replies_of(list, RequestOutcome::SubscriptionFailed(e))[1].1 == ReplyTo::Owners,
        replies_of(list, RequestOutcome::SubscriptionFailed(e))[1].3 == Some(e@),
{
}

fn reply(template: &'static str, to: ReplyTo) -> (r: Reply)
    ensures
        reply_view(r) == (template@, to, None::<Seq<char>>, None::<Seq<char>>),
{
    Reply { template, to, subject: None, details: None }
}

/// The replies that the outcome `o` of a request to `list` sends (see
/// `replies_of`).
pub fn replies_for(list: &MailingList, o: RequestOutcome) -> (r: Vec<Reply>)
    ensures
        r@.map_values(|x: Reply| reply_view(x)) == replies_of(*list, o),
{
    proof {
        reveal_strlit("generic-failure");
        reveal_strlit("subscription-confirmation");
        reveal_strlit("subscription-notice-owner");
        reveal_strlit("unsubscription-confirmation");
        reveal_strlit("admin-notice");
    }
    let ghost o0 = o;
    let mut r: Vec<Reply> = Vec::new();
    match o {
        RequestOutcome::AlreadySubscribed => {
            r.push(Reply {
                template: GENERIC_FAILURE,
                to: ReplyTo::Sender,
                subject: Some(already_subscribed_subject(list)),
                details: Some(
                    String::from_str(
                        "No action has been taken since you are already subscribed to the list.",
                    ),
                ),
            });
        },
        RequestOutcome::Subscribed => {
            r.push(reply(SUBSCRIPTION_CONFIRMATION, ReplyTo::Sender));
        },
        RequestOutcome::CandidateAdded => {
            r.push(reply(SUBSCRIPTION_REQUEST_NOTICE_OWNER, ReplyTo::Owners));
        },
        RequestOutcome::SubscriptionFailed(e) => {
            r.push(reply(GENERIC_FAILURE, ReplyTo::Sender));
            r.push(Reply { template: ADMIN_NOTICE, to: ReplyTo::Owners, subject: None, details: Some(e) });
        },
        RequestOutcome::Unsubscribed => {
            r.push(reply(UNSUBSCRIPTION_CONFIRMATION, ReplyTo::Sender));
        },
        RequestOutcome::UnsubscribeFailed(e) => {
            r.push(reply(GENERIC_FAILURE, ReplyTo::Sender));
            r.push(Reply { template: ADMIN_NOTICE, to: ReplyTo::Owners, subject: None, details: Some(e) });
        },
    }
    assert(r@.map_values(|x: Reply| reply_view(x)) =~= replies_of(*list, o0));
    r
}

/// The recipients of the `Send` jobs among `jobs`, in order.
pub open spec fn send_recipients(jobs: Seq<MailJob>) -> Seq<(Option<Seq<char>>, Seq<char>)>
    decreases jobs.len(),
{
    if jobs.len() == 0 {
        Seq::empty()
    } else {
        let rest = send_recipients(jobs.drop_last());
        match jobs.last() {
            MailJob::Send { recipients } => rest + addrs_view(recipients@),
            _ => rest,
        }
    }
}

/// A post that the filters of a list accepted, with no job scheduled
/// before, goes to the subscriptions that get a copy of it
/// (`copy_recipients`), in subscription order: every subscription without
/// digests, except the submitter's unless it asks for its own posts. Each of
/// them is one recipient of the delivery (see `post_disposition`).
pub proof fn lemma_accepted_post_recipients(
    jobs: Seq<MailJob>,
    subs: Seq<ListMembership>,
    from: Seq<char>,
)
    requires
        crate::mail::message_filters::finalized_jobs(Seq::empty(), jobs, subs, from),
    ensures
        send_recipients(jobs) == crate::mail::message_filters::copy_recipients(subs, from),
{
    let copies = crate::mail::message_filters::copy_recipients(subs, from);
    let first = seq![jobs[0]];
    assert(send_recipients(first.drop_last()) == Seq::<(Option<Seq<char>>, Seq<char>)>::empty());
    assert(send_recipients(first) =~= copies);
    if jobs.len() == 1 {
        assert(jobs =~= first);
    } else {
        assert(jobs.drop_last() =~= first);
        assert(jobs.last() is StoreDigest);
    }
}

/// What becomes of a post once the filters of a list decided its action.
#[derive(Debug)]
pub enum PostDisposition {
    /// Store the post in the archive and queue a copy for each of these
    /// recipients, in order.
    Deliver {
        /// The recipients.
        recipients: Vec<Address>,
    },
    /// Send the senders a failure notice and, where `queue` is set, keep
    /// the post in that queue; `comment` records the action.
    Refuse {
        /// The notice.
        reply: Reply,
        /// Where the post is kept.
        queue: Option<Queue>,
        /// The action, as text.
        comment: String,
    },
    /// Keep the post in `queue`; `comment` records the action.
    Keep {
        /// Where the post is kept.
        queue: Queue,
        /// The action, as text.
        comment: String,
    },
}

fn push_addresses(out: &mut Vec<Address>, v: &Vec<Address>)
    ensures
        addrs_view(final(out)@) == addrs_view(old(out)@) + addrs_view(v@),
{
    let ghost start = out@;
    let mut i: usize = 0;
    while i < v.len()
        invariant
            i <= v@.len(),
            addrs_view(out@) == addrs_view(start) + addrs_view(v@.take(i as int)),
        decreases v@.len() - i,
    {
        let a = v[i].duplicate();
        let ghost prev = out@;
        out.push(a);
        assert(addr_view(a) == addr_view(v@[i as int]));
        assert(addrs_view(out@) =~= addrs_view(prev).push(addr_view(v@[i as int])));
        assert(v@.take(i + 1) =~= v@.take(i as int).push(v@[i as int]));
        assert(addrs_view(v@.take(i + 1)) =~= addrs_view(v@.take(i as int)).push(
            addr_view(v@[i as int]),
        ));
        assert(addrs_view(out@) =~= addrs_view(start) + addrs_view(v@.take(i + 1)));
        i = i + 1;
    }
    assert(v@.take(v@.len() as int) =~= v@);
}

/// The recipients of the `Send` jobs among `jobs`, in order.
pub fn recipients_of_jobs(jobs: &Vec<MailJob>) -> (r: Vec<Address>)
    ensures
        addrs_view(r@) == send_recipients(jobs@),
{
    let mut r: Vec<Address> = Vec::new();
    let mut i: usize = 0;
    assert(addrs_view(r@) =~= send_recipients(jobs@.take(0)));
    while i < jobs.len()
        invariant
            i <= jobs@.len(),
            addrs_view(r@) == send_recipients(jobs@.take(i as int)),
        decreases jobs@.len() - i,
    {
        assert(jobs@.take(i + 1).drop_last() =~= jobs@.take(i as int));
        assert(jobs@.take(i + 1).last() == jobs@[i as int]);
        match &jobs[i] {
            MailJob::Send { recipients } => {
                push_addresses(&mut r, recipients);
            },
            _ => {},
        }
        i = i + 1;
    }
    assert(jobs@.take(jobs@.len() as int) =~= jobs@);
    r
}

/// The text that records an action: `PostAction::Reject { reason: R }`,
/// `PostAction::Defer { reason: R }` or `PostAction::Hold`.
pub open spec fn action_comment(a: ActionView) -> Seq<char> {
    match a {
        ActionView::Reject(r) => "PostAction::Reject { reason: "@ + r + " }"@,
        ActionView::Defer(r) => "PostAction::Defer { reason: "@ + r + " }"@,
        ActionView::Hold => "PostAction::Hold"@,
        ActionView::Accept => "PostAction::Accept"@,
    }
}

fn reason_comment(prefix: &str, reason: &str) -> (r: String)
    ensures
        r@ == prefix@ + reason@ + " }"@,
{
    let mut c = String::from_str(prefix);
    c.append(reason);
    c.append(" }");
    c
}

/// What becomes of a post to `list` whose action is `action`, with the jobs
/// `jobs` scheduled: an accepted post goes to the recipients of the `Send`
/// jobs; a rejected one gets the sender a failure notice; a deferred one
/// gets a notice too and is kept in the deferred queue; a held one is kept
/// in the hold queue.
pub fn post_disposition(list: &MailingList, action: PostAction, jobs: &Vec<MailJob>) -> (r:
    PostDisposition)
    ensures
        action_view(action) is Accept ==> (r matches PostDisposition::Deliver { recipients }
            && addrs_view(recipients@) == send_recipients(jobs@)),
        action_view(action) matches ActionView::Reject(reason) ==> (r matches PostDisposition::Refuse {
            reply,
            queue,
            comment,
        } && reply_view(reply) == ("generic-failure"@, ReplyTo::Sender, Some(
            "Your post to "@ + list.id@ + " was rejected."@,
        ), Some(reason)) && queue is None && comment@ == action_comment(action_view(action))),
        action_view(action) matches ActionView::Defer(reason) ==> (r matches PostDisposition::Refuse {
            reply,
            queue,
            comment,
        } && reply_view(reply) == ("generic-failure"@, ReplyTo::Sender, Some(
            "Your post to "@ + list.id@ + " was deferred."@,
        ), Some(reason)) && queue == Some(Queue::Deferred) && comment@ == action_comment(
            action_view(action),
        )),
        action_view(action) is Hold ==> (r matches PostDisposition::Keep { queue, comment }
            && queue == Queue::Hold && comment@ == action_comment(action_view(action))),
{
    proof {
        reveal_strlit("generic-failure");
    }
    match action {
        PostAction::Accept => PostDisposition::Deliver { recipients: recipients_of_jobs(jobs) },
        PostAction::Reject { reason } => {
            let comment = reason_comment("PostAction::Reject { reason: ", reason.as_str());
            PostDisposition::Refuse {
                reply: Reply {
                    template: GENERIC_FAILURE,
                    to: ReplyTo::Sender,
                    subject: Some(rejected_subject(list)),
                    details: Some(reason),
                },
                queue: None,
                comment,
            }
        },
        PostAction::Defer { reason } => {
            let comment = reason_comment("PostAction::Defer { reason: ", reason.as_str());
            PostDisposition::Refuse {
                reply: Reply {
                    template: GENERIC_FAILURE,
                    to: ReplyTo::Sender,
                    subject: Some(deferred_subject(list)),
                    details: Some(reason),
                },
                queue: Some(Queue::Deferred),
                comment,
            }
        },
        PostAction::Hold => PostDisposition::Keep {
            queue: Queue::Hold,
            comment: String::from_str("PostAction::Hold"),
        },
    }
}

} // verus!
