//! Database models: [`MailingList`], [`ListOwner`], [`ListMembership`],
//! [`PostPolicy`] and [`Post`], and the [`Address`] of a mailbox.

pub mod changesets;

use vstd::prelude::*;

use crate::text::{dec_int, find_char, local_part, domain_part, push_i64, split_address, str_eq, string_push};

verus! {

/// The characters of an optional string.
pub open spec fn opt_str(o: Option<String>) -> Option<Seq<char>> {
    match o {
        Some(s) => Some(s@),
        None => None,
    }
}

/// Copy of an optional string.
pub fn clone_opt_string(o: &Option<String>) -> (r: Option<String>)
    ensures
        opt_str(r) == opt_str(*o),
{
    match o {
        Some(s) => Some(s.clone()),
        None => None,
    }
}

/// A mailbox address: an optional display name and an address spec
/// (`name <local@domain>`).
#[derive(Debug)]
pub struct Address {
    /// Display name; an empty one counts as none.
    pub display_name: Option<String>,
    /// The `local@domain` part.
    pub address_spec: String,
}

/// Whether two addresses name the same mailbox: mailbox addresses compare by
/// their address spec alone.
pub open spec fn same_mailbox(a: Address, b: Address) -> bool {
    a.address_spec@ == b.address_spec@
}

/// How an address with display name `name` and address spec `spec` is
/// displayed: `name <spec>`, with the name quoted when it holds `.` or `,`;
/// the bare spec when there is no name.
pub open spec fn display_of(name: Option<Seq<char>>, spec: Seq<char>) -> Seq<char> {
    match name {
        Some(d) if d.len() > 0 => {
            if d.contains('.') || d.contains(',') {
                seq!['"'] + d + seq!['"', ' ', '<'] + spec + seq!['>']
            } else {
                d + seq![' ', '<'] + spec + seq!['>']
            }
        },
        _ => spec,
    }
}

/// How an address is displayed (see `display_of`).
pub open spec fn address_display(a: Address) -> Seq<char> {
    display_of(opt_str(a.display_name), a.address_spec@)
}

impl Address {
    /// New address from an optional display name and an address spec.
    pub fn new(display_name: Option<String>, address: String) -> (r: Address)
        ensures
            r.display_name == display_name,
            r.address_spec == address,
    {
        Address { display_name, address_spec: address }
    }

    /// Copy of this address.
    pub fn duplicate(&self) -> (r: Address)
        ensures
            opt_str(r.display_name) == opt_str(self.display_name),
            r.address_spec@ == self.address_spec@,
    {
        Address {
            display_name: clone_opt_string(&self.display_name),
            address_spec: self.address_spec.clone(),
        }
    }

    /// The address spec (`local@domain`).
    pub fn get_email(&self) -> (r: String)
        ensures
            r@ == self.address_spec@,
    {
        self.address_spec.clone()
    }

    /// The display name, if it is not empty.
    pub fn get_display_name(&self) -> (r: Option<String>)
        ensures
            r matches Some(d) ==> self.display_name matches Some(n) && d@ == n@ && d@.len() > 0,
            r is None ==> (self.display_name matches Some(n) ==> n@.len() == 0),
    {
        melib_display_name(clone_opt_string(&self.display_name), self.address_spec.clone())
    }

    /// Whether `self` and `other` name the same mailbox.
    pub fn same_as(&self, other: &Address) -> (r: bool)
        ensures
            r == same_mailbox(*self, *other),
    {
        str_eq(self.address_spec.as_str(), other.address_spec.as_str())
    }

    /// The address as it is displayed in a header.
    pub fn to_display_string(&self) -> (r: String)
        ensures
            r@ == address_display(*self),
    {
        melib_display(clone_opt_string(&self.display_name), self.address_spec.clone())
    }
}

/// `melib::Address::new(display_name, address_spec)` displayed with its
/// `Display` impl. Claimed: a mailbox with a non-empty name shows as
/// `name <spec>`, the name in double quotes where it holds `.` or `,`; one
/// without a name (or with an empty one) shows as the bare spec
/// (`display_of`). `new` keeps both strings whole in the raw text it
/// slices them back from.
#[verifier::external_body]
fn melib_display(display_name: Option<String>, address_spec: String) -> (r: String)
    ensures
        r@ == display_of(opt_str(display_name), address_spec@),
{
    melib::Address::new(display_name, address_spec).to_string()
}

/// `melib::Address::new(display_name, address_spec).get_display_name()`.
/// Claimed: the name that was given, or `None` where it was absent or
/// empty.
#[verifier::external_body]
fn melib_display_name(display_name: Option<String>, address_spec: String) -> (r: Option<String>)
    ensures
        r matches Some(d) ==> display_name matches Some(n) && d@ == n@ && d@.len() > 0,
        r is None ==> (display_name matches Some(n) ==> n@.len() == 0),
{
    melib::Address::new(display_name, address_spec).get_display_name()
}

/// A database entry and its primary key.
#[derive(Debug)]
pub struct DbVal<T>(pub T, pub i64);

impl<T> DbVal<T> {
    /// Primary key.
    pub fn pk(&self) -> (r: i64)
        ensures
            r == self.1,
    {
        self.1
    }

    /// The entry.
    pub fn inner(&self) -> (r: &T)
        ensures
            *r == self.0,
    {
        &self.0
    }

    /// The entry, consuming the wrapper.
    pub fn into_inner(self) -> (r: T)
        ensures
            r == self.0,
    {
        self.0
    }
}

/// A `mailto:` value.
#[derive(Debug)]
pub struct MailtoAddress {
    /// E-mail address.
    pub address: String,
    /// Optional subject value.
    pub subject: Option<String>,
}

/// A mailing list entry.
#[derive(Debug)]
pub struct MailingList {
    /// Database primary key.
    pub pk: i64,
    /// Mailing list name.
    pub name: String,
    /// Mailing list ID (what appears in the subject tag, e.g. `[mailing-list] New post!`).
    pub id: String,
    /// Mailing list e-mail address.
    pub address: String,
    /// Mailing list description.
    pub description: Option<String>,
    /// Mailing list archive URL.
    pub archive_url: Option<String>,
}

/// Whether a list address has an `@`, which the request addresses are
/// derived from.
pub open spec fn has_at(s: Seq<char>) -> bool {
    find_char(s, '@') is Some
}

/// `{local}-request@{domain}` for the list address.
pub open spec fn request_address(address: Seq<char>) -> Seq<char> {
    local_part(address) + "-request@"@ + domain_part(address)
}

/// `<mailto:{local}-request@{domain}?subject={subject}>` for the list
/// address.
pub open spec fn request_header_of(address: Seq<char>, subject: Seq<char>) -> Seq<char> {
    "<mailto:"@ + request_address(address) + "?subject="@ + subject + seq!['>']
}

/// The `List-Id` value of a list: its description and a space, if it has a
/// description, then `<{local}.{domain}>` of its address.
pub open spec fn list_id_of(l: MailingList) -> Seq<char> {
    (match l.description {
        Some(d) => d@ + seq![' '],
        None => Seq::empty(),
    }) + seq!['<'] + local_part(l.address@) + seq!['.'] + domain_part(l.address@) + seq!['>']
}

/// `{local}+{tag}@{domain}` for the list address.
pub open spec fn sub_address(address: Seq<char>, tag: Seq<char>) -> Seq<char> {
    local_part(address) + seq!['+'] + tag + seq!['@'] + domain_part(address)
}

/// How a list is displayed: `[#pk id] name <address>`, followed by
/// `: description` when there is one.
pub open spec fn list_display(l: MailingList) -> Seq<char> {
    let head = "[#"@ + dec_int(l.pk as int) + seq![' '] + l.id@ + "] "@ + l.name@ + " <"@
        + l.address@ + seq!['>'];
    match l.description {
        Some(d) => head + ": "@ + d@,
        None => head,
    }
}

impl MailingList {
    /// Mailing list display name (e.g. `"list name" <list_address@example.com>`).
    pub fn display_name(&self) -> (r: String)
        ensures
            r@ == seq!['"'] + self.name@ + "\" <"@ + self.address@ + seq!['>'],
    {
        let mut s = String::new();
        string_push(&mut s, '"');
        s.append(self.name.as_str());
        s.append("\" <");
        s.append(self.address.as_str());
        string_push(&mut s, '>');
        assert(s@ =~= seq!['"'] + self.name@ + "\" <"@ + self.address@ + seq!['>']);
        s
    }

    /// Value of `List-Post` header.
    ///
    /// See RFC2369 Section 3.4: <https://www.rfc-editor.org/rfc/rfc2369#section-3.4>
    pub fn post_header(&self) -> (r: Option<String>)
        ensures
            r matches Some(h) && h@ == "<mailto:"@ + self.address@ + seq!['>'],
    {
        let mut s = String::from_str("<mailto:");
        s.append(self.address.as_str());
        string_push(&mut s, '>');
        assert(s@ =~= "<mailto:"@ + self.address@ + seq!['>']);
        Some(s)
    }

    /// `<mailto:{request address}?subject={subject}>`.
    fn request_header(&self, subject: &str) -> (r: String)
        requires
            has_at(self.address@),
        ensures
            r@ == request_header_of(self.address@, subject@),
    {
        let (p0, p1) = split_address(self.address.as_str());
        let mut s = String::from_str("<mailto:");
        s.append(p0.as_str());
        s.append("-request@");
        s.append(p1.as_str());
        s.append("?subject=");
        s.append(subject);
        string_push(&mut s, '>');
        assert(s@ =~= request_header_of(self.address@, subject@));
        s
    }

    /// Value of `List-Unsubscribe` header: a mail to the request address
    /// with the subject `unsubscribe`.
    ///
    /// See RFC2369 Section 3.2: <https://www.rfc-editor.org/rfc/rfc2369#section-3.2>
    pub fn unsubscribe_header(&self) -> (r: Option<String>)
        requires
            has_at(self.address@),
        ensures
            r matches Some(h) && h@ == request_header_of(self.address@, "unsubscribe"@),
    {
        Some(self.request_header("unsubscribe"))
    }

    /// Value of `List-Subscribe` header: a mail to the request address with
    /// the subject `subscribe`.
    ///
    /// See RFC2369 Section 3.3: <https://www.rfc-editor.org/rfc/rfc2369#section-3.3>
    pub fn subscribe_header(&self) -> (r: Option<String>)
        requires
            has_at(self.address@),
        ensures
            r matches Some(h) && h@ == request_header_of(self.address@, "subscribe"@),
    {
        Some(self.request_header("subscribe"))
    }

    /// Value of `List-Help` header: a mail to the request address with the
    /// subject `help`.
    ///
    /// See RFC2369 Section 3.1: <https://www.rfc-editor.org/rfc/rfc2369#section-3.1>
    pub fn help_header(&self) -> (r: Option<String>)
        requires
            has_at(self.address@),
        ensures
            r matches Some(h) && h@ == request_header_of(self.address@, "help"@),
    {
        Some(self.request_header("help"))
    }

    /// Value of `List-Id` header: the description, if any, and then
    /// `<{local}.{domain}>` of the list address.
    ///
    /// See RFC2919 Section 3: <https://www.rfc-editor.org/rfc/rfc2919#section-3>
    pub fn id_header(&self) -> (r: String)
        requires
            has_at(self.address@),
        ensures
            r@ == list_id_of(*self),
    {
        let (p0, p1) = split_address(self.address.as_str());
        let mut s = String::new();
        match &self.description {
            Some(d) => {
                s.append(d.as_str());
                string_push(&mut s, ' ');
            },
            None => {},
        }
        string_push(&mut s, '<');
        s.append(p0.as_str());
        string_push(&mut s, '.');
        s.append(p1.as_str());
        string_push(&mut s, '>');
        assert(s@ =~= list_id_of(*self));
        s
    }

    /// Value of `List-Archive` header.
    ///
    /// See RFC2369 Section 3.6: <https://www.rfc-editor.org/rfc/rfc2369#section-3.6>
    pub fn archive_header(&self) -> (r: Option<String>)
        ensures
            self.archive_url is None ==> r is None,
            self.archive_url matches Some(u) ==> (r matches Some(h) && h@ == seq!['<'] + u@
                + seq!['>']),
    {
        match &self.archive_url {
            Some(url) => {
                let mut s = String::new();
                string_push(&mut s, '<');
                s.append(url.as_str());
                string_push(&mut s, '>');
                assert(s@ =~= seq!['<'] + url@ + seq!['>']);
                Some(s)
            },
            None => None,
        }
    }

    /// List address as an [`Address`], with the list name as display name.
    pub fn address(&self) -> (r: Address)
        ensures
            r.display_name matches Some(d) && d@ == self.name@,
            r.address_spec@ == self.address@,
    {
        Address::new(Some(self.name.clone()), self.address.clone())
    }

    /// List unsubscribe action as a [`MailtoAddress`].
    pub fn unsubscribe_mailto(&self) -> (r: Option<MailtoAddress>)
        requires
            has_at(self.address@),
        ensures
            r matches Some(m) && (m.address@ == request_address(self.address@)
                && (m.subject matches Some(s) && s@ == "unsubscribe"@)),
    {
        let (p0, p1) = split_address(self.address.as_str());
        let mut a = p0;
        a.append("-request@");
        a.append(p1.as_str());
        Some(MailtoAddress { address: a, subject: Some(String::from_str("unsubscribe")) })
    }

    /// List subscribe action as a [`MailtoAddress`].
    pub fn subscribe_mailto(&self) -> (r: Option<MailtoAddress>)
        requires
            has_at(self.address@),
        ensures
            r matches Some(m) && (m.address@ == request_address(self.address@)
                && (m.subject matches Some(s) && s@ == "subscribe"@)),
    {
        let (p0, p1) = split_address(self.address.as_str());
        let mut a = p0;
        a.append("-request@");
        a.append(p1.as_str());
        Some(MailtoAddress { address: a, subject: Some(String::from_str("subscribe")) })
    }

    /// List archive url value.
    pub fn archive_url(&self) -> (r: Option<&str>)
        ensures
            self.archive_url is None ==> r is None,
            self.archive_url matches Some(u) ==> (r matches Some(s) && s@ == u@),
    {
        match &self.archive_url {
            Some(u) => Some(u.as_str()),
            None => None,
        }
    }

    /// The list address with a `+tag` sub-address: `{local}+{tag}@{domain}`,
    /// e.g. the `+request` and `+owner` addresses that postfix delivers to
    /// mailpot.
    pub fn subaddress(&self, tag: &str) -> (r: String)
        requires
            has_at(self.address@),
        ensures
            r@ == sub_address(self.address@, tag@),
    {
        let (p0, p1) = split_address(self.address.as_str());
        let mut a = p0;
        string_push(&mut a, '+');
        a.append(tag);
        string_push(&mut a, '@');
        a.append(p1.as_str());
        assert(a@ =~= sub_address(self.address@, tag@));
        a
    }

    /// The list as it is displayed: `[#pk id] name <address>`, followed by
    /// `: description` when there is one.
    pub fn to_display_string(&self) -> (r: String)
        ensures
            r@ == list_display(*self),
    {
        let mut s = String::from_str("[#");
        push_i64(&mut s, self.pk);
        string_push(&mut s, ' ');
        s.append(self.id.as_str());
        s.append("] ");
        s.append(self.name.as_str());
        s.append(" <");
        s.append(self.address.as_str());
        string_push(&mut s, '>');
        match &self.description {
            Some(d) => {
                s.append(": ");
                s.append(d.as_str());
            },
            None => {},
        }
        assert(s@ =~= list_display(*self));
        s
    }
}

/// A mailing list membership (subscription) entry.
#[derive(Debug)]
pub struct ListMembership {
    /// Database primary key.
    pub pk: i64,
    /// Mailing list foreign key (See [`MailingList`]).
    pub list: i64,
    /// Member's e-mail address.
    pub address: String,
    /// Member's name, optional.
    pub name: Option<String>,
    /// Whether member wishes to receive list posts as a periodical digest e-mail.
    pub digest: bool,
    /// Whether member wishes their e-mail address hidden from public view.
    pub hide_address: bool,
    /// Whether member wishes to receive mailing list post duplicates, i.e. posts addressed to them
    /// and the mailing list to which they are subscribed.
    pub receive_duplicates: bool,
    /// Whether member wishes to receive their own mailing list posts from the mailing list, as a
    /// confirmation.
    pub receive_own_posts: bool,
    /// Whether member wishes to receive a plain confirmation for their own mailing list posts.
    pub receive_confirmation: bool,
    /// Whether this membership is enabled.
    pub enabled: bool,
}

/// A subscription to a list as an import creates it: a membership with the
/// account it belongs to, if any, and whether its address is verified.
#[derive(Debug)]
pub struct ListSubscription {
    /// Database primary key.
    pub pk: i64,
    /// Mailing list foreign key (See [`MailingList`]).
    pub list: i64,
    /// Member's e-mail address.
    pub address: String,
    /// The account of the member, by its primary key, if it has one.
    pub account: Option<i64>,
    /// Member's name, optional.
    pub name: Option<String>,
    /// Whether member wishes to receive list posts as a periodical digest e-mail.
    pub digest: bool,
    /// Whether member wishes their e-mail address hidden from public view.
    pub hide_address: bool,
    /// Whether member wishes to receive mailing list post duplicates.
    pub receive_duplicates: bool,
    /// Whether member wishes to receive their own mailing list posts.
    pub receive_own_posts: bool,
    /// Whether member wishes to receive a plain confirmation for their own posts.
    pub receive_confirmation: bool,
    /// Whether this subscription is enabled.
    pub enabled: bool,
    /// Whether the member's address is verified.
    pub verified: bool,
}

impl ListSubscription {
    /// The membership this subscription stores: every field but the account
    /// and the verification.
    pub fn into_membership(self) -> (r: ListMembership)
        ensures
            r.pk == self.pk,
            r.list == self.list,
            r.address == self.address,
            r.name == self.name,
            r.digest == self.digest,
            r.hide_address == self.hide_address,
            r.receive_duplicates == self.receive_duplicates,
            r.receive_own_posts == self.receive_own_posts,
            r.receive_confirmation == self.receive_confirmation,
            r.enabled == self.enabled,
    {
        ListMembership {
            pk: self.pk,
            list: self.list,
            address: self.address,
            name: self.name,
            digest: self.digest,
            hide_address: self.hide_address,
            receive_duplicates: self.receive_duplicates,
            receive_own_posts: self.receive_own_posts,
            receive_confirmation: self.receive_confirmation,
            enabled: self.enabled,
        }
    }
}

/// `true` or `false`, as a `bool` is displayed.
pub open spec fn bool_display(b: bool) -> Seq<char> {
    if b { "true"@ } else { "false"@ }
}

/// Appends `true` or `false`.
pub fn push_bool(s: &mut String, b: bool)
    ensures
        final(s)@ == old(s)@ + bool_display(b),
{
    if b { s.append("true"); } else { s.append("false"); }
}

/// How a membership is displayed.
pub open spec fn membership_display(m: ListMembership) -> Seq<char> {
    display_of(opt_str(m.name), m.address@)
        + " [digest: "@ + bool_display(m.digest) + ", hide_address: "@
        + bool_display(m.hide_address) + seq![' ']
        + (if m.enabled { "enabled"@ } else { "not enabled"@ }) + seq![']']
}

impl ListMembership {
    /// Member address as an [`Address`].
    pub fn address(&self) -> (r: Address)
        ensures
            opt_str(r.display_name) == opt_str(self.name),
            r.address_spec@ == self.address@,
    {
        let a = self.address.clone();
        Address::new(clone_opt_string(&self.name), a)
    }

    /// The membership as it is displayed:
    /// `address [digest: _, hide_address: _ enabled]`.
    pub fn to_display_string(&self) -> (r: String)
        ensures
            r@ == membership_display(*self),
    {
        let a = self.address();
        let mut s = a.to_display_string();
        s.append(" [digest: ");
        push_bool(&mut s, self.digest);
        s.append(", hide_address: ");
        push_bool(&mut s, self.hide_address);
        string_push(&mut s, ' ');
        if self.enabled { s.append("enabled"); } else { s.append("not enabled"); }
        string_push(&mut s, ']');
        assert(s@ =~= membership_display(*self));
        s
    }

    /// The membership that a list owner has: it receives duplicates and
    /// confirmations, not its own posts, and is enabled.
    pub fn from_owner(val: ListOwner) -> (r: ListMembership)
        ensures
            r.pk == 0,
            r.list == val.list,
            r.address == val.address,
            r.name == val.name,
            !r.digest,
            !r.hide_address,
            r.receive_duplicates,
            !r.receive_own_posts,
            r.receive_confirmation,
            r.enabled,
    {
        ListMembership {
            pk: 0,
            list: val.list,
            address: val.address,
            name: val.name,
            digest: false,
            hide_address: false,
            receive_duplicates: true,
            receive_own_posts: false,
            receive_confirmation: true,
            enabled: true,
        }
    }
}

/// A mailing list post policy entry.
///
/// Only one of the boolean flags must be set to true.
#[derive(Debug)]
pub struct PostPolicy {
    /// Database primary key.
    pub pk: i64,
    /// Mailing list foreign key (See [`MailingList`]).
    pub list: i64,
    /// Whether the policy is announce only (Only list owners can submit posts, and everyone will
    /// receive them).
    pub announce_only: bool,
    /// Whether the policy is "subscription only" (Only list subscribers can post).
    pub subscription_only: bool,
    /// Whether the policy is "approval needed" (Anyone can post, but approval from list owners is
    /// required if they are not subscribed).
    pub approval_needed: bool,
    /// Whether the policy is "open" (Anyone can post, without restrictions).
    pub open: bool,
    /// Custom policy.
    pub custom: bool,
}

/// Whether a post policy sets at least one of its flags.
pub open spec fn post_policy_nonempty(p: PostPolicy) -> bool {
    p.announce_only || p.subscription_only || p.approval_needed || p.open || p.custom
}

impl PostPolicy {
    /// Copy of this policy.
    pub fn duplicate(&self) -> (r: PostPolicy)
        ensures
            r == *self,
    {
        PostPolicy { ..*self }
    }
}

/// A mailing list owner entry.
#[derive(Debug)]
pub struct ListOwner {
    /// Database primary key.
    pub pk: i64,
    /// Mailing list foreign key (See [`MailingList`]).
    pub list: i64,
    /// Mailing list owner e-mail address.
    pub address: String,
    /// Mailing list owner name, optional.
    pub name: Option<String>,
}

/// How an owner is displayed: `[#pk list] address`.
pub open spec fn owner_display(o: ListOwner) -> Seq<char> {
    "[#"@ + dec_int(o.pk as int) + seq![' '] + dec_int(o.list as int) + "] "@
        + display_of(opt_str(o.name), o.address@)
}

impl ListOwner {
    /// Owner address as an [`Address`].
    pub fn address(&self) -> (r: Address)
        ensures
            opt_str(r.display_name) == opt_str(self.name),
            r.address_spec@ == self.address@,
    {
        let a = self.address.clone();
        Address::new(clone_opt_string(&self.name), a)
    }

    /// The owner as it is displayed: `[#pk list] address`.
    pub fn to_display_string(&self) -> (r: String)
        ensures
            r@ == owner_display(*self),
    {
        let mut s = String::from_str("[#");
        push_i64(&mut s, self.pk);
        string_push(&mut s, ' ');
        push_i64(&mut s, self.list);
        s.append("] ");
        let a = self.address();
        let d = a.to_display_string();
        s.append(d.as_str());
        assert(s@ =~= owner_display(*self));
        s
    }
}

/// A mailing list post entry.
#[derive(Debug)]
pub struct Post {
    /// Database primary key.
    pub pk: i64,
    /// Mailing list foreign key (See [`MailingList`]).
    pub list: i64,
    /// `From` header address of post.
    pub address: String,
    /// `Message-ID` header value of post.
    pub message_id: String,
    /// Post as bytes.
    pub message: Vec<u8>,
    /// Unix timestamp of date.
    pub timestamp: u64,
    /// Datetime as string.
    pub datetime: String,
    /// Month-year as a `YYYY-mm` formatted string, for use in archives.
    pub month_year: String,
}

} // verus!
