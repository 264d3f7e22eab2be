//! Values of the `mpot` command line: the options of its commands, and the
//! parsers of queue names and message filter setting names.

use vstd::prelude::*;

use crate::models::changesets::{ListSubscriptionChangeset, MailingListChangeset};
use crate::models::{opt_str, ListMembership};
use crate::postfix::PostfixConfiguration;
use crate::queue::{queue_by_name, Queue};
use crate::text::{eq_ignore_ascii_case, str_eq_ignore_ascii_case};

verus! {

/// Postfix config values.
#[derive(Debug)]
pub struct PostfixConfig {
    /// User that runs mailpot when postfix relays a message.
    ///
    /// Must not be the `postfix` user.
    /// Must have permissions to access the database file and the data
    /// directory.
    pub user: String,
    /// Group that runs mailpot when postfix relays a message.
    /// Optional.
    pub group: Option<String>,
    /// The path to the mailpot binary postfix will execute.
    pub binary_path: String,
    /// Limit the number of mailpot instances that can exist at the same time.
    ///
    /// Default is 1.
    pub process_limit: Option<u64>,
    /// The directory in which the map files are saved.
    ///
    /// Default is `data_path` from the configuration.
    pub map_output_path: Option<String>,
    /// The name of the postfix service name to use.
    /// Default is `mailpot`.
    pub transport_name: Option<String>,
}

impl PostfixConfig {
    /// The postfix configuration these values give.
    pub fn into_configuration(self) -> (r: PostfixConfiguration)
        ensures
            r.user == self.user,
            r.group == self.group,
            r.binary_path == self.binary_path,
            r.process_limit == self.process_limit,
            r.map_output_path == self.map_output_path,
            r.transport_name == self.transport_name,
    {
        PostfixConfiguration {
            user: self.user,
            group: self.group,
            binary_path: self.binary_path,
            process_limit: self.process_limit,
            map_output_path: self.map_output_path,
            transport_name: self.transport_name,
        }
    }
}

/// Queue commands.
#[derive(Debug)]
pub enum QueueCommand {
    /// List.
    List,
    /// Print entry in RFC5322 or JSON format.
    Print {
        /// index of entry.
        index: Vec<i64>,
    },
    /// Delete entry and print it in stdout.
    Delete {
        /// index of entry.
        index: Vec<i64>,
        /// Do not print in stdout.
        quiet: bool,
    },
}

/// Subscription options.
#[derive(Debug)]
pub struct SubscriptionOptions {
    /// Name.
    pub name: Option<String>,
    /// Send messages as digest.
    pub digest: Option<bool>,
    /// Hide message from list when posting.
    pub hide_address: Option<bool>,
    /// E-mail address verification status.
    pub verified: Option<bool>,
    /// Receive confirmation email when posting.
    pub receive_confirmation: Option<bool>,
    /// Receive posts from list even if address exists in To or Cc header.
    pub receive_duplicates: Option<bool>,
    /// Receive own posts from list.
    pub receive_own_posts: Option<bool>,
    /// Is subscription enabled.
    pub enabled: Option<bool>,
}

/// Account options.
#[derive(Debug)]
pub struct AccountOptions {
    /// Name.
    pub name: Option<String>,
    /// Public key.
    pub public_key: Option<String>,
    /// Is account enabled.
    pub enabled: Option<bool>,
}

/// Mailing list commands.
#[derive(Debug)]
pub enum ListCommand {
    /// List subscriptions of list.
    Subscriptions,
    /// List subscription requests.
    SubscriptionRequests,
    /// Add subscription to list.
    AddSubscription {
        /// E-mail address.
        address: String,
        /// Subscription options.
        subscription_options: SubscriptionOptions,
    },
    /// Remove subscription from list.
    RemoveSubscription {
        /// E-mail address.
        address: String,
    },
    /// Update subscription info.
    UpdateSubscription {
        /// Address to edit.
        address: String,
        /// Subscription options.
        subscription_options: SubscriptionOptions,
    },
    /// Accept a subscription request by its primary key.
    AcceptSubscriptionRequest {
        /// The primary key of the request.
        pk: i64,
    },
    /// Add a new post policy.
    AddPostPolicy {
        /// Only list owners can post.
        announce_only: bool,
        /// Only subscriptions can post.
        subscription_only: bool,
        /// Subscriptions can post.
        /// Other posts must be approved by list owners.
        approval_needed: bool,
        /// Anyone can post without restrictions.
        open: bool,
        /// Allow posts, but handle it manually.
        custom: bool,
    },
    /// Remove post policy.
    RemovePostPolicy {
        /// Post policy primary key.
        pk: i64,
    },
    /// Add subscription policy to list.
    AddSubscriptionPolicy {
        /// Send confirmation e-mail when subscription is finalized.
        send_confirmation: bool,
        /// Anyone can subscribe without restrictions.
        open: bool,
        /// Only list owners can manually add subscriptions.
        manual: bool,
        /// Anyone can request to subscribe.
        request: bool,
        /// Allow subscriptions, but handle it manually.
        custom: bool,
    },
    /// Remove subscription policy.
    RemoveSubscriptionPolicy {
        /// Subscription policy primary key.
        pk: i64,
    },
    /// Add list owner to list.
    AddListOwner {
        /// Owner address.
        address: String,
        /// Owner name.
        name: Option<String>,
    },
    /// Remove list owner.
    RemoveListOwner {
        /// List owner primary key.
        pk: i64,
    },
    /// Alias for update-subscription --enabled true.
    EnableSubscription {
        /// Subscription address.
        address: String,
    },
    /// Alias for update-subscription --enabled false.
    DisableSubscription {
        /// Subscription address.
        address: String,
    },
    /// Update mailing list details.
    Update {
        /// New list name.
        name: Option<String>,
        /// New List-ID.
        id: Option<String>,
        /// New list address.
        address: Option<String>,
        /// New list description.
        description: Option<String>,
        /// New list archive URL.
        archive_url: Option<String>,
        /// New owner address local part.
        /// If empty, it defaults to '+owner'.
        owner_local_part: Option<String>,
        /// New request address local part.
        /// If empty, it defaults to '+request'.
        request_local_part: Option<String>,
        /// Require verification of e-mails for new subscriptions.
        verify: Option<bool>,
        /// Public visibility of list.
        hidden: Option<bool>,
        /// Enable or disable the list's functionality.
        enabled: Option<bool>,
    },
    /// Show mailing list health status.
    Health,
    /// Show mailing list info.
    Info,
    /// Import members in a local list from a remote mailman3 REST API instance.
    ImportMembers {
        /// REST HTTP endpoint e.g. http://localhost:9001/3.0/
        url: String,
        /// REST HTTP Basic Authentication username.
        username: String,
        /// REST HTTP Basic Authentication password.
        password: String,
        /// List ID of remote list to query.
        list_id: String,
        /// Show what would be inserted without performing any changes.
        dry_run: bool,
        /// Don't import list owners.
        skip_owners: bool,
    },
}

/// The value that a boolean option takes: the given one, or `default`.
pub open spec fn flag_or(o: Option<bool>, default: bool) -> bool {
    match o {
        Some(b) => b,
        None => default,
    }
}

/// What an optional text option changes: an empty text changes nothing,
/// and an absent one clears the field.
pub open spec fn text_change(v: Option<Seq<char>>) -> Option<Option<Seq<char>>> {
    match v {
        Some(s) => if s.len() == 0 {
            None
        } else {
            Some(Some(s))
        },
        None => Some(None),
    }
}

/// The view of an optional change of an optional text.
pub open spec fn opt_opt_str(v: Option<Option<String>>) -> Option<Option<Seq<char>>> {
    match v {
        Some(x) => Some(opt_str(x)),
        None => None,
    }
}

/// What an optional text option changes (see `text_change`).
pub fn text_option(v: Option<String>) -> (r: Option<Option<String>>)
    ensures
        opt_opt_str(r) == text_change(opt_str(v)),
{
    match v {
        Some(s) => {
            if s.unicode_len() == 0 {
                None
            } else {
                Some(Some(s))
            }
        },
        None => Some(None),
    }
}

impl SubscriptionOptions {
    /// The subscription of `address` to list `list` that these options
    /// create: unset options take their defaults, which are no digest, the
    /// address shown, confirmations and duplicates received, own posts not,
    /// and enabled.
    pub fn into_subscription(self, list: i64, address: String) -> (r: ListMembership)
        ensures
            r.pk == 0,
            r.list == list,
            r.address == address,
            r.name == self.name,
            r.digest == flag_or(self.digest, false),
            r.hide_address == flag_or(self.hide_address, false),
            r.receive_confirmation == flag_or(self.receive_confirmation, true),
            r.receive_duplicates == flag_or(self.receive_duplicates, true),
            r.receive_own_posts == flag_or(self.receive_own_posts, false),
            r.enabled == flag_or(self.enabled, true),
    {
        ListMembership {
            pk: 0,
            list,
            address,
            name: self.name,
            digest: match self.digest {
                Some(b) => b,
                None => false,
            },
            hide_address: match self.hide_address {
                Some(b) => b,
                None => false,
            },
            receive_duplicates: match self.receive_duplicates {
                Some(b) => b,
                None => true,
            },
            receive_own_posts: match self.receive_own_posts {
                Some(b) => b,
                None => false,
            },
            receive_confirmation: match self.receive_confirmation {
                Some(b) => b,
                None => true,
            },
            enabled: match self.enabled {
                Some(b) => b,
                None => true,
            },
        }
    }

    /// The change that these options make to the subscription of `address`
    /// to list `list`: each set option changes its field, and the name
    /// changes as `text_change` says.
    pub fn into_changeset(self, list: i64, address: String) -> (r: ListSubscriptionChangeset)
        ensures
            r.list == list,
            r.address == address,
            r.account is None,
            opt_opt_str(r.name) == text_change(opt_str(self.name)),
            r.digest == self.digest,
            r.verified == self.verified,
            r.hide_address == self.hide_address,
            r.receive_duplicates == self.receive_duplicates,
            r.receive_own_posts == self.receive_own_posts,
            r.receive_confirmation == self.receive_confirmation,
            r.enabled == self.enabled,
    {
        ListSubscriptionChangeset {
            list,
            address,
            account: None,
            name: text_option(self.name),
            digest: self.digest,
            verified: self.verified,
            hide_address: self.hide_address,
            receive_duplicates: self.receive_duplicates,
            receive_own_posts: self.receive_own_posts,
            receive_confirmation: self.receive_confirmation,
            enabled: self.enabled,
        }
    }
}

/// The change that enables (or disables) the subscription of `address` to
/// list `list`, and changes nothing else.
pub fn enable_subscription_changeset(list: i64, address: String, enabled: bool) -> (r:
    ListSubscriptionChangeset)
    ensures
        r.list == list,
        r.address == address,
        r.enabled == Some(enabled),
        r.account is None,
        r.name is None,
        r.digest is None,
        r.verified is None,
        r.hide_address is None,
        r.receive_duplicates is None,
        r.receive_own_posts is None,
        r.receive_confirmation is None,
{
    ListSubscriptionChangeset {
        list,
        address,
        account: None,
        name: None,
        digest: None,
        enabled: Some(enabled),
        verified: None,
        hide_address: None,
        receive_duplicates: None,
        receive_own_posts: None,
        receive_confirmation: None,
    }
}

/// The change that `list <id> update` makes to list `pk`: name, id,
/// address and the flags change where they are given; the optional texts
/// change as `text_change` says.
pub fn list_update_changeset(
    pk: i64,
    name: Option<String>,
    id: Option<String>,
    address: Option<String>,
    description: Option<String>,
    archive_url: Option<String>,
    owner_local_part: Option<String>,
    request_local_part: Option<String>,
    verify: Option<bool>,
    hidden: Option<bool>,
    enabled: Option<bool>,
) -> (r: MailingListChangeset)
    ensures
        r.pk == pk,
        r.name == name,
        r.id == id,
        r.address == address,
        opt_opt_str(r.description) == text_change(opt_str(description)),
        opt_opt_str(r.archive_url) == text_change(opt_str(archive_url)),
        opt_opt_str(r.owner_local_part) == text_change(opt_str(owner_local_part)),
        opt_opt_str(r.request_local_part) == text_change(opt_str(request_local_part)),
        r.verify == verify,
        r.hidden == hidden,
        r.enabled == enabled,
{
    MailingListChangeset {
        pk,
        name,
        id,
        address,
        description: text_option(description),
        archive_url: text_option(archive_url),
        owner_local_part: text_option(owner_local_part),
        request_local_part: text_option(request_local_part),
        verify,
        hidden,
        enabled,
    }
}

/// Why a command line value was not accepted.
#[derive(Debug)]
pub enum ValueParseError {
    /// No value was given.
    Missing,
    /// The value is not one of the accepted ones; the message says so.
    Invalid(String),
}

/// `Unrecognized value: {s}`.
pub open spec fn unrecognized(s: Seq<char>) -> Seq<char> {
    "Unrecognized value: "@ + s
}

fn unrecognized_message(s: &str) -> (r: String)
    ensures
        r@ == unrecognized(s@),
{
    let mut m = String::from_str("Unrecognized value: ");
    m.append(s);
    m
}

/// `std::str::from_utf8`, copied into a `String`. Claimed, as std
/// documents: it succeeds exactly on valid UTF-8, and then holds the
/// characters that the bytes encode.
#[verifier::external_body]
fn utf8_string(bytes: &[u8]) -> (r: Option<String>)
    ensures
        r is Some <==> vstd::utf8::valid_utf8(bytes@),
        r matches Some(s) ==> s@ == vstd::utf8::decode_utf8(bytes@),
{
    std::str::from_utf8(bytes).ok().map(|s| s.to_string())
}

/// Valid UTF-8 that is not empty decodes to some characters.
proof fn lemma_decoded_nonempty(b: Seq<u8>)
    requires
        b.len() > 0,
        vstd::utf8::valid_utf8(b),
    ensures
        vstd::utf8::decode_utf8(b).len() > 0,
{
    vstd::utf8::decode_utf8_encode_utf8(b);
    if vstd::utf8::decode_utf8(b).len() == 0 {
        assert(vstd::utf8::decode_utf8(b) =~= Seq::<char>::empty());
        assert(vstd::utf8::encode_utf8(Seq::<char>::empty()) =~= Seq::<u8>::empty());
    }
}

/// Parser of queue names on the command line.
#[derive(Clone, Copy, Debug)]
pub struct QueueValueParser;

impl QueueValueParser {
    /// The parser.
    pub fn new() -> (r: Self) {
        Self
    }

    /// The queue named by `value`: an empty value is missing, and a name that
    /// is not a queue's is refused.
    pub fn parse_value(&self, value: &str) -> (r: Result<Queue, ValueParseError>)
        ensures
            value@.len() == 0 ==> r matches Err(ValueParseError::Missing),
            value@.len() > 0 ==> (queue_by_name(value@) matches Some(q) ==> r == Ok::<
                Queue,
                ValueParseError,
            >(q)),
            value@.len() > 0 && queue_by_name(value@) is None ==> (r matches Err(
                ValueParseError::Invalid(m),
            ) && m@ == unrecognized(value@)),
    {
        if value.unicode_len() == 0 {
            return Err(ValueParseError::Missing);
        }
        match Queue::from_name(value) {
            Some(q) => Ok(q),
            None => Err(ValueParseError::Invalid(unrecognized_message(value))),
        }
    }

    /// The queue named by the raw command line argument `value`: an empty
    /// value is missing, one that is not UTF-8 is refused, and otherwise it
    /// is read as `parse_value` reads its text.
    pub fn parse(&self, value: &[u8]) -> (r: Result<Queue, ValueParseError>)
        ensures
            value@.len() == 0 ==> r matches Err(ValueParseError::Missing),
            value@.len() > 0 && !vstd::utf8::valid_utf8(value@) ==> (r matches Err(
                ValueParseError::Invalid(m),
            ) && m@ == "Queue value is not an UTF-8 string"@),
            value@.len() > 0 && vstd::utf8::valid_utf8(value@) ==> ({
                let s = vstd::utf8::decode_utf8(value@);
                &&& queue_by_name(s) matches Some(q) ==> r == Ok::<Queue, ValueParseError>(q)
                &&& queue_by_name(s) is None ==> (r matches Err(ValueParseError::Invalid(m))
                    && m@ == unrecognized(s))
            }),
    {
        if value.len() == 0 {
            return Err(ValueParseError::Missing);
        }
        match utf8_string(value) {
            None => Err(ValueParseError::Invalid(String::from_str("Queue value is not an UTF-8 string"))),
            Some(s) => {
                proof {
                    lemma_decoded_nonempty(value@);
                }
                self.parse_value(s.as_str())
            },
        }
    }
}

/// Names of message filter settings.
#[derive(Clone, Copy, Debug, PartialEq, Eq, Hash)]
pub enum MessageFilterSettingName {
    /// Settings of the subject tag prefix.
    AddSubjectTagPrefixSettings,
    /// Settings of MIME type rejection.
    MimeRejectSettings,
    /// Settings of the `Archived-At` link.
    ArchivedAtLinkSettings,
}

/// The name of a setting.
pub open spec fn setting_name(n: MessageFilterSettingName) -> Seq<char> {
    match n {
        MessageFilterSettingName::AddSubjectTagPrefixSettings => "AddSubjectTagPrefixSettings"@,
        MessageFilterSettingName::MimeRejectSettings => "MimeRejectSettings"@,
        MessageFilterSettingName::ArchivedAtLinkSettings => "ArchivedAtLinkSettings"@,
    }
}

/// The setting a name stands for, ignoring ASCII case.
pub open spec fn setting_by_name(s: Seq<char>) -> Option<MessageFilterSettingName> {
    if eq_ignore_ascii_case(s, "AddSubjectTagPrefixSettings"@) {
        Some(MessageFilterSettingName::AddSubjectTagPrefixSettings)
    } else if eq_ignore_ascii_case(s, "MimeRejectSettings"@) {
        Some(MessageFilterSettingName::MimeRejectSettings)
    } else if eq_ignore_ascii_case(s, "ArchivedAtLinkSettings"@) {
        Some(MessageFilterSettingName::ArchivedAtLinkSettings)
    } else {
        None
    }
}

impl MessageFilterSettingName {
    /// The name of this setting.
    pub fn as_str(&self) -> (r: &'static str)
        ensures
            r@ == setting_name(*self),
    {
        match self {
            Self::AddSubjectTagPrefixSettings => "AddSubjectTagPrefixSettings",
            Self::MimeRejectSettings => "MimeRejectSettings",
            Self::ArchivedAtLinkSettings => "ArchivedAtLinkSettings",
        }
    }

    /// The setting named by `s`, ignoring ASCII case; otherwise the message
    /// `Unrecognized value: {s}`.
    pub fn from_str_name(s: &str) -> (r: Result<Self, String>)
        ensures
            setting_by_name(s@) matches Some(n) ==> r == Ok::<Self, String>(n),
            setting_by_name(s@) is None ==> (r matches Err(m) && m@ == unrecognized(s@)),
    {
        if str_eq_ignore_ascii_case(s, "AddSubjectTagPrefixSettings") {
            return Ok(Self::AddSubjectTagPrefixSettings);
        }
        if str_eq_ignore_ascii_case(s, "MimeRejectSettings") {
            return Ok(Self::MimeRejectSettings);
        }
        if str_eq_ignore_ascii_case(s, "ArchivedAtLinkSettings") {
            return Ok(Self::ArchivedAtLinkSettings);
        }
        Err(unrecognized_message(s))
    }
}

/// Every setting is found again by its name, written in any ASCII case.
pub proof fn lemma_setting_name_roundtrip(n: MessageFilterSettingName, s: Seq<char>)
    requires
        eq_ignore_ascii_case(s, setting_name(n)),
    ensures
        setting_by_name(s) == Some(n),
{
    reveal_strlit("AddSubjectTagPrefixSettings");
    reveal_strlit("MimeRejectSettings");
    reveal_strlit("ArchivedAtLinkSettings");
    let a = "AddSubjectTagPrefixSettings"@;
    let m = "MimeRejectSettings"@;
    let r = "ArchivedAtLinkSettings"@;
    assert(a.len() == 27 && m.len() == 18 && r.len() == 22);
    match n {
        MessageFilterSettingName::AddSubjectTagPrefixSettings => {},
        MessageFilterSettingName::MimeRejectSettings => {
            assert(!eq_ignore_ascii_case(s, a));
        },
        MessageFilterSettingName::ArchivedAtLinkSettings => {
            assert(!eq_ignore_ascii_case(s, a));
            assert(!eq_ignore_ascii_case(s, m));
        },
    }
}

/// The setting names to show for the filter `filter`, in the order of
/// their names: all of them without a filter, otherwise those equal to it
/// ignoring ASCII case.
pub open spec fn available_settings_of(filter: Option<Seq<char>>) -> Seq<Seq<char>> {
    let keep = |n: Seq<char>|
        match filter {
            None => true,
            Some(f) => eq_ignore_ascii_case(n, f),
        };
    let a = if keep("AddSubjectTagPrefixSettings"@) {
        seq!["AddSubjectTagPrefixSettings"@]
    } else {
        Seq::empty()
    };
    let b = if keep("ArchivedAtLinkSettings"@) {
        a.push("ArchivedAtLinkSettings"@)
    } else {
        a
    };
    if keep("MimeRejectSettings"@) {
        b.push("MimeRejectSettings"@)
    } else {
        b
    }
}

/// The setting names that `print-message-filter-settings --show-available`
/// prints, one per line, for the filter `filter` (see
/// `available_settings_of`).
pub fn available_settings(filter: Option<&str>) -> (r: Vec<&'static str>)
    ensures
        r@.map_values(|n: &'static str| n@) == available_settings_of(
            match filter {
                Some(f) => Some(f@),
                None => None,
            },
        ),
{
    let mut r: Vec<&'static str> = Vec::new();
    if setting_kept("AddSubjectTagPrefixSettings", filter) {
        r.push("AddSubjectTagPrefixSettings");
    }
    if setting_kept("ArchivedAtLinkSettings", filter) {
        r.push("ArchivedAtLinkSettings");
    }
    if setting_kept("MimeRejectSettings", filter) {
        r.push("MimeRejectSettings");
    }
    proof {
        let fv: Option<Seq<char>> = match filter {
            Some(f) => Some(f@),
            None => None,
        };
        assert(r@.map_values(|n: &'static str| n@) =~= available_settings_of(fv));
    }
    r
}

/// Whether the setting name `n` is shown for the filter `filter`.
fn setting_kept(n: &str, filter: Option<&str>) -> (r: bool)
    ensures
        r == match filter {
            None => true,
            Some(f) => eq_ignore_ascii_case(n@, f@),
        },
{
    match filter {
        None => true,
        Some(f) => str_eq_ignore_ascii_case(n, f),
    }
}

/// Parser of message filter setting names on the command line.
#[derive(Clone, Copy, Debug)]
pub struct MessageFilterSettingNameValueParser;

impl MessageFilterSettingNameValueParser {
    /// The parser.
    pub fn new() -> (r: Self) {
        Self
    }

    /// The setting named by `value`: an empty value is missing, and a name
    /// that is not a setting's is refused.
    pub fn parse_value(&self, value: &str) -> (r: Result<
        MessageFilterSettingName,
        ValueParseError,
    >)
        ensures
            value@.len() == 0 ==> r matches Err(ValueParseError::Missing),
            value@.len() > 0 ==> (setting_by_name(value@) matches Some(n) ==> r == Ok::<
                MessageFilterSettingName,
                ValueParseError,
            >(n)),
            value@.len() > 0 && setting_by_name(value@) is None ==> (r matches Err(
                ValueParseError::Invalid(m),
            ) && m@ == unrecognized(value@)),
    {
        if value.unicode_len() == 0 {
            return Err(ValueParseError::Missing);
        }
        match MessageFilterSettingName::from_str_name(value) {
            Ok(n) => Ok(n),
            Err(m) => Err(ValueParseError::Invalid(m)),
        }
    }

    /// The setting named by the raw command line argument `value`: an empty
    /// value is missing, one that is not UTF-8 is refused, and otherwise it
    /// is read as `parse_value` reads its text.
    pub fn parse(&self, value: &[u8]) -> (r: Result<MessageFilterSettingName, ValueParseError>)
        ensures
            value@.len() == 0 ==> r matches Err(ValueParseError::Missing),
            value@.len() > 0 && !vstd::utf8::valid_utf8(value@) ==> (r matches Err(
                ValueParseError::Invalid(m),
            ) && m@ == "Message filter setting name value is not an UTF-8 string"@),
            value@.len() > 0 && vstd::utf8::valid_utf8(value@) ==> ({
                let s = vstd::utf8::decode_utf8(value@);
                &&& setting_by_name(s) matches Some(n) ==> r == Ok::<
                    MessageFilterSettingName,
                    ValueParseError,
                >(n)
                &&& setting_by_name(s) is None ==> (r matches Err(ValueParseError::Invalid(m))
                    && m@ == unrecognized(s))
            }),
    {
        if value.len() == 0 {
            return Err(ValueParseError::Missing);
        }
        match utf8_string(value) {
            None => Err(
                ValueParseError::Invalid(
                    String::from_str("Message filter setting name value is not an UTF-8 string"),
                ),
            ),
            Some(s) => {
                proof {
                    lemma_decoded_nonempty(value@);
                }
                self.parse_value(s.as_str())
            },
        }
    }

    /// The names that the parser accepts.
    pub fn possible_values(&self) -> (r: Vec<&'static str>)
        ensures
            r@.len() == 3,
            r@[0]@ == "AddSubjectTagPrefixSettings"@,
            r@[1]@ == "MimeRejectSettings"@,
            r@[2]@ == "ArchivedAtLinkSettings"@,
    {
        vec!["AddSubjectTagPrefixSettings", "MimeRejectSettings", "ArchivedAtLinkSettings"]
    }
}

} // verus!
