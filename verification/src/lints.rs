//! Database repairs: which lints a repair runs, and the decisions the
//! `datetime_header_value` lint makes about each post.

use vstd::prelude::*;

use crate::models::opt_str;
use crate::posts::{trim, trimmed};
use crate::text::{dec_nat, push_u64};

verus! {

/// A database lint.
#[derive(Debug, Clone, Copy, PartialEq, Eq, Structural)]
pub enum Lint {
    /// Posts whose `Date` value is not an RFC 822 date.
    DatetimeHeaderValue,
    /// Accounts with no subscription.
    RemoveEmptyAccounts,
    /// Subscription requests that were already accepted.
    RemoveAcceptedSubscriptionRequests,
    /// Lists without an owner.
    WarnListNoOwner,
    /// Posts whose message id is malformed.
    FixMessageIds,
}

/// The name of a lint.
pub open spec fn lint_name(l: Lint) -> Seq<char> {
    match l {
        Lint::DatetimeHeaderValue => "datetime_header_value"@,
        Lint::RemoveEmptyAccounts => "remove_empty_accounts"@,
        Lint::RemoveAcceptedSubscriptionRequests => "remove_accepted_subscription_requests"@,
        Lint::WarnListNoOwner => "warn_list_no_owner"@,
        Lint::FixMessageIds => "fix_message_ids"@,
    }
}

impl Lint {
    /// The name of this lint.
    pub fn name(&self) -> (r: &'static str)
        ensures
            r@ == lint_name(*self),
    {
        match self {
            Lint::DatetimeHeaderValue => "datetime_header_value",
            Lint::RemoveEmptyAccounts => "remove_empty_accounts",
            Lint::RemoveAcceptedSubscriptionRequests => "remove_accepted_subscription_requests",
            Lint::WarnListNoOwner => "warn_list_no_owner",
            Lint::FixMessageIds => "fix_message_ids",
        }
    }
}

/// Which lints a repair runs.
#[derive(Debug, Clone, Copy)]
pub struct RepairConfig {
    /// Run [`Lint::DatetimeHeaderValue`].
    pub datetime_header_value: bool,
    /// Run [`Lint::RemoveEmptyAccounts`].
    pub remove_empty_accounts: bool,
    /// Run [`Lint::RemoveAcceptedSubscriptionRequests`].
    pub remove_accepted_subscription_requests: bool,
    /// Run [`Lint::WarnListNoOwner`].
    pub warn_list_no_owner: bool,
    /// Run [`Lint::FixMessageIds`].
    pub fix_message_ids: bool,
}

/// `s` followed by `l` when `flag` is set.
pub open spec fn with_lint(s: Seq<Lint>, flag: bool, l: Lint) -> Seq<Lint> {
    if flag {
        s.push(l)
    } else {
        s
    }
}

/// The lints that `config` selects (all of them with `all`), in the order
/// in which a repair runs them.
pub open spec fn selected_lints(all: bool, c: RepairConfig) -> Seq<Lint> {
    let s = with_lint(Seq::empty(), all || c.datetime_header_value, Lint::DatetimeHeaderValue);
    let s = with_lint(s, all || c.remove_empty_accounts, Lint::RemoveEmptyAccounts);
    let s = with_lint(
        s,
        all || c.remove_accepted_subscription_requests,
        Lint::RemoveAcceptedSubscriptionRequests,
    );
    let s = with_lint(s, all || c.warn_list_no_owner, Lint::WarnListNoOwner);
    with_lint(s, all || c.fix_message_ids, Lint::FixMessageIds)
}

/// The refusal of a repair that selects no lint.
pub open spec fn no_lints_message() -> Seq<char> {
    "No lints selected: specify them with flag arguments. See --help"@
}

fn push_lint(v: &mut Vec<Lint>, flag: bool, l: Lint)
    ensures
        final(v)@ == with_lint(old(v)@, flag, l),
{
    if flag {
        v.push(l);
    }
}

/// The lints a repair runs, in order: those that `config` selects, or all
/// of them with `all`. A repair that selects none is refused.
pub fn repair_plan(all: bool, config: RepairConfig) -> (r: Result<Vec<Lint>, String>)
    ensures
        selected_lints(all, config).len() == 0 ==> (r matches Err(m) && m@ == no_lints_message()),
        selected_lints(all, config).len() > 0 ==> (r matches Ok(v) && v@ == selected_lints(
            all,
            config,
        )),
{
    let mut v: Vec<Lint> = Vec::new();
    push_lint(&mut v, all || config.datetime_header_value, Lint::DatetimeHeaderValue);
    push_lint(&mut v, all || config.remove_empty_accounts, Lint::RemoveEmptyAccounts);
    push_lint(
        &mut v,
        all || config.remove_accepted_subscription_requests,
        Lint::RemoveAcceptedSubscriptionRequests,
    );
    push_lint(&mut v, all || config.warn_list_no_owner, Lint::WarnListNoOwner);
    push_lint(&mut v, all || config.fix_message_ids, Lint::FixMessageIds);
    if v.len() == 0 {
        Err(String::from_str("No lints selected: specify them with flag arguments. See --help"))
    } else {
        Ok(v)
    }
}

/// A repair with `all` runs every lint, in the same order, whatever the
/// configuration selects.
pub proof fn lemma_all_runs_every_lint(c: RepairConfig)
    ensures
        selected_lints(true, c) == seq![
            Lint::DatetimeHeaderValue,
            Lint::RemoveEmptyAccounts,
            Lint::RemoveAcceptedSubscriptionRequests,
            Lint::WarnListNoOwner,
            Lint::FixMessageIds,
        ],
        selected_lints(true, c).len() > 0,
{
    assert(selected_lints(true, c) =~= seq![
        Lint::DatetimeHeaderValue,
        Lint::RemoveEmptyAccounts,
        Lint::RemoveAcceptedSubscriptionRequests,
        Lint::WarnListNoOwner,
        Lint::FixMessageIds,
    ]);
}

/// What a lint reports when it found `n` entries to repair.
pub open spec fn lint_summary_text(name: Seq<char>, n: nat) -> Seq<char> {
    if n == 0 {
        name + ": ok"@
    } else {
        name + ": found "@ + dec_nat(n) + " entries"@
    }
}

/// The line a lint prints when it found `n` entries to repair.
pub fn lint_summary(name: &str, n: u64) -> (r: String)
    ensures
        r@ == lint_summary_text(name@, n as nat),
{
    let mut s = String::from_str(name);
    if n == 0 {
        s.append(": ok");
    } else {
        s.append(": found ");
        push_u64(&mut s, n);
        s.append(" entries");
    }
    s
}

/// The line the `datetime_header_value` lint prints when it could not
/// repair `n` posts.
pub fn failures_summary(n: u64) -> (r: String)
    ensures
        n == 1 ==> r@ == "datetime_header_value: "@ + dec_nat(n as nat) + " failure"@,
        n != 1 ==> r@ == "datetime_header_value: "@ + dec_nat(n as nat) + " failures"@,
{
    let mut s = String::from_str("datetime_header_value: ");
    push_u64(&mut s, n);
    if n == 1 {
        s.append(" failure");
    } else {
        s.append(" failures");
    }
    s
}

/// Whether a post date that parsed as `parsed` (`None` where it did not
/// parse as an RFC 822 date) needs a repair: it does where it did not parse
/// or parsed as the epoch.
pub fn date_needs_repair(parsed: Option<u64>) -> (r: bool)
    ensures
        r == (parsed is None || parsed == Some(0u64)),
{
    match parsed {
        None => true,
        Some(t) => t == 0,
    }
}

/// The moment a post's metadata gives it, where its `Date` value is not
/// usable: its `timestamp`, or its creation time where that is earlier or
/// the timestamp is unset, and none where that is not after the epoch.
pub open spec fn fallback_timestamp_of(timestamp: i64, created: i64) -> Option<u64> {
    let t = if timestamp == 0 {
        created
    } else {
        timestamp
    };
    let t = if t <= created {
        t
    } else {
        created
    };
    if t <= 0 {
        None
    } else {
        Some(t as u64)
    }
}

/// The moment a post's metadata gives it, as [`fallback_timestamp_of`]
/// says.
pub fn fallback_timestamp(timestamp: i64, created: i64) -> (r: Option<u64>)
    ensures
        r == fallback_timestamp_of(timestamp, created),
{
    let mut t = timestamp;
    if t == 0 {
        t = created;
    }
    if created < t {
        t = created;
    }
    if t <= 0 {
        None
    } else {
        Some(t as u64)
    }
}

/// The moment that `melib::utils::datetime::rfc822_to_timestamp` reads from
/// `s`, or `None` where it refuses it. It parses with `strptime` in the
/// built-in "C" locale only, so the result is a function of `s`.
pub uninterp spec fn rfc822_parsed(s: Seq<char>) -> Option<u64>;

/// `melib::utils::datetime::rfc822_to_timestamp`, its error turned into
/// `None`. The contract claims that the result is the one named by
/// `rfc822_parsed`, and that a text holding a NUL character is refused:
/// `CString::new` refuses it before any parsing.
#[verifier::external_body]
fn rfc822_timestamp(s: &str) -> (r: Option<u64>)
    ensures
        r == rfc822_parsed(s@),
        s@.contains('\0') ==> r is None,
{
    melib::utils::datetime::rfc822_to_timestamp(s).ok()
}

/// Whether a post's `Date` value `date`, trimmed, is not an RFC 822 date
/// after the epoch, so that the `datetime_header_value` lint repairs it; a
/// value holding a NUL character never is one.
pub fn post_date_needs_repair(date: &str) -> (r: bool)
    ensures
        r == (rfc822_parsed(trimmed(date@)) is None || rfc822_parsed(trimmed(date@)) == Some(0u64)),
        trimmed(date@).contains('\0') ==> r,
{
    let t = trim(date);
    date_needs_repair(rfc822_timestamp(t.as_str()))
}

/// The RFC 2822 form of the RFC 3339 date `s`, as `chrono` writes it, where
/// `s` parses as one.
pub uninterp spec fn rfc3339_as_rfc2822(s: Seq<char>) -> Option<Seq<char>>;

/// `chrono::DateTime::<FixedOffset>::parse_from_rfc3339` followed by
/// `to_rfc2822`: the contract claims only that the result is the named
/// function of `s`. A parsed RFC 3339 date has a year of four digits, which
/// `to_rfc2822` writes without a panic.
#[verifier::external_body]
fn rfc3339_to_rfc2822(s: &str) -> (r: Option<String>)
    ensures
        opt_str(r) == rfc3339_as_rfc2822(s@),
{
    match chrono::DateTime::<chrono::FixedOffset>::parse_from_rfc3339(s) {
        Ok(v) => Some(v.to_rfc2822()),
        Err(_) => None,
    }
}

/// `melib::utils::datetime::timestamp_to_string` with the RFC 822 date
/// format, in the local time zone. Nothing is stated of the result: it
/// depends on the machine's time zone.
#[verifier::external_body]
fn local_rfc822_date(t: u64) -> (r: String) {
    melib::utils::datetime::timestamp_to_string(
        t,
        Some(melib::utils::datetime::formats::RFC822_DATE),
        true,
    )
}

/// The `Date` value of the message `bytes`, as `melib` parses it, where it
/// parses.
pub uninterp spec fn message_date_of(bytes: Seq<u8>) -> Option<Seq<char>>;

/// `melib::Envelope::from_bytes` followed by `date_as_str`: the contract
/// claims only that the result is the named function of `bytes`.
#[verifier::external_body]
fn message_date(bytes: &[u8]) -> (r: Option<String>)
    ensures
        opt_str(r) == message_date_of(bytes@),
{
    match melib::Envelope::from_bytes(bytes, None) {
        Ok(env) => Some(env.date_as_str().to_string()),
        Err(_) => None,
    }
}

/// The date that repairs a post whose `Date` value is `val`: `val` itself
/// in RFC 2822 form where it is an RFC 3339 date; else the post's fallback
/// moment `timestamp` in the local time zone; else the `Date` of the stored
/// message `message`; and none where all three fail.
pub fn corrected_date(val: &str, timestamp: Option<u64>, message: &[u8]) -> (r: Option<String>)
    ensures
        rfc3339_as_rfc2822(val@) matches Some(v) ==> opt_str(r) == Some(v),
        rfc3339_as_rfc2822(val@) is None && timestamp is Some ==> r is Some,
        rfc3339_as_rfc2822(val@) is None && timestamp is None ==> opt_str(r) == message_date_of(
            message@,
        ),
{
    match rfc3339_to_rfc2822(val) {
        Some(v) => Some(v),
        None => match timestamp {
            Some(t) => Some(local_rfc822_date(t)),
            None => message_date(message),
        },
    }
}

} // verus!
