//! Changeset structs: update specific struct fields.

use vstd::prelude::*;

verus! {

/// Changeset struct for [`MailingList`](super::MailingList).
#[derive(Default, Debug)]
pub struct MailingListChangeset {
    /// Database primary key.
    pub pk: i64,
    /// Optional new value.
    pub name: Option<String>,
    /// Optional new value.
    pub id: Option<String>,
    /// Optional new value.
    pub address: Option<String>,
    /// Optional new value.
    pub description: Option<Option<String>>,
    /// Optional new value.
    pub archive_url: Option<Option<String>>,
    /// Optional new value.
    pub owner_local_part: Option<Option<String>>,
    /// Optional new value.
    pub request_local_part: Option<Option<String>>,
    /// Optional new value.
    pub verify: Option<bool>,
    /// Optional new value.
    pub hidden: Option<bool>,
    /// Optional new value.
    pub enabled: Option<bool>,
}

/// Whether a list changeset changes no field.
pub open spec fn list_changeset_is_empty(c: MailingListChangeset) -> bool {
    &&& c.name is None
    &&& c.id is None
    &&& c.address is None
    &&& c.description is None
    &&& c.archive_url is None
    &&& c.owner_local_part is None
    &&& c.request_local_part is None
    &&& c.verify is None
    &&& c.hidden is None
    &&& c.enabled is None
}

impl MailingListChangeset {
    /// Whether this changeset changes no field, in which case an update only
    /// checks that the list exists.
    pub fn is_empty(&self) -> (r: bool)
        ensures
            r == list_changeset_is_empty(*self),
    {
        self.name.is_none() && self.id.is_none() && self.address.is_none()
            && self.description.is_none() && self.archive_url.is_none()
            && self.owner_local_part.is_none() && self.request_local_part.is_none()
            && self.verify.is_none() && self.hidden.is_none() && self.enabled.is_none()
    }
}

/// Changeset struct for a list subscription.
#[derive(Default, Debug)]
pub struct ListSubscriptionChangeset {
    /// Mailing list foreign key (See [`MailingList`](super::MailingList)).
    pub list: i64,
    /// Subscription e-mail address.
    pub address: String,
    /// Optional new value.
    pub account: Option<Option<i64>>,
    /// Optional new value.
    pub name: Option<Option<String>>,
    /// Optional new value.
    pub digest: Option<bool>,
    /// Optional new value.
    pub enabled: Option<bool>,
    /// Optional new value.
    pub verified: Option<bool>,
    /// Optional new value.
    pub hide_address: Option<bool>,
    /// Optional new value.
    pub receive_duplicates: Option<bool>,
    /// Optional new value.
    pub receive_own_posts: Option<bool>,
    /// Optional new value.
    pub receive_confirmation: Option<bool>,
}

/// Changeset struct for [`PostPolicy`](super::PostPolicy).
#[derive(Default, Debug)]
pub struct PostPolicyChangeset {
    /// Database primary key.
    pub pk: i64,
    /// Mailing list foreign key (See [`MailingList`](super::MailingList)).
    pub list: i64,
    /// Optional new value.
    pub announce_only: Option<bool>,
    /// Optional new value.
    pub subscription_only: Option<bool>,
    /// Optional new value.
    pub approval_needed: Option<bool>,
}

/// Changeset struct for [`ListOwner`](super::ListOwner).
#[derive(Default, Debug)]
pub struct ListOwnerChangeset {
    /// Database primary key.
    pub pk: i64,
    /// Mailing list foreign key (See [`MailingList`](super::MailingList)).
    pub list: i64,
    /// Optional new value.
    pub address: Option<String>,
    /// Optional new value.
    pub name: Option<Option<String>>,
}

/// Changeset struct for an account.
#[derive(Default, Debug)]
pub struct AccountChangeset {
    /// Account e-mail address.
    pub address: String,
    /// Optional new value.
    pub name: Option<Option<String>>,
    /// Optional new value.
    pub public_key: Option<Option<String>>,
    /// Optional new value.
    pub password: Option<String>,
    /// Optional new value.
    pub enabled: Option<Option<bool>>,
}

/// A value written into a database column.
#[derive(Debug)]
pub enum SqlValue {
    /// `NULL`.
    Null,
    /// Text.
    Text(String),
    /// An integer.
    Int(i64),
    /// A boolean.
    Bool(bool),
}

/// A value written into a column, as characters.
pub enum SqlValueView {
    /// `NULL`.
    Null,
    /// Text.
    Text(Seq<char>),
    /// An integer.
    Int(i64),
    /// A boolean.
    Bool(bool),
}

/// The view of a column value.
pub open spec fn sql_view(v: SqlValue) -> SqlValueView {
    match v {
        SqlValue::Null => SqlValueView::Null,
        SqlValue::Text(s) => SqlValueView::Text(s@),
        SqlValue::Int(i) => SqlValueView::Int(i),
        SqlValue::Bool(b) => SqlValueView::Bool(b),
    }
}

/// One column to update and its new value.
#[derive(Debug)]
pub struct ColumnUpdate {
    /// The column.
    pub column: &'static str,
    /// Its new value.
    pub value: SqlValue,
}

/// The view of a list of column updates.
pub open spec fn updates_view(v: Seq<ColumnUpdate>) -> Seq<(Seq<char>, SqlValueView)> {
    v.map_values(|u: ColumnUpdate| (u.column@, sql_view(u.value)))
}

/// `s` followed by the update of `col` to `v`, if there is one.
pub open spec fn with_text(
    s: Seq<(Seq<char>, SqlValueView)>,
    col: Seq<char>,
    v: Option<String>,
) -> Seq<(Seq<char>, SqlValueView)> {
    match v {
        Some(x) => s.push((col, SqlValueView::Text(x@))),
        None => s,
    }
}

/// `s` followed by the update of `col` to `v` (text or `NULL`), if there is one.
pub open spec fn with_opt_text(
    s: Seq<(Seq<char>, SqlValueView)>,
    col: Seq<char>,
    v: Option<Option<String>>,
) -> Seq<(Seq<char>, SqlValueView)> {
    match v {
        Some(Some(x)) => s.push((col, SqlValueView::Text(x@))),
        Some(None) => s.push((col, SqlValueView::Null)),
        None => s,
    }
}

/// `s` followed by the update of `col` to `v`, if there is one.
pub open spec fn with_bool(
    s: Seq<(Seq<char>, SqlValueView)>,
    col: Seq<char>,
    v: Option<bool>,
) -> Seq<(Seq<char>, SqlValueView)> {
    match v {
        Some(x) => s.push((col, SqlValueView::Bool(x))),
        None => s,
    }
}

/// `s` followed by the update of `col` to `v` (a boolean or `NULL`), if
/// there is one.
pub open spec fn with_opt_bool(
    s: Seq<(Seq<char>, SqlValueView)>,
    col: Seq<char>,
    v: Option<Option<bool>>,
) -> Seq<(Seq<char>, SqlValueView)> {
    match v {
        Some(Some(x)) => s.push((col, SqlValueView::Bool(x))),
        Some(None) => s.push((col, SqlValueView::Null)),
        None => s,
    }
}

/// `s` followed by the update of `col` to `v` (an integer or `NULL`), if
/// there is one.
pub open spec fn with_opt_int(
    s: Seq<(Seq<char>, SqlValueView)>,
    col: Seq<char>,
    v: Option<Option<i64>>,
) -> Seq<(Seq<char>, SqlValueView)> {
    match v {
        Some(Some(x)) => s.push((col, SqlValueView::Int(x))),
        Some(None) => s.push((col, SqlValueView::Null)),
        None => s,
    }
}

fn push_text(u: &mut Vec<ColumnUpdate>, col: &'static str, v: Option<String>)
    ensures
        updates_view(final(u)@) == with_text(updates_view(old(u)@), col@, v),
{
    match v {
        Some(x) => {
            u.push(ColumnUpdate { column: col, value: SqlValue::Text(x) });
        },
        None => {},
    }
    assert(updates_view(final(u)@) =~= with_text(updates_view(old(u)@), col@, v));
}

fn push_opt_text(u: &mut Vec<ColumnUpdate>, col: &'static str, v: Option<Option<String>>)
    ensures
        updates_view(final(u)@) == with_opt_text(updates_view(old(u)@), col@, v),
{
    match v {
        Some(Some(x)) => {
            u.push(ColumnUpdate { column: col, value: SqlValue::Text(x) });
        },
        Some(None) => {
            u.push(ColumnUpdate { column: col, value: SqlValue::Null });
        },
        None => {},
    }
    assert(updates_view(final(u)@) =~= with_opt_text(updates_view(old(u)@), col@, v));
}

fn push_bool(u: &mut Vec<ColumnUpdate>, col: &'static str, v: Option<bool>)
    ensures
        updates_view(final(u)@) == with_bool(updates_view(old(u)@), col@, v),
{
    match v {
        Some(x) => {
            u.push(ColumnUpdate { column: col, value: SqlValue::Bool(x) });
        },
        None => {},
    }
    assert(updates_view(final(u)@) =~= with_bool(updates_view(old(u)@), col@, v));
}

fn push_opt_bool(u: &mut Vec<ColumnUpdate>, col: &'static str, v: Option<Option<bool>>)
    ensures
        updates_view(final(u)@) == with_opt_bool(updates_view(old(u)@), col@, v),
{
    match v {
        Some(Some(x)) => {
            u.push(ColumnUpdate { column: col, value: SqlValue::Bool(x) });
        },
        Some(None) => {
            u.push(ColumnUpdate { column: col, value: SqlValue::Null });
        },
        None => {},
    }
    assert(updates_view(final(u)@) =~= with_opt_bool(updates_view(old(u)@), col@, v));
}

fn push_opt_int(u: &mut Vec<ColumnUpdate>, col: &'static str, v: Option<Option<i64>>)
    ensures
        updates_view(final(u)@) == with_opt_int(updates_view(old(u)@), col@, v),
{
    match v {
        Some(Some(x)) => {
            u.push(ColumnUpdate { column: col, value: SqlValue::Int(x) });
        },
        Some(None) => {
            u.push(ColumnUpdate { column: col, value: SqlValue::Null });
        },
        None => {},
    }
    assert(updates_view(final(u)@) =~= with_opt_int(updates_view(old(u)@), col@, v));
}

/// The columns a list changeset updates, in order, with their new values.
pub open spec fn list_updates(c: MailingListChangeset) -> Seq<(Seq<char>, SqlValueView)> {
    let s = with_text(Seq::empty(), "name"@, c.name);
    let s = with_text(s, "id"@, c.id);
    let s = with_text(s, "address"@, c.address);
    let s = with_opt_text(s, "description"@, c.description);
    let s = with_opt_text(s, "archive_url"@, c.archive_url);
    let s = with_opt_text(s, "owner_local_part"@, c.owner_local_part);
    let s = with_opt_text(s, "request_local_part"@, c.request_local_part);
    let s = with_bool(s, "verify"@, c.verify);
    let s = with_bool(s, "hidden"@, c.hidden);
    with_bool(s, "enabled"@, c.enabled)
}

/// The columns a subscription changeset updates, in order, with their new
/// values.
pub open spec fn subscription_updates(c: ListSubscriptionChangeset) -> Seq<
    (Seq<char>, SqlValueView),
> {
    let s = with_opt_text(Seq::empty(), "name"@, c.name);
    let s = with_opt_int(s, "account"@, c.account);
    let s = with_bool(s, "digest"@, c.digest);
    let s = with_bool(s, "enabled"@, c.enabled);
    let s = with_bool(s, "verified"@, c.verified);
    let s = with_bool(s, "hide_address"@, c.hide_address);
    let s = with_bool(s, "receive_duplicates"@, c.receive_duplicates);
    let s = with_bool(s, "receive_own_posts"@, c.receive_own_posts);
    with_bool(s, "receive_confirmation"@, c.receive_confirmation)
}

/// The columns an account changeset updates, in order, with their new
/// values.
pub open spec fn account_updates(c: AccountChangeset) -> Seq<(Seq<char>, SqlValueView)> {
    let s = with_opt_text(Seq::empty(), "name"@, c.name);
    let s = with_opt_text(s, "public_key"@, c.public_key);
    let s = with_text(s, "password"@, c.password);
    with_opt_bool(s, "enabled"@, c.enabled)
}

impl MailingListChangeset {
    /// The columns this changeset updates, in order, with their new values.
    pub fn updates(self) -> (r: Vec<ColumnUpdate>)
        ensures
            updates_view(r@) == list_updates(self),
            r@.len() == 0 <==> list_changeset_is_empty(self),
    {
        let mut u: Vec<ColumnUpdate> = Vec::new();
        assert(updates_view(u@) =~= Seq::<(Seq<char>, SqlValueView)>::empty());
        push_text(&mut u, "name", self.name);
        push_text(&mut u, "id", self.id);
        push_text(&mut u, "address", self.address);
        push_opt_text(&mut u, "description", self.description);
        push_opt_text(&mut u, "archive_url", self.archive_url);
        push_opt_text(&mut u, "owner_local_part", self.owner_local_part);
        push_opt_text(&mut u, "request_local_part", self.request_local_part);
        push_bool(&mut u, "verify", self.verify);
        push_bool(&mut u, "hidden", self.hidden);
        push_bool(&mut u, "enabled", self.enabled);
        assert(updates_view(u@).len() == u@.len());
        u
    }
}

impl ListSubscriptionChangeset {
    /// Whether this changeset changes no field.
    pub fn is_empty(&self) -> (r: bool)
        ensures
            r == (subscription_updates(*self).len() == 0),
    {
        self.account.is_none() && self.name.is_none() && self.digest.is_none()
            && self.verified.is_none() && self.hide_address.is_none()
            && self.receive_duplicates.is_none() && self.receive_own_posts.is_none()
            && self.receive_confirmation.is_none() && self.enabled.is_none()
    }

    /// The columns this changeset updates, in order, with their new values.
    pub fn updates(self) -> (r: Vec<ColumnUpdate>)
        ensures
            updates_view(r@) == subscription_updates(self),
    {
        let mut u: Vec<ColumnUpdate> = Vec::new();
        assert(updates_view(u@) =~= Seq::<(Seq<char>, SqlValueView)>::empty());
        push_opt_text(&mut u, "name", self.name);
        push_opt_int(&mut u, "account", self.account);
        push_bool(&mut u, "digest", self.digest);
        push_bool(&mut u, "enabled", self.enabled);
        push_bool(&mut u, "verified", self.verified);
        push_bool(&mut u, "hide_address", self.hide_address);
        push_bool(&mut u, "receive_duplicates", self.receive_duplicates);
        push_bool(&mut u, "receive_own_posts", self.receive_own_posts);
        push_bool(&mut u, "receive_confirmation", self.receive_confirmation);
        u
    }
}

impl AccountChangeset {
    /// Whether this changeset changes no field.
    pub fn is_empty(&self) -> (r: bool)
        ensures
            r == (account_updates(*self).len() == 0),
    {
        self.name.is_none() && self.public_key.is_none() && self.password.is_none()
            && self.enabled.is_none()
    }

    /// The columns this changeset updates, in order, with their new values.
    pub fn updates(self) -> (r: Vec<ColumnUpdate>)
        ensures
            updates_view(r@) == account_updates(self),
    {
        let mut u: Vec<ColumnUpdate> = Vec::new();
        assert(updates_view(u@) =~= Seq::<(Seq<char>, SqlValueView)>::empty());
        push_opt_text(&mut u, "name", self.name);
        push_opt_text(&mut u, "public_key", self.public_key);
        push_text(&mut u, "password", self.password);
        push_opt_bool(&mut u, "enabled", self.enabled);
        u
    }
}

/// The statement that updates one column of a table for the rows that
/// `condition` selects: `UPDATE {table} SET {column} = ? WHERE {condition};`.
pub fn update_statement(table: &str, column: &str, condition: &str) -> (r: String)
    ensures
        r@ == "UPDATE "@ + table@ + " SET "@ + column@ + " = ? WHERE "@ + condition@ + ";"@,
{
    let mut s = String::from_str("UPDATE ");
    s.append(table);
    s.append(" SET ");
    s.append(column);
    s.append(" = ? WHERE ");
    s.append(condition);
    s.append(";");
    s
}

} // verus!
