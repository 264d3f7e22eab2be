//! The decisions that a `mailpot` database connection makes: what an
//! untrusted connection may do, how transactions and savepoints begin and
//! end, and which migrations bring the schema from one version to another.

use vstd::prelude::*;

use crate::text::{dec_nat, push_u64, str_eq};

verus! {

/// An action that sqlite3 asks the connection's authorizer about.
#[derive(Debug)]
pub enum AuthAction {
    /// Delete rows of a table.
    Delete {
        /// The table.
        table_name: String,
    },
    /// Insert rows into a table.
    Insert {
        /// The table.
        table_name: String,
    },
    /// Update a column of a table.
    Update {
        /// The table.
        table_name: String,
        /// The column.
        column_name: String,
    },
    /// A `SELECT` statement.
    Select,
    /// A savepoint operation.
    Savepoint,
    /// A transaction operation.
    Transaction,
    /// A read of a column.
    Read,
    /// A call of an SQL function.
    Function {
        /// The function.
        function_name: String,
    },
    /// Any other action.
    Other,
}

/// The authorizer's answer.
#[derive(Debug, Clone, Copy, PartialEq, Eq)]
pub enum Authorization {
    /// Allow the action.
    Allow,
    /// Deny the action.
    Deny,
}

/// The tables whose rows an untrusted connection may delete.
pub open spec fn deletable_table(t: Seq<char>) -> bool {
    t == "queue"@ || t == "candidate_subscription"@ || t == "subscription"@
}

/// The tables into which an untrusted connection may insert.
pub open spec fn insertable_table(t: Seq<char>) -> bool {
    t == "post"@ || t == "queue"@ || t == "candidate_subscription"@ || t == "subscription"@
        || t == "account"@
}

/// The columns an untrusted connection may update.
pub open spec fn updatable_column(t: Seq<char>, c: Seq<char>) -> bool {
    ||| (t == "candidate_subscription"@ || t == "template"@) && (c == "accepted"@ || c
        == "last_modified"@ || c == "verified"@ || c == "address"@)
    ||| t == "account"@ && (c == "last_modified"@ || c == "name"@ || c == "public_key"@ || c
        == "password"@)
    ||| t == "subscription"@ && (c == "last_modified"@ || c == "account"@ || c == "digest"@ || c
        == "verified"@ || c == "hide_address"@ || c == "receive_duplicates"@ || c
        == "receive_own_posts"@ || c == "receive_confirmation"@)
}

/// The SQL functions an untrusted connection may call.
pub open spec fn callable_function(f: Seq<char>) -> bool {
    f == "count"@ || f == "strftime"@ || f == "unixepoch"@ || f == "datetime"@
}

/// Whether an untrusted connection may perform an action.
pub open spec fn untrusted_allows(a: AuthAction) -> bool {
    match a {
        AuthAction::Delete { table_name } => deletable_table(table_name@),
        AuthAction::Insert { table_name } => insertable_table(table_name@),
        AuthAction::Update { table_name, column_name } => updatable_column(
            table_name@,
            column_name@,
        ),
        AuthAction::Select => true,
        AuthAction::Savepoint => true,
        AuthAction::Transaction => true,
        AuthAction::Read => true,
        AuthAction::Function { function_name } => callable_function(function_name@),
        AuthAction::Other => false,
    }
}

fn one_of(s: &str, options: &Vec<&str>) -> (r: bool)
    ensures
        r == exists|i: int| 0 <= i < options@.len() && options@[i]@ == s@,
{
    let mut i: usize = 0;
    while i < options.len()
        invariant
            i <= options@.len(),
            forall|j: int| 0 <= j < i ==> options@[j]@ != s@,
        decreases options@.len() - i,
    {
        if str_eq(options[i], s) {
            return true;
        }
        i = i + 1;
    }
    false
}

/// The authorizer of an untrusted connection: it allows `SELECT`, reads,
/// transactions and savepoints, the `count`, `strftime`, `unixepoch` and
/// `datetime` functions, deleting from `queue`, `candidate_subscription` and
/// `subscription`, inserting into those and into `post` and `account`, and
/// updating the user facing settings of subscriptions, accounts, candidate
/// subscriptions and templates; it denies everything else.
pub fn user_authorizer_callback(action: &AuthAction) -> (r: Authorization)
    ensures
        r == Authorization::Allow <==> untrusted_allows(*action),
{
    let allow = match action {
        AuthAction::Delete { table_name } => {
            let ok = one_of(
                table_name.as_str(),
                &vec!["queue", "candidate_subscription", "subscription"],
            );
            proof {
                let v = seq!["queue", "candidate_subscription", "subscription"];
                assert(ok == deletable_table(table_name@)) by {
                    if ok {
                        let i = choose|i: int| 0 <= i < 3 && v[i]@ == table_name@;
                        assert(i == 0 || i == 1 || i == 2);
                    } else {
                        assert(v[0]@ != table_name@ && v[1]@ != table_name@ && v[2]@ != table_name@);
                    }
                }
            }
            ok
        },
        AuthAction::Insert { table_name } => {
            let ok = one_of(
                table_name.as_str(),
                &vec!["post", "queue", "candidate_subscription", "subscription", "account"],
            );
            proof {
                let v = seq!["post", "queue", "candidate_subscription", "subscription", "account"];
                assert(ok == insertable_table(table_name@)) by {
                    if ok {
                        let i = choose|i: int| 0 <= i < 5 && v[i]@ == table_name@;
                        assert(i == 0 || i == 1 || i == 2 || i == 3 || i == 4);
                    } else {
                        assert(v[0]@ != table_name@ && v[1]@ != table_name@ && v[2]@ != table_name@
                            && v[3]@ != table_name@ && v[4]@ != table_name@);
                    }
                }
            }
            ok
        },
        AuthAction::Update { table_name, column_name } => {
            let t = table_name.as_str();
            let c = column_name.as_str();
            let cand = str_eq(t, "candidate_subscription") || str_eq(t, "template");
            let c1 = str_eq(c, "accepted") || str_eq(c, "last_modified") || str_eq(c, "verified")
                || str_eq(c, "address");
            let acc = str_eq(t, "account");
            let c2 = str_eq(c, "last_modified") || str_eq(c, "name") || str_eq(c, "public_key")
                || str_eq(c, "password");
            let sub = str_eq(t, "subscription");
            let c3 = str_eq(c, "last_modified") || str_eq(c, "account") || str_eq(c, "digest")
                || str_eq(c, "verified") || str_eq(c, "hide_address") || str_eq(
                c,
                "receive_duplicates",
            ) || str_eq(c, "receive_own_posts") || str_eq(c, "receive_confirmation");
            (cand && c1) || (acc && c2) || (sub && c3)
        },
        AuthAction::Select => true,
        AuthAction::Savepoint => true,
        AuthAction::Transaction => true,
        AuthAction::Read => true,
        AuthAction::Function { function_name } => {
            let f = function_name.as_str();
            str_eq(f, "count") || str_eq(f, "strftime") || str_eq(f, "unixepoch") || str_eq(
                f,
                "datetime",
            )
        },
        AuthAction::Other => false,
    };
    if allow {
        Authorization::Allow
    } else {
        Authorization::Deny
    }
}

/// An untrusted connection deletes rows only from the queues and the
/// subscription tables, and never touches the list table.
pub proof fn lemma_untrusted_list_table_read_only(t: String, c: String)
    requires
        t@ == "list"@,
    ensures
        !untrusted_allows(AuthAction::Delete { table_name: t }),
        !untrusted_allows(AuthAction::Insert { table_name: t }),
        !untrusted_allows(AuthAction::Update { table_name: t, column_name: c }),
{
    reveal_strlit("list");
    reveal_strlit("queue");
    reveal_strlit("post");
    reveal_strlit("account");
    reveal_strlit("template");
    reveal_strlit("subscription");
    reveal_strlit("candidate_subscription");
    assert("list"@.len() == 4);
    assert("post"@[0] != "list"@[0]);
    assert("queue"@.len() != 4);
}

/// Options for transaction behavior, see sqlite3's `BEGIN TRANSACTION`.
#[derive(Debug, Clone, Copy, PartialEq, Eq)]
pub enum TransactionBehavior {
    /// DEFERRED means that the transaction does not actually start until
    /// the database is first accessed.
    Deferred,
    /// IMMEDIATE cause the database connection to start a new write
    /// immediately, without waiting for a writes statement.
    Immediate,
    /// EXCLUSIVE prevents other database connections from reading the
    /// database while the transaction is underway.
    Exclusive,
}

/// The statement that begins a transaction.
pub open spec fn begin_statement_of(b: TransactionBehavior) -> Seq<char> {
    match b {
        TransactionBehavior::Deferred => "BEGIN DEFERRED"@,
        TransactionBehavior::Immediate => "BEGIN IMMEDIATE"@,
        TransactionBehavior::Exclusive => "BEGIN EXCLUSIVE"@,
    }
}

impl TransactionBehavior {
    /// The default behavior, `Immediate`.
    pub fn default_behavior() -> (r: TransactionBehavior)
        ensures
            r == TransactionBehavior::Immediate,
    {
        TransactionBehavior::Immediate
    }

    /// The statement that begins a transaction with this behavior.
    pub fn begin_statement(&self) -> (r: &'static str)
        ensures
            r@ == begin_statement_of(*self),
    {
        match self {
            TransactionBehavior::Deferred => "BEGIN DEFERRED",
            TransactionBehavior::Immediate => "BEGIN IMMEDIATE",
            TransactionBehavior::Exclusive => "BEGIN EXCLUSIVE",
        }
    }
}

/// Options for how a Transaction or Savepoint should behave when it is
/// dropped.
#[derive(Debug, Clone, Copy, PartialEq, Eq)]
pub enum DropBehavior {
    /// Roll back the changes. This is the default.
    Rollback,
    /// Commit the changes.
    Commit,
    /// Do not commit or roll back changes - this will leave the transaction
    /// or savepoint open, so should be used with care.
    Ignore,
    /// Panic. Used to enforce intentional behavior during development.
    Panic,
}

impl DropBehavior {
    /// The default behavior, `Rollback`.
    pub fn default_behavior() -> (r: DropBehavior)
        ensures
            r == DropBehavior::Rollback,
    {
        DropBehavior::Rollback
    }
}

/// What finishing a transaction or savepoint does.
#[derive(Debug, Clone, Copy, PartialEq, Eq)]
pub enum FinishStep {
    /// Nothing: the connection is in autocommit mode, so nothing is open.
    Nothing,
    /// Commit, and roll back if committing fails.
    CommitOrRollback,
    /// Roll back.
    Rollback,
    /// Leave it open.
    Ignore,
}

/// What finishing does, by the connection's autocommit mode and the drop
/// behavior.
pub open spec fn finish_step_of(is_autocommit: bool, b: DropBehavior) -> FinishStep {
    if is_autocommit {
        FinishStep::Nothing
    } else {
        match b {
            DropBehavior::Commit => FinishStep::CommitOrRollback,
            DropBehavior::Rollback => FinishStep::Rollback,
            _ => FinishStep::Ignore,
        }
    }
}

/// What finishing a transaction or savepoint does. Finishing one whose drop
/// behavior is `Panic` while it is open panics, so it is left out.
pub fn finish_step(is_autocommit: bool, behavior: DropBehavior) -> (r: FinishStep)
    requires
        is_autocommit || behavior != DropBehavior::Panic,
    ensures
        r == finish_step_of(is_autocommit, behavior),
{
    if is_autocommit {
        return FinishStep::Nothing;
    }
    match behavior {
        DropBehavior::Commit => FinishStep::CommitOrRollback,
        DropBehavior::Rollback => FinishStep::Rollback,
        DropBehavior::Ignore => FinishStep::Ignore,
        DropBehavior::Panic => FinishStep::Ignore,
    }
}

/// The name of a savepoint: a given one, or a number.
#[derive(Debug, Clone, Copy)]
pub enum SavepointName {
    /// A given name.
    Named(&'static str),
    /// A numbered savepoint, named `_n`.
    Numbered(u64),
}

/// The SQL name of a savepoint.
pub open spec fn savepoint_name_of(n: SavepointName) -> Seq<char> {
    match n {
        SavepointName::Named(s) => s@,
        SavepointName::Numbered(i) => seq!['_'] + dec_nat(i as nat),
    }
}

/// The state of an open savepoint.
#[derive(Debug, Clone, Copy)]
pub struct SavepointState {
    /// Its name.
    pub name: SavepointName,
    /// What dropping it does.
    pub drop_behavior: DropBehavior,
    /// Whether it was released.
    pub committed: bool,
}

impl SavepointName {
    /// The SQL name of this savepoint.
    pub fn sql_name(&self) -> (r: String)
        ensures
            r@ == savepoint_name_of(*self),
    {
        match self {
            SavepointName::Named(s) => String::from_str(s),
            SavepointName::Numbered(i) => {
                let mut s = String::from_str("_");
                push_u64(&mut s, *i);
                assert(s@ =~= savepoint_name_of(*self)) by {
                    reveal_strlit("_");
                }
                s
            },
        }
    }
}

impl SavepointState {
    /// A savepoint just opened, to roll back when dropped.
    pub fn new(name: SavepointName) -> (r: SavepointState)
        ensures
            r.name == name,
            r.drop_behavior == DropBehavior::Rollback,
            !r.committed,
    {
        SavepointState { name, drop_behavior: DropBehavior::Rollback, committed: false }
    }

    /// The statement that opens it: `SAVEPOINT name`.
    pub fn open_statement(&self) -> (r: String)
        ensures
            r@ == "SAVEPOINT "@ + savepoint_name_of(self.name),
    {
        let mut s = String::from_str("SAVEPOINT ");
        let n = self.name.sql_name();
        s.append(n.as_str());
        s
    }

    /// Configure the savepoint to perform the specified action when it is
    /// dropped.
    pub fn set_drop_behavior(&mut self, drop_behavior: DropBehavior)
        ensures
            final(self).drop_behavior == drop_behavior,
            final(self).name == old(self).name,
            final(self).committed == old(self).committed,
    {
        self.drop_behavior = drop_behavior;
    }

    /// Releasing it: `RELEASE SAVEPOINT name`, unless it was already
    /// released, after which it counts as released.
    pub fn commit_statement(&mut self) -> (r: Option<String>)
        ensures
            release_sql(*old(self)) is None ==> r is None,
            release_sql(*old(self)) matches Some(q) ==> (r matches Some(s) && s@ == q),
            *final(self) == released(*old(self)),
    {
        if !self.committed {
            let mut s = String::from_str("RELEASE SAVEPOINT ");
            let n = self.name.sql_name();
            s.append(n.as_str());
            self.committed = true;
            Some(s)
        } else {
            None
        }
    }

    /// Rolling it back: `ROLLBACK TO SAVEPOINT name`, unless it was released.
    pub fn rollback_statement(&self) -> (r: Option<String>)
        ensures
            rollback_sql(*self) is None ==> r is None,
            rollback_sql(*self) matches Some(q) ==> (r matches Some(s) && s@ == q),
    {
        if !self.committed {
            let mut s = String::from_str("ROLLBACK TO SAVEPOINT ");
            let n = self.name.sql_name();
            s.append(n.as_str());
            Some(s)
        } else {
            None
        }
    }
}

/// The statement that releases a savepoint, unless it was released.
pub open spec fn release_sql(s: SavepointState) -> Option<Seq<char>> {
    if s.committed {
        None
    } else {
        Some("RELEASE SAVEPOINT "@ + savepoint_name_of(s.name))
    }
}

/// The statement that rolls a savepoint back, unless it was released.
pub open spec fn rollback_sql(s: SavepointState) -> Option<Seq<char>> {
    if s.committed {
        None
    } else {
        Some("ROLLBACK TO SAVEPOINT "@ + savepoint_name_of(s.name))
    }
}

/// The savepoint after a release.
pub open spec fn released(s: SavepointState) -> SavepointState {
    SavepointState { committed: true, ..s }
}

/// A released savepoint is never released twice nor rolled back: after a
/// release, neither issues a statement.
pub proof fn lemma_savepoint_release_final(s: SavepointState)
    ensures
        release_sql(released(s)) is None,
        rollback_sql(released(s)) is None,
        release_sql(released(released(s))) is None,
{
}

/// One migration to run: the index of the migration in the list of
/// migrations and whether it is undone (its down script) or done (its up
/// script).
pub open spec fn migration_steps_of(from: nat, to: nat) -> Seq<(nat, bool)>
    decreases if from < to { to - from } else { from - to },
{
    if from == to {
        Seq::empty()
    } else if from > to {
        seq![((from - 1) as nat, true)] + migration_steps_of((from - 1) as nat, to)
    } else {
        seq![(from, false)] + migration_steps_of(from + 1, to)
    }
}

/// Whether migrating from `from` to `to` stays within `n` migrations (the
/// migration at index `to - 1` gives the new schema version).
pub open spec fn migration_in_bounds(from: nat, to: nat, n: nat) -> bool {
    from == to || (1 <= to <= n && from <= n)
}

/// The migrations that bring the schema from version `from` to version `to`,
/// given `n` migrations: the up scripts of `from..to` in order when going
/// up, the down scripts of `from - 1` down to `to` when going down.
pub fn migration_plan(from: u32, to: u32, n: usize) -> (r: Vec<(usize, bool)>)
    requires
        migration_in_bounds(from as nat, to as nat, n as nat),
    ensures
        r@.len() == migration_steps_of(from as nat, to as nat).len(),
        forall|k: int|
            0 <= k < r@.len() ==> r@[k].0 as nat == (#[trigger] migration_steps_of(
                from as nat,
                to as nat,
            )[k]).0 && r@[k].1 == migration_steps_of(from as nat, to as nat)[k].1,
        forall|k: int| 0 <= k < r@.len() ==> (#[trigger] r@[k]).0 < n,
{
    let mut steps: Vec<(usize, bool)> = Vec::new();
    let mut cur = from;
    let undo = from > to;
    while cur != to
        invariant
            migration_in_bounds(from as nat, to as nat, n as nat),
            undo == (from > to),
            undo ==> to <= cur <= from,
            !undo ==> from <= cur <= to,
            steps@.len() + migration_steps_of(cur as nat, to as nat).len() == migration_steps_of(
                from as nat,
                to as nat,
            ).len(),
            forall|k: int|
                0 <= k < steps@.len() ==> steps@[k].0 as nat == (#[trigger] migration_steps_of(
                    from as nat,
                    to as nat,
                )[k]).0 && steps@[k].1 == migration_steps_of(from as nat, to as nat)[k].1,
            forall|k: int| 0 <= k < steps@.len() ==> (#[trigger] steps@[k]).0 < n,
            migration_steps_of(from as nat, to as nat) == migration_steps_of(
                from as nat,
                to as nat,
            ).take(steps@.len() as int) + migration_steps_of(cur as nat, to as nat),
        decreases if undo { cur - to } else { to - cur },
    {
        let ghost all = migration_steps_of(from as nat, to as nat);
        let ghost before = steps@.len();
        if undo {
            steps.push(((cur - 1) as usize, true));
            cur = cur - 1;
        } else {
            steps.push((cur as usize, false));
            cur = cur + 1;
        }
        proof {
            assert(all.take(before as int + 1) =~= all.take(before as int) + seq![all[before as int]]);
            assert(all == all.take(steps@.len() as int) + migration_steps_of(cur as nat, to as nat));
        }
    }
    steps
}

/// Going up runs the up scripts of `from`, `from + 1`, ..., `to - 1`;
/// going down runs the down scripts of `from - 1`, ..., `to`.
pub proof fn lemma_migration_steps(from: nat, to: nat)
    ensures
        from <= to ==> migration_steps_of(from, to).len() == to - from && forall|k: int|
            0 <= k < to - from ==> #[trigger] migration_steps_of(from, to)[k] == ((from + k) as nat,
            false),
        from > to ==> migration_steps_of(from, to).len() == from - to && forall|k: int|
            0 <= k < from - to ==> #[trigger] migration_steps_of(from, to)[k] == ((from - 1 - k) as nat,
            true),
    decreases if from < to { to - from } else { from - to },
{
    if from < to {
        lemma_migration_steps(from + 1, to);
        assert forall|k: int| 0 <= k < to - from implies #[trigger] migration_steps_of(from, to)[k]
            == ((from + k) as nat, false) by {
            if k > 0 {
                assert(migration_steps_of(from, to)[k] == migration_steps_of(from + 1, to)[k - 1]);
            }
        }
    } else if from > to {
        lemma_migration_steps((from - 1) as nat, to);
        assert forall|k: int| 0 <= k < from - to implies #[trigger] migration_steps_of(from, to)[k]
            == ((from - 1 - k) as nat, true) by {
            if k > 0 {
                assert(migration_steps_of(from, to)[k] == migration_steps_of((from - 1) as nat, to)[k
                    - 1]);
            }
        }
    }
}

/// Migrating back undoes a migration: going from `to` back to `from` runs
/// the down scripts of exactly the migrations whose up scripts went from
/// `from` to `to`, in the reverse order (and the other way round).
pub proof fn lemma_migration_inverse(from: nat, to: nat)
    ensures
        migration_steps_of(to, from).len() == migration_steps_of(from, to).len(),
        forall|k: int|
            0 <= k < migration_steps_of(from, to).len() ==> {
                let n = migration_steps_of(from, to).len();
                &&& (#[trigger] migration_steps_of(to, from)[k]).0 == migration_steps_of(from, to)[n
                    - 1 - k].0
                &&& migration_steps_of(to, from)[k].1 == !migration_steps_of(from, to)[n - 1 - k].1
            },
{
    lemma_migration_steps(from, to);
    lemma_migration_steps(to, from);
    let n = migration_steps_of(from, to).len();
    assert forall|k: int| 0 <= k < n implies {
        &&& (#[trigger] migration_steps_of(to, from)[k]).0 == migration_steps_of(from, to)[n - 1
            - k].0
        &&& migration_steps_of(to, from)[k].1 == !migration_steps_of(from, to)[n - 1 - k].1
    } by {
        let j = n - 1 - k;
        assert(migration_steps_of(from, to)[j] == migration_steps_of(from, to)[j]);
    }
}

} // verus!
