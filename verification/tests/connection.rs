use mailpot::connection::{
    finish_step, migration_plan, user_authorizer_callback, AuthAction, Authorization,
    DropBehavior, FinishStep, SavepointName, SavepointState, TransactionBehavior,
};

fn allowed(a: AuthAction) -> bool {
    matches!(user_authorizer_callback(&a), Authorization::Allow)
}

#[test]
fn test_authorizer() {
    // An untrusted connection can not create lists, owners or policies.
    assert!(!allowed(AuthAction::Insert { table_name: "list".into() }));
    assert!(!allowed(AuthAction::Delete { table_name: "owner".into() }));
    assert!(!allowed(AuthAction::Delete { table_name: "post_policy".into() }));
    assert!(!allowed(AuthAction::Insert { table_name: "post_policy".into() }));
    assert!(!allowed(AuthAction::Other));
    // It can read, and do what subscribers do.
    assert!(allowed(AuthAction::Select));
    assert!(allowed(AuthAction::Read));
    assert!(allowed(AuthAction::Transaction));
    assert!(allowed(AuthAction::Savepoint));
    assert!(allowed(AuthAction::Insert { table_name: "subscription".into() }));
    assert!(allowed(AuthAction::Insert { table_name: "post".into() }));
    assert!(allowed(AuthAction::Delete { table_name: "queue".into() }));
    assert!(!allowed(AuthAction::Delete { table_name: "post".into() }));
    assert!(allowed(AuthAction::Update {
        table_name: "subscription".into(),
        column_name: "digest".into()
    }));
    assert!(!allowed(AuthAction::Update {
        table_name: "subscription".into(),
        column_name: "list".into()
    }));
    assert!(allowed(AuthAction::Update {
        table_name: "account".into(),
        column_name: "password".into()
    }));
    assert!(allowed(AuthAction::Function { function_name: "count".into() }));
    assert!(!allowed(AuthAction::Function { function_name: "load_extension".into() }));
}

#[test]
fn transaction_statements() {
    assert_eq!(TransactionBehavior::default_behavior(), TransactionBehavior::Immediate);
    assert_eq!(TransactionBehavior::Deferred.begin_statement(), "BEGIN DEFERRED");
    assert_eq!(TransactionBehavior::Exclusive.begin_statement(), "BEGIN EXCLUSIVE");
    assert_eq!(DropBehavior::default_behavior(), DropBehavior::Rollback);
    assert_eq!(finish_step(true, DropBehavior::Panic), FinishStep::Nothing);
    assert_eq!(finish_step(false, DropBehavior::Commit), FinishStep::CommitOrRollback);
    assert_eq!(finish_step(false, DropBehavior::Rollback), FinishStep::Rollback);
    assert_eq!(finish_step(false, DropBehavior::Ignore), FinishStep::Ignore);
}

#[test]
fn savepoints_release_once() {
    let mut sp = SavepointState::new(SavepointName::Numbered(3));
    assert_eq!(sp.open_statement(), "SAVEPOINT _3");
    assert_eq!(sp.rollback_statement().as_deref(), Some("ROLLBACK TO SAVEPOINT _3"));
    assert_eq!(sp.commit_statement().as_deref(), Some("RELEASE SAVEPOINT _3"));
    assert_eq!(sp.commit_statement(), None);
    assert_eq!(sp.rollback_statement(), None);

    let mut named = SavepointState::new(SavepointName::Named("import"));
    named.set_drop_behavior(DropBehavior::Commit);
    assert_eq!(named.drop_behavior, DropBehavior::Commit);
    assert_eq!(named.open_statement(), "SAVEPOINT import");
}

#[test]
fn migrations_go_up_and_down() {
    assert_eq!(migration_plan(0, 3, 3), vec![(0, false), (1, false), (2, false)]);
    assert_eq!(migration_plan(3, 1, 3), vec![(2, true), (1, true)]);
    assert_eq!(migration_plan(2, 2, 3), vec![]);
}

#[test]
fn migrating_back_undoes_a_migration() {
    let up = migration_plan(1, 4, 5);
    let down = migration_plan(4, 1, 5);
    assert_eq!(up, vec![(1, false), (2, false), (3, false)]);
    let undone: Vec<(usize, bool)> = up.iter().rev().map(|&(i, u)| (i, !u)).collect();
    assert_eq!(down, undone);
}

#[test]
fn untrusted_connections_can_not_change_lists() {
    assert!(!allowed(AuthAction::Delete { table_name: "list".into() }));
    assert!(!allowed(AuthAction::Update { table_name: "list".into(), column_name: "name".into() }));
    assert!(!allowed(AuthAction::Insert { table_name: "list".into() }));
}
