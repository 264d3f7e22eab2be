use mailpot::migrations::{check_migrations, make_migrations, MigrationError};

fn files(v: &[(&str, &str)]) -> Vec<(String, String)> {
    v.iter().map(|(a, b)| (a.to_string(), b.to_string())).collect()
}

#[test]
fn migration_table_and_data_schema() {
    let redo = files(&[("001", "CREATE TABLE a(x);\n"), ("002.data", "INSERT INTO a VALUES (1);\n")]);
    let undo = files(&[("001.undo.sql", "  DROP TABLE a;\n"), ("002.data.undo.sql", "DELETE FROM a;")]);
    let mut schema = b"-- schema".to_vec();
    assert_eq!(check_migrations(&redo, &undo), None);
    let table = make_migrations(&redo, &undo, &mut schema);
    assert_eq!(
        table,
        "\n//(user_version, redo sql, undo sql\n&[\
         (1,r###\"CREATE TABLE a(x);\"###,r###\"DROP TABLE a;\"###),\
         (2,r###\"INSERT INTO a VALUES (1);\"###,r###\"DELETE FROM a;\"###),]"
    );
    assert_eq!(
        String::from_utf8(schema).unwrap(),
        "-- schema\n\n-- 002.data.sql\n\nINSERT INTO a VALUES (1);\n"
    );
}

#[test]
fn no_migrations_make_an_empty_table() {
    let mut schema = vec![];
    let table = make_migrations(&vec![], &vec![], &mut schema);
    assert_eq!(table, "\n//(user_version, redo sql, undo sql\n&[]");
    assert!(schema.is_empty());
}

#[test]
fn migrations_are_paired_as_far_as_both_go() {
    let redo = files(&[("001", "a"), ("002", "b")]);
    let undo = files(&[("001.undo.sql", "c")]);
    let mut schema = vec![];
    assert_eq!(check_migrations(&redo, &undo), None);
    let table = make_migrations(&redo, &undo, &mut schema);
    assert_eq!(table, "\n//(user_version, redo sql, undo sql\n&[(1,r###\"a\"###,r###\"c\"###),]");
}

#[test]
fn migration_numbering_errors() {
    let undo = files(&[("001.undo.sql", "x"), ("002.undo.sql", "y")]);
    let redo = files(&[("001", "a"), ("003", "b")]);
    assert_eq!(check_migrations(&redo, &undo), Some(MigrationError::UndoMismatch(1)));
    let undo2 = files(&[("abc.undo.sql", "x")]);
    let redo2 = files(&[("abc", "a")]);
    assert_eq!(check_migrations(&redo2, &undo2), Some(MigrationError::NotANumber(0)));
    let undo3 = files(&[("002.undo.sql", "x")]);
    let redo3 = files(&[("002", "a")]);
    assert_eq!(check_migrations(&redo3, &undo3), Some(MigrationError::OutOfSequence(0)));
    let redo4 = files(&[("001.data", "a"), ("x2", "b")]);
    let undo4 = files(&[("001.undo.sql", "x"), ("x2.undo.sql", "y")]);
    assert_eq!(check_migrations(&redo4, &undo4), Some(MigrationError::NotANumber(1)));
    assert_eq!(check_migrations(&vec![], &vec![]), None);
}
