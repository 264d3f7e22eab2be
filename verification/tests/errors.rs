use mailpot::errors::{Error, ErrorKind};

#[test]
fn error_messages() {
    assert_eq!(Error::generic("plain".to_string()).to_string(), "plain");
    assert_eq!(
        Error::from_kind(ErrorKind::NotFound("list")).to_string(),
        "This list is not present in the database."
    );
    assert_eq!(
        Error::from_kind(ErrorKind::Bug("oops".to_string())).to_string(),
        "An error that shouldn't happen and should be reported: oops."
    );
    assert_eq!(
        Error::new_external("boom".to_string()).to_string(),
        "Error returned from an external user initiated operation such as deserialization or \
         I/O. boom"
    );
    assert_eq!(
        ErrorKind::Sql("no such table".to_string()).message(),
        "Error returned from sqlite3 no such table."
    );
}

#[test]
fn error_chain_display() {
    let inner = Error::from_kind(ErrorKind::Sql("constraint failed".to_string()));
    let outer = inner.chain_err(|| Error::generic("Could not add subscription.".to_string()));
    assert!(matches!(outer.kind(), ErrorKind::Generic(_)));
    assert_eq!(
        outer.display_chain(),
        "[1] Could not add subscription. Caused by:\n[2] Error returned from sqlite3 \
         constraint failed.\n"
    );
    let single = Error::generic("alone".to_string());
    assert_eq!(single.display_chain(), "[1] alone\n");
}

#[test]
fn error_with_source() {
    let e = Error::generic("top".to_string())
        .with_source(Error::generic("middle".to_string()).with_source(Error::generic("bottom".to_string())));
    assert_eq!(e.display_chain(), "[1] top Caused by:\n[2] middle Caused by:\n[3] bottom\n");
}

#[test]
fn every_error_kind_has_its_message() {
    let cases = vec![
        (ErrorKind::PostRejected("x".into()), "Your post has been rejected: x"),
        (ErrorKind::InvalidRequest("x".into()), "Your list request has been found invalid: x."),
        (
            ErrorKind::Information("x".into()),
            "An error happened and it was handled internally: x.",
        ),
        (ErrorKind::SqlLib("x".into()), "Error returned from sqlite3. x"),
        (ErrorKind::Io("x".into()), "Error returned from internal I/O operations. x"),
        (
            ErrorKind::Melib("x".into()),
            "Error returned from e-mail protocol operations from `melib` crate. x",
        ),
        (ErrorKind::SerdeJson("x".into()), "Error from deserializing JSON values. x"),
        (ErrorKind::Template("x".into()), "Error returned from minijinja template engine. x"),
    ];
    for (kind, message) in cases {
        assert_eq!(Error::from_kind(kind).to_string(), message);
    }
}
