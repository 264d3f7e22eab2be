use mailpot::script::{validate, ErrorKind, ScriptEngine};

#[test]
fn scripts_are_validated_by_running_them() {
    assert!(validate("let x = 1 + 2;", ScriptEngine::Rhai).is_ok());
    let err = validate("let x = ;", ScriptEngine::POSIXShell).unwrap_err();
    assert_eq!(err.engine, ScriptEngine::Rhai);
    assert_eq!(err.kind, ErrorKind::Other);
    assert!(!err.message.is_empty());
    assert_eq!(ScriptEngine::default_engine(), ScriptEngine::Rhai);
}
