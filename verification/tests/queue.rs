use mailpot::cli::{
    available_settings,
    MessageFilterSettingName, MessageFilterSettingNameValueParser, QueueValueParser,
    ValueParseError,
};
use mailpot::queue::Queue;

#[test]
fn queue_names_round_trip() {
    for q in [Queue::Maildrop, Queue::Hold, Queue::Deferred, Queue::Corrupt, Queue::Out, Queue::Error] {
        assert_eq!(Queue::from_name(q.as_str()), Some(q));
    }
    assert_eq!(Queue::Out.as_str(), "out");
    assert_eq!(Queue::Maildrop.as_str(), "maildrop");
    assert_eq!(Queue::from_name("outbox"), None);
}

#[test]
fn queue_value_parser() {
    let p = QueueValueParser::new();
    assert_eq!(p.parse_value("deferred").ok(), Some(Queue::Deferred));
    assert!(matches!(p.parse_value(""), Err(ValueParseError::Missing)));
    match p.parse_value("nowhere") {
        Err(ValueParseError::Invalid(m)) => assert_eq!(m, "Unrecognized value: nowhere"),
        other => panic!("unexpected {other:?}"),
    }
}

#[test]
fn message_filter_setting_names() {
    assert_eq!(
        MessageFilterSettingName::from_str_name("mimerejectsettings"),
        Ok(MessageFilterSettingName::MimeRejectSettings)
    );
    assert_eq!(
        MessageFilterSettingName::from_str_name("ARCHIVEDATLINKSETTINGS"),
        Ok(MessageFilterSettingName::ArchivedAtLinkSettings)
    );
    assert_eq!(
        MessageFilterSettingName::from_str_name("nope"),
        Err("Unrecognized value: nope".to_string())
    );
    for n in [
        MessageFilterSettingName::AddSubjectTagPrefixSettings,
        MessageFilterSettingName::MimeRejectSettings,
        MessageFilterSettingName::ArchivedAtLinkSettings,
    ] {
        assert_eq!(MessageFilterSettingName::from_str_name(n.as_str()), Ok(n));
    }
    let p = MessageFilterSettingNameValueParser::new();
    assert_eq!(
        p.possible_values(),
        vec!["AddSubjectTagPrefixSettings", "MimeRejectSettings", "ArchivedAtLinkSettings"]
    );
    assert_eq!(
        p.parse_value("AddSubjectTagPrefixSettings").ok(),
        Some(MessageFilterSettingName::AddSubjectTagPrefixSettings)
    );
    assert!(matches!(p.parse_value(""), Err(ValueParseError::Missing)));
}

#[test]
fn queue_values_from_raw_arguments() {
    let p = QueueValueParser::new();
    assert!(matches!(p.parse(b""), Err(ValueParseError::Missing)));
    assert_eq!(p.parse(b"hold").ok(), Some(Queue::Hold));
    match p.parse(b"\xff\xfe") {
        Err(ValueParseError::Invalid(m)) => assert_eq!(m, "Queue value is not an UTF-8 string"),
        other => panic!("unexpected {other:?}"),
    }
    match p.parse("nowhere".as_bytes()) {
        Err(ValueParseError::Invalid(m)) => assert_eq!(m, "Unrecognized value: nowhere"),
        other => panic!("unexpected {other:?}"),
    }
}

#[test]
fn setting_names_from_raw_arguments() {
    let p = MessageFilterSettingNameValueParser::new();
    assert!(matches!(p.parse(b""), Err(ValueParseError::Missing)));
    assert_eq!(
        p.parse(b"mimerejectsettings").ok(),
        Some(MessageFilterSettingName::MimeRejectSettings)
    );
    match p.parse(b"\xc3") {
        Err(ValueParseError::Invalid(m)) => {
            assert_eq!(m, "Message filter setting name value is not an UTF-8 string")
        }
        other => panic!("unexpected {other:?}"),
    }
}

#[test]
fn available_settings_sorted_and_filtered() {
    assert_eq!(
        available_settings(None).join("\n"),
        "AddSubjectTagPrefixSettings\nArchivedAtLinkSettings\nMimeRejectSettings"
    );
    assert_eq!(available_settings(Some("archivedatlinksettings")), vec!["ArchivedAtLinkSettings"]);
    assert!(available_settings(Some("archived")).is_empty());
}
