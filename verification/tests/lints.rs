use mailpot::lints::{
    corrected_date, date_needs_repair, failures_summary, fallback_timestamp, lint_summary,
    post_date_needs_repair, repair_plan, Lint, RepairConfig,
};

fn none() -> RepairConfig {
    RepairConfig {
        datetime_header_value: false,
        remove_empty_accounts: false,
        remove_accepted_subscription_requests: false,
        warn_list_no_owner: false,
        fix_message_ids: false,
    }
}

#[test]
fn repair_needs_a_lint() {
    assert_eq!(
        repair_plan(false, none()),
        Err("No lints selected: specify them with flag arguments. See --help".to_string())
    );
    let mut c = none();
    c.warn_list_no_owner = true;
    c.datetime_header_value = true;
    assert_eq!(
        repair_plan(false, c),
        Ok(vec![Lint::DatetimeHeaderValue, Lint::WarnListNoOwner])
    );
    let all = repair_plan(true, none()).unwrap();
    let names: Vec<&str> = all.iter().map(|l| l.name()).collect();
    assert_eq!(
        names,
        vec![
            "datetime_header_value",
            "remove_empty_accounts",
            "remove_accepted_subscription_requests",
            "warn_list_no_owner",
            "fix_message_ids"
        ]
    );
}

#[test]
fn lint_report_lines() {
    assert_eq!(lint_summary("warn_list_no_owner", 0), "warn_list_no_owner: ok");
    assert_eq!(
        lint_summary("remove_empty_accounts", 3),
        "remove_empty_accounts: found 3 entries"
    );
    assert_eq!(failures_summary(1), "datetime_header_value: 1 failure");
    assert_eq!(failures_summary(2), "datetime_header_value: 2 failures");
    assert_eq!(failures_summary(0), "datetime_header_value: 0 failures");
}

#[test]
fn post_fallback_moments() {
    assert_eq!(fallback_timestamp(100, 200), Some(100));
    assert_eq!(fallback_timestamp(300, 200), Some(200));
    assert_eq!(fallback_timestamp(0, 200), Some(200));
    assert_eq!(fallback_timestamp(0, 0), None);
    assert_eq!(fallback_timestamp(-5, 200), None);
}

#[test]
fn dates_that_need_repair() {
    assert!(date_needs_repair(None));
    assert!(date_needs_repair(Some(0)));
    assert!(!date_needs_repair(Some(1_600_000_000)));
    assert!(post_date_needs_repair("2023-06-22T10:00:00+00:00"));
    assert!(!post_date_needs_repair("  Thu, 22 Jun 2023 10:00:00 +0000  "));
}

#[test]
fn corrected_dates() {
    assert_eq!(
        corrected_date("2023-06-22T10:00:00+00:00", Some(5), b"").as_deref(),
        Some("Thu, 22 Jun 2023 10:00:00 +0000")
    );
    assert!(corrected_date("garbage", Some(1_600_000_000), b"").is_some());
    let message = b"Date: Mon, 3 Jul 2023 12:00:00 +0000\r\nFrom: a@example.com\r\n\r\nbody\r\n";
    assert_eq!(
        corrected_date("garbage", None, message).as_deref(),
        Some("Mon, 3 Jul 2023 12:00:00 +0000")
    );
}

#[test]
fn dates_with_a_nul_character_need_repair() {
    assert!(post_date_needs_repair("Thu, 22 Jun 2023\0 10:00:00 +0000"));
    assert!(post_date_needs_repair(" \0 "));
}
