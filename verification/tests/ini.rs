use uecm::args::HostArgs;
use uecm::error::UecmError;
use uecm::ini::{
    batch_outcome, filter_by_severity, ini_set_plan, redact_error, redact_in_string,
    require_credentials, require_machine_ids, require_one,
    validate_apply, value_sha256_prefix, HostTarget, IniFinding,
};

#[test]
fn sha256_prefix_is_first_four_bytes_in_hex() {
    // SHA-256("") = e3b0c442...
    assert_eq!(value_sha256_prefix(""), "e3b0c442");
    // SHA-256("abc") = ba7816bf...
    assert_eq!(value_sha256_prefix("abc"), "ba7816bf");
}

#[test]
fn redaction_replaces_every_occurrence() {
    let m = redact_in_string("set K=v failed: v".to_string(), "v");
    assert_eq!(m, "set K=[REDACTED:value] failed: [REDACTED:value]");
    assert_eq!(redact_in_string("nothing here".to_string(), ""), "nothing here");
    let e = redact_error(UecmError::PowerShell("bad SECRET".into()), "SECRET");
    match e {
        UecmError::PowerShell(m) => assert_eq!(m, "bad [REDACTED:value]"),
        other => panic!("unexpected {:?}", other),
    }
    let kept = redact_error(UecmError::InvalidInput("SECRET".into()), "SECRET");
    assert!(matches!(kept, UecmError::InvalidInput(m) if m == "SECRET"));
}

#[test]
fn dry_run_plan_never_carries_the_value() {
    let secret = "INI-SECRET-NEVER-LEAK-VALUE";
    let plan = ini_set_plan(&HostTarget::Batch(vec!["192.0.2.1".into()]), "C:\\test.ini", "S", "K", secret);
    assert_eq!(plan.hosts, vec!["192.0.2.1".to_string()]);
    assert_eq!(plan.value_len, secret.chars().count());
    assert_eq!(plan.value_sha256_prefix.len(), 8);
    assert!(!plan.value_sha256_prefix.contains(secret));
}

#[test]
fn exactly_one_target_is_required() {
    let single = HostArgs { host: Some("h".into()), hosts: None };
    assert!(matches!(require_one(&single), Ok(HostTarget::Single(h)) if h == "h"));
    let none = HostArgs { host: None, hosts: None };
    assert!(matches!(require_one(&none), Err(UecmError::InvalidInput(_))));
}

fn finding(action: &str, rule: &str, key: Option<&str>, value: Option<&str>) -> IniFinding {
    IniFinding {
        id: Some(1),
        scan_run_id: 1,
        machine_id: 1,
        rule_id: rule.into(),
        severity: "Warning".into(),
        category: "engine".into(),
        file_path: "f".into(),
        section: Some("S".into()),
        key_name: key.map(|k| k.to_string()),
        line_number: None,
        snippet_before: None,
        snippet_after: None,
        recommended_action: action.into(),
        recommended_value: value.map(|v| v.to_string()),
        symptom: "".into(),
        rationale: "".into(),
        fixed_at: None,
        skipped_at: None,
    }
}

#[test]
fn apply_validation_matches_the_real_run() {
    assert!(validate_apply(&finding("set", "R001", Some("K"), Some("v"))).is_ok());
    assert!(validate_apply(&finding("set", "R001", Some("K"), None)).is_err());
    assert!(validate_apply(&finding("remove", "R002", None, None)).is_ok());
    assert!(validate_apply(&finding("remove", "R003", None, None)).is_err());
    match validate_apply(&finding("frobnicate", "R001", None, None)) {
        Err(UecmError::InvalidInput(m)) => assert_eq!(m, "unknown action: frobnicate"),
        other => panic!("unexpected {:?}", other),
    }
    assert!(validate_apply(&finding("manual", "R001", None, None)).is_err());
}

#[test]
fn severity_filter_ignores_ascii_case() {
    let fs = vec![finding("set", "R1", None, None), finding("set", "R2", None, None)];
    assert_eq!(filter_by_severity(fs.clone(), Some("warning")).len(), 2);
    assert_eq!(filter_by_severity(fs.clone(), Some("critical")).len(), 0);
    assert_eq!(filter_by_severity(fs, None).len(), 2);
}

#[test]
fn batch_fails_when_any_host_failed() {
    assert!(batch_outcome(0, 3, "ini set").is_ok());
    match batch_outcome(1, 3, "ini set") {
        Err(UecmError::OperationFailed(m)) => assert_eq!(m, "1/3 hosts failed ini set"),
        other => panic!("unexpected {:?}", other),
    }
}

#[test]
fn redacted_message_never_contains_a_value_foreign_to_the_marker() {
    let value = "xyz123";
    let out = redact_in_string(format!("token {} ok {}{}", value, value, value), value);
    assert!(!out.contains(value));
    assert_eq!(out, "token [REDACTED:value] ok [REDACTED:value][REDACTED:value]");
}

#[test]
fn severities_are_tallied_with_unknown_ones_as_info() {
    let sev: Vec<String> = ["critical", "warning", "healthy", "info", "weird", "critical"]
        .iter()
        .map(|s| s.to_string())
        .collect();
    let c = uecm::ini::tally_severities(&sev);
    assert_eq!((c.critical, c.warning, c.healthy, c.info), (2, 1, 1, 2));
}

#[test]
fn operations_without_credentials_are_refused_by_name() {
    match require_credentials(None, "ini remove --hosts") {
        Err(UecmError::InvalidInput(m)) => assert_eq!(
            m,
            "ini remove --hosts requires credentials (--cred-alias or --user --pass / --pass-stdin)"
        ),
        other => panic!("unexpected: {:?}", other),
    }
    let pair = require_credentials(Some(("u".to_string(), "p".to_string())), "ini scan").unwrap();
    assert_eq!(pair, ("u".to_string(), "p".to_string()));
}

#[test]
fn cluster_scan_needs_machine_ids() {
    match require_machine_ids(&vec![]) {
        Err(UecmError::InvalidInput(m)) => assert_eq!(m, "--machine-ids must not be empty"),
        other => panic!("unexpected: {:?}", other),
    }
    assert!(require_machine_ids(&vec![3]).is_ok());
}

#[test]
fn remove_single_without_creds_returns_invalid_input() {
    let db = uecm::store::Db::new();
    let cred = uecm::credential_args::CredentialArgs { cred_alias: None, user: None, pass: None, pass_stdin: false };
    let creds = cred.resolve_plan(&db).unwrap().complete(Ok(String::new())).unwrap();
    let r = require_credentials(creds, "ini remove");
    assert!(matches!(r, Err(UecmError::InvalidInput(_))));
}
