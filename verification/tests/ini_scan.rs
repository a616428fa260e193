use uecm::credential_args::CredentialArgs;
use uecm::error::UecmError;
use uecm::ini::IniFinding;
use uecm::ini_scan::{apply_plan, ini_scan_step, require_cred_supplied, MachineScan, ScanItem, ScanTotals};
use uecm::machine::Outcome;

fn finding(action: &str, key: Option<&str>, value: Option<&str>) -> IniFinding {
    IniFinding {
        id: Some(4),
        scan_run_id: 1,
        machine_id: 1,
        rule_id: "R001".into(),
        severity: "warning".into(),
        category: "engine".into(),
        file_path: "f".into(),
        section: Some("S".into()),
        key_name: key.map(|k| k.to_string()),
        line_number: None,
        snippet_before: None,
        snippet_after: None,
        recommended_action: action.into(),
        recommended_value: value.map(|v| v.to_string()),
        symptom: "".into(),
        rationale: "".into(),
        fixed_at: None,
        skipped_at: None,
    }
}

fn alias() -> CredentialArgs {
    CredentialArgs { cred_alias: Some("ops".into()), user: None, pass: None, pass_stdin: false }
}

fn none() -> CredentialArgs {
    CredentialArgs { cred_alias: None, user: None, pass: None, pass_stdin: false }
}

#[test]
fn scan_step_adds_counts_and_prefixes_host() {
    let mut t = ScanTotals::new();
    let scan = MachineScan {
        severities: vec!["critical".into(), "warning".into(), "healthy".into(), "info".into(), "critical".into()],
        read_count: 7,
        errors: vec!["Engine.ini unreadable".into()],
        not_found: vec!["Game.ini".into()],
    };
    match ini_scan_step(&mut t, 1, Some("RENDER-01".into()), Ok(scan)) {
        ScanItem::Done { message } => assert_eq!(message, "critical=2 warning=1 healthy=1 info=1"),
        other => panic!("unexpected {:?}", other),
    }
    assert_eq!((t.critical, t.warning, t.healthy, t.info, t.files_read), (2, 1, 1, 1, 7));
    assert_eq!(t.errors, vec!["RENDER-01: Engine.ini unreadable".to_string()]);
    assert_eq!(t.not_found, vec!["RENDER-01: Game.ini".to_string()]);
}

#[test]
fn scan_step_failures_add_nothing() {
    let mut t = ScanTotals::new();
    match ini_scan_step(&mut t, 9, None, Err(UecmError::PowerShell("x".into()))) {
        ScanItem::Failed { message } => assert_eq!(message, "machine 9 not found"),
        other => panic!("unexpected {:?}", other),
    }
    match ini_scan_step(&mut t, 1, Some("H".into()), Err(UecmError::PowerShell("winrm refused".into()))) {
        ScanItem::Failed { message } => assert_eq!(message, "winrm refused"),
        other => panic!("unexpected {:?}", other),
    }
    assert_eq!((t.critical, t.files_read, t.errors.len()), (0, 0, 0));
}

#[test]
fn apply_dry_run_fails_where_yes_fails() {
    for (yes, dry) in [(true, false), (false, true)] {
        match apply_plan(4, &none(), Some(finding("set", Some("K"), Some("v"))), yes, dry) {
            Err(UecmError::InvalidInput(m)) => assert_eq!(
                m,
                "ini apply requires credentials (--cred-alias or --user --pass / --pass-stdin)"
            ),
            other => panic!("unexpected {:?}", other),
        }
        match apply_plan(4, &alias(), None, yes, dry) {
            Err(UecmError::InvalidInput(m)) => assert_eq!(m, "finding id=4 not found"),
            other => panic!("unexpected {:?}", other),
        }
        match apply_plan(4, &alias(), Some(finding("manual", None, None)), yes, dry) {
            Err(UecmError::InvalidInput(m)) => {
                assert_eq!(m, "manual findings cannot be auto-applied; open the file directly")
            }
            other => panic!("unexpected {:?}", other),
        }
        let plan = apply_plan(4, &alias(), Some(finding("set", Some("K"), Some("v"))), yes, dry).unwrap();
        assert_eq!(plan.outcome, if dry { Outcome::DryRun } else { Outcome::Proceed });
    }
    assert!(apply_plan(4, &alias(), None, false, false).is_err());
}

#[test]
fn credential_flags_are_checked_without_reading_stdin() {
    assert!(require_cred_supplied(&alias(), "ini remove").is_ok());
    let stdin = CredentialArgs { cred_alias: None, user: Some("u".into()), pass: None, pass_stdin: true };
    assert!(require_cred_supplied(&stdin, "ini remove").is_ok());
    match require_cred_supplied(&none(), "ini remove") {
        Err(UecmError::InvalidInput(m)) => {
            assert_eq!(m, "ini remove requires credentials (--cred-alias or --user --pass / --pass-stdin)")
        }
        other => panic!("unexpected {:?}", other),
    }
}
