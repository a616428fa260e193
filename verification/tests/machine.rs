use uecm::error::UecmError;
use uecm::machine::{
    add_machine, authorize_decision, delete_machine, destructive_check, parse_version, primary_index,
    record_probe, resolve_target_ids, authorize_credentials, AuthorizeEvent, AuthorizeStep,
    AuthorizeSummary, DeepScanEvent, DeepScanSummary, DeepScanVerdict, Outcome, ProbeAnswer,
};
use uecm::credential_args::CredentialArgs;
use uecm::store::{Db, Machine};

#[test]
fn authorize_decision_maps_verdict() {
    assert_eq!(authorize_decision("viable"), AuthorizeStep::Bootstrap);
    assert_eq!(authorize_decision("likely_viable"), AuthorizeStep::Bootstrap);
    assert_eq!(authorize_decision("blocked"), AuthorizeStep::UsbFallback);
    assert_eq!(authorize_decision("uncertain"), AuthorizeStep::UsbFallback);
    assert_eq!(authorize_decision("anything-else"), AuthorizeStep::UsbFallback);
}

#[test]
fn add_is_idempotent_by_ip() {
    let mut db = Db::new();
    let first = add_machine(&mut db, "10.0.0.1", Some("test-host".into())).unwrap();
    assert!(!first.already_present);
    assert_eq!(first.id, 1);
    assert_eq!(first.hostname, "test-host");
    let again = add_machine(&mut db, "10.0.0.1", None).unwrap();
    assert!(again.already_present);
    assert_eq!(again.id, first.id);
    assert_eq!(again.hostname, "test-host");
    assert_eq!(db.list_machines().len(), 1);
    let other = add_machine(&mut db, "10.0.0.2", None).unwrap();
    assert_eq!(other.id, 2);
    assert_eq!(other.hostname, "10.0.0.2");
}

#[test]
fn delete_without_yes_flag_returns_invalid_input() {
    let mut db = Db::new();
    let result = delete_machine(&mut db, 1, false, false);
    match result {
        Err(UecmError::InvalidInput(msg)) => assert!(msg.contains("destructive")),
        other => panic!("expected InvalidInput error, got {:?}", other),
    }
}

#[test]
fn delete_dry_run_keeps_the_row_and_yes_removes_it() {
    let mut db = Db::new();
    add_machine(&mut db, "10.0.0.1", None).unwrap();
    let dry = delete_machine(&mut db, 1, false, true).unwrap();
    assert!(!dry.deleted);
    assert!(db.find_machine(1).is_some());
    let done = delete_machine(&mut db, 1, true, false).unwrap();
    assert!(done.deleted);
    assert!(db.find_machine(1).is_none());
    assert!(matches!(delete_machine(&mut db, 1, true, false), Err(UecmError::InvalidInput(_))));
}

#[test]
fn destructive_gate_prefers_dry_run() {
    assert_eq!(destructive_check(true, true, "x").unwrap(), Outcome::DryRun);
    assert_eq!(destructive_check(true, false, "x").unwrap(), Outcome::Proceed);
    assert!(destructive_check(false, false, "x").is_err());
}

#[test]
fn target_ids_need_a_selector() {
    let mut db = Db::new();
    add_machine(&mut db, "10.0.0.1", None).unwrap();
    add_machine(&mut db, "10.0.0.2", None).unwrap();
    assert!(matches!(resolve_target_ids(&db, &vec![], false), Err(UecmError::InvalidInput(_))));
    assert_eq!(resolve_target_ids(&db, &vec![], true).unwrap(), vec![1, 2]);
    assert_eq!(resolve_target_ids(&db, &vec![5, 3], false).unwrap(), vec![5, 3]);
}

#[test]
fn primary_install_is_numerically_newest() {
    assert_eq!(parse_version("5.10"), (5, 10));
    assert_eq!(parse_version("4.27.2"), (4, 27));
    assert_eq!(parse_version("x"), (0, 0));
    let v: Vec<String> = vec!["4.27".into(), "5.10".into(), "5.9".into()];
    assert_eq!(primary_index(&v), Some(1));
    let ties: Vec<String> = vec!["5.3".into(), "5.3".into()];
    assert_eq!(primary_index(&ties), Some(1));
    assert_eq!(primary_index(&vec![]), None);
}

#[test]
fn refresh_probe_marks_online_or_offline() {
    let mut db = Db::new();
    let id = db.insert_machine(&Machine::new("render-01", "10.1.0.5")).unwrap();
    assert!(record_probe(&mut db, id, Ok(ProbeAnswer { ok: true, message: String::new() })).is_ok());
    assert_eq!(db.find_machine(id).unwrap().status.as_deref(), Some("online"));
    match record_probe(&mut db, id, Ok(ProbeAnswer { ok: false, message: "access denied".into() })) {
        Err(UecmError::PowerShell(m)) => assert_eq!(m, "winrm probe failed: access denied"),
        other => panic!("unexpected: {:?}", other),
    }
    assert_eq!(db.find_machine(id).unwrap().status.as_deref(), Some("offline"));
    assert!(record_probe(&mut db, id, Ok(ProbeAnswer { ok: true, message: String::new() })).is_ok());
    match record_probe(&mut db, id, Err(UecmError::Io("no answer".into()))) {
        Err(UecmError::Io(m)) => assert_eq!(m, "no answer"),
        other => panic!("unexpected: {:?}", other),
    }
    assert_eq!(db.find_machine(id).unwrap().status.as_deref(), Some("offline"));
}

fn resolved_creds(db: &Db, cred: &CredentialArgs) -> Option<(String, String)> {
    cred.resolve_plan(db).unwrap().complete(Ok(String::new())).unwrap()
}

#[test]
fn machine_round_trip_via_handlers() {
    let mut db = Db::new();
    // add
    let out = add_machine(&mut db, "10.0.0.1", Some("test-host".to_string())).expect("add should succeed");
    assert_eq!(out.id, 1);
    // list
    assert_eq!(db.list_machines().len(), 1);
    // detail
    assert!(db.find_machine(1).is_some(), "detail should load it");
    // rename
    db.rename_machine(1, "renamed-host");
    assert_eq!(db.find_machine(1).unwrap().hostname, "renamed-host");
    // delete
    delete_machine(&mut db, 1, true, false).expect("delete should succeed");
    assert!(db.find_machine(1).is_none());
}

#[test]
fn deep_scan_skips_winrm_unreachable_and_completes_batch() {
    let mut db = Db::new();
    add_machine(&mut db, "10.0.0.1", Some("m1".to_string())).unwrap();
    add_machine(&mut db, "10.0.0.2", Some("m2".to_string())).unwrap();
    let cred = CredentialArgs::inline(None);
    assert!(resolved_creds(&db, &cred).is_none());
    let ids = resolve_target_ids(&db, &vec![1, 2], false).unwrap();
    // No WinRM answers here: both machines are skipped, the batch completes.
    let mut summary = DeepScanSummary::new(ids.len());
    for id in &ids {
        assert!(db.find_machine(*id).is_some());
        match summary.record(*id, DeepScanEvent::Unreachable) {
            DeepScanVerdict::Skipped { reason, hint } => {
                assert_eq!(reason, "WinRM unreachable");
                assert_eq!(hint, "run `uecm-cli machine authorize` to open WinRM first");
            }
            other => panic!("unexpected: {:?}", other),
        }
    }
    assert_eq!((summary.machines, summary.scanned.len(), summary.skipped, summary.failed), (2, 0, 2, 0));
}

#[test]
fn deep_scan_nonexistent_id_is_failed_not_skipped_and_batch_continues() {
    let db = Db::new();
    let ids = resolve_target_ids(&db, &vec![999], false).unwrap();
    let mut summary = DeepScanSummary::new(ids.len());
    for id in &ids {
        assert!(db.find_machine(*id).is_none());
        match summary.record(*id, DeepScanEvent::MachineMissing) {
            DeepScanVerdict::Failed { step, error } => {
                assert_eq!(step, "deep_scan");
                assert_eq!(error, "machine not found");
            }
            other => panic!("unexpected: {:?}", other),
        }
    }
    assert_eq!((summary.scanned.len(), summary.skipped, summary.failed), (0, 0, 1));
}

#[test]
fn deep_scan_tally_of_a_mixed_batch() {
    let mut summary = DeepScanSummary::new(4);
    summary.record(1, DeepScanEvent::Refreshed);
    summary.record(2, DeepScanEvent::Unreachable);
    match summary.record(3, DeepScanEvent::RefreshFailed("timeout".into())) {
        DeepScanVerdict::Failed { step, error } => {
            assert_eq!(step, "refresh");
            assert_eq!(error, "WinRM reachable but refresh failed: timeout");
        }
        other => panic!("unexpected: {:?}", other),
    }
    summary.record(4, DeepScanEvent::Refreshed);
    assert_eq!(summary.scanned, vec![1, 4]);
    assert_eq!((summary.skipped, summary.failed), (1, 1));
}

#[test]
fn authorize_requires_credentials() {
    let mut db = Db::new();
    add_machine(&mut db, "10.0.0.1", Some("m1".to_string())).unwrap();
    let cred = CredentialArgs::inline(None);
    let res = authorize_credentials(resolved_creds(&db, &cred));
    assert!(matches!(res, Err(UecmError::InvalidInput(_))));
    match res {
        Err(UecmError::InvalidInput(m)) => assert_eq!(
            m,
            "machine authorize requires credentials (--cred-alias or --user/--pass-stdin)"
        ),
        _ => unreachable!(),
    }
}

#[test]
fn authorize_tally_counts_each_ending() {
    let mut t = AuthorizeSummary::new(6);
    t.record(&AuthorizeEvent::Bootstrapped { ok: true, message: "done".into() });
    t.record(&AuthorizeEvent::Bootstrapped { ok: false, message: "denied".into() });
    t.record(&AuthorizeEvent::UsbFallback);
    t.record(&AuthorizeEvent::MachineMissing);
    t.record(&AuthorizeEvent::PreflightFailed("x".into()));
    t.record(&AuthorizeEvent::BootstrapFailed("y".into()));
    assert_eq!((t.machines, t.authorized, t.usb_fallback, t.failed), (6, 1, 1, 4));
}

#[test]
fn deep_scan_requires_a_selector() {
    let db = Db::new();
    let res = resolve_target_ids(&db, &vec![], false);
    assert!(res.is_err(), "no --machine-ids and no --all must error");
}
