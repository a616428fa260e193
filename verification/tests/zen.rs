use uecm::error::UecmError;
use uecm::store::{Db, Machine, ZenBinaryExpected, ZenEndpoint, ZenProbe};
use uecm::credential_args::CredentialArgs;
use uecm::machine::Outcome;
use uecm::zen::{
    baseline_lock, baseline_unlock, probe_outcome, probe_report, resolve_endpoints, resolve_host,
    validate_kind, zen_baseline_list, zen_baseline_lock, zen_baseline_unlock, zen_list_endpoints,
    zen_register, zen_status, KIND_ZENSERVER, KIND_ZEN_CLI,
};

fn fresh_db() -> Db {
    Db::new()
}

fn seed_endpoint(db: &mut Db, hostname: &str, ip: &str, port: i64) -> (i64, i64) {
    let machine_id = db.insert_machine(&Machine::new(hostname, ip)).unwrap();
    let endpoint_id = db
        .upsert_endpoint(&ZenEndpoint {
            id: None,
            machine_id,
            declared_port: port,
            scheme: "http".into(),
            role: "primary".into(),
            upstream_endpoint_id: None,
            data_dir: "C:\\ZenData".into(),
            httpserverclass: "asio".into(),
            lifecycle_mode: "managed".into(),
            created_at: None,
            updated_at: None,
        })
        .unwrap();
    (machine_id, endpoint_id)
}

fn seed_baseline(db: &mut Db, version: &str, kind: &str, sha: &str) {
    db.insert_baseline(&ZenBinaryExpected {
        zen_build_version: version.into(),
        binary_kind: kind.into(),
        sha256: sha.into(),
        locked_by: None,
        first_seen_at: None,
    })
    .unwrap();
}

#[test]
fn status_on_empty_db_returns_empty() {
    let db = fresh_db();
    let rows = resolve_endpoints(&db, None, None).unwrap();
    assert!(rows.is_empty());
}

#[test]
fn baseline_lock_unlock_roundtrip() {
    let mut db = fresh_db();
    seed_baseline(&mut db, "5.8.10-aaa", KIND_ZEN_CLI, "sha");

    let before = db.find_baseline("5.8.10-aaa", KIND_ZEN_CLI).unwrap();
    assert!(before.locked_by.is_none());

    db.lock_baseline("5.8.10-aaa", KIND_ZEN_CLI, "op1");
    let locked = db.find_baseline("5.8.10-aaa", KIND_ZEN_CLI).unwrap();
    assert_eq!(locked.locked_by.as_deref(), Some("op1"));

    db.unlock_baseline("5.8.10-aaa", KIND_ZEN_CLI);
    let unlocked = db.find_baseline("5.8.10-aaa", KIND_ZEN_CLI).unwrap();
    assert!(unlocked.locked_by.is_none());
}

#[test]
fn zen_baseline_lock_rejects_missing_row() {
    let db = fresh_db();
    let kind = KIND_ZEN_CLI;
    validate_kind(kind).unwrap();
    assert!(db.find_baseline("nope-version", kind).is_none(), "precondition: row absent");
}

#[test]
fn zen_baseline_rejects_bad_kind() {
    let err = validate_kind("bogus").unwrap_err();
    match err {
        UecmError::InvalidInput(msg) => assert!(msg.contains("invalid binary kind")),
        other => panic!("expected InvalidInput, got {:?}", other),
    }
}

#[test]
fn resolve_endpoints_unknown_machine_errors() {
    let db = fresh_db();
    let err = resolve_endpoints(&db, Some(9999), None).unwrap_err();
    assert!(matches!(err, UecmError::InvalidInput(_)));
}

#[test]
fn resolve_endpoints_unknown_endpoint_errors() {
    let db = fresh_db();
    let err = resolve_endpoints(&db, None, Some(9999)).unwrap_err();
    assert!(matches!(err, UecmError::InvalidInput(_)));
}

#[test]
fn detect_binary_unknown_cred_alias_errors() {
    let db = fresh_db();
    let result = db.find_credential("UECM:winrm:NOPE");
    assert!(result.is_none());
}

#[test]
fn status_shape_with_seeded_endpoint_and_no_probe() {
    let mut db = fresh_db();
    let (machine_id, endpoint_id) = seed_endpoint(&mut db, "ZEN-1", "10.0.0.10", 8558);
    let endpoints = resolve_endpoints(&db, None, None).unwrap();
    assert_eq!(endpoints.len(), 1);
    assert!(db.list_recent_probes(endpoint_id, 1).is_empty(), "no probe rows yet for fresh seed");
    let host = resolve_host(&db, machine_id).unwrap();
    assert_eq!(host.as_deref(), Some("10.0.0.10"));
    let rows = zen_status(&db, None).unwrap();
    assert_eq!(rows.len(), 1);
    assert_eq!(rows[0].hostname, "ZEN-1");
    assert_eq!(rows[0].reachable, None);
}

#[test]
fn status_reports_the_newest_probe() {
    let mut db = fresh_db();
    let (_m, eid) = seed_endpoint(&mut db, "ZEN-1", "10.0.0.10", 8558);
    for (reachable, version) in [(false, "old"), (true, "new")] {
        db.insert_probe(&ZenProbe {
            id: None,
            endpoint_id: eid,
            reachable,
            effective_port: Some(8558),
            build_version: Some(version.into()),
            error_message: None,
            probed_at: None,
        })
        .unwrap();
    }
    let rows = zen_status(&db, None).unwrap();
    assert_eq!(rows[0].reachable, Some(true));
    assert_eq!(rows[0].build_version.as_deref(), Some("new"));
    assert_eq!(db.list_recent_probes(eid, -1).len(), 2);
}

#[test]
fn endpoints_filtered_by_machine_and_upsert_is_idempotent() {
    let mut db = fresh_db();
    let (m1, e1) = seed_endpoint(&mut db, "ZEN-1", "10.0.0.10", 8558);
    let (_m2, _) = seed_endpoint(&mut db, "ZEN-2", "10.0.0.11", 8558);
    assert_eq!(zen_list_endpoints(&db, Some(m1)).len(), 1);
    assert_eq!(zen_list_endpoints(&db, None).len(), 2);
    let again = db
        .upsert_endpoint(&ZenEndpoint {
            id: None,
            machine_id: m1,
            declared_port: 8558,
            scheme: "http".into(),
            role: "shared_upstream".into(),
            upstream_endpoint_id: None,
            data_dir: "D:\\Z".into(),
            httpserverclass: "asio".into(),
            lifecycle_mode: "installed_service".into(),
            created_at: None,
            updated_at: None,
        })
        .unwrap();
    assert_eq!(again, e1);
    assert_eq!(zen_list_endpoints(&db, None).len(), 2);
}

#[test]
fn baseline_list_filters_and_lock_checks() {
    let mut db = fresh_db();
    seed_baseline(&mut db, "5.8.10-aaa", KIND_ZEN_CLI, "sha-cli-aaa");
    seed_baseline(&mut db, "5.8.10-aaa", KIND_ZENSERVER, "sha-srv-aaa");
    seed_baseline(&mut db, "5.7.6-bbb", KIND_ZEN_CLI, "sha-cli-bbb");
    assert_eq!(zen_baseline_list(&db, None, None).unwrap().len(), 3);
    let rows = zen_baseline_list(&db, Some("5.8.10-aaa".into()), Some(KIND_ZEN_CLI.into())).unwrap();
    assert_eq!(rows.len(), 1);
    assert_eq!(rows[0].sha256, "sha-cli-aaa");
    assert!(zen_baseline_list(&db, None, Some("bogus".into())).is_err());
    match zen_baseline_lock(&mut db, "nope-version", KIND_ZEN_CLI, "op1") {
        Err(UecmError::InvalidInput(m)) => assert!(m.contains("no baseline row")),
        other => panic!("unexpected {:?}", other),
    }
    zen_baseline_lock(&mut db, "5.7.6-bbb", KIND_ZEN_CLI, "op1").unwrap();
    assert_eq!(db.find_baseline("5.7.6-bbb", KIND_ZEN_CLI).unwrap().locked_by.as_deref(), Some("op1"));
    assert!(db.find_baseline("5.8.10-aaa", KIND_ZEN_CLI).unwrap().locked_by.is_none());
    zen_baseline_unlock(&mut db, "5.7.6-bbb", KIND_ZEN_CLI).unwrap();
    assert!(db.find_baseline("5.7.6-bbb", KIND_ZEN_CLI).unwrap().locked_by.is_none());
}

#[test]
fn probe_outcome_distinguishes_partial_and_total_failure() {
    assert!(probe_outcome(2, 0, 2).is_ok());
    match probe_outcome(1, 1, 2) {
        Err(UecmError::OperationFailed(m)) => assert_eq!(m, "1/2 endpoints unreachable"),
        other => panic!("unexpected {:?}", other),
    }
    match probe_outcome(0, 3, 3) {
        Err(UecmError::OperationFailed(m)) => assert_eq!(m, "all 3 endpoints unreachable"),
        other => panic!("unexpected {:?}", other),
    }
    assert!(probe_outcome(0, 0, 0).is_ok());
    let report = probe_report(vec![uecm::zen::missing_machine_probe(1, 42)]);
    assert_eq!(report.probed, 1);
    assert_eq!(report.unreachable, 1);
    assert_eq!(
        report.probes[0].error_message.as_deref(),
        Some("machine id=42 not found; cannot resolve host")
    );
}

#[test]
fn register_defaults_lifecycle_from_role_and_is_idempotent_per_port() {
    let mut db = fresh_db();
    let mid = db.insert_machine(&Machine::new("zen-a", "10.0.0.9")).unwrap();
    let up = zen_register(&mut db, mid, 8558, "http".into(), "shared_upstream".into(), None,
        "D:\\UECM\\ZenData".into(), "asio".into(), None).unwrap();
    assert_eq!(db.get_endpoint(up).unwrap().lifecycle_mode, "installed_service");
    let local = zen_register(&mut db, mid, 8559, "http".into(), "local".into(), Some(up),
        "D:\\UECM\\ZenData".into(), "asio".into(), None).unwrap();
    assert_ne!(local, up);
    assert_eq!(db.get_endpoint(local).unwrap().lifecycle_mode, "editor_owned");
    let again = zen_register(&mut db, mid, 8559, "http".into(), "local".into(), None,
        "E:\\Zen".into(), "httpsys".into(), Some("installed_service".into())).unwrap();
    assert_eq!(again, local);
    let row = db.get_endpoint(local).unwrap();
    assert_eq!(row.lifecycle_mode, "installed_service");
    assert_eq!(row.httpserverclass, "httpsys");
    assert_eq!(db.list_endpoints().len(), 2);
}

#[test]
fn register_on_unknown_machine_is_invalid_input() {
    let mut db = fresh_db();
    match zen_register(&mut db, 42, 8558, "http".into(), "local".into(), None, "d".into(), "asio".into(), None) {
        Err(UecmError::InvalidInput(m)) => assert_eq!(m, "machine id=42 not found"),
        other => panic!("unexpected: {:?}", other),
    }
    assert!(db.list_endpoints().is_empty());
}

// --- the command-level zen functions -------------------------------------

#[test]
fn status_on_empty_db_returns_empty_endpoints() {
    let db = fresh_db();
    assert!(zen_status(&db, None).unwrap().is_empty());
}

#[test]
fn status_with_seeded_endpoint_reports_no_probe_yet() {
    let mut db = fresh_db();
    seed_endpoint(&mut db, "ZEN-1", "10.0.0.10", 8558);
    zen_status(&db, None).unwrap();
    let endpoints = db.list_endpoints();
    assert_eq!(endpoints.len(), 1);
    let recent = db.list_recent_probes(endpoints[0].id.unwrap(), 1);
    assert!(recent.is_empty(), "no probe rows expected on a fresh seed");
}

#[test]
fn domain_zen_list_endpoints_empty_ok() {
    let db = fresh_db();
    zen_list_endpoints(&db, None);
}

#[test]
fn domain_zen_list_endpoints_filtered_by_machine() {
    let mut db = fresh_db();
    let (m1, _) = seed_endpoint(&mut db, "ZEN-1", "10.0.0.10", 8558);
    let (_m2, _) = seed_endpoint(&mut db, "ZEN-2", "10.0.0.11", 8558);
    zen_list_endpoints(&db, Some(m1));
    let just_m1 = db.list_endpoints_for_machine(m1);
    assert_eq!(just_m1.len(), 1);
}

#[test]
fn domain_zen_baseline_list_empty_ok() {
    let db = fresh_db();
    zen_baseline_list(&db, None, None).unwrap();
}

#[test]
fn baseline_list_filters_by_version_and_kind() {
    let mut db = fresh_db();
    seed_baseline(&mut db, "5.8.10-aaa", KIND_ZEN_CLI, "sha-cli-aaa");
    seed_baseline(&mut db, "5.8.10-aaa", KIND_ZENSERVER, "sha-srv-aaa");
    seed_baseline(&mut db, "5.7.6-bbb", KIND_ZEN_CLI, "sha-cli-bbb");
    let all = db.list_baselines();
    assert_eq!(all.len(), 3);
    let just_aaa: Vec<_> = all.iter().filter(|r| r.zen_build_version == "5.8.10-aaa").collect();
    assert_eq!(just_aaa.len(), 2);
    zen_baseline_list(&db, Some("5.8.10-aaa".into()), Some(KIND_ZEN_CLI.into())).unwrap();
}

#[test]
fn baseline_lock_requires_yes() {
    let mut db = fresh_db();
    seed_baseline(&mut db, "5.8.10-aaa", KIND_ZEN_CLI, "sha");
    let err = baseline_lock(&mut db, "5.8.10-aaa", KIND_ZEN_CLI, "op1", false, false).unwrap_err();
    assert!(matches!(err, UecmError::InvalidInput(_)));
}

#[test]
fn baseline_lock_dry_run_does_not_persist() {
    let mut db = fresh_db();
    seed_baseline(&mut db, "5.8.10-aaa", KIND_ZEN_CLI, "sha");
    assert_eq!(
        baseline_lock(&mut db, "5.8.10-aaa", KIND_ZEN_CLI, "op1", false, true).unwrap(),
        Outcome::DryRun
    );
    let row = db.find_baseline("5.8.10-aaa", KIND_ZEN_CLI).unwrap();
    assert!(row.locked_by.is_none(), "dry-run must not write");
}

#[test]
fn baseline_lock_applies_with_yes() {
    let mut db = fresh_db();
    seed_baseline(&mut db, "5.8.10-aaa", KIND_ZEN_CLI, "sha");
    baseline_lock(&mut db, "5.8.10-aaa", KIND_ZEN_CLI, "op1", true, false).unwrap();
    let row = db.find_baseline("5.8.10-aaa", KIND_ZEN_CLI).unwrap();
    assert_eq!(row.locked_by.as_deref(), Some("op1"));
}

#[test]
fn baseline_unlock_clears_marker() {
    let mut db = fresh_db();
    seed_baseline(&mut db, "5.8.10-aaa", KIND_ZEN_CLI, "sha");
    db.lock_baseline("5.8.10-aaa", KIND_ZEN_CLI, "op1");
    baseline_unlock(&mut db, "5.8.10-aaa", KIND_ZEN_CLI, true, false).unwrap();
    let row = db.find_baseline("5.8.10-aaa", KIND_ZEN_CLI).unwrap();
    assert!(row.locked_by.is_none());
}

#[test]
fn domain_zen_baseline_lock_rejects_missing_row() {
    let mut db = fresh_db();
    let err = baseline_lock(&mut db, "nope-version", KIND_ZEN_CLI, "op1", true, false).unwrap_err();
    match err {
        UecmError::InvalidInput(msg) => assert!(msg.contains("no baseline row")),
        other => panic!("expected InvalidInput, got {:?}", other),
    }
}

#[test]
fn domain_zen_baseline_rejects_bad_kind() {
    let db = fresh_db();
    let err = zen_baseline_list(&db, None, Some("bogus".into())).unwrap_err();
    match err {
        UecmError::InvalidInput(msg) => assert!(msg.contains("invalid binary kind")),
        other => panic!("expected InvalidInput, got {:?}", other),
    }
}

#[test]
fn probe_with_unknown_machine_errors_out() {
    let db = fresh_db();
    let cred = CredentialArgs { cred_alias: None, user: None, pass: None, pass_stdin: false };
    cred.preflight(&db).unwrap();
    let err = resolve_endpoints(&db, Some(9999), None).unwrap_err();
    assert!(matches!(err, UecmError::InvalidInput(_)));
}

#[test]
fn cache_stats_unknown_endpoint_errors() {
    let db = fresh_db();
    let err = resolve_endpoints(&db, None, Some(9999)).unwrap_err();
    assert!(matches!(err, UecmError::InvalidInput(_)));
}

#[test]
fn zen_list_endpoints_empty_ok() {
    let db = fresh_db();
    assert!(db.list_endpoints().is_empty());
}

#[test]
fn zen_list_endpoints_filtered_by_machine() {
    let mut db = fresh_db();
    let (m1, _) = seed_endpoint(&mut db, "ZEN-1", "10.0.0.10", 8558);
    let (_m2, _) = seed_endpoint(&mut db, "ZEN-2", "10.0.0.11", 8558);
    assert_eq!(db.list_endpoints_for_machine(m1).len(), 1);
}

#[test]
fn zen_baseline_list_empty_ok() {
    let db = fresh_db();
    assert!(db.list_baselines().is_empty());
}

#[test]
fn baseline_list_filters_apply_through_command_logic() {
    let mut db = fresh_db();
    seed_baseline(&mut db, "5.8.10-aaa", KIND_ZEN_CLI, "sha-cli-aaa");
    seed_baseline(&mut db, "5.8.10-aaa", KIND_ZENSERVER, "sha-srv-aaa");
    seed_baseline(&mut db, "5.7.6-bbb", KIND_ZEN_CLI, "sha-cli-bbb");
    assert_eq!(db.list_baselines().len(), 3);
    let rows = zen_baseline_list(&db, Some("5.8.10-aaa".to_string()), Some(KIND_ZEN_CLI.to_string())).unwrap();
    assert_eq!(rows.len(), 1);
    assert_eq!(rows[0].sha256, "sha-cli-aaa");
}

#[test]
fn baseline_checks_come_in_order_kind_gate_row() {
    let mut db = fresh_db();
    match baseline_unlock(&mut db, "v", "bogus", false, false) {
        Err(UecmError::InvalidInput(m)) => assert!(m.starts_with("invalid binary kind")),
        other => panic!("unexpected: {:?}", other),
    }
    match baseline_unlock(&mut db, "v", KIND_ZENSERVER, false, false) {
        Err(UecmError::InvalidInput(m)) => {
            assert_eq!(m, "zen.baseline.unlock is destructive; pass --yes to proceed or --dry-run to preview")
        }
        other => panic!("unexpected: {:?}", other),
    }
    match baseline_unlock(&mut db, "v", KIND_ZENSERVER, false, true) {
        Err(UecmError::InvalidInput(m)) => assert_eq!(m, "no baseline row for zen_build_version=v kind=zenserver"),
        other => panic!("unexpected: {:?}", other),
    }
}
