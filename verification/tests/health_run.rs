use uecm::error::UecmError;
use uecm::health::{CheckOutcome, HealthRunSummary, RunHealthCheckRequest, RunTotals};
use uecm::health_run::{
    desktop_health_step, health_check_request, health_machine_step, offline_probe_keys, DerivedChecks, MachineStep,
};
use uecm::store::{CredentialRecord, Db};

fn outcome(status: &str) -> CheckOutcome {
    CheckOutcome { status: status.into(), message: "".into(), sample: "".into(), remediation: "".into() }
}

fn derived() -> DerivedChecks {
    DerivedChecks {
        ini_consistency: outcome("warning"),
        pso_precaching: outcome("na"),
        gpu_consistency: outcome("unknown"),
    }
}

#[test]
fn offline_probe_keys_derives_from_registry() {
    let keys = offline_probe_keys();
    assert_eq!(keys.len(), 11);
    assert!(keys.contains(&"lanman_server"));
    assert!(keys.contains(&"firewall_445"));
    assert!(!keys.contains(&"tcp_5985"), "L1 must not be in offline keys");
    assert!(!keys.contains(&"ini_consistency"), "derived must not be in offline keys");
}

#[test]
fn unknown_machine_is_skipped() {
    let mut t = RunTotals::new();
    assert!(matches!(health_machine_step(&mut t, false, Ok(vec![]), derived()), MachineStep::Skipped));
    assert_eq!((t.offline, t.total_checks), (0, 0));
}

#[test]
fn unreachable_machine_gets_an_offline_row() {
    let mut t = RunTotals::new();
    match health_machine_step(&mut t, true, Err(UecmError::PowerShell("no route".into())), derived()) {
        MachineStep::Offline { row, message } => {
            assert_eq!(message, "no route");
            assert_eq!(row.len(), 11);
            assert!(row.iter().all(|(_, o)| o.status == "offline" && o.message == "no route"));
            assert_eq!(row[0].0, "lanman_server");
        }
        other => panic!("unexpected {:?}", other),
    }
    assert_eq!((t.offline, t.total_checks, t.healthy), (1, 11, 0));
}

#[test]
fn probed_machine_gets_probes_plus_derived_checks() {
    let mut t = RunTotals::new();
    let probes = vec![("lanman_server".to_string(), outcome("healthy")), ("firewall_445".to_string(), outcome("critical"))];
    match health_machine_step(&mut t, true, Ok(probes), derived()) {
        MachineStep::Checked { row } => {
            let keys: Vec<&str> = row.iter().map(|(k, _)| k.as_str()).collect();
            assert_eq!(keys, vec!["lanman_server", "firewall_445", "ini_consistency", "pso_precaching", "gpu_consistency"]);
        }
        other => panic!("unexpected {:?}", other),
    }
    assert_eq!((t.healthy, t.critical, t.warning, t.skipped, t.total_checks), (1, 1, 1, 1, 3));
}

#[test]
fn desktop_health_check_needs_machines_and_a_saved_alias() {
    let mut db = Db::new();
    let req = |ids: Vec<i64>| RunHealthCheckRequest { machine_ids: ids, credential_alias: "ops".into(), project_paths: vec![] };
    match health_check_request(&db, &req(vec![])) {
        Err(UecmError::InvalidInput(m)) => assert_eq!(m, "machine_ids required"),
        other => panic!("unexpected {:?}", other),
    }
    match health_check_request(&db, &req(vec![1])) {
        Err(UecmError::InvalidInput(m)) => assert_eq!(m, "credential 'ops' not found"),
        other => panic!("unexpected {:?}", other),
    }
    db.save_credential(&CredentialRecord { alias: "ops".into(), username: "admin".into(), kind: "winrm".into() });
    assert_eq!(health_check_request(&db, &req(vec![1])).unwrap(), "admin");
}

fn summary() -> HealthRunSummary {
    HealthRunSummary { scan_run_id: 7, healthy: 0, warning: 0, critical: 0, offline: 0, total: 0 }
}

#[test]
fn desktop_step_skips_an_unknown_machine() {
    let mut s = summary();
    assert!(matches!(desktop_health_step(&mut s, false, Ok(vec![]), derived(), None), MachineStep::Skipped));
    assert_eq!((s.scan_run_id, s.healthy, s.warning, s.critical, s.offline, s.total), (7, 0, 0, 0, 0, 0));
}

#[test]
fn desktop_step_reports_an_unreachable_machine_offline() {
    let mut s = summary();
    match desktop_health_step(&mut s, true, Err(UecmError::PowerShell("timed out".into())), derived(), None) {
        MachineStep::Offline { row, message } => {
            assert_eq!(message, "timed out");
            assert_eq!(row.len(), 11);
            assert_eq!(row[0].0, "smb");
            assert_eq!(row[10].0, "system_write");
            assert!(row.iter().all(|(_, o)| o.status == "offline" && o.message == "timed out" && o.remediation.is_empty()));
        }
        other => panic!("unexpected {:?}", other),
    }
    assert_eq!((s.offline, s.total, s.healthy, s.warning, s.critical), (1, 11, 0, 0, 0));
}

#[test]
fn desktop_step_counts_every_outcome_and_takes_the_service_classification() {
    let mut s = summary();
    let probes = vec![
        ("smb".to_string(), outcome("healthy")),
        ("rs_service".to_string(), outcome("healthy")),
        ("ntfs_perm".to_string(), outcome("offline")),
    ];
    match desktop_health_step(&mut s, true, Ok(probes), derived(), Some(outcome("critical"))) {
        MachineStep::Checked { row } => {
            let keys: Vec<&str> = row.iter().map(|(k, _)| k.as_str()).collect();
            assert_eq!(keys, vec!["smb", "rs_service", "ntfs_perm", "ini_consistency", "pso_precaching", "gpu_consistency"]);
            assert_eq!(row[1].1.status, "critical");
        }
        other => panic!("unexpected {:?}", other),
    }
    // healthy: smb; critical: rs_service; offline: ntfs_perm; warning: ini;
    // na and unknown count only in the total.
    assert_eq!((s.healthy, s.warning, s.critical, s.offline, s.total), (1, 1, 1, 1, 6));
    assert_eq!(s.scan_run_id, 7);
}

#[test]
fn desktop_step_without_a_classification_keeps_the_probed_service_outcome() {
    let mut s = summary();
    let probes = vec![("rs_service".to_string(), outcome("warning"))];
    match desktop_health_step(&mut s, true, Ok(probes), derived(), None) {
        MachineStep::Checked { row } => {
            assert_eq!(row.len(), 4);
            assert_eq!(row[0].1.status, "warning");
        }
        other => panic!("unexpected {:?}", other),
    }
    assert_eq!((s.healthy, s.warning, s.critical, s.offline, s.total), (0, 2, 0, 0, 4));
}
