use uecm::health_run::ini_consistency_outcome;
use uecm::ini::IniFinding;
use uecm::store::Db;

fn finding(rule: &str, severity: &str) -> IniFinding {
    IniFinding {
        id: None,
        scan_run_id: 0,
        machine_id: 0,
        rule_id: rule.into(),
        severity: severity.into(),
        category: "ddc".into(),
        file_path: "C:\\Show\\Config\\DefaultEngine.ini".into(),
        section: Some("InstalledDerivedDataBackendGraph".into()),
        key_name: Some("Path".into()),
        line_number: Some(12),
        snippet_before: None,
        snippet_after: None,
        recommended_action: "set".into(),
        recommended_value: Some("%UE-SharedDataCachePath%".into()),
        symptom: "s".into(),
        rationale: "r".into(),
        fixed_at: None,
        skipped_at: None,
    }
}

#[test]
fn findings_are_numbered_per_scan_and_found_by_id() {
    let mut db = Db::new();
    db.record_findings(1, 10, &vec![finding("R001", "critical"), finding("R003", "warning")]).unwrap();
    db.record_findings(2, 10, &vec![finding("R004", "info")]).unwrap();
    let first = db.findings_for_run(1);
    assert_eq!(first.len(), 2);
    assert_eq!((first[0].id, first[0].scan_run_id, first[0].machine_id), (Some(1), 1, 10));
    assert_eq!(first[1].id, Some(2));
    assert_eq!(db.find_finding(3).unwrap().rule_id, "R004");
    assert!(db.find_finding(4).is_none());
    assert_eq!(db.count_findings(1, 10, "critical"), 1);
    assert_eq!(db.count_findings(1, 11, "critical"), 0);
    db.mark_skipped(2, "1700000000".into());
    assert_eq!(db.find_finding(2).unwrap().skipped_at.as_deref(), Some("1700000000"));
    assert!(db.find_finding(1).unwrap().skipped_at.is_none());
    let back = Db::restore(db.snapshot()).unwrap();
    assert_eq!(back.findings_for_run(2).len(), 1);
}

#[test]
fn ini_consistency_reads_the_latest_ini_run() {
    let mut db = Db::new();
    let none = ini_consistency_outcome(&db, 10);
    assert_eq!((none.status.as_str(), none.message.as_str()), ("unknown", "no INI scan run yet"));
    let old = db.start_run("ini", &vec![10]).unwrap();
    db.record_findings(old, 10, &vec![finding("R001", "critical")]).unwrap();
    let o = ini_consistency_outcome(&db, 10);
    assert_eq!((o.status.as_str(), o.message.as_str()), ("critical", "1 critical / 0 warning open"));
    assert_eq!(o.sample, format!("scan_run #{}", old));
    let newer = db.start_run("ini", &vec![10]).unwrap();
    db.record_findings(newer, 10, &vec![finding("R003", "warning"), finding("R003", "warning")]).unwrap();
    let o = ini_consistency_outcome(&db, 10);
    assert_eq!((o.status.as_str(), o.message.as_str()), ("warning", "0 critical / 2 warning open"));
    let other = ini_consistency_outcome(&db, 11);
    assert_eq!((other.status.as_str(), other.message.as_str()), ("healthy", "0 critical / 0 warning open"));
}
