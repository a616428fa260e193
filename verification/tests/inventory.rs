use uecm::ddc::UeInstall;
use uecm::health::CheckOutcome;
use uecm::reports::GpuInfo;
use uecm::store::{Db, Machine, Project, ProjectLocation, RunCounts};

fn outcome(status: &str) -> CheckOutcome {
    CheckOutcome { status: status.into(), message: "m".into(), sample: "".into(), remediation: "".into() }
}

fn install(mid: i64, version: &str, primary: bool) -> UeInstall {
    UeInstall {
        id: None,
        machine_id: mid,
        version: version.into(),
        install_path: format!("C:\\UE_{}", version),
        is_primary: primary,
        zen_cli_intree_path: None,
        zen_cli_intree_version: None,
        zen_cli_intree_sha256: None,
        zenserver_intree_path: None,
        zenserver_intree_version: None,
        zenserver_intree_sha256: None,
    }
}

fn gpu(mid: i64, model: &str) -> GpuInfo {
    GpuInfo { id: None, machine_id: mid, gpu_model: model.into(), driver_version: "551.23".into(), vendor: "nvidia".into(), vram_mb: Some(24576) }
}

fn counts(healthy: i64, total: i64) -> RunCounts {
    RunCounts { healthy, warning: 0, critical: 0, offline: 0, skipped: 0, info: 0, total }
}

fn project(name: &str, stem: &str) -> Project {
    Project { id: None, uproject_name: name.into(), uproject_stem_lower: stem.into(), uproject_guid: None, display_name: None }
}

fn location(pid: i64, mid: i64, path: &str) -> ProjectLocation {
    ProjectLocation {
        id: None,
        project_id: pid,
        machine_id: mid,
        abs_path: path.into(),
        uproject_path: format!("{}\\Show.uproject", path),
        discovery_status: "manual_path".into(),
    }
}

#[test]
fn installs_are_replaced_per_machine() {
    let mut db = Db::new();
    db.replace_installs(1, vec![install(1, "5.3", false), install(1, "5.4", true)]);
    db.replace_installs(2, vec![install(2, "5.2", true)]);
    assert_eq!(db.installs_for(1).len(), 2);
    db.replace_installs(1, vec![install(1, "5.5", true)]);
    let one = db.installs_for(1);
    assert_eq!(one.len(), 1);
    assert_eq!(one[0].version, "5.5");
    assert_eq!(db.installs_for(2)[0].version, "5.2");
    assert_eq!(db.all_installs().len(), 2);
    assert!(db.installs_for(3).is_empty());
}

#[test]
fn gpus_are_replaced_per_machine() {
    let mut db = Db::new();
    db.replace_gpus(1, vec![gpu(1, "RTX A6000"), gpu(1, "RTX A6000")]);
    db.replace_gpus(2, vec![gpu(2, "RTX 4090")]);
    db.replace_gpus(1, vec![]);
    assert!(db.gpus_for(1).is_empty());
    assert_eq!(db.gpus_for(2)[0].gpu_model, "RTX 4090");
    assert_eq!(db.all_gpus().len(), 1);
}

#[test]
fn scan_runs_are_numbered_finished_and_listed_newest_first() {
    let mut db = Db::new();
    let a = db.start_run("health", &vec![1, 2]).unwrap();
    let b = db.start_run("ini", &vec![1]).unwrap();
    let c = db.start_run("health", &vec![3]).unwrap();
    assert_eq!((a, b, c), (1, 2, 3));
    db.finish_run(a, counts(5, 22));
    let health = db.list_runs("health", 10);
    assert_eq!(health.iter().map(|r| r.id).collect::<Vec<_>>(), vec![3, 1]);
    assert_eq!(health[1].machine_ids, vec![1, 2]);
    assert_eq!(health[1].counts.map(|c| (c.healthy, c.total)), Some((5, 22)));
    assert!(health[0].counts.is_none());
    assert_eq!(db.list_runs("health", 1).len(), 1);
    assert_eq!(db.list_runs("health", -1).len(), 2);
    assert_eq!(db.list_runs("ini", 10)[0].id, 2);
    assert!(db.list_runs("pso", 10).is_empty());
}

#[test]
fn projects_are_keyed_by_stem_and_locations_by_machine() {
    let mut db = Db::new();
    let m = db.insert_machine(&Machine::new("render-01", "10.1.0.5")).unwrap();
    let p = db.upsert_project(&project("Show.uproject", "show")).unwrap();
    let same = db.upsert_project(&Project { display_name: Some("Show".into()), ..project("SHOW.uproject", "show") }).unwrap();
    assert_eq!(p, same);
    assert_eq!(db.all_projects().len(), 1);
    assert_eq!(db.all_projects()[0].display_name.as_deref(), Some("Show"));
    let l = db.upsert_location(&location(p, m, "D:\\Shows\\A")).unwrap();
    let l2 = db.upsert_location(&location(p, m, "E:\\Shows\\A")).unwrap();
    assert_eq!(l, l2);
    assert_eq!(db.location_for(p, m).unwrap().abs_path, "E:\\Shows\\A");
    assert!(db.location_for(p, m + 1).is_none());
    let other = db.upsert_location(&location(p, m + 1, "D:\\B")).unwrap();
    assert_eq!(db.locations_of(p).len(), 2);
    db.delete_location(other);
    assert_eq!(db.locations_of(p).len(), 1);
    db.delete_project(p);
    assert!(db.all_projects().is_empty());
    assert!(db.all_locations().is_empty());
}

#[test]
fn every_table_survives_a_snapshot() {
    let mut db = Db::new();
    let m = db.insert_machine(&Machine::new("render-01", "10.1.0.5")).unwrap();
    db.replace_installs(m, vec![install(m, "5.4", true)]);
    db.replace_gpus(m, vec![gpu(m, "RTX 4090")]);
    let run = db.start_run("health", &vec![m]).unwrap();
    db.finish_run(run, counts(8, 11));
    let p = db.upsert_project(&project("Show.uproject", "show")).unwrap();
    db.upsert_location(&location(p, m, "D:\\Shows\\A")).unwrap();
    db.record_result(run, m, vec![("smb".to_string(), outcome("healthy"))]);
    let mut back = Db::restore(db.snapshot()).unwrap();
    assert_eq!(back.installs_for(m)[0].version, "5.4");
    assert_eq!(back.gpus_for(m)[0].gpu_model, "RTX 4090");
    assert_eq!(back.list_runs("health", 1)[0].counts.map(|c| c.healthy), Some(8));
    assert_eq!(back.location_for(p, m).unwrap().abs_path, "D:\\Shows\\A");
    assert_eq!(back.results_for_run(run)[0].row[0].1.status, "healthy");
    assert_eq!(back.start_run("ini", &vec![]).unwrap(), run + 1);
    assert_eq!(back.upsert_project(&project("Other.uproject", "other")).unwrap(), p + 1);
}

#[test]
fn a_machine_has_one_result_per_run() {
    let mut db = Db::new();
    db.record_result(1, 10, vec![("smb".to_string(), outcome("healthy"))]);
    db.record_result(1, 11, vec![("smb".to_string(), outcome("offline"))]);
    db.record_result(2, 10, vec![("smb".to_string(), outcome("warning"))]);
    db.record_result(1, 10, vec![("smb".to_string(), outcome("critical")), ("cred_user".to_string(), outcome("healthy"))]);
    let first = db.results_for_run(1);
    assert_eq!(first.len(), 2);
    assert_eq!((first[0].machine_id, first[0].row.len()), (10, 2));
    assert_eq!(first[0].row[0].1.status, "critical");
    assert_eq!(first[1].row[0].1.status, "offline");
    assert_eq!(db.results_for_run(2)[0].row[0].1.status, "warning");
    assert!(db.results_for_run(3).is_empty());
}
