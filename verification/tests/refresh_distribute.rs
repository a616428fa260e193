use uecm::distribute::{
    check_preflights, distribution_job_id, distribution_plan, distribution_source, distribution_status,
};
use uecm::error::UecmError;
use uecm::machine::ProbeAnswer;
use uecm::reports::GpuInfo;
use uecm::refresh::{refresh_step, refresh_target, RefreshAction, RefreshEvent, RefreshState};
use uecm::store::{Db, Machine};

fn gpu() -> GpuInfo {
    GpuInfo { id: None, machine_id: 1, gpu_model: "RTX".into(), driver_version: "551".into(), vendor: "nvidia".into(), vram_mb: Some(24576) }
}

#[test]
fn refresh_saves_installs_before_gpus_and_keeps_them_on_gpu_error() {
    let mut db = Db::new();
    let id = db.insert_machine(&Machine::new("R1", "10.0.0.1")).unwrap();
    assert_eq!(refresh_target(&db, id).unwrap(), "10.0.0.1");
    let (s, a) = refresh_step(&mut db, id, RefreshState::AwaitProbe,
        RefreshEvent::Probe(Ok(ProbeAnswer { ok: true, message: String::new() })));
    assert_eq!(s, RefreshState::AwaitInstalls);
    assert!(matches!(a, RefreshAction::DetectInstalls));
    assert_eq!(db.find_machine(id).unwrap().status.as_deref(), Some("online"));
    let detected = vec![("5.3".to_string(), "C:\\UE_5.3".to_string()), ("5.4".to_string(), "C:\\UE_5.4".to_string())];
    let (s, a) = refresh_step(&mut db, id, s, RefreshEvent::Installs(Ok(detected)));
    assert_eq!(s, RefreshState::AwaitGpus { ue_versions: 2 });
    assert!(matches!(a, RefreshAction::DetectGpus));
    let rows = db.installs_for(id);
    assert_eq!(rows.len(), 2);
    assert!(!rows[0].is_primary && rows[1].is_primary);
    assert_eq!(rows[1].install_path, "C:\\UE_5.4");
    let mut db_gpu_failed = Db::restore(db.snapshot()).unwrap();
    let (s2, a2) = refresh_step(&mut db_gpu_failed, id, s, RefreshEvent::Gpus(Err(UecmError::PowerShell("wmi".into()))));
    assert_eq!(s2, RefreshState::Failed);
    assert!(matches!(a2, RefreshAction::Fail(UecmError::PowerShell(_))));
    assert_eq!(db_gpu_failed.installs_for(id).len(), 2);
    assert!(db_gpu_failed.gpus_for(id).is_empty());
    let (s3, a3) = refresh_step(&mut db, id, s, RefreshEvent::Gpus(Ok(vec![gpu()])));
    assert_eq!(s3, RefreshState::Finished);
    assert!(matches!(a3, RefreshAction::Done { gpus: 1, ue_versions: 2 }));
    let gpus = db.gpus_for(id);
    assert_eq!(gpus.len(), 1);
    assert_eq!(gpus[0].gpu_model, "RTX");
    assert_eq!(db.installs_for(id).len(), 2);
}

#[test]
fn refused_probe_marks_offline_and_ends_refresh() {
    let mut db = Db::new();
    let id = db.insert_machine(&Machine::new("R1", "10.0.0.1")).unwrap();
    let (s, a) = refresh_step(&mut db, id, RefreshState::AwaitProbe,
        RefreshEvent::Probe(Ok(ProbeAnswer { ok: false, message: "denied".into() })));
    assert_eq!(s, RefreshState::Failed);
    match a {
        RefreshAction::Fail(UecmError::PowerShell(m)) => assert_eq!(m, "winrm probe failed: denied"),
        other => panic!("unexpected {:?}", other),
    }
    assert_eq!(db.find_machine(id).unwrap().status.as_deref(), Some("offline"));
    let (s, a) = refresh_step(&mut db, id, RefreshState::AwaitProbe, RefreshEvent::Gpus(Ok(vec![])));
    assert_eq!(s, RefreshState::AwaitProbe);
    assert!(matches!(a, RefreshAction::Ignore));
    match refresh_target(&db, 77) {
        Err(UecmError::InvalidInput(m)) => assert_eq!(m, "machine id=77 not found"),
        other => panic!("unexpected {:?}", other),
    }
}

#[test]
fn distribution_checks_source_targets_and_preflights() {
    let mut db = Db::new();
    let src = db.insert_machine(&Machine::new("SRC", "10.0.0.1")).unwrap();
    match distribution_source(&db, 9, 3) {
        Err(UecmError::InvalidInput(m)) => assert_eq!(m, "machine 9 not found"),
        other => panic!("unexpected {:?}", other),
    }
    match distribution_source(&db, src, 3) {
        Err(UecmError::InvalidInput(m)) => assert_eq!(m, "project 3 not located on machine 1"),
        other => panic!("unexpected {:?}", other),
    }
    let p = uecm::projects::create_project_manual(&mut db, "Show.uproject".into(), None).unwrap();
    uecm::projects::set_project_location(&mut db, p, src, "D:\\P".into(), "D:\\P\\Show.uproject".into(), true).unwrap();
    let (ip, location) = distribution_source(&db, src, p).unwrap();
    assert_eq!((ip.as_str(), location.abs_path.as_str()), ("10.0.0.1", "D:\\P"));
    match distribution_source(&db, src, p + 1) {
        Err(UecmError::InvalidInput(m)) => assert_eq!(m, format!("project {} not located on machine 1", p + 1)),
        other => panic!("unexpected {:?}", other),
    }
    match distribution_plan(src, &vec![src]) {
        Err(UecmError::InvalidInput(m)) => assert_eq!(m, "distribution plan has no non-source targets"),
        other => panic!("unexpected {:?}", other),
    }
    let plan = distribution_plan(src, &vec![4, src, 5]).unwrap();
    let ids: Vec<i64> = plan.iter().map(|p| p.target_machine_id).collect();
    assert_eq!(ids, vec![4, 5]);
    assert!(check_preflights(&plan, &vec![Ok(()), Ok(())]).is_ok());
    match check_preflights(&plan, &vec![Ok(()), Err("access denied".into())]) {
        Err(UecmError::OperationFailed(m)) => assert_eq!(m, "target 5 cannot reach source UNC: access denied"),
        other => panic!("unexpected {:?}", other),
    }
    assert_eq!(distribution_job_id(1, 1700000000000), "ddc-pak-dist-1-1700000000000");
    assert_eq!(distribution_status(true), "err");
    assert_eq!(distribution_status(false), "ok");
}

#[test]
fn a_second_refresh_keeps_in_tree_zen_metadata() {
    let mut db = Db::new();
    let id = db.insert_machine(&Machine::new("R1", "10.0.0.1")).unwrap();
    let row = uecm::ddc::UeInstall {
        id: None,
        machine_id: id,
        version: "5.4".into(),
        install_path: "C:\\UE_5.4".into(),
        is_primary: true,
        zen_cli_intree_path: Some("C:\\UE_5.4\\zen.exe".into()),
        zen_cli_intree_version: Some("5.5.2".into()),
        zen_cli_intree_sha256: None,
        zenserver_intree_path: None,
        zenserver_intree_version: None,
        zenserver_intree_sha256: None,
    };
    db.replace_installs(id, vec![row.copy()]);
    let detected = vec![("5.4".to_string(), "C:\\UE_5.4".to_string()), ("5.10".to_string(), "C:\\UE_5.10".to_string())];
    let (s, a) = refresh_step(&mut db, id, RefreshState::AwaitInstalls, RefreshEvent::Installs(Ok(detected)));
    assert_eq!(s, RefreshState::AwaitGpus { ue_versions: 2 });
    assert!(matches!(a, RefreshAction::DetectGpus));
    let rows = db.installs_for(id);
    assert_eq!(rows.len(), 2);
    assert_eq!(rows[0].zen_cli_intree_version.as_deref(), Some("5.5.2"));
    assert!(rows[1].zen_cli_intree_path.is_none());
    assert!(!rows[0].is_primary && rows[1].is_primary);
}
