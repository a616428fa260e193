use uecm::ddc::{
    generation_response, generation_status, generation_target, project_dir_from_uproject_path,
    refreshed_installs, resolve_engine_path, BackendChoice, UeInstall,
};
use uecm::store::{Db, Machine};
use uecm::error::UecmError;

fn install(version: &str, path: &str, primary: bool) -> UeInstall {
    UeInstall {
        id: Some(1),
        machine_id: 1,
        version: version.into(),
        install_path: path.into(),
        is_primary: primary,
        zen_cli_intree_path: None,
        zen_cli_intree_version: None,
        zen_cli_intree_sha256: None,
        zenserver_intree_path: None,
        zenserver_intree_version: None,
        zenserver_intree_sha256: None,
    }
}

#[test]
fn project_dir_from_windows_path() {
    assert_eq!(project_dir_from_uproject_path("D:\\Work\\Demo\\Demo.uproject"), "D:\\Work\\Demo");
}

#[test]
fn project_dir_without_separator_is_empty() {
    assert_eq!(project_dir_from_uproject_path("Demo.uproject"), "");
    assert_eq!(project_dir_from_uproject_path("/srv/p/Demo.uproject"), "/srv/p");
}

#[test]
fn engine_path_prefers_requested_then_primary_then_first() {
    let installs = vec![install("5.3", "C:\\UE_5.3", false), install("5.4", "C:\\UE_5.4", true)];
    assert_eq!(resolve_engine_path(&installs, 1, None).unwrap(), "C:\\UE_5.4");
    assert_eq!(resolve_engine_path(&installs, 1, Some("5.3")).unwrap(), "C:\\UE_5.3");
    match resolve_engine_path(&installs, 1, Some("4.27")) {
        Err(UecmError::InvalidInput(m)) => assert_eq!(m, "UE 4.27 not on machine 1"),
        other => panic!("unexpected {:?}", other),
    }
    let none_primary = vec![install("5.3", "C:\\A", false), install("5.4", "C:\\B", false)];
    assert_eq!(resolve_engine_path(&none_primary, 1, None).unwrap(), "C:\\A");
    match resolve_engine_path(&vec![], 9, None) {
        Err(UecmError::InvalidInput(m)) => assert_eq!(m, "machine 9 has no detected UE installs"),
        other => panic!("unexpected {:?}", other),
    }
}

#[test]
fn refresh_keeps_intree_metadata_and_marks_newest_primary() {
    let mut old = install("5.3", "C:\\UE_5.3", true);
    old.zen_cli_intree_path = Some("C:\\UE_5.3\\zen.exe".into());
    let detected = vec![
        ("5.3".to_string(), "C:\\UE_5.3".to_string()),
        ("5.10".to_string(), "C:\\UE_5.10".to_string()),
    ];
    let rows = refreshed_installs(4, &vec![old], &detected);
    assert_eq!(rows.len(), 2);
    assert!(!rows[0].is_primary);
    assert!(rows[1].is_primary);
    assert_eq!(rows[0].zen_cli_intree_path.as_deref(), Some("C:\\UE_5.3\\zen.exe"));
    assert_eq!(rows[1].zen_cli_intree_path, None);
    assert_eq!(rows[0].machine_id, 4);
}

fn invalid(r: Result<uecm::ddc::GenerationTarget, UecmError>) -> String {
    match r {
        Err(UecmError::InvalidInput(m)) => m,
        other => panic!("unexpected {:?}", other),
    }
}

#[test]
fn remote_generation_needs_a_located_project_on_a_known_machine() {
    let mut db = Db::new();
    let id = db.insert_machine(&Machine::new("BUILD-01", "10.0.0.7")).unwrap();
    assert_eq!(
        invalid(generation_target(&db, BackendChoice::Remote, None, 3, None, None, None)),
        "source_machine_id required for remote backend"
    );
    assert_eq!(
        invalid(generation_target(&db, BackendChoice::Remote, Some(42), 3, None, None, None)),
        "machine 42 not found"
    );
    assert_eq!(
        invalid(generation_target(&db, BackendChoice::Remote, Some(id), 3, None, None, None)),
        "project 3 not located on machine 1"
    );
    let p = uecm::projects::create_project_manual(&mut db, "Demo.uproject".into(), None).unwrap();
    uecm::projects::set_project_location(&mut db, p, id, "D:\\Work\\Demo".into(), "D:\\Work\\Demo\\Demo.uproject".into(), true)
        .unwrap();
    assert_eq!(
        invalid(generation_target(&db, BackendChoice::Remote, Some(id), p, None, None, None)),
        "machine 1 has no detected UE installs"
    );
    let mut row = install("5.4", "C:\\UE_5.4", true);
    row.machine_id = id;
    let mut other = install("5.2", "C:\\UE_5.2", false);
    other.machine_id = id;
    db.replace_installs(id, vec![other, row]);
    assert_eq!(
        invalid(generation_target(&db, BackendChoice::Remote, Some(id), p, Some("5.1"), None, None)),
        "UE 5.1 not on machine 1"
    );
    let t = generation_target(&db, BackendChoice::Remote, Some(id), p, None, None, None).unwrap();
    assert_eq!(t.host, "10.0.0.7");
    assert_eq!(t.hostname, "BUILD-01");
    assert_eq!(t.engine_path, "C:\\UE_5.4");
    assert_eq!(t.uproject_path, "D:\\Work\\Demo\\Demo.uproject");
    let t = generation_target(&db, BackendChoice::Remote, Some(id), p, Some("5.2"), None, None).unwrap();
    assert_eq!(t.engine_path, "C:\\UE_5.2");
}

#[test]
fn local_generation_needs_project_and_engine_paths() {
    let db = Db::new();
    assert_eq!(
        invalid(generation_target(&db, BackendChoice::Local, None, 3, None, None, Some("E".into()))),
        "local_uproject_path required for local backend"
    );
    assert_eq!(
        invalid(generation_target(&db, BackendChoice::Local, None, 3, None, Some("P".into()), None)),
        "local_engine_path required for local backend"
    );
    let t = generation_target(&db, BackendChoice::Local, None, 3, None, Some("P".into()), Some("E".into()))
        .unwrap();
    assert_eq!((t.host.as_str(), t.engine_path.as_str(), t.uproject_path.as_str()), ("", "E", "P"));
}

#[test]
fn generation_job_ids_and_backends() {
    let r = generation_response(BackendChoice::Remote, false, Some(7), 3, 1700000000123);
    assert_eq!(r.job_id, "ddc-pak-gen-7-1700000000123");
    assert_eq!((r.source_machine_id, r.project_id, r.backend.as_str()), (7, 3, "remote"));
    let r = generation_response(BackendChoice::Remote, true, Some(7), 3, 5);
    assert_eq!(r.backend, "local");
    let r = generation_response(BackendChoice::Local, false, None, 3, 5);
    assert_eq!(r.job_id, "ddc-pak-gen--1-5");
    assert_eq!((r.source_machine_id, r.backend.as_str()), (-1, "local"));
    assert_eq!(generation_status(0), "ok");
    assert_eq!(generation_status(3), "err");
}
