use uecm::projects::{
    create_project_manual, delete_project, delete_project_location, list_project_locations, list_projects,
    set_project_location, stem_lower,
};
use uecm::store::{Db, Machine};

#[test]
fn a_project_is_keyed_by_its_lower_case_stem() {
    assert_eq!(stem_lower("Show.uproject"), "show");
    assert_eq!(stem_lower("D:\\Projects\\MyGame.uproject"), "mygame");
    assert_eq!(stem_lower("/srv/ue/Arena.Final.uproject"), "arena.final");
    assert_eq!(stem_lower("NoExtension"), "noextension");
    assert_eq!(stem_lower(".hidden"), ".hidden");
    assert_eq!(stem_lower(""), "");
}

#[test]
fn manual_projects_merge_by_stem_and_list_their_location_counts() {
    let mut db = Db::new();
    let m1 = db.insert_machine(&Machine::new("r1", "10.0.0.1")).unwrap();
    let m2 = db.insert_machine(&Machine::new("r2", "10.0.0.2")).unwrap();
    let p = create_project_manual(&mut db, "Show.uproject".into(), None).unwrap();
    let q = create_project_manual(&mut db, "SHOW.uproject".into(), Some("Main show".into())).unwrap();
    assert_eq!(p, q);
    let other = create_project_manual(&mut db, "Arena.uproject".into(), None).unwrap();
    assert_eq!(other, p + 1);
    let l1 = set_project_location(&mut db, p, m1, "D:\\Show".into(), "Show.uproject".into(), true).unwrap();
    set_project_location(&mut db, p, m2, "E:\\Show".into(), "Show.uproject".into(), false).unwrap();
    let again = set_project_location(&mut db, p, m1, "F:\\Show".into(), "Show.uproject".into(), false).unwrap();
    assert_eq!(l1, again);
    let list = list_projects(&db);
    assert_eq!(list.len(), 2);
    assert_eq!((list[0].id, list[0].uproject_name.as_str(), list[0].location_count), (p, "SHOW.uproject", 2));
    assert_eq!(list[0].display_name.as_deref(), Some("Main show"));
    assert_eq!(list[1].location_count, 0);
    let locations = list_project_locations(&db, p);
    assert_eq!(locations[0].abs_path, "F:\\Show");
    assert_eq!(locations[0].discovery_status, "manual_alias");
    assert_eq!(locations[1].discovery_status, "manual_alias");
    delete_project_location(&mut db, l1);
    assert_eq!(list_project_locations(&db, p).len(), 1);
    delete_project(&mut db, p);
    assert_eq!(list_projects(&db).len(), 1);
    assert!(list_project_locations(&db, p).is_empty());
}

#[test]
fn a_location_entered_as_a_path_is_marked_so() {
    let mut db = Db::new();
    let p = create_project_manual(&mut db, "Show.uproject".into(), None).unwrap();
    set_project_location(&mut db, p, 1, "D:\\Show".into(), "Show.uproject".into(), true).unwrap();
    assert_eq!(list_project_locations(&db, p)[0].discovery_status, "manual_path");
}

#[test]
fn pso_precaching_scans_each_machine_a_project_lies_on_once() {
    let mut db = Db::new();
    match uecm::projects::pso_precaching_machines(&db, 5) {
        Err(uecm::error::UecmError::InvalidInput(m)) => {
            assert_eq!(m, "project 5 has no locations registered; add locations first")
        }
        other => panic!("unexpected {:?}", other),
    }
    let p = create_project_manual(&mut db, "Show.uproject".into(), None).unwrap();
    let q = create_project_manual(&mut db, "Other.uproject".into(), None).unwrap();
    set_project_location(&mut db, p, 3, "D:\\A".into(), "A.uproject".into(), true).unwrap();
    set_project_location(&mut db, q, 4, "D:\\B".into(), "B.uproject".into(), true).unwrap();
    set_project_location(&mut db, p, 7, "D:\\A".into(), "A.uproject".into(), true).unwrap();
    let mut ids = uecm::projects::pso_precaching_machines(&db, p).unwrap();
    ids.sort();
    assert_eq!(ids, vec![3, 7]);
}
