use uecm::error::UecmError;
use uecm::machine::add_machine;
use uecm::reports::{
    host_hostname, injection_alias, ip_for, ips_for, managed_svc_user, remember_share_credential,
    saved_username, share_credential_alias, share_operator_user, ShareMode,
};
use uecm::store::{CredentialRecord, Db, Machine};

#[test]
fn stored_machine_is_found_under_its_new_id() {
    let mut db = Db::new();
    let id = db.insert_machine(&Machine::new("render-01", "10.1.0.5")).unwrap();
    let m = db.find_machine(id).unwrap();
    assert_eq!(m.ip, "10.1.0.5");
    assert_eq!(m.hostname, "render-01");
    assert_eq!(ip_for(&db, id).unwrap(), "10.1.0.5");
    assert_eq!(host_hostname(&db, id).unwrap(), "render-01");
    assert!(db.insert_machine(&Machine::new("dup", "10.1.0.5")).is_err());
}

#[test]
fn batch_lookup_fails_on_the_first_unknown_machine() {
    let mut db = Db::new();
    add_machine(&mut db, "10.0.0.1", None).unwrap();
    add_machine(&mut db, "10.0.0.2", None).unwrap();
    let ok = ips_for(&db, &vec![2, 1]).unwrap();
    assert_eq!(ok, vec![(2, "10.0.0.2".to_string()), (1, "10.0.0.1".to_string())]);
    match ips_for(&db, &vec![1, 7, 8]) {
        Err(UecmError::InvalidInput(m)) => assert_eq!(m, "machine 7 not found"),
        other => panic!("unexpected {:?}", other),
    }
}

#[test]
fn managed_share_defaults() {
    assert_eq!(managed_svc_user(None), "ddc-svc");
    assert_eq!(managed_svc_user(Some("")), "ddc-svc");
    assert_eq!(managed_svc_user(Some("svc2")), "svc2");
    assert_eq!(share_credential_alias("HOST-A", "ddc-svc"), "UECM:share:HOST-A:ddc-svc");
}

#[test]
fn credentials_are_saved_replaced_and_deleted_by_alias() {
    let mut db = Db::new();
    db.save_credential(&CredentialRecord { alias: "a".into(), username: "u1".into(), kind: "winrm".into() });
    db.save_credential(&CredentialRecord { alias: "a".into(), username: "u2".into(), kind: "winrm".into() });
    assert_eq!(db.list_credentials().len(), 1);
    assert_eq!(db.find_credential("a").unwrap().username, "u2");
    assert!(db.delete_credential("a"));
    assert!(!db.delete_credential("a"));
    assert!(db.find_credential("a").is_none());
}

#[test]
fn managed_share_credential_is_saved_once_under_its_alias() {
    let mut db = Db::new();
    let host = db.insert_machine(&Machine::new("DDC-HOST", "10.0.0.3")).unwrap();
    let alias = remember_share_credential(&mut db, host, "ddc-svc").unwrap();
    assert_eq!(alias, "UECM:share:DDC-HOST:ddc-svc");
    let rec = db.find_credential(&alias).unwrap();
    assert_eq!((rec.username.as_str(), rec.kind.as_str()), ("ddc-svc", "share"));
    assert_eq!(remember_share_credential(&mut db, host, "ddc-svc").unwrap(), alias);
    assert_eq!(db.list_credentials().len(), 1);
    match remember_share_credential(&mut db, 99, "ddc-svc") {
        Err(UecmError::InvalidInput(m)) => assert_eq!(m, "machine 99 not found"),
        other => panic!("unexpected {:?}", other),
    }
    assert_eq!(db.list_credentials().len(), 1);
}

#[test]
fn injection_needs_a_managed_share_with_an_alias() {
    match injection_alias(ShareMode::Open, None) {
        Err(UecmError::InvalidInput(m)) => {
            assert_eq!(m, "credential injection only applies to Mode B (managed) shares")
        }
        other => panic!("unexpected {:?}", other),
    }
    match injection_alias(ShareMode::Managed, None) {
        Err(UecmError::OperationFailed(m)) => assert_eq!(m, "managed share missing credential_alias"),
        other => panic!("unexpected {:?}", other),
    }
    assert_eq!(injection_alias(ShareMode::Managed, Some("UECM:share:H:u".into())).unwrap(), "UECM:share:H:u");
}

#[test]
fn operator_aliases_resolve_to_saved_usernames() {
    let mut db = Db::new();
    db.save_credential(&CredentialRecord { alias: "ops".into(), username: "admin".into(), kind: "winrm".into() });
    assert_eq!(saved_username(&db, "ops").unwrap(), "admin");
    match saved_username(&db, "nope") {
        Err(UecmError::InvalidInput(m)) => assert_eq!(m, "credential alias 'nope' not found"),
        other => panic!("unexpected {:?}", other),
    }
    assert_eq!(share_operator_user(&db, None).unwrap(), None);
    assert_eq!(share_operator_user(&db, Some("")).unwrap(), None);
    assert_eq!(share_operator_user(&db, Some("ops")).unwrap().as_deref(), Some("admin"));
    assert!(share_operator_user(&db, Some("nope")).is_err());
}

#[test]
fn a_saved_inventory_reads_back_the_same() {
    let mut db = Db::new();
    let id = db.insert_machine(&Machine::new("render-01", "10.1.0.5")).unwrap();
    db.save_credential(&CredentialRecord { alias: "ops".into(), username: "admin".into(), kind: "winrm".into() });
    let s = db.snapshot();
    let back = Db::restore(s).unwrap();
    assert_eq!(back.find_machine(id).unwrap().ip, "10.1.0.5");
    assert_eq!(back.find_credential("ops").unwrap().username, "admin");
    let mut again = back;
    assert_eq!(again.insert_machine(&Machine::new("render-02", "10.1.0.6")).unwrap(), id + 1);
}

#[test]
fn an_inconsistent_snapshot_is_refused() {
    let mut db = Db::new();
    db.insert_machine(&Machine::new("a", "10.0.0.1")).unwrap();
    let mut s = db.snapshot();
    s.machines.push(Machine { id: Some(1), hostname: "b".into(), ip: "10.0.0.2".into(), status: None });
    assert!(Db::restore(s).is_none());
    let mut s = db.snapshot();
    s.next_machine_id = 1;
    assert!(Db::restore(s).is_none());
}
