use uecm::error::UecmError;
use uecm::reports::{cluster_share, record_share, ShareMode};
use uecm::store::{CredentialRecord, Db, Machine};

#[test]
fn a_managed_share_is_recorded_with_its_service_credential() {
    let mut db = Db::new();
    let host = db.insert_machine(&Machine::new("DDC-HOST", "10.0.0.3")).unwrap();
    let resp = record_share(&mut db, host, ShareMode::Managed, "ddc".into(), "D:\\DDC".into(), "ddc-svc", "\\\\DDC-HOST\\ddc".into()).unwrap();
    assert_eq!(resp.share_config_id, 1);
    assert_eq!(resp.unc_path, "\\\\DDC-HOST\\ddc");
    assert_eq!(resp.mode, ShareMode::Managed);
    assert_eq!(resp.credential_alias.as_deref(), Some("UECM:share:DDC-HOST:ddc-svc"));
    let rec = db.find_credential("UECM:share:DDC-HOST:ddc-svc").unwrap();
    assert_eq!((rec.username.as_str(), rec.kind.as_str()), ("ddc-svc", "share"));
    let shares = db.all_shares();
    assert_eq!(shares.len(), 1);
    assert_eq!((shares[0].id, shares[0].local_path.as_str()), (Some(1), "D:\\DDC"));
    assert_eq!(cluster_share(&db), ("\\\\DDC-HOST\\ddc".to_string(), "ddc-svc".to_string()));
}

#[test]
fn an_open_share_has_no_credential() {
    let mut db = Db::new();
    let host = db.insert_machine(&Machine::new("H", "10.0.0.4")).unwrap();
    let resp = record_share(&mut db, host, ShareMode::Open, "ddc".into(), "D:\\DDC".into(), "ignored", "\\\\H\\ddc".into()).unwrap();
    assert!(resp.credential_alias.is_none());
    assert!(db.list_credentials().is_empty());
    assert_eq!(cluster_share(&db), ("\\\\H\\ddc".to_string(), "ddc-svc".to_string()));
    let second = record_share(&mut db, host, ShareMode::Open, "b".into(), "E:\\B".into(), "x", "\\\\H\\b".into()).unwrap();
    assert_eq!(second.share_config_id, 2);
    db.delete_share(1);
    assert_eq!(cluster_share(&db).0, "\\\\H\\b");
}

#[test]
fn a_share_on_an_unknown_host_is_refused() {
    let mut db = Db::new();
    match record_share(&mut db, 42, ShareMode::Managed, "ddc".into(), "D:\\DDC".into(), "ddc-svc", "\\\\X\\ddc".into()) {
        Err(UecmError::InvalidInput(m)) => assert_eq!(m, "machine 42 not found"),
        other => panic!("unexpected {:?}", other),
    }
    assert!(db.all_shares().is_empty());
    assert!(db.list_credentials().is_empty());
}

#[test]
fn the_cluster_share_account_comes_from_its_saved_credential() {
    let mut db = Db::new();
    assert_eq!(cluster_share(&db), (String::new(), "ddc-svc".to_string()));
    let host = db.insert_machine(&Machine::new("H", "10.0.0.4")).unwrap();
    record_share(&mut db, host, ShareMode::Managed, "ddc".into(), "D:\\DDC".into(), "cache-svc", "\\\\H\\ddc".into()).unwrap();
    assert_eq!(cluster_share(&db).1, "cache-svc");
    db.save_credential(&CredentialRecord { alias: "UECM:share:H:cache-svc".into(), username: "CACHE\\svc".into(), kind: "share".into() });
    assert_eq!(cluster_share(&db).1, "CACHE\\svc");
    db.delete_credential("UECM:share:H:cache-svc");
    assert_eq!(cluster_share(&db).1, "ddc-svc");
}
