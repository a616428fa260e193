use uecm::credential_args::CredentialArgs;
use uecm::error::UecmError;
use uecm::store::Db;

fn fresh_db() -> Db {
    Db::new()
}

/// Resolution for flag sets that need nothing from stdin or the secret store.
fn resolve(args: &CredentialArgs, db: &Db) -> Result<Option<(String, String)>, UecmError> {
    let plan = args.resolve_plan(db)?;
    assert!(!plan.needs_secret());
    plan.complete(Ok(String::new()))
}

#[test]
fn resolve_returns_none_when_no_flags_given() {
    let args = CredentialArgs { cred_alias: None, user: None, pass: None, pass_stdin: false };
    let db = fresh_db();
    assert!(resolve(&args, &db).unwrap().is_none());
}

#[test]
fn inline_from_resolved_roundtrips_without_stdin() {
    let reused = CredentialArgs::inline(Some(("alice".into(), "pw".into())));
    let db = fresh_db();
    assert_eq!(resolve(&reused, &db).unwrap(), Some(("alice".into(), "pw".into())));

    let none = CredentialArgs::inline(None);
    assert!(resolve(&none, &db).unwrap().is_none());
}

#[test]
fn resolve_inline_user_pass() {
    let args = CredentialArgs {
        cred_alias: None,
        user: Some("alice".into()),
        pass: Some("hunter2".into()),
        pass_stdin: false,
    };
    let db = fresh_db();
    assert_eq!(resolve(&args, &db).unwrap(), Some(("alice".into(), "hunter2".into())));
}

#[test]
fn resolve_unknown_alias_returns_invalid_input() {
    let args = CredentialArgs { cred_alias: Some("nope".into()), user: None, pass: None, pass_stdin: false };
    let db = fresh_db();
    let r = args.resolve_plan(&db);
    assert!(matches!(r, Err(UecmError::InvalidInput(_))));
}

#[test]
fn unknown_alias_message_names_the_alias() {
    let args = CredentialArgs { cred_alias: Some("nope".into()), user: None, pass: None, pass_stdin: false };
    let db = fresh_db();
    match args.preflight(&db) {
        Err(UecmError::InvalidInput(m)) => assert_eq!(m, "credential alias 'nope' not found"),
        other => panic!("unexpected {:?}", other),
    }
}

#[test]
fn preflight_rejects_password_without_user() {
    let db = fresh_db();
    let args = CredentialArgs { cred_alias: None, user: None, pass: Some("p".into()), pass_stdin: false };
    match args.preflight(&db) {
        Err(UecmError::InvalidInput(m)) => assert_eq!(m, "inconsistent credential flags"),
        other => panic!("unexpected {:?}", other),
    }
    let stdin_only = CredentialArgs { cred_alias: None, user: None, pass: None, pass_stdin: true };
    assert!(stdin_only.preflight(&db).is_err());
    let user_stdin = CredentialArgs { cred_alias: None, user: Some("u".into()), pass: None, pass_stdin: true };
    assert!(user_stdin.preflight(&db).is_ok());
}

#[test]
fn stdin_password_is_trimmed_of_line_endings() {
    let db = fresh_db();
    let args = CredentialArgs { cred_alias: None, user: Some("bob".into()), pass: None, pass_stdin: true };
    let plan = args.resolve_plan(&db).unwrap();
    assert!(plan.needs_secret());
    let r = plan.complete(Ok("s3cret\r\n".to_string())).unwrap();
    assert_eq!(r, Some(("bob".to_string(), "s3cret".to_string())));
}

#[test]
fn stdin_read_error_is_passed_through() {
    let db = fresh_db();
    let args = CredentialArgs { cred_alias: None, user: Some("bob".into()), pass: None, pass_stdin: true };
    let plan = args.resolve_plan(&db).unwrap();
    let r = plan.complete(Err(UecmError::InvalidInput("read password from stdin: closed".into())));
    assert!(matches!(r, Err(UecmError::InvalidInput(_))));
}
