use uecm::error::UecmError;
use uecm::winrm::{bootstrap_verdict, password_source, preflight_verdict, probe_verdict, PasswordSource};

#[test]
fn inline_password_wins_and_one_source_is_required() {
    match password_source(Some("pw".into()), true).unwrap() {
        PasswordSource::Given(p) => assert_eq!(p, "pw"),
        other => panic!("unexpected {:?}", other),
    }
    assert!(matches!(password_source(None, true).unwrap(), PasswordSource::ReadStdin));
    match password_source(None, false) {
        Err(UecmError::InvalidInput(m)) => assert_eq!(m, "this command requires --pass or --pass-stdin"),
        other => panic!("unexpected {:?}", other),
    }
}

#[test]
fn failed_probe_and_bootstrap_name_the_host() {
    assert!(probe_verdict("h1", true, "").is_ok());
    match probe_verdict("h1", false, "access denied") {
        Err(UecmError::PowerShell(m)) => assert_eq!(m, "winrm probe of h1 reported failure: access denied"),
        other => panic!("unexpected {:?}", other),
    }
    assert!(bootstrap_verdict("h2", true, "done").is_ok());
    match bootstrap_verdict("h2", false, "psexec missing") {
        Err(UecmError::OperationFailed(m)) => {
            assert_eq!(m, "winrm bootstrap of h2 reported failure: psexec missing")
        }
        other => panic!("unexpected {:?}", other),
    }
}

#[test]
fn blocked_and_uncertain_preflights_fail() {
    assert!(preflight_verdict("h", "viable", "ok").is_ok());
    assert!(preflight_verdict("h", "likely_viable", "ok").is_ok());
    match preflight_verdict("h", "blocked", "UAC remote restrictions") {
        Err(UecmError::OperationFailed(m)) => {
            assert_eq!(m, "Path B preflight of h verdict=blocked: UAC remote restrictions")
        }
        other => panic!("unexpected {:?}", other),
    }
    assert!(preflight_verdict("h", "uncertain", "PsExec64 missing").is_err());
}
