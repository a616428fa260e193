use uecm::args::{Domain, MachineAction, SystemAction};
use uecm::cli_parse::UsageError;
use uecm::dispatch::{needs_db, usage_exit_code, wants_structured_output};
use uecm::error::UecmError;
use uecm::output::{
    error_code, error_event_line, exit_code_for, host_probe_line, item_completed_line, item_started_line,
    progress_suffix, started_line,
};

#[test]
fn error_event_uses_stable_code() {
    let err = UecmError::InvalidInput("bad".into());
    assert_eq!(error_code(&err), "invalid_input");
    assert_eq!(exit_code_for(&err), 2);
}

#[test]
fn environment_failures_share_code_and_exit_status() {
    for e in [
        UecmError::Configuration("c".into()),
        UecmError::Database("d".into()),
        UecmError::Io("i".into()),
    ] {
        assert_eq!(error_code(&e), "environment_error");
        assert_eq!(exit_code_for(&e), 3);
    }
    assert_eq!(exit_code_for(&UecmError::PowerShell("p".into())), 4);
    assert_eq!(error_code(&UecmError::OperationFailed("o".into())), "operation_failed");
    assert_eq!(exit_code_for(&UecmError::OperationFailed("o".into())), 1);
}

#[test]
fn only_stateful_commands_open_the_database() {
    let scan = Domain::Machine { action: MachineAction::Scan { cidr: "c".into(), timeout_ms: 1 } };
    assert!(!needs_db(&scan));
    assert!(needs_db(&Domain::Machine { action: MachineAction::List }));
    assert!(!needs_db(&Domain::System { action: SystemAction::Version }));
    assert!(needs_db(&Domain::System { action: SystemAction::MigrateDb }));
}

#[test]
fn usage_errors_exit_64_but_help_exits_0() {
    assert_eq!(usage_exit_code(&UsageError::Help), 0);
    assert_eq!(usage_exit_code(&UsageError::Version), 0);
    assert_eq!(usage_exit_code(&UsageError::MissingSubcommand), 64);
}

#[test]
fn structured_output_is_sniffed_from_raw_argv() {
    let v = |xs: &[&str]| xs.iter().map(|s| s.to_string()).collect::<Vec<String>>();
    assert!(wants_structured_output(&v(&["uecm-cli", "--json", "bogus"])));
    assert!(wants_structured_output(&v(&["uecm-cli", "-o", "ndjson"])));
    assert!(wants_structured_output(&v(&["uecm-cli", "--output=stream-json"])));
    assert!(!wants_structured_output(&v(&["uecm-cli", "-o"])));
    assert!(!wants_structured_output(&v(&["uecm-cli", "--output", "text"])));
}

#[test]
fn human_emits_host_probe_with_badges() {
    let s = host_probe_line("192.168.10.20", true, false);
    assert!(s.contains("192.168.10.20"));
    assert!(s.contains("winrm=✓"));
    assert!(s.contains("smb=✗"));
}

#[test]
fn human_lines_of_items_and_errors() {
    assert_eq!(started_line("ini_scan"), "→ starting ini_scan");
    assert_eq!(item_started_line("machine:4", 0, 3), "→ [1/3] machine:4");
    assert_eq!(item_completed_line("machine:4", true, None), "  ✓ machine:4 ");
    assert_eq!(item_completed_line("machine:5", false, Some("timeout")), "  ✗ machine:5 timeout");
    assert_eq!(progress_suffix(Some(2), Some(5)), " (2/5)");
    assert_eq!(progress_suffix(Some(2), None), "");
    assert_eq!(error_event_line("invalid_input", "bad flag"), "✗ error (invalid_input): bad flag");
}
