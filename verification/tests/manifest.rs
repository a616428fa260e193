use uecm::args::{Domain, MachineAction, SystemAction, GpuAction};
use uecm::credential_args::CredentialArgs;
use uecm::grammar::command_spec;
use uecm::manifest::{operation_id_for, operations, output_kind, OutputKind};

#[test]
fn operation_ids_are_unique() {
    let mut ids: Vec<&str> = operations().iter().map(|o| o.operation_id).collect();
    ids.sort_unstable();
    let before = ids.len();
    ids.dedup();
    assert_eq!(before, ids.len(), "duplicate operation_id");
}

#[test]
fn commands_map_to_registered_ids() {
    let ids: Vec<&str> = operations().iter().map(|o| o.operation_id).collect();
    let scan = Domain::Machine { action: MachineAction::Scan { cidr: "10.0.0.0/24".into(), timeout_ms: 1 } };
    assert_eq!(operation_id_for(&scan), "machine.scan");
    assert!(ids.contains(&operation_id_for(&scan)));
    let v = Domain::System { action: SystemAction::DbPath };
    assert_eq!(operation_id_for(&v), "system.db_path");
    let gpu = Domain::Gpu { action: GpuAction::Matrix };
    assert_eq!(operation_id_for(&gpu), "gpu.unmapped");
}

#[test]
fn deep_scan_and_authorize_map_to_their_registry_rows() {
    let ids: Vec<&str> = operations().iter().map(|o| o.operation_id).collect();
    let ds = Domain::Machine {
        action: MachineAction::DeepScan { machine_ids: vec![1], all: false, cred: CredentialArgs::inline(None) },
    };
    assert_eq!(operation_id_for(&ds), "machine.deep_scan");
    assert!(ids.contains(&operation_id_for(&ds)));
    let au = Domain::Machine {
        action: MachineAction::Authorize { machine_ids: vec![], all: true, save_as: None, cred: CredentialArgs::inline(None) },
    };
    assert_eq!(operation_id_for(&au), "machine.authorize");
    assert!(ids.contains(&operation_id_for(&au)));
}

#[test]
fn registry_commands_spell_their_ids_and_exit_codes_rise() {
    let ops = operations();
    assert_eq!(ops.len(), 16);
    for op in &ops {
        let words = op.operation_id.replace('.', " ").replace('_', "-");
        assert_eq!(op.cli_command, format!("uecm-cli {}", words));
        assert_eq!(op.exit_codes[0], 0);
        assert!(op.exit_codes.windows(2).all(|w| w[0] < w[1]));
        assert!(op.exit_codes.iter().all(|c| (0..=4).contains(c)));
    }
}

#[test]
fn output_kinds_follow_the_operation() {
    assert_eq!(output_kind("system.version"), OutputKind::Version);
    assert_eq!(output_kind("system.ps_dir"), OutputKind::Path);
    assert_eq!(output_kind("machine.deep_scan"), OutputKind::Events);
    assert_eq!(output_kind("machine.list"), OutputKind::Dynamic);
    assert_eq!(output_kind("zen.status"), OutputKind::Dynamic);
}

#[test]
fn every_registered_command_has_an_argument_shape() {
    for op in operations() {
        let words: Vec<String> = op.cli_command.split_whitespace().skip(1).map(String::from).collect();
        assert!(command_spec(&words).is_some(), "{}", op.cli_command);
    }
    let refresh = command_spec(&vec!["machine".to_string(), "refresh".to_string()]).unwrap();
    assert_eq!(refresh.pos.len(), 1);
    assert_eq!(refresh.pos[0].name, "id");
    assert!(command_spec(&vec!["machine".to_string()]).is_none());
    assert!(command_spec(&vec!["machine".to_string(), "nope".to_string()]).is_none());
}
