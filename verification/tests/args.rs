use uecm::args::{BackendChoice, Cli, CredAction, DdcAction, Domain, EnvAction, HealthAction, MachineAction};
use uecm::cli_parse::UsageError;

fn try_parse_from(args: &[&str]) -> Result<Cli, UsageError> {
    let argv: Vec<String> = args.iter().map(|s| s.to_string()).collect();
    Cli::try_parse_from(&argv)
}

#[test]
fn parses_machine_scan() {
    let cli = try_parse_from(&["uecm-cli", "machine", "scan", "192.168.10.0/24"]).unwrap();
    match cli.command {
        Domain::Machine { action: MachineAction::Scan { cidr, timeout_ms } } => {
            assert_eq!(cidr, "192.168.10.0/24");
            assert_eq!(timeout_ms, 1000);
        }
        _ => panic!("wrong variant"),
    }
    assert!(!cli.json);
}

#[test]
fn parses_global_json_flag_before_subcommand() {
    let cli = try_parse_from(&["uecm-cli", "--json", "system", "version"]).unwrap();
    assert!(cli.json);
}

#[test]
fn parses_machine_refresh_by_id() {
    let cli = try_parse_from(&["uecm-cli", "machine", "refresh", "3"]).unwrap();
    match cli.command {
        Domain::Machine { action: MachineAction::Refresh { id, cred } } => {
            assert_eq!(id, 3);
            assert!(cred.cred_alias.is_none());
        }
        _ => panic!("wrong variant"),
    }
}

#[test]
fn refresh_rejects_unknown_flag() {
    let res = try_parse_from(&["uecm-cli", "machine", "refresh", "3", "--bogus-flag", "value"]);
    assert!(res.is_err());
}

#[test]
fn parses_machine_refresh_with_cred_alias() {
    let cli = try_parse_from(&["uecm-cli", "machine", "refresh", "3", "--cred-alias", "winrm-admin"])
        .unwrap();
    match cli.command {
        Domain::Machine { action: MachineAction::Refresh { id, cred } } => {
            assert_eq!(id, 3);
            assert_eq!(cred.cred_alias.as_deref(), Some("winrm-admin"));
        }
        _ => panic!("wrong variant"),
    }
}

#[test]
fn parses_cred_save_with_alias_and_user() {
    let cli = try_parse_from(&[
        "uecm-cli", "cred", "save", "--alias", "winrm-admin", "--user", "Administrator",
        "--pass-stdin",
    ])
    .unwrap();
    match cli.command {
        Domain::Cred { action: CredAction::Save { alias, user, pass, pass_stdin, .. } } => {
            assert_eq!(alias, "winrm-admin");
            assert_eq!(user, "Administrator");
            assert_eq!(pass, None);
            assert!(pass_stdin);
        }
        _ => panic!("wrong variant"),
    }
}

#[test]
fn cred_save_rejects_both_pass_and_pass_stdin() {
    let r = try_parse_from(&[
        "uecm-cli", "cred", "save", "--alias", "a", "--user", "u", "--pass", "p", "--pass-stdin",
    ]);
    assert!(r.is_err());
}

#[test]
fn env_set_rejects_both_host_and_hosts() {
    let r = try_parse_from(&[
        "uecm-cli", "env", "set", "--host", "a", "--hosts", "b,c", "--name", "X", "--value", "Y",
    ]);
    assert!(r.is_err());
}

#[test]
fn env_set_accepts_hosts_list() {
    let cli = try_parse_from(&[
        "uecm-cli", "env", "set", "--hosts", "a,b,c", "--name", "X", "--value", "Y",
    ])
    .unwrap();
    match cli.command {
        Domain::Env { action: EnvAction::SetValue { target, name, value, .. } } => {
            assert_eq!(target.hosts, Some(vec!["a".to_string(), "b".to_string(), "c".to_string()]));
            assert_eq!(name, "X");
            assert_eq!(value, "Y");
        }
        _ => panic!("wrong variant"),
    }
}

#[test]
fn parses_health_run_with_machine_ids() {
    let cli = try_parse_from(&["uecm-cli", "health", "run", "--machine-ids", "1,2,3"]).unwrap();
    match cli.command {
        Domain::Health { action: HealthAction::Run { machine_ids, cidr, all, .. } } => {
            assert_eq!(machine_ids, vec![1, 2, 3]);
            assert_eq!(cidr, None);
            assert_eq!(all, false);
        }
        _ => panic!("expected Health::Run"),
    }
}

#[test]
fn parses_health_run_with_cidr() {
    let cli = try_parse_from(&["uecm-cli", "health", "run", "--cidr", "192.168.10.0/24"]).unwrap();
    match cli.command {
        Domain::Health { action: HealthAction::Run { cidr, .. } } => {
            assert_eq!(cidr.as_deref(), Some("192.168.10.0/24"));
        }
        _ => panic!("expected Health::Run"),
    }
}

#[test]
fn parses_health_run_with_all_flag() {
    let cli = try_parse_from(&["uecm-cli", "health", "run", "--all"]).unwrap();
    match cli.command {
        Domain::Health { action: HealthAction::Run { all, .. } } => assert!(all),
        _ => panic!("expected Health::Run"),
    }
}

#[test]
fn parses_health_run_with_no_target_mode() {
    let cli = try_parse_from(&["uecm-cli", "health", "run"]).unwrap();
    match cli.command {
        Domain::Health { action: HealthAction::Run { machine_ids, cidr, all, .. } } => {
            assert!(machine_ids.is_empty());
            assert_eq!(cidr, None);
            assert_eq!(all, false);
        }
        _ => panic!("expected Health::Run"),
    }
}

#[test]
fn rejects_cidr_and_machine_ids_together() {
    let r = try_parse_from(&["uecm-cli", "health", "run", "--cidr", "10.0.0.0/24", "--machine-ids", "1"]);
    assert!(r.is_err(), "should reject --cidr + --machine-ids");
}

#[test]
fn rejects_all_and_cidr_together() {
    let r = try_parse_from(&["uecm-cli", "health", "run", "--all", "--cidr", "10.0.0.0/24"]);
    assert!(r.is_err(), "should reject --all + --cidr");
}

#[test]
fn ddc_generate_backend_defaults_to_auto() {
    let cli = try_parse_from(&[
        "uecm-cli", "ddc", "generate", "--project-id", "1", "--source-machine", "1",
    ])
    .unwrap();
    match cli.command {
        Domain::Ddc { action: DdcAction::Generate { backend, .. } } => {
            assert_eq!(backend, BackendChoice::Auto);
        }
        _ => panic!("expected Ddc::Generate"),
    }
}

#[test]
fn ddc_generate_accepts_backend_zen() {
    let cli = try_parse_from(&[
        "uecm-cli", "ddc", "generate", "--project-id", "1", "--source-machine", "1", "--backend",
        "zen",
    ])
    .unwrap();
    match cli.command {
        Domain::Ddc { action: DdcAction::Generate { backend, .. } } => {
            assert_eq!(backend, BackendChoice::Zen);
        }
        _ => panic!("expected Ddc::Generate"),
    }
}

#[test]
fn ddc_verify_accepts_backend_legacy() {
    let cli = try_parse_from(&[
        "uecm-cli", "ddc", "verify", "--project-id", "1", "--source-machine", "1", "--backend",
        "legacy",
    ])
    .unwrap();
    match cli.command {
        Domain::Ddc { action: DdcAction::Verify { backend, .. } } => {
            assert_eq!(backend, BackendChoice::Legacy);
        }
        _ => panic!("expected Ddc::Verify"),
    }
}

#[test]
fn ddc_distribute_accepts_backend_zen() {
    let cli = try_parse_from(&[
        "uecm-cli", "ddc", "distribute", "--project-id", "1", "--source-machine", "1", "--targets",
        "2,3", "--backend", "zen", "--yes",
    ])
    .unwrap();
    match cli.command {
        Domain::Ddc { action: DdcAction::Distribute { backend, .. } } => {
            assert_eq!(backend, BackendChoice::Zen);
        }
        _ => panic!("expected Ddc::Distribute"),
    }
}

#[test]
fn ddc_generate_rejects_unknown_backend_value() {
    let r = try_parse_from(&[
        "uecm-cli", "ddc", "generate", "--project-id", "1", "--source-machine", "1", "--backend",
        "garbage",
    ]);
    assert!(r.is_err(), "unknown --backend values must be rejected");
}

#[test]
fn parses_machine_deep_scan_and_authorize() {
    let cli = try_parse_from(&["uecm-cli", "machine", "deep-scan", "--machine-ids", "1,2", "--cred-alias", "ops"]).unwrap();
    match cli.command {
        Domain::Machine { action: MachineAction::DeepScan { machine_ids, all, cred } } => {
            assert_eq!(machine_ids, vec![1, 2]);
            assert!(!all);
            assert_eq!(cred.cred_alias.as_deref(), Some("ops"));
        }
        _ => panic!("wrong variant"),
    }
    let cli = try_parse_from(&["uecm-cli", "machine", "authorize", "--all", "--save-as", "winrm-admin"]).unwrap();
    match cli.command {
        Domain::Machine { action: MachineAction::Authorize { machine_ids, all, save_as, .. } } => {
            assert!(machine_ids.is_empty());
            assert!(all);
            assert_eq!(save_as.as_deref(), Some("winrm-admin"));
        }
        _ => panic!("wrong variant"),
    }
}
