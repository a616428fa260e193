//! The command tree of `uecm-cli`: one enum per level, one variant per
//! subcommand. `crate::cli_parse::parse_cli` builds these from argv.

use vstd::prelude::*;
use crate::credential_args::CredentialArgs;

verus! {

/// Operator-facing override for the cache backend.
///
/// `Auto` defers to the routing table, `Legacy` forces the `.ddp` pak
/// workflow, `Zen` makes generate / verify / distribute no-ops.
#[derive(Debug, Clone, Copy, PartialEq, Eq)]
pub enum BackendChoice {
    Auto,
    Legacy,
    Zen,
}

/// `--host` / `--hosts` target selection shared by the write commands.
#[derive(Debug, Clone)]
pub struct HostArgs {
    /// A single host.
    pub host: Option<String>,
    /// A comma-separated host list.
    pub hosts: Option<Vec<String>>,
}

/// The parsed command line.
#[derive(Debug)]
pub struct Cli {
    /// Emit machine-readable JSON / NDJSON instead of human-friendly output.
    pub json: bool,
    /// Override DB path (otherwise resolved via startup module).
    pub db_path: Option<String>,
    /// Log level for tracing output to stderr (default `warn`).
    pub log_level: String,
    pub command: Domain,
}

#[derive(Debug)]
pub enum Domain {
    System { action: SystemAction },
    Machine { action: MachineAction },
    Winrm { action: WinrmAction },
    Cred { action: CredAction },
    Env { action: EnvAction },
    Ini { action: IniAction },
    Share { action: ShareAction },
    Project { action: ProjectAction },
    Health { action: HealthAction },
    Gpu { action: GpuAction },
    Ddc { action: DdcAction },
    Pso { action: PsoAction },
    Zen { action: ZenAction },
}

#[derive(Debug)]
pub enum SystemAction {
    Version,
    DbPath,
    PsDir,
    MigrateDb,
    Echo { message: String },
    Schema,
    ExitCodes,
}

#[derive(Debug)]
pub enum MachineAction {
    List,
    Scan { cidr: String, timeout_ms: u64 },
    Add { ip: String, hostname: Option<String> },
    Refresh { id: i64, cred: CredentialArgs },
    Detail { id: i64 },
    Delete { id: i64, yes: bool, dry_run: bool },
    Rename { id: i64, hostname: String },
    /// Probe, refresh, INI-scan and health-check the selected machines.
    DeepScan { machine_ids: Vec<i64>, all: bool, cred: CredentialArgs },
    /// Open WinRM on the selected machines (remote bootstrap or USB fallback).
    Authorize { machine_ids: Vec<i64>, all: bool, save_as: Option<String>, cred: CredentialArgs },
}

#[derive(Debug)]
pub enum WinrmAction {
    Probe { host: String },
    BootstrapScript { output: Option<String> },
    Bootstrap {
        host: String,
        user: String,
        pass: Option<String>,
        pass_stdin: bool,
        enable_local_admin: bool,
    },
    Preflight { host: String, user: String, pass: Option<String>, pass_stdin: bool, probe: bool },
}

#[derive(Debug)]
pub enum CredAction {
    List,
    Save { alias: String, user: String, pass: Option<String>, pass_stdin: bool, kind: String },
    Delete { alias: String, yes: bool, dry_run: bool },
}

#[derive(Debug)]
pub enum EnvAction {
    Get { host: String, name: String, cred: CredentialArgs },
    /// `env set`; named `SetValue` because `Set` is a type of the Verus prelude.
    SetValue {
        target: HostArgs,
        name: String,
        value: String,
        yes: bool,
        dry_run: bool,
        cred: CredentialArgs,
    },
}

#[derive(Debug)]
pub enum IniAction {
    Read { host: String, file: String, section: String, cred: CredentialArgs },
    /// `ini set`; named `SetKey` because `Set` is a type of the Verus prelude.
    SetKey {
        target: HostArgs,
        file: String,
        section: String,
        key: String,
        value: String,
        yes: bool,
        dry_run: bool,
        cred: CredentialArgs,
    },
    Remove {
        target: HostArgs,
        file: String,
        section: String,
        key: String,
        yes: bool,
        dry_run: bool,
        cred: CredentialArgs,
    },
    Scan { machine_ids: Vec<i64>, cred: CredentialArgs },
    Runs { limit: i64 },
    Findings { scan_run_id: i64, severity: Option<String> },
    GetFinding { finding_id: i64 },
    Apply { finding_id: i64, yes: bool, dry_run: bool, cred: CredentialArgs },
    Skip { finding_id: i64 },
    VerifyPsoPrecaching { project_id: i64 },
}

#[derive(Debug)]
pub enum ShareAction {
    List,
    Forget { id: i64, yes: bool, dry_run: bool },
    Create {
        mode: String,
        host: String,
        share: String,
        local_path: String,
        yes: bool,
        dry_run: bool,
        cred: CredentialArgs,
    },
    InjectSystemCred {
        client_host: String,
        target_host: String,
        svc_user: String,
        yes: bool,
        dry_run: bool,
        cred: CredentialArgs,
    },
}

#[derive(Debug)]
pub enum ProjectAction {
    List,
    Locations { project_id: i64 },
    Discover { machine_id: i64, roots: Vec<String>, cred: CredentialArgs },
    CreateManual { uproject_name: String, display_name: Option<String> },
    SetLocation {
        project_id: i64,
        machine_id: i64,
        abs_path: String,
        uproject_path: String,
        manual_path: bool,
    },
    Delete { id: i64, yes: bool, dry_run: bool },
    DeleteLocation { id: i64, yes: bool, dry_run: bool },
}

#[derive(Debug)]
pub enum HealthAction {
    Run { machine_ids: Vec<i64>, cidr: Option<String>, all: bool, cred: CredentialArgs },
    Runs { limit: i64 },
    Results { scan_run_id: i64 },
}

#[derive(Debug)]
pub enum GpuAction {
    Matrix,
}

#[derive(Debug)]
pub enum DdcAction {
    Generate {
        project_id: i64,
        source_machine: i64,
        backend: BackendChoice,
        cred: CredentialArgs,
    },
    Verify { project_id: i64, source_machine: i64, backend: BackendChoice, cred: CredentialArgs },
    Distribute {
        project_id: i64,
        source_machine: i64,
        targets: Vec<i64>,
        yes: bool,
        dry_run: bool,
        backend: BackendChoice,
        cred: CredentialArgs,
    },
}

#[derive(Debug)]
pub enum PsoAction {
    Verify { project_id: i64 },
    Collect {
        project_id: i64,
        source_machine: i64,
        resolution: String,
        windowed: bool,
        max_minutes: u32,
        cred: CredentialArgs,
    },
    List { project_id: i64 },
    Distribute {
        project_id: i64,
        source_machine: i64,
        targets: Vec<i64>,
        yes: bool,
        dry_run: bool,
        cred: CredentialArgs,
    },
}

#[derive(Debug)]
pub enum ZenAction {
    Status { machine: Option<i64>, all: bool },
    Probe { machine: Option<i64>, all: bool, timeout: u64, cred: CredentialArgs },
    CacheStats { endpoint_id: Option<i64>, all: bool, timeout: u64 },
    DetectBinary { machine: Option<i64>, all: bool, cred: CredentialArgs },
    ListEndpoints { machine: Option<i64> },
    Baseline { action: ZenBaselineAction },
    Register {
        machine: i64,
        declared_port: i64,
        scheme: String,
        role: String,
        upstream_endpoint_id: Option<i64>,
        data_dir: String,
        httpserverclass: String,
        lifecycle: Option<String>,
    },
    Unregister { endpoint_id: i64, yes: bool, dry_run: bool },
    ApplyConfig {
        endpoint_id: i64,
        dest_path: String,
        yes: bool,
        dry_run: bool,
        cred: CredentialArgs,
    },
    LuaPreview { endpoint_id: i64 },
    Service { action: ZenServiceAction },
    Urlacl { action: ZenUrlaclAction },
}

#[derive(Debug)]
pub enum ZenBaselineAction {
    List { zen_build_version: Option<String>, kind: Option<String> },
    Lock { zen_build_version: String, kind: String, locked_by: String, yes: bool, dry_run: bool },
    Unlock { zen_build_version: String, kind: String, yes: bool, dry_run: bool },
}

#[derive(Debug)]
pub enum ZenServiceAction {
    Install { endpoint_id: i64, yes: bool, dry_run: bool, cred: CredentialArgs },
    Uninstall { endpoint_id: i64, yes: bool, dry_run: bool, cred: CredentialArgs },
    Start { endpoint_id: i64, cred: CredentialArgs },
    Stop { endpoint_id: i64, yes: bool, dry_run: bool, cred: CredentialArgs },
    Status { endpoint_id: i64, cred: CredentialArgs },
}

#[derive(Debug)]
pub enum ZenUrlaclAction {
    Add { endpoint_id: i64, principal: String, yes: bool, dry_run: bool, cred: CredentialArgs },
    List { machine: i64, port_filter: Option<String>, cred: CredentialArgs },
    Remove { endpoint_id: i64, yes: bool, dry_run: bool, cred: CredentialArgs },
}

} // verus!
