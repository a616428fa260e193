//! The `uecm-cli` command tree as data: which names lead where, the options
//! and positionals of every subcommand, and how a finished scan becomes a
//! `Cli` value. `parse_cli` ties it to the scanner of `crate::cli_parse`.

use vstd::prelude::*;
use crate::args::{
    Cli, CredAction, DdcAction, Domain, EnvAction, GpuAction, HealthAction, HostArgs, IniAction,
    MachineAction, ProjectAction, PsoAction, ShareAction, SystemAction, WinrmAction, ZenAction,
    ZenBaselineAction, ZenServiceAction, ZenUrlaclAction,
};
use crate::cli_parse::{
    backend_or_auto, first_conflict, first_missing, first_unmet, get_backend, get_given, get_int_or, get_ints, get_opt_int, get_opt_text,
    get_opt_texts, get_pos_int, get_pos_text, get_text_or, get_texts, get_uint_or, given, int_or,
    ints, leaf_wf, opt_int, opt_int_view, opt_text, pos_int, scan, scan_exec, slot_vals, text_or,
    uint_or, validate, validate_exec, Arity, Kind, LeafSpec, LeafV, OptSpec, PosSpec, Scan, ScanV,
    UsageError, UsageErrorV,
};
use crate::credential_args::CredentialArgs;
use crate::text::{chars_of, is_lit};

verus! {

/// A node of the command tree that has subcommands.
#[derive(Debug, Clone, Copy)]
pub enum Group {
    Root,
    System,
    Machine,
    Winrm,
    Cred,
    Env,
    Ini,
    Share,
    Project,
    Health,
    Gpu,
    Ddc,
    Pso,
    Zen,
    ZenBaseline,
    ZenService,
    ZenUrlacl,
}

/// A subcommand that takes options (a leaf of the command tree).
#[derive(Debug, Clone, Copy)]
pub enum Leaf {
    SystemVersion,
    SystemDbPath,
    SystemPsDir,
    SystemMigrateDb,
    SystemEcho,
    SystemSchema,
    SystemExitCodes,
    MachineList,
    MachineScan,
    MachineAdd,
    MachineRefresh,
    MachineDetail,
    MachineDelete,
    MachineRename,
    MachineDeepScan,
    MachineAuthorize,
    WinrmProbe,
    WinrmBootstrapScript,
    WinrmBootstrap,
    WinrmPreflight,
    CredList,
    CredSave,
    CredDelete,
    EnvGet,
    EnvSet,
    IniRead,
    IniSet,
    IniRemove,
    IniScan,
    IniRuns,
    IniFindings,
    IniGetFinding,
    IniApply,
    IniSkip,
    IniVerifyPsoPrecaching,
    ShareList,
    ShareForget,
    ShareCreate,
    ShareInjectSystemCred,
    ProjectList,
    ProjectLocations,
    ProjectDiscover,
    ProjectCreateManual,
    ProjectSetLocation,
    ProjectDelete,
    ProjectDeleteLocation,
    HealthRun,
    HealthRuns,
    HealthResults,
    GpuMatrix,
    DdcGenerate,
    DdcVerify,
    DdcDistribute,
    PsoVerify,
    PsoCollect,
    PsoList,
    PsoDistribute,
    ZenStatus,
    ZenProbe,
    ZenCacheStats,
    ZenDetectBinary,
    ZenListEndpoints,
    ZenBaselineList,
    ZenBaselineLock,
    ZenBaselineUnlock,
    ZenRegister,
    ZenUnregister,
    ZenApplyConfig,
    ZenLuaPreview,
    ZenServiceInstall,
    ZenServiceUninstall,
    ZenServiceStart,
    ZenServiceStop,
    ZenServiceStatus,
    ZenUrlaclAdd,
    ZenUrlaclList,
    ZenUrlaclRemove,
}

/// Where a subcommand name leads.
#[derive(Debug, Clone, Copy)]
pub enum Route {
    Group(Group),
    Leaf(Leaf),
}

/// How deep the tree below a group still goes.
pub open spec fn group_rank(g: Group) -> nat {
    match g {
        Group::Root => 2,
        Group::Zen => 1,
        _ => 0,
    }
}

/// The subcommand of `g` called `name`.
pub open spec fn child(g: Group, name: Seq<char>) -> Option<Route> {
    match g {
        Group::Root => if name == "system"@ {
            Some(Route::Group(Group::System))
        } else if name == "machine"@ {
            Some(Route::Group(Group::Machine))
        } else if name == "winrm"@ {
            Some(Route::Group(Group::Winrm))
        } else if name == "cred"@ {
            Some(Route::Group(Group::Cred))
        } else if name == "env"@ {
            Some(Route::Group(Group::Env))
        } else if name == "ini"@ {
            Some(Route::Group(Group::Ini))
        } else if name == "share"@ {
            Some(Route::Group(Group::Share))
        } else if name == "project"@ {
            Some(Route::Group(Group::Project))
        } else if name == "health"@ {
            Some(Route::Group(Group::Health))
        } else if name == "gpu"@ {
            Some(Route::Group(Group::Gpu))
        } else if name == "ddc"@ {
            Some(Route::Group(Group::Ddc))
        } else if name == "pso"@ {
            Some(Route::Group(Group::Pso))
        } else if name == "zen"@ {
            Some(Route::Group(Group::Zen))
        } else {
            None
        },
        Group::System => if name == "version"@ {
            Some(Route::Leaf(Leaf::SystemVersion))
        } else if name == "db-path"@ {
            Some(Route::Leaf(Leaf::SystemDbPath))
        } else if name == "ps-dir"@ {
            Some(Route::Leaf(Leaf::SystemPsDir))
        } else if name == "migrate-db"@ {
            Some(Route::Leaf(Leaf::SystemMigrateDb))
        } else if name == "echo"@ {
            Some(Route::Leaf(Leaf::SystemEcho))
        } else if name == "schema"@ {
            Some(Route::Leaf(Leaf::SystemSchema))
        } else if name == "exit-codes"@ {
            Some(Route::Leaf(Leaf::SystemExitCodes))
        } else {
            None
        },
        Group::Machine => if name == "list"@ {
            Some(Route::Leaf(Leaf::MachineList))
        } else if name == "scan"@ {
            Some(Route::Leaf(Leaf::MachineScan))
        } else if name == "add"@ {
            Some(Route::Leaf(Leaf::MachineAdd))
        } else if name == "refresh"@ {
            Some(Route::Leaf(Leaf::MachineRefresh))
        } else if name == "detail"@ {
            Some(Route::Leaf(Leaf::MachineDetail))
        } else if name == "delete"@ {
            Some(Route::Leaf(Leaf::MachineDelete))
        } else if name == "rename"@ {
            Some(Route::Leaf(Leaf::MachineRename))
        } else if name == "deep-scan"@ {
            Some(Route::Leaf(Leaf::MachineDeepScan))
        } else if name == "authorize"@ {
            Some(Route::Leaf(Leaf::MachineAuthorize))
        } else {
            None
        },
        Group::Winrm => if name == "probe"@ {
            Some(Route::Leaf(Leaf::WinrmProbe))
        } else if name == "bootstrap-script"@ {
            Some(Route::Leaf(Leaf::WinrmBootstrapScript))
        } else if name == "bootstrap"@ {
            Some(Route::Leaf(Leaf::WinrmBootstrap))
        } else if name == "preflight"@ {
            Some(Route::Leaf(Leaf::WinrmPreflight))
        } else {
            None
        },
        Group::Cred => if name == "list"@ {
            Some(Route::Leaf(Leaf::CredList))
        } else if name == "save"@ {
            Some(Route::Leaf(Leaf::CredSave))
        } else if name == "delete"@ {
            Some(Route::Leaf(Leaf::CredDelete))
        } else {
            None
        },
        Group::Env => if name == "get"@ {
            Some(Route::Leaf(Leaf::EnvGet))
        } else if name == "set"@ {
            Some(Route::Leaf(Leaf::EnvSet))
        } else {
            None
        },
        Group::Ini => if name == "read"@ {
            Some(Route::Leaf(Leaf::IniRead))
        } else if name == "set"@ {
            Some(Route::Leaf(Leaf::IniSet))
        } else if name == "remove"@ {
            Some(Route::Leaf(Leaf::IniRemove))
        } else if name == "scan"@ {
            Some(Route::Leaf(Leaf::IniScan))
        } else if name == "runs"@ {
            Some(Route::Leaf(Leaf::IniRuns))
        } else if name == "findings"@ {
            Some(Route::Leaf(Leaf::IniFindings))
        } else if name == "get-finding"@ {
            Some(Route::Leaf(Leaf::IniGetFinding))
        } else if name == "apply"@ {
            Some(Route::Leaf(Leaf::IniApply))
        } else if name == "skip"@ {
            Some(Route::Leaf(Leaf::IniSkip))
        } else if name == "verify-pso-precaching"@ {
            Some(Route::Leaf(Leaf::IniVerifyPsoPrecaching))
        } else {
            None
        },
        Group::Share => if name == "list"@ {
            Some(Route::Leaf(Leaf::ShareList))
        } else if name == "forget"@ {
            Some(Route::Leaf(Leaf::ShareForget))
        } else if name == "create"@ {
            Some(Route::Leaf(Leaf::ShareCreate))
        } else if name == "inject-system-cred"@ {
            Some(Route::Leaf(Leaf::ShareInjectSystemCred))
        } else {
            None
        },
        Group::Project => if name == "list"@ {
            Some(Route::Leaf(Leaf::ProjectList))
        } else if name == "locations"@ {
            Some(Route::Leaf(Leaf::ProjectLocations))
        } else if name == "discover"@ {
            Some(Route::Leaf(Leaf::ProjectDiscover))
        } else if name == "create-manual"@ {
            Some(Route::Leaf(Leaf::ProjectCreateManual))
        } else if name == "set-location"@ {
            Some(Route::Leaf(Leaf::ProjectSetLocation))
        } else if name == "delete"@ {
            Some(Route::Leaf(Leaf::ProjectDelete))
        } else if name == "delete-location"@ {
            Some(Route::Leaf(Leaf::ProjectDeleteLocation))
        } else {
            None
        },
        Group::Health => if name == "run"@ {
            Some(Route::Leaf(Leaf::HealthRun))
        } else if name == "runs"@ {
            Some(Route::Leaf(Leaf::HealthRuns))
        } else if name == "results"@ {
            Some(Route::Leaf(Leaf::HealthResults))
        } else {
            None
        },
        Group::Gpu => if name == "matrix"@ {
            Some(Route::Leaf(Leaf::GpuMatrix))
        } else {
            None
        },
        Group::Ddc => if name == "generate"@ {
            Some(Route::Leaf(Leaf::DdcGenerate))
        } else if name == "verify"@ {
            Some(Route::Leaf(Leaf::DdcVerify))
        } else if name == "distribute"@ {
            Some(Route::Leaf(Leaf::DdcDistribute))
        } else {
            None
        },
        Group::Pso => if name == "verify"@ {
            Some(Route::Leaf(Leaf::PsoVerify))
        } else if name == "collect"@ {
            Some(Route::Leaf(Leaf::PsoCollect))
        } else if name == "list"@ {
            Some(Route::Leaf(Leaf::PsoList))
        } else if name == "distribute"@ {
            Some(Route::Leaf(Leaf::PsoDistribute))
        } else {
            None
        },
        Group::Zen => if name == "status"@ {
            Some(Route::Leaf(Leaf::ZenStatus))
        } else if name == "probe"@ {
            Some(Route::Leaf(Leaf::ZenProbe))
        } else if name == "cache-stats"@ {
            Some(Route::Leaf(Leaf::ZenCacheStats))
        } else if name == "detect-binary"@ {
            Some(Route::Leaf(Leaf::ZenDetectBinary))
        } else if name == "list-endpoints"@ {
            Some(Route::Leaf(Leaf::ZenListEndpoints))
        } else if name == "register"@ {
            Some(Route::Leaf(Leaf::ZenRegister))
        } else if name == "unregister"@ {
            Some(Route::Leaf(Leaf::ZenUnregister))
        } else if name == "apply-config"@ {
            Some(Route::Leaf(Leaf::ZenApplyConfig))
        } else if name == "lua-preview"@ {
            Some(Route::Leaf(Leaf::ZenLuaPreview))
        } else if name == "baseline"@ {
            Some(Route::Group(Group::ZenBaseline))
        } else if name == "service"@ {
            Some(Route::Group(Group::ZenService))
        } else if name == "urlacl"@ {
            Some(Route::Group(Group::ZenUrlacl))
        } else {
            None
        },
        Group::ZenBaseline => if name == "list"@ {
            Some(Route::Leaf(Leaf::ZenBaselineList))
        } else if name == "lock"@ {
            Some(Route::Leaf(Leaf::ZenBaselineLock))
        } else if name == "unlock"@ {
            Some(Route::Leaf(Leaf::ZenBaselineUnlock))
        } else {
            None
        },
        Group::ZenService => if name == "install"@ {
            Some(Route::Leaf(Leaf::ZenServiceInstall))
        } else if name == "uninstall"@ {
            Some(Route::Leaf(Leaf::ZenServiceUninstall))
        } else if name == "start"@ {
            Some(Route::Leaf(Leaf::ZenServiceStart))
        } else if name == "stop"@ {
            Some(Route::Leaf(Leaf::ZenServiceStop))
        } else if name == "status"@ {
            Some(Route::Leaf(Leaf::ZenServiceStatus))
        } else {
            None
        },
        Group::ZenUrlacl => if name == "add"@ {
            Some(Route::Leaf(Leaf::ZenUrlaclAdd))
        } else if name == "list"@ {
            Some(Route::Leaf(Leaf::ZenUrlaclList))
        } else if name == "remove"@ {
            Some(Route::Leaf(Leaf::ZenUrlaclRemove))
        } else {
            None
        },
    }
}

/// A subcommand group's child group ranks below it, so descending the
/// command tree terminates.
pub proof fn lemma_child_rank(g: Group, name: Seq<char>)
    ensures
        child(g, name) matches Some(Route::Group(g2)) ==> group_rank(g2) < group_rank(g),
{
}

fn child_exec(g: Group, name: &[char]) -> (r: Option<Route>)
    ensures
        r == child(g, name@),
{
    match g {
        Group::Root => {
            if is_lit(name, "system") {
                Some(Route::Group(Group::System))
            } else if is_lit(name, "machine") {
                Some(Route::Group(Group::Machine))
            } else if is_lit(name, "winrm") {
                Some(Route::Group(Group::Winrm))
            } else if is_lit(name, "cred") {
                Some(Route::Group(Group::Cred))
            } else if is_lit(name, "env") {
                Some(Route::Group(Group::Env))
            } else if is_lit(name, "ini") {
                Some(Route::Group(Group::Ini))
            } else if is_lit(name, "share") {
                Some(Route::Group(Group::Share))
            } else if is_lit(name, "project") {
                Some(Route::Group(Group::Project))
            } else if is_lit(name, "health") {
                Some(Route::Group(Group::Health))
            } else if is_lit(name, "gpu") {
                Some(Route::Group(Group::Gpu))
            } else if is_lit(name, "ddc") {
                Some(Route::Group(Group::Ddc))
            } else if is_lit(name, "pso") {
                Some(Route::Group(Group::Pso))
            } else if is_lit(name, "zen") {
                Some(Route::Group(Group::Zen))
            } else {
                None
            }
        },
        Group::System => {
            if is_lit(name, "version") {
                Some(Route::Leaf(Leaf::SystemVersion))
            } else if is_lit(name, "db-path") {
                Some(Route::Leaf(Leaf::SystemDbPath))
            } else if is_lit(name, "ps-dir") {
                Some(Route::Leaf(Leaf::SystemPsDir))
            } else if is_lit(name, "migrate-db") {
                Some(Route::Leaf(Leaf::SystemMigrateDb))
            } else if is_lit(name, "echo") {
                Some(Route::Leaf(Leaf::SystemEcho))
            } else if is_lit(name, "schema") {
                Some(Route::Leaf(Leaf::SystemSchema))
            } else if is_lit(name, "exit-codes") {
                Some(Route::Leaf(Leaf::SystemExitCodes))
            } else {
                None
            }
        },
        Group::Machine => {
            if is_lit(name, "list") {
                Some(Route::Leaf(Leaf::MachineList))
            } else if is_lit(name, "scan") {
                Some(Route::Leaf(Leaf::MachineScan))
            } else if is_lit(name, "add") {
                Some(Route::Leaf(Leaf::MachineAdd))
            } else if is_lit(name, "refresh") {
                Some(Route::Leaf(Leaf::MachineRefresh))
            } else if is_lit(name, "detail") {
                Some(Route::Leaf(Leaf::MachineDetail))
            } else if is_lit(name, "delete") {
                Some(Route::Leaf(Leaf::MachineDelete))
            } else if is_lit(name, "rename") {
                Some(Route::Leaf(Leaf::MachineRename))
            } else if is_lit(name, "deep-scan") {
                Some(Route::Leaf(Leaf::MachineDeepScan))
            } else if is_lit(name, "authorize") {
                Some(Route::Leaf(Leaf::MachineAuthorize))
            } else {
                None
            }
        },
        Group::Winrm => {
            if is_lit(name, "probe") {
                Some(Route::Leaf(Leaf::WinrmProbe))
            } else if is_lit(name, "bootstrap-script") {
                Some(Route::Leaf(Leaf::WinrmBootstrapScript))
            } else if is_lit(name, "bootstrap") {
                Some(Route::Leaf(Leaf::WinrmBootstrap))
            } else if is_lit(name, "preflight") {
                Some(Route::Leaf(Leaf::WinrmPreflight))
            } else {
                None
            }
        },
        Group::Cred => {
            if is_lit(name, "list") {
                Some(Route::Leaf(Leaf::CredList))
            } else if is_lit(name, "save") {
                Some(Route::Leaf(Leaf::CredSave))
            } else if is_lit(name, "delete") {
                Some(Route::Leaf(Leaf::CredDelete))
            } else {
                None
            }
        },
        Group::Env => {
            if is_lit(name, "get") {
                Some(Route::Leaf(Leaf::EnvGet))
            } else if is_lit(name, "set") {
                Some(Route::Leaf(Leaf::EnvSet))
            } else {
                None
            }
        },
        Group::Ini => {
            if is_lit(name, "read") {
                Some(Route::Leaf(Leaf::IniRead))
            } else if is_lit(name, "set") {
                Some(Route::Leaf(Leaf::IniSet))
            } else if is_lit(name, "remove") {
                Some(Route::Leaf(Leaf::IniRemove))
            } else if is_lit(name, "scan") {
                Some(Route::Leaf(Leaf::IniScan))
            } else if is_lit(name, "runs") {
                Some(Route::Leaf(Leaf::IniRuns))
            } else if is_lit(name, "findings") {
                Some(Route::Leaf(Leaf::IniFindings))
            } else if is_lit(name, "get-finding") {
                Some(Route::Leaf(Leaf::IniGetFinding))
            } else if is_lit(name, "apply") {
                Some(Route::Leaf(Leaf::IniApply))
            } else if is_lit(name, "skip") {
                Some(Route::Leaf(Leaf::IniSkip))
            } else if is_lit(name, "verify-pso-precaching") {
                Some(Route::Leaf(Leaf::IniVerifyPsoPrecaching))
            } else {
                None
            }
        },
        Group::Share => {
            if is_lit(name, "list") {
                Some(Route::Leaf(Leaf::ShareList))
            } else if is_lit(name, "forget") {
                Some(Route::Leaf(Leaf::ShareForget))
            } else if is_lit(name, "create") {
                Some(Route::Leaf(Leaf::ShareCreate))
            } else if is_lit(name, "inject-system-cred") {
                Some(Route::Leaf(Leaf::ShareInjectSystemCred))
            } else {
                None
            }
        },
        Group::Project => {
            if is_lit(name, "list") {
                Some(Route::Leaf(Leaf::ProjectList))
            } else if is_lit(name, "locations") {
                Some(Route::Leaf(Leaf::ProjectLocations))
            } else if is_lit(name, "discover") {
                Some(Route::Leaf(Leaf::ProjectDiscover))
            } else if is_lit(name, "create-manual") {
                Some(Route::Leaf(Leaf::ProjectCreateManual))
            } else if is_lit(name, "set-location") {
                Some(Route::Leaf(Leaf::ProjectSetLocation))
            } else if is_lit(name, "delete") {
                Some(Route::Leaf(Leaf::ProjectDelete))
            } else if is_lit(name, "delete-location") {
                Some(Route::Leaf(Leaf::ProjectDeleteLocation))
            } else {
                None
            }
        },
        Group::Health => {
            if is_lit(name, "run") {
                Some(Route::Leaf(Leaf::HealthRun))
            } else if is_lit(name, "runs") {
                Some(Route::Leaf(Leaf::HealthRuns))
            } else if is_lit(name, "results") {
                Some(Route::Leaf(Leaf::HealthResults))
            } else {
                None
            }
        },
        Group::Gpu => {
            if is_lit(name, "matrix") {
                Some(Route::Leaf(Leaf::GpuMatrix))
            } else {
                None
            }
        },
        Group::Ddc => {
            if is_lit(name, "generate") {
                Some(Route::Leaf(Leaf::DdcGenerate))
            } else if is_lit(name, "verify") {
                Some(Route::Leaf(Leaf::DdcVerify))
            } else if is_lit(name, "distribute") {
                Some(Route::Leaf(Leaf::DdcDistribute))
            } else {
                None
            }
        },
        Group::Pso => {
            if is_lit(name, "verify") {
                Some(Route::Leaf(Leaf::PsoVerify))
            } else if is_lit(name, "collect") {
                Some(Route::Leaf(Leaf::PsoCollect))
            } else if is_lit(name, "list") {
                Some(Route::Leaf(Leaf::PsoList))
            } else if is_lit(name, "distribute") {
                Some(Route::Leaf(Leaf::PsoDistribute))
            } else {
                None
            }
        },
        Group::Zen => {
            if is_lit(name, "status") {
                Some(Route::Leaf(Leaf::ZenStatus))
            } else if is_lit(name, "probe") {
                Some(Route::Leaf(Leaf::ZenProbe))
            } else if is_lit(name, "cache-stats") {
                Some(Route::Leaf(Leaf::ZenCacheStats))
            } else if is_lit(name, "detect-binary") {
                Some(Route::Leaf(Leaf::ZenDetectBinary))
            } else if is_lit(name, "list-endpoints") {
                Some(Route::Leaf(Leaf::ZenListEndpoints))
            } else if is_lit(name, "register") {
                Some(Route::Leaf(Leaf::ZenRegister))
            } else if is_lit(name, "unregister") {
                Some(Route::Leaf(Leaf::ZenUnregister))
            } else if is_lit(name, "apply-config") {
                Some(Route::Leaf(Leaf::ZenApplyConfig))
            } else if is_lit(name, "lua-preview") {
                Some(Route::Leaf(Leaf::ZenLuaPreview))
            } else if is_lit(name, "baseline") {
                Some(Route::Group(Group::ZenBaseline))
            } else if is_lit(name, "service") {
                Some(Route::Group(Group::ZenService))
            } else if is_lit(name, "urlacl") {
                Some(Route::Group(Group::ZenUrlacl))
            } else {
                None
            }
        },
        Group::ZenBaseline => {
            if is_lit(name, "list") {
                Some(Route::Leaf(Leaf::ZenBaselineList))
            } else if is_lit(name, "lock") {
                Some(Route::Leaf(Leaf::ZenBaselineLock))
            } else if is_lit(name, "unlock") {
                Some(Route::Leaf(Leaf::ZenBaselineUnlock))
            } else {
                None
            }
        },
        Group::ZenService => {
            if is_lit(name, "install") {
                Some(Route::Leaf(Leaf::ZenServiceInstall))
            } else if is_lit(name, "uninstall") {
                Some(Route::Leaf(Leaf::ZenServiceUninstall))
            } else if is_lit(name, "start") {
                Some(Route::Leaf(Leaf::ZenServiceStart))
            } else if is_lit(name, "stop") {
                Some(Route::Leaf(Leaf::ZenServiceStop))
            } else if is_lit(name, "status") {
                Some(Route::Leaf(Leaf::ZenServiceStatus))
            } else {
                None
            }
        },
        Group::ZenUrlacl => {
            if is_lit(name, "add") {
                Some(Route::Leaf(Leaf::ZenUrlaclAdd))
            } else if is_lit(name, "list") {
                Some(Route::Leaf(Leaf::ZenUrlaclList))
            } else if is_lit(name, "remove") {
                Some(Route::Leaf(Leaf::ZenUrlaclRemove))
            } else {
                None
            }
        },
    }
}

/// The options every level accepts: `--json`, `--db-path`, `--log-level`.
pub open spec fn globals() -> Seq<OptSpec> {
    seq![
        OptSpec { name: "json", arity: Arity::Flag, kind: Kind::Text, required: false },
        OptSpec { name: "db-path", arity: Arity::One, kind: Kind::Text, required: false },
        OptSpec { name: "log-level", arity: Arity::One, kind: Kind::Text, required: false },
    ]
}

fn globals_table() -> (r: Vec<OptSpec>)
    ensures
        r@ == globals(),
{
    vec![
        OptSpec { name: "json", arity: Arity::Flag, kind: Kind::Text, required: false },
        OptSpec { name: "db-path", arity: Arity::One, kind: Kind::Text, required: false },
        OptSpec { name: "log-level", arity: Arity::One, kind: Kind::Text, required: false },
    ]
}

/// The options (after the globals), positionals and constraints of a leaf.
pub open spec fn leaf_spec(l: Leaf) -> LeafV {
    match l {
        Leaf::SystemVersion => LeafV {
            opts: Seq::<OptSpec>::empty(),
            pos: Seq::<PosSpec>::empty(),
            conflicts: Seq::<(usize, usize)>::empty(),
            requires: Seq::<(usize, usize, usize)>::empty(),
        },
        Leaf::SystemDbPath => LeafV {
            opts: Seq::<OptSpec>::empty(),
            pos: Seq::<PosSpec>::empty(),
            conflicts: Seq::<(usize, usize)>::empty(),
            requires: Seq::<(usize, usize, usize)>::empty(),
        },
        Leaf::SystemPsDir => LeafV {
            opts: Seq::<OptSpec>::empty(),
            pos: Seq::<PosSpec>::empty(),
            conflicts: Seq::<(usize, usize)>::empty(),
            requires: Seq::<(usize, usize, usize)>::empty(),
        },
        Leaf::SystemMigrateDb => LeafV {
            opts: Seq::<OptSpec>::empty(),
            pos: Seq::<PosSpec>::empty(),
            conflicts: Seq::<(usize, usize)>::empty(),
            requires: Seq::<(usize, usize, usize)>::empty(),
        },
        Leaf::SystemEcho => LeafV {
            opts: Seq::<OptSpec>::empty(),
            pos: seq![
                PosSpec { name: "message", kind: Kind::Text },
            ],
            conflicts: Seq::<(usize, usize)>::empty(),
            requires: Seq::<(usize, usize, usize)>::empty(),
        },
        Leaf::SystemSchema => LeafV {
            opts: Seq::<OptSpec>::empty(),
            pos: Seq::<PosSpec>::empty(),
            conflicts: Seq::<(usize, usize)>::empty(),
            requires: Seq::<(usize, usize, usize)>::empty(),
        },
        Leaf::SystemExitCodes => LeafV {
            opts: Seq::<OptSpec>::empty(),
            pos: Seq::<PosSpec>::empty(),
            conflicts: Seq::<(usize, usize)>::empty(),
            requires: Seq::<(usize, usize, usize)>::empty(),
        },
        Leaf::MachineList => LeafV {
            opts: Seq::<OptSpec>::empty(),
            pos: Seq::<PosSpec>::empty(),
            conflicts: Seq::<(usize, usize)>::empty(),
            requires: Seq::<(usize, usize, usize)>::empty(),
        },
        Leaf::MachineScan => LeafV {
            opts: seq![
                OptSpec { name: "timeout-ms", arity: Arity::One, kind: Kind::UInt, required: false },
            ],
            pos: seq![
                PosSpec { name: "cidr", kind: Kind::Text },
            ],
            conflicts: Seq::<(usize, usize)>::empty(),
            requires: Seq::<(usize, usize, usize)>::empty(),
        },
        Leaf::MachineAdd => LeafV {
            opts: seq![
                OptSpec { name: "ip", arity: Arity::One, kind: Kind::Text, required: true },
                OptSpec { name: "hostname", arity: Arity::One, kind: Kind::Text, required: false },
            ],
            pos: Seq::<PosSpec>::empty(),
            conflicts: Seq::<(usize, usize)>::empty(),
            requires: Seq::<(usize, usize, usize)>::empty(),
        },
        Leaf::MachineRefresh => LeafV {
            opts: seq![
                OptSpec { name: "cred-alias", arity: Arity::One, kind: Kind::Text, required: false },
                OptSpec { name: "user", arity: Arity::One, kind: Kind::Text, required: false },
                OptSpec { name: "pass", arity: Arity::One, kind: Kind::Text, required: false },
                OptSpec { name: "pass-stdin", arity: Arity::Flag, kind: Kind::Text, required: false },
            ],
            pos: seq![
                PosSpec { name: "id", kind: Kind::Int },
            ],
            conflicts: seq![
                (0usize, 1usize),
                (2usize, 3usize),
                (2usize, 0usize),
                (3usize, 0usize),
            ],
            requires: seq![
                (1usize, 2usize, 3usize),
            ],
        },
        Leaf::MachineDetail => LeafV {
            opts: Seq::<OptSpec>::empty(),
            pos: seq![
                PosSpec { name: "id", kind: Kind::Int },
            ],
            conflicts: Seq::<(usize, usize)>::empty(),
            requires: Seq::<(usize, usize, usize)>::empty(),
        },
        Leaf::MachineDelete => LeafV {
            opts: seq![
                OptSpec { name: "yes", arity: Arity::Flag, kind: Kind::Text, required: false },
                OptSpec { name: "dry-run", arity: Arity::Flag, kind: Kind::Text, required: false },
            ],
            pos: seq![
                PosSpec { name: "id", kind: Kind::Int },
            ],
            conflicts: Seq::<(usize, usize)>::empty(),
            requires: Seq::<(usize, usize, usize)>::empty(),
        },
        Leaf::MachineRename => LeafV {
            opts: Seq::<OptSpec>::empty(),
            pos: seq![
                PosSpec { name: "id", kind: Kind::Int },
                PosSpec { name: "hostname", kind: Kind::Text },
            ],
            conflicts: Seq::<(usize, usize)>::empty(),
            requires: Seq::<(usize, usize, usize)>::empty(),
        },
        Leaf::MachineDeepScan => LeafV {
            opts: seq![
                OptSpec { name: "machine-ids", arity: Arity::Many, kind: Kind::Int, required: false },
                OptSpec { name: "all", arity: Arity::Flag, kind: Kind::Text, required: false },
                OptSpec { name: "cred-alias", arity: Arity::One, kind: Kind::Text, required: false },
                OptSpec { name: "user", arity: Arity::One, kind: Kind::Text, required: false },
                OptSpec { name: "pass", arity: Arity::One, kind: Kind::Text, required: false },
                OptSpec { name: "pass-stdin", arity: Arity::Flag, kind: Kind::Text, required: false },
            ],
            pos: Seq::<PosSpec>::empty(),
            conflicts: seq![
                (2usize, 3usize),
                (4usize, 5usize),
                (4usize, 2usize),
                (5usize, 2usize),
            ],
            requires: seq![
                (3usize, 4usize, 5usize),
            ],
        },
        Leaf::MachineAuthorize => LeafV {
            opts: seq![
                OptSpec { name: "machine-ids", arity: Arity::Many, kind: Kind::Int, required: false },
                OptSpec { name: "all", arity: Arity::Flag, kind: Kind::Text, required: false },
                OptSpec { name: "save-as", arity: Arity::One, kind: Kind::Text, required: false },
                OptSpec { name: "cred-alias", arity: Arity::One, kind: Kind::Text, required: false },
                OptSpec { name: "user", arity: Arity::One, kind: Kind::Text, required: false },
                OptSpec { name: "pass", arity: Arity::One, kind: Kind::Text, required: false },
                OptSpec { name: "pass-stdin", arity: Arity::Flag, kind: Kind::Text, required: false },
            ],
            pos: Seq::<PosSpec>::empty(),
            conflicts: seq![
                (3usize, 4usize),
                (5usize, 6usize),
                (5usize, 3usize),
                (6usize, 3usize),
            ],
            requires: seq![
                (4usize, 5usize, 6usize),
            ],
        },
        Leaf::WinrmProbe => LeafV {
            opts: Seq::<OptSpec>::empty(),
            pos: seq![
                PosSpec { name: "host", kind: Kind::Text },
            ],
            conflicts: Seq::<(usize, usize)>::empty(),
            requires: Seq::<(usize, usize, usize)>::empty(),
        },
        Leaf::WinrmBootstrapScript => LeafV {
            opts: seq![
                OptSpec { name: "output", arity: Arity::One, kind: Kind::Text, required: false },
            ],
            pos: Seq::<PosSpec>::empty(),
            conflicts: Seq::<(usize, usize)>::empty(),
            requires: Seq::<(usize, usize, usize)>::empty(),
        },
        Leaf::WinrmBootstrap => LeafV {
            opts: seq![
                OptSpec { name: "user", arity: Arity::One, kind: Kind::Text, required: true },
                OptSpec { name: "pass", arity: Arity::One, kind: Kind::Text, required: false },
                OptSpec { name: "pass-stdin", arity: Arity::Flag, kind: Kind::Text, required: false },
                OptSpec { name: "enable-local-admin", arity: Arity::Flag, kind: Kind::Text, required: false },
            ],
            pos: seq![
                PosSpec { name: "host", kind: Kind::Text },
            ],
            conflicts: seq![
                (1usize, 2usize),
            ],
            requires: Seq::<(usize, usize, usize)>::empty(),
        },
        Leaf::WinrmPreflight => LeafV {
            opts: seq![
                OptSpec { name: "user", arity: Arity::One, kind: Kind::Text, required: true },
                OptSpec { name: "pass", arity: Arity::One, kind: Kind::Text, required: false },
                OptSpec { name: "pass-stdin", arity: Arity::Flag, kind: Kind::Text, required: false },
                OptSpec { name: "probe", arity: Arity::Flag, kind: Kind::Text, required: false },
            ],
            pos: seq![
                PosSpec { name: "host", kind: Kind::Text },
            ],
            conflicts: seq![
                (1usize, 2usize),
            ],
            requires: Seq::<(usize, usize, usize)>::empty(),
        },
        Leaf::CredList => LeafV {
            opts: Seq::<OptSpec>::empty(),
            pos: Seq::<PosSpec>::empty(),
            conflicts: Seq::<(usize, usize)>::empty(),
            requires: Seq::<(usize, usize, usize)>::empty(),
        },
        Leaf::CredSave => LeafV {
            opts: seq![
                OptSpec { name: "alias", arity: Arity::One, kind: Kind::Text, required: true },
                OptSpec { name: "user", arity: Arity::One, kind: Kind::Text, required: true },
                OptSpec { name: "pass", arity: Arity::One, kind: Kind::Text, required: false },
                OptSpec { name: "pass-stdin", arity: Arity::Flag, kind: Kind::Text, required: false },
                OptSpec { name: "kind", arity: Arity::One, kind: Kind::Text, required: false },
            ],
            pos: Seq::<PosSpec>::empty(),
            conflicts: seq![
                (2usize, 3usize),
            ],
            requires: Seq::<(usize, usize, usize)>::empty(),
        },
        Leaf::CredDelete => LeafV {
            opts: seq![
                OptSpec { name: "yes", arity: Arity::Flag, kind: Kind::Text, required: false },
                OptSpec { name: "dry-run", arity: Arity::Flag, kind: Kind::Text, required: false },
            ],
            pos: seq![
                PosSpec { name: "alias", kind: Kind::Text },
            ],
            conflicts: Seq::<(usize, usize)>::empty(),
            requires: Seq::<(usize, usize, usize)>::empty(),
        },
        Leaf::EnvGet => LeafV {
            opts: seq![
                OptSpec { name: "host", arity: Arity::One, kind: Kind::Text, required: true },
                OptSpec { name: "name", arity: Arity::One, kind: Kind::Text, required: true },
                OptSpec { name: "cred-alias", arity: Arity::One, kind: Kind::Text, required: false },
                OptSpec { name: "user", arity: Arity::One, kind: Kind::Text, required: false },
                OptSpec { name: "pass", arity: Arity::One, kind: Kind::Text, required: false },
                OptSpec { name: "pass-stdin", arity: Arity::Flag, kind: Kind::Text, required: false },
            ],
            pos: Seq::<PosSpec>::empty(),
            conflicts: seq![
                (2usize, 3usize),
                (4usize, 5usize),
                (4usize, 2usize),
                (5usize, 2usize),
            ],
            requires: seq![
                (3usize, 4usize, 5usize),
            ],
        },
        Leaf::EnvSet => LeafV {
            opts: seq![
                OptSpec { name: "host", arity: Arity::One, kind: Kind::Text, required: false },
                OptSpec { name: "hosts", arity: Arity::Many, kind: Kind::Text, required: false },
                OptSpec { name: "name", arity: Arity::One, kind: Kind::Text, required: true },
                OptSpec { name: "value", arity: Arity::One, kind: Kind::Text, required: true },
                OptSpec { name: "yes", arity: Arity::Flag, kind: Kind::Text, required: false },
                OptSpec { name: "dry-run", arity: Arity::Flag, kind: Kind::Text, required: false },
                OptSpec { name: "cred-alias", arity: Arity::One, kind: Kind::Text, required: false },
                OptSpec { name: "user", arity: Arity::One, kind: Kind::Text, required: false },
                OptSpec { name: "pass", arity: Arity::One, kind: Kind::Text, required: false },
                OptSpec { name: "pass-stdin", arity: Arity::Flag, kind: Kind::Text, required: false },
            ],
            pos: Seq::<PosSpec>::empty(),
            conflicts: seq![
                (0usize, 1usize),
                (6usize, 7usize),
                (8usize, 9usize),
                (8usize, 6usize),
                (9usize, 6usize),
            ],
            requires: seq![
                (7usize, 8usize, 9usize),
            ],
        },
        Leaf::IniRead => LeafV {
            opts: seq![
                OptSpec { name: "host", arity: Arity::One, kind: Kind::Text, required: true },
                OptSpec { name: "file", arity: Arity::One, kind: Kind::Text, required: true },
                OptSpec { name: "section", arity: Arity::One, kind: Kind::Text, required: true },
                OptSpec { name: "cred-alias", arity: Arity::One, kind: Kind::Text, required: false },
                OptSpec { name: "user", arity: Arity::One, kind: Kind::Text, required: false },
                OptSpec { name: "pass", arity: Arity::One, kind: Kind::Text, required: false },
                OptSpec { name: "pass-stdin", arity: Arity::Flag, kind: Kind::Text, required: false },
            ],
            pos: Seq::<PosSpec>::empty(),
            conflicts: seq![
                (3usize, 4usize),
                (5usize, 6usize),
                (5usize, 3usize),
                (6usize, 3usize),
            ],
            requires: seq![
                (4usize, 5usize, 6usize),
            ],
        },
        Leaf::IniSet => LeafV {
            opts: seq![
                OptSpec { name: "host", arity: Arity::One, kind: Kind::Text, required: false },
                OptSpec { name: "hosts", arity: Arity::Many, kind: Kind::Text, required: false },
                OptSpec { name: "file", arity: Arity::One, kind: Kind::Text, required: true },
                OptSpec { name: "section", arity: Arity::One, kind: Kind::Text, required: true },
                OptSpec { name: "key", arity: Arity::One, kind: Kind::Text, required: true },
                OptSpec { name: "value", arity: Arity::One, kind: Kind::Text, required: true },
                OptSpec { name: "yes", arity: Arity::Flag, kind: Kind::Text, required: false },
                OptSpec { name: "dry-run", arity: Arity::Flag, kind: Kind::Text, required: false },
                OptSpec { name: "cred-alias", arity: Arity::One, kind: Kind::Text, required: false },
                OptSpec { name: "user", arity: Arity::One, kind: Kind::Text, required: false },
                OptSpec { name: "pass", arity: Arity::One, kind: Kind::Text, required: false },
                OptSpec { name: "pass-stdin", arity: Arity::Flag, kind: Kind::Text, required: false },
            ],
            pos: Seq::<PosSpec>::empty(),
            conflicts: seq![
                (0usize, 1usize),
                (8usize, 9usize),
                (10usize, 11usize),
                (10usize, 8usize),
                (11usize, 8usize),
            ],
            requires: seq![
                (9usize, 10usize, 11usize),
            ],
        },
        Leaf::IniRemove => LeafV {
            opts: seq![
                OptSpec { name: "host", arity: Arity::One, kind: Kind::Text, required: false },
                OptSpec { name: "hosts", arity: Arity::Many, kind: Kind::Text, required: false },
                OptSpec { name: "file", arity: Arity::One, kind: Kind::Text, required: true },
                OptSpec { name: "section", arity: Arity::One, kind: Kind::Text, required: true },
                OptSpec { name: "key", arity: Arity::One, kind: Kind::Text, required: true },
                OptSpec { name: "yes", arity: Arity::Flag, kind: Kind::Text, required: false },
                OptSpec { name: "dry-run", arity: Arity::Flag, kind: Kind::Text, required: false },
                OptSpec { name: "cred-alias", arity: Arity::One, kind: Kind::Text, required: false },
                OptSpec { name: "user", arity: Arity::One, kind: Kind::Text, required: false },
                OptSpec { name: "pass", arity: Arity::One, kind: Kind::Text, required: false },
                OptSpec { name: "pass-stdin", arity: Arity::Flag, kind: Kind::Text, required: false },
            ],
            pos: Seq::<PosSpec>::empty(),
            conflicts: seq![
                (0usize, 1usize),
                (7usize, 8usize),
                (9usize, 10usize),
                (9usize, 7usize),
                (10usize, 7usize),
            ],
            requires: seq![
                (8usize, 9usize, 10usize),
            ],
        },
        Leaf::IniScan => LeafV {
            opts: seq![
                OptSpec { name: "machine-ids", arity: Arity::Many, kind: Kind::Int, required: false },
                OptSpec { name: "cred-alias", arity: Arity::One, kind: Kind::Text, required: false },
                OptSpec { name: "user", arity: Arity::One, kind: Kind::Text, required: false },
                OptSpec { name: "pass", arity: Arity::One, kind: Kind::Text, required: false },
                OptSpec { name: "pass-stdin", arity: Arity::Flag, kind: Kind::Text, required: false },
            ],
            pos: Seq::<PosSpec>::empty(),
            conflicts: seq![
                (1usize, 2usize),
                (3usize, 4usize),
                (3usize, 1usize),
                (4usize, 1usize),
            ],
            requires: seq![
                (2usize, 3usize, 4usize),
            ],
        },
        Leaf::IniRuns => LeafV {
            opts: seq![
                OptSpec { name: "limit", arity: Arity::One, kind: Kind::Int, required: false },
            ],
            pos: Seq::<PosSpec>::empty(),
            conflicts: Seq::<(usize, usize)>::empty(),
            requires: Seq::<(usize, usize, usize)>::empty(),
        },
        Leaf::IniFindings => LeafV {
            opts: seq![
                OptSpec { name: "severity", arity: Arity::One, kind: Kind::Text, required: false },
            ],
            pos: seq![
                PosSpec { name: "scan_run_id", kind: Kind::Int },
            ],
            conflicts: Seq::<(usize, usize)>::empty(),
            requires: Seq::<(usize, usize, usize)>::empty(),
        },
        Leaf::IniGetFinding => LeafV {
            opts: Seq::<OptSpec>::empty(),
            pos: seq![
                PosSpec { name: "finding_id", kind: Kind::Int },
            ],
            conflicts: Seq::<(usize, usize)>::empty(),
            requires: Seq::<(usize, usize, usize)>::empty(),
        },
        Leaf::IniApply => LeafV {
            opts: seq![
                OptSpec { name: "yes", arity: Arity::Flag, kind: Kind::Text, required: false },
                OptSpec { name: "dry-run", arity: Arity::Flag, kind: Kind::Text, required: false },
                OptSpec { name: "cred-alias", arity: Arity::One, kind: Kind::Text, required: false },
                OptSpec { name: "user", arity: Arity::One, kind: Kind::Text, required: false },
                OptSpec { name: "pass", arity: Arity::One, kind: Kind::Text, required: false },
                OptSpec { name: "pass-stdin", arity: Arity::Flag, kind: Kind::Text, required: false },
            ],
            pos: seq![
                PosSpec { name: "finding_id", kind: Kind::Int },
            ],
            conflicts: seq![
                (2usize, 3usize),
                (4usize, 5usize),
                (4usize, 2usize),
                (5usize, 2usize),
            ],
            requires: seq![
                (3usize, 4usize, 5usize),
            ],
        },
        Leaf::IniSkip => LeafV {
            opts: Seq::<OptSpec>::empty(),
            pos: seq![
                PosSpec { name: "finding_id", kind: Kind::Int },
            ],
            conflicts: Seq::<(usize, usize)>::empty(),
            requires: Seq::<(usize, usize, usize)>::empty(),
        },
        Leaf::IniVerifyPsoPrecaching => LeafV {
            opts: seq![
                OptSpec { name: "project-id", arity: Arity::One, kind: Kind::Int, required: true },
            ],
            pos: Seq::<PosSpec>::empty(),
            conflicts: Seq::<(usize, usize)>::empty(),
            requires: Seq::<(usize, usize, usize)>::empty(),
        },
        Leaf::ShareList => LeafV {
            opts: Seq::<OptSpec>::empty(),
            pos: Seq::<PosSpec>::empty(),
            conflicts: Seq::<(usize, usize)>::empty(),
            requires: Seq::<(usize, usize, usize)>::empty(),
        },
        Leaf::ShareForget => LeafV {
            opts: seq![
                OptSpec { name: "yes", arity: Arity::Flag, kind: Kind::Text, required: false },
                OptSpec { name: "dry-run", arity: Arity::Flag, kind: Kind::Text, required: false },
            ],
            pos: seq![
                PosSpec { name: "id", kind: Kind::Int },
            ],
            conflicts: Seq::<(usize, usize)>::empty(),
            requires: Seq::<(usize, usize, usize)>::empty(),
        },
        Leaf::ShareCreate => LeafV {
            opts: seq![
                OptSpec { name: "mode", arity: Arity::One, kind: Kind::Text, required: true },
                OptSpec { name: "host", arity: Arity::One, kind: Kind::Text, required: true },
                OptSpec { name: "share", arity: Arity::One, kind: Kind::Text, required: true },
                OptSpec { name: "local-path", arity: Arity::One, kind: Kind::Text, required: true },
                OptSpec { name: "yes", arity: Arity::Flag, kind: Kind::Text, required: false },
                OptSpec { name: "dry-run", arity: Arity::Flag, kind: Kind::Text, required: false },
                OptSpec { name: "cred-alias", arity: Arity::One, kind: Kind::Text, required: false },
                OptSpec { name: "user", arity: Arity::One, kind: Kind::Text, required: false },
                OptSpec { name: "pass", arity: Arity::One, kind: Kind::Text, required: false },
                OptSpec { name: "pass-stdin", arity: Arity::Flag, kind: Kind::Text, required: false },
            ],
            pos: Seq::<PosSpec>::empty(),
            conflicts: seq![
                (6usize, 7usize),
                (8usize, 9usize),
                (8usize, 6usize),
                (9usize, 6usize),
            ],
            requires: seq![
                (7usize, 8usize, 9usize),
            ],
        },
        Leaf::ShareInjectSystemCred => LeafV {
            opts: seq![
                OptSpec { name: "client-host", arity: Arity::One, kind: Kind::Text, required: true },
                OptSpec { name: "target-host", arity: Arity::One, kind: Kind::Text, required: true },
                OptSpec { name: "svc-user", arity: Arity::One, kind: Kind::Text, required: false },
                OptSpec { name: "yes", arity: Arity::Flag, kind: Kind::Text, required: false },
                OptSpec { name: "dry-run", arity: Arity::Flag, kind: Kind::Text, required: false },
                OptSpec { name: "cred-alias", arity: Arity::One, kind: Kind::Text, required: false },
                OptSpec { name: "user", arity: Arity::One, kind: Kind::Text, required: false },
                OptSpec { name: "pass", arity: Arity::One, kind: Kind::Text, required: false },
                OptSpec { name: "pass-stdin", arity: Arity::Flag, kind: Kind::Text, required: false },
            ],
            pos: Seq::<PosSpec>::empty(),
            conflicts: seq![
                (5usize, 6usize),
                (7usize, 8usize),
                (7usize, 5usize),
                (8usize, 5usize),
            ],
            requires: seq![
                (6usize, 7usize, 8usize),
            ],
        },
        Leaf::ProjectList => LeafV {
            opts: Seq::<OptSpec>::empty(),
            pos: Seq::<PosSpec>::empty(),
            conflicts: Seq::<(usize, usize)>::empty(),
            requires: Seq::<(usize, usize, usize)>::empty(),
        },
        Leaf::ProjectLocations => LeafV {
            opts: Seq::<OptSpec>::empty(),
            pos: seq![
                PosSpec { name: "project_id", kind: Kind::Int },
            ],
            conflicts: Seq::<(usize, usize)>::empty(),
            requires: Seq::<(usize, usize, usize)>::empty(),
        },
        Leaf::ProjectDiscover => LeafV {
            opts: seq![
                OptSpec { name: "machine-id", arity: Arity::One, kind: Kind::Int, required: true },
                OptSpec { name: "roots", arity: Arity::Many, kind: Kind::Text, required: false },
                OptSpec { name: "cred-alias", arity: Arity::One, kind: Kind::Text, required: false },
                OptSpec { name: "user", arity: Arity::One, kind: Kind::Text, required: false },
                OptSpec { name: "pass", arity: Arity::One, kind: Kind::Text, required: false },
                OptSpec { name: "pass-stdin", arity: Arity::Flag, kind: Kind::Text, required: false },
            ],
            pos: Seq::<PosSpec>::empty(),
            conflicts: seq![
                (2usize, 3usize),
                (4usize, 5usize),
                (4usize, 2usize),
                (5usize, 2usize),
            ],
            requires: seq![
                (3usize, 4usize, 5usize),
            ],
        },
        Leaf::ProjectCreateManual => LeafV {
            opts: seq![
                OptSpec { name: "uproject-name", arity: Arity::One, kind: Kind::Text, required: true },
                OptSpec { name: "display-name", arity: Arity::One, kind: Kind::Text, required: false },
            ],
            pos: Seq::<PosSpec>::empty(),
            conflicts: Seq::<(usize, usize)>::empty(),
            requires: Seq::<(usize, usize, usize)>::empty(),
        },
        Leaf::ProjectSetLocation => LeafV {
            opts: seq![
                OptSpec { name: "project-id", arity: Arity::One, kind: Kind::Int, required: true },
                OptSpec { name: "machine-id", arity: Arity::One, kind: Kind::Int, required: true },
                OptSpec { name: "abs-path", arity: Arity::One, kind: Kind::Text, required: true },
                OptSpec { name: "uproject-path", arity: Arity::One, kind: Kind::Text, required: true },
                OptSpec { name: "manual-path", arity: Arity::Flag, kind: Kind::Text, required: false },
            ],
            pos: Seq::<PosSpec>::empty(),
            conflicts: Seq::<(usize, usize)>::empty(),
            requires: Seq::<(usize, usize, usize)>::empty(),
        },
        Leaf::ProjectDelete => LeafV {
            opts: seq![
                OptSpec { name: "yes", arity: Arity::Flag, kind: Kind::Text, required: false },
                OptSpec { name: "dry-run", arity: Arity::Flag, kind: Kind::Text, required: false },
            ],
            pos: seq![
                PosSpec { name: "id", kind: Kind::Int },
            ],
            conflicts: Seq::<(usize, usize)>::empty(),
            requires: Seq::<(usize, usize, usize)>::empty(),
        },
        Leaf::ProjectDeleteLocation => LeafV {
            opts: seq![
                OptSpec { name: "yes", arity: Arity::Flag, kind: Kind::Text, required: false },
                OptSpec { name: "dry-run", arity: Arity::Flag, kind: Kind::Text, required: false },
            ],
            pos: seq![
                PosSpec { name: "id", kind: Kind::Int },
            ],
            conflicts: Seq::<(usize, usize)>::empty(),
            requires: Seq::<(usize, usize, usize)>::empty(),
        },
        Leaf::HealthRun => LeafV {
            opts: seq![
                OptSpec { name: "machine-ids", arity: Arity::Many, kind: Kind::Int, required: false },
                OptSpec { name: "cidr", arity: Arity::One, kind: Kind::Text, required: false },
                OptSpec { name: "all", arity: Arity::Flag, kind: Kind::Text, required: false },
                OptSpec { name: "cred-alias", arity: Arity::One, kind: Kind::Text, required: false },
                OptSpec { name: "user", arity: Arity::One, kind: Kind::Text, required: false },
                OptSpec { name: "pass", arity: Arity::One, kind: Kind::Text, required: false },
                OptSpec { name: "pass-stdin", arity: Arity::Flag, kind: Kind::Text, required: false },
            ],
            pos: Seq::<PosSpec>::empty(),
            conflicts: seq![
                (3usize, 4usize),
                (5usize, 6usize),
                (5usize, 3usize),
                (6usize, 3usize),
                (0usize, 1usize),
                (0usize, 2usize),
                (1usize, 2usize),
            ],
            requires: seq![
                (4usize, 5usize, 6usize),
            ],
        },
        Leaf::HealthRuns => LeafV {
            opts: seq![
                OptSpec { name: "limit", arity: Arity::One, kind: Kind::Int, required: false },
            ],
            pos: Seq::<PosSpec>::empty(),
            conflicts: Seq::<(usize, usize)>::empty(),
            requires: Seq::<(usize, usize, usize)>::empty(),
        },
        Leaf::HealthResults => LeafV {
            opts: Seq::<OptSpec>::empty(),
            pos: seq![
                PosSpec { name: "scan_run_id", kind: Kind::Int },
            ],
            conflicts: Seq::<(usize, usize)>::empty(),
            requires: Seq::<(usize, usize, usize)>::empty(),
        },
        Leaf::GpuMatrix => LeafV {
            opts: Seq::<OptSpec>::empty(),
            pos: Seq::<PosSpec>::empty(),
            conflicts: Seq::<(usize, usize)>::empty(),
            requires: Seq::<(usize, usize, usize)>::empty(),
        },
        Leaf::DdcGenerate => LeafV {
            opts: seq![
                OptSpec { name: "project-id", arity: Arity::One, kind: Kind::Int, required: true },
                OptSpec { name: "source-machine", arity: Arity::One, kind: Kind::Int, required: true },
                OptSpec { name: "backend", arity: Arity::One, kind: Kind::Backend, required: false },
                OptSpec { name: "cred-alias", arity: Arity::One, kind: Kind::Text, required: false },
                OptSpec { name: "user", arity: Arity::One, kind: Kind::Text, required: false },
                OptSpec { name: "pass", arity: Arity::One, kind: Kind::Text, required: false },
                OptSpec { name: "pass-stdin", arity: Arity::Flag, kind: Kind::Text, required: false },
            ],
            pos: Seq::<PosSpec>::empty(),
            conflicts: seq![
                (3usize, 4usize),
                (5usize, 6usize),
                (5usize, 3usize),
                (6usize, 3usize),
            ],
            requires: seq![
                (4usize, 5usize, 6usize),
            ],
        },
        Leaf::DdcVerify => LeafV {
            opts: seq![
                OptSpec { name: "project-id", arity: Arity::One, kind: Kind::Int, required: true },
                OptSpec { name: "source-machine", arity: Arity::One, kind: Kind::Int, required: true },
                OptSpec { name: "backend", arity: Arity::One, kind: Kind::Backend, required: false },
                OptSpec { name: "cred-alias", arity: Arity::One, kind: Kind::Text, required: false },
                OptSpec { name: "user", arity: Arity::One, kind: Kind::Text, required: false },
                OptSpec { name: "pass", arity: Arity::One, kind: Kind::Text, required: false },
                OptSpec { name: "pass-stdin", arity: Arity::Flag, kind: Kind::Text, required: false },
            ],
            pos: Seq::<PosSpec>::empty(),
            conflicts: seq![
                (3usize, 4usize),
                (5usize, 6usize),
                (5usize, 3usize),
                (6usize, 3usize),
            ],
            requires: seq![
                (4usize, 5usize, 6usize),
            ],
        },
        Leaf::DdcDistribute => LeafV {
            opts: seq![
                OptSpec { name: "project-id", arity: Arity::One, kind: Kind::Int, required: true },
                OptSpec { name: "source-machine", arity: Arity::One, kind: Kind::Int, required: true },
                OptSpec { name: "targets", arity: Arity::Many, kind: Kind::Int, required: false },
                OptSpec { name: "yes", arity: Arity::Flag, kind: Kind::Text, required: false },
                OptSpec { name: "dry-run", arity: Arity::Flag, kind: Kind::Text, required: false },
                OptSpec { name: "backend", arity: Arity::One, kind: Kind::Backend, required: false },
                OptSpec { name: "cred-alias", arity: Arity::One, kind: Kind::Text, required: false },
                OptSpec { name: "user", arity: Arity::One, kind: Kind::Text, required: false },
                OptSpec { name: "pass", arity: Arity::One, kind: Kind::Text, required: false },
                OptSpec { name: "pass-stdin", arity: Arity::Flag, kind: Kind::Text, required: false },
            ],
            pos: Seq::<PosSpec>::empty(),
            conflicts: seq![
                (6usize, 7usize),
                (8usize, 9usize),
                (8usize, 6usize),
                (9usize, 6usize),
            ],
            requires: seq![
                (7usize, 8usize, 9usize),
            ],
        },
        Leaf::PsoVerify => LeafV {
            opts: seq![
                OptSpec { name: "project-id", arity: Arity::One, kind: Kind::Int, required: true },
            ],
            pos: Seq::<PosSpec>::empty(),
            conflicts: Seq::<(usize, usize)>::empty(),
            requires: Seq::<(usize, usize, usize)>::empty(),
        },
        Leaf::PsoCollect => LeafV {
            opts: seq![
                OptSpec { name: "project-id", arity: Arity::One, kind: Kind::Int, required: true },
                OptSpec { name: "source-machine", arity: Arity::One, kind: Kind::Int, required: true },
                OptSpec { name: "resolution", arity: Arity::One, kind: Kind::Text, required: false },
                OptSpec { name: "windowed", arity: Arity::Flag, kind: Kind::Text, required: false },
                OptSpec { name: "max-minutes", arity: Arity::One, kind: Kind::Small, required: false },
                OptSpec { name: "cred-alias", arity: Arity::One, kind: Kind::Text, required: false },
                OptSpec { name: "user", arity: Arity::One, kind: Kind::Text, required: false },
                OptSpec { name: "pass", arity: Arity::One, kind: Kind::Text, required: false },
                OptSpec { name: "pass-stdin", arity: Arity::Flag, kind: Kind::Text, required: false },
            ],
            pos: Seq::<PosSpec>::empty(),
            conflicts: seq![
                (5usize, 6usize),
                (7usize, 8usize),
                (7usize, 5usize),
                (8usize, 5usize),
            ],
            requires: seq![
                (6usize, 7usize, 8usize),
            ],
        },
        Leaf::PsoList => LeafV {
            opts: seq![
                OptSpec { name: "project-id", arity: Arity::One, kind: Kind::Int, required: true },
            ],
            pos: Seq::<PosSpec>::empty(),
            conflicts: Seq::<(usize, usize)>::empty(),
            requires: Seq::<(usize, usize, usize)>::empty(),
        },
        Leaf::PsoDistribute => LeafV {
            opts: seq![
                OptSpec { name: "project-id", arity: Arity::One, kind: Kind::Int, required: true },
                OptSpec { name: "source-machine", arity: Arity::One, kind: Kind::Int, required: true },
                OptSpec { name: "targets", arity: Arity::Many, kind: Kind::Int, required: false },
                OptSpec { name: "yes", arity: Arity::Flag, kind: Kind::Text, required: false },
                OptSpec { name: "dry-run", arity: Arity::Flag, kind: Kind::Text, required: false },
                OptSpec { name: "cred-alias", arity: Arity::One, kind: Kind::Text, required: false },
                OptSpec { name: "user", arity: Arity::One, kind: Kind::Text, required: false },
                OptSpec { name: "pass", arity: Arity::One, kind: Kind::Text, required: false },
                OptSpec { name: "pass-stdin", arity: Arity::Flag, kind: Kind::Text, required: false },
            ],
            pos: Seq::<PosSpec>::empty(),
            conflicts: seq![
                (5usize, 6usize),
                (7usize, 8usize),
                (7usize, 5usize),
                (8usize, 5usize),
            ],
            requires: seq![
                (6usize, 7usize, 8usize),
            ],
        },
        Leaf::ZenStatus => LeafV {
            opts: seq![
                OptSpec { name: "machine", arity: Arity::One, kind: Kind::Int, required: false },
                OptSpec { name: "all", arity: Arity::Flag, kind: Kind::Text, required: false },
            ],
            pos: Seq::<PosSpec>::empty(),
            conflicts: seq![
                (0usize, 1usize),
            ],
            requires: Seq::<(usize, usize, usize)>::empty(),
        },
        Leaf::ZenProbe => LeafV {
            opts: seq![
                OptSpec { name: "machine", arity: Arity::One, kind: Kind::Int, required: false },
                OptSpec { name: "all", arity: Arity::Flag, kind: Kind::Text, required: false },
                OptSpec { name: "timeout", arity: Arity::One, kind: Kind::UInt, required: false },
                OptSpec { name: "cred-alias", arity: Arity::One, kind: Kind::Text, required: false },
                OptSpec { name: "user", arity: Arity::One, kind: Kind::Text, required: false },
                OptSpec { name: "pass", arity: Arity::One, kind: Kind::Text, required: false },
                OptSpec { name: "pass-stdin", arity: Arity::Flag, kind: Kind::Text, required: false },
            ],
            pos: Seq::<PosSpec>::empty(),
            conflicts: seq![
                (3usize, 4usize),
                (5usize, 6usize),
                (5usize, 3usize),
                (6usize, 3usize),
                (0usize, 1usize),
            ],
            requires: seq![
                (4usize, 5usize, 6usize),
            ],
        },
        Leaf::ZenCacheStats => LeafV {
            opts: seq![
                OptSpec { name: "endpoint-id", arity: Arity::One, kind: Kind::Int, required: false },
                OptSpec { name: "all", arity: Arity::Flag, kind: Kind::Text, required: false },
                OptSpec { name: "timeout", arity: Arity::One, kind: Kind::UInt, required: false },
            ],
            pos: Seq::<PosSpec>::empty(),
            conflicts: seq![
                (0usize, 1usize),
            ],
            requires: Seq::<(usize, usize, usize)>::empty(),
        },
        Leaf::ZenDetectBinary => LeafV {
            opts: seq![
                OptSpec { name: "machine", arity: Arity::One, kind: Kind::Int, required: false },
                OptSpec { name: "all", arity: Arity::Flag, kind: Kind::Text, required: false },
                OptSpec { name: "cred-alias", arity: Arity::One, kind: Kind::Text, required: false },
                OptSpec { name: "user", arity: Arity::One, kind: Kind::Text, required: false },
                OptSpec { name: "pass", arity: Arity::One, kind: Kind::Text, required: false },
                OptSpec { name: "pass-stdin", arity: Arity::Flag, kind: Kind::Text, required: false },
            ],
            pos: Seq::<PosSpec>::empty(),
            conflicts: seq![
                (2usize, 3usize),
                (4usize, 5usize),
                (4usize, 2usize),
                (5usize, 2usize),
                (0usize, 1usize),
            ],
            requires: seq![
                (3usize, 4usize, 5usize),
            ],
        },
        Leaf::ZenListEndpoints => LeafV {
            opts: seq![
                OptSpec { name: "machine", arity: Arity::One, kind: Kind::Int, required: false },
            ],
            pos: Seq::<PosSpec>::empty(),
            conflicts: Seq::<(usize, usize)>::empty(),
            requires: Seq::<(usize, usize, usize)>::empty(),
        },
        Leaf::ZenBaselineList => LeafV {
            opts: seq![
                OptSpec { name: "zen-build-version", arity: Arity::One, kind: Kind::Text, required: false },
                OptSpec { name: "kind", arity: Arity::One, kind: Kind::Text, required: false },
            ],
            pos: Seq::<PosSpec>::empty(),
            conflicts: Seq::<(usize, usize)>::empty(),
            requires: Seq::<(usize, usize, usize)>::empty(),
        },
        Leaf::ZenBaselineLock => LeafV {
            opts: seq![
                OptSpec { name: "zen-build-version", arity: Arity::One, kind: Kind::Text, required: true },
                OptSpec { name: "kind", arity: Arity::One, kind: Kind::Text, required: true },
                OptSpec { name: "locked-by", arity: Arity::One, kind: Kind::Text, required: true },
                OptSpec { name: "yes", arity: Arity::Flag, kind: Kind::Text, required: false },
                OptSpec { name: "dry-run", arity: Arity::Flag, kind: Kind::Text, required: false },
            ],
            pos: Seq::<PosSpec>::empty(),
            conflicts: Seq::<(usize, usize)>::empty(),
            requires: Seq::<(usize, usize, usize)>::empty(),
        },
        Leaf::ZenBaselineUnlock => LeafV {
            opts: seq![
                OptSpec { name: "zen-build-version", arity: Arity::One, kind: Kind::Text, required: true },
                OptSpec { name: "kind", arity: Arity::One, kind: Kind::Text, required: true },
                OptSpec { name: "yes", arity: Arity::Flag, kind: Kind::Text, required: false },
                OptSpec { name: "dry-run", arity: Arity::Flag, kind: Kind::Text, required: false },
            ],
            pos: Seq::<PosSpec>::empty(),
            conflicts: Seq::<(usize, usize)>::empty(),
            requires: Seq::<(usize, usize, usize)>::empty(),
        },
        Leaf::ZenRegister => LeafV {
            opts: seq![
                OptSpec { name: "machine", arity: Arity::One, kind: Kind::Int, required: true },
                OptSpec { name: "declared-port", arity: Arity::One, kind: Kind::Int, required: false },
                OptSpec { name: "scheme", arity: Arity::One, kind: Kind::Text, required: false },
                OptSpec { name: "role", arity: Arity::One, kind: Kind::Text, required: true },
                OptSpec { name: "upstream-endpoint-id", arity: Arity::One, kind: Kind::Int, required: false },
                OptSpec { name: "data-dir", arity: Arity::One, kind: Kind::Text, required: false },
                OptSpec { name: "httpserverclass", arity: Arity::One, kind: Kind::Text, required: false },
                OptSpec { name: "lifecycle", arity: Arity::One, kind: Kind::Text, required: false },
            ],
            pos: Seq::<PosSpec>::empty(),
            conflicts: Seq::<(usize, usize)>::empty(),
            requires: Seq::<(usize, usize, usize)>::empty(),
        },
        Leaf::ZenUnregister => LeafV {
            opts: seq![
                OptSpec { name: "endpoint-id", arity: Arity::One, kind: Kind::Int, required: true },
                OptSpec { name: "yes", arity: Arity::Flag, kind: Kind::Text, required: false },
                OptSpec { name: "dry-run", arity: Arity::Flag, kind: Kind::Text, required: false },
            ],
            pos: Seq::<PosSpec>::empty(),
            conflicts: Seq::<(usize, usize)>::empty(),
            requires: Seq::<(usize, usize, usize)>::empty(),
        },
        Leaf::ZenApplyConfig => LeafV {
            opts: seq![
                OptSpec { name: "endpoint-id", arity: Arity::One, kind: Kind::Int, required: true },
                OptSpec { name: "dest-path", arity: Arity::One, kind: Kind::Text, required: true },
                OptSpec { name: "yes", arity: Arity::Flag, kind: Kind::Text, required: false },
                OptSpec { name: "dry-run", arity: Arity::Flag, kind: Kind::Text, required: false },
                OptSpec { name: "cred-alias", arity: Arity::One, kind: Kind::Text, required: false },
                OptSpec { name: "user", arity: Arity::One, kind: Kind::Text, required: false },
                OptSpec { name: "pass", arity: Arity::One, kind: Kind::Text, required: false },
                OptSpec { name: "pass-stdin", arity: Arity::Flag, kind: Kind::Text, required: false },
            ],
            pos: Seq::<PosSpec>::empty(),
            conflicts: seq![
                (4usize, 5usize),
                (6usize, 7usize),
                (6usize, 4usize),
                (7usize, 4usize),
            ],
            requires: seq![
                (5usize, 6usize, 7usize),
            ],
        },
        Leaf::ZenLuaPreview => LeafV {
            opts: seq![
                OptSpec { name: "endpoint-id", arity: Arity::One, kind: Kind::Int, required: true },
            ],
            pos: Seq::<PosSpec>::empty(),
            conflicts: Seq::<(usize, usize)>::empty(),
            requires: Seq::<(usize, usize, usize)>::empty(),
        },
        Leaf::ZenServiceInstall => LeafV {
            opts: seq![
                OptSpec { name: "endpoint-id", arity: Arity::One, kind: Kind::Int, required: true },
                OptSpec { name: "yes", arity: Arity::Flag, kind: Kind::Text, required: false },
                OptSpec { name: "dry-run", arity: Arity::Flag, kind: Kind::Text, required: false },
                OptSpec { name: "cred-alias", arity: Arity::One, kind: Kind::Text, required: false },
                OptSpec { name: "user", arity: Arity::One, kind: Kind::Text, required: false },
                OptSpec { name: "pass", arity: Arity::One, kind: Kind::Text, required: false },
                OptSpec { name: "pass-stdin", arity: Arity::Flag, kind: Kind::Text, required: false },
            ],
            pos: Seq::<PosSpec>::empty(),
            conflicts: seq![
                (3usize, 4usize),
                (5usize, 6usize),
                (5usize, 3usize),
                (6usize, 3usize),
            ],
            requires: seq![
                (4usize, 5usize, 6usize),
            ],
        },
        Leaf::ZenServiceUninstall => LeafV {
            opts: seq![
                OptSpec { name: "endpoint-id", arity: Arity::One, kind: Kind::Int, required: true },
                OptSpec { name: "yes", arity: Arity::Flag, kind: Kind::Text, required: false },
                OptSpec { name: "dry-run", arity: Arity::Flag, kind: Kind::Text, required: false },
                OptSpec { name: "cred-alias", arity: Arity::One, kind: Kind::Text, required: false },
                OptSpec { name: "user", arity: Arity::One, kind: Kind::Text, required: false },
                OptSpec { name: "pass", arity: Arity::One, kind: Kind::Text, required: false },
                OptSpec { name: "pass-stdin", arity: Arity::Flag, kind: Kind::Text, required: false },
            ],
            pos: Seq::<PosSpec>::empty(),
            conflicts: seq![
                (3usize, 4usize),
                (5usize, 6usize),
                (5usize, 3usize),
                (6usize, 3usize),
            ],
            requires: seq![
                (4usize, 5usize, 6usize),
            ],
        },
        Leaf::ZenServiceStart => LeafV {
            opts: seq![
                OptSpec { name: "endpoint-id", arity: Arity::One, kind: Kind::Int, required: true },
                OptSpec { name: "cred-alias", arity: Arity::One, kind: Kind::Text, required: false },
                OptSpec { name: "user", arity: Arity::One, kind: Kind::Text, required: false },
                OptSpec { name: "pass", arity: Arity::One, kind: Kind::Text, required: false },
                OptSpec { name: "pass-stdin", arity: Arity::Flag, kind: Kind::Text, required: false },
            ],
            pos: Seq::<PosSpec>::empty(),
            conflicts: seq![
                (1usize, 2usize),
                (3usize, 4usize),
                (3usize, 1usize),
                (4usize, 1usize),
            ],
            requires: seq![
                (2usize, 3usize, 4usize),
            ],
        },
        Leaf::ZenServiceStop => LeafV {
            opts: seq![
                OptSpec { name: "endpoint-id", arity: Arity::One, kind: Kind::Int, required: true },
                OptSpec { name: "yes", arity: Arity::Flag, kind: Kind::Text, required: false },
                OptSpec { name: "dry-run", arity: Arity::Flag, kind: Kind::Text, required: false },
                OptSpec { name: "cred-alias", arity: Arity::One, kind: Kind::Text, required: false },
                OptSpec { name: "user", arity: Arity::One, kind: Kind::Text, required: false },
                OptSpec { name: "pass", arity: Arity::One, kind: Kind::Text, required: false },
                OptSpec { name: "pass-stdin", arity: Arity::Flag, kind: Kind::Text, required: false },
            ],
            pos: Seq::<PosSpec>::empty(),
            conflicts: seq![
                (3usize, 4usize),
                (5usize, 6usize),
                (5usize, 3usize),
                (6usize, 3usize),
            ],
            requires: seq![
                (4usize, 5usize, 6usize),
            ],
        },
        Leaf::ZenServiceStatus => LeafV {
            opts: seq![
                OptSpec { name: "endpoint-id", arity: Arity::One, kind: Kind::Int, required: true },
                OptSpec { name: "cred-alias", arity: Arity::One, kind: Kind::Text, required: false },
                OptSpec { name: "user", arity: Arity::One, kind: Kind::Text, required: false },
                OptSpec { name: "pass", arity: Arity::One, kind: Kind::Text, required: false },
                OptSpec { name: "pass-stdin", arity: Arity::Flag, kind: Kind::Text, required: false },
            ],
            pos: Seq::<PosSpec>::empty(),
            conflicts: seq![
                (1usize, 2usize),
                (3usize, 4usize),
                (3usize, 1usize),
                (4usize, 1usize),
            ],
            requires: seq![
                (2usize, 3usize, 4usize),
            ],
        },
        Leaf::ZenUrlaclAdd => LeafV {
            opts: seq![
                OptSpec { name: "endpoint-id", arity: Arity::One, kind: Kind::Int, required: true },
                OptSpec { name: "principal", arity: Arity::One, kind: Kind::Text, required: true },
                OptSpec { name: "yes", arity: Arity::Flag, kind: Kind::Text, required: false },
                OptSpec { name: "dry-run", arity: Arity::Flag, kind: Kind::Text, required: false },
                OptSpec { name: "cred-alias", arity: Arity::One, kind: Kind::Text, required: false },
                OptSpec { name: "user", arity: Arity::One, kind: Kind::Text, required: false },
                OptSpec { name: "pass", arity: Arity::One, kind: Kind::Text, required: false },
                OptSpec { name: "pass-stdin", arity: Arity::Flag, kind: Kind::Text, required: false },
            ],
            pos: Seq::<PosSpec>::empty(),
            conflicts: seq![
                (4usize, 5usize),
                (6usize, 7usize),
                (6usize, 4usize),
                (7usize, 4usize),
            ],
            requires: seq![
                (5usize, 6usize, 7usize),
            ],
        },
        Leaf::ZenUrlaclList => LeafV {
            opts: seq![
                OptSpec { name: "machine", arity: Arity::One, kind: Kind::Int, required: true },
                OptSpec { name: "port-filter", arity: Arity::One, kind: Kind::Text, required: false },
                OptSpec { name: "cred-alias", arity: Arity::One, kind: Kind::Text, required: false },
                OptSpec { name: "user", arity: Arity::One, kind: Kind::Text, required: false },
                OptSpec { name: "pass", arity: Arity::One, kind: Kind::Text, required: false },
                OptSpec { name: "pass-stdin", arity: Arity::Flag, kind: Kind::Text, required: false },
            ],
            pos: Seq::<PosSpec>::empty(),
            conflicts: seq![
                (2usize, 3usize),
                (4usize, 5usize),
                (4usize, 2usize),
                (5usize, 2usize),
            ],
            requires: seq![
                (3usize, 4usize, 5usize),
            ],
        },
        Leaf::ZenUrlaclRemove => LeafV {
            opts: seq![
                OptSpec { name: "endpoint-id", arity: Arity::One, kind: Kind::Int, required: true },
                OptSpec { name: "yes", arity: Arity::Flag, kind: Kind::Text, required: false },
                OptSpec { name: "dry-run", arity: Arity::Flag, kind: Kind::Text, required: false },
                OptSpec { name: "cred-alias", arity: Arity::One, kind: Kind::Text, required: false },
                OptSpec { name: "user", arity: Arity::One, kind: Kind::Text, required: false },
                OptSpec { name: "pass", arity: Arity::One, kind: Kind::Text, required: false },
                OptSpec { name: "pass-stdin", arity: Arity::Flag, kind: Kind::Text, required: false },
            ],
            pos: Seq::<PosSpec>::empty(),
            conflicts: seq![
                (3usize, 4usize),
                (5usize, 6usize),
                (5usize, 3usize),
                (6usize, 3usize),
            ],
            requires: seq![
                (4usize, 5usize, 6usize),
            ],
        },
    }
}

fn leaf_table(l: Leaf) -> (r: LeafSpec)
    ensures
        r@ == leaf_spec(l),
        leaf_wf(r@),
{
    match l {
        Leaf::SystemVersion => LeafSpec {
            opts: Vec::new(),
            pos: Vec::new(),
            conflicts: Vec::new(),
            requires: Vec::new(),
        },
        Leaf::SystemDbPath => LeafSpec {
            opts: Vec::new(),
            pos: Vec::new(),
            conflicts: Vec::new(),
            requires: Vec::new(),
        },
        Leaf::SystemPsDir => LeafSpec {
            opts: Vec::new(),
            pos: Vec::new(),
            conflicts: Vec::new(),
            requires: Vec::new(),
        },
        Leaf::SystemMigrateDb => LeafSpec {
            opts: Vec::new(),
            pos: Vec::new(),
            conflicts: Vec::new(),
            requires: Vec::new(),
        },
        Leaf::SystemEcho => LeafSpec {
            opts: Vec::new(),
            pos: vec![
                PosSpec { name: "message", kind: Kind::Text },
            ],
            conflicts: Vec::new(),
            requires: Vec::new(),
        },
        Leaf::SystemSchema => LeafSpec {
            opts: Vec::new(),
            pos: Vec::new(),
            conflicts: Vec::new(),
            requires: Vec::new(),
        },
        Leaf::SystemExitCodes => LeafSpec {
            opts: Vec::new(),
            pos: Vec::new(),
            conflicts: Vec::new(),
            requires: Vec::new(),
        },
        Leaf::MachineList => LeafSpec {
            opts: Vec::new(),
            pos: Vec::new(),
            conflicts: Vec::new(),
            requires: Vec::new(),
        },
        Leaf::MachineScan => LeafSpec {
            opts: vec![
                OptSpec { name: "timeout-ms", arity: Arity::One, kind: Kind::UInt, required: false },
            ],
            pos: vec![
                PosSpec { name: "cidr", kind: Kind::Text },
            ],
            conflicts: Vec::new(),
            requires: Vec::new(),
        },
        Leaf::MachineAdd => LeafSpec {
            opts: vec![
                OptSpec { name: "ip", arity: Arity::One, kind: Kind::Text, required: true },
                OptSpec { name: "hostname", arity: Arity::One, kind: Kind::Text, required: false },
            ],
            pos: Vec::new(),
            conflicts: Vec::new(),
            requires: Vec::new(),
        },
        Leaf::MachineRefresh => LeafSpec {
            opts: vec![
                OptSpec { name: "cred-alias", arity: Arity::One, kind: Kind::Text, required: false },
                OptSpec { name: "user", arity: Arity::One, kind: Kind::Text, required: false },
                OptSpec { name: "pass", arity: Arity::One, kind: Kind::Text, required: false },
                OptSpec { name: "pass-stdin", arity: Arity::Flag, kind: Kind::Text, required: false },
            ],
            pos: vec![
                PosSpec { name: "id", kind: Kind::Int },
            ],
            conflicts: vec![
                (0, 1),
                (2, 3),
                (2, 0),
                (3, 0),
            ],
            requires: vec![
                (1, 2, 3),
            ],
        },
        Leaf::MachineDetail => LeafSpec {
            opts: Vec::new(),
            pos: vec![
                PosSpec { name: "id", kind: Kind::Int },
            ],
            conflicts: Vec::new(),
            requires: Vec::new(),
        },
        Leaf::MachineDelete => LeafSpec {
            opts: vec![
                OptSpec { name: "yes", arity: Arity::Flag, kind: Kind::Text, required: false },
                OptSpec { name: "dry-run", arity: Arity::Flag, kind: Kind::Text, required: false },
            ],
            pos: vec![
                PosSpec { name: "id", kind: Kind::Int },
            ],
            conflicts: Vec::new(),
            requires: Vec::new(),
        },
        Leaf::MachineRename => LeafSpec {
            opts: Vec::new(),
            pos: vec![
                PosSpec { name: "id", kind: Kind::Int },
                PosSpec { name: "hostname", kind: Kind::Text },
            ],
            conflicts: Vec::new(),
            requires: Vec::new(),
        },
        Leaf::MachineDeepScan => LeafSpec {
            opts: vec![
                OptSpec { name: "machine-ids", arity: Arity::Many, kind: Kind::Int, required: false },
                OptSpec { name: "all", arity: Arity::Flag, kind: Kind::Text, required: false },
                OptSpec { name: "cred-alias", arity: Arity::One, kind: Kind::Text, required: false },
                OptSpec { name: "user", arity: Arity::One, kind: Kind::Text, required: false },
                OptSpec { name: "pass", arity: Arity::One, kind: Kind::Text, required: false },
                OptSpec { name: "pass-stdin", arity: Arity::Flag, kind: Kind::Text, required: false },
            ],
            pos: Vec::new(),
            conflicts: vec![
                (2, 3),
                (4, 5),
                (4, 2),
                (5, 2),
            ],
            requires: vec![
                (3, 4, 5),
            ],
        },
        Leaf::MachineAuthorize => LeafSpec {
            opts: vec![
                OptSpec { name: "machine-ids", arity: Arity::Many, kind: Kind::Int, required: false },
                OptSpec { name: "all", arity: Arity::Flag, kind: Kind::Text, required: false },
                OptSpec { name: "save-as", arity: Arity::One, kind: Kind::Text, required: false },
                OptSpec { name: "cred-alias", arity: Arity::One, kind: Kind::Text, required: false },
                OptSpec { name: "user", arity: Arity::One, kind: Kind::Text, required: false },
                OptSpec { name: "pass", arity: Arity::One, kind: Kind::Text, required: false },
                OptSpec { name: "pass-stdin", arity: Arity::Flag, kind: Kind::Text, required: false },
            ],
            pos: Vec::new(),
            conflicts: vec![
                (3, 4),
                (5, 6),
                (5, 3),
                (6, 3),
            ],
            requires: vec![
                (4, 5, 6),
            ],
        },
        Leaf::WinrmProbe => LeafSpec {
            opts: Vec::new(),
            pos: vec![
                PosSpec { name: "host", kind: Kind::Text },
            ],
            conflicts: Vec::new(),
            requires: Vec::new(),
        },
        Leaf::WinrmBootstrapScript => LeafSpec {
            opts: vec![
                OptSpec { name: "output", arity: Arity::One, kind: Kind::Text, required: false },
            ],
            pos: Vec::new(),
            conflicts: Vec::new(),
            requires: Vec::new(),
        },
        Leaf::WinrmBootstrap => LeafSpec {
            opts: vec![
                OptSpec { name: "user", arity: Arity::One, kind: Kind::Text, required: true },
                OptSpec { name: "pass", arity: Arity::One, kind: Kind::Text, required: false },
                OptSpec { name: "pass-stdin", arity: Arity::Flag, kind: Kind::Text, required: false },
                OptSpec { name: "enable-local-admin", arity: Arity::Flag, kind: Kind::Text, required: false },
            ],
            pos: vec![
                PosSpec { name: "host", kind: Kind::Text },
            ],
            conflicts: vec![
                (1, 2),
            ],
            requires: Vec::new(),
        },
        Leaf::WinrmPreflight => LeafSpec {
            opts: vec![
                OptSpec { name: "user", arity: Arity::One, kind: Kind::Text, required: true },
                OptSpec { name: "pass", arity: Arity::One, kind: Kind::Text, required: false },
                OptSpec { name: "pass-stdin", arity: Arity::Flag, kind: Kind::Text, required: false },
                OptSpec { name: "probe", arity: Arity::Flag, kind: Kind::Text, required: false },
            ],
            pos: vec![
                PosSpec { name: "host", kind: Kind::Text },
            ],
            conflicts: vec![
                (1, 2),
            ],
            requires: Vec::new(),
        },
        Leaf::CredList => LeafSpec {
            opts: Vec::new(),
            pos: Vec::new(),
            conflicts: Vec::new(),
            requires: Vec::new(),
        },
        Leaf::CredSave => LeafSpec {
            opts: vec![
                OptSpec { name: "alias", arity: Arity::One, kind: Kind::Text, required: true },
                OptSpec { name: "user", arity: Arity::One, kind: Kind::Text, required: true },
                OptSpec { name: "pass", arity: Arity::One, kind: Kind::Text, required: false },
                OptSpec { name: "pass-stdin", arity: Arity::Flag, kind: Kind::Text, required: false },
                OptSpec { name: "kind", arity: Arity::One, kind: Kind::Text, required: false },
            ],
            pos: Vec::new(),
            conflicts: vec![
                (2, 3),
            ],
            requires: Vec::new(),
        },
        Leaf::CredDelete => LeafSpec {
            opts: vec![
                OptSpec { name: "yes", arity: Arity::Flag, kind: Kind::Text, required: false },
                OptSpec { name: "dry-run", arity: Arity::Flag, kind: Kind::Text, required: false },
            ],
            pos: vec![
                PosSpec { name: "alias", kind: Kind::Text },
            ],
            conflicts: Vec::new(),
            requires: Vec::new(),
        },
        Leaf::EnvGet => LeafSpec {
            opts: vec![
                OptSpec { name: "host", arity: Arity::One, kind: Kind::Text, required: true },
                OptSpec { name: "name", arity: Arity::One, kind: Kind::Text, required: true },
                OptSpec { name: "cred-alias", arity: Arity::One, kind: Kind::Text, required: false },
                OptSpec { name: "user", arity: Arity::One, kind: Kind::Text, required: false },
                OptSpec { name: "pass", arity: Arity::One, kind: Kind::Text, required: false },
                OptSpec { name: "pass-stdin", arity: Arity::Flag, kind: Kind::Text, required: false },
            ],
            pos: Vec::new(),
            conflicts: vec![
                (2, 3),
                (4, 5),
                (4, 2),
                (5, 2),
            ],
            requires: vec![
                (3, 4, 5),
            ],
        },
        Leaf::EnvSet => LeafSpec {
            opts: vec![
                OptSpec { name: "host", arity: Arity::One, kind: Kind::Text, required: false },
                OptSpec { name: "hosts", arity: Arity::Many, kind: Kind::Text, required: false },
                OptSpec { name: "name", arity: Arity::One, kind: Kind::Text, required: true },
                OptSpec { name: "value", arity: Arity::One, kind: Kind::Text, required: true },
                OptSpec { name: "yes", arity: Arity::Flag, kind: Kind::Text, required: false },
                OptSpec { name: "dry-run", arity: Arity::Flag, kind: Kind::Text, required: false },
                OptSpec { name: "cred-alias", arity: Arity::One, kind: Kind::Text, required: false },
                OptSpec { name: "user", arity: Arity::One, kind: Kind::Text, required: false },
                OptSpec { name: "pass", arity: Arity::One, kind: Kind::Text, required: false },
                OptSpec { name: "pass-stdin", arity: Arity::Flag, kind: Kind::Text, required: false },
            ],
            pos: Vec::new(),
            conflicts: vec![
                (0, 1),
                (6, 7),
                (8, 9),
                (8, 6),
                (9, 6),
            ],
            requires: vec![
                (7, 8, 9),
            ],
        },
        Leaf::IniRead => LeafSpec {
            opts: vec![
                OptSpec { name: "host", arity: Arity::One, kind: Kind::Text, required: true },
                OptSpec { name: "file", arity: Arity::One, kind: Kind::Text, required: true },
                OptSpec { name: "section", arity: Arity::One, kind: Kind::Text, required: true },
                OptSpec { name: "cred-alias", arity: Arity::One, kind: Kind::Text, required: false },
                OptSpec { name: "user", arity: Arity::One, kind: Kind::Text, required: false },
                OptSpec { name: "pass", arity: Arity::One, kind: Kind::Text, required: false },
                OptSpec { name: "pass-stdin", arity: Arity::Flag, kind: Kind::Text, required: false },
            ],
            pos: Vec::new(),
            conflicts: vec![
                (3, 4),
                (5, 6),
                (5, 3),
                (6, 3),
            ],
            requires: vec![
                (4, 5, 6),
            ],
        },
        Leaf::IniSet => LeafSpec {
            opts: vec![
                OptSpec { name: "host", arity: Arity::One, kind: Kind::Text, required: false },
                OptSpec { name: "hosts", arity: Arity::Many, kind: Kind::Text, required: false },
                OptSpec { name: "file", arity: Arity::One, kind: Kind::Text, required: true },
                OptSpec { name: "section", arity: Arity::One, kind: Kind::Text, required: true },
                OptSpec { name: "key", arity: Arity::One, kind: Kind::Text, required: true },
                OptSpec { name: "value", arity: Arity::One, kind: Kind::Text, required: true },
                OptSpec { name: "yes", arity: Arity::Flag, kind: Kind::Text, required: false },
                OptSpec { name: "dry-run", arity: Arity::Flag, kind: Kind::Text, required: false },
                OptSpec { name: "cred-alias", arity: Arity::One, kind: Kind::Text, required: false },
                OptSpec { name: "user", arity: Arity::One, kind: Kind::Text, required: false },
                OptSpec { name: "pass", arity: Arity::One, kind: Kind::Text, required: false },
                OptSpec { name: "pass-stdin", arity: Arity::Flag, kind: Kind::Text, required: false },
            ],
            pos: Vec::new(),
            conflicts: vec![
                (0, 1),
                (8, 9),
                (10, 11),
                (10, 8),
                (11, 8),
            ],
            requires: vec![
                (9, 10, 11),
            ],
        },
        Leaf::IniRemove => LeafSpec {
            opts: vec![
                OptSpec { name: "host", arity: Arity::One, kind: Kind::Text, required: false },
                OptSpec { name: "hosts", arity: Arity::Many, kind: Kind::Text, required: false },
                OptSpec { name: "file", arity: Arity::One, kind: Kind::Text, required: true },
                OptSpec { name: "section", arity: Arity::One, kind: Kind::Text, required: true },
                OptSpec { name: "key", arity: Arity::One, kind: Kind::Text, required: true },
                OptSpec { name: "yes", arity: Arity::Flag, kind: Kind::Text, required: false },
                OptSpec { name: "dry-run", arity: Arity::Flag, kind: Kind::Text, required: false },
                OptSpec { name: "cred-alias", arity: Arity::One, kind: Kind::Text, required: false },
                OptSpec { name: "user", arity: Arity::One, kind: Kind::Text, required: false },
                OptSpec { name: "pass", arity: Arity::One, kind: Kind::Text, required: false },
                OptSpec { name: "pass-stdin", arity: Arity::Flag, kind: Kind::Text, required: false },
            ],
            pos: Vec::new(),
            conflicts: vec![
                (0, 1),
                (7, 8),
                (9, 10),
                (9, 7),
                (10, 7),
            ],
            requires: vec![
                (8, 9, 10),
            ],
        },
        Leaf::IniScan => LeafSpec {
            opts: vec![
                OptSpec { name: "machine-ids", arity: Arity::Many, kind: Kind::Int, required: false },
                OptSpec { name: "cred-alias", arity: Arity::One, kind: Kind::Text, required: false },
                OptSpec { name: "user", arity: Arity::One, kind: Kind::Text, required: false },
                OptSpec { name: "pass", arity: Arity::One, kind: Kind::Text, required: false },
                OptSpec { name: "pass-stdin", arity: Arity::Flag, kind: Kind::Text, required: false },
            ],
            pos: Vec::new(),
            conflicts: vec![
                (1, 2),
                (3, 4),
                (3, 1),
                (4, 1),
            ],
            requires: vec![
                (2, 3, 4),
            ],
        },
        Leaf::IniRuns => LeafSpec {
            opts: vec![
                OptSpec { name: "limit", arity: Arity::One, kind: Kind::Int, required: false },
            ],
            pos: Vec::new(),
            conflicts: Vec::new(),
            requires: Vec::new(),
        },
        Leaf::IniFindings => LeafSpec {
            opts: vec![
                OptSpec { name: "severity", arity: Arity::One, kind: Kind::Text, required: false },
            ],
            pos: vec![
                PosSpec { name: "scan_run_id", kind: Kind::Int },
            ],
            conflicts: Vec::new(),
            requires: Vec::new(),
        },
        Leaf::IniGetFinding => LeafSpec {
            opts: Vec::new(),
            pos: vec![
                PosSpec { name: "finding_id", kind: Kind::Int },
            ],
            conflicts: Vec::new(),
            requires: Vec::new(),
        },
        Leaf::IniApply => LeafSpec {
            opts: vec![
                OptSpec { name: "yes", arity: Arity::Flag, kind: Kind::Text, required: false },
                OptSpec { name: "dry-run", arity: Arity::Flag, kind: Kind::Text, required: false },
                OptSpec { name: "cred-alias", arity: Arity::One, kind: Kind::Text, required: false },
                OptSpec { name: "user", arity: Arity::One, kind: Kind::Text, required: false },
                OptSpec { name: "pass", arity: Arity::One, kind: Kind::Text, required: false },
                OptSpec { name: "pass-stdin", arity: Arity::Flag, kind: Kind::Text, required: false },
            ],
            pos: vec![
                PosSpec { name: "finding_id", kind: Kind::Int },
            ],
            conflicts: vec![
                (2, 3),
                (4, 5),
                (4, 2),
                (5, 2),
            ],
            requires: vec![
                (3, 4, 5),
            ],
        },
        Leaf::IniSkip => LeafSpec {
            opts: Vec::new(),
            pos: vec![
                PosSpec { name: "finding_id", kind: Kind::Int },
            ],
            conflicts: Vec::new(),
            requires: Vec::new(),
        },
        Leaf::IniVerifyPsoPrecaching => LeafSpec {
            opts: vec![
                OptSpec { name: "project-id", arity: Arity::One, kind: Kind::Int, required: true },
            ],
            pos: Vec::new(),
            conflicts: Vec::new(),
            requires: Vec::new(),
        },
        Leaf::ShareList => LeafSpec {
            opts: Vec::new(),
            pos: Vec::new(),
            conflicts: Vec::new(),
            requires: Vec::new(),
        },
        Leaf::ShareForget => LeafSpec {
            opts: vec![
                OptSpec { name: "yes", arity: Arity::Flag, kind: Kind::Text, required: false },
                OptSpec { name: "dry-run", arity: Arity::Flag, kind: Kind::Text, required: false },
            ],
            pos: vec![
                PosSpec { name: "id", kind: Kind::Int },
            ],
            conflicts: Vec::new(),
            requires: Vec::new(),
        },
        Leaf::ShareCreate => LeafSpec {
            opts: vec![
                OptSpec { name: "mode", arity: Arity::One, kind: Kind::Text, required: true },
                OptSpec { name: "host", arity: Arity::One, kind: Kind::Text, required: true },
                OptSpec { name: "share", arity: Arity::One, kind: Kind::Text, required: true },
                OptSpec { name: "local-path", arity: Arity::One, kind: Kind::Text, required: true },
                OptSpec { name: "yes", arity: Arity::Flag, kind: Kind::Text, required: false },
                OptSpec { name: "dry-run", arity: Arity::Flag, kind: Kind::Text, required: false },
                OptSpec { name: "cred-alias", arity: Arity::One, kind: Kind::Text, required: false },
                OptSpec { name: "user", arity: Arity::One, kind: Kind::Text, required: false },
                OptSpec { name: "pass", arity: Arity::One, kind: Kind::Text, required: false },
                OptSpec { name: "pass-stdin", arity: Arity::Flag, kind: Kind::Text, required: false },
            ],
            pos: Vec::new(),
            conflicts: vec![
                (6, 7),
                (8, 9),
                (8, 6),
                (9, 6),
            ],
            requires: vec![
                (7, 8, 9),
            ],
        },
        Leaf::ShareInjectSystemCred => LeafSpec {
            opts: vec![
                OptSpec { name: "client-host", arity: Arity::One, kind: Kind::Text, required: true },
                OptSpec { name: "target-host", arity: Arity::One, kind: Kind::Text, required: true },
                OptSpec { name: "svc-user", arity: Arity::One, kind: Kind::Text, required: false },
                OptSpec { name: "yes", arity: Arity::Flag, kind: Kind::Text, required: false },
                OptSpec { name: "dry-run", arity: Arity::Flag, kind: Kind::Text, required: false },
                OptSpec { name: "cred-alias", arity: Arity::One, kind: Kind::Text, required: false },
                OptSpec { name: "user", arity: Arity::One, kind: Kind::Text, required: false },
                OptSpec { name: "pass", arity: Arity::One, kind: Kind::Text, required: false },
                OptSpec { name: "pass-stdin", arity: Arity::Flag, kind: Kind::Text, required: false },
            ],
            pos: Vec::new(),
            conflicts: vec![
                (5, 6),
                (7, 8),
                (7, 5),
                (8, 5),
            ],
            requires: vec![
                (6, 7, 8),
            ],
        },
        Leaf::ProjectList => LeafSpec {
            opts: Vec::new(),
            pos: Vec::new(),
            conflicts: Vec::new(),
            requires: Vec::new(),
        },
        Leaf::ProjectLocations => LeafSpec {
            opts: Vec::new(),
            pos: vec![
                PosSpec { name: "project_id", kind: Kind::Int },
            ],
            conflicts: Vec::new(),
            requires: Vec::new(),
        },
        Leaf::ProjectDiscover => LeafSpec {
            opts: vec![
                OptSpec { name: "machine-id", arity: Arity::One, kind: Kind::Int, required: true },
                OptSpec { name: "roots", arity: Arity::Many, kind: Kind::Text, required: false },
                OptSpec { name: "cred-alias", arity: Arity::One, kind: Kind::Text, required: false },
                OptSpec { name: "user", arity: Arity::One, kind: Kind::Text, required: false },
                OptSpec { name: "pass", arity: Arity::One, kind: Kind::Text, required: false },
                OptSpec { name: "pass-stdin", arity: Arity::Flag, kind: Kind::Text, required: false },
            ],
            pos: Vec::new(),
            conflicts: vec![
                (2, 3),
                (4, 5),
                (4, 2),
                (5, 2),
            ],
            requires: vec![
                (3, 4, 5),
            ],
        },
        Leaf::ProjectCreateManual => LeafSpec {
            opts: vec![
                OptSpec { name: "uproject-name", arity: Arity::One, kind: Kind::Text, required: true },
                OptSpec { name: "display-name", arity: Arity::One, kind: Kind::Text, required: false },
            ],
            pos: Vec::new(),
            conflicts: Vec::new(),
            requires: Vec::new(),
        },
        Leaf::ProjectSetLocation => LeafSpec {
            opts: vec![
                OptSpec { name: "project-id", arity: Arity::One, kind: Kind::Int, required: true },
                OptSpec { name: "machine-id", arity: Arity::One, kind: Kind::Int, required: true },
                OptSpec { name: "abs-path", arity: Arity::One, kind: Kind::Text, required: true },
                OptSpec { name: "uproject-path", arity: Arity::One, kind: Kind::Text, required: true },
                OptSpec { name: "manual-path", arity: Arity::Flag, kind: Kind::Text, required: false },
            ],
            pos: Vec::new(),
            conflicts: Vec::new(),
            requires: Vec::new(),
        },
        Leaf::ProjectDelete => LeafSpec {
            opts: vec![
                OptSpec { name: "yes", arity: Arity::Flag, kind: Kind::Text, required: false },
                OptSpec { name: "dry-run", arity: Arity::Flag, kind: Kind::Text, required: false },
            ],
            pos: vec![
                PosSpec { name: "id", kind: Kind::Int },
            ],
            conflicts: Vec::new(),
            requires: Vec::new(),
        },
        Leaf::ProjectDeleteLocation => LeafSpec {
            opts: vec![
                OptSpec { name: "yes", arity: Arity::Flag, kind: Kind::Text, required: false },
                OptSpec { name: "dry-run", arity: Arity::Flag, kind: Kind::Text, required: false },
            ],
            pos: vec![
                PosSpec { name: "id", kind: Kind::Int },
            ],
            conflicts: Vec::new(),
            requires: Vec::new(),
        },
        Leaf::HealthRun => LeafSpec {
            opts: vec![
                OptSpec { name: "machine-ids", arity: Arity::Many, kind: Kind::Int, required: false },
                OptSpec { name: "cidr", arity: Arity::One, kind: Kind::Text, required: false },
                OptSpec { name: "all", arity: Arity::Flag, kind: Kind::Text, required: false },
                OptSpec { name: "cred-alias", arity: Arity::One, kind: Kind::Text, required: false },
                OptSpec { name: "user", arity: Arity::One, kind: Kind::Text, required: false },
                OptSpec { name: "pass", arity: Arity::One, kind: Kind::Text, required: false },
                OptSpec { name: "pass-stdin", arity: Arity::Flag, kind: Kind::Text, required: false },
            ],
            pos: Vec::new(),
            conflicts: vec![
                (3, 4),
                (5, 6),
                (5, 3),
                (6, 3),
                (0, 1),
                (0, 2),
                (1, 2),
            ],
            requires: vec![
                (4, 5, 6),
            ],
        },
        Leaf::HealthRuns => LeafSpec {
            opts: vec![
                OptSpec { name: "limit", arity: Arity::One, kind: Kind::Int, required: false },
            ],
            pos: Vec::new(),
            conflicts: Vec::new(),
            requires: Vec::new(),
        },
        Leaf::HealthResults => LeafSpec {
            opts: Vec::new(),
            pos: vec![
                PosSpec { name: "scan_run_id", kind: Kind::Int },
            ],
            conflicts: Vec::new(),
            requires: Vec::new(),
        },
        Leaf::GpuMatrix => LeafSpec {
            opts: Vec::new(),
            pos: Vec::new(),
            conflicts: Vec::new(),
            requires: Vec::new(),
        },
        Leaf::DdcGenerate => LeafSpec {
            opts: vec![
                OptSpec { name: "project-id", arity: Arity::One, kind: Kind::Int, required: true },
                OptSpec { name: "source-machine", arity: Arity::One, kind: Kind::Int, required: true },
                OptSpec { name: "backend", arity: Arity::One, kind: Kind::Backend, required: false },
                OptSpec { name: "cred-alias", arity: Arity::One, kind: Kind::Text, required: false },
                OptSpec { name: "user", arity: Arity::One, kind: Kind::Text, required: false },
                OptSpec { name: "pass", arity: Arity::One, kind: Kind::Text, required: false },
                OptSpec { name: "pass-stdin", arity: Arity::Flag, kind: Kind::Text, required: false },
            ],
            pos: Vec::new(),
            conflicts: vec![
                (3, 4),
                (5, 6),
                (5, 3),
                (6, 3),
            ],
            requires: vec![
                (4, 5, 6),
            ],
        },
        Leaf::DdcVerify => LeafSpec {
            opts: vec![
                OptSpec { name: "project-id", arity: Arity::One, kind: Kind::Int, required: true },
                OptSpec { name: "source-machine", arity: Arity::One, kind: Kind::Int, required: true },
                OptSpec { name: "backend", arity: Arity::One, kind: Kind::Backend, required: false },
                OptSpec { name: "cred-alias", arity: Arity::One, kind: Kind::Text, required: false },
                OptSpec { name: "user", arity: Arity::One, kind: Kind::Text, required: false },
                OptSpec { name: "pass", arity: Arity::One, kind: Kind::Text, required: false },
                OptSpec { name: "pass-stdin", arity: Arity::Flag, kind: Kind::Text, required: false },
            ],
            pos: Vec::new(),
            conflicts: vec![
                (3, 4),
                (5, 6),
                (5, 3),
                (6, 3),
            ],
            requires: vec![
                (4, 5, 6),
            ],
        },
        Leaf::DdcDistribute => LeafSpec {
            opts: vec![
                OptSpec { name: "project-id", arity: Arity::One, kind: Kind::Int, required: true },
                OptSpec { name: "source-machine", arity: Arity::One, kind: Kind::Int, required: true },
                OptSpec { name: "targets", arity: Arity::Many, kind: Kind::Int, required: false },
                OptSpec { name: "yes", arity: Arity::Flag, kind: Kind::Text, required: false },
                OptSpec { name: "dry-run", arity: Arity::Flag, kind: Kind::Text, required: false },
                OptSpec { name: "backend", arity: Arity::One, kind: Kind::Backend, required: false },
                OptSpec { name: "cred-alias", arity: Arity::One, kind: Kind::Text, required: false },
                OptSpec { name: "user", arity: Arity::One, kind: Kind::Text, required: false },
                OptSpec { name: "pass", arity: Arity::One, kind: Kind::Text, required: false },
                OptSpec { name: "pass-stdin", arity: Arity::Flag, kind: Kind::Text, required: false },
            ],
            pos: Vec::new(),
            conflicts: vec![
                (6, 7),
                (8, 9),
                (8, 6),
                (9, 6),
            ],
            requires: vec![
                (7, 8, 9),
            ],
        },
        Leaf::PsoVerify => LeafSpec {
            opts: vec![
                OptSpec { name: "project-id", arity: Arity::One, kind: Kind::Int, required: true },
            ],
            pos: Vec::new(),
            conflicts: Vec::new(),
            requires: Vec::new(),
        },
        Leaf::PsoCollect => LeafSpec {
            opts: vec![
                OptSpec { name: "project-id", arity: Arity::One, kind: Kind::Int, required: true },
                OptSpec { name: "source-machine", arity: Arity::One, kind: Kind::Int, required: true },
                OptSpec { name: "resolution", arity: Arity::One, kind: Kind::Text, required: false },
                OptSpec { name: "windowed", arity: Arity::Flag, kind: Kind::Text, required: false },
                OptSpec { name: "max-minutes", arity: Arity::One, kind: Kind::Small, required: false },
                OptSpec { name: "cred-alias", arity: Arity::One, kind: Kind::Text, required: false },
                OptSpec { name: "user", arity: Arity::One, kind: Kind::Text, required: false },
                OptSpec { name: "pass", arity: Arity::One, kind: Kind::Text, required: false },
                OptSpec { name: "pass-stdin", arity: Arity::Flag, kind: Kind::Text, required: false },
            ],
            pos: Vec::new(),
            conflicts: vec![
                (5, 6),
                (7, 8),
                (7, 5),
                (8, 5),
            ],
            requires: vec![
                (6, 7, 8),
            ],
        },
        Leaf::PsoList => LeafSpec {
            opts: vec![
                OptSpec { name: "project-id", arity: Arity::One, kind: Kind::Int, required: true },
            ],
            pos: Vec::new(),
            conflicts: Vec::new(),
            requires: Vec::new(),
        },
        Leaf::PsoDistribute => LeafSpec {
            opts: vec![
                OptSpec { name: "project-id", arity: Arity::One, kind: Kind::Int, required: true },
                OptSpec { name: "source-machine", arity: Arity::One, kind: Kind::Int, required: true },
                OptSpec { name: "targets", arity: Arity::Many, kind: Kind::Int, required: false },
                OptSpec { name: "yes", arity: Arity::Flag, kind: Kind::Text, required: false },
                OptSpec { name: "dry-run", arity: Arity::Flag, kind: Kind::Text, required: false },
                OptSpec { name: "cred-alias", arity: Arity::One, kind: Kind::Text, required: false },
                OptSpec { name: "user", arity: Arity::One, kind: Kind::Text, required: false },
                OptSpec { name: "pass", arity: Arity::One, kind: Kind::Text, required: false },
                OptSpec { name: "pass-stdin", arity: Arity::Flag, kind: Kind::Text, required: false },
            ],
            pos: Vec::new(),
            conflicts: vec![
                (5, 6),
                (7, 8),
                (7, 5),
                (8, 5),
            ],
            requires: vec![
                (6, 7, 8),
            ],
        },
        Leaf::ZenStatus => LeafSpec {
            opts: vec![
                OptSpec { name: "machine", arity: Arity::One, kind: Kind::Int, required: false },
                OptSpec { name: "all", arity: Arity::Flag, kind: Kind::Text, required: false },
            ],
            pos: Vec::new(),
            conflicts: vec![
                (0, 1),
            ],
            requires: Vec::new(),
        },
        Leaf::ZenProbe => LeafSpec {
            opts: vec![
                OptSpec { name: "machine", arity: Arity::One, kind: Kind::Int, required: false },
                OptSpec { name: "all", arity: Arity::Flag, kind: Kind::Text, required: false },
                OptSpec { name: "timeout", arity: Arity::One, kind: Kind::UInt, required: false },
                OptSpec { name: "cred-alias", arity: Arity::One, kind: Kind::Text, required: false },
                OptSpec { name: "user", arity: Arity::One, kind: Kind::Text, required: false },
                OptSpec { name: "pass", arity: Arity::One, kind: Kind::Text, required: false },
                OptSpec { name: "pass-stdin", arity: Arity::Flag, kind: Kind::Text, required: false },
            ],
            pos: Vec::new(),
            conflicts: vec![
                (3, 4),
                (5, 6),
                (5, 3),
                (6, 3),
                (0, 1),
            ],
            requires: vec![
                (4, 5, 6),
            ],
        },
        Leaf::ZenCacheStats => LeafSpec {
            opts: vec![
                OptSpec { name: "endpoint-id", arity: Arity::One, kind: Kind::Int, required: false },
                OptSpec { name: "all", arity: Arity::Flag, kind: Kind::Text, required: false },
                OptSpec { name: "timeout", arity: Arity::One, kind: Kind::UInt, required: false },
            ],
            pos: Vec::new(),
            conflicts: vec![
                (0, 1),
            ],
            requires: Vec::new(),
        },
        Leaf::ZenDetectBinary => LeafSpec {
            opts: vec![
                OptSpec { name: "machine", arity: Arity::One, kind: Kind::Int, required: false },
                OptSpec { name: "all", arity: Arity::Flag, kind: Kind::Text, required: false },
                OptSpec { name: "cred-alias", arity: Arity::One, kind: Kind::Text, required: false },
                OptSpec { name: "user", arity: Arity::One, kind: Kind::Text, required: false },
                OptSpec { name: "pass", arity: Arity::One, kind: Kind::Text, required: false },
                OptSpec { name: "pass-stdin", arity: Arity::Flag, kind: Kind::Text, required: false },
            ],
            pos: Vec::new(),
            conflicts: vec![
                (2, 3),
                (4, 5),
                (4, 2),
                (5, 2),
                (0, 1),
            ],
            requires: vec![
                (3, 4, 5),
            ],
        },
        Leaf::ZenListEndpoints => LeafSpec {
            opts: vec![
                OptSpec { name: "machine", arity: Arity::One, kind: Kind::Int, required: false },
            ],
            pos: Vec::new(),
            conflicts: Vec::new(),
            requires: Vec::new(),
        },
        Leaf::ZenBaselineList => LeafSpec {
            opts: vec![
                OptSpec { name: "zen-build-version", arity: Arity::One, kind: Kind::Text, required: false },
                OptSpec { name: "kind", arity: Arity::One, kind: Kind::Text, required: false },
            ],
            pos: Vec::new(),
            conflicts: Vec::new(),
            requires: Vec::new(),
        },
        Leaf::ZenBaselineLock => LeafSpec {
            opts: vec![
                OptSpec { name: "zen-build-version", arity: Arity::One, kind: Kind::Text, required: true },
                OptSpec { name: "kind", arity: Arity::One, kind: Kind::Text, required: true },
                OptSpec { name: "locked-by", arity: Arity::One, kind: Kind::Text, required: true },
                OptSpec { name: "yes", arity: Arity::Flag, kind: Kind::Text, required: false },
                OptSpec { name: "dry-run", arity: Arity::Flag, kind: Kind::Text, required: false },
            ],
            pos: Vec::new(),
            conflicts: Vec::new(),
            requires: Vec::new(),
        },
        Leaf::ZenBaselineUnlock => LeafSpec {
            opts: vec![
                OptSpec { name: "zen-build-version", arity: Arity::One, kind: Kind::Text, required: true },
                OptSpec { name: "kind", arity: Arity::One, kind: Kind::Text, required: true },
                OptSpec { name: "yes", arity: Arity::Flag, kind: Kind::Text, required: false },
                OptSpec { name: "dry-run", arity: Arity::Flag, kind: Kind::Text, required: false },
            ],
            pos: Vec::new(),
            conflicts: Vec::new(),
            requires: Vec::new(),
        },
        Leaf::ZenRegister => LeafSpec {
            opts: vec![
                OptSpec { name: "machine", arity: Arity::One, kind: Kind::Int, required: true },
                OptSpec { name: "declared-port", arity: Arity::One, kind: Kind::Int, required: false },
                OptSpec { name: "scheme", arity: Arity::One, kind: Kind::Text, required: false },
                OptSpec { name: "role", arity: Arity::One, kind: Kind::Text, required: true },
                OptSpec { name: "upstream-endpoint-id", arity: Arity::One, kind: Kind::Int, required: false },
                OptSpec { name: "data-dir", arity: Arity::One, kind: Kind::Text, required: false },
                OptSpec { name: "httpserverclass", arity: Arity::One, kind: Kind::Text, required: false },
                OptSpec { name: "lifecycle", arity: Arity::One, kind: Kind::Text, required: false },
            ],
            pos: Vec::new(),
            conflicts: Vec::new(),
            requires: Vec::new(),
        },
        Leaf::ZenUnregister => LeafSpec {
            opts: vec![
                OptSpec { name: "endpoint-id", arity: Arity::One, kind: Kind::Int, required: true },
                OptSpec { name: "yes", arity: Arity::Flag, kind: Kind::Text, required: false },
                OptSpec { name: "dry-run", arity: Arity::Flag, kind: Kind::Text, required: false },
            ],
            pos: Vec::new(),
            conflicts: Vec::new(),
            requires: Vec::new(),
        },
        Leaf::ZenApplyConfig => LeafSpec {
            opts: vec![
                OptSpec { name: "endpoint-id", arity: Arity::One, kind: Kind::Int, required: true },
                OptSpec { name: "dest-path", arity: Arity::One, kind: Kind::Text, required: true },
                OptSpec { name: "yes", arity: Arity::Flag, kind: Kind::Text, required: false },
                OptSpec { name: "dry-run", arity: Arity::Flag, kind: Kind::Text, required: false },
                OptSpec { name: "cred-alias", arity: Arity::One, kind: Kind::Text, required: false },
                OptSpec { name: "user", arity: Arity::One, kind: Kind::Text, required: false },
                OptSpec { name: "pass", arity: Arity::One, kind: Kind::Text, required: false },
                OptSpec { name: "pass-stdin", arity: Arity::Flag, kind: Kind::Text, required: false },
            ],
            pos: Vec::new(),
            conflicts: vec![
                (4, 5),
                (6, 7),
                (6, 4),
                (7, 4),
            ],
            requires: vec![
                (5, 6, 7),
            ],
        },
        Leaf::ZenLuaPreview => LeafSpec {
            opts: vec![
                OptSpec { name: "endpoint-id", arity: Arity::One, kind: Kind::Int, required: true },
            ],
            pos: Vec::new(),
            conflicts: Vec::new(),
            requires: Vec::new(),
        },
        Leaf::ZenServiceInstall => LeafSpec {
            opts: vec![
                OptSpec { name: "endpoint-id", arity: Arity::One, kind: Kind::Int, required: true },
                OptSpec { name: "yes", arity: Arity::Flag, kind: Kind::Text, required: false },
                OptSpec { name: "dry-run", arity: Arity::Flag, kind: Kind::Text, required: false },
                OptSpec { name: "cred-alias", arity: Arity::One, kind: Kind::Text, required: false },
                OptSpec { name: "user", arity: Arity::One, kind: Kind::Text, required: false },
                OptSpec { name: "pass", arity: Arity::One, kind: Kind::Text, required: false },
                OptSpec { name: "pass-stdin", arity: Arity::Flag, kind: Kind::Text, required: false },
            ],
            pos: Vec::new(),
            conflicts: vec![
                (3, 4),
                (5, 6),
                (5, 3),
                (6, 3),
            ],
            requires: vec![
                (4, 5, 6),
            ],
        },
        Leaf::ZenServiceUninstall => LeafSpec {
            opts: vec![
                OptSpec { name: "endpoint-id", arity: Arity::One, kind: Kind::Int, required: true },
                OptSpec { name: "yes", arity: Arity::Flag, kind: Kind::Text, required: false },
                OptSpec { name: "dry-run", arity: Arity::Flag, kind: Kind::Text, required: false },
                OptSpec { name: "cred-alias", arity: Arity::One, kind: Kind::Text, required: false },
                OptSpec { name: "user", arity: Arity::One, kind: Kind::Text, required: false },
                OptSpec { name: "pass", arity: Arity::One, kind: Kind::Text, required: false },
                OptSpec { name: "pass-stdin", arity: Arity::Flag, kind: Kind::Text, required: false },
            ],
            pos: Vec::new(),
            conflicts: vec![
                (3, 4),
                (5, 6),
                (5, 3),
                (6, 3),
            ],
            requires: vec![
                (4, 5, 6),
            ],
        },
        Leaf::ZenServiceStart => LeafSpec {
            opts: vec![
                OptSpec { name: "endpoint-id", arity: Arity::One, kind: Kind::Int, required: true },
                OptSpec { name: "cred-alias", arity: Arity::One, kind: Kind::Text, required: false },
                OptSpec { name: "user", arity: Arity::One, kind: Kind::Text, required: false },
                OptSpec { name: "pass", arity: Arity::One, kind: Kind::Text, required: false },
                OptSpec { name: "pass-stdin", arity: Arity::Flag, kind: Kind::Text, required: false },
            ],
            pos: Vec::new(),
            conflicts: vec![
                (1, 2),
                (3, 4),
                (3, 1),
                (4, 1),
            ],
            requires: vec![
                (2, 3, 4),
            ],
        },
        Leaf::ZenServiceStop => LeafSpec {
            opts: vec![
                OptSpec { name: "endpoint-id", arity: Arity::One, kind: Kind::Int, required: true },
                OptSpec { name: "yes", arity: Arity::Flag, kind: Kind::Text, required: false },
                OptSpec { name: "dry-run", arity: Arity::Flag, kind: Kind::Text, required: false },
                OptSpec { name: "cred-alias", arity: Arity::One, kind: Kind::Text, required: false },
                OptSpec { name: "user", arity: Arity::One, kind: Kind::Text, required: false },
                OptSpec { name: "pass", arity: Arity::One, kind: Kind::Text, required: false },
                OptSpec { name: "pass-stdin", arity: Arity::Flag, kind: Kind::Text, required: false },
            ],
            pos: Vec::new(),
            conflicts: vec![
                (3, 4),
                (5, 6),
                (5, 3),
                (6, 3),
            ],
            requires: vec![
                (4, 5, 6),
            ],
        },
        Leaf::ZenServiceStatus => LeafSpec {
            opts: vec![
                OptSpec { name: "endpoint-id", arity: Arity::One, kind: Kind::Int, required: true },
                OptSpec { name: "cred-alias", arity: Arity::One, kind: Kind::Text, required: false },
                OptSpec { name: "user", arity: Arity::One, kind: Kind::Text, required: false },
                OptSpec { name: "pass", arity: Arity::One, kind: Kind::Text, required: false },
                OptSpec { name: "pass-stdin", arity: Arity::Flag, kind: Kind::Text, required: false },
            ],
            pos: Vec::new(),
            conflicts: vec![
                (1, 2),
                (3, 4),
                (3, 1),
                (4, 1),
            ],
            requires: vec![
                (2, 3, 4),
            ],
        },
        Leaf::ZenUrlaclAdd => LeafSpec {
            opts: vec![
                OptSpec { name: "endpoint-id", arity: Arity::One, kind: Kind::Int, required: true },
                OptSpec { name: "principal", arity: Arity::One, kind: Kind::Text, required: true },
                OptSpec { name: "yes", arity: Arity::Flag, kind: Kind::Text, required: false },
                OptSpec { name: "dry-run", arity: Arity::Flag, kind: Kind::Text, required: false },
                OptSpec { name: "cred-alias", arity: Arity::One, kind: Kind::Text, required: false },
                OptSpec { name: "user", arity: Arity::One, kind: Kind::Text, required: false },
                OptSpec { name: "pass", arity: Arity::One, kind: Kind::Text, required: false },
                OptSpec { name: "pass-stdin", arity: Arity::Flag, kind: Kind::Text, required: false },
            ],
            pos: Vec::new(),
            conflicts: vec![
                (4, 5),
                (6, 7),
                (6, 4),
                (7, 4),
            ],
            requires: vec![
                (5, 6, 7),
            ],
        },
        Leaf::ZenUrlaclList => LeafSpec {
            opts: vec![
                OptSpec { name: "machine", arity: Arity::One, kind: Kind::Int, required: true },
                OptSpec { name: "port-filter", arity: Arity::One, kind: Kind::Text, required: false },
                OptSpec { name: "cred-alias", arity: Arity::One, kind: Kind::Text, required: false },
                OptSpec { name: "user", arity: Arity::One, kind: Kind::Text, required: false },
                OptSpec { name: "pass", arity: Arity::One, kind: Kind::Text, required: false },
                OptSpec { name: "pass-stdin", arity: Arity::Flag, kind: Kind::Text, required: false },
            ],
            pos: Vec::new(),
            conflicts: vec![
                (2, 3),
                (4, 5),
                (4, 2),
                (5, 2),
            ],
            requires: vec![
                (3, 4, 5),
            ],
        },
        Leaf::ZenUrlaclRemove => LeafSpec {
            opts: vec![
                OptSpec { name: "endpoint-id", arity: Arity::One, kind: Kind::Int, required: true },
                OptSpec { name: "yes", arity: Arity::Flag, kind: Kind::Text, required: false },
                OptSpec { name: "dry-run", arity: Arity::Flag, kind: Kind::Text, required: false },
                OptSpec { name: "cred-alias", arity: Arity::One, kind: Kind::Text, required: false },
                OptSpec { name: "user", arity: Arity::One, kind: Kind::Text, required: false },
                OptSpec { name: "pass", arity: Arity::One, kind: Kind::Text, required: false },
                OptSpec { name: "pass-stdin", arity: Arity::Flag, kind: Kind::Text, required: false },
            ],
            pos: Vec::new(),
            conflicts: vec![
                (3, 4),
                (5, 6),
                (5, 3),
                (6, 3),
            ],
            requires: vec![
                (4, 5, 6),
            ],
        },
    }
}

/// The top-level domain a leaf belongs to.
pub open spec fn leaf_domain(l: Leaf) -> Group {
    match l {
        Leaf::SystemVersion => Group::System,
        Leaf::SystemDbPath => Group::System,
        Leaf::SystemPsDir => Group::System,
        Leaf::SystemMigrateDb => Group::System,
        Leaf::SystemEcho => Group::System,
        Leaf::SystemSchema => Group::System,
        Leaf::SystemExitCodes => Group::System,
        Leaf::MachineList => Group::Machine,
        Leaf::MachineScan => Group::Machine,
        Leaf::MachineAdd => Group::Machine,
        Leaf::MachineRefresh => Group::Machine,
        Leaf::MachineDetail => Group::Machine,
        Leaf::MachineDelete => Group::Machine,
        Leaf::MachineRename => Group::Machine,
        Leaf::MachineDeepScan => Group::Machine,
        Leaf::MachineAuthorize => Group::Machine,
        Leaf::WinrmProbe => Group::Winrm,
        Leaf::WinrmBootstrapScript => Group::Winrm,
        Leaf::WinrmBootstrap => Group::Winrm,
        Leaf::WinrmPreflight => Group::Winrm,
        Leaf::CredList => Group::Cred,
        Leaf::CredSave => Group::Cred,
        Leaf::CredDelete => Group::Cred,
        Leaf::EnvGet => Group::Env,
        Leaf::EnvSet => Group::Env,
        Leaf::IniRead => Group::Ini,
        Leaf::IniSet => Group::Ini,
        Leaf::IniRemove => Group::Ini,
        Leaf::IniScan => Group::Ini,
        Leaf::IniRuns => Group::Ini,
        Leaf::IniFindings => Group::Ini,
        Leaf::IniGetFinding => Group::Ini,
        Leaf::IniApply => Group::Ini,
        Leaf::IniSkip => Group::Ini,
        Leaf::IniVerifyPsoPrecaching => Group::Ini,
        Leaf::ShareList => Group::Share,
        Leaf::ShareForget => Group::Share,
        Leaf::ShareCreate => Group::Share,
        Leaf::ShareInjectSystemCred => Group::Share,
        Leaf::ProjectList => Group::Project,
        Leaf::ProjectLocations => Group::Project,
        Leaf::ProjectDiscover => Group::Project,
        Leaf::ProjectCreateManual => Group::Project,
        Leaf::ProjectSetLocation => Group::Project,
        Leaf::ProjectDelete => Group::Project,
        Leaf::ProjectDeleteLocation => Group::Project,
        Leaf::HealthRun => Group::Health,
        Leaf::HealthRuns => Group::Health,
        Leaf::HealthResults => Group::Health,
        Leaf::GpuMatrix => Group::Gpu,
        Leaf::DdcGenerate => Group::Ddc,
        Leaf::DdcVerify => Group::Ddc,
        Leaf::DdcDistribute => Group::Ddc,
        Leaf::PsoVerify => Group::Pso,
        Leaf::PsoCollect => Group::Pso,
        Leaf::PsoList => Group::Pso,
        Leaf::PsoDistribute => Group::Pso,
        Leaf::ZenStatus => Group::Zen,
        Leaf::ZenProbe => Group::Zen,
        Leaf::ZenCacheStats => Group::Zen,
        Leaf::ZenDetectBinary => Group::Zen,
        Leaf::ZenListEndpoints => Group::Zen,
        Leaf::ZenBaselineList => Group::Zen,
        Leaf::ZenBaselineLock => Group::Zen,
        Leaf::ZenBaselineUnlock => Group::Zen,
        Leaf::ZenRegister => Group::Zen,
        Leaf::ZenUnregister => Group::Zen,
        Leaf::ZenApplyConfig => Group::Zen,
        Leaf::ZenLuaPreview => Group::Zen,
        Leaf::ZenServiceInstall => Group::Zen,
        Leaf::ZenServiceUninstall => Group::Zen,
        Leaf::ZenServiceStart => Group::Zen,
        Leaf::ZenServiceStop => Group::Zen,
        Leaf::ZenServiceStatus => Group::Zen,
        Leaf::ZenUrlaclAdd => Group::Zen,
        Leaf::ZenUrlaclList => Group::Zen,
        Leaf::ZenUrlaclRemove => Group::Zen,
    }
}

/// The credential flags start at slot `k`: `--cred-alias`, `--user`,
/// `--pass`, `--pass-stdin`.
pub open spec fn cred_fits(c: CredentialArgs, st: ScanV, k: int) -> bool {
    &&& c.cred_alias.deep_view() == opt_text(st, k)
    &&& c.user.deep_view() == opt_text(st, k + 1)
    &&& c.pass.deep_view() == opt_text(st, k + 2)
    &&& c.pass_stdin == given(st, k + 3)
}

/// The target flags start at slot `k`: `--host`, then `--hosts`.
pub open spec fn host_fits(t: HostArgs, st: ScanV, k: int) -> bool {
    &&& t.host.deep_view() == opt_text(st, k)
    &&& t.hosts.deep_view() == st.slots[k + 1]
}

fn cred_at(st: &Scan, k: usize) -> (c: CredentialArgs)
    requires
        k + 3 < st.slots.len(),
    ensures
        cred_fits(c, st@, k as int),
{
    CredentialArgs {
        cred_alias: get_opt_text(st, k),
        user: get_opt_text(st, k + 1),
        pass: get_opt_text(st, k + 2),
        pass_stdin: get_given(st, k + 3),
    }
}

fn host_at(st: &Scan, k: usize) -> (t: HostArgs)
    requires
        k + 1 < st.slots.len(),
    ensures
        host_fits(t, st@, k as int),
{
    HostArgs { host: get_opt_text(st, k), hosts: get_opt_texts(st, k + 1) }
}

/// Whether `d` is the command value that leaf `l` yields from scan `st`.
/// Slots 0..3 hold the global options; a leaf's own options follow.
pub open spec fn command_fits(d: Domain, l: Leaf, st: ScanV) -> bool {
    match l {
        Leaf::SystemVersion => d matches Domain::System { action: SystemAction::Version },
        Leaf::SystemDbPath => d matches Domain::System { action: SystemAction::DbPath },
        Leaf::SystemPsDir => d matches Domain::System { action: SystemAction::PsDir },
        Leaf::SystemMigrateDb => d matches Domain::System { action: SystemAction::MigrateDb },
        Leaf::SystemEcho => {
            &&& d matches Domain::System { action: SystemAction::Echo { message: f_message } }
            &&& f_message@ == st.pos[0]
        },
        Leaf::SystemSchema => d matches Domain::System { action: SystemAction::Schema },
        Leaf::SystemExitCodes => d matches Domain::System { action: SystemAction::ExitCodes },
        Leaf::MachineList => d matches Domain::Machine { action: MachineAction::List },
        Leaf::MachineScan => {
            &&& d matches Domain::Machine { action: MachineAction::Scan { cidr: f_cidr, timeout_ms: f_timeout_ms } }
            &&& f_cidr@ == st.pos[0]
            &&& f_timeout_ms as int == uint_or(st, 3, 0xffff_ffff_ffff_ffff, 1000)
        },
        Leaf::MachineAdd => {
            &&& d matches Domain::Machine { action: MachineAction::Add { ip: f_ip, hostname: f_hostname } }
            &&& f_ip@ == text_or(st, 3, ""@)
            &&& f_hostname.deep_view() == opt_text(st, 4)
        },
        Leaf::MachineRefresh => {
            &&& d matches Domain::Machine { action: MachineAction::Refresh { id: f_id, cred: f_cred } }
            &&& f_id as int == pos_int(st, 0)
            &&& cred_fits(f_cred, st, 3)
        },
        Leaf::MachineDetail => {
            &&& d matches Domain::Machine { action: MachineAction::Detail { id: f_id } }
            &&& f_id as int == pos_int(st, 0)
        },
        Leaf::MachineDelete => {
            &&& d matches Domain::Machine { action: MachineAction::Delete { id: f_id, yes: f_yes, dry_run: f_dry_run } }
            &&& f_id as int == pos_int(st, 0)
            &&& f_yes == given(st, 3)
            &&& f_dry_run == given(st, 4)
        },
        Leaf::MachineRename => {
            &&& d matches Domain::Machine { action: MachineAction::Rename { id: f_id, hostname: f_hostname } }
            &&& f_id as int == pos_int(st, 0)
            &&& f_hostname@ == st.pos[1]
        },
        Leaf::MachineDeepScan => {
            &&& d matches Domain::Machine { action: MachineAction::DeepScan { machine_ids: f_machine_ids, all: f_all, cred: f_cred } }
            &&& f_machine_ids@.map_values(|x: i64| x as int) == ints(st, 3)
            &&& f_all == given(st, 4)
            &&& cred_fits(f_cred, st, 5)
        },
        Leaf::MachineAuthorize => {
            &&& d matches Domain::Machine { action: MachineAction::Authorize { machine_ids: f_machine_ids, all: f_all, save_as: f_save_as, cred: f_cred } }
            &&& f_machine_ids@.map_values(|x: i64| x as int) == ints(st, 3)
            &&& f_all == given(st, 4)
            &&& f_save_as.deep_view() == opt_text(st, 5)
            &&& cred_fits(f_cred, st, 6)
        },
        Leaf::WinrmProbe => {
            &&& d matches Domain::Winrm { action: WinrmAction::Probe { host: f_host } }
            &&& f_host@ == st.pos[0]
        },
        Leaf::WinrmBootstrapScript => {
            &&& d matches Domain::Winrm { action: WinrmAction::BootstrapScript { output: f_output } }
            &&& f_output.deep_view() == opt_text(st, 3)
        },
        Leaf::WinrmBootstrap => {
            &&& d matches Domain::Winrm { action: WinrmAction::Bootstrap { host: f_host, user: f_user, pass: f_pass, pass_stdin: f_pass_stdin, enable_local_admin: f_enable_local_admin } }
            &&& f_host@ == st.pos[0]
            &&& f_user@ == text_or(st, 3, ""@)
            &&& f_pass.deep_view() == opt_text(st, 4)
            &&& f_pass_stdin == given(st, 5)
            &&& f_enable_local_admin == given(st, 6)
        },
        Leaf::WinrmPreflight => {
            &&& d matches Domain::Winrm { action: WinrmAction::Preflight { host: f_host, user: f_user, pass: f_pass, pass_stdin: f_pass_stdin, probe: f_probe } }
            &&& f_host@ == st.pos[0]
            &&& f_user@ == text_or(st, 3, ""@)
            &&& f_pass.deep_view() == opt_text(st, 4)
            &&& f_pass_stdin == given(st, 5)
            &&& f_probe == given(st, 6)
        },
        Leaf::CredList => d matches Domain::Cred { action: CredAction::List },
        Leaf::CredSave => {
            &&& d matches Domain::Cred { action: CredAction::Save { alias: f_alias, user: f_user, pass: f_pass, pass_stdin: f_pass_stdin, kind: f_kind } }
            &&& f_alias@ == text_or(st, 3, ""@)
            &&& f_user@ == text_or(st, 4, ""@)
            &&& f_pass.deep_view() == opt_text(st, 5)
            &&& f_pass_stdin == given(st, 6)
            &&& f_kind@ == text_or(st, 7, "winrm"@)
        },
        Leaf::CredDelete => {
            &&& d matches Domain::Cred { action: CredAction::Delete { alias: f_alias, yes: f_yes, dry_run: f_dry_run } }
            &&& f_alias@ == st.pos[0]
            &&& f_yes == given(st, 3)
            &&& f_dry_run == given(st, 4)
        },
        Leaf::EnvGet => {
            &&& d matches Domain::Env { action: EnvAction::Get { host: f_host, name: f_name, cred: f_cred } }
            &&& f_host@ == text_or(st, 3, ""@)
            &&& f_name@ == text_or(st, 4, ""@)
            &&& cred_fits(f_cred, st, 5)
        },
        Leaf::EnvSet => {
            &&& d matches Domain::Env { action: EnvAction::SetValue { target: f_target, name: f_name, value: f_value, yes: f_yes, dry_run: f_dry_run, cred: f_cred } }
            &&& host_fits(f_target, st, 3)
            &&& f_name@ == text_or(st, 5, ""@)
            &&& f_value@ == text_or(st, 6, ""@)
            &&& f_yes == given(st, 7)
            &&& f_dry_run == given(st, 8)
            &&& cred_fits(f_cred, st, 9)
        },
        Leaf::IniRead => {
            &&& d matches Domain::Ini { action: IniAction::Read { host: f_host, file: f_file, section: f_section, cred: f_cred } }
            &&& f_host@ == text_or(st, 3, ""@)
            &&& f_file@ == text_or(st, 4, ""@)
            &&& f_section@ == text_or(st, 5, ""@)
            &&& cred_fits(f_cred, st, 6)
        },
        Leaf::IniSet => {
            &&& d matches Domain::Ini { action: IniAction::SetKey { target: f_target, file: f_file, section: f_section, key: f_key, value: f_value, yes: f_yes, dry_run: f_dry_run, cred: f_cred } }
            &&& host_fits(f_target, st, 3)
            &&& f_file@ == text_or(st, 5, ""@)
            &&& f_section@ == text_or(st, 6, ""@)
            &&& f_key@ == text_or(st, 7, ""@)
            &&& f_value@ == text_or(st, 8, ""@)
            &&& f_yes == given(st, 9)
            &&& f_dry_run == given(st, 10)
            &&& cred_fits(f_cred, st, 11)
        },
        Leaf::IniRemove => {
            &&& d matches Domain::Ini { action: IniAction::Remove { target: f_target, file: f_file, section: f_section, key: f_key, yes: f_yes, dry_run: f_dry_run, cred: f_cred } }
            &&& host_fits(f_target, st, 3)
            &&& f_file@ == text_or(st, 5, ""@)
            &&& f_section@ == text_or(st, 6, ""@)
            &&& f_key@ == text_or(st, 7, ""@)
            &&& f_yes == given(st, 8)
            &&& f_dry_run == given(st, 9)
            &&& cred_fits(f_cred, st, 10)
        },
        Leaf::IniScan => {
            &&& d matches Domain::Ini { action: IniAction::Scan { machine_ids: f_machine_ids, cred: f_cred } }
            &&& f_machine_ids@.map_values(|x: i64| x as int) == ints(st, 3)
            &&& cred_fits(f_cred, st, 4)
        },
        Leaf::IniRuns => {
            &&& d matches Domain::Ini { action: IniAction::Runs { limit: f_limit } }
            &&& f_limit as int == int_or(st, 3, 10)
        },
        Leaf::IniFindings => {
            &&& d matches Domain::Ini { action: IniAction::Findings { scan_run_id: f_scan_run_id, severity: f_severity } }
            &&& f_scan_run_id as int == pos_int(st, 0)
            &&& f_severity.deep_view() == opt_text(st, 3)
        },
        Leaf::IniGetFinding => {
            &&& d matches Domain::Ini { action: IniAction::GetFinding { finding_id: f_finding_id } }
            &&& f_finding_id as int == pos_int(st, 0)
        },
        Leaf::IniApply => {
            &&& d matches Domain::Ini { action: IniAction::Apply { finding_id: f_finding_id, yes: f_yes, dry_run: f_dry_run, cred: f_cred } }
            &&& f_finding_id as int == pos_int(st, 0)
            &&& f_yes == given(st, 3)
            &&& f_dry_run == given(st, 4)
            &&& cred_fits(f_cred, st, 5)
        },
        Leaf::IniSkip => {
            &&& d matches Domain::Ini { action: IniAction::Skip { finding_id: f_finding_id } }
            &&& f_finding_id as int == pos_int(st, 0)
        },
        Leaf::IniVerifyPsoPrecaching => {
            &&& d matches Domain::Ini { action: IniAction::VerifyPsoPrecaching { project_id: f_project_id } }
            &&& f_project_id as int == int_or(st, 3, 0)
        },
        Leaf::ShareList => d matches Domain::Share { action: ShareAction::List },
        Leaf::ShareForget => {
            &&& d matches Domain::Share { action: ShareAction::Forget { id: f_id, yes: f_yes, dry_run: f_dry_run } }
            &&& f_id as int == pos_int(st, 0)
            &&& f_yes == given(st, 3)
            &&& f_dry_run == given(st, 4)
        },
        Leaf::ShareCreate => {
            &&& d matches Domain::Share { action: ShareAction::Create { mode: f_mode, host: f_host, share: f_share, local_path: f_local_path, yes: f_yes, dry_run: f_dry_run, cred: f_cred } }
            &&& f_mode@ == text_or(st, 3, ""@)
            &&& f_host@ == text_or(st, 4, ""@)
            &&& f_share@ == text_or(st, 5, ""@)
            &&& f_local_path@ == text_or(st, 6, ""@)
            &&& f_yes == given(st, 7)
            &&& f_dry_run == given(st, 8)
            &&& cred_fits(f_cred, st, 9)
        },
        Leaf::ShareInjectSystemCred => {
            &&& d matches Domain::Share { action: ShareAction::InjectSystemCred { client_host: f_client_host, target_host: f_target_host, svc_user: f_svc_user, yes: f_yes, dry_run: f_dry_run, cred: f_cred } }
            &&& f_client_host@ == text_or(st, 3, ""@)
            &&& f_target_host@ == text_or(st, 4, ""@)
            &&& f_svc_user@ == text_or(st, 5, "ddc-svc"@)
            &&& f_yes == given(st, 6)
            &&& f_dry_run == given(st, 7)
            &&& cred_fits(f_cred, st, 8)
        },
        Leaf::ProjectList => d matches Domain::Project { action: ProjectAction::List },
        Leaf::ProjectLocations => {
            &&& d matches Domain::Project { action: ProjectAction::Locations { project_id: f_project_id } }
            &&& f_project_id as int == pos_int(st, 0)
        },
        Leaf::ProjectDiscover => {
            &&& d matches Domain::Project { action: ProjectAction::Discover { machine_id: f_machine_id, roots: f_roots, cred: f_cred } }
            &&& f_machine_id as int == int_or(st, 3, 0)
            &&& f_roots.deep_view() == slot_vals(st, 4)
            &&& cred_fits(f_cred, st, 5)
        },
        Leaf::ProjectCreateManual => {
            &&& d matches Domain::Project { action: ProjectAction::CreateManual { uproject_name: f_uproject_name, display_name: f_display_name } }
            &&& f_uproject_name@ == text_or(st, 3, ""@)
            &&& f_display_name.deep_view() == opt_text(st, 4)
        },
        Leaf::ProjectSetLocation => {
            &&& d matches Domain::Project { action: ProjectAction::SetLocation { project_id: f_project_id, machine_id: f_machine_id, abs_path: f_abs_path, uproject_path: f_uproject_path, manual_path: f_manual_path } }
            &&& f_project_id as int == int_or(st, 3, 0)
            &&& f_machine_id as int == int_or(st, 4, 0)
            &&& f_abs_path@ == text_or(st, 5, ""@)
            &&& f_uproject_path@ == text_or(st, 6, ""@)
            &&& f_manual_path == given(st, 7)
        },
        Leaf::ProjectDelete => {
            &&& d matches Domain::Project { action: ProjectAction::Delete { id: f_id, yes: f_yes, dry_run: f_dry_run } }
            &&& f_id as int == pos_int(st, 0)
            &&& f_yes == given(st, 3)
            &&& f_dry_run == given(st, 4)
        },
        Leaf::ProjectDeleteLocation => {
            &&& d matches Domain::Project { action: ProjectAction::DeleteLocation { id: f_id, yes: f_yes, dry_run: f_dry_run } }
            &&& f_id as int == pos_int(st, 0)
            &&& f_yes == given(st, 3)
            &&& f_dry_run == given(st, 4)
        },
        Leaf::HealthRun => {
            &&& d matches Domain::Health { action: HealthAction::Run { machine_ids: f_machine_ids, cidr: f_cidr, all: f_all, cred: f_cred } }
            &&& f_machine_ids@.map_values(|x: i64| x as int) == ints(st, 3)
            &&& f_cidr.deep_view() == opt_text(st, 4)
            &&& f_all == given(st, 5)
            &&& cred_fits(f_cred, st, 6)
        },
        Leaf::HealthRuns => {
            &&& d matches Domain::Health { action: HealthAction::Runs { limit: f_limit } }
            &&& f_limit as int == int_or(st, 3, 10)
        },
        Leaf::HealthResults => {
            &&& d matches Domain::Health { action: HealthAction::Results { scan_run_id: f_scan_run_id } }
            &&& f_scan_run_id as int == pos_int(st, 0)
        },
        Leaf::GpuMatrix => d matches Domain::Gpu { action: GpuAction::Matrix },
        Leaf::DdcGenerate => {
            &&& d matches Domain::Ddc { action: DdcAction::Generate { project_id: f_project_id, source_machine: f_source_machine, backend: f_backend, cred: f_cred } }
            &&& f_project_id as int == int_or(st, 3, 0)
            &&& f_source_machine as int == int_or(st, 4, 0)
            &&& f_backend == backend_or_auto(st, 5)
            &&& cred_fits(f_cred, st, 6)
        },
        Leaf::DdcVerify => {
            &&& d matches Domain::Ddc { action: DdcAction::Verify { project_id: f_project_id, source_machine: f_source_machine, backend: f_backend, cred: f_cred } }
            &&& f_project_id as int == int_or(st, 3, 0)
            &&& f_source_machine as int == int_or(st, 4, 0)
            &&& f_backend == backend_or_auto(st, 5)
            &&& cred_fits(f_cred, st, 6)
        },
        Leaf::DdcDistribute => {
            &&& d matches Domain::Ddc { action: DdcAction::Distribute { project_id: f_project_id, source_machine: f_source_machine, targets: f_targets, yes: f_yes, dry_run: f_dry_run, backend: f_backend, cred: f_cred } }
            &&& f_project_id as int == int_or(st, 3, 0)
            &&& f_source_machine as int == int_or(st, 4, 0)
            &&& f_targets@.map_values(|x: i64| x as int) == ints(st, 5)
            &&& f_yes == given(st, 6)
            &&& f_dry_run == given(st, 7)
            &&& f_backend == backend_or_auto(st, 8)
            &&& cred_fits(f_cred, st, 9)
        },
        Leaf::PsoVerify => {
            &&& d matches Domain::Pso { action: PsoAction::Verify { project_id: f_project_id } }
            &&& f_project_id as int == int_or(st, 3, 0)
        },
        Leaf::PsoCollect => {
            &&& d matches Domain::Pso { action: PsoAction::Collect { project_id: f_project_id, source_machine: f_source_machine, resolution: f_resolution, windowed: f_windowed, max_minutes: f_max_minutes, cred: f_cred } }
            &&& f_project_id as int == int_or(st, 3, 0)
            &&& f_source_machine as int == int_or(st, 4, 0)
            &&& f_resolution@ == text_or(st, 5, "1920x1080"@)
            &&& f_windowed
            &&& f_max_minutes as int == uint_or(st, 7, 0xffff_ffff, 10)
            &&& cred_fits(f_cred, st, 8)
        },
        Leaf::PsoList => {
            &&& d matches Domain::Pso { action: PsoAction::List { project_id: f_project_id } }
            &&& f_project_id as int == int_or(st, 3, 0)
        },
        Leaf::PsoDistribute => {
            &&& d matches Domain::Pso { action: PsoAction::Distribute { project_id: f_project_id, source_machine: f_source_machine, targets: f_targets, yes: f_yes, dry_run: f_dry_run, cred: f_cred } }
            &&& f_project_id as int == int_or(st, 3, 0)
            &&& f_source_machine as int == int_or(st, 4, 0)
            &&& f_targets@.map_values(|x: i64| x as int) == ints(st, 5)
            &&& f_yes == given(st, 6)
            &&& f_dry_run == given(st, 7)
            &&& cred_fits(f_cred, st, 8)
        },
        Leaf::ZenStatus => {
            &&& d matches Domain::Zen { action: ZenAction::Status { machine: f_machine, all: f_all } }
            &&& opt_int_view(f_machine) == opt_int(st, 3)
            &&& f_all == given(st, 4)
        },
        Leaf::ZenProbe => {
            &&& d matches Domain::Zen { action: ZenAction::Probe { machine: f_machine, all: f_all, timeout: f_timeout, cred: f_cred } }
            &&& opt_int_view(f_machine) == opt_int(st, 3)
            &&& f_all == given(st, 4)
            &&& f_timeout as int == uint_or(st, 5, 0xffff_ffff_ffff_ffff, 5)
            &&& cred_fits(f_cred, st, 6)
        },
        Leaf::ZenCacheStats => {
            &&& d matches Domain::Zen { action: ZenAction::CacheStats { endpoint_id: f_endpoint_id, all: f_all, timeout: f_timeout } }
            &&& opt_int_view(f_endpoint_id) == opt_int(st, 3)
            &&& f_all == given(st, 4)
            &&& f_timeout as int == uint_or(st, 5, 0xffff_ffff_ffff_ffff, 5)
        },
        Leaf::ZenDetectBinary => {
            &&& d matches Domain::Zen { action: ZenAction::DetectBinary { machine: f_machine, all: f_all, cred: f_cred } }
            &&& opt_int_view(f_machine) == opt_int(st, 3)
            &&& f_all == given(st, 4)
            &&& cred_fits(f_cred, st, 5)
        },
        Leaf::ZenListEndpoints => {
            &&& d matches Domain::Zen { action: ZenAction::ListEndpoints { machine: f_machine } }
            &&& opt_int_view(f_machine) == opt_int(st, 3)
        },
        Leaf::ZenBaselineList => {
            &&& d matches Domain::Zen { action: ZenAction::Baseline { action: ZenBaselineAction::List { zen_build_version: f_zen_build_version, kind: f_kind } } }
            &&& f_zen_build_version.deep_view() == opt_text(st, 3)
            &&& f_kind.deep_view() == opt_text(st, 4)
        },
        Leaf::ZenBaselineLock => {
            &&& d matches Domain::Zen { action: ZenAction::Baseline { action: ZenBaselineAction::Lock { zen_build_version: f_zen_build_version, kind: f_kind, locked_by: f_locked_by, yes: f_yes, dry_run: f_dry_run } } }
            &&& f_zen_build_version@ == text_or(st, 3, ""@)
            &&& f_kind@ == text_or(st, 4, ""@)
            &&& f_locked_by@ == text_or(st, 5, ""@)
            &&& f_yes == given(st, 6)
            &&& f_dry_run == given(st, 7)
        },
        Leaf::ZenBaselineUnlock => {
            &&& d matches Domain::Zen { action: ZenAction::Baseline { action: ZenBaselineAction::Unlock { zen_build_version: f_zen_build_version, kind: f_kind, yes: f_yes, dry_run: f_dry_run } } }
            &&& f_zen_build_version@ == text_or(st, 3, ""@)
            &&& f_kind@ == text_or(st, 4, ""@)
            &&& f_yes == given(st, 5)
            &&& f_dry_run == given(st, 6)
        },
        Leaf::ZenRegister => {
            &&& d matches Domain::Zen { action: ZenAction::Register { machine: f_machine, declared_port: f_declared_port, scheme: f_scheme, role: f_role, upstream_endpoint_id: f_upstream_endpoint_id, data_dir: f_data_dir, httpserverclass: f_httpserverclass, lifecycle: f_lifecycle } }
            &&& f_machine as int == int_or(st, 3, 0)
            &&& f_declared_port as int == int_or(st, 4, 8558)
            &&& f_scheme@ == text_or(st, 5, "http"@)
            &&& f_role@ == text_or(st, 6, ""@)
            &&& opt_int_view(f_upstream_endpoint_id) == opt_int(st, 7)
            &&& f_data_dir@ == text_or(st, 8, "D:\\UECM\\ZenData"@)
            &&& f_httpserverclass@ == text_or(st, 9, "asio"@)
            &&& f_lifecycle.deep_view() == opt_text(st, 10)
        },
        Leaf::ZenUnregister => {
            &&& d matches Domain::Zen { action: ZenAction::Unregister { endpoint_id: f_endpoint_id, yes: f_yes, dry_run: f_dry_run } }
            &&& f_endpoint_id as int == int_or(st, 3, 0)
            &&& f_yes == given(st, 4)
            &&& f_dry_run == given(st, 5)
        },
        Leaf::ZenApplyConfig => {
            &&& d matches Domain::Zen { action: ZenAction::ApplyConfig { endpoint_id: f_endpoint_id, dest_path: f_dest_path, yes: f_yes, dry_run: f_dry_run, cred: f_cred } }
            &&& f_endpoint_id as int == int_or(st, 3, 0)
            &&& f_dest_path@ == text_or(st, 4, ""@)
            &&& f_yes == given(st, 5)
            &&& f_dry_run == given(st, 6)
            &&& cred_fits(f_cred, st, 7)
        },
        Leaf::ZenLuaPreview => {
            &&& d matches Domain::Zen { action: ZenAction::LuaPreview { endpoint_id: f_endpoint_id } }
            &&& f_endpoint_id as int == int_or(st, 3, 0)
        },
        Leaf::ZenServiceInstall => {
            &&& d matches Domain::Zen { action: ZenAction::Service { action: ZenServiceAction::Install { endpoint_id: f_endpoint_id, yes: f_yes, dry_run: f_dry_run, cred: f_cred } } }
            &&& f_endpoint_id as int == int_or(st, 3, 0)
            &&& f_yes == given(st, 4)
            &&& f_dry_run == given(st, 5)
            &&& cred_fits(f_cred, st, 6)
        },
        Leaf::ZenServiceUninstall => {
            &&& d matches Domain::Zen { action: ZenAction::Service { action: ZenServiceAction::Uninstall { endpoint_id: f_endpoint_id, yes: f_yes, dry_run: f_dry_run, cred: f_cred } } }
            &&& f_endpoint_id as int == int_or(st, 3, 0)
            &&& f_yes == given(st, 4)
            &&& f_dry_run == given(st, 5)
            &&& cred_fits(f_cred, st, 6)
        },
        Leaf::ZenServiceStart => {
            &&& d matches Domain::Zen { action: ZenAction::Service { action: ZenServiceAction::Start { endpoint_id: f_endpoint_id, cred: f_cred } } }
            &&& f_endpoint_id as int == int_or(st, 3, 0)
            &&& cred_fits(f_cred, st, 4)
        },
        Leaf::ZenServiceStop => {
            &&& d matches Domain::Zen { action: ZenAction::Service { action: ZenServiceAction::Stop { endpoint_id: f_endpoint_id, yes: f_yes, dry_run: f_dry_run, cred: f_cred } } }
            &&& f_endpoint_id as int == int_or(st, 3, 0)
            &&& f_yes == given(st, 4)
            &&& f_dry_run == given(st, 5)
            &&& cred_fits(f_cred, st, 6)
        },
        Leaf::ZenServiceStatus => {
            &&& d matches Domain::Zen { action: ZenAction::Service { action: ZenServiceAction::Status { endpoint_id: f_endpoint_id, cred: f_cred } } }
            &&& f_endpoint_id as int == int_or(st, 3, 0)
            &&& cred_fits(f_cred, st, 4)
        },
        Leaf::ZenUrlaclAdd => {
            &&& d matches Domain::Zen { action: ZenAction::Urlacl { action: ZenUrlaclAction::Add { endpoint_id: f_endpoint_id, principal: f_principal, yes: f_yes, dry_run: f_dry_run, cred: f_cred } } }
            &&& f_endpoint_id as int == int_or(st, 3, 0)
            &&& f_principal@ == text_or(st, 4, ""@)
            &&& f_yes == given(st, 5)
            &&& f_dry_run == given(st, 6)
            &&& cred_fits(f_cred, st, 7)
        },
        Leaf::ZenUrlaclList => {
            &&& d matches Domain::Zen { action: ZenAction::Urlacl { action: ZenUrlaclAction::List { machine: f_machine, port_filter: f_port_filter, cred: f_cred } } }
            &&& f_machine as int == int_or(st, 3, 0)
            &&& f_port_filter.deep_view() == opt_text(st, 4)
            &&& cred_fits(f_cred, st, 5)
        },
        Leaf::ZenUrlaclRemove => {
            &&& d matches Domain::Zen { action: ZenAction::Urlacl { action: ZenUrlaclAction::Remove { endpoint_id: f_endpoint_id, yes: f_yes, dry_run: f_dry_run, cred: f_cred } } }
            &&& f_endpoint_id as int == int_or(st, 3, 0)
            &&& f_yes == given(st, 4)
            &&& f_dry_run == given(st, 5)
            &&& cred_fits(f_cred, st, 6)
        },
    }
}

fn build_system(l: Leaf, st: &Scan) -> (d: Domain)
    requires
        leaf_domain(l) == Group::System,
        st.slots@.len() == 3 + leaf_spec(l).opts.len(),
        st.pos@.len() >= leaf_spec(l).pos.len(),
    ensures
        command_fits(d, l, st@),
{
    match l {
        Leaf::SystemVersion => Domain::System { action: SystemAction::Version },
        Leaf::SystemDbPath => Domain::System { action: SystemAction::DbPath },
        Leaf::SystemPsDir => Domain::System { action: SystemAction::PsDir },
        Leaf::SystemMigrateDb => Domain::System { action: SystemAction::MigrateDb },
        Leaf::SystemEcho => Domain::System { action: SystemAction::Echo {
                    message: get_pos_text(st, 0),
                } },
        Leaf::SystemSchema => Domain::System { action: SystemAction::Schema },
        _ => Domain::System { action: SystemAction::ExitCodes },
    }
}

fn build_machine(l: Leaf, st: &Scan) -> (d: Domain)
    requires
        leaf_domain(l) == Group::Machine,
        st.slots@.len() == 3 + leaf_spec(l).opts.len(),
        st.pos@.len() >= leaf_spec(l).pos.len(),
    ensures
        command_fits(d, l, st@),
{
    match l {
        Leaf::MachineList => Domain::Machine { action: MachineAction::List },
        Leaf::MachineScan => Domain::Machine { action: MachineAction::Scan {
                    cidr: get_pos_text(st, 0),
                    timeout_ms: get_uint_or(st, 3, 0xffff_ffff_ffff_ffff, 1000),
                } },
        Leaf::MachineAdd => Domain::Machine { action: MachineAction::Add {
                    ip: get_text_or(st, 3, ""),
                    hostname: get_opt_text(st, 4),
                } },
        Leaf::MachineRefresh => Domain::Machine { action: MachineAction::Refresh {
                    id: get_pos_int(st, 0),
                    cred: cred_at(st, 3),
                } },
        Leaf::MachineDetail => Domain::Machine { action: MachineAction::Detail {
                    id: get_pos_int(st, 0),
                } },
        Leaf::MachineDelete => Domain::Machine { action: MachineAction::Delete {
                    id: get_pos_int(st, 0),
                    yes: get_given(st, 3),
                    dry_run: get_given(st, 4),
                } },
        Leaf::MachineRename => Domain::Machine { action: MachineAction::Rename {
                    id: get_pos_int(st, 0),
                    hostname: get_pos_text(st, 1),
                } },
        Leaf::MachineDeepScan => Domain::Machine { action: MachineAction::DeepScan {
                    machine_ids: get_ints(st, 3),
                    all: get_given(st, 4),
                    cred: cred_at(st, 5),
                } },
        _ => Domain::Machine { action: MachineAction::Authorize {
                    machine_ids: get_ints(st, 3),
                    all: get_given(st, 4),
                    save_as: get_opt_text(st, 5),
                    cred: cred_at(st, 6),
                } },
    }
}

fn build_winrm(l: Leaf, st: &Scan) -> (d: Domain)
    requires
        leaf_domain(l) == Group::Winrm,
        st.slots@.len() == 3 + leaf_spec(l).opts.len(),
        st.pos@.len() >= leaf_spec(l).pos.len(),
    ensures
        command_fits(d, l, st@),
{
    match l {
        Leaf::WinrmProbe => Domain::Winrm { action: WinrmAction::Probe {
                    host: get_pos_text(st, 0),
                } },
        Leaf::WinrmBootstrapScript => Domain::Winrm { action: WinrmAction::BootstrapScript {
                    output: get_opt_text(st, 3),
                } },
        Leaf::WinrmBootstrap => Domain::Winrm { action: WinrmAction::Bootstrap {
                    host: get_pos_text(st, 0),
                    user: get_text_or(st, 3, ""),
                    pass: get_opt_text(st, 4),
                    pass_stdin: get_given(st, 5),
                    enable_local_admin: get_given(st, 6),
                } },
        _ => Domain::Winrm { action: WinrmAction::Preflight {
                    host: get_pos_text(st, 0),
                    user: get_text_or(st, 3, ""),
                    pass: get_opt_text(st, 4),
                    pass_stdin: get_given(st, 5),
                    probe: get_given(st, 6),
                } },
    }
}

fn build_cred(l: Leaf, st: &Scan) -> (d: Domain)
    requires
        leaf_domain(l) == Group::Cred,
        st.slots@.len() == 3 + leaf_spec(l).opts.len(),
        st.pos@.len() >= leaf_spec(l).pos.len(),
    ensures
        command_fits(d, l, st@),
{
    match l {
        Leaf::CredList => Domain::Cred { action: CredAction::List },
        Leaf::CredSave => Domain::Cred { action: CredAction::Save {
                    alias: get_text_or(st, 3, ""),
                    user: get_text_or(st, 4, ""),
                    pass: get_opt_text(st, 5),
                    pass_stdin: get_given(st, 6),
                    kind: get_text_or(st, 7, "winrm"),
                } },
        _ => Domain::Cred { action: CredAction::Delete {
                    alias: get_pos_text(st, 0),
                    yes: get_given(st, 3),
                    dry_run: get_given(st, 4),
                } },
    }
}

fn build_env(l: Leaf, st: &Scan) -> (d: Domain)
    requires
        leaf_domain(l) == Group::Env,
        st.slots@.len() == 3 + leaf_spec(l).opts.len(),
        st.pos@.len() >= leaf_spec(l).pos.len(),
    ensures
        command_fits(d, l, st@),
{
    match l {
        Leaf::EnvGet => Domain::Env { action: EnvAction::Get {
                    host: get_text_or(st, 3, ""),
                    name: get_text_or(st, 4, ""),
                    cred: cred_at(st, 5),
                } },
        _ => Domain::Env { action: EnvAction::SetValue {
                    target: host_at(st, 3),
                    name: get_text_or(st, 5, ""),
                    value: get_text_or(st, 6, ""),
                    yes: get_given(st, 7),
                    dry_run: get_given(st, 8),
                    cred: cred_at(st, 9),
                } },
    }
}

fn build_ini(l: Leaf, st: &Scan) -> (d: Domain)
    requires
        leaf_domain(l) == Group::Ini,
        st.slots@.len() == 3 + leaf_spec(l).opts.len(),
        st.pos@.len() >= leaf_spec(l).pos.len(),
    ensures
        command_fits(d, l, st@),
{
    match l {
        Leaf::IniRead => Domain::Ini { action: IniAction::Read {
                    host: get_text_or(st, 3, ""),
                    file: get_text_or(st, 4, ""),
                    section: get_text_or(st, 5, ""),
                    cred: cred_at(st, 6),
                } },
        Leaf::IniSet => Domain::Ini { action: IniAction::SetKey {
                    target: host_at(st, 3),
                    file: get_text_or(st, 5, ""),
                    section: get_text_or(st, 6, ""),
                    key: get_text_or(st, 7, ""),
                    value: get_text_or(st, 8, ""),
                    yes: get_given(st, 9),
                    dry_run: get_given(st, 10),
                    cred: cred_at(st, 11),
                } },
        Leaf::IniRemove => Domain::Ini { action: IniAction::Remove {
                    target: host_at(st, 3),
                    file: get_text_or(st, 5, ""),
                    section: get_text_or(st, 6, ""),
                    key: get_text_or(st, 7, ""),
                    yes: get_given(st, 8),
                    dry_run: get_given(st, 9),
                    cred: cred_at(st, 10),
                } },
        Leaf::IniScan => Domain::Ini { action: IniAction::Scan {
                    machine_ids: get_ints(st, 3),
                    cred: cred_at(st, 4),
                } },
        Leaf::IniRuns => Domain::Ini { action: IniAction::Runs {
                    limit: get_int_or(st, 3, 10),
                } },
        Leaf::IniFindings => Domain::Ini { action: IniAction::Findings {
                    scan_run_id: get_pos_int(st, 0),
                    severity: get_opt_text(st, 3),
                } },
        Leaf::IniGetFinding => Domain::Ini { action: IniAction::GetFinding {
                    finding_id: get_pos_int(st, 0),
                } },
        Leaf::IniApply => Domain::Ini { action: IniAction::Apply {
                    finding_id: get_pos_int(st, 0),
                    yes: get_given(st, 3),
                    dry_run: get_given(st, 4),
                    cred: cred_at(st, 5),
                } },
        Leaf::IniSkip => Domain::Ini { action: IniAction::Skip {
                    finding_id: get_pos_int(st, 0),
                } },
        _ => Domain::Ini { action: IniAction::VerifyPsoPrecaching {
                    project_id: get_int_or(st, 3, 0),
                } },
    }
}

fn build_share(l: Leaf, st: &Scan) -> (d: Domain)
    requires
        leaf_domain(l) == Group::Share,
        st.slots@.len() == 3 + leaf_spec(l).opts.len(),
        st.pos@.len() >= leaf_spec(l).pos.len(),
    ensures
        command_fits(d, l, st@),
{
    match l {
        Leaf::ShareList => Domain::Share { action: ShareAction::List },
        Leaf::ShareForget => Domain::Share { action: ShareAction::Forget {
                    id: get_pos_int(st, 0),
                    yes: get_given(st, 3),
                    dry_run: get_given(st, 4),
                } },
        Leaf::ShareCreate => Domain::Share { action: ShareAction::Create {
                    mode: get_text_or(st, 3, ""),
                    host: get_text_or(st, 4, ""),
                    share: get_text_or(st, 5, ""),
                    local_path: get_text_or(st, 6, ""),
                    yes: get_given(st, 7),
                    dry_run: get_given(st, 8),
                    cred: cred_at(st, 9),
                } },
        _ => Domain::Share { action: ShareAction::InjectSystemCred {
                    client_host: get_text_or(st, 3, ""),
                    target_host: get_text_or(st, 4, ""),
                    svc_user: get_text_or(st, 5, "ddc-svc"),
                    yes: get_given(st, 6),
                    dry_run: get_given(st, 7),
                    cred: cred_at(st, 8),
                } },
    }
}

fn build_project(l: Leaf, st: &Scan) -> (d: Domain)
    requires
        leaf_domain(l) == Group::Project,
        st.slots@.len() == 3 + leaf_spec(l).opts.len(),
        st.pos@.len() >= leaf_spec(l).pos.len(),
    ensures
        command_fits(d, l, st@),
{
    match l {
        Leaf::ProjectList => Domain::Project { action: ProjectAction::List },
        Leaf::ProjectLocations => Domain::Project { action: ProjectAction::Locations {
                    project_id: get_pos_int(st, 0),
                } },
        Leaf::ProjectDiscover => Domain::Project { action: ProjectAction::Discover {
                    machine_id: get_int_or(st, 3, 0),
                    roots: get_texts(st, 4),
                    cred: cred_at(st, 5),
                } },
        Leaf::ProjectCreateManual => Domain::Project { action: ProjectAction::CreateManual {
                    uproject_name: get_text_or(st, 3, ""),
                    display_name: get_opt_text(st, 4),
                } },
        Leaf::ProjectSetLocation => Domain::Project { action: ProjectAction::SetLocation {
                    project_id: get_int_or(st, 3, 0),
                    machine_id: get_int_or(st, 4, 0),
                    abs_path: get_text_or(st, 5, ""),
                    uproject_path: get_text_or(st, 6, ""),
                    manual_path: get_given(st, 7),
                } },
        Leaf::ProjectDelete => Domain::Project { action: ProjectAction::Delete {
                    id: get_pos_int(st, 0),
                    yes: get_given(st, 3),
                    dry_run: get_given(st, 4),
                } },
        _ => Domain::Project { action: ProjectAction::DeleteLocation {
                    id: get_pos_int(st, 0),
                    yes: get_given(st, 3),
                    dry_run: get_given(st, 4),
                } },
    }
}

fn build_health(l: Leaf, st: &Scan) -> (d: Domain)
    requires
        leaf_domain(l) == Group::Health,
        st.slots@.len() == 3 + leaf_spec(l).opts.len(),
        st.pos@.len() >= leaf_spec(l).pos.len(),
    ensures
        command_fits(d, l, st@),
{
    match l {
        Leaf::HealthRun => Domain::Health { action: HealthAction::Run {
                    machine_ids: get_ints(st, 3),
                    cidr: get_opt_text(st, 4),
                    all: get_given(st, 5),
                    cred: cred_at(st, 6),
                } },
        Leaf::HealthRuns => Domain::Health { action: HealthAction::Runs {
                    limit: get_int_or(st, 3, 10),
                } },
        _ => Domain::Health { action: HealthAction::Results {
                    scan_run_id: get_pos_int(st, 0),
                } },
    }
}

fn build_gpu(l: Leaf, st: &Scan) -> (d: Domain)
    requires
        leaf_domain(l) == Group::Gpu,
        st.slots@.len() == 3 + leaf_spec(l).opts.len(),
        st.pos@.len() >= leaf_spec(l).pos.len(),
    ensures
        command_fits(d, l, st@),
{
    match l {
        _ => Domain::Gpu { action: GpuAction::Matrix },
    }
}

fn build_ddc(l: Leaf, st: &Scan) -> (d: Domain)
    requires
        leaf_domain(l) == Group::Ddc,
        st.slots@.len() == 3 + leaf_spec(l).opts.len(),
        st.pos@.len() >= leaf_spec(l).pos.len(),
    ensures
        command_fits(d, l, st@),
{
    match l {
        Leaf::DdcGenerate => Domain::Ddc { action: DdcAction::Generate {
                    project_id: get_int_or(st, 3, 0),
                    source_machine: get_int_or(st, 4, 0),
                    backend: get_backend(st, 5),
                    cred: cred_at(st, 6),
                } },
        Leaf::DdcVerify => Domain::Ddc { action: DdcAction::Verify {
                    project_id: get_int_or(st, 3, 0),
                    source_machine: get_int_or(st, 4, 0),
                    backend: get_backend(st, 5),
                    cred: cred_at(st, 6),
                } },
        _ => Domain::Ddc { action: DdcAction::Distribute {
                    project_id: get_int_or(st, 3, 0),
                    source_machine: get_int_or(st, 4, 0),
                    targets: get_ints(st, 5),
                    yes: get_given(st, 6),
                    dry_run: get_given(st, 7),
                    backend: get_backend(st, 8),
                    cred: cred_at(st, 9),
                } },
    }
}

fn build_pso(l: Leaf, st: &Scan) -> (d: Domain)
    requires
        leaf_domain(l) == Group::Pso,
        st.slots@.len() == 3 + leaf_spec(l).opts.len(),
        st.pos@.len() >= leaf_spec(l).pos.len(),
    ensures
        command_fits(d, l, st@),
{
    match l {
        Leaf::PsoVerify => Domain::Pso { action: PsoAction::Verify {
                    project_id: get_int_or(st, 3, 0),
                } },
        Leaf::PsoCollect => Domain::Pso { action: PsoAction::Collect {
                    project_id: get_int_or(st, 3, 0),
                    source_machine: get_int_or(st, 4, 0),
                    resolution: get_text_or(st, 5, "1920x1080"),
                    windowed: true,
                    max_minutes: get_uint_or(st, 7, 0xffff_ffff, 10) as u32,
                    cred: cred_at(st, 8),
                } },
        Leaf::PsoList => Domain::Pso { action: PsoAction::List {
                    project_id: get_int_or(st, 3, 0),
                } },
        _ => Domain::Pso { action: PsoAction::Distribute {
                    project_id: get_int_or(st, 3, 0),
                    source_machine: get_int_or(st, 4, 0),
                    targets: get_ints(st, 5),
                    yes: get_given(st, 6),
                    dry_run: get_given(st, 7),
                    cred: cred_at(st, 8),
                } },
    }
}

fn build_zen(l: Leaf, st: &Scan) -> (d: Domain)
    requires
        leaf_domain(l) == Group::Zen,
        st.slots@.len() == 3 + leaf_spec(l).opts.len(),
        st.pos@.len() >= leaf_spec(l).pos.len(),
    ensures
        command_fits(d, l, st@),
{
    match l {
        Leaf::ZenStatus => Domain::Zen { action: ZenAction::Status {
                    machine: get_opt_int(st, 3),
                    all: get_given(st, 4),
                } },
        Leaf::ZenProbe => Domain::Zen { action: ZenAction::Probe {
                    machine: get_opt_int(st, 3),
                    all: get_given(st, 4),
                    timeout: get_uint_or(st, 5, 0xffff_ffff_ffff_ffff, 5),
                    cred: cred_at(st, 6),
                } },
        Leaf::ZenCacheStats => Domain::Zen { action: ZenAction::CacheStats {
                    endpoint_id: get_opt_int(st, 3),
                    all: get_given(st, 4),
                    timeout: get_uint_or(st, 5, 0xffff_ffff_ffff_ffff, 5),
                } },
        Leaf::ZenDetectBinary => Domain::Zen { action: ZenAction::DetectBinary {
                    machine: get_opt_int(st, 3),
                    all: get_given(st, 4),
                    cred: cred_at(st, 5),
                } },
        Leaf::ZenListEndpoints => Domain::Zen { action: ZenAction::ListEndpoints {
                    machine: get_opt_int(st, 3),
                } },
        Leaf::ZenBaselineList => Domain::Zen { action: ZenAction::Baseline { action: ZenBaselineAction::List {
                    zen_build_version: get_opt_text(st, 3),
                    kind: get_opt_text(st, 4),
                } } },
        Leaf::ZenBaselineLock => Domain::Zen { action: ZenAction::Baseline { action: ZenBaselineAction::Lock {
                    zen_build_version: get_text_or(st, 3, ""),
                    kind: get_text_or(st, 4, ""),
                    locked_by: get_text_or(st, 5, ""),
                    yes: get_given(st, 6),
                    dry_run: get_given(st, 7),
                } } },
        Leaf::ZenBaselineUnlock => Domain::Zen { action: ZenAction::Baseline { action: ZenBaselineAction::Unlock {
                    zen_build_version: get_text_or(st, 3, ""),
                    kind: get_text_or(st, 4, ""),
                    yes: get_given(st, 5),
                    dry_run: get_given(st, 6),
                } } },
        Leaf::ZenRegister => Domain::Zen { action: ZenAction::Register {
                    machine: get_int_or(st, 3, 0),
                    declared_port: get_int_or(st, 4, 8558),
                    scheme: get_text_or(st, 5, "http"),
                    role: get_text_or(st, 6, ""),
                    upstream_endpoint_id: get_opt_int(st, 7),
                    data_dir: get_text_or(st, 8, "D:\\UECM\\ZenData"),
                    httpserverclass: get_text_or(st, 9, "asio"),
                    lifecycle: get_opt_text(st, 10),
                } },
        Leaf::ZenUnregister => Domain::Zen { action: ZenAction::Unregister {
                    endpoint_id: get_int_or(st, 3, 0),
                    yes: get_given(st, 4),
                    dry_run: get_given(st, 5),
                } },
        Leaf::ZenApplyConfig => Domain::Zen { action: ZenAction::ApplyConfig {
                    endpoint_id: get_int_or(st, 3, 0),
                    dest_path: get_text_or(st, 4, ""),
                    yes: get_given(st, 5),
                    dry_run: get_given(st, 6),
                    cred: cred_at(st, 7),
                } },
        Leaf::ZenLuaPreview => Domain::Zen { action: ZenAction::LuaPreview {
                    endpoint_id: get_int_or(st, 3, 0),
                } },
        Leaf::ZenServiceInstall => Domain::Zen { action: ZenAction::Service { action: ZenServiceAction::Install {
                    endpoint_id: get_int_or(st, 3, 0),
                    yes: get_given(st, 4),
                    dry_run: get_given(st, 5),
                    cred: cred_at(st, 6),
                } } },
        Leaf::ZenServiceUninstall => Domain::Zen { action: ZenAction::Service { action: ZenServiceAction::Uninstall {
                    endpoint_id: get_int_or(st, 3, 0),
                    yes: get_given(st, 4),
                    dry_run: get_given(st, 5),
                    cred: cred_at(st, 6),
                } } },
        Leaf::ZenServiceStart => Domain::Zen { action: ZenAction::Service { action: ZenServiceAction::Start {
                    endpoint_id: get_int_or(st, 3, 0),
                    cred: cred_at(st, 4),
                } } },
        Leaf::ZenServiceStop => Domain::Zen { action: ZenAction::Service { action: ZenServiceAction::Stop {
                    endpoint_id: get_int_or(st, 3, 0),
                    yes: get_given(st, 4),
                    dry_run: get_given(st, 5),
                    cred: cred_at(st, 6),
                } } },
        Leaf::ZenServiceStatus => Domain::Zen { action: ZenAction::Service { action: ZenServiceAction::Status {
                    endpoint_id: get_int_or(st, 3, 0),
                    cred: cred_at(st, 4),
                } } },
        Leaf::ZenUrlaclAdd => Domain::Zen { action: ZenAction::Urlacl { action: ZenUrlaclAction::Add {
                    endpoint_id: get_int_or(st, 3, 0),
                    principal: get_text_or(st, 4, ""),
                    yes: get_given(st, 5),
                    dry_run: get_given(st, 6),
                    cred: cred_at(st, 7),
                } } },
        Leaf::ZenUrlaclList => Domain::Zen { action: ZenAction::Urlacl { action: ZenUrlaclAction::List {
                    machine: get_int_or(st, 3, 0),
                    port_filter: get_opt_text(st, 4),
                    cred: cred_at(st, 5),
                } } },
        _ => Domain::Zen { action: ZenAction::Urlacl { action: ZenUrlaclAction::Remove {
                    endpoint_id: get_int_or(st, 3, 0),
                    yes: get_given(st, 4),
                    dry_run: get_given(st, 5),
                    cred: cred_at(st, 6),
                } } },
    }
}

fn build_command(l: Leaf, st: &Scan) -> (d: Domain)
    requires
        st.slots@.len() == 3 + leaf_spec(l).opts.len(),
        st.pos@.len() >= leaf_spec(l).pos.len(),
    ensures
        command_fits(d, l, st@),
{
    match l {
        Leaf::SystemVersion | Leaf::SystemDbPath | Leaf::SystemPsDir | Leaf::SystemMigrateDb | Leaf::SystemEcho | Leaf::SystemSchema | Leaf::SystemExitCodes => build_system(l, st),
        Leaf::MachineList | Leaf::MachineScan | Leaf::MachineAdd | Leaf::MachineRefresh | Leaf::MachineDetail | Leaf::MachineDelete | Leaf::MachineRename | Leaf::MachineDeepScan | Leaf::MachineAuthorize => build_machine(l, st),
        Leaf::WinrmProbe | Leaf::WinrmBootstrapScript | Leaf::WinrmBootstrap | Leaf::WinrmPreflight => build_winrm(l, st),
        Leaf::CredList | Leaf::CredSave | Leaf::CredDelete => build_cred(l, st),
        Leaf::EnvGet | Leaf::EnvSet => build_env(l, st),
        Leaf::IniRead | Leaf::IniSet | Leaf::IniRemove | Leaf::IniScan | Leaf::IniRuns | Leaf::IniFindings | Leaf::IniGetFinding | Leaf::IniApply | Leaf::IniSkip | Leaf::IniVerifyPsoPrecaching => build_ini(l, st),
        Leaf::ShareList | Leaf::ShareForget | Leaf::ShareCreate | Leaf::ShareInjectSystemCred => build_share(l, st),
        Leaf::ProjectList | Leaf::ProjectLocations | Leaf::ProjectDiscover | Leaf::ProjectCreateManual | Leaf::ProjectSetLocation | Leaf::ProjectDelete | Leaf::ProjectDeleteLocation => build_project(l, st),
        Leaf::HealthRun | Leaf::HealthRuns | Leaf::HealthResults => build_health(l, st),
        Leaf::GpuMatrix => build_gpu(l, st),
        Leaf::DdcGenerate | Leaf::DdcVerify | Leaf::DdcDistribute => build_ddc(l, st),
        Leaf::PsoVerify | Leaf::PsoCollect | Leaf::PsoList | Leaf::PsoDistribute => build_pso(l, st),
        Leaf::ZenStatus | Leaf::ZenProbe | Leaf::ZenCacheStats | Leaf::ZenDetectBinary | Leaf::ZenListEndpoints | Leaf::ZenBaselineList | Leaf::ZenBaselineLock | Leaf::ZenBaselineUnlock | Leaf::ZenRegister | Leaf::ZenUnregister | Leaf::ZenApplyConfig | Leaf::ZenLuaPreview | Leaf::ZenServiceInstall | Leaf::ZenServiceUninstall | Leaf::ZenServiceStart | Leaf::ZenServiceStop | Leaf::ZenServiceStatus | Leaf::ZenUrlaclAdd | Leaf::ZenUrlaclList | Leaf::ZenUrlaclRemove => build_zen(l, st),
    }
}

// ---------------------------------------------------------------------------
// the whole command line
// ---------------------------------------------------------------------------

/// The scan state before any token: no global option given.
pub open spec fn start_state() -> ScanV {
    ScanV {
        slots: seq![None::<Seq<Seq<char>>>, None::<Seq<Seq<char>>>, None::<Seq<Seq<char>>>],
        pos: Seq::<Seq<char>>::empty(),
        escaped: false,
    }
}

/// Scans a leaf's options and positionals from `i` to the end, after the
/// global slots in `st`, and checks the result.
pub open spec fn leaf_parse(toks: Seq<Seq<char>>, l: Leaf, i: int, st: ScanV) -> Result<
    (Leaf, ScanV),
    UsageErrorV,
> {
    let lv = leaf_spec(l);
    let st0 = ScanV {
        slots: st.slots + Seq::new(lv.opts.len(), |_j: int| None::<Seq<Seq<char>>>),
        ..st
    };
    match scan(toks, i, globals() + lv.opts, lv.pos, st0, false, false) {
        Err(e) => Err(e),
        Ok((st2, _j)) => match validate(lv, st2, 3) {
            Some(e) => Err(e),
            None => Ok((l, st2)),
        },
    }
}

/// Scans global options at group `g` from `i` up to the next subcommand
/// name, then follows that name down the tree.
pub open spec fn descend(toks: Seq<Seq<char>>, g: Group, i: int, st: ScanV) -> Result<
    (Leaf, ScanV),
    UsageErrorV,
>
    decreases group_rank(g),
{
    let at_root = g matches Group::Root;
    match scan(toks, i, globals(), Seq::<PosSpec>::empty(), st, true, at_root) {
        Err(e) => Err(e),
        Ok((st2, j)) => if j < 0 || j >= toks.len() {
            Err(UsageErrorV::MissingSubcommand)
        } else if toks[j] == "help"@ {
            Err(UsageErrorV::Help)
        } else {
            match child(g, toks[j]) {
                None => Err(UsageErrorV::UnknownSubcommand(toks[j])),
                Some(Route::Leaf(l)) => leaf_parse(toks, l, j + 1, st2),
                Some(Route::Group(g2)) => {
                    proof {
                        lemma_child_rank(g, toks[j]);
                    }
                    descend(toks, g2, j + 1, st2)
                },
            }
        },
    }
}

/// What a whole argument vector (program name first) parses to: the leaf
/// reached and the final scan, or the usage error.
pub open spec fn parse_spec(argv: Seq<Seq<char>>) -> Result<(Leaf, ScanV), UsageErrorV> {
    descend(argv, Group::Root, 1, start_state())
}

/// Whether `cli` is the value that leaf `l` and scan `st` stand for.
pub open spec fn cli_fits(cli: Cli, l: Leaf, st: ScanV) -> bool {
    &&& cli.json == given(st, 0)
    &&& cli.db_path.deep_view() == opt_text(st, 1)
    &&& cli.log_level@ == text_or(st, 2, "warn"@)
    &&& command_fits(cli.command, l, st)
}

fn leaf_exec(toks: &Vec<Vec<char>>, l: Leaf, i: usize, st: Scan) -> (r: Result<
    (Leaf, Scan),
    UsageError,
>)
    requires
        i <= toks@.len(),
        toks@.len() < usize::MAX - 2,
        st.slots@.len() == 3,
    ensures
        match leaf_parse(toks.deep_view(), l, i as int, st@) {
            Ok((l1, s1)) => r matches Ok((l2, s2)) && l2 == l1 && s2@ == s1 && s2.slots@.len() == 3
                + leaf_spec(l).opts.len() && s2.pos@.len() >= leaf_spec(l).pos.len(),
            Err(e) => r matches Err(e2) && e2@ == e,
        },
{
    let lt = leaf_table(l);
    let mut table = globals_table();
    let mut own = leaf_table(l).opts;
    table.append(&mut own);
    let mut st = st;
    let ghost pre = st@;
    let n = lt.opts.len();
    let mut m: usize = 0;
    while m < n
        invariant
            n == lt.opts@.len(),
            m <= n,
            st.slots@.len() == 3 + m,
            st@.pos == pre.pos,
            st@.escaped == pre.escaped,
            st@.slots =~= pre.slots + Seq::new(m as nat, |_j: int| None::<Seq<Seq<char>>>),
        decreases n - m,
    {
        let ghost before = st@.slots;
        st.slots.push(None);
        assert(st@.slots =~= before.push(None));
        assert(pre.slots + Seq::new((m + 1) as nat, |_j: int| None::<Seq<Seq<char>>>) =~= (pre.slots
            + Seq::new(m as nat, |_j: int| None::<Seq<Seq<char>>>)).push(None));
        m = m + 1;
    }
    let ghost st0 = st@;
    assert(st0 == ScanV {
        slots: pre.slots + Seq::new(leaf_spec(l).opts.len(), |_j: int| None::<Seq<Seq<char>>>),
        ..pre
    });
    match scan_exec(toks, i, &table, &lt.pos, &mut st, false, false) {
        Err(e) => Err(e),
        Ok(_j) => match validate_exec(&lt, &st, 3) {
            Some(e) => Err(e),
            None => Ok((l, st)),
        },
    }
}

fn descend_exec(toks: &Vec<Vec<char>>, g: Group, i: usize, st: Scan) -> (r: Result<
    (Leaf, Scan),
    UsageError,
>)
    requires
        i <= toks@.len(),
        toks@.len() < usize::MAX - 2,
        st.slots@.len() == 3,
    ensures
        match descend(toks.deep_view(), g, i as int, st@) {
            Ok((l1, s1)) => r matches Ok((l2, s2)) && l2 == l1 && s2@ == s1 && s2.slots@.len() == 3
                + leaf_spec(l1).opts.len() && s2.pos@.len() >= leaf_spec(l1).pos.len(),
            Err(e) => r matches Err(e2) && e2@ == e,
        },
    decreases group_rank(g),
{
    let ghost tv = toks.deep_view();
    let table = globals_table();
    let none: Vec<PosSpec> = Vec::new();
    let mut st = st;
    let at_root = matches!(g, Group::Root);
    match scan_exec(toks, i, &table, &none, &mut st, true, at_root) {
        Err(e) => Err(e),
        Ok(j) => {
            if j >= toks.len() {
                return Err(UsageError::MissingSubcommand);
            }
            let name = &toks[j];
            assert(tv[j as int] == name@);
            if is_lit(name.as_slice(), "help") {
                return Err(UsageError::Help);
            }
            match child_exec(g, name.as_slice()) {
                None => Err(UsageError::UnknownSubcommand(crate::text::string_from_chars(name.as_slice()))),
                Some(Route::Leaf(l)) => leaf_exec(toks, l, j + 1, st),
                Some(Route::Group(g2)) => {
                    proof {
                        lemma_child_rank(g, name@);
                    }
                    descend_exec(toks, g2, j + 1, st)
                },
            }
        },
    }
}

impl Cli {

    /// Parses an argument vector (program name first) into a `Cli`, or the
    /// usage error that the command line raises: exactly what `parse_spec`
    /// says, with the values read out as `cli_fits` states.
    pub fn try_parse_from(argv: &Vec<String>) -> (r: Result<Cli, UsageError>)
        requires
            argv@.len() < usize::MAX - 2,
        ensures
            match parse_spec(argv.deep_view()) {
                Ok((l, st)) => r matches Ok(cli) && cli_fits(cli, l, st),
                Err(e) => r matches Err(e2) && e2@ == e,
            },
    {
        let mut toks: Vec<Vec<char>> = Vec::new();
        let mut m: usize = 0;
        while m < argv.len()
            invariant
                m <= argv@.len(),
                toks.deep_view() =~= argv.deep_view().take(m as int),
            decreases argv@.len() - m,
        {
            let t = chars_of(argv[m].as_str());
            assert(t.deep_view() =~= t@);
            let ghost before = toks.deep_view();
            toks.push(t);
            assert(toks.deep_view() =~= before.push(argv.deep_view()[m as int]));
            assert(argv.deep_view().take(m + 1) =~= argv.deep_view().take(m as int).push(
                argv.deep_view()[m as int],
            ));
            m = m + 1;
        }
        assert(argv.deep_view().take(argv@.len() as int) =~= argv.deep_view());
        let st = Scan { slots: vec![None, None, None], pos: Vec::new(), escaped: false };
        assert(st.slots.deep_view() =~= start_state().slots);
        assert(st.pos.deep_view() =~= start_state().pos);
        if toks.len() == 0 {
            return Err(UsageError::MissingSubcommand);
        }
        match descend_exec(&toks, Group::Root, 1, st) {
            Err(e) => Err(e),
            Ok((l, st)) => {
                let json = get_given(&st, 0);
                let db_path = get_opt_text(&st, 1);
                let log_level = get_text_or(&st, 2, "warn");
                let command = build_command(l, &st);
                Ok(Cli { json, db_path, log_level, command })
            },
        }
    }
}

// ---------------------------------------------------------------------------
// what every accepted command line satisfies
// ---------------------------------------------------------------------------

proof fn lemma_first_conflict_none(conf: Seq<(usize, usize)>, opts: Seq<OptSpec>, st: ScanV, base: int)
    requires
        first_conflict(conf, opts, st, base) is None,
    ensures
        forall|i: int|
            0 <= i < conf.len() ==> !(given(st, base + (#[trigger] conf[i]).0) && given(
                st,
                base + conf[i].1,
            )),
    decreases conf.len(),
{
    if conf.len() > 0 {
        lemma_first_conflict_none(conf.drop_first(), opts, st, base);
        assert forall|i: int| 0 <= i < conf.len() implies !(given(st, base + (#[trigger] conf[i]).0)
            && given(st, base + conf[i].1)) by {
            if i > 0 {
                assert(conf[i] == conf.drop_first()[i - 1]);
            }
        }
    }
}

proof fn lemma_first_unmet_none(req: Seq<(usize, usize, usize)>, opts: Seq<OptSpec>, st: ScanV, base: int)
    requires
        first_unmet(req, opts, st, base) is None,
    ensures
        forall|i: int|
            0 <= i < req.len() && given(st, base + (#[trigger] req[i]).0) ==> given(st, base + req[i].1)
                || given(st, base + req[i].2),
    decreases req.len(),
{
    if req.len() > 0 {
        lemma_first_unmet_none(req.drop_first(), opts, st, base);
        assert forall|i: int|
            0 <= i < req.len() && given(st, base + (#[trigger] req[i]).0) implies given(
            st,
            base + req[i].1,
        ) || given(st, base + req[i].2) by {
            if i > 0 {
                assert(req[i] == req.drop_first()[i - 1]);
            }
        }
    }
}

proof fn lemma_first_missing_none(opts: Seq<OptSpec>, st: ScanV, base: int, k: int)
    requires
        0 <= k,
        first_missing(opts, st, base, k) is None,
    ensures
        forall|j: int| k <= j < opts.len() && (#[trigger] opts[j]).required ==> given(st, base + j),
    decreases opts.len() - k,
{
    if k < opts.len() {
        lemma_first_missing_none(opts, st, base, k + 1);
    }
}

proof fn lemma_descend_validates(toks: Seq<Seq<char>>, g: Group, i: int, st: ScanV)
    ensures
        descend(toks, g, i, st) matches Ok((l, s2)) ==> validate(leaf_spec(l), s2, 3) is None,
    decreases group_rank(g),
{
    match scan(toks, i, globals(), Seq::<PosSpec>::empty(), st, true, g matches Group::Root) {
        Err(_) => {},
        Ok((st2, j)) => {
            if 0 <= j < toks.len() && toks[j] != "help"@ {
                match child(g, toks[j]) {
                    Some(Route::Group(g2)) => {
                        lemma_child_rank(g, toks[j]);
                        lemma_descend_validates(toks, g2, j + 1, st2);
                    },
                    _ => {},
                }
            }
        },
    }
}

/// Every command line that parses respects its subcommand's constraints:
/// no two excluding options are both given, an option that needs a
/// companion (`--user` needs `--pass` or `--pass-stdin`) has one, every
/// required option is given, and so is every positional.
pub proof fn lemma_parse_respects_constraints(argv: Seq<Seq<char>>)
    ensures
        parse_spec(argv) matches Ok((l, st)) ==> {
            let lv = leaf_spec(l);
            &&& forall|i: int|
                0 <= i < lv.conflicts.len() ==> !(given(st, 3 + (#[trigger] lv.conflicts[i]).0)
                    && given(st, 3 + lv.conflicts[i].1))
            &&& forall|i: int|
                0 <= i < lv.requires.len() && given(st, 3 + (#[trigger] lv.requires[i]).0) ==> given(
                    st,
                    3 + lv.requires[i].1,
                ) || given(st, 3 + lv.requires[i].2)
            &&& forall|k: int| 0 <= k < lv.opts.len() && (#[trigger] lv.opts[k]).required ==> given(st, 3 + k)
            &&& st.pos.len() >= lv.pos.len()
        },
{
    lemma_descend_validates(argv, Group::Root, 1, start_state());
    if let Ok((l, st)) = parse_spec(argv) {
        let lv = leaf_spec(l);
        lemma_first_conflict_none(lv.conflicts, lv.opts, st, 3);
        lemma_first_unmet_none(lv.requires, lv.opts, st, 3);
        lemma_first_missing_none(lv.opts, st, 3, 0);
    }
}

/// `health run` takes at most one target mode: of `--machine-ids`,
/// `--cidr` and `--all`, no two are ever accepted together.
pub proof fn lemma_health_run_single_mode(argv: Seq<Seq<char>>)
    ensures
        parse_spec(argv) matches Ok((l, st)) ==> (l is HealthRun ==> !(given(st, 3) && given(st, 4))
            && !(given(st, 3) && given(st, 5)) && !(given(st, 4) && given(st, 5))),
{
    lemma_parse_respects_constraints(argv);
    if let Ok((l, st)) = parse_spec(argv) {
        if l is HealthRun {
            let lv = leaf_spec(l);
            assert(lv.conflicts[4] == (0usize, 1usize));
            assert(lv.conflicts[5] == (0usize, 2usize));
            assert(lv.conflicts[6] == (1usize, 2usize));
        }
    }
}

/// The subcommand that the command words `words[i..]` name below group `g`,
/// if they name exactly one.
pub open spec fn route_of(g: Group, words: Seq<Seq<char>>, i: int) -> Option<Leaf>
    decreases words.len() - i,
{
    if i < 0 || i >= words.len() {
        None
    } else {
        match child(g, words[i]) {
            Some(Route::Leaf(l)) => if i + 1 == words.len() {
                Some(l)
            } else {
                None
            },
            Some(Route::Group(g2)) => route_of(g2, words, i + 1),
            None => None,
        }
    }
}

/// The argument shape of the subcommand that the command words name (such
/// as `machine`, `deep-scan`), if they name one: its options and
/// positionals, and which of them are required.
pub fn command_spec(words: &Vec<String>) -> (r: Option<LeafSpec>)
    ensures
        match route_of(Group::Root, words.deep_view(), 0) {
            Some(l) => r matches Some(s) && s@ == leaf_spec(l),
            None => r is None,
        },
{
    let ghost w = words.deep_view();
    let mut g = Group::Root;
    let mut i: usize = 0;
    while i < words.len()
        invariant
            w == words.deep_view(),
            i <= w.len(),
            route_of(Group::Root, w, 0) == route_of(g, w, i as int),
        decreases w.len() - i,
    {
        let name = chars_of(words[i].as_str());
        match child_exec(g, name.as_slice()) {
            Some(Route::Leaf(l)) => {
                if i + 1 == words.len() {
                    return Some(leaf_table(l));
                }
                return None;
            },
            Some(Route::Group(g2)) => {
                g = g2;
            },
            None => {
                return None;
            },
        }
        i = i + 1;
    }
    None
}

} // verus!
