//! The operation registry: a stable id, a summary, the command line and the
//! side effects of each documented operation, and the id of a parsed command.

use vstd::prelude::*;
use crate::args::{Domain, MachineAction, SystemAction};
use crate::text::str_is;

verus! {

/// What running an operation may do.
#[derive(Debug, Clone, Copy)]
pub struct SideEffects {
    pub writes: bool,
    pub external_calls: bool,
    pub idempotent: bool,
}

/// One documented operation.
#[derive(Debug, Clone)]
pub struct Operation {
    pub operation_id: &'static str,
    pub summary: &'static str,
    pub cli_command: &'static str,
    pub side_effects: SideEffects,
    /// The exit statuses the operation can end with.
    pub exit_codes: Vec<i32>,
}

#[verifier::ext_equal]
pub struct OperationV {
    pub operation_id: Seq<char>,
    pub summary: Seq<char>,
    pub cli_command: Seq<char>,
    pub side_effects: SideEffects,
    pub exit_codes: Seq<i32>,
}

impl View for Operation {
    type V = OperationV;

    open spec fn view(&self) -> OperationV {
        OperationV {
            operation_id: self.operation_id@,
            summary: self.summary@,
            cli_command: self.cli_command@,
            side_effects: self.side_effects,
            exit_codes: self.exit_codes@,
        }
    }
}

/// The registry, in documentation order.
pub open spec fn registry() -> Seq<OperationV> {
    seq![
        OperationV {
            operation_id: "system.version"@,
            summary: "Print binary + library version"@,
            cli_command: "uecm-cli system version"@,
            side_effects: SideEffects { writes: false, external_calls: false, idempotent: true },
            exit_codes: seq![0i32],
        },
        OperationV {
            operation_id: "system.db_path"@,
            summary: "Print resolved SQLite DB path"@,
            cli_command: "uecm-cli system db-path"@,
            side_effects: SideEffects { writes: false, external_calls: false, idempotent: true },
            exit_codes: seq![0i32, 3i32],
        },
        OperationV {
            operation_id: "system.ps_dir"@,
            summary: "Print resolved ps-scripts dir"@,
            cli_command: "uecm-cli system ps-dir"@,
            side_effects: SideEffects { writes: false, external_calls: false, idempotent: true },
            exit_codes: seq![0i32],
        },
        OperationV {
            operation_id: "system.migrate_db"@,
            summary: "Force-run schema migrations"@,
            cli_command: "uecm-cli system migrate-db"@,
            side_effects: SideEffects { writes: true, external_calls: false, idempotent: true },
            exit_codes: seq![0i32, 3i32],
        },
        OperationV {
            operation_id: "system.echo"@,
            summary: "Round-trip a message via PowerShell"@,
            cli_command: "uecm-cli system echo"@,
            side_effects: SideEffects { writes: false, external_calls: true, idempotent: true },
            exit_codes: seq![0i32, 4i32],
        },
        OperationV {
            operation_id: "system.schema"@,
            summary: "Dump clap command tree as JSON"@,
            cli_command: "uecm-cli system schema"@,
            side_effects: SideEffects { writes: false, external_calls: false, idempotent: true },
            exit_codes: seq![0i32],
        },
        OperationV {
            operation_id: "system.exit_codes"@,
            summary: "Print documented exit-code table"@,
            cli_command: "uecm-cli system exit-codes"@,
            side_effects: SideEffects { writes: false, external_calls: false, idempotent: true },
            exit_codes: seq![0i32],
        },
        OperationV {
            operation_id: "machine.list"@,
            summary: "List all known machines"@,
            cli_command: "uecm-cli machine list"@,
            side_effects: SideEffects { writes: false, external_calls: false, idempotent: true },
            exit_codes: seq![0i32, 3i32],
        },
        OperationV {
            operation_id: "machine.scan"@,
            summary: "Probe a CIDR for live hosts"@,
            cli_command: "uecm-cli machine scan"@,
            side_effects: SideEffects { writes: false, external_calls: true, idempotent: true },
            exit_codes: seq![0i32, 2i32],
        },
        OperationV {
            operation_id: "machine.add"@,
            summary: "Add a machine to inventory"@,
            cli_command: "uecm-cli machine add"@,
            side_effects: SideEffects { writes: true, external_calls: false, idempotent: false },
            exit_codes: seq![0i32, 2i32, 3i32],
        },
        OperationV {
            operation_id: "machine.refresh"@,
            summary: "Refresh a machine (probe + detect)"@,
            cli_command: "uecm-cli machine refresh"@,
            side_effects: SideEffects { writes: true, external_calls: true, idempotent: true },
            exit_codes: seq![0i32, 2i32, 3i32, 4i32],
        },
        OperationV {
            operation_id: "machine.detail"@,
            summary: "Show machine detail"@,
            cli_command: "uecm-cli machine detail"@,
            side_effects: SideEffects { writes: false, external_calls: false, idempotent: true },
            exit_codes: seq![0i32, 2i32],
        },
        OperationV {
            operation_id: "machine.delete"@,
            summary: "Delete machine(s)"@,
            cli_command: "uecm-cli machine delete"@,
            side_effects: SideEffects { writes: true, external_calls: false, idempotent: true },
            exit_codes: seq![0i32, 2i32],
        },
        OperationV {
            operation_id: "machine.rename"@,
            summary: "Rename a machine"@,
            cli_command: "uecm-cli machine rename"@,
            side_effects: SideEffects { writes: true, external_calls: false, idempotent: true },
            exit_codes: seq![0i32, 2i32],
        },
        OperationV {
            operation_id: "machine.deep_scan"@,
            summary: "Refresh + INI scan + health per machine"@,
            cli_command: "uecm-cli machine deep-scan"@,
            side_effects: SideEffects { writes: true, external_calls: true, idempotent: true },
            exit_codes: seq![0i32, 2i32, 3i32, 4i32],
        },
        OperationV {
            operation_id: "machine.authorize"@,
            summary: "Authorize machines for remote mgmt"@,
            cli_command: "uecm-cli machine authorize"@,
            side_effects: SideEffects { writes: true, external_calls: true, idempotent: true },
            exit_codes: seq![0i32, 2i32, 4i32],
        },
    ]
}

/// The operation registry.
pub fn operations() -> (r: Vec<Operation>)
    ensures
        r@.map_values(|o: Operation| o@) == registry(),
{
    let r = vec![
        Operation {
            operation_id: "system.version",
            summary: "Print binary + library version",
            cli_command: "uecm-cli system version",
            side_effects: SideEffects { writes: false, external_calls: false, idempotent: true },
            exit_codes: vec![0],
        },
        Operation {
            operation_id: "system.db_path",
            summary: "Print resolved SQLite DB path",
            cli_command: "uecm-cli system db-path",
            side_effects: SideEffects { writes: false, external_calls: false, idempotent: true },
            exit_codes: vec![0, 3],
        },
        Operation {
            operation_id: "system.ps_dir",
            summary: "Print resolved ps-scripts dir",
            cli_command: "uecm-cli system ps-dir",
            side_effects: SideEffects { writes: false, external_calls: false, idempotent: true },
            exit_codes: vec![0],
        },
        Operation {
            operation_id: "system.migrate_db",
            summary: "Force-run schema migrations",
            cli_command: "uecm-cli system migrate-db",
            side_effects: SideEffects { writes: true, external_calls: false, idempotent: true },
            exit_codes: vec![0, 3],
        },
        Operation {
            operation_id: "system.echo",
            summary: "Round-trip a message via PowerShell",
            cli_command: "uecm-cli system echo",
            side_effects: SideEffects { writes: false, external_calls: true, idempotent: true },
            exit_codes: vec![0, 4],
        },
        Operation {
            operation_id: "system.schema",
            summary: "Dump clap command tree as JSON",
            cli_command: "uecm-cli system schema",
            side_effects: SideEffects { writes: false, external_calls: false, idempotent: true },
            exit_codes: vec![0],
        },
        Operation {
            operation_id: "system.exit_codes",
            summary: "Print documented exit-code table",
            cli_command: "uecm-cli system exit-codes",
            side_effects: SideEffects { writes: false, external_calls: false, idempotent: true },
            exit_codes: vec![0],
        },
        Operation {
            operation_id: "machine.list",
            summary: "List all known machines",
            cli_command: "uecm-cli machine list",
            side_effects: SideEffects { writes: false, external_calls: false, idempotent: true },
            exit_codes: vec![0, 3],
        },
        Operation {
            operation_id: "machine.scan",
            summary: "Probe a CIDR for live hosts",
            cli_command: "uecm-cli machine scan",
            side_effects: SideEffects { writes: false, external_calls: true, idempotent: true },
            exit_codes: vec![0, 2],
        },
        Operation {
            operation_id: "machine.add",
            summary: "Add a machine to inventory",
            cli_command: "uecm-cli machine add",
            side_effects: SideEffects { writes: true, external_calls: false, idempotent: false },
            exit_codes: vec![0, 2, 3],
        },
        Operation {
            operation_id: "machine.refresh",
            summary: "Refresh a machine (probe + detect)",
            cli_command: "uecm-cli machine refresh",
            side_effects: SideEffects { writes: true, external_calls: true, idempotent: true },
            exit_codes: vec![0, 2, 3, 4],
        },
        Operation {
            operation_id: "machine.detail",
            summary: "Show machine detail",
            cli_command: "uecm-cli machine detail",
            side_effects: SideEffects { writes: false, external_calls: false, idempotent: true },
            exit_codes: vec![0, 2],
        },
        Operation {
            operation_id: "machine.delete",
            summary: "Delete machine(s)",
            cli_command: "uecm-cli machine delete",
            side_effects: SideEffects { writes: true, external_calls: false, idempotent: true },
            exit_codes: vec![0, 2],
        },
        Operation {
            operation_id: "machine.rename",
            summary: "Rename a machine",
            cli_command: "uecm-cli machine rename",
            side_effects: SideEffects { writes: true, external_calls: false, idempotent: true },
            exit_codes: vec![0, 2],
        },
        Operation {
            operation_id: "machine.deep_scan",
            summary: "Refresh + INI scan + health per machine",
            cli_command: "uecm-cli machine deep-scan",
            side_effects: SideEffects { writes: true, external_calls: true, idempotent: true },
            exit_codes: vec![0, 2, 3, 4],
        },
        Operation {
            operation_id: "machine.authorize",
            summary: "Authorize machines for remote mgmt",
            cli_command: "uecm-cli machine authorize",
            side_effects: SideEffects { writes: true, external_calls: true, idempotent: true },
            exit_codes: vec![0, 2, 4],
        },
    ];
    assert(r@.map_values(|o: Operation| o@) =~~= registry());
    r
}

/// The operation id of a parsed command; domains without registry entries
/// yet report `<domain>.unmapped`.
pub open spec fn operation_id_spec(cmd: Domain) -> Seq<char> {
    match cmd {
        Domain::System { action } => match action {
            SystemAction::Version => "system.version"@,
            SystemAction::DbPath => "system.db_path"@,
            SystemAction::PsDir => "system.ps_dir"@,
            SystemAction::MigrateDb => "system.migrate_db"@,
            SystemAction::Echo { .. } => "system.echo"@,
            SystemAction::Schema => "system.schema"@,
            SystemAction::ExitCodes => "system.exit_codes"@,
        },
        Domain::Machine { action } => match action {
            MachineAction::List => "machine.list"@,
            MachineAction::Scan { .. } => "machine.scan"@,
            MachineAction::Add { .. } => "machine.add"@,
            MachineAction::Refresh { .. } => "machine.refresh"@,
            MachineAction::Detail { .. } => "machine.detail"@,
            MachineAction::Delete { .. } => "machine.delete"@,
            MachineAction::Rename { .. } => "machine.rename"@,
            MachineAction::DeepScan { .. } => "machine.deep_scan"@,
            MachineAction::Authorize { .. } => "machine.authorize"@,
        },
        Domain::Winrm { .. } => "winrm.unmapped"@,
        Domain::Cred { .. } => "cred.unmapped"@,
        Domain::Env { .. } => "env.unmapped"@,
        Domain::Ini { .. } => "ini.unmapped"@,
        Domain::Share { .. } => "share.unmapped"@,
        Domain::Project { .. } => "project.unmapped"@,
        Domain::Health { .. } => "health.unmapped"@,
        Domain::Gpu { .. } => "gpu.unmapped"@,
        Domain::Ddc { .. } => "ddc.unmapped"@,
        Domain::Pso { .. } => "pso.unmapped"@,
        Domain::Zen { .. } => "zen.unmapped"@,
    }
}

/// The operation id of a parsed command.
pub fn operation_id_for(cmd: &Domain) -> (r: &'static str)
    ensures
        r@ == operation_id_spec(*cmd),
{
    match cmd {
        Domain::System { action } => match action {
            SystemAction::Version => "system.version",
            SystemAction::DbPath => "system.db_path",
            SystemAction::PsDir => "system.ps_dir",
            SystemAction::MigrateDb => "system.migrate_db",
            SystemAction::Echo { .. } => "system.echo",
            SystemAction::Schema => "system.schema",
            SystemAction::ExitCodes => "system.exit_codes",
        },
        Domain::Machine { action } => match action {
            MachineAction::List => "machine.list",
            MachineAction::Scan { .. } => "machine.scan",
            MachineAction::Add { .. } => "machine.add",
            MachineAction::Refresh { .. } => "machine.refresh",
            MachineAction::Detail { .. } => "machine.detail",
            MachineAction::Delete { .. } => "machine.delete",
            MachineAction::Rename { .. } => "machine.rename",
            MachineAction::DeepScan { .. } => "machine.deep_scan",
            MachineAction::Authorize { .. } => "machine.authorize",
        },
        Domain::Winrm { .. } => "winrm.unmapped",
        Domain::Cred { .. } => "cred.unmapped",
        Domain::Env { .. } => "env.unmapped",
        Domain::Ini { .. } => "ini.unmapped",
        Domain::Share { .. } => "share.unmapped",
        Domain::Project { .. } => "project.unmapped",
        Domain::Health { .. } => "health.unmapped",
        Domain::Gpu { .. } => "gpu.unmapped",
        Domain::Ddc { .. } => "ddc.unmapped",
        Domain::Pso { .. } => "pso.unmapped",
        Domain::Zen { .. } => "zen.unmapped",
    }
}

/// No two registry entries share an operation id.
pub proof fn lemma_operation_ids_unique()
    ensures
        forall|i: int, j: int|
            0 <= i < j < registry().len() ==> #[trigger] registry()[i].operation_id
                != #[trigger] registry()[j].operation_id,
{
    reveal_strlit("system.version");
    reveal_strlit("system.db_path");
    reveal_strlit("system.ps_dir");
    reveal_strlit("system.migrate_db");
    reveal_strlit("system.echo");
    reveal_strlit("system.schema");
    reveal_strlit("system.exit_codes");
    reveal_strlit("machine.list");
    reveal_strlit("machine.scan");
    reveal_strlit("machine.add");
    reveal_strlit("machine.refresh");
    reveal_strlit("machine.detail");
    reveal_strlit("machine.delete");
    reveal_strlit("machine.rename");
    reveal_strlit("machine.deep_scan");
    reveal_strlit("machine.authorize");
    assert("system.version"@.len() == 14 && "system.version"@[0] == 's' && "system.version"@[10] == 's');
    assert("system.db_path"@.len() == 14 && "system.db_path"@[0] == 's' && "system.db_path"@[10] == 'p');
    assert("system.ps_dir"@.len() == 13 && "system.ps_dir"@[0] == 's' && "system.ps_dir"@[10] == 'd');
    assert("system.migrate_db"@.len() == 17 && "system.migrate_db"@[0] == 's' && "system.migrate_db"@[10] == 'r');
    assert("system.echo"@.len() == 11 && "system.echo"@[0] == 's' && "system.echo"@[10] == 'o');
    assert("system.schema"@.len() == 13 && "system.schema"@[0] == 's' && "system.schema"@[10] == 'e');
    assert("system.exit_codes"@.len() == 17 && "system.exit_codes"@[0] == 's' && "system.exit_codes"@[10] == 't');
    assert("machine.list"@.len() == 12 && "machine.list"@[0] == 'm' && "machine.list"@[10] == 's');
    assert("machine.scan"@.len() == 12 && "machine.scan"@[0] == 'm' && "machine.scan"@[10] == 'a');
    assert("machine.add"@.len() == 11 && "machine.add"@[0] == 'm' && "machine.add"@[10] == 'd');
    assert("machine.refresh"@.len() == 15 && "machine.refresh"@[0] == 'm' && "machine.refresh"@[10] == 'f');
    assert("machine.detail"@.len() == 14 && "machine.detail"@[0] == 'm' && "machine.detail"@[10] == 't');
    assert("machine.delete"@.len() == 14 && "machine.delete"@[0] == 'm' && "machine.delete"@[10] == 'l');
    assert("machine.rename"@.len() == 14 && "machine.rename"@[0] == 'm' && "machine.rename"@[10] == 'n');
    assert("machine.deep_scan"@.len() == 17 && "machine.deep_scan"@[0] == 'm' && "machine.deep_scan"@[10] == 'e');
    assert("machine.authorize"@.len() == 17 && "machine.authorize"@[0] == 'm' && "machine.authorize"@[10] == 't');
}

/// What an operation writes as its output document.
#[derive(Debug, Clone, Copy, PartialEq, Eq)]
pub enum OutputKind {
    /// The version document.
    Version,
    /// A path document.
    Path,
    /// A stream of events.
    Events,
    /// A free-form JSON object.
    Dynamic,
}

pub open spec fn output_kind_spec(id: Seq<char>) -> OutputKind {
    if id == "system.version"@ {
        OutputKind::Version
    } else if id == "system.db_path"@ || id == "system.ps_dir"@ {
        OutputKind::Path
    } else if id == "machine.scan"@ || id == "machine.deep_scan"@ || id == "machine.refresh"@ || id
        == "machine.authorize"@ || id == "machine.add"@ || id == "machine.delete"@ || id
        == "machine.rename"@ {
        OutputKind::Events
    } else {
        OutputKind::Dynamic
    }
}

/// The output document of an operation: typed for the version and path
/// commands, events for the machine commands that report progress or a
/// completion, a free-form object otherwise.
pub fn output_kind(operation_id: &str) -> (r: OutputKind)
    ensures
        r == output_kind_spec(operation_id@),
{
    let id = String::from_str(operation_id);
    if str_is(&id, "system.version") {
        OutputKind::Version
    } else if str_is(&id, "system.db_path") || str_is(&id, "system.ps_dir") {
        OutputKind::Path
    } else if str_is(&id, "machine.scan") || str_is(&id, "machine.deep_scan") || str_is(
        &id,
        "machine.refresh",
    ) || str_is(&id, "machine.authorize") || str_is(&id, "machine.add") || str_is(
        &id,
        "machine.delete",
    ) || str_is(&id, "machine.rename") {
        OutputKind::Events
    } else {
        OutputKind::Dynamic
    }
}

/// The words of a command line spelled by an operation id: `.` between the
/// domain and the action becomes a space, `_` inside a word a dash.
pub open spec fn command_words(id: Seq<char>) -> Seq<char> {
    id.map_values(|c: char| if c == '.' { ' ' } else if c == '_' { '-' } else { c })
}

/// Whether the exit statuses of an operation start at success, rise
/// strictly and stay within the documented 0..=4.
pub open spec fn exit_codes_ordered(codes: Seq<i32>) -> bool {
    &&& codes.len() > 0
    &&& codes[0] == 0
    &&& forall|i: int, j: int| 0 <= i < j < codes.len() ==> codes[i] < codes[j]
    &&& forall|i: int| 0 <= i < codes.len() ==> 0 <= #[trigger] codes[i] <= 4
}

/// Every registry entry's command line is `uecm-cli` followed by the words
/// of its id, and its exit statuses start at 0, rise strictly and lie in
/// 0..=4.
pub proof fn lemma_registry_well_formed()
    ensures
        registry().len() == 16,
        forall|k: int|
            0 <= k < registry().len() ==> #[trigger] registry()[k].cli_command == "uecm-cli "@
                + command_words(registry()[k].operation_id) && exit_codes_ordered(
                registry()[k].exit_codes,
            ),
{
    reveal_strlit("uecm-cli ");
    reveal_strlit("system.version");
    reveal_strlit("uecm-cli system version");
    reveal_strlit("system.db_path");
    reveal_strlit("uecm-cli system db-path");
    reveal_strlit("system.ps_dir");
    reveal_strlit("uecm-cli system ps-dir");
    reveal_strlit("system.migrate_db");
    reveal_strlit("uecm-cli system migrate-db");
    reveal_strlit("system.echo");
    reveal_strlit("uecm-cli system echo");
    reveal_strlit("system.schema");
    reveal_strlit("uecm-cli system schema");
    reveal_strlit("system.exit_codes");
    reveal_strlit("uecm-cli system exit-codes");
    reveal_strlit("machine.list");
    reveal_strlit("uecm-cli machine list");
    reveal_strlit("machine.scan");
    reveal_strlit("uecm-cli machine scan");
    reveal_strlit("machine.add");
    reveal_strlit("uecm-cli machine add");
    reveal_strlit("machine.refresh");
    reveal_strlit("uecm-cli machine refresh");
    reveal_strlit("machine.detail");
    reveal_strlit("uecm-cli machine detail");
    reveal_strlit("machine.delete");
    reveal_strlit("uecm-cli machine delete");
    reveal_strlit("machine.rename");
    reveal_strlit("uecm-cli machine rename");
    reveal_strlit("machine.deep_scan");
    reveal_strlit("uecm-cli machine deep-scan");
    reveal_strlit("machine.authorize");
    reveal_strlit("uecm-cli machine authorize");
    assert(registry()[0].cli_command =~= "uecm-cli "@ + command_words(registry()[0].operation_id));
    assert(registry()[1].cli_command =~= "uecm-cli "@ + command_words(registry()[1].operation_id));
    assert(registry()[2].cli_command =~= "uecm-cli "@ + command_words(registry()[2].operation_id));
    assert(registry()[3].cli_command =~= "uecm-cli "@ + command_words(registry()[3].operation_id));
    assert(registry()[4].cli_command =~= "uecm-cli "@ + command_words(registry()[4].operation_id));
    assert(registry()[5].cli_command =~= "uecm-cli "@ + command_words(registry()[5].operation_id));
    assert(registry()[6].cli_command =~= "uecm-cli "@ + command_words(registry()[6].operation_id));
    assert(registry()[7].cli_command =~= "uecm-cli "@ + command_words(registry()[7].operation_id));
    assert(registry()[8].cli_command =~= "uecm-cli "@ + command_words(registry()[8].operation_id));
    assert(registry()[9].cli_command =~= "uecm-cli "@ + command_words(registry()[9].operation_id));
    assert(registry()[10].cli_command =~= "uecm-cli "@ + command_words(registry()[10].operation_id));
    assert(registry()[11].cli_command =~= "uecm-cli "@ + command_words(registry()[11].operation_id));
    assert(registry()[12].cli_command =~= "uecm-cli "@ + command_words(registry()[12].operation_id));
    assert(registry()[13].cli_command =~= "uecm-cli "@ + command_words(registry()[13].operation_id));
    assert(registry()[14].cli_command =~= "uecm-cli "@ + command_words(registry()[14].operation_id));
    assert(registry()[15].cli_command =~= "uecm-cli "@ + command_words(registry()[15].operation_id));
}

/// Every system and machine command has its id in the registry.
pub proof fn lemma_registry_covers_commands(cmd: Domain)
    requires
        cmd is System || cmd is Machine,
    ensures
        exists|i: int|
            0 <= i < registry().len() && #[trigger] registry()[i].operation_id
                == operation_id_spec(cmd),
{
    match cmd {
        Domain::System { action } => match action {
            SystemAction::Version => assert(registry()[0].operation_id == operation_id_spec(cmd)),
            SystemAction::DbPath => assert(registry()[1].operation_id == operation_id_spec(cmd)),
            SystemAction::PsDir => assert(registry()[2].operation_id == operation_id_spec(cmd)),
            SystemAction::MigrateDb => assert(registry()[3].operation_id == operation_id_spec(cmd)),
            SystemAction::Echo { .. } => assert(registry()[4].operation_id == operation_id_spec(cmd)),
            SystemAction::Schema => assert(registry()[5].operation_id == operation_id_spec(cmd)),
            SystemAction::ExitCodes => assert(registry()[6].operation_id == operation_id_spec(cmd)),
        },
        Domain::Machine { action } => match action {
            MachineAction::List => assert(registry()[7].operation_id == operation_id_spec(cmd)),
            MachineAction::Scan { .. } => assert(registry()[8].operation_id == operation_id_spec(cmd)),
            MachineAction::Add { .. } => assert(registry()[9].operation_id == operation_id_spec(cmd)),
            MachineAction::Refresh { .. } => assert(registry()[10].operation_id == operation_id_spec(cmd)),
            MachineAction::Detail { .. } => assert(registry()[11].operation_id == operation_id_spec(cmd)),
            MachineAction::Delete { .. } => assert(registry()[12].operation_id == operation_id_spec(cmd)),
            MachineAction::Rename { .. } => assert(registry()[13].operation_id == operation_id_spec(cmd)),
            MachineAction::DeepScan { .. } => assert(registry()[14].operation_id == operation_id_spec(cmd)),
            MachineAction::Authorize { .. } => assert(registry()[15].operation_id == operation_id_spec(cmd)),
        },
        _ => {},
    }
}

} // verus!
