//! What every parsed command carries, stated by name: each field of the
//! command that a command line parses to is the value of the option or the
//! positional of that field's name. An option's value is read from the slot
//! the scanner files `--name` under when it meets it on the command line
//! (`opt_slot`), so a field read from any other slot breaks these laws.

use vstd::prelude::*;
use crate::args::{
    Cli, CredAction, DdcAction, Domain, EnvAction, GpuAction, HealthAction, HostArgs, IniAction,
    MachineAction, ProjectAction, PsoAction, ShareAction, SystemAction, WinrmAction, ZenAction,
    ZenBaselineAction, ZenServiceAction, ZenUrlaclAction,
};
use crate::cli_parse::{
    backend_or_auto, find_from, find_opt, given, int_or, int_value, ints, opt_int, opt_int_view, opt_text,
    slot_vals, text_or, uint_or, OptSpec, PosSpec, ScanV, UsageErrorV,
};
use crate::credential_args::CredentialArgs;
use crate::grammar::{cli_fits, globals, leaf_spec, parse_spec, Leaf};

verus! {

/// The slot the scanner files `--name` under while it reads leaf `l`'s
/// options: the first entry of that name in the table it scans with (the
/// global options, then the leaf's own). `-1` when there is none.
pub open spec fn opt_slot(l: Leaf, name: Seq<char>) -> int {
    match find_opt(globals() + leaf_spec(l).opts, name) {
        Some(k) => k,
        None => -1,
    }
}

/// The first positional of `pos` named `name`, from index `k` on.
pub open spec fn find_pos_from(pos: Seq<PosSpec>, name: Seq<char>, k: int) -> Option<int>
    decreases pos.len() - k,
{
    if k < 0 || k >= pos.len() {
        None
    } else if pos[k].name@ == name {
        Some(k)
    } else {
        find_pos_from(pos, name, k + 1)
    }
}

/// The place of leaf `l`'s positional named `name` (`-1` if none).
pub open spec fn pos_slot(l: Leaf, name: Seq<char>) -> int {
    match find_pos_from(leaf_spec(l).pos, name, 0) {
        Some(k) => k,
        None => -1,
    }
}

/// Whether the switch `--name` was given.
pub open spec fn flag_named(l: Leaf, st: ScanV, name: Seq<char>) -> bool {
    given(st, opt_slot(l, name))
}

/// The text given with `--name`, else `d`.
pub open spec fn text_named(l: Leaf, st: ScanV, name: Seq<char>, d: Seq<char>) -> Seq<char> {
    text_or(st, opt_slot(l, name), d)
}

/// The text given with `--name`, if it was given.
pub open spec fn opt_text_named(l: Leaf, st: ScanV, name: Seq<char>) -> Option<Seq<char>> {
    opt_text(st, opt_slot(l, name))
}

/// Every text item given with `--name`.
pub open spec fn texts_named(l: Leaf, st: ScanV, name: Seq<char>) -> Seq<Seq<char>> {
    slot_vals(st, opt_slot(l, name))
}

/// The integer given with `--name`, else `d`.
pub open spec fn int_named(l: Leaf, st: ScanV, name: Seq<char>, d: int) -> int {
    int_or(st, opt_slot(l, name), d)
}

/// The integer given with `--name`, if it was given.
pub open spec fn opt_int_named(l: Leaf, st: ScanV, name: Seq<char>) -> Option<int> {
    opt_int(st, opt_slot(l, name))
}

/// The unsigned integer (up to `hi`) given with `--name`, else `d`.
pub open spec fn uint_named(l: Leaf, st: ScanV, name: Seq<char>, hi: int, d: int) -> int {
    uint_or(st, opt_slot(l, name), hi, d)
}

/// Every integer given with `--name`.
pub open spec fn ints_named(l: Leaf, st: ScanV, name: Seq<char>) -> Seq<int> {
    ints(st, opt_slot(l, name))
}

/// The backend given with `--name`, else `auto`.
pub open spec fn backend_named(l: Leaf, st: ScanV, name: Seq<char>) -> crate::args::BackendChoice {
    backend_or_auto(st, opt_slot(l, name))
}

/// The text positional named `name`.
pub open spec fn pos_text_named(l: Leaf, st: ScanV, name: Seq<char>) -> Seq<char> {
    st.pos[pos_slot(l, name)]
}

/// The integer positional named `name`.
pub open spec fn pos_int_named(l: Leaf, st: ScanV, name: Seq<char>) -> int {
    int_value(st.pos[pos_slot(l, name)])
}

/// The credential flags of leaf `l`, each from the option of its name:
/// `--cred-alias`, `--user`, `--pass`, `--pass-stdin`.
pub open spec fn cred_named(c: CredentialArgs, l: Leaf, st: ScanV) -> bool {
    &&& c.cred_alias.deep_view() == opt_text_named(l, st, "cred-alias"@)
    &&& c.user.deep_view() == opt_text_named(l, st, "user"@)
    &&& c.pass.deep_view() == opt_text_named(l, st, "pass"@)
    &&& c.pass_stdin == flag_named(l, st, "pass-stdin"@)
}

/// The target of leaf `l`: `--host` and the `--hosts` list.
pub open spec fn host_named(t: HostArgs, l: Leaf, st: ScanV) -> bool {
    &&& t.host.deep_view() == opt_text_named(l, st, "host"@)
    &&& t.hosts.deep_view() == st.slots[opt_slot(l, "hosts"@)]
}

proof fn lemma_find_from_at(table: Seq<OptSpec>, name: Seq<char>, i: int, k: int)
    requires
        0 <= i <= k < table.len(),
        table[k].name@ == name,
        forall|j: int| 0 <= j < k ==> (#[trigger] table[j]).name@ != name,
    ensures
        find_from(table, name, i) == Some(k),
    decreases k - i,
{
    if i < k {
        lemma_find_from_at(table, name, i + 1, k);
    }
}

proof fn lemma_pos_at(pos: Seq<PosSpec>, name: Seq<char>, i: int, k: int)
    requires
        0 <= i <= k < pos.len(),
        pos[k].name@ == name,
        forall|j: int| 0 <= j < k ==> (#[trigger] pos[j]).name@ != name,
    ensures
        find_pos_from(pos, name, i) == Some(k),
    decreases k - i,
{
    if i < k {
        lemma_pos_at(pos, name, i + 1, k);
    }
}

/// The global options of any command line: `json` is whether `--json`
/// was given, `db_path` the value of `--db-path` if given, and `log_level`
/// the value of `--log-level`, `warn` when it was not given.
pub proof fn lemma_global_options_by_name(argv: Seq<Seq<char>>, cli: Cli, l: Leaf, st: ScanV)
    requires
        parse_spec(argv) == Ok::<(Leaf, ScanV), UsageErrorV>((l, st)),
        cli_fits(cli, l, st),
    ensures
        cli.json == flag_named(l, st, "json"@),
        cli.db_path.deep_view() == opt_text_named(l, st, "db-path"@),
        cli.log_level@ == text_named(l, st, "log-level"@, "warn"@),
{
    let table = globals() + leaf_spec(l).opts;
    assert(globals().len() == 3);
    assert(table[0] == globals()[0]);
    assert(table[1] == globals()[1]);
    assert(table[2] == globals()[2]);
    reveal_strlit("json");
    reveal_strlit("db-path");
    reveal_strlit("log-level");
    assert("json"@.len() == 4);
    assert("db-path"@.len() == 7);
    assert("log-level"@.len() == 9);
    lemma_find_from_at(table, "json"@, 0, 0);
    assert forall|j: int| 0 <= j < 1 implies (#[trigger] table[j]).name@ != "db-path"@ by {}
    lemma_find_from_at(table, "db-path"@, 0, 1);
    assert forall|j: int| 0 <= j < 2 implies (#[trigger] table[j]).name@ != "log-level"@ by {}
    lemma_find_from_at(table, "log-level"@, 0, 2);
}

/// `system echo`: every field of the parsed command is the value of the option
/// or positional of its name (a switch field: whether `--name` was given).
pub proof fn lemma_system_echo_by_name(argv: Seq<Seq<char>>, cli: Cli, st: ScanV)
    requires
        parse_spec(argv) == Ok::<(Leaf, ScanV), UsageErrorV>((Leaf::SystemEcho, st)),
        cli_fits(cli, Leaf::SystemEcho, st),
    ensures
        ({
            &&& cli.command matches Domain::System { action: SystemAction::Echo { message: f_message } }
            &&& f_message@ == pos_text_named(Leaf::SystemEcho, st, "message"@)
        }),
{
    let table = globals() + leaf_spec(Leaf::SystemEcho).opts;
    assert(leaf_spec(Leaf::SystemEcho).pos.len() == 1);
    assert(leaf_spec(Leaf::SystemEcho).pos[0].name@ == "message"@);
    reveal_strlit("db-path");
    reveal_strlit("json");
    reveal_strlit("log-level");
    reveal_strlit("message");
    assert forall|j: int| 0 <= j < 0 implies (#[trigger] leaf_spec(Leaf::SystemEcho).pos[j]).name@ != "message"@ by {}
    lemma_pos_at(leaf_spec(Leaf::SystemEcho).pos, "message"@, 0, 0);
}

/// `machine scan`: every field of the parsed command is the value of the option
/// or positional of its name (a switch field: whether `--name` was given).
pub proof fn lemma_machine_scan_by_name(argv: Seq<Seq<char>>, cli: Cli, st: ScanV)
    requires
        parse_spec(argv) == Ok::<(Leaf, ScanV), UsageErrorV>((Leaf::MachineScan, st)),
        cli_fits(cli, Leaf::MachineScan, st),
    ensures
        ({
            &&& cli.command matches Domain::Machine { action: MachineAction::Scan { cidr: f_cidr, timeout_ms: f_timeout_ms } }
            &&& f_cidr@ == pos_text_named(Leaf::MachineScan, st, "cidr"@)
            &&& f_timeout_ms as int == uint_named(Leaf::MachineScan, st, "timeout-ms"@, 0xffff_ffff_ffff_ffff, 1000)
        }),
{
    let table = globals() + leaf_spec(Leaf::MachineScan).opts;
    assert(globals().len() == 3);
    assert(leaf_spec(Leaf::MachineScan).opts.len() == 1);
    assert(table[0] == globals()[0]);
    assert(table[0].name@ == "json"@);
    assert(table[1] == globals()[1]);
    assert(table[1].name@ == "db-path"@);
    assert(table[2] == globals()[2]);
    assert(table[2].name@ == "log-level"@);
    assert(table[3] == leaf_spec(Leaf::MachineScan).opts[0]);
    assert(table[3].name@ == "timeout-ms"@);
    assert(leaf_spec(Leaf::MachineScan).pos.len() == 1);
    assert(leaf_spec(Leaf::MachineScan).pos[0].name@ == "cidr"@);
    reveal_strlit("cidr");
    reveal_strlit("db-path");
    reveal_strlit("json");
    reveal_strlit("log-level");
    reveal_strlit("timeout-ms");
    assert("db-path"@.len() == 7);
    assert("json"@.len() == 4);
    assert("log-level"@.len() == 9);
    assert("timeout-ms"@.len() == 10);
    assert forall|j: int| 0 <= j < 3 implies (#[trigger] table[j]).name@ != "timeout-ms"@ by {}
    lemma_find_from_at(table, "timeout-ms"@, 0, 3);
    assert forall|j: int| 0 <= j < 0 implies (#[trigger] leaf_spec(Leaf::MachineScan).pos[j]).name@ != "cidr"@ by {}
    lemma_pos_at(leaf_spec(Leaf::MachineScan).pos, "cidr"@, 0, 0);
}

/// `machine add`: every field of the parsed command is the value of the option
/// or positional of its name (a switch field: whether `--name` was given).
pub proof fn lemma_machine_add_by_name(argv: Seq<Seq<char>>, cli: Cli, st: ScanV)
    requires
        parse_spec(argv) == Ok::<(Leaf, ScanV), UsageErrorV>((Leaf::MachineAdd, st)),
        cli_fits(cli, Leaf::MachineAdd, st),
    ensures
        ({
            &&& cli.command matches Domain::Machine { action: MachineAction::Add { ip: f_ip, hostname: f_hostname } }
            &&& f_ip@ == text_named(Leaf::MachineAdd, st, "ip"@, ""@)
            &&& f_hostname.deep_view() == opt_text_named(Leaf::MachineAdd, st, "hostname"@)
        }),
{
    let table = globals() + leaf_spec(Leaf::MachineAdd).opts;
    assert(globals().len() == 3);
    assert(leaf_spec(Leaf::MachineAdd).opts.len() == 2);
    assert(table[0] == globals()[0]);
    assert(table[0].name@ == "json"@);
    assert(table[1] == globals()[1]);
    assert(table[1].name@ == "db-path"@);
    assert(table[2] == globals()[2]);
    assert(table[2].name@ == "log-level"@);
    assert(table[3] == leaf_spec(Leaf::MachineAdd).opts[0]);
    assert(table[3].name@ == "ip"@);
    assert(table[4] == leaf_spec(Leaf::MachineAdd).opts[1]);
    assert(table[4].name@ == "hostname"@);
    reveal_strlit("db-path");
    reveal_strlit("hostname");
    reveal_strlit("ip");
    reveal_strlit("json");
    reveal_strlit("log-level");
    assert("db-path"@.len() == 7);
    assert("hostname"@.len() == 8);
    assert("ip"@.len() == 2);
    assert("json"@.len() == 4);
    assert("log-level"@.len() == 9);
    assert forall|j: int| 0 <= j < 3 implies (#[trigger] table[j]).name@ != "ip"@ by {}
    lemma_find_from_at(table, "ip"@, 0, 3);
    assert forall|j: int| 0 <= j < 4 implies (#[trigger] table[j]).name@ != "hostname"@ by {}
    lemma_find_from_at(table, "hostname"@, 0, 4);
}

/// `machine refresh`: every field of the parsed command is the value of the option
/// or positional of its name (a switch field: whether `--name` was given).
pub proof fn lemma_machine_refresh_by_name(argv: Seq<Seq<char>>, cli: Cli, st: ScanV)
    requires
        parse_spec(argv) == Ok::<(Leaf, ScanV), UsageErrorV>((Leaf::MachineRefresh, st)),
        cli_fits(cli, Leaf::MachineRefresh, st),
    ensures
        ({
            &&& cli.command matches Domain::Machine { action: MachineAction::Refresh { id: f_id, cred: f_cred } }
            &&& f_id as int == pos_int_named(Leaf::MachineRefresh, st, "id"@)
            &&& cred_named(f_cred, Leaf::MachineRefresh, st)
        }),
{
    let table = globals() + leaf_spec(Leaf::MachineRefresh).opts;
    assert(globals().len() == 3);
    assert(leaf_spec(Leaf::MachineRefresh).opts.len() == 4);
    assert(table[0] == globals()[0]);
    assert(table[0].name@ == "json"@);
    assert(table[1] == globals()[1]);
    assert(table[1].name@ == "db-path"@);
    assert(table[2] == globals()[2]);
    assert(table[2].name@ == "log-level"@);
    assert(table[3] == leaf_spec(Leaf::MachineRefresh).opts[0]);
    assert(table[3].name@ == "cred-alias"@);
    assert(table[4] == leaf_spec(Leaf::MachineRefresh).opts[1]);
    assert(table[4].name@ == "user"@);
    assert(table[5] == leaf_spec(Leaf::MachineRefresh).opts[2]);
    assert(table[5].name@ == "pass"@);
    assert(table[6] == leaf_spec(Leaf::MachineRefresh).opts[3]);
    assert(table[6].name@ == "pass-stdin"@);
    assert(leaf_spec(Leaf::MachineRefresh).pos.len() == 1);
    assert(leaf_spec(Leaf::MachineRefresh).pos[0].name@ == "id"@);
    reveal_strlit("cred-alias");
    reveal_strlit("db-path");
    reveal_strlit("id");
    reveal_strlit("json");
    reveal_strlit("log-level");
    reveal_strlit("pass");
    reveal_strlit("pass-stdin");
    reveal_strlit("user");
    assert("cred-alias"@.len() == 10);
    assert("cred-alias"@[0] == 'c');
    assert("db-path"@.len() == 7);
    assert("json"@.len() == 4);
    assert("json"@[0] == 'j');
    assert("log-level"@.len() == 9);
    assert("pass"@.len() == 4);
    assert("pass"@[0] == 'p');
    assert("pass-stdin"@.len() == 10);
    assert("pass-stdin"@[0] == 'p');
    assert("user"@.len() == 4);
    assert("user"@[0] == 'u');
    assert forall|j: int| 0 <= j < 3 implies (#[trigger] table[j]).name@ != "cred-alias"@ by {}
    lemma_find_from_at(table, "cred-alias"@, 0, 3);
    assert forall|j: int| 0 <= j < 4 implies (#[trigger] table[j]).name@ != "user"@ by {}
    lemma_find_from_at(table, "user"@, 0, 4);
    assert forall|j: int| 0 <= j < 5 implies (#[trigger] table[j]).name@ != "pass"@ by {}
    lemma_find_from_at(table, "pass"@, 0, 5);
    assert forall|j: int| 0 <= j < 6 implies (#[trigger] table[j]).name@ != "pass-stdin"@ by {}
    lemma_find_from_at(table, "pass-stdin"@, 0, 6);
    assert forall|j: int| 0 <= j < 0 implies (#[trigger] leaf_spec(Leaf::MachineRefresh).pos[j]).name@ != "id"@ by {}
    lemma_pos_at(leaf_spec(Leaf::MachineRefresh).pos, "id"@, 0, 0);
}

/// `machine detail`: every field of the parsed command is the value of the option
/// or positional of its name (a switch field: whether `--name` was given).
pub proof fn lemma_machine_detail_by_name(argv: Seq<Seq<char>>, cli: Cli, st: ScanV)
    requires
        parse_spec(argv) == Ok::<(Leaf, ScanV), UsageErrorV>((Leaf::MachineDetail, st)),
        cli_fits(cli, Leaf::MachineDetail, st),
    ensures
        ({
            &&& cli.command matches Domain::Machine { action: MachineAction::Detail { id: f_id } }
            &&& f_id as int == pos_int_named(Leaf::MachineDetail, st, "id"@)
        }),
{
    let table = globals() + leaf_spec(Leaf::MachineDetail).opts;
    assert(leaf_spec(Leaf::MachineDetail).pos.len() == 1);
    assert(leaf_spec(Leaf::MachineDetail).pos[0].name@ == "id"@);
    reveal_strlit("db-path");
    reveal_strlit("id");
    reveal_strlit("json");
    reveal_strlit("log-level");
    assert forall|j: int| 0 <= j < 0 implies (#[trigger] leaf_spec(Leaf::MachineDetail).pos[j]).name@ != "id"@ by {}
    lemma_pos_at(leaf_spec(Leaf::MachineDetail).pos, "id"@, 0, 0);
}

/// `machine delete`: every field of the parsed command is the value of the option
/// or positional of its name (a switch field: whether `--name` was given).
pub proof fn lemma_machine_delete_by_name(argv: Seq<Seq<char>>, cli: Cli, st: ScanV)
    requires
        parse_spec(argv) == Ok::<(Leaf, ScanV), UsageErrorV>((Leaf::MachineDelete, st)),
        cli_fits(cli, Leaf::MachineDelete, st),
    ensures
        ({
            &&& cli.command matches Domain::Machine { action: MachineAction::Delete { id: f_id, yes: f_yes, dry_run: f_dry_run } }
            &&& f_id as int == pos_int_named(Leaf::MachineDelete, st, "id"@)
            &&& f_yes == flag_named(Leaf::MachineDelete, st, "yes"@)
            &&& f_dry_run == flag_named(Leaf::MachineDelete, st, "dry-run"@)
        }),
{
    let table = globals() + leaf_spec(Leaf::MachineDelete).opts;
    assert(globals().len() == 3);
    assert(leaf_spec(Leaf::MachineDelete).opts.len() == 2);
    assert(table[0] == globals()[0]);
    assert(table[0].name@ == "json"@);
    assert(table[1] == globals()[1]);
    assert(table[1].name@ == "db-path"@);
    assert(table[2] == globals()[2]);
    assert(table[2].name@ == "log-level"@);
    assert(table[3] == leaf_spec(Leaf::MachineDelete).opts[0]);
    assert(table[3].name@ == "yes"@);
    assert(table[4] == leaf_spec(Leaf::MachineDelete).opts[1]);
    assert(table[4].name@ == "dry-run"@);
    assert(leaf_spec(Leaf::MachineDelete).pos.len() == 1);
    assert(leaf_spec(Leaf::MachineDelete).pos[0].name@ == "id"@);
    reveal_strlit("db-path");
    reveal_strlit("dry-run");
    reveal_strlit("id");
    reveal_strlit("json");
    reveal_strlit("log-level");
    reveal_strlit("yes");
    assert("db-path"@.len() == 7);
    assert("db-path"@[1] == 'b');
    assert("dry-run"@.len() == 7);
    assert("dry-run"@[1] == 'r');
    assert("json"@.len() == 4);
    assert("log-level"@.len() == 9);
    assert("yes"@.len() == 3);
    assert forall|j: int| 0 <= j < 3 implies (#[trigger] table[j]).name@ != "yes"@ by {}
    lemma_find_from_at(table, "yes"@, 0, 3);
    assert forall|j: int| 0 <= j < 4 implies (#[trigger] table[j]).name@ != "dry-run"@ by {}
    lemma_find_from_at(table, "dry-run"@, 0, 4);
    assert forall|j: int| 0 <= j < 0 implies (#[trigger] leaf_spec(Leaf::MachineDelete).pos[j]).name@ != "id"@ by {}
    lemma_pos_at(leaf_spec(Leaf::MachineDelete).pos, "id"@, 0, 0);
}

/// `machine rename`: every field of the parsed command is the value of the option
/// or positional of its name (a switch field: whether `--name` was given).
pub proof fn lemma_machine_rename_by_name(argv: Seq<Seq<char>>, cli: Cli, st: ScanV)
    requires
        parse_spec(argv) == Ok::<(Leaf, ScanV), UsageErrorV>((Leaf::MachineRename, st)),
        cli_fits(cli, Leaf::MachineRename, st),
    ensures
        ({
            &&& cli.command matches Domain::Machine { action: MachineAction::Rename { id: f_id, hostname: f_hostname } }
            &&& f_id as int == pos_int_named(Leaf::MachineRename, st, "id"@)
            &&& f_hostname@ == pos_text_named(Leaf::MachineRename, st, "hostname"@)
        }),
{
    let table = globals() + leaf_spec(Leaf::MachineRename).opts;
    assert(leaf_spec(Leaf::MachineRename).pos.len() == 2);
    assert(leaf_spec(Leaf::MachineRename).pos[0].name@ == "id"@);
    assert(leaf_spec(Leaf::MachineRename).pos[1].name@ == "hostname"@);
    reveal_strlit("db-path");
    reveal_strlit("hostname");
    reveal_strlit("id");
    reveal_strlit("json");
    reveal_strlit("log-level");
    assert("hostname"@.len() == 8);
    assert("id"@.len() == 2);
    assert forall|j: int| 0 <= j < 0 implies (#[trigger] leaf_spec(Leaf::MachineRename).pos[j]).name@ != "id"@ by {}
    lemma_pos_at(leaf_spec(Leaf::MachineRename).pos, "id"@, 0, 0);
    assert forall|j: int| 0 <= j < 1 implies (#[trigger] leaf_spec(Leaf::MachineRename).pos[j]).name@ != "hostname"@ by {}
    lemma_pos_at(leaf_spec(Leaf::MachineRename).pos, "hostname"@, 0, 1);
}

/// `machine deep-scan`: every field of the parsed command is the value of the option
/// or positional of its name (a switch field: whether `--name` was given).
pub proof fn lemma_machine_deep_scan_by_name(argv: Seq<Seq<char>>, cli: Cli, st: ScanV)
    requires
        parse_spec(argv) == Ok::<(Leaf, ScanV), UsageErrorV>((Leaf::MachineDeepScan, st)),
        cli_fits(cli, Leaf::MachineDeepScan, st),
    ensures
        ({
            &&& cli.command matches Domain::Machine { action: MachineAction::DeepScan { machine_ids: f_machine_ids, all: f_all, cred: f_cred } }
            &&& f_machine_ids@.map_values(|x: i64| x as int) == ints_named(Leaf::MachineDeepScan, st, "machine-ids"@)
            &&& f_all == flag_named(Leaf::MachineDeepScan, st, "all"@)
            &&& cred_named(f_cred, Leaf::MachineDeepScan, st)
        }),
{
    let table = globals() + leaf_spec(Leaf::MachineDeepScan).opts;
    assert(globals().len() == 3);
    assert(leaf_spec(Leaf::MachineDeepScan).opts.len() == 6);
    assert(table[0] == globals()[0]);
    assert(table[0].name@ == "json"@);
    assert(table[1] == globals()[1]);
    assert(table[1].name@ == "db-path"@);
    assert(table[2] == globals()[2]);
    assert(table[2].name@ == "log-level"@);
    assert(table[3] == leaf_spec(Leaf::MachineDeepScan).opts[0]);
    assert(table[3].name@ == "machine-ids"@);
    assert(table[4] == leaf_spec(Leaf::MachineDeepScan).opts[1]);
    assert(table[4].name@ == "all"@);
    assert(table[5] == leaf_spec(Leaf::MachineDeepScan).opts[2]);
    assert(table[5].name@ == "cred-alias"@);
    assert(table[6] == leaf_spec(Leaf::MachineDeepScan).opts[3]);
    assert(table[6].name@ == "user"@);
    assert(table[7] == leaf_spec(Leaf::MachineDeepScan).opts[4]);
    assert(table[7].name@ == "pass"@);
    assert(table[8] == leaf_spec(Leaf::MachineDeepScan).opts[5]);
    assert(table[8].name@ == "pass-stdin"@);
    reveal_strlit("all");
    reveal_strlit("cred-alias");
    reveal_strlit("db-path");
    reveal_strlit("json");
    reveal_strlit("log-level");
    reveal_strlit("machine-ids");
    reveal_strlit("pass");
    reveal_strlit("pass-stdin");
    reveal_strlit("user");
    assert("all"@.len() == 3);
    assert("cred-alias"@.len() == 10);
    assert("cred-alias"@[0] == 'c');
    assert("db-path"@.len() == 7);
    assert("json"@.len() == 4);
    assert("json"@[0] == 'j');
    assert("log-level"@.len() == 9);
    assert("machine-ids"@.len() == 11);
    assert("pass"@.len() == 4);
    assert("pass"@[0] == 'p');
    assert("pass-stdin"@.len() == 10);
    assert("pass-stdin"@[0] == 'p');
    assert("user"@.len() == 4);
    assert("user"@[0] == 'u');
    assert forall|j: int| 0 <= j < 3 implies (#[trigger] table[j]).name@ != "machine-ids"@ by {}
    lemma_find_from_at(table, "machine-ids"@, 0, 3);
    assert forall|j: int| 0 <= j < 4 implies (#[trigger] table[j]).name@ != "all"@ by {}
    lemma_find_from_at(table, "all"@, 0, 4);
    assert forall|j: int| 0 <= j < 5 implies (#[trigger] table[j]).name@ != "cred-alias"@ by {}
    lemma_find_from_at(table, "cred-alias"@, 0, 5);
    assert forall|j: int| 0 <= j < 6 implies (#[trigger] table[j]).name@ != "user"@ by {}
    lemma_find_from_at(table, "user"@, 0, 6);
    assert forall|j: int| 0 <= j < 7 implies (#[trigger] table[j]).name@ != "pass"@ by {}
    lemma_find_from_at(table, "pass"@, 0, 7);
    assert forall|j: int| 0 <= j < 8 implies (#[trigger] table[j]).name@ != "pass-stdin"@ by {}
    lemma_find_from_at(table, "pass-stdin"@, 0, 8);
}

/// `machine authorize`: every field of the parsed command is the value of the option
/// or positional of its name (a switch field: whether `--name` was given).
pub proof fn lemma_machine_authorize_by_name(argv: Seq<Seq<char>>, cli: Cli, st: ScanV)
    requires
        parse_spec(argv) == Ok::<(Leaf, ScanV), UsageErrorV>((Leaf::MachineAuthorize, st)),
        cli_fits(cli, Leaf::MachineAuthorize, st),
    ensures
        ({
            &&& cli.command matches Domain::Machine { action: MachineAction::Authorize { machine_ids: f_machine_ids, all: f_all, save_as: f_save_as, cred: f_cred } }
            &&& f_machine_ids@.map_values(|x: i64| x as int) == ints_named(Leaf::MachineAuthorize, st, "machine-ids"@)
            &&& f_all == flag_named(Leaf::MachineAuthorize, st, "all"@)
            &&& f_save_as.deep_view() == opt_text_named(Leaf::MachineAuthorize, st, "save-as"@)
            &&& cred_named(f_cred, Leaf::MachineAuthorize, st)
        }),
{
    let table = globals() + leaf_spec(Leaf::MachineAuthorize).opts;
    assert(globals().len() == 3);
    assert(leaf_spec(Leaf::MachineAuthorize).opts.len() == 7);
    assert(table[0] == globals()[0]);
    assert(table[0].name@ == "json"@);
    assert(table[1] == globals()[1]);
    assert(table[1].name@ == "db-path"@);
    assert(table[2] == globals()[2]);
    assert(table[2].name@ == "log-level"@);
    assert(table[3] == leaf_spec(Leaf::MachineAuthorize).opts[0]);
    assert(table[3].name@ == "machine-ids"@);
    assert(table[4] == leaf_spec(Leaf::MachineAuthorize).opts[1]);
    assert(table[4].name@ == "all"@);
    assert(table[5] == leaf_spec(Leaf::MachineAuthorize).opts[2]);
    assert(table[5].name@ == "save-as"@);
    assert(table[6] == leaf_spec(Leaf::MachineAuthorize).opts[3]);
    assert(table[6].name@ == "cred-alias"@);
    assert(table[7] == leaf_spec(Leaf::MachineAuthorize).opts[4]);
    assert(table[7].name@ == "user"@);
    assert(table[8] == leaf_spec(Leaf::MachineAuthorize).opts[5]);
    assert(table[8].name@ == "pass"@);
    assert(table[9] == leaf_spec(Leaf::MachineAuthorize).opts[6]);
    assert(table[9].name@ == "pass-stdin"@);
    reveal_strlit("all");
    reveal_strlit("cred-alias");
    reveal_strlit("db-path");
    reveal_strlit("json");
    reveal_strlit("log-level");
    reveal_strlit("machine-ids");
    reveal_strlit("pass");
    reveal_strlit("pass-stdin");
    reveal_strlit("save-as");
    reveal_strlit("user");
    assert("all"@.len() == 3);
    assert("cred-alias"@.len() == 10);
    assert("cred-alias"@[0] == 'c');
    assert("db-path"@.len() == 7);
    assert("db-path"@[0] == 'd');
    assert("json"@.len() == 4);
    assert("json"@[0] == 'j');
    assert("log-level"@.len() == 9);
    assert("machine-ids"@.len() == 11);
    assert("pass"@.len() == 4);
    assert("pass"@[0] == 'p');
    assert("pass-stdin"@.len() == 10);
    assert("pass-stdin"@[0] == 'p');
    assert("save-as"@.len() == 7);
    assert("save-as"@[0] == 's');
    assert("user"@.len() == 4);
    assert("user"@[0] == 'u');
    assert forall|j: int| 0 <= j < 3 implies (#[trigger] table[j]).name@ != "machine-ids"@ by {}
    lemma_find_from_at(table, "machine-ids"@, 0, 3);
    assert forall|j: int| 0 <= j < 4 implies (#[trigger] table[j]).name@ != "all"@ by {}
    lemma_find_from_at(table, "all"@, 0, 4);
    assert forall|j: int| 0 <= j < 5 implies (#[trigger] table[j]).name@ != "save-as"@ by {}
    lemma_find_from_at(table, "save-as"@, 0, 5);
    assert forall|j: int| 0 <= j < 6 implies (#[trigger] table[j]).name@ != "cred-alias"@ by {}
    lemma_find_from_at(table, "cred-alias"@, 0, 6);
    assert forall|j: int| 0 <= j < 7 implies (#[trigger] table[j]).name@ != "user"@ by {}
    lemma_find_from_at(table, "user"@, 0, 7);
    assert forall|j: int| 0 <= j < 8 implies (#[trigger] table[j]).name@ != "pass"@ by {}
    lemma_find_from_at(table, "pass"@, 0, 8);
    assert forall|j: int| 0 <= j < 9 implies (#[trigger] table[j]).name@ != "pass-stdin"@ by {}
    lemma_find_from_at(table, "pass-stdin"@, 0, 9);
}

/// `winrm probe`: every field of the parsed command is the value of the option
/// or positional of its name (a switch field: whether `--name` was given).
pub proof fn lemma_winrm_probe_by_name(argv: Seq<Seq<char>>, cli: Cli, st: ScanV)
    requires
        parse_spec(argv) == Ok::<(Leaf, ScanV), UsageErrorV>((Leaf::WinrmProbe, st)),
        cli_fits(cli, Leaf::WinrmProbe, st),
    ensures
        ({
            &&& cli.command matches Domain::Winrm { action: WinrmAction::Probe { host: f_host } }
            &&& f_host@ == pos_text_named(Leaf::WinrmProbe, st, "host"@)
        }),
{
    let table = globals() + leaf_spec(Leaf::WinrmProbe).opts;
    assert(leaf_spec(Leaf::WinrmProbe).pos.len() == 1);
    assert(leaf_spec(Leaf::WinrmProbe).pos[0].name@ == "host"@);
    reveal_strlit("db-path");
    reveal_strlit("host");
    reveal_strlit("json");
    reveal_strlit("log-level");
    assert forall|j: int| 0 <= j < 0 implies (#[trigger] leaf_spec(Leaf::WinrmProbe).pos[j]).name@ != "host"@ by {}
    lemma_pos_at(leaf_spec(Leaf::WinrmProbe).pos, "host"@, 0, 0);
}

/// `winrm bootstrap-script`: every field of the parsed command is the value of the option
/// or positional of its name (a switch field: whether `--name` was given).
pub proof fn lemma_winrm_bootstrap_script_by_name(argv: Seq<Seq<char>>, cli: Cli, st: ScanV)
    requires
        parse_spec(argv) == Ok::<(Leaf, ScanV), UsageErrorV>((Leaf::WinrmBootstrapScript, st)),
        cli_fits(cli, Leaf::WinrmBootstrapScript, st),
    ensures
        ({
            &&& cli.command matches Domain::Winrm { action: WinrmAction::BootstrapScript { output: f_output } }
            &&& f_output.deep_view() == opt_text_named(Leaf::WinrmBootstrapScript, st, "output"@)
        }),
{
    let table = globals() + leaf_spec(Leaf::WinrmBootstrapScript).opts;
    assert(globals().len() == 3);
    assert(leaf_spec(Leaf::WinrmBootstrapScript).opts.len() == 1);
    assert(table[0] == globals()[0]);
    assert(table[0].name@ == "json"@);
    assert(table[1] == globals()[1]);
    assert(table[1].name@ == "db-path"@);
    assert(table[2] == globals()[2]);
    assert(table[2].name@ == "log-level"@);
    assert(table[3] == leaf_spec(Leaf::WinrmBootstrapScript).opts[0]);
    assert(table[3].name@ == "output"@);
    reveal_strlit("db-path");
    reveal_strlit("json");
    reveal_strlit("log-level");
    reveal_strlit("output");
    assert("db-path"@.len() == 7);
    assert("json"@.len() == 4);
    assert("log-level"@.len() == 9);
    assert("output"@.len() == 6);
    assert forall|j: int| 0 <= j < 3 implies (#[trigger] table[j]).name@ != "output"@ by {}
    lemma_find_from_at(table, "output"@, 0, 3);
}

/// `winrm bootstrap`: every field of the parsed command is the value of the option
/// or positional of its name (a switch field: whether `--name` was given).
pub proof fn lemma_winrm_bootstrap_by_name(argv: Seq<Seq<char>>, cli: Cli, st: ScanV)
    requires
        parse_spec(argv) == Ok::<(Leaf, ScanV), UsageErrorV>((Leaf::WinrmBootstrap, st)),
        cli_fits(cli, Leaf::WinrmBootstrap, st),
    ensures
        ({
            &&& cli.command matches Domain::Winrm { action: WinrmAction::Bootstrap { host: f_host, user: f_user, pass: f_pass, pass_stdin: f_pass_stdin, enable_local_admin: f_enable_local_admin } }
            &&& f_host@ == pos_text_named(Leaf::WinrmBootstrap, st, "host"@)
            &&& f_user@ == text_named(Leaf::WinrmBootstrap, st, "user"@, ""@)
            &&& f_pass.deep_view() == opt_text_named(Leaf::WinrmBootstrap, st, "pass"@)
            &&& f_pass_stdin == flag_named(Leaf::WinrmBootstrap, st, "pass-stdin"@)
            &&& f_enable_local_admin == flag_named(Leaf::WinrmBootstrap, st, "enable-local-admin"@)
        }),
{
    let table = globals() + leaf_spec(Leaf::WinrmBootstrap).opts;
    assert(globals().len() == 3);
    assert(leaf_spec(Leaf::WinrmBootstrap).opts.len() == 4);
    assert(table[0] == globals()[0]);
    assert(table[0].name@ == "json"@);
    assert(table[1] == globals()[1]);
    assert(table[1].name@ == "db-path"@);
    assert(table[2] == globals()[2]);
    assert(table[2].name@ == "log-level"@);
    assert(table[3] == leaf_spec(Leaf::WinrmBootstrap).opts[0]);
    assert(table[3].name@ == "user"@);
    assert(table[4] == leaf_spec(Leaf::WinrmBootstrap).opts[1]);
    assert(table[4].name@ == "pass"@);
    assert(table[5] == leaf_spec(Leaf::WinrmBootstrap).opts[2]);
    assert(table[5].name@ == "pass-stdin"@);
    assert(table[6] == leaf_spec(Leaf::WinrmBootstrap).opts[3]);
    assert(table[6].name@ == "enable-local-admin"@);
    assert(leaf_spec(Leaf::WinrmBootstrap).pos.len() == 1);
    assert(leaf_spec(Leaf::WinrmBootstrap).pos[0].name@ == "host"@);
    reveal_strlit("db-path");
    reveal_strlit("enable-local-admin");
    reveal_strlit("host");
    reveal_strlit("json");
    reveal_strlit("log-level");
    reveal_strlit("pass");
    reveal_strlit("pass-stdin");
    reveal_strlit("user");
    assert("db-path"@.len() == 7);
    assert("enable-local-admin"@.len() == 18);
    assert("json"@.len() == 4);
    assert("json"@[0] == 'j');
    assert("log-level"@.len() == 9);
    assert("pass"@.len() == 4);
    assert("pass"@[0] == 'p');
    assert("pass-stdin"@.len() == 10);
    assert("user"@.len() == 4);
    assert("user"@[0] == 'u');
    assert forall|j: int| 0 <= j < 3 implies (#[trigger] table[j]).name@ != "user"@ by {}
    lemma_find_from_at(table, "user"@, 0, 3);
    assert forall|j: int| 0 <= j < 4 implies (#[trigger] table[j]).name@ != "pass"@ by {}
    lemma_find_from_at(table, "pass"@, 0, 4);
    assert forall|j: int| 0 <= j < 5 implies (#[trigger] table[j]).name@ != "pass-stdin"@ by {}
    lemma_find_from_at(table, "pass-stdin"@, 0, 5);
    assert forall|j: int| 0 <= j < 6 implies (#[trigger] table[j]).name@ != "enable-local-admin"@ by {}
    lemma_find_from_at(table, "enable-local-admin"@, 0, 6);
    assert forall|j: int| 0 <= j < 0 implies (#[trigger] leaf_spec(Leaf::WinrmBootstrap).pos[j]).name@ != "host"@ by {}
    lemma_pos_at(leaf_spec(Leaf::WinrmBootstrap).pos, "host"@, 0, 0);
}

/// `winrm preflight`: every field of the parsed command is the value of the option
/// or positional of its name (a switch field: whether `--name` was given).
pub proof fn lemma_winrm_preflight_by_name(argv: Seq<Seq<char>>, cli: Cli, st: ScanV)
    requires
        parse_spec(argv) == Ok::<(Leaf, ScanV), UsageErrorV>((Leaf::WinrmPreflight, st)),
        cli_fits(cli, Leaf::WinrmPreflight, st),
    ensures
        ({
            &&& cli.command matches Domain::Winrm { action: WinrmAction::Preflight { host: f_host, user: f_user, pass: f_pass, pass_stdin: f_pass_stdin, probe: f_probe } }
            &&& f_host@ == pos_text_named(Leaf::WinrmPreflight, st, "host"@)
            &&& f_user@ == text_named(Leaf::WinrmPreflight, st, "user"@, ""@)
            &&& f_pass.deep_view() == opt_text_named(Leaf::WinrmPreflight, st, "pass"@)
            &&& f_pass_stdin == flag_named(Leaf::WinrmPreflight, st, "pass-stdin"@)
            &&& f_probe == flag_named(Leaf::WinrmPreflight, st, "probe"@)
        }),
{
    let table = globals() + leaf_spec(Leaf::WinrmPreflight).opts;
    assert(globals().len() == 3);
    assert(leaf_spec(Leaf::WinrmPreflight).opts.len() == 4);
    assert(table[0] == globals()[0]);
    assert(table[0].name@ == "json"@);
    assert(table[1] == globals()[1]);
    assert(table[1].name@ == "db-path"@);
    assert(table[2] == globals()[2]);
    assert(table[2].name@ == "log-level"@);
    assert(table[3] == leaf_spec(Leaf::WinrmPreflight).opts[0]);
    assert(table[3].name@ == "user"@);
    assert(table[4] == leaf_spec(Leaf::WinrmPreflight).opts[1]);
    assert(table[4].name@ == "pass"@);
    assert(table[5] == leaf_spec(Leaf::WinrmPreflight).opts[2]);
    assert(table[5].name@ == "pass-stdin"@);
    assert(table[6] == leaf_spec(Leaf::WinrmPreflight).opts[3]);
    assert(table[6].name@ == "probe"@);
    assert(leaf_spec(Leaf::WinrmPreflight).pos.len() == 1);
    assert(leaf_spec(Leaf::WinrmPreflight).pos[0].name@ == "host"@);
    reveal_strlit("db-path");
    reveal_strlit("host");
    reveal_strlit("json");
    reveal_strlit("log-level");
    reveal_strlit("pass");
    reveal_strlit("pass-stdin");
    reveal_strlit("probe");
    reveal_strlit("user");
    assert("db-path"@.len() == 7);
    assert("json"@.len() == 4);
    assert("json"@[0] == 'j');
    assert("log-level"@.len() == 9);
    assert("pass"@.len() == 4);
    assert("pass"@[0] == 'p');
    assert("pass-stdin"@.len() == 10);
    assert("probe"@.len() == 5);
    assert("user"@.len() == 4);
    assert("user"@[0] == 'u');
    assert forall|j: int| 0 <= j < 3 implies (#[trigger] table[j]).name@ != "user"@ by {}
    lemma_find_from_at(table, "user"@, 0, 3);
    assert forall|j: int| 0 <= j < 4 implies (#[trigger] table[j]).name@ != "pass"@ by {}
    lemma_find_from_at(table, "pass"@, 0, 4);
    assert forall|j: int| 0 <= j < 5 implies (#[trigger] table[j]).name@ != "pass-stdin"@ by {}
    lemma_find_from_at(table, "pass-stdin"@, 0, 5);
    assert forall|j: int| 0 <= j < 6 implies (#[trigger] table[j]).name@ != "probe"@ by {}
    lemma_find_from_at(table, "probe"@, 0, 6);
    assert forall|j: int| 0 <= j < 0 implies (#[trigger] leaf_spec(Leaf::WinrmPreflight).pos[j]).name@ != "host"@ by {}
    lemma_pos_at(leaf_spec(Leaf::WinrmPreflight).pos, "host"@, 0, 0);
}

/// `cred save`: every field of the parsed command is the value of the option
/// or positional of its name (a switch field: whether `--name` was given).
pub proof fn lemma_cred_save_by_name(argv: Seq<Seq<char>>, cli: Cli, st: ScanV)
    requires
        parse_spec(argv) == Ok::<(Leaf, ScanV), UsageErrorV>((Leaf::CredSave, st)),
        cli_fits(cli, Leaf::CredSave, st),
    ensures
        ({
            &&& cli.command matches Domain::Cred { action: CredAction::Save { alias: f_alias, user: f_user, pass: f_pass, pass_stdin: f_pass_stdin, kind: f_kind } }
            &&& f_alias@ == text_named(Leaf::CredSave, st, "alias"@, ""@)
            &&& f_user@ == text_named(Leaf::CredSave, st, "user"@, ""@)
            &&& f_pass.deep_view() == opt_text_named(Leaf::CredSave, st, "pass"@)
            &&& f_pass_stdin == flag_named(Leaf::CredSave, st, "pass-stdin"@)
            &&& f_kind@ == text_named(Leaf::CredSave, st, "kind"@, "winrm"@)
        }),
{
    let table = globals() + leaf_spec(Leaf::CredSave).opts;
    assert(globals().len() == 3);
    assert(leaf_spec(Leaf::CredSave).opts.len() == 5);
    assert(table[0] == globals()[0]);
    assert(table[0].name@ == "json"@);
    assert(table[1] == globals()[1]);
    assert(table[1].name@ == "db-path"@);
    assert(table[2] == globals()[2]);
    assert(table[2].name@ == "log-level"@);
    assert(table[3] == leaf_spec(Leaf::CredSave).opts[0]);
    assert(table[3].name@ == "alias"@);
    assert(table[4] == leaf_spec(Leaf::CredSave).opts[1]);
    assert(table[4].name@ == "user"@);
    assert(table[5] == leaf_spec(Leaf::CredSave).opts[2]);
    assert(table[5].name@ == "pass"@);
    assert(table[6] == leaf_spec(Leaf::CredSave).opts[3]);
    assert(table[6].name@ == "pass-stdin"@);
    assert(table[7] == leaf_spec(Leaf::CredSave).opts[4]);
    assert(table[7].name@ == "kind"@);
    reveal_strlit("alias");
    reveal_strlit("db-path");
    reveal_strlit("json");
    reveal_strlit("kind");
    reveal_strlit("log-level");
    reveal_strlit("pass");
    reveal_strlit("pass-stdin");
    reveal_strlit("user");
    assert("alias"@.len() == 5);
    assert("db-path"@.len() == 7);
    assert("json"@.len() == 4);
    assert("json"@[0] == 'j');
    assert("kind"@.len() == 4);
    assert("kind"@[0] == 'k');
    assert("log-level"@.len() == 9);
    assert("pass"@.len() == 4);
    assert("pass"@[0] == 'p');
    assert("pass-stdin"@.len() == 10);
    assert("user"@.len() == 4);
    assert("user"@[0] == 'u');
    assert forall|j: int| 0 <= j < 3 implies (#[trigger] table[j]).name@ != "alias"@ by {}
    lemma_find_from_at(table, "alias"@, 0, 3);
    assert forall|j: int| 0 <= j < 4 implies (#[trigger] table[j]).name@ != "user"@ by {}
    lemma_find_from_at(table, "user"@, 0, 4);
    assert forall|j: int| 0 <= j < 5 implies (#[trigger] table[j]).name@ != "pass"@ by {}
    lemma_find_from_at(table, "pass"@, 0, 5);
    assert forall|j: int| 0 <= j < 6 implies (#[trigger] table[j]).name@ != "pass-stdin"@ by {}
    lemma_find_from_at(table, "pass-stdin"@, 0, 6);
    assert forall|j: int| 0 <= j < 7 implies (#[trigger] table[j]).name@ != "kind"@ by {}
    lemma_find_from_at(table, "kind"@, 0, 7);
}

/// `cred delete`: every field of the parsed command is the value of the option
/// or positional of its name (a switch field: whether `--name` was given).
pub proof fn lemma_cred_delete_by_name(argv: Seq<Seq<char>>, cli: Cli, st: ScanV)
    requires
        parse_spec(argv) == Ok::<(Leaf, ScanV), UsageErrorV>((Leaf::CredDelete, st)),
        cli_fits(cli, Leaf::CredDelete, st),
    ensures
        ({
            &&& cli.command matches Domain::Cred { action: CredAction::Delete { alias: f_alias, yes: f_yes, dry_run: f_dry_run } }
            &&& f_alias@ == pos_text_named(Leaf::CredDelete, st, "alias"@)
            &&& f_yes == flag_named(Leaf::CredDelete, st, "yes"@)
            &&& f_dry_run == flag_named(Leaf::CredDelete, st, "dry-run"@)
        }),
{
    let table = globals() + leaf_spec(Leaf::CredDelete).opts;
    assert(globals().len() == 3);
    assert(leaf_spec(Leaf::CredDelete).opts.len() == 2);
    assert(table[0] == globals()[0]);
    assert(table[0].name@ == "json"@);
    assert(table[1] == globals()[1]);
    assert(table[1].name@ == "db-path"@);
    assert(table[2] == globals()[2]);
    assert(table[2].name@ == "log-level"@);
    assert(table[3] == leaf_spec(Leaf::CredDelete).opts[0]);
    assert(table[3].name@ == "yes"@);
    assert(table[4] == leaf_spec(Leaf::CredDelete).opts[1]);
    assert(table[4].name@ == "dry-run"@);
    assert(leaf_spec(Leaf::CredDelete).pos.len() == 1);
    assert(leaf_spec(Leaf::CredDelete).pos[0].name@ == "alias"@);
    reveal_strlit("alias");
    reveal_strlit("db-path");
    reveal_strlit("dry-run");
    reveal_strlit("json");
    reveal_strlit("log-level");
    reveal_strlit("yes");
    assert("db-path"@.len() == 7);
    assert("db-path"@[1] == 'b');
    assert("dry-run"@.len() == 7);
    assert("dry-run"@[1] == 'r');
    assert("json"@.len() == 4);
    assert("log-level"@.len() == 9);
    assert("yes"@.len() == 3);
    assert forall|j: int| 0 <= j < 3 implies (#[trigger] table[j]).name@ != "yes"@ by {}
    lemma_find_from_at(table, "yes"@, 0, 3);
    assert forall|j: int| 0 <= j < 4 implies (#[trigger] table[j]).name@ != "dry-run"@ by {}
    lemma_find_from_at(table, "dry-run"@, 0, 4);
    assert forall|j: int| 0 <= j < 0 implies (#[trigger] leaf_spec(Leaf::CredDelete).pos[j]).name@ != "alias"@ by {}
    lemma_pos_at(leaf_spec(Leaf::CredDelete).pos, "alias"@, 0, 0);
}

/// `env get`: every field of the parsed command is the value of the option
/// or positional of its name (a switch field: whether `--name` was given).
pub proof fn lemma_env_get_by_name(argv: Seq<Seq<char>>, cli: Cli, st: ScanV)
    requires
        parse_spec(argv) == Ok::<(Leaf, ScanV), UsageErrorV>((Leaf::EnvGet, st)),
        cli_fits(cli, Leaf::EnvGet, st),
    ensures
        ({
            &&& cli.command matches Domain::Env { action: EnvAction::Get { host: f_host, name: f_name, cred: f_cred } }
            &&& f_host@ == text_named(Leaf::EnvGet, st, "host"@, ""@)
            &&& f_name@ == text_named(Leaf::EnvGet, st, "name"@, ""@)
            &&& cred_named(f_cred, Leaf::EnvGet, st)
        }),
{
    let table = globals() + leaf_spec(Leaf::EnvGet).opts;
    assert(globals().len() == 3);
    assert(leaf_spec(Leaf::EnvGet).opts.len() == 6);
    assert(table[0] == globals()[0]);
    assert(table[0].name@ == "json"@);
    assert(table[1] == globals()[1]);
    assert(table[1].name@ == "db-path"@);
    assert(table[2] == globals()[2]);
    assert(table[2].name@ == "log-level"@);
    assert(table[3] == leaf_spec(Leaf::EnvGet).opts[0]);
    assert(table[3].name@ == "host"@);
    assert(table[4] == leaf_spec(Leaf::EnvGet).opts[1]);
    assert(table[4].name@ == "name"@);
    assert(table[5] == leaf_spec(Leaf::EnvGet).opts[2]);
    assert(table[5].name@ == "cred-alias"@);
    assert(table[6] == leaf_spec(Leaf::EnvGet).opts[3]);
    assert(table[6].name@ == "user"@);
    assert(table[7] == leaf_spec(Leaf::EnvGet).opts[4]);
    assert(table[7].name@ == "pass"@);
    assert(table[8] == leaf_spec(Leaf::EnvGet).opts[5]);
    assert(table[8].name@ == "pass-stdin"@);
    reveal_strlit("cred-alias");
    reveal_strlit("db-path");
    reveal_strlit("host");
    reveal_strlit("json");
    reveal_strlit("log-level");
    reveal_strlit("name");
    reveal_strlit("pass");
    reveal_strlit("pass-stdin");
    reveal_strlit("user");
    assert("cred-alias"@.len() == 10);
    assert("cred-alias"@[0] == 'c');
    assert("db-path"@.len() == 7);
    assert("host"@.len() == 4);
    assert("host"@[0] == 'h');
    assert("json"@.len() == 4);
    assert("json"@[0] == 'j');
    assert("log-level"@.len() == 9);
    assert("name"@.len() == 4);
    assert("name"@[0] == 'n');
    assert("pass"@.len() == 4);
    assert("pass"@[0] == 'p');
    assert("pass-stdin"@.len() == 10);
    assert("pass-stdin"@[0] == 'p');
    assert("user"@.len() == 4);
    assert("user"@[0] == 'u');
    assert forall|j: int| 0 <= j < 3 implies (#[trigger] table[j]).name@ != "host"@ by {}
    lemma_find_from_at(table, "host"@, 0, 3);
    assert forall|j: int| 0 <= j < 4 implies (#[trigger] table[j]).name@ != "name"@ by {}
    lemma_find_from_at(table, "name"@, 0, 4);
    assert forall|j: int| 0 <= j < 5 implies (#[trigger] table[j]).name@ != "cred-alias"@ by {}
    lemma_find_from_at(table, "cred-alias"@, 0, 5);
    assert forall|j: int| 0 <= j < 6 implies (#[trigger] table[j]).name@ != "user"@ by {}
    lemma_find_from_at(table, "user"@, 0, 6);
    assert forall|j: int| 0 <= j < 7 implies (#[trigger] table[j]).name@ != "pass"@ by {}
    lemma_find_from_at(table, "pass"@, 0, 7);
    assert forall|j: int| 0 <= j < 8 implies (#[trigger] table[j]).name@ != "pass-stdin"@ by {}
    lemma_find_from_at(table, "pass-stdin"@, 0, 8);
}

/// `env set`: every field of the parsed command is the value of the option
/// or positional of its name (a switch field: whether `--name` was given).
pub proof fn lemma_env_set_by_name(argv: Seq<Seq<char>>, cli: Cli, st: ScanV)
    requires
        parse_spec(argv) == Ok::<(Leaf, ScanV), UsageErrorV>((Leaf::EnvSet, st)),
        cli_fits(cli, Leaf::EnvSet, st),
    ensures
        ({
            &&& cli.command matches Domain::Env { action: EnvAction::SetValue { target: f_target, name: f_name, value: f_value, yes: f_yes, dry_run: f_dry_run, cred: f_cred } }
            &&& host_named(f_target, Leaf::EnvSet, st)
            &&& f_name@ == text_named(Leaf::EnvSet, st, "name"@, ""@)
            &&& f_value@ == text_named(Leaf::EnvSet, st, "value"@, ""@)
            &&& f_yes == flag_named(Leaf::EnvSet, st, "yes"@)
            &&& f_dry_run == flag_named(Leaf::EnvSet, st, "dry-run"@)
            &&& cred_named(f_cred, Leaf::EnvSet, st)
        }),
{
    let table = globals() + leaf_spec(Leaf::EnvSet).opts;
    assert(globals().len() == 3);
    assert(leaf_spec(Leaf::EnvSet).opts.len() == 10);
    assert(table[0] == globals()[0]);
    assert(table[0].name@ == "json"@);
    assert(table[1] == globals()[1]);
    assert(table[1].name@ == "db-path"@);
    assert(table[2] == globals()[2]);
    assert(table[2].name@ == "log-level"@);
    assert(table[3] == leaf_spec(Leaf::EnvSet).opts[0]);
    assert(table[3].name@ == "host"@);
    assert(table[4] == leaf_spec(Leaf::EnvSet).opts[1]);
    assert(table[4].name@ == "hosts"@);
    assert(table[5] == leaf_spec(Leaf::EnvSet).opts[2]);
    assert(table[5].name@ == "name"@);
    assert(table[6] == leaf_spec(Leaf::EnvSet).opts[3]);
    assert(table[6].name@ == "value"@);
    assert(table[7] == leaf_spec(Leaf::EnvSet).opts[4]);
    assert(table[7].name@ == "yes"@);
    assert(table[8] == leaf_spec(Leaf::EnvSet).opts[5]);
    assert(table[8].name@ == "dry-run"@);
    assert(table[9] == leaf_spec(Leaf::EnvSet).opts[6]);
    assert(table[9].name@ == "cred-alias"@);
    assert(table[10] == leaf_spec(Leaf::EnvSet).opts[7]);
    assert(table[10].name@ == "user"@);
    assert(table[11] == leaf_spec(Leaf::EnvSet).opts[8]);
    assert(table[11].name@ == "pass"@);
    assert(table[12] == leaf_spec(Leaf::EnvSet).opts[9]);
    assert(table[12].name@ == "pass-stdin"@);
    reveal_strlit("cred-alias");
    reveal_strlit("db-path");
    reveal_strlit("dry-run");
    reveal_strlit("host");
    reveal_strlit("hosts");
    reveal_strlit("json");
    reveal_strlit("log-level");
    reveal_strlit("name");
    reveal_strlit("pass");
    reveal_strlit("pass-stdin");
    reveal_strlit("user");
    reveal_strlit("value");
    reveal_strlit("yes");
    assert("cred-alias"@.len() == 10);
    assert("cred-alias"@[0] == 'c');
    assert("db-path"@.len() == 7);
    assert("db-path"@[1] == 'b');
    assert("dry-run"@.len() == 7);
    assert("dry-run"@[1] == 'r');
    assert("host"@.len() == 4);
    assert("host"@[0] == 'h');
    assert("hosts"@.len() == 5);
    assert("hosts"@[0] == 'h');
    assert("json"@.len() == 4);
    assert("json"@[0] == 'j');
    assert("log-level"@.len() == 9);
    assert("name"@.len() == 4);
    assert("name"@[0] == 'n');
    assert("pass"@.len() == 4);
    assert("pass"@[0] == 'p');
    assert("pass-stdin"@.len() == 10);
    assert("pass-stdin"@[0] == 'p');
    assert("user"@.len() == 4);
    assert("user"@[0] == 'u');
    assert("value"@.len() == 5);
    assert("value"@[0] == 'v');
    assert("yes"@.len() == 3);
    assert forall|j: int| 0 <= j < 3 implies (#[trigger] table[j]).name@ != "host"@ by {}
    lemma_find_from_at(table, "host"@, 0, 3);
    assert forall|j: int| 0 <= j < 4 implies (#[trigger] table[j]).name@ != "hosts"@ by {}
    lemma_find_from_at(table, "hosts"@, 0, 4);
    assert forall|j: int| 0 <= j < 5 implies (#[trigger] table[j]).name@ != "name"@ by {}
    lemma_find_from_at(table, "name"@, 0, 5);
    assert forall|j: int| 0 <= j < 6 implies (#[trigger] table[j]).name@ != "value"@ by {}
    lemma_find_from_at(table, "value"@, 0, 6);
    assert forall|j: int| 0 <= j < 7 implies (#[trigger] table[j]).name@ != "yes"@ by {}
    lemma_find_from_at(table, "yes"@, 0, 7);
    assert forall|j: int| 0 <= j < 8 implies (#[trigger] table[j]).name@ != "dry-run"@ by {}
    lemma_find_from_at(table, "dry-run"@, 0, 8);
    assert forall|j: int| 0 <= j < 9 implies (#[trigger] table[j]).name@ != "cred-alias"@ by {}
    lemma_find_from_at(table, "cred-alias"@, 0, 9);
    assert forall|j: int| 0 <= j < 10 implies (#[trigger] table[j]).name@ != "user"@ by {}
    lemma_find_from_at(table, "user"@, 0, 10);
    assert forall|j: int| 0 <= j < 11 implies (#[trigger] table[j]).name@ != "pass"@ by {}
    lemma_find_from_at(table, "pass"@, 0, 11);
    assert forall|j: int| 0 <= j < 12 implies (#[trigger] table[j]).name@ != "pass-stdin"@ by {}
    lemma_find_from_at(table, "pass-stdin"@, 0, 12);
}

/// `ini read`: every field of the parsed command is the value of the option
/// or positional of its name (a switch field: whether `--name` was given).
pub proof fn lemma_ini_read_by_name(argv: Seq<Seq<char>>, cli: Cli, st: ScanV)
    requires
        parse_spec(argv) == Ok::<(Leaf, ScanV), UsageErrorV>((Leaf::IniRead, st)),
        cli_fits(cli, Leaf::IniRead, st),
    ensures
        ({
            &&& cli.command matches Domain::Ini { action: IniAction::Read { host: f_host, file: f_file, section: f_section, cred: f_cred } }
            &&& f_host@ == text_named(Leaf::IniRead, st, "host"@, ""@)
            &&& f_file@ == text_named(Leaf::IniRead, st, "file"@, ""@)
            &&& f_section@ == text_named(Leaf::IniRead, st, "section"@, ""@)
            &&& cred_named(f_cred, Leaf::IniRead, st)
        }),
{
    let table = globals() + leaf_spec(Leaf::IniRead).opts;
    assert(globals().len() == 3);
    assert(leaf_spec(Leaf::IniRead).opts.len() == 7);
    assert(table[0] == globals()[0]);
    assert(table[0].name@ == "json"@);
    assert(table[1] == globals()[1]);
    assert(table[1].name@ == "db-path"@);
    assert(table[2] == globals()[2]);
    assert(table[2].name@ == "log-level"@);
    assert(table[3] == leaf_spec(Leaf::IniRead).opts[0]);
    assert(table[3].name@ == "host"@);
    assert(table[4] == leaf_spec(Leaf::IniRead).opts[1]);
    assert(table[4].name@ == "file"@);
    assert(table[5] == leaf_spec(Leaf::IniRead).opts[2]);
    assert(table[5].name@ == "section"@);
    assert(table[6] == leaf_spec(Leaf::IniRead).opts[3]);
    assert(table[6].name@ == "cred-alias"@);
    assert(table[7] == leaf_spec(Leaf::IniRead).opts[4]);
    assert(table[7].name@ == "user"@);
    assert(table[8] == leaf_spec(Leaf::IniRead).opts[5]);
    assert(table[8].name@ == "pass"@);
    assert(table[9] == leaf_spec(Leaf::IniRead).opts[6]);
    assert(table[9].name@ == "pass-stdin"@);
    reveal_strlit("cred-alias");
    reveal_strlit("db-path");
    reveal_strlit("file");
    reveal_strlit("host");
    reveal_strlit("json");
    reveal_strlit("log-level");
    reveal_strlit("pass");
    reveal_strlit("pass-stdin");
    reveal_strlit("section");
    reveal_strlit("user");
    assert("cred-alias"@.len() == 10);
    assert("cred-alias"@[0] == 'c');
    assert("db-path"@.len() == 7);
    assert("db-path"@[0] == 'd');
    assert("file"@.len() == 4);
    assert("file"@[0] == 'f');
    assert("host"@.len() == 4);
    assert("host"@[0] == 'h');
    assert("json"@.len() == 4);
    assert("json"@[0] == 'j');
    assert("log-level"@.len() == 9);
    assert("pass"@.len() == 4);
    assert("pass"@[0] == 'p');
    assert("pass-stdin"@.len() == 10);
    assert("pass-stdin"@[0] == 'p');
    assert("section"@.len() == 7);
    assert("section"@[0] == 's');
    assert("user"@.len() == 4);
    assert("user"@[0] == 'u');
    assert forall|j: int| 0 <= j < 3 implies (#[trigger] table[j]).name@ != "host"@ by {}
    lemma_find_from_at(table, "host"@, 0, 3);
    assert forall|j: int| 0 <= j < 4 implies (#[trigger] table[j]).name@ != "file"@ by {}
    lemma_find_from_at(table, "file"@, 0, 4);
    assert forall|j: int| 0 <= j < 5 implies (#[trigger] table[j]).name@ != "section"@ by {}
    lemma_find_from_at(table, "section"@, 0, 5);
    assert forall|j: int| 0 <= j < 6 implies (#[trigger] table[j]).name@ != "cred-alias"@ by {}
    lemma_find_from_at(table, "cred-alias"@, 0, 6);
    assert forall|j: int| 0 <= j < 7 implies (#[trigger] table[j]).name@ != "user"@ by {}
    lemma_find_from_at(table, "user"@, 0, 7);
    assert forall|j: int| 0 <= j < 8 implies (#[trigger] table[j]).name@ != "pass"@ by {}
    lemma_find_from_at(table, "pass"@, 0, 8);
    assert forall|j: int| 0 <= j < 9 implies (#[trigger] table[j]).name@ != "pass-stdin"@ by {}
    lemma_find_from_at(table, "pass-stdin"@, 0, 9);
}

/// `ini set`: every field of the parsed command is the value of the option
/// or positional of its name (a switch field: whether `--name` was given).
pub proof fn lemma_ini_set_by_name(argv: Seq<Seq<char>>, cli: Cli, st: ScanV)
    requires
        parse_spec(argv) == Ok::<(Leaf, ScanV), UsageErrorV>((Leaf::IniSet, st)),
        cli_fits(cli, Leaf::IniSet, st),
    ensures
        ({
            &&& cli.command matches Domain::Ini { action: IniAction::SetKey { target: f_target, file: f_file, section: f_section, key: f_key, value: f_value, yes: f_yes, dry_run: f_dry_run, cred: f_cred } }
            &&& host_named(f_target, Leaf::IniSet, st)
            &&& f_file@ == text_named(Leaf::IniSet, st, "file"@, ""@)
            &&& f_section@ == text_named(Leaf::IniSet, st, "section"@, ""@)
            &&& f_key@ == text_named(Leaf::IniSet, st, "key"@, ""@)
            &&& f_value@ == text_named(Leaf::IniSet, st, "value"@, ""@)
            &&& f_yes == flag_named(Leaf::IniSet, st, "yes"@)
            &&& f_dry_run == flag_named(Leaf::IniSet, st, "dry-run"@)
            &&& cred_named(f_cred, Leaf::IniSet, st)
        }),
{
    let table = globals() + leaf_spec(Leaf::IniSet).opts;
    assert(globals().len() == 3);
    assert(leaf_spec(Leaf::IniSet).opts.len() == 12);
    assert(table[0] == globals()[0]);
    assert(table[0].name@ == "json"@);
    assert(table[1] == globals()[1]);
    assert(table[1].name@ == "db-path"@);
    assert(table[2] == globals()[2]);
    assert(table[2].name@ == "log-level"@);
    assert(table[3] == leaf_spec(Leaf::IniSet).opts[0]);
    assert(table[3].name@ == "host"@);
    assert(table[4] == leaf_spec(Leaf::IniSet).opts[1]);
    assert(table[4].name@ == "hosts"@);
    assert(table[5] == leaf_spec(Leaf::IniSet).opts[2]);
    assert(table[5].name@ == "file"@);
    assert(table[6] == leaf_spec(Leaf::IniSet).opts[3]);
    assert(table[6].name@ == "section"@);
    assert(table[7] == leaf_spec(Leaf::IniSet).opts[4]);
    assert(table[7].name@ == "key"@);
    assert(table[8] == leaf_spec(Leaf::IniSet).opts[5]);
    assert(table[8].name@ == "value"@);
    assert(table[9] == leaf_spec(Leaf::IniSet).opts[6]);
    assert(table[9].name@ == "yes"@);
    assert(table[10] == leaf_spec(Leaf::IniSet).opts[7]);
    assert(table[10].name@ == "dry-run"@);
    assert(table[11] == leaf_spec(Leaf::IniSet).opts[8]);
    assert(table[11].name@ == "cred-alias"@);
    assert(table[12] == leaf_spec(Leaf::IniSet).opts[9]);
    assert(table[12].name@ == "user"@);
    assert(table[13] == leaf_spec(Leaf::IniSet).opts[10]);
    assert(table[13].name@ == "pass"@);
    assert(table[14] == leaf_spec(Leaf::IniSet).opts[11]);
    assert(table[14].name@ == "pass-stdin"@);
    reveal_strlit("cred-alias");
    reveal_strlit("db-path");
    reveal_strlit("dry-run");
    reveal_strlit("file");
    reveal_strlit("host");
    reveal_strlit("hosts");
    reveal_strlit("json");
    reveal_strlit("key");
    reveal_strlit("log-level");
    reveal_strlit("pass");
    reveal_strlit("pass-stdin");
    reveal_strlit("section");
    reveal_strlit("user");
    reveal_strlit("value");
    reveal_strlit("yes");
    assert("cred-alias"@.len() == 10);
    assert("cred-alias"@[0] == 'c');
    assert("db-path"@.len() == 7);
    assert("db-path"@[0] == 'd');
    assert("db-path"@[1] == 'b');
    assert("dry-run"@.len() == 7);
    assert("dry-run"@[0] == 'd');
    assert("dry-run"@[1] == 'r');
    assert("file"@.len() == 4);
    assert("file"@[0] == 'f');
    assert("host"@.len() == 4);
    assert("host"@[0] == 'h');
    assert("hosts"@.len() == 5);
    assert("hosts"@[0] == 'h');
    assert("json"@.len() == 4);
    assert("json"@[0] == 'j');
    assert("key"@.len() == 3);
    assert("key"@[0] == 'k');
    assert("log-level"@.len() == 9);
    assert("pass"@.len() == 4);
    assert("pass"@[0] == 'p');
    assert("pass-stdin"@.len() == 10);
    assert("pass-stdin"@[0] == 'p');
    assert("section"@.len() == 7);
    assert("section"@[0] == 's');
    assert("user"@.len() == 4);
    assert("user"@[0] == 'u');
    assert("value"@.len() == 5);
    assert("value"@[0] == 'v');
    assert("yes"@.len() == 3);
    assert("yes"@[0] == 'y');
    assert forall|j: int| 0 <= j < 3 implies (#[trigger] table[j]).name@ != "host"@ by {}
    lemma_find_from_at(table, "host"@, 0, 3);
    assert forall|j: int| 0 <= j < 4 implies (#[trigger] table[j]).name@ != "hosts"@ by {}
    lemma_find_from_at(table, "hosts"@, 0, 4);
    assert forall|j: int| 0 <= j < 5 implies (#[trigger] table[j]).name@ != "file"@ by {}
    lemma_find_from_at(table, "file"@, 0, 5);
    assert forall|j: int| 0 <= j < 6 implies (#[trigger] table[j]).name@ != "section"@ by {}
    lemma_find_from_at(table, "section"@, 0, 6);
    assert forall|j: int| 0 <= j < 7 implies (#[trigger] table[j]).name@ != "key"@ by {}
    lemma_find_from_at(table, "key"@, 0, 7);
    assert forall|j: int| 0 <= j < 8 implies (#[trigger] table[j]).name@ != "value"@ by {}
    lemma_find_from_at(table, "value"@, 0, 8);
    assert forall|j: int| 0 <= j < 9 implies (#[trigger] table[j]).name@ != "yes"@ by {}
    lemma_find_from_at(table, "yes"@, 0, 9);
    assert forall|j: int| 0 <= j < 10 implies (#[trigger] table[j]).name@ != "dry-run"@ by {}
    lemma_find_from_at(table, "dry-run"@, 0, 10);
    assert forall|j: int| 0 <= j < 11 implies (#[trigger] table[j]).name@ != "cred-alias"@ by {}
    lemma_find_from_at(table, "cred-alias"@, 0, 11);
    assert forall|j: int| 0 <= j < 12 implies (#[trigger] table[j]).name@ != "user"@ by {}
    lemma_find_from_at(table, "user"@, 0, 12);
    assert forall|j: int| 0 <= j < 13 implies (#[trigger] table[j]).name@ != "pass"@ by {}
    lemma_find_from_at(table, "pass"@, 0, 13);
    assert forall|j: int| 0 <= j < 14 implies (#[trigger] table[j]).name@ != "pass-stdin"@ by {}
    lemma_find_from_at(table, "pass-stdin"@, 0, 14);
}

/// `ini remove`: every field of the parsed command is the value of the option
/// or positional of its name (a switch field: whether `--name` was given).
pub proof fn lemma_ini_remove_by_name(argv: Seq<Seq<char>>, cli: Cli, st: ScanV)
    requires
        parse_spec(argv) == Ok::<(Leaf, ScanV), UsageErrorV>((Leaf::IniRemove, st)),
        cli_fits(cli, Leaf::IniRemove, st),
    ensures
        ({
            &&& cli.command matches Domain::Ini { action: IniAction::Remove { target: f_target, file: f_file, section: f_section, key: f_key, yes: f_yes, dry_run: f_dry_run, cred: f_cred } }
            &&& host_named(f_target, Leaf::IniRemove, st)
            &&& f_file@ == text_named(Leaf::IniRemove, st, "file"@, ""@)
            &&& f_section@ == text_named(Leaf::IniRemove, st, "section"@, ""@)
            &&& f_key@ == text_named(Leaf::IniRemove, st, "key"@, ""@)
            &&& f_yes == flag_named(Leaf::IniRemove, st, "yes"@)
            &&& f_dry_run == flag_named(Leaf::IniRemove, st, "dry-run"@)
            &&& cred_named(f_cred, Leaf::IniRemove, st)
        }),
{
    let table = globals() + leaf_spec(Leaf::IniRemove).opts;
    assert(globals().len() == 3);
    assert(leaf_spec(Leaf::IniRemove).opts.len() == 11);
    assert(table[0] == globals()[0]);
    assert(table[0].name@ == "json"@);
    assert(table[1] == globals()[1]);
    assert(table[1].name@ == "db-path"@);
    assert(table[2] == globals()[2]);
    assert(table[2].name@ == "log-level"@);
    assert(table[3] == leaf_spec(Leaf::IniRemove).opts[0]);
    assert(table[3].name@ == "host"@);
    assert(table[4] == leaf_spec(Leaf::IniRemove).opts[1]);
    assert(table[4].name@ == "hosts"@);
    assert(table[5] == leaf_spec(Leaf::IniRemove).opts[2]);
    assert(table[5].name@ == "file"@);
    assert(table[6] == leaf_spec(Leaf::IniRemove).opts[3]);
    assert(table[6].name@ == "section"@);
    assert(table[7] == leaf_spec(Leaf::IniRemove).opts[4]);
    assert(table[7].name@ == "key"@);
    assert(table[8] == leaf_spec(Leaf::IniRemove).opts[5]);
    assert(table[8].name@ == "yes"@);
    assert(table[9] == leaf_spec(Leaf::IniRemove).opts[6]);
    assert(table[9].name@ == "dry-run"@);
    assert(table[10] == leaf_spec(Leaf::IniRemove).opts[7]);
    assert(table[10].name@ == "cred-alias"@);
    assert(table[11] == leaf_spec(Leaf::IniRemove).opts[8]);
    assert(table[11].name@ == "user"@);
    assert(table[12] == leaf_spec(Leaf::IniRemove).opts[9]);
    assert(table[12].name@ == "pass"@);
    assert(table[13] == leaf_spec(Leaf::IniRemove).opts[10]);
    assert(table[13].name@ == "pass-stdin"@);
    reveal_strlit("cred-alias");
    reveal_strlit("db-path");
    reveal_strlit("dry-run");
    reveal_strlit("file");
    reveal_strlit("host");
    reveal_strlit("hosts");
    reveal_strlit("json");
    reveal_strlit("key");
    reveal_strlit("log-level");
    reveal_strlit("pass");
    reveal_strlit("pass-stdin");
    reveal_strlit("section");
    reveal_strlit("user");
    reveal_strlit("yes");
    assert("cred-alias"@.len() == 10);
    assert("cred-alias"@[0] == 'c');
    assert("db-path"@.len() == 7);
    assert("db-path"@[0] == 'd');
    assert("db-path"@[1] == 'b');
    assert("dry-run"@.len() == 7);
    assert("dry-run"@[0] == 'd');
    assert("dry-run"@[1] == 'r');
    assert("file"@.len() == 4);
    assert("file"@[0] == 'f');
    assert("host"@.len() == 4);
    assert("host"@[0] == 'h');
    assert("hosts"@.len() == 5);
    assert("json"@.len() == 4);
    assert("json"@[0] == 'j');
    assert("key"@.len() == 3);
    assert("key"@[0] == 'k');
    assert("log-level"@.len() == 9);
    assert("pass"@.len() == 4);
    assert("pass"@[0] == 'p');
    assert("pass-stdin"@.len() == 10);
    assert("pass-stdin"@[0] == 'p');
    assert("section"@.len() == 7);
    assert("section"@[0] == 's');
    assert("user"@.len() == 4);
    assert("user"@[0] == 'u');
    assert("yes"@.len() == 3);
    assert("yes"@[0] == 'y');
    assert forall|j: int| 0 <= j < 3 implies (#[trigger] table[j]).name@ != "host"@ by {}
    lemma_find_from_at(table, "host"@, 0, 3);
    assert forall|j: int| 0 <= j < 4 implies (#[trigger] table[j]).name@ != "hosts"@ by {}
    lemma_find_from_at(table, "hosts"@, 0, 4);
    assert forall|j: int| 0 <= j < 5 implies (#[trigger] table[j]).name@ != "file"@ by {}
    lemma_find_from_at(table, "file"@, 0, 5);
    assert forall|j: int| 0 <= j < 6 implies (#[trigger] table[j]).name@ != "section"@ by {}
    lemma_find_from_at(table, "section"@, 0, 6);
    assert forall|j: int| 0 <= j < 7 implies (#[trigger] table[j]).name@ != "key"@ by {}
    lemma_find_from_at(table, "key"@, 0, 7);
    assert forall|j: int| 0 <= j < 8 implies (#[trigger] table[j]).name@ != "yes"@ by {}
    lemma_find_from_at(table, "yes"@, 0, 8);
    assert forall|j: int| 0 <= j < 9 implies (#[trigger] table[j]).name@ != "dry-run"@ by {}
    lemma_find_from_at(table, "dry-run"@, 0, 9);
    assert forall|j: int| 0 <= j < 10 implies (#[trigger] table[j]).name@ != "cred-alias"@ by {}
    lemma_find_from_at(table, "cred-alias"@, 0, 10);
    assert forall|j: int| 0 <= j < 11 implies (#[trigger] table[j]).name@ != "user"@ by {}
    lemma_find_from_at(table, "user"@, 0, 11);
    assert forall|j: int| 0 <= j < 12 implies (#[trigger] table[j]).name@ != "pass"@ by {}
    lemma_find_from_at(table, "pass"@, 0, 12);
    assert forall|j: int| 0 <= j < 13 implies (#[trigger] table[j]).name@ != "pass-stdin"@ by {}
    lemma_find_from_at(table, "pass-stdin"@, 0, 13);
}

/// `ini scan`: every field of the parsed command is the value of the option
/// or positional of its name (a switch field: whether `--name` was given).
pub proof fn lemma_ini_scan_by_name(argv: Seq<Seq<char>>, cli: Cli, st: ScanV)
    requires
        parse_spec(argv) == Ok::<(Leaf, ScanV), UsageErrorV>((Leaf::IniScan, st)),
        cli_fits(cli, Leaf::IniScan, st),
    ensures
        ({
            &&& cli.command matches Domain::Ini { action: IniAction::Scan { machine_ids: f_machine_ids, cred: f_cred } }
            &&& f_machine_ids@.map_values(|x: i64| x as int) == ints_named(Leaf::IniScan, st, "machine-ids"@)
            &&& cred_named(f_cred, Leaf::IniScan, st)
        }),
{
    let table = globals() + leaf_spec(Leaf::IniScan).opts;
    assert(globals().len() == 3);
    assert(leaf_spec(Leaf::IniScan).opts.len() == 5);
    assert(table[0] == globals()[0]);
    assert(table[0].name@ == "json"@);
    assert(table[1] == globals()[1]);
    assert(table[1].name@ == "db-path"@);
    assert(table[2] == globals()[2]);
    assert(table[2].name@ == "log-level"@);
    assert(table[3] == leaf_spec(Leaf::IniScan).opts[0]);
    assert(table[3].name@ == "machine-ids"@);
    assert(table[4] == leaf_spec(Leaf::IniScan).opts[1]);
    assert(table[4].name@ == "cred-alias"@);
    assert(table[5] == leaf_spec(Leaf::IniScan).opts[2]);
    assert(table[5].name@ == "user"@);
    assert(table[6] == leaf_spec(Leaf::IniScan).opts[3]);
    assert(table[6].name@ == "pass"@);
    assert(table[7] == leaf_spec(Leaf::IniScan).opts[4]);
    assert(table[7].name@ == "pass-stdin"@);
    reveal_strlit("cred-alias");
    reveal_strlit("db-path");
    reveal_strlit("json");
    reveal_strlit("log-level");
    reveal_strlit("machine-ids");
    reveal_strlit("pass");
    reveal_strlit("pass-stdin");
    reveal_strlit("user");
    assert("cred-alias"@.len() == 10);
    assert("cred-alias"@[0] == 'c');
    assert("db-path"@.len() == 7);
    assert("json"@.len() == 4);
    assert("json"@[0] == 'j');
    assert("log-level"@.len() == 9);
    assert("machine-ids"@.len() == 11);
    assert("pass"@.len() == 4);
    assert("pass"@[0] == 'p');
    assert("pass-stdin"@.len() == 10);
    assert("pass-stdin"@[0] == 'p');
    assert("user"@.len() == 4);
    assert("user"@[0] == 'u');
    assert forall|j: int| 0 <= j < 3 implies (#[trigger] table[j]).name@ != "machine-ids"@ by {}
    lemma_find_from_at(table, "machine-ids"@, 0, 3);
    assert forall|j: int| 0 <= j < 4 implies (#[trigger] table[j]).name@ != "cred-alias"@ by {}
    lemma_find_from_at(table, "cred-alias"@, 0, 4);
    assert forall|j: int| 0 <= j < 5 implies (#[trigger] table[j]).name@ != "user"@ by {}
    lemma_find_from_at(table, "user"@, 0, 5);
    assert forall|j: int| 0 <= j < 6 implies (#[trigger] table[j]).name@ != "pass"@ by {}
    lemma_find_from_at(table, "pass"@, 0, 6);
    assert forall|j: int| 0 <= j < 7 implies (#[trigger] table[j]).name@ != "pass-stdin"@ by {}
    lemma_find_from_at(table, "pass-stdin"@, 0, 7);
}

/// `ini runs`: every field of the parsed command is the value of the option
/// or positional of its name (a switch field: whether `--name` was given).
pub proof fn lemma_ini_runs_by_name(argv: Seq<Seq<char>>, cli: Cli, st: ScanV)
    requires
        parse_spec(argv) == Ok::<(Leaf, ScanV), UsageErrorV>((Leaf::IniRuns, st)),
        cli_fits(cli, Leaf::IniRuns, st),
    ensures
        ({
            &&& cli.command matches Domain::Ini { action: IniAction::Runs { limit: f_limit } }
            &&& f_limit as int == int_named(Leaf::IniRuns, st, "limit"@, 10)
        }),
{
    let table = globals() + leaf_spec(Leaf::IniRuns).opts;
    assert(globals().len() == 3);
    assert(leaf_spec(Leaf::IniRuns).opts.len() == 1);
    assert(table[0] == globals()[0]);
    assert(table[0].name@ == "json"@);
    assert(table[1] == globals()[1]);
    assert(table[1].name@ == "db-path"@);
    assert(table[2] == globals()[2]);
    assert(table[2].name@ == "log-level"@);
    assert(table[3] == leaf_spec(Leaf::IniRuns).opts[0]);
    assert(table[3].name@ == "limit"@);
    reveal_strlit("db-path");
    reveal_strlit("json");
    reveal_strlit("limit");
    reveal_strlit("log-level");
    assert("db-path"@.len() == 7);
    assert("json"@.len() == 4);
    assert("limit"@.len() == 5);
    assert("log-level"@.len() == 9);
    assert forall|j: int| 0 <= j < 3 implies (#[trigger] table[j]).name@ != "limit"@ by {}
    lemma_find_from_at(table, "limit"@, 0, 3);
}

/// `ini findings`: every field of the parsed command is the value of the option
/// or positional of its name (a switch field: whether `--name` was given).
pub proof fn lemma_ini_findings_by_name(argv: Seq<Seq<char>>, cli: Cli, st: ScanV)
    requires
        parse_spec(argv) == Ok::<(Leaf, ScanV), UsageErrorV>((Leaf::IniFindings, st)),
        cli_fits(cli, Leaf::IniFindings, st),
    ensures
        ({
            &&& cli.command matches Domain::Ini { action: IniAction::Findings { scan_run_id: f_scan_run_id, severity: f_severity } }
            &&& f_scan_run_id as int == pos_int_named(Leaf::IniFindings, st, "scan_run_id"@)
            &&& f_severity.deep_view() == opt_text_named(Leaf::IniFindings, st, "severity"@)
        }),
{
    let table = globals() + leaf_spec(Leaf::IniFindings).opts;
    assert(globals().len() == 3);
    assert(leaf_spec(Leaf::IniFindings).opts.len() == 1);
    assert(table[0] == globals()[0]);
    assert(table[0].name@ == "json"@);
    assert(table[1] == globals()[1]);
    assert(table[1].name@ == "db-path"@);
    assert(table[2] == globals()[2]);
    assert(table[2].name@ == "log-level"@);
    assert(table[3] == leaf_spec(Leaf::IniFindings).opts[0]);
    assert(table[3].name@ == "severity"@);
    assert(leaf_spec(Leaf::IniFindings).pos.len() == 1);
    assert(leaf_spec(Leaf::IniFindings).pos[0].name@ == "scan_run_id"@);
    reveal_strlit("db-path");
    reveal_strlit("json");
    reveal_strlit("log-level");
    reveal_strlit("scan_run_id");
    reveal_strlit("severity");
    assert("db-path"@.len() == 7);
    assert("json"@.len() == 4);
    assert("log-level"@.len() == 9);
    assert("severity"@.len() == 8);
    assert forall|j: int| 0 <= j < 3 implies (#[trigger] table[j]).name@ != "severity"@ by {}
    lemma_find_from_at(table, "severity"@, 0, 3);
    assert forall|j: int| 0 <= j < 0 implies (#[trigger] leaf_spec(Leaf::IniFindings).pos[j]).name@ != "scan_run_id"@ by {}
    lemma_pos_at(leaf_spec(Leaf::IniFindings).pos, "scan_run_id"@, 0, 0);
}

/// `ini get-finding`: every field of the parsed command is the value of the option
/// or positional of its name (a switch field: whether `--name` was given).
pub proof fn lemma_ini_get_finding_by_name(argv: Seq<Seq<char>>, cli: Cli, st: ScanV)
    requires
        parse_spec(argv) == Ok::<(Leaf, ScanV), UsageErrorV>((Leaf::IniGetFinding, st)),
        cli_fits(cli, Leaf::IniGetFinding, st),
    ensures
        ({
            &&& cli.command matches Domain::Ini { action: IniAction::GetFinding { finding_id: f_finding_id } }
            &&& f_finding_id as int == pos_int_named(Leaf::IniGetFinding, st, "finding_id"@)
        }),
{
    let table = globals() + leaf_spec(Leaf::IniGetFinding).opts;
    assert(leaf_spec(Leaf::IniGetFinding).pos.len() == 1);
    assert(leaf_spec(Leaf::IniGetFinding).pos[0].name@ == "finding_id"@);
    reveal_strlit("db-path");
    reveal_strlit("finding_id");
    reveal_strlit("json");
    reveal_strlit("log-level");
    assert forall|j: int| 0 <= j < 0 implies (#[trigger] leaf_spec(Leaf::IniGetFinding).pos[j]).name@ != "finding_id"@ by {}
    lemma_pos_at(leaf_spec(Leaf::IniGetFinding).pos, "finding_id"@, 0, 0);
}

/// `ini apply`: every field of the parsed command is the value of the option
/// or positional of its name (a switch field: whether `--name` was given).
pub proof fn lemma_ini_apply_by_name(argv: Seq<Seq<char>>, cli: Cli, st: ScanV)
    requires
        parse_spec(argv) == Ok::<(Leaf, ScanV), UsageErrorV>((Leaf::IniApply, st)),
        cli_fits(cli, Leaf::IniApply, st),
    ensures
        ({
            &&& cli.command matches Domain::Ini { action: IniAction::Apply { finding_id: f_finding_id, yes: f_yes, dry_run: f_dry_run, cred: f_cred } }
            &&& f_finding_id as int == pos_int_named(Leaf::IniApply, st, "finding_id"@)
            &&& f_yes == flag_named(Leaf::IniApply, st, "yes"@)
            &&& f_dry_run == flag_named(Leaf::IniApply, st, "dry-run"@)
            &&& cred_named(f_cred, Leaf::IniApply, st)
        }),
{
    let table = globals() + leaf_spec(Leaf::IniApply).opts;
    assert(globals().len() == 3);
    assert(leaf_spec(Leaf::IniApply).opts.len() == 6);
    assert(table[0] == globals()[0]);
    assert(table[0].name@ == "json"@);
    assert(table[1] == globals()[1]);
    assert(table[1].name@ == "db-path"@);
    assert(table[2] == globals()[2]);
    assert(table[2].name@ == "log-level"@);
    assert(table[3] == leaf_spec(Leaf::IniApply).opts[0]);
    assert(table[3].name@ == "yes"@);
    assert(table[4] == leaf_spec(Leaf::IniApply).opts[1]);
    assert(table[4].name@ == "dry-run"@);
    assert(table[5] == leaf_spec(Leaf::IniApply).opts[2]);
    assert(table[5].name@ == "cred-alias"@);
    assert(table[6] == leaf_spec(Leaf::IniApply).opts[3]);
    assert(table[6].name@ == "user"@);
    assert(table[7] == leaf_spec(Leaf::IniApply).opts[4]);
    assert(table[7].name@ == "pass"@);
    assert(table[8] == leaf_spec(Leaf::IniApply).opts[5]);
    assert(table[8].name@ == "pass-stdin"@);
    assert(leaf_spec(Leaf::IniApply).pos.len() == 1);
    assert(leaf_spec(Leaf::IniApply).pos[0].name@ == "finding_id"@);
    reveal_strlit("cred-alias");
    reveal_strlit("db-path");
    reveal_strlit("dry-run");
    reveal_strlit("finding_id");
    reveal_strlit("json");
    reveal_strlit("log-level");
    reveal_strlit("pass");
    reveal_strlit("pass-stdin");
    reveal_strlit("user");
    reveal_strlit("yes");
    assert("cred-alias"@.len() == 10);
    assert("cred-alias"@[0] == 'c');
    assert("db-path"@.len() == 7);
    assert("db-path"@[1] == 'b');
    assert("dry-run"@.len() == 7);
    assert("dry-run"@[1] == 'r');
    assert("json"@.len() == 4);
    assert("json"@[0] == 'j');
    assert("log-level"@.len() == 9);
    assert("pass"@.len() == 4);
    assert("pass"@[0] == 'p');
    assert("pass-stdin"@.len() == 10);
    assert("pass-stdin"@[0] == 'p');
    assert("user"@.len() == 4);
    assert("user"@[0] == 'u');
    assert("yes"@.len() == 3);
    assert forall|j: int| 0 <= j < 3 implies (#[trigger] table[j]).name@ != "yes"@ by {}
    lemma_find_from_at(table, "yes"@, 0, 3);
    assert forall|j: int| 0 <= j < 4 implies (#[trigger] table[j]).name@ != "dry-run"@ by {}
    lemma_find_from_at(table, "dry-run"@, 0, 4);
    assert forall|j: int| 0 <= j < 5 implies (#[trigger] table[j]).name@ != "cred-alias"@ by {}
    lemma_find_from_at(table, "cred-alias"@, 0, 5);
    assert forall|j: int| 0 <= j < 6 implies (#[trigger] table[j]).name@ != "user"@ by {}
    lemma_find_from_at(table, "user"@, 0, 6);
    assert forall|j: int| 0 <= j < 7 implies (#[trigger] table[j]).name@ != "pass"@ by {}
    lemma_find_from_at(table, "pass"@, 0, 7);
    assert forall|j: int| 0 <= j < 8 implies (#[trigger] table[j]).name@ != "pass-stdin"@ by {}
    lemma_find_from_at(table, "pass-stdin"@, 0, 8);
    assert forall|j: int| 0 <= j < 0 implies (#[trigger] leaf_spec(Leaf::IniApply).pos[j]).name@ != "finding_id"@ by {}
    lemma_pos_at(leaf_spec(Leaf::IniApply).pos, "finding_id"@, 0, 0);
}

/// `ini skip`: every field of the parsed command is the value of the option
/// or positional of its name (a switch field: whether `--name` was given).
pub proof fn lemma_ini_skip_by_name(argv: Seq<Seq<char>>, cli: Cli, st: ScanV)
    requires
        parse_spec(argv) == Ok::<(Leaf, ScanV), UsageErrorV>((Leaf::IniSkip, st)),
        cli_fits(cli, Leaf::IniSkip, st),
    ensures
        ({
            &&& cli.command matches Domain::Ini { action: IniAction::Skip { finding_id: f_finding_id } }
            &&& f_finding_id as int == pos_int_named(Leaf::IniSkip, st, "finding_id"@)
        }),
{
    let table = globals() + leaf_spec(Leaf::IniSkip).opts;
    assert(leaf_spec(Leaf::IniSkip).pos.len() == 1);
    assert(leaf_spec(Leaf::IniSkip).pos[0].name@ == "finding_id"@);
    reveal_strlit("db-path");
    reveal_strlit("finding_id");
    reveal_strlit("json");
    reveal_strlit("log-level");
    assert forall|j: int| 0 <= j < 0 implies (#[trigger] leaf_spec(Leaf::IniSkip).pos[j]).name@ != "finding_id"@ by {}
    lemma_pos_at(leaf_spec(Leaf::IniSkip).pos, "finding_id"@, 0, 0);
}

/// `ini verify-pso-precaching`: every field of the parsed command is the value of the option
/// or positional of its name (a switch field: whether `--name` was given).
pub proof fn lemma_ini_verify_pso_precaching_by_name(argv: Seq<Seq<char>>, cli: Cli, st: ScanV)
    requires
        parse_spec(argv) == Ok::<(Leaf, ScanV), UsageErrorV>((Leaf::IniVerifyPsoPrecaching, st)),
        cli_fits(cli, Leaf::IniVerifyPsoPrecaching, st),
    ensures
        ({
            &&& cli.command matches Domain::Ini { action: IniAction::VerifyPsoPrecaching { project_id: f_project_id } }
            &&& f_project_id as int == int_named(Leaf::IniVerifyPsoPrecaching, st, "project-id"@, 0)
        }),
{
    let table = globals() + leaf_spec(Leaf::IniVerifyPsoPrecaching).opts;
    assert(globals().len() == 3);
    assert(leaf_spec(Leaf::IniVerifyPsoPrecaching).opts.len() == 1);
    assert(table[0] == globals()[0]);
    assert(table[0].name@ == "json"@);
    assert(table[1] == globals()[1]);
    assert(table[1].name@ == "db-path"@);
    assert(table[2] == globals()[2]);
    assert(table[2].name@ == "log-level"@);
    assert(table[3] == leaf_spec(Leaf::IniVerifyPsoPrecaching).opts[0]);
    assert(table[3].name@ == "project-id"@);
    reveal_strlit("db-path");
    reveal_strlit("json");
    reveal_strlit("log-level");
    reveal_strlit("project-id");
    assert("db-path"@.len() == 7);
    assert("json"@.len() == 4);
    assert("log-level"@.len() == 9);
    assert("project-id"@.len() == 10);
    assert forall|j: int| 0 <= j < 3 implies (#[trigger] table[j]).name@ != "project-id"@ by {}
    lemma_find_from_at(table, "project-id"@, 0, 3);
}

/// `share forget`: every field of the parsed command is the value of the option
/// or positional of its name (a switch field: whether `--name` was given).
pub proof fn lemma_share_forget_by_name(argv: Seq<Seq<char>>, cli: Cli, st: ScanV)
    requires
        parse_spec(argv) == Ok::<(Leaf, ScanV), UsageErrorV>((Leaf::ShareForget, st)),
        cli_fits(cli, Leaf::ShareForget, st),
    ensures
        ({
            &&& cli.command matches Domain::Share { action: ShareAction::Forget { id: f_id, yes: f_yes, dry_run: f_dry_run } }
            &&& f_id as int == pos_int_named(Leaf::ShareForget, st, "id"@)
            &&& f_yes == flag_named(Leaf::ShareForget, st, "yes"@)
            &&& f_dry_run == flag_named(Leaf::ShareForget, st, "dry-run"@)
        }),
{
    let table = globals() + leaf_spec(Leaf::ShareForget).opts;
    assert(globals().len() == 3);
    assert(leaf_spec(Leaf::ShareForget).opts.len() == 2);
    assert(table[0] == globals()[0]);
    assert(table[0].name@ == "json"@);
    assert(table[1] == globals()[1]);
    assert(table[1].name@ == "db-path"@);
    assert(table[2] == globals()[2]);
    assert(table[2].name@ == "log-level"@);
    assert(table[3] == leaf_spec(Leaf::ShareForget).opts[0]);
    assert(table[3].name@ == "yes"@);
    assert(table[4] == leaf_spec(Leaf::ShareForget).opts[1]);
    assert(table[4].name@ == "dry-run"@);
    assert(leaf_spec(Leaf::ShareForget).pos.len() == 1);
    assert(leaf_spec(Leaf::ShareForget).pos[0].name@ == "id"@);
    reveal_strlit("db-path");
    reveal_strlit("dry-run");
    reveal_strlit("id");
    reveal_strlit("json");
    reveal_strlit("log-level");
    reveal_strlit("yes");
    assert("db-path"@.len() == 7);
    assert("db-path"@[1] == 'b');
    assert("dry-run"@.len() == 7);
    assert("dry-run"@[1] == 'r');
    assert("json"@.len() == 4);
    assert("log-level"@.len() == 9);
    assert("yes"@.len() == 3);
    assert forall|j: int| 0 <= j < 3 implies (#[trigger] table[j]).name@ != "yes"@ by {}
    lemma_find_from_at(table, "yes"@, 0, 3);
    assert forall|j: int| 0 <= j < 4 implies (#[trigger] table[j]).name@ != "dry-run"@ by {}
    lemma_find_from_at(table, "dry-run"@, 0, 4);
    assert forall|j: int| 0 <= j < 0 implies (#[trigger] leaf_spec(Leaf::ShareForget).pos[j]).name@ != "id"@ by {}
    lemma_pos_at(leaf_spec(Leaf::ShareForget).pos, "id"@, 0, 0);
}

/// `share create`: every field of the parsed command is the value of the option
/// or positional of its name (a switch field: whether `--name` was given).
pub proof fn lemma_share_create_by_name(argv: Seq<Seq<char>>, cli: Cli, st: ScanV)
    requires
        parse_spec(argv) == Ok::<(Leaf, ScanV), UsageErrorV>((Leaf::ShareCreate, st)),
        cli_fits(cli, Leaf::ShareCreate, st),
    ensures
        ({
            &&& cli.command matches Domain::Share { action: ShareAction::Create { mode: f_mode, host: f_host, share: f_share, local_path: f_local_path, yes: f_yes, dry_run: f_dry_run, cred: f_cred } }
            &&& f_mode@ == text_named(Leaf::ShareCreate, st, "mode"@, ""@)
            &&& f_host@ == text_named(Leaf::ShareCreate, st, "host"@, ""@)
            &&& f_share@ == text_named(Leaf::ShareCreate, st, "share"@, ""@)
            &&& f_local_path@ == text_named(Leaf::ShareCreate, st, "local-path"@, ""@)
            &&& f_yes == flag_named(Leaf::ShareCreate, st, "yes"@)
            &&& f_dry_run == flag_named(Leaf::ShareCreate, st, "dry-run"@)
            &&& cred_named(f_cred, Leaf::ShareCreate, st)
        }),
{
    let table = globals() + leaf_spec(Leaf::ShareCreate).opts;
    assert(globals().len() == 3);
    assert(leaf_spec(Leaf::ShareCreate).opts.len() == 10);
    assert(table[0] == globals()[0]);
    assert(table[0].name@ == "json"@);
    assert(table[1] == globals()[1]);
    assert(table[1].name@ == "db-path"@);
    assert(table[2] == globals()[2]);
    assert(table[2].name@ == "log-level"@);
    assert(table[3] == leaf_spec(Leaf::ShareCreate).opts[0]);
    assert(table[3].name@ == "mode"@);
    assert(table[4] == leaf_spec(Leaf::ShareCreate).opts[1]);
    assert(table[4].name@ == "host"@);
    assert(table[5] == leaf_spec(Leaf::ShareCreate).opts[2]);
    assert(table[5].name@ == "share"@);
    assert(table[6] == leaf_spec(Leaf::ShareCreate).opts[3]);
    assert(table[6].name@ == "local-path"@);
    assert(table[7] == leaf_spec(Leaf::ShareCreate).opts[4]);
    assert(table[7].name@ == "yes"@);
    assert(table[8] == leaf_spec(Leaf::ShareCreate).opts[5]);
    assert(table[8].name@ == "dry-run"@);
    assert(table[9] == leaf_spec(Leaf::ShareCreate).opts[6]);
    assert(table[9].name@ == "cred-alias"@);
    assert(table[10] == leaf_spec(Leaf::ShareCreate).opts[7]);
    assert(table[10].name@ == "user"@);
    assert(table[11] == leaf_spec(Leaf::ShareCreate).opts[8]);
    assert(table[11].name@ == "pass"@);
    assert(table[12] == leaf_spec(Leaf::ShareCreate).opts[9]);
    assert(table[12].name@ == "pass-stdin"@);
    reveal_strlit("cred-alias");
    reveal_strlit("db-path");
    reveal_strlit("dry-run");
    reveal_strlit("host");
    reveal_strlit("json");
    reveal_strlit("local-path");
    reveal_strlit("log-level");
    reveal_strlit("mode");
    reveal_strlit("pass");
    reveal_strlit("pass-stdin");
    reveal_strlit("share");
    reveal_strlit("user");
    reveal_strlit("yes");
    assert("cred-alias"@.len() == 10);
    assert("cred-alias"@[0] == 'c');
    assert("db-path"@.len() == 7);
    assert("db-path"@[1] == 'b');
    assert("dry-run"@.len() == 7);
    assert("dry-run"@[1] == 'r');
    assert("host"@.len() == 4);
    assert("host"@[0] == 'h');
    assert("json"@.len() == 4);
    assert("json"@[0] == 'j');
    assert("local-path"@.len() == 10);
    assert("local-path"@[0] == 'l');
    assert("log-level"@.len() == 9);
    assert("mode"@.len() == 4);
    assert("mode"@[0] == 'm');
    assert("pass"@.len() == 4);
    assert("pass"@[0] == 'p');
    assert("pass-stdin"@.len() == 10);
    assert("pass-stdin"@[0] == 'p');
    assert("share"@.len() == 5);
    assert("user"@.len() == 4);
    assert("user"@[0] == 'u');
    assert("yes"@.len() == 3);
    assert forall|j: int| 0 <= j < 3 implies (#[trigger] table[j]).name@ != "mode"@ by {}
    lemma_find_from_at(table, "mode"@, 0, 3);
    assert forall|j: int| 0 <= j < 4 implies (#[trigger] table[j]).name@ != "host"@ by {}
    lemma_find_from_at(table, "host"@, 0, 4);
    assert forall|j: int| 0 <= j < 5 implies (#[trigger] table[j]).name@ != "share"@ by {}
    lemma_find_from_at(table, "share"@, 0, 5);
    assert forall|j: int| 0 <= j < 6 implies (#[trigger] table[j]).name@ != "local-path"@ by {}
    lemma_find_from_at(table, "local-path"@, 0, 6);
    assert forall|j: int| 0 <= j < 7 implies (#[trigger] table[j]).name@ != "yes"@ by {}
    lemma_find_from_at(table, "yes"@, 0, 7);
    assert forall|j: int| 0 <= j < 8 implies (#[trigger] table[j]).name@ != "dry-run"@ by {}
    lemma_find_from_at(table, "dry-run"@, 0, 8);
    assert forall|j: int| 0 <= j < 9 implies (#[trigger] table[j]).name@ != "cred-alias"@ by {}
    lemma_find_from_at(table, "cred-alias"@, 0, 9);
    assert forall|j: int| 0 <= j < 10 implies (#[trigger] table[j]).name@ != "user"@ by {}
    lemma_find_from_at(table, "user"@, 0, 10);
    assert forall|j: int| 0 <= j < 11 implies (#[trigger] table[j]).name@ != "pass"@ by {}
    lemma_find_from_at(table, "pass"@, 0, 11);
    assert forall|j: int| 0 <= j < 12 implies (#[trigger] table[j]).name@ != "pass-stdin"@ by {}
    lemma_find_from_at(table, "pass-stdin"@, 0, 12);
}

/// `share inject-system-cred`: every field of the parsed command is the value of the option
/// or positional of its name (a switch field: whether `--name` was given).
pub proof fn lemma_share_inject_system_cred_by_name(argv: Seq<Seq<char>>, cli: Cli, st: ScanV)
    requires
        parse_spec(argv) == Ok::<(Leaf, ScanV), UsageErrorV>((Leaf::ShareInjectSystemCred, st)),
        cli_fits(cli, Leaf::ShareInjectSystemCred, st),
    ensures
        ({
            &&& cli.command matches Domain::Share { action: ShareAction::InjectSystemCred { client_host: f_client_host, target_host: f_target_host, svc_user: f_svc_user, yes: f_yes, dry_run: f_dry_run, cred: f_cred } }
            &&& f_client_host@ == text_named(Leaf::ShareInjectSystemCred, st, "client-host"@, ""@)
            &&& f_target_host@ == text_named(Leaf::ShareInjectSystemCred, st, "target-host"@, ""@)
            &&& f_svc_user@ == text_named(Leaf::ShareInjectSystemCred, st, "svc-user"@, "ddc-svc"@)
            &&& f_yes == flag_named(Leaf::ShareInjectSystemCred, st, "yes"@)
            &&& f_dry_run == flag_named(Leaf::ShareInjectSystemCred, st, "dry-run"@)
            &&& cred_named(f_cred, Leaf::ShareInjectSystemCred, st)
        }),
{
    let table = globals() + leaf_spec(Leaf::ShareInjectSystemCred).opts;
    assert(globals().len() == 3);
    assert(leaf_spec(Leaf::ShareInjectSystemCred).opts.len() == 9);
    assert(table[0] == globals()[0]);
    assert(table[0].name@ == "json"@);
    assert(table[1] == globals()[1]);
    assert(table[1].name@ == "db-path"@);
    assert(table[2] == globals()[2]);
    assert(table[2].name@ == "log-level"@);
    assert(table[3] == leaf_spec(Leaf::ShareInjectSystemCred).opts[0]);
    assert(table[3].name@ == "client-host"@);
    assert(table[4] == leaf_spec(Leaf::ShareInjectSystemCred).opts[1]);
    assert(table[4].name@ == "target-host"@);
    assert(table[5] == leaf_spec(Leaf::ShareInjectSystemCred).opts[2]);
    assert(table[5].name@ == "svc-user"@);
    assert(table[6] == leaf_spec(Leaf::ShareInjectSystemCred).opts[3]);
    assert(table[6].name@ == "yes"@);
    assert(table[7] == leaf_spec(Leaf::ShareInjectSystemCred).opts[4]);
    assert(table[7].name@ == "dry-run"@);
    assert(table[8] == leaf_spec(Leaf::ShareInjectSystemCred).opts[5]);
    assert(table[8].name@ == "cred-alias"@);
    assert(table[9] == leaf_spec(Leaf::ShareInjectSystemCred).opts[6]);
    assert(table[9].name@ == "user"@);
    assert(table[10] == leaf_spec(Leaf::ShareInjectSystemCred).opts[7]);
    assert(table[10].name@ == "pass"@);
    assert(table[11] == leaf_spec(Leaf::ShareInjectSystemCred).opts[8]);
    assert(table[11].name@ == "pass-stdin"@);
    reveal_strlit("client-host");
    reveal_strlit("cred-alias");
    reveal_strlit("db-path");
    reveal_strlit("dry-run");
    reveal_strlit("json");
    reveal_strlit("log-level");
    reveal_strlit("pass");
    reveal_strlit("pass-stdin");
    reveal_strlit("svc-user");
    reveal_strlit("target-host");
    reveal_strlit("user");
    reveal_strlit("yes");
    assert("client-host"@.len() == 11);
    assert("client-host"@[0] == 'c');
    assert("cred-alias"@.len() == 10);
    assert("cred-alias"@[0] == 'c');
    assert("db-path"@.len() == 7);
    assert("db-path"@[1] == 'b');
    assert("dry-run"@.len() == 7);
    assert("dry-run"@[1] == 'r');
    assert("json"@.len() == 4);
    assert("json"@[0] == 'j');
    assert("log-level"@.len() == 9);
    assert("pass"@.len() == 4);
    assert("pass"@[0] == 'p');
    assert("pass-stdin"@.len() == 10);
    assert("pass-stdin"@[0] == 'p');
    assert("svc-user"@.len() == 8);
    assert("target-host"@.len() == 11);
    assert("target-host"@[0] == 't');
    assert("user"@.len() == 4);
    assert("user"@[0] == 'u');
    assert("yes"@.len() == 3);
    assert forall|j: int| 0 <= j < 3 implies (#[trigger] table[j]).name@ != "client-host"@ by {}
    lemma_find_from_at(table, "client-host"@, 0, 3);
    assert forall|j: int| 0 <= j < 4 implies (#[trigger] table[j]).name@ != "target-host"@ by {}
    lemma_find_from_at(table, "target-host"@, 0, 4);
    assert forall|j: int| 0 <= j < 5 implies (#[trigger] table[j]).name@ != "svc-user"@ by {}
    lemma_find_from_at(table, "svc-user"@, 0, 5);
    assert forall|j: int| 0 <= j < 6 implies (#[trigger] table[j]).name@ != "yes"@ by {}
    lemma_find_from_at(table, "yes"@, 0, 6);
    assert forall|j: int| 0 <= j < 7 implies (#[trigger] table[j]).name@ != "dry-run"@ by {}
    lemma_find_from_at(table, "dry-run"@, 0, 7);
    assert forall|j: int| 0 <= j < 8 implies (#[trigger] table[j]).name@ != "cred-alias"@ by {}
    lemma_find_from_at(table, "cred-alias"@, 0, 8);
    assert forall|j: int| 0 <= j < 9 implies (#[trigger] table[j]).name@ != "user"@ by {}
    lemma_find_from_at(table, "user"@, 0, 9);
    assert forall|j: int| 0 <= j < 10 implies (#[trigger] table[j]).name@ != "pass"@ by {}
    lemma_find_from_at(table, "pass"@, 0, 10);
    assert forall|j: int| 0 <= j < 11 implies (#[trigger] table[j]).name@ != "pass-stdin"@ by {}
    lemma_find_from_at(table, "pass-stdin"@, 0, 11);
}

/// `project locations`: every field of the parsed command is the value of the option
/// or positional of its name (a switch field: whether `--name` was given).
pub proof fn lemma_project_locations_by_name(argv: Seq<Seq<char>>, cli: Cli, st: ScanV)
    requires
        parse_spec(argv) == Ok::<(Leaf, ScanV), UsageErrorV>((Leaf::ProjectLocations, st)),
        cli_fits(cli, Leaf::ProjectLocations, st),
    ensures
        ({
            &&& cli.command matches Domain::Project { action: ProjectAction::Locations { project_id: f_project_id } }
            &&& f_project_id as int == pos_int_named(Leaf::ProjectLocations, st, "project_id"@)
        }),
{
    let table = globals() + leaf_spec(Leaf::ProjectLocations).opts;
    assert(leaf_spec(Leaf::ProjectLocations).pos.len() == 1);
    assert(leaf_spec(Leaf::ProjectLocations).pos[0].name@ == "project_id"@);
    reveal_strlit("db-path");
    reveal_strlit("json");
    reveal_strlit("log-level");
    reveal_strlit("project_id");
    assert forall|j: int| 0 <= j < 0 implies (#[trigger] leaf_spec(Leaf::ProjectLocations).pos[j]).name@ != "project_id"@ by {}
    lemma_pos_at(leaf_spec(Leaf::ProjectLocations).pos, "project_id"@, 0, 0);
}

/// `project discover`: every field of the parsed command is the value of the option
/// or positional of its name (a switch field: whether `--name` was given).
pub proof fn lemma_project_discover_by_name(argv: Seq<Seq<char>>, cli: Cli, st: ScanV)
    requires
        parse_spec(argv) == Ok::<(Leaf, ScanV), UsageErrorV>((Leaf::ProjectDiscover, st)),
        cli_fits(cli, Leaf::ProjectDiscover, st),
    ensures
        ({
            &&& cli.command matches Domain::Project { action: ProjectAction::Discover { machine_id: f_machine_id, roots: f_roots, cred: f_cred } }
            &&& f_machine_id as int == int_named(Leaf::ProjectDiscover, st, "machine-id"@, 0)
            &&& f_roots.deep_view() == texts_named(Leaf::ProjectDiscover, st, "roots"@)
            &&& cred_named(f_cred, Leaf::ProjectDiscover, st)
        }),
{
    let table = globals() + leaf_spec(Leaf::ProjectDiscover).opts;
    assert(globals().len() == 3);
    assert(leaf_spec(Leaf::ProjectDiscover).opts.len() == 6);
    assert(table[0] == globals()[0]);
    assert(table[0].name@ == "json"@);
    assert(table[1] == globals()[1]);
    assert(table[1].name@ == "db-path"@);
    assert(table[2] == globals()[2]);
    assert(table[2].name@ == "log-level"@);
    assert(table[3] == leaf_spec(Leaf::ProjectDiscover).opts[0]);
    assert(table[3].name@ == "machine-id"@);
    assert(table[4] == leaf_spec(Leaf::ProjectDiscover).opts[1]);
    assert(table[4].name@ == "roots"@);
    assert(table[5] == leaf_spec(Leaf::ProjectDiscover).opts[2]);
    assert(table[5].name@ == "cred-alias"@);
    assert(table[6] == leaf_spec(Leaf::ProjectDiscover).opts[3]);
    assert(table[6].name@ == "user"@);
    assert(table[7] == leaf_spec(Leaf::ProjectDiscover).opts[4]);
    assert(table[7].name@ == "pass"@);
    assert(table[8] == leaf_spec(Leaf::ProjectDiscover).opts[5]);
    assert(table[8].name@ == "pass-stdin"@);
    reveal_strlit("cred-alias");
    reveal_strlit("db-path");
    reveal_strlit("json");
    reveal_strlit("log-level");
    reveal_strlit("machine-id");
    reveal_strlit("pass");
    reveal_strlit("pass-stdin");
    reveal_strlit("roots");
    reveal_strlit("user");
    assert("cred-alias"@.len() == 10);
    assert("cred-alias"@[0] == 'c');
    assert("db-path"@.len() == 7);
    assert("json"@.len() == 4);
    assert("json"@[0] == 'j');
    assert("log-level"@.len() == 9);
    assert("machine-id"@.len() == 10);
    assert("machine-id"@[0] == 'm');
    assert("pass"@.len() == 4);
    assert("pass"@[0] == 'p');
    assert("pass-stdin"@.len() == 10);
    assert("pass-stdin"@[0] == 'p');
    assert("roots"@.len() == 5);
    assert("user"@.len() == 4);
    assert("user"@[0] == 'u');
    assert forall|j: int| 0 <= j < 3 implies (#[trigger] table[j]).name@ != "machine-id"@ by {}
    lemma_find_from_at(table, "machine-id"@, 0, 3);
    assert forall|j: int| 0 <= j < 4 implies (#[trigger] table[j]).name@ != "roots"@ by {}
    lemma_find_from_at(table, "roots"@, 0, 4);
    assert forall|j: int| 0 <= j < 5 implies (#[trigger] table[j]).name@ != "cred-alias"@ by {}
    lemma_find_from_at(table, "cred-alias"@, 0, 5);
    assert forall|j: int| 0 <= j < 6 implies (#[trigger] table[j]).name@ != "user"@ by {}
    lemma_find_from_at(table, "user"@, 0, 6);
    assert forall|j: int| 0 <= j < 7 implies (#[trigger] table[j]).name@ != "pass"@ by {}
    lemma_find_from_at(table, "pass"@, 0, 7);
    assert forall|j: int| 0 <= j < 8 implies (#[trigger] table[j]).name@ != "pass-stdin"@ by {}
    lemma_find_from_at(table, "pass-stdin"@, 0, 8);
}

/// `project create-manual`: every field of the parsed command is the value of the option
/// or positional of its name (a switch field: whether `--name` was given).
pub proof fn lemma_project_create_manual_by_name(argv: Seq<Seq<char>>, cli: Cli, st: ScanV)
    requires
        parse_spec(argv) == Ok::<(Leaf, ScanV), UsageErrorV>((Leaf::ProjectCreateManual, st)),
        cli_fits(cli, Leaf::ProjectCreateManual, st),
    ensures
        ({
            &&& cli.command matches Domain::Project { action: ProjectAction::CreateManual { uproject_name: f_uproject_name, display_name: f_display_name } }
            &&& f_uproject_name@ == text_named(Leaf::ProjectCreateManual, st, "uproject-name"@, ""@)
            &&& f_display_name.deep_view() == opt_text_named(Leaf::ProjectCreateManual, st, "display-name"@)
        }),
{
    let table = globals() + leaf_spec(Leaf::ProjectCreateManual).opts;
    assert(globals().len() == 3);
    assert(leaf_spec(Leaf::ProjectCreateManual).opts.len() == 2);
    assert(table[0] == globals()[0]);
    assert(table[0].name@ == "json"@);
    assert(table[1] == globals()[1]);
    assert(table[1].name@ == "db-path"@);
    assert(table[2] == globals()[2]);
    assert(table[2].name@ == "log-level"@);
    assert(table[3] == leaf_spec(Leaf::ProjectCreateManual).opts[0]);
    assert(table[3].name@ == "uproject-name"@);
    assert(table[4] == leaf_spec(Leaf::ProjectCreateManual).opts[1]);
    assert(table[4].name@ == "display-name"@);
    reveal_strlit("db-path");
    reveal_strlit("display-name");
    reveal_strlit("json");
    reveal_strlit("log-level");
    reveal_strlit("uproject-name");
    assert("db-path"@.len() == 7);
    assert("display-name"@.len() == 12);
    assert("json"@.len() == 4);
    assert("log-level"@.len() == 9);
    assert("uproject-name"@.len() == 13);
    assert forall|j: int| 0 <= j < 3 implies (#[trigger] table[j]).name@ != "uproject-name"@ by {}
    lemma_find_from_at(table, "uproject-name"@, 0, 3);
    assert forall|j: int| 0 <= j < 4 implies (#[trigger] table[j]).name@ != "display-name"@ by {}
    lemma_find_from_at(table, "display-name"@, 0, 4);
}

/// `project set-location`: every field of the parsed command is the value of the option
/// or positional of its name (a switch field: whether `--name` was given).
pub proof fn lemma_project_set_location_by_name(argv: Seq<Seq<char>>, cli: Cli, st: ScanV)
    requires
        parse_spec(argv) == Ok::<(Leaf, ScanV), UsageErrorV>((Leaf::ProjectSetLocation, st)),
        cli_fits(cli, Leaf::ProjectSetLocation, st),
    ensures
        ({
            &&& cli.command matches Domain::Project { action: ProjectAction::SetLocation { project_id: f_project_id, machine_id: f_machine_id, abs_path: f_abs_path, uproject_path: f_uproject_path, manual_path: f_manual_path } }
            &&& f_project_id as int == int_named(Leaf::ProjectSetLocation, st, "project-id"@, 0)
            &&& f_machine_id as int == int_named(Leaf::ProjectSetLocation, st, "machine-id"@, 0)
            &&& f_abs_path@ == text_named(Leaf::ProjectSetLocation, st, "abs-path"@, ""@)
            &&& f_uproject_path@ == text_named(Leaf::ProjectSetLocation, st, "uproject-path"@, ""@)
            &&& f_manual_path == flag_named(Leaf::ProjectSetLocation, st, "manual-path"@)
        }),
{
    let table = globals() + leaf_spec(Leaf::ProjectSetLocation).opts;
    assert(globals().len() == 3);
    assert(leaf_spec(Leaf::ProjectSetLocation).opts.len() == 5);
    assert(table[0] == globals()[0]);
    assert(table[0].name@ == "json"@);
    assert(table[1] == globals()[1]);
    assert(table[1].name@ == "db-path"@);
    assert(table[2] == globals()[2]);
    assert(table[2].name@ == "log-level"@);
    assert(table[3] == leaf_spec(Leaf::ProjectSetLocation).opts[0]);
    assert(table[3].name@ == "project-id"@);
    assert(table[4] == leaf_spec(Leaf::ProjectSetLocation).opts[1]);
    assert(table[4].name@ == "machine-id"@);
    assert(table[5] == leaf_spec(Leaf::ProjectSetLocation).opts[2]);
    assert(table[5].name@ == "abs-path"@);
    assert(table[6] == leaf_spec(Leaf::ProjectSetLocation).opts[3]);
    assert(table[6].name@ == "uproject-path"@);
    assert(table[7] == leaf_spec(Leaf::ProjectSetLocation).opts[4]);
    assert(table[7].name@ == "manual-path"@);
    reveal_strlit("abs-path");
    reveal_strlit("db-path");
    reveal_strlit("json");
    reveal_strlit("log-level");
    reveal_strlit("machine-id");
    reveal_strlit("manual-path");
    reveal_strlit("project-id");
    reveal_strlit("uproject-path");
    assert("abs-path"@.len() == 8);
    assert("db-path"@.len() == 7);
    assert("json"@.len() == 4);
    assert("log-level"@.len() == 9);
    assert("machine-id"@.len() == 10);
    assert("machine-id"@[0] == 'm');
    assert("manual-path"@.len() == 11);
    assert("project-id"@.len() == 10);
    assert("project-id"@[0] == 'p');
    assert("uproject-path"@.len() == 13);
    assert forall|j: int| 0 <= j < 3 implies (#[trigger] table[j]).name@ != "project-id"@ by {}
    lemma_find_from_at(table, "project-id"@, 0, 3);
    assert forall|j: int| 0 <= j < 4 implies (#[trigger] table[j]).name@ != "machine-id"@ by {}
    lemma_find_from_at(table, "machine-id"@, 0, 4);
    assert forall|j: int| 0 <= j < 5 implies (#[trigger] table[j]).name@ != "abs-path"@ by {}
    lemma_find_from_at(table, "abs-path"@, 0, 5);
    assert forall|j: int| 0 <= j < 6 implies (#[trigger] table[j]).name@ != "uproject-path"@ by {}
    lemma_find_from_at(table, "uproject-path"@, 0, 6);
    assert forall|j: int| 0 <= j < 7 implies (#[trigger] table[j]).name@ != "manual-path"@ by {}
    lemma_find_from_at(table, "manual-path"@, 0, 7);
}

/// `project delete`: every field of the parsed command is the value of the option
/// or positional of its name (a switch field: whether `--name` was given).
pub proof fn lemma_project_delete_by_name(argv: Seq<Seq<char>>, cli: Cli, st: ScanV)
    requires
        parse_spec(argv) == Ok::<(Leaf, ScanV), UsageErrorV>((Leaf::ProjectDelete, st)),
        cli_fits(cli, Leaf::ProjectDelete, st),
    ensures
        ({
            &&& cli.command matches Domain::Project { action: ProjectAction::Delete { id: f_id, yes: f_yes, dry_run: f_dry_run } }
            &&& f_id as int == pos_int_named(Leaf::ProjectDelete, st, "id"@)
            &&& f_yes == flag_named(Leaf::ProjectDelete, st, "yes"@)
            &&& f_dry_run == flag_named(Leaf::ProjectDelete, st, "dry-run"@)
        }),
{
    let table = globals() + leaf_spec(Leaf::ProjectDelete).opts;
    assert(globals().len() == 3);
    assert(leaf_spec(Leaf::ProjectDelete).opts.len() == 2);
    assert(table[0] == globals()[0]);
    assert(table[0].name@ == "json"@);
    assert(table[1] == globals()[1]);
    assert(table[1].name@ == "db-path"@);
    assert(table[2] == globals()[2]);
    assert(table[2].name@ == "log-level"@);
    assert(table[3] == leaf_spec(Leaf::ProjectDelete).opts[0]);
    assert(table[3].name@ == "yes"@);
    assert(table[4] == leaf_spec(Leaf::ProjectDelete).opts[1]);
    assert(table[4].name@ == "dry-run"@);
    assert(leaf_spec(Leaf::ProjectDelete).pos.len() == 1);
    assert(leaf_spec(Leaf::ProjectDelete).pos[0].name@ == "id"@);
    reveal_strlit("db-path");
    reveal_strlit("dry-run");
    reveal_strlit("id");
    reveal_strlit("json");
    reveal_strlit("log-level");
    reveal_strlit("yes");
    assert("db-path"@.len() == 7);
    assert("db-path"@[1] == 'b');
    assert("dry-run"@.len() == 7);
    assert("dry-run"@[1] == 'r');
    assert("json"@.len() == 4);
    assert("log-level"@.len() == 9);
    assert("yes"@.len() == 3);
    assert forall|j: int| 0 <= j < 3 implies (#[trigger] table[j]).name@ != "yes"@ by {}
    lemma_find_from_at(table, "yes"@, 0, 3);
    assert forall|j: int| 0 <= j < 4 implies (#[trigger] table[j]).name@ != "dry-run"@ by {}
    lemma_find_from_at(table, "dry-run"@, 0, 4);
    assert forall|j: int| 0 <= j < 0 implies (#[trigger] leaf_spec(Leaf::ProjectDelete).pos[j]).name@ != "id"@ by {}
    lemma_pos_at(leaf_spec(Leaf::ProjectDelete).pos, "id"@, 0, 0);
}

/// `project delete-location`: every field of the parsed command is the value of the option
/// or positional of its name (a switch field: whether `--name` was given).
pub proof fn lemma_project_delete_location_by_name(argv: Seq<Seq<char>>, cli: Cli, st: ScanV)
    requires
        parse_spec(argv) == Ok::<(Leaf, ScanV), UsageErrorV>((Leaf::ProjectDeleteLocation, st)),
        cli_fits(cli, Leaf::ProjectDeleteLocation, st),
    ensures
        ({
            &&& cli.command matches Domain::Project { action: ProjectAction::DeleteLocation { id: f_id, yes: f_yes, dry_run: f_dry_run } }
            &&& f_id as int == pos_int_named(Leaf::ProjectDeleteLocation, st, "id"@)
            &&& f_yes == flag_named(Leaf::ProjectDeleteLocation, st, "yes"@)
            &&& f_dry_run == flag_named(Leaf::ProjectDeleteLocation, st, "dry-run"@)
        }),
{
    let table = globals() + leaf_spec(Leaf::ProjectDeleteLocation).opts;
    assert(globals().len() == 3);
    assert(leaf_spec(Leaf::ProjectDeleteLocation).opts.len() == 2);
    assert(table[0] == globals()[0]);
    assert(table[0].name@ == "json"@);
    assert(table[1] == globals()[1]);
    assert(table[1].name@ == "db-path"@);
    assert(table[2] == globals()[2]);
    assert(table[2].name@ == "log-level"@);
    assert(table[3] == leaf_spec(Leaf::ProjectDeleteLocation).opts[0]);
    assert(table[3].name@ == "yes"@);
    assert(table[4] == leaf_spec(Leaf::ProjectDeleteLocation).opts[1]);
    assert(table[4].name@ == "dry-run"@);
    assert(leaf_spec(Leaf::ProjectDeleteLocation).pos.len() == 1);
    assert(leaf_spec(Leaf::ProjectDeleteLocation).pos[0].name@ == "id"@);
    reveal_strlit("db-path");
    reveal_strlit("dry-run");
    reveal_strlit("id");
    reveal_strlit("json");
    reveal_strlit("log-level");
    reveal_strlit("yes");
    assert("db-path"@.len() == 7);
    assert("db-path"@[1] == 'b');
    assert("dry-run"@.len() == 7);
    assert("dry-run"@[1] == 'r');
    assert("json"@.len() == 4);
    assert("log-level"@.len() == 9);
    assert("yes"@.len() == 3);
    assert forall|j: int| 0 <= j < 3 implies (#[trigger] table[j]).name@ != "yes"@ by {}
    lemma_find_from_at(table, "yes"@, 0, 3);
    assert forall|j: int| 0 <= j < 4 implies (#[trigger] table[j]).name@ != "dry-run"@ by {}
    lemma_find_from_at(table, "dry-run"@, 0, 4);
    assert forall|j: int| 0 <= j < 0 implies (#[trigger] leaf_spec(Leaf::ProjectDeleteLocation).pos[j]).name@ != "id"@ by {}
    lemma_pos_at(leaf_spec(Leaf::ProjectDeleteLocation).pos, "id"@, 0, 0);
}

/// `health run`: every field of the parsed command is the value of the option
/// or positional of its name (a switch field: whether `--name` was given).
pub proof fn lemma_health_run_by_name(argv: Seq<Seq<char>>, cli: Cli, st: ScanV)
    requires
        parse_spec(argv) == Ok::<(Leaf, ScanV), UsageErrorV>((Leaf::HealthRun, st)),
        cli_fits(cli, Leaf::HealthRun, st),
    ensures
        ({
            &&& cli.command matches Domain::Health { action: HealthAction::Run { machine_ids: f_machine_ids, cidr: f_cidr, all: f_all, cred: f_cred } }
            &&& f_machine_ids@.map_values(|x: i64| x as int) == ints_named(Leaf::HealthRun, st, "machine-ids"@)
            &&& f_cidr.deep_view() == opt_text_named(Leaf::HealthRun, st, "cidr"@)
            &&& f_all == flag_named(Leaf::HealthRun, st, "all"@)
            &&& cred_named(f_cred, Leaf::HealthRun, st)
        }),
{
    let table = globals() + leaf_spec(Leaf::HealthRun).opts;
    assert(globals().len() == 3);
    assert(leaf_spec(Leaf::HealthRun).opts.len() == 7);
    assert(table[0] == globals()[0]);
    assert(table[0].name@ == "json"@);
    assert(table[1] == globals()[1]);
    assert(table[1].name@ == "db-path"@);
    assert(table[2] == globals()[2]);
    assert(table[2].name@ == "log-level"@);
    assert(table[3] == leaf_spec(Leaf::HealthRun).opts[0]);
    assert(table[3].name@ == "machine-ids"@);
    assert(table[4] == leaf_spec(Leaf::HealthRun).opts[1]);
    assert(table[4].name@ == "cidr"@);
    assert(table[5] == leaf_spec(Leaf::HealthRun).opts[2]);
    assert(table[5].name@ == "all"@);
    assert(table[6] == leaf_spec(Leaf::HealthRun).opts[3]);
    assert(table[6].name@ == "cred-alias"@);
    assert(table[7] == leaf_spec(Leaf::HealthRun).opts[4]);
    assert(table[7].name@ == "user"@);
    assert(table[8] == leaf_spec(Leaf::HealthRun).opts[5]);
    assert(table[8].name@ == "pass"@);
    assert(table[9] == leaf_spec(Leaf::HealthRun).opts[6]);
    assert(table[9].name@ == "pass-stdin"@);
    reveal_strlit("all");
    reveal_strlit("cidr");
    reveal_strlit("cred-alias");
    reveal_strlit("db-path");
    reveal_strlit("json");
    reveal_strlit("log-level");
    reveal_strlit("machine-ids");
    reveal_strlit("pass");
    reveal_strlit("pass-stdin");
    reveal_strlit("user");
    assert("all"@.len() == 3);
    assert("cidr"@.len() == 4);
    assert("cidr"@[0] == 'c');
    assert("cred-alias"@.len() == 10);
    assert("cred-alias"@[0] == 'c');
    assert("db-path"@.len() == 7);
    assert("json"@.len() == 4);
    assert("json"@[0] == 'j');
    assert("log-level"@.len() == 9);
    assert("machine-ids"@.len() == 11);
    assert("pass"@.len() == 4);
    assert("pass"@[0] == 'p');
    assert("pass-stdin"@.len() == 10);
    assert("pass-stdin"@[0] == 'p');
    assert("user"@.len() == 4);
    assert("user"@[0] == 'u');
    assert forall|j: int| 0 <= j < 3 implies (#[trigger] table[j]).name@ != "machine-ids"@ by {}
    lemma_find_from_at(table, "machine-ids"@, 0, 3);
    assert forall|j: int| 0 <= j < 4 implies (#[trigger] table[j]).name@ != "cidr"@ by {}
    lemma_find_from_at(table, "cidr"@, 0, 4);
    assert forall|j: int| 0 <= j < 5 implies (#[trigger] table[j]).name@ != "all"@ by {}
    lemma_find_from_at(table, "all"@, 0, 5);
    assert forall|j: int| 0 <= j < 6 implies (#[trigger] table[j]).name@ != "cred-alias"@ by {}
    lemma_find_from_at(table, "cred-alias"@, 0, 6);
    assert forall|j: int| 0 <= j < 7 implies (#[trigger] table[j]).name@ != "user"@ by {}
    lemma_find_from_at(table, "user"@, 0, 7);
    assert forall|j: int| 0 <= j < 8 implies (#[trigger] table[j]).name@ != "pass"@ by {}
    lemma_find_from_at(table, "pass"@, 0, 8);
    assert forall|j: int| 0 <= j < 9 implies (#[trigger] table[j]).name@ != "pass-stdin"@ by {}
    lemma_find_from_at(table, "pass-stdin"@, 0, 9);
}

/// `health runs`: every field of the parsed command is the value of the option
/// or positional of its name (a switch field: whether `--name` was given).
pub proof fn lemma_health_runs_by_name(argv: Seq<Seq<char>>, cli: Cli, st: ScanV)
    requires
        parse_spec(argv) == Ok::<(Leaf, ScanV), UsageErrorV>((Leaf::HealthRuns, st)),
        cli_fits(cli, Leaf::HealthRuns, st),
    ensures
        ({
            &&& cli.command matches Domain::Health { action: HealthAction::Runs { limit: f_limit } }
            &&& f_limit as int == int_named(Leaf::HealthRuns, st, "limit"@, 10)
        }),
{
    let table = globals() + leaf_spec(Leaf::HealthRuns).opts;
    assert(globals().len() == 3);
    assert(leaf_spec(Leaf::HealthRuns).opts.len() == 1);
    assert(table[0] == globals()[0]);
    assert(table[0].name@ == "json"@);
    assert(table[1] == globals()[1]);
    assert(table[1].name@ == "db-path"@);
    assert(table[2] == globals()[2]);
    assert(table[2].name@ == "log-level"@);
    assert(table[3] == leaf_spec(Leaf::HealthRuns).opts[0]);
    assert(table[3].name@ == "limit"@);
    reveal_strlit("db-path");
    reveal_strlit("json");
    reveal_strlit("limit");
    reveal_strlit("log-level");
    assert("db-path"@.len() == 7);
    assert("json"@.len() == 4);
    assert("limit"@.len() == 5);
    assert("log-level"@.len() == 9);
    assert forall|j: int| 0 <= j < 3 implies (#[trigger] table[j]).name@ != "limit"@ by {}
    lemma_find_from_at(table, "limit"@, 0, 3);
}

/// `health results`: every field of the parsed command is the value of the option
/// or positional of its name (a switch field: whether `--name` was given).
pub proof fn lemma_health_results_by_name(argv: Seq<Seq<char>>, cli: Cli, st: ScanV)
    requires
        parse_spec(argv) == Ok::<(Leaf, ScanV), UsageErrorV>((Leaf::HealthResults, st)),
        cli_fits(cli, Leaf::HealthResults, st),
    ensures
        ({
            &&& cli.command matches Domain::Health { action: HealthAction::Results { scan_run_id: f_scan_run_id } }
            &&& f_scan_run_id as int == pos_int_named(Leaf::HealthResults, st, "scan_run_id"@)
        }),
{
    let table = globals() + leaf_spec(Leaf::HealthResults).opts;
    assert(leaf_spec(Leaf::HealthResults).pos.len() == 1);
    assert(leaf_spec(Leaf::HealthResults).pos[0].name@ == "scan_run_id"@);
    reveal_strlit("db-path");
    reveal_strlit("json");
    reveal_strlit("log-level");
    reveal_strlit("scan_run_id");
    assert forall|j: int| 0 <= j < 0 implies (#[trigger] leaf_spec(Leaf::HealthResults).pos[j]).name@ != "scan_run_id"@ by {}
    lemma_pos_at(leaf_spec(Leaf::HealthResults).pos, "scan_run_id"@, 0, 0);
}

/// `ddc generate`: every field of the parsed command is the value of the option
/// or positional of its name (a switch field: whether `--name` was given).
pub proof fn lemma_ddc_generate_by_name(argv: Seq<Seq<char>>, cli: Cli, st: ScanV)
    requires
        parse_spec(argv) == Ok::<(Leaf, ScanV), UsageErrorV>((Leaf::DdcGenerate, st)),
        cli_fits(cli, Leaf::DdcGenerate, st),
    ensures
        ({
            &&& cli.command matches Domain::Ddc { action: DdcAction::Generate { project_id: f_project_id, source_machine: f_source_machine, backend: f_backend, cred: f_cred } }
            &&& f_project_id as int == int_named(Leaf::DdcGenerate, st, "project-id"@, 0)
            &&& f_source_machine as int == int_named(Leaf::DdcGenerate, st, "source-machine"@, 0)
            &&& f_backend == backend_named(Leaf::DdcGenerate, st, "backend"@)
            &&& cred_named(f_cred, Leaf::DdcGenerate, st)
        }),
{
    let table = globals() + leaf_spec(Leaf::DdcGenerate).opts;
    assert(globals().len() == 3);
    assert(leaf_spec(Leaf::DdcGenerate).opts.len() == 7);
    assert(table[0] == globals()[0]);
    assert(table[0].name@ == "json"@);
    assert(table[1] == globals()[1]);
    assert(table[1].name@ == "db-path"@);
    assert(table[2] == globals()[2]);
    assert(table[2].name@ == "log-level"@);
    assert(table[3] == leaf_spec(Leaf::DdcGenerate).opts[0]);
    assert(table[3].name@ == "project-id"@);
    assert(table[4] == leaf_spec(Leaf::DdcGenerate).opts[1]);
    assert(table[4].name@ == "source-machine"@);
    assert(table[5] == leaf_spec(Leaf::DdcGenerate).opts[2]);
    assert(table[5].name@ == "backend"@);
    assert(table[6] == leaf_spec(Leaf::DdcGenerate).opts[3]);
    assert(table[6].name@ == "cred-alias"@);
    assert(table[7] == leaf_spec(Leaf::DdcGenerate).opts[4]);
    assert(table[7].name@ == "user"@);
    assert(table[8] == leaf_spec(Leaf::DdcGenerate).opts[5]);
    assert(table[8].name@ == "pass"@);
    assert(table[9] == leaf_spec(Leaf::DdcGenerate).opts[6]);
    assert(table[9].name@ == "pass-stdin"@);
    reveal_strlit("backend");
    reveal_strlit("cred-alias");
    reveal_strlit("db-path");
    reveal_strlit("json");
    reveal_strlit("log-level");
    reveal_strlit("pass");
    reveal_strlit("pass-stdin");
    reveal_strlit("project-id");
    reveal_strlit("source-machine");
    reveal_strlit("user");
    assert("backend"@.len() == 7);
    assert("backend"@[0] == 'b');
    assert("cred-alias"@.len() == 10);
    assert("cred-alias"@[0] == 'c');
    assert("db-path"@.len() == 7);
    assert("db-path"@[0] == 'd');
    assert("json"@.len() == 4);
    assert("json"@[0] == 'j');
    assert("log-level"@.len() == 9);
    assert("pass"@.len() == 4);
    assert("pass"@[0] == 'p');
    assert("pass-stdin"@.len() == 10);
    assert("pass-stdin"@[0] == 'p');
    assert("pass-stdin"@[1] == 'a');
    assert("project-id"@.len() == 10);
    assert("project-id"@[0] == 'p');
    assert("project-id"@[1] == 'r');
    assert("source-machine"@.len() == 14);
    assert("user"@.len() == 4);
    assert("user"@[0] == 'u');
    assert forall|j: int| 0 <= j < 3 implies (#[trigger] table[j]).name@ != "project-id"@ by {}
    lemma_find_from_at(table, "project-id"@, 0, 3);
    assert forall|j: int| 0 <= j < 4 implies (#[trigger] table[j]).name@ != "source-machine"@ by {}
    lemma_find_from_at(table, "source-machine"@, 0, 4);
    assert forall|j: int| 0 <= j < 5 implies (#[trigger] table[j]).name@ != "backend"@ by {}
    lemma_find_from_at(table, "backend"@, 0, 5);
    assert forall|j: int| 0 <= j < 6 implies (#[trigger] table[j]).name@ != "cred-alias"@ by {}
    lemma_find_from_at(table, "cred-alias"@, 0, 6);
    assert forall|j: int| 0 <= j < 7 implies (#[trigger] table[j]).name@ != "user"@ by {}
    lemma_find_from_at(table, "user"@, 0, 7);
    assert forall|j: int| 0 <= j < 8 implies (#[trigger] table[j]).name@ != "pass"@ by {}
    lemma_find_from_at(table, "pass"@, 0, 8);
    assert forall|j: int| 0 <= j < 9 implies (#[trigger] table[j]).name@ != "pass-stdin"@ by {}
    lemma_find_from_at(table, "pass-stdin"@, 0, 9);
}

/// `ddc verify`: every field of the parsed command is the value of the option
/// or positional of its name (a switch field: whether `--name` was given).
pub proof fn lemma_ddc_verify_by_name(argv: Seq<Seq<char>>, cli: Cli, st: ScanV)
    requires
        parse_spec(argv) == Ok::<(Leaf, ScanV), UsageErrorV>((Leaf::DdcVerify, st)),
        cli_fits(cli, Leaf::DdcVerify, st),
    ensures
        ({
            &&& cli.command matches Domain::Ddc { action: DdcAction::Verify { project_id: f_project_id, source_machine: f_source_machine, backend: f_backend, cred: f_cred } }
            &&& f_project_id as int == int_named(Leaf::DdcVerify, st, "project-id"@, 0)
            &&& f_source_machine as int == int_named(Leaf::DdcVerify, st, "source-machine"@, 0)
            &&& f_backend == backend_named(Leaf::DdcVerify, st, "backend"@)
            &&& cred_named(f_cred, Leaf::DdcVerify, st)
        }),
{
    let table = globals() + leaf_spec(Leaf::DdcVerify).opts;
    assert(globals().len() == 3);
    assert(leaf_spec(Leaf::DdcVerify).opts.len() == 7);
    assert(table[0] == globals()[0]);
    assert(table[0].name@ == "json"@);
    assert(table[1] == globals()[1]);
    assert(table[1].name@ == "db-path"@);
    assert(table[2] == globals()[2]);
    assert(table[2].name@ == "log-level"@);
    assert(table[3] == leaf_spec(Leaf::DdcVerify).opts[0]);
    assert(table[3].name@ == "project-id"@);
    assert(table[4] == leaf_spec(Leaf::DdcVerify).opts[1]);
    assert(table[4].name@ == "source-machine"@);
    assert(table[5] == leaf_spec(Leaf::DdcVerify).opts[2]);
    assert(table[5].name@ == "backend"@);
    assert(table[6] == leaf_spec(Leaf::DdcVerify).opts[3]);
    assert(table[6].name@ == "cred-alias"@);
    assert(table[7] == leaf_spec(Leaf::DdcVerify).opts[4]);
    assert(table[7].name@ == "user"@);
    assert(table[8] == leaf_spec(Leaf::DdcVerify).opts[5]);
    assert(table[8].name@ == "pass"@);
    assert(table[9] == leaf_spec(Leaf::DdcVerify).opts[6]);
    assert(table[9].name@ == "pass-stdin"@);
    reveal_strlit("backend");
    reveal_strlit("cred-alias");
    reveal_strlit("db-path");
    reveal_strlit("json");
    reveal_strlit("log-level");
    reveal_strlit("pass");
    reveal_strlit("pass-stdin");
    reveal_strlit("project-id");
    reveal_strlit("source-machine");
    reveal_strlit("user");
    assert("backend"@.len() == 7);
    assert("backend"@[0] == 'b');
    assert("cred-alias"@.len() == 10);
    assert("cred-alias"@[0] == 'c');
    assert("db-path"@.len() == 7);
    assert("db-path"@[0] == 'd');
    assert("json"@.len() == 4);
    assert("json"@[0] == 'j');
    assert("log-level"@.len() == 9);
    assert("pass"@.len() == 4);
    assert("pass"@[0] == 'p');
    assert("pass-stdin"@.len() == 10);
    assert("pass-stdin"@[0] == 'p');
    assert("pass-stdin"@[1] == 'a');
    assert("project-id"@.len() == 10);
    assert("project-id"@[0] == 'p');
    assert("project-id"@[1] == 'r');
    assert("source-machine"@.len() == 14);
    assert("user"@.len() == 4);
    assert("user"@[0] == 'u');
    assert forall|j: int| 0 <= j < 3 implies (#[trigger] table[j]).name@ != "project-id"@ by {}
    lemma_find_from_at(table, "project-id"@, 0, 3);
    assert forall|j: int| 0 <= j < 4 implies (#[trigger] table[j]).name@ != "source-machine"@ by {}
    lemma_find_from_at(table, "source-machine"@, 0, 4);
    assert forall|j: int| 0 <= j < 5 implies (#[trigger] table[j]).name@ != "backend"@ by {}
    lemma_find_from_at(table, "backend"@, 0, 5);
    assert forall|j: int| 0 <= j < 6 implies (#[trigger] table[j]).name@ != "cred-alias"@ by {}
    lemma_find_from_at(table, "cred-alias"@, 0, 6);
    assert forall|j: int| 0 <= j < 7 implies (#[trigger] table[j]).name@ != "user"@ by {}
    lemma_find_from_at(table, "user"@, 0, 7);
    assert forall|j: int| 0 <= j < 8 implies (#[trigger] table[j]).name@ != "pass"@ by {}
    lemma_find_from_at(table, "pass"@, 0, 8);
    assert forall|j: int| 0 <= j < 9 implies (#[trigger] table[j]).name@ != "pass-stdin"@ by {}
    lemma_find_from_at(table, "pass-stdin"@, 0, 9);
}

/// `ddc distribute`: every field of the parsed command is the value of the option
/// or positional of its name (a switch field: whether `--name` was given).
pub proof fn lemma_ddc_distribute_by_name(argv: Seq<Seq<char>>, cli: Cli, st: ScanV)
    requires
        parse_spec(argv) == Ok::<(Leaf, ScanV), UsageErrorV>((Leaf::DdcDistribute, st)),
        cli_fits(cli, Leaf::DdcDistribute, st),
    ensures
        ({
            &&& cli.command matches Domain::Ddc { action: DdcAction::Distribute { project_id: f_project_id, source_machine: f_source_machine, targets: f_targets, yes: f_yes, dry_run: f_dry_run, backend: f_backend, cred: f_cred } }
            &&& f_project_id as int == int_named(Leaf::DdcDistribute, st, "project-id"@, 0)
            &&& f_source_machine as int == int_named(Leaf::DdcDistribute, st, "source-machine"@, 0)
            &&& f_targets@.map_values(|x: i64| x as int) == ints_named(Leaf::DdcDistribute, st, "targets"@)
            &&& f_yes == flag_named(Leaf::DdcDistribute, st, "yes"@)
            &&& f_dry_run == flag_named(Leaf::DdcDistribute, st, "dry-run"@)
            &&& f_backend == backend_named(Leaf::DdcDistribute, st, "backend"@)
            &&& cred_named(f_cred, Leaf::DdcDistribute, st)
        }),
{
    let table = globals() + leaf_spec(Leaf::DdcDistribute).opts;
    assert(globals().len() == 3);
    assert(leaf_spec(Leaf::DdcDistribute).opts.len() == 10);
    assert(table[0] == globals()[0]);
    assert(table[0].name@ == "json"@);
    assert(table[1] == globals()[1]);
    assert(table[1].name@ == "db-path"@);
    assert(table[2] == globals()[2]);
    assert(table[2].name@ == "log-level"@);
    assert(table[3] == leaf_spec(Leaf::DdcDistribute).opts[0]);
    assert(table[3].name@ == "project-id"@);
    assert(table[4] == leaf_spec(Leaf::DdcDistribute).opts[1]);
    assert(table[4].name@ == "source-machine"@);
    assert(table[5] == leaf_spec(Leaf::DdcDistribute).opts[2]);
    assert(table[5].name@ == "targets"@);
    assert(table[6] == leaf_spec(Leaf::DdcDistribute).opts[3]);
    assert(table[6].name@ == "yes"@);
    assert(table[7] == leaf_spec(Leaf::DdcDistribute).opts[4]);
    assert(table[7].name@ == "dry-run"@);
    assert(table[8] == leaf_spec(Leaf::DdcDistribute).opts[5]);
    assert(table[8].name@ == "backend"@);
    assert(table[9] == leaf_spec(Leaf::DdcDistribute).opts[6]);
    assert(table[9].name@ == "cred-alias"@);
    assert(table[10] == leaf_spec(Leaf::DdcDistribute).opts[7]);
    assert(table[10].name@ == "user"@);
    assert(table[11] == leaf_spec(Leaf::DdcDistribute).opts[8]);
    assert(table[11].name@ == "pass"@);
    assert(table[12] == leaf_spec(Leaf::DdcDistribute).opts[9]);
    assert(table[12].name@ == "pass-stdin"@);
    reveal_strlit("backend");
    reveal_strlit("cred-alias");
    reveal_strlit("db-path");
    reveal_strlit("dry-run");
    reveal_strlit("json");
    reveal_strlit("log-level");
    reveal_strlit("pass");
    reveal_strlit("pass-stdin");
    reveal_strlit("project-id");
    reveal_strlit("source-machine");
    reveal_strlit("targets");
    reveal_strlit("user");
    reveal_strlit("yes");
    assert("backend"@.len() == 7);
    assert("backend"@[0] == 'b');
    assert("cred-alias"@.len() == 10);
    assert("cred-alias"@[0] == 'c');
    assert("db-path"@.len() == 7);
    assert("db-path"@[0] == 'd');
    assert("db-path"@[1] == 'b');
    assert("dry-run"@.len() == 7);
    assert("dry-run"@[0] == 'd');
    assert("dry-run"@[1] == 'r');
    assert("json"@.len() == 4);
    assert("json"@[0] == 'j');
    assert("log-level"@.len() == 9);
    assert("pass"@.len() == 4);
    assert("pass"@[0] == 'p');
    assert("pass-stdin"@.len() == 10);
    assert("pass-stdin"@[0] == 'p');
    assert("pass-stdin"@[1] == 'a');
    assert("project-id"@.len() == 10);
    assert("project-id"@[0] == 'p');
    assert("project-id"@[1] == 'r');
    assert("source-machine"@.len() == 14);
    assert("targets"@.len() == 7);
    assert("targets"@[0] == 't');
    assert("user"@.len() == 4);
    assert("user"@[0] == 'u');
    assert("yes"@.len() == 3);
    assert forall|j: int| 0 <= j < 3 implies (#[trigger] table[j]).name@ != "project-id"@ by {}
    lemma_find_from_at(table, "project-id"@, 0, 3);
    assert forall|j: int| 0 <= j < 4 implies (#[trigger] table[j]).name@ != "source-machine"@ by {}
    lemma_find_from_at(table, "source-machine"@, 0, 4);
    assert forall|j: int| 0 <= j < 5 implies (#[trigger] table[j]).name@ != "targets"@ by {}
    lemma_find_from_at(table, "targets"@, 0, 5);
    assert forall|j: int| 0 <= j < 6 implies (#[trigger] table[j]).name@ != "yes"@ by {}
    lemma_find_from_at(table, "yes"@, 0, 6);
    assert forall|j: int| 0 <= j < 7 implies (#[trigger] table[j]).name@ != "dry-run"@ by {}
    lemma_find_from_at(table, "dry-run"@, 0, 7);
    assert forall|j: int| 0 <= j < 8 implies (#[trigger] table[j]).name@ != "backend"@ by {}
    lemma_find_from_at(table, "backend"@, 0, 8);
    assert forall|j: int| 0 <= j < 9 implies (#[trigger] table[j]).name@ != "cred-alias"@ by {}
    lemma_find_from_at(table, "cred-alias"@, 0, 9);
    assert forall|j: int| 0 <= j < 10 implies (#[trigger] table[j]).name@ != "user"@ by {}
    lemma_find_from_at(table, "user"@, 0, 10);
    assert forall|j: int| 0 <= j < 11 implies (#[trigger] table[j]).name@ != "pass"@ by {}
    lemma_find_from_at(table, "pass"@, 0, 11);
    assert forall|j: int| 0 <= j < 12 implies (#[trigger] table[j]).name@ != "pass-stdin"@ by {}
    lemma_find_from_at(table, "pass-stdin"@, 0, 12);
}

/// `pso verify`: every field of the parsed command is the value of the option
/// or positional of its name (a switch field: whether `--name` was given).
pub proof fn lemma_pso_verify_by_name(argv: Seq<Seq<char>>, cli: Cli, st: ScanV)
    requires
        parse_spec(argv) == Ok::<(Leaf, ScanV), UsageErrorV>((Leaf::PsoVerify, st)),
        cli_fits(cli, Leaf::PsoVerify, st),
    ensures
        ({
            &&& cli.command matches Domain::Pso { action: PsoAction::Verify { project_id: f_project_id } }
            &&& f_project_id as int == int_named(Leaf::PsoVerify, st, "project-id"@, 0)
        }),
{
    let table = globals() + leaf_spec(Leaf::PsoVerify).opts;
    assert(globals().len() == 3);
    assert(leaf_spec(Leaf::PsoVerify).opts.len() == 1);
    assert(table[0] == globals()[0]);
    assert(table[0].name@ == "json"@);
    assert(table[1] == globals()[1]);
    assert(table[1].name@ == "db-path"@);
    assert(table[2] == globals()[2]);
    assert(table[2].name@ == "log-level"@);
    assert(table[3] == leaf_spec(Leaf::PsoVerify).opts[0]);
    assert(table[3].name@ == "project-id"@);
    reveal_strlit("db-path");
    reveal_strlit("json");
    reveal_strlit("log-level");
    reveal_strlit("project-id");
    assert("db-path"@.len() == 7);
    assert("json"@.len() == 4);
    assert("log-level"@.len() == 9);
    assert("project-id"@.len() == 10);
    assert forall|j: int| 0 <= j < 3 implies (#[trigger] table[j]).name@ != "project-id"@ by {}
    lemma_find_from_at(table, "project-id"@, 0, 3);
}

/// `pso collect`: every field of the parsed command is the value of the option
/// or positional of its name (a switch field: whether `--name` was given).
pub proof fn lemma_pso_collect_by_name(argv: Seq<Seq<char>>, cli: Cli, st: ScanV)
    requires
        parse_spec(argv) == Ok::<(Leaf, ScanV), UsageErrorV>((Leaf::PsoCollect, st)),
        cli_fits(cli, Leaf::PsoCollect, st),
    ensures
        ({
            &&& cli.command matches Domain::Pso { action: PsoAction::Collect { project_id: f_project_id, source_machine: f_source_machine, resolution: f_resolution, windowed: f_windowed, max_minutes: f_max_minutes, cred: f_cred } }
            &&& f_project_id as int == int_named(Leaf::PsoCollect, st, "project-id"@, 0)
            &&& f_source_machine as int == int_named(Leaf::PsoCollect, st, "source-machine"@, 0)
            &&& f_resolution@ == text_named(Leaf::PsoCollect, st, "resolution"@, "1920x1080"@)
            &&& f_windowed
            &&& f_max_minutes as int == uint_named(Leaf::PsoCollect, st, "max-minutes"@, 0xffff_ffff, 10)
            &&& cred_named(f_cred, Leaf::PsoCollect, st)
        }),
{
    let table = globals() + leaf_spec(Leaf::PsoCollect).opts;
    assert(globals().len() == 3);
    assert(leaf_spec(Leaf::PsoCollect).opts.len() == 9);
    assert(table[0] == globals()[0]);
    assert(table[0].name@ == "json"@);
    assert(table[1] == globals()[1]);
    assert(table[1].name@ == "db-path"@);
    assert(table[2] == globals()[2]);
    assert(table[2].name@ == "log-level"@);
    assert(table[3] == leaf_spec(Leaf::PsoCollect).opts[0]);
    assert(table[3].name@ == "project-id"@);
    assert(table[4] == leaf_spec(Leaf::PsoCollect).opts[1]);
    assert(table[4].name@ == "source-machine"@);
    assert(table[5] == leaf_spec(Leaf::PsoCollect).opts[2]);
    assert(table[5].name@ == "resolution"@);
    assert(table[6] == leaf_spec(Leaf::PsoCollect).opts[3]);
    assert(table[6].name@ == "windowed"@);
    assert(table[7] == leaf_spec(Leaf::PsoCollect).opts[4]);
    assert(table[7].name@ == "max-minutes"@);
    assert(table[8] == leaf_spec(Leaf::PsoCollect).opts[5]);
    assert(table[8].name@ == "cred-alias"@);
    assert(table[9] == leaf_spec(Leaf::PsoCollect).opts[6]);
    assert(table[9].name@ == "user"@);
    assert(table[10] == leaf_spec(Leaf::PsoCollect).opts[7]);
    assert(table[10].name@ == "pass"@);
    assert(table[11] == leaf_spec(Leaf::PsoCollect).opts[8]);
    assert(table[11].name@ == "pass-stdin"@);
    reveal_strlit("cred-alias");
    reveal_strlit("db-path");
    reveal_strlit("json");
    reveal_strlit("log-level");
    reveal_strlit("max-minutes");
    reveal_strlit("pass");
    reveal_strlit("pass-stdin");
    reveal_strlit("project-id");
    reveal_strlit("resolution");
    reveal_strlit("source-machine");
    reveal_strlit("user");
    reveal_strlit("windowed");
    assert("cred-alias"@.len() == 10);
    assert("cred-alias"@[0] == 'c');
    assert("db-path"@.len() == 7);
    assert("json"@.len() == 4);
    assert("json"@[0] == 'j');
    assert("log-level"@.len() == 9);
    assert("max-minutes"@.len() == 11);
    assert("pass"@.len() == 4);
    assert("pass"@[0] == 'p');
    assert("pass-stdin"@.len() == 10);
    assert("pass-stdin"@[0] == 'p');
    assert("pass-stdin"@[1] == 'a');
    assert("project-id"@.len() == 10);
    assert("project-id"@[0] == 'p');
    assert("project-id"@[1] == 'r');
    assert("resolution"@.len() == 10);
    assert("resolution"@[0] == 'r');
    assert("source-machine"@.len() == 14);
    assert("user"@.len() == 4);
    assert("user"@[0] == 'u');
    assert("windowed"@.len() == 8);
    assert forall|j: int| 0 <= j < 3 implies (#[trigger] table[j]).name@ != "project-id"@ by {}
    lemma_find_from_at(table, "project-id"@, 0, 3);
    assert forall|j: int| 0 <= j < 4 implies (#[trigger] table[j]).name@ != "source-machine"@ by {}
    lemma_find_from_at(table, "source-machine"@, 0, 4);
    assert forall|j: int| 0 <= j < 5 implies (#[trigger] table[j]).name@ != "resolution"@ by {}
    lemma_find_from_at(table, "resolution"@, 0, 5);
    assert forall|j: int| 0 <= j < 7 implies (#[trigger] table[j]).name@ != "max-minutes"@ by {}
    lemma_find_from_at(table, "max-minutes"@, 0, 7);
    assert forall|j: int| 0 <= j < 8 implies (#[trigger] table[j]).name@ != "cred-alias"@ by {}
    lemma_find_from_at(table, "cred-alias"@, 0, 8);
    assert forall|j: int| 0 <= j < 9 implies (#[trigger] table[j]).name@ != "user"@ by {}
    lemma_find_from_at(table, "user"@, 0, 9);
    assert forall|j: int| 0 <= j < 10 implies (#[trigger] table[j]).name@ != "pass"@ by {}
    lemma_find_from_at(table, "pass"@, 0, 10);
    assert forall|j: int| 0 <= j < 11 implies (#[trigger] table[j]).name@ != "pass-stdin"@ by {}
    lemma_find_from_at(table, "pass-stdin"@, 0, 11);
}

/// `pso list`: every field of the parsed command is the value of the option
/// or positional of its name (a switch field: whether `--name` was given).
pub proof fn lemma_pso_list_by_name(argv: Seq<Seq<char>>, cli: Cli, st: ScanV)
    requires
        parse_spec(argv) == Ok::<(Leaf, ScanV), UsageErrorV>((Leaf::PsoList, st)),
        cli_fits(cli, Leaf::PsoList, st),
    ensures
        ({
            &&& cli.command matches Domain::Pso { action: PsoAction::List { project_id: f_project_id } }
            &&& f_project_id as int == int_named(Leaf::PsoList, st, "project-id"@, 0)
        }),
{
    let table = globals() + leaf_spec(Leaf::PsoList).opts;
    assert(globals().len() == 3);
    assert(leaf_spec(Leaf::PsoList).opts.len() == 1);
    assert(table[0] == globals()[0]);
    assert(table[0].name@ == "json"@);
    assert(table[1] == globals()[1]);
    assert(table[1].name@ == "db-path"@);
    assert(table[2] == globals()[2]);
    assert(table[2].name@ == "log-level"@);
    assert(table[3] == leaf_spec(Leaf::PsoList).opts[0]);
    assert(table[3].name@ == "project-id"@);
    reveal_strlit("db-path");
    reveal_strlit("json");
    reveal_strlit("log-level");
    reveal_strlit("project-id");
    assert("db-path"@.len() == 7);
    assert("json"@.len() == 4);
    assert("log-level"@.len() == 9);
    assert("project-id"@.len() == 10);
    assert forall|j: int| 0 <= j < 3 implies (#[trigger] table[j]).name@ != "project-id"@ by {}
    lemma_find_from_at(table, "project-id"@, 0, 3);
}

/// `pso distribute`: every field of the parsed command is the value of the option
/// or positional of its name (a switch field: whether `--name` was given).
pub proof fn lemma_pso_distribute_by_name(argv: Seq<Seq<char>>, cli: Cli, st: ScanV)
    requires
        parse_spec(argv) == Ok::<(Leaf, ScanV), UsageErrorV>((Leaf::PsoDistribute, st)),
        cli_fits(cli, Leaf::PsoDistribute, st),
    ensures
        ({
            &&& cli.command matches Domain::Pso { action: PsoAction::Distribute { project_id: f_project_id, source_machine: f_source_machine, targets: f_targets, yes: f_yes, dry_run: f_dry_run, cred: f_cred } }
            &&& f_project_id as int == int_named(Leaf::PsoDistribute, st, "project-id"@, 0)
            &&& f_source_machine as int == int_named(Leaf::PsoDistribute, st, "source-machine"@, 0)
            &&& f_targets@.map_values(|x: i64| x as int) == ints_named(Leaf::PsoDistribute, st, "targets"@)
            &&& f_yes == flag_named(Leaf::PsoDistribute, st, "yes"@)
            &&& f_dry_run == flag_named(Leaf::PsoDistribute, st, "dry-run"@)
            &&& cred_named(f_cred, Leaf::PsoDistribute, st)
        }),
{
    let table = globals() + leaf_spec(Leaf::PsoDistribute).opts;
    assert(globals().len() == 3);
    assert(leaf_spec(Leaf::PsoDistribute).opts.len() == 9);
    assert(table[0] == globals()[0]);
    assert(table[0].name@ == "json"@);
    assert(table[1] == globals()[1]);
    assert(table[1].name@ == "db-path"@);
    assert(table[2] == globals()[2]);
    assert(table[2].name@ == "log-level"@);
    assert(table[3] == leaf_spec(Leaf::PsoDistribute).opts[0]);
    assert(table[3].name@ == "project-id"@);
    assert(table[4] == leaf_spec(Leaf::PsoDistribute).opts[1]);
    assert(table[4].name@ == "source-machine"@);
    assert(table[5] == leaf_spec(Leaf::PsoDistribute).opts[2]);
    assert(table[5].name@ == "targets"@);
    assert(table[6] == leaf_spec(Leaf::PsoDistribute).opts[3]);
    assert(table[6].name@ == "yes"@);
    assert(table[7] == leaf_spec(Leaf::PsoDistribute).opts[4]);
    assert(table[7].name@ == "dry-run"@);
    assert(table[8] == leaf_spec(Leaf::PsoDistribute).opts[5]);
    assert(table[8].name@ == "cred-alias"@);
    assert(table[9] == leaf_spec(Leaf::PsoDistribute).opts[6]);
    assert(table[9].name@ == "user"@);
    assert(table[10] == leaf_spec(Leaf::PsoDistribute).opts[7]);
    assert(table[10].name@ == "pass"@);
    assert(table[11] == leaf_spec(Leaf::PsoDistribute).opts[8]);
    assert(table[11].name@ == "pass-stdin"@);
    reveal_strlit("cred-alias");
    reveal_strlit("db-path");
    reveal_strlit("dry-run");
    reveal_strlit("json");
    reveal_strlit("log-level");
    reveal_strlit("pass");
    reveal_strlit("pass-stdin");
    reveal_strlit("project-id");
    reveal_strlit("source-machine");
    reveal_strlit("targets");
    reveal_strlit("user");
    reveal_strlit("yes");
    assert("cred-alias"@.len() == 10);
    assert("cred-alias"@[0] == 'c');
    assert("db-path"@.len() == 7);
    assert("db-path"@[0] == 'd');
    assert("db-path"@[1] == 'b');
    assert("dry-run"@.len() == 7);
    assert("dry-run"@[0] == 'd');
    assert("dry-run"@[1] == 'r');
    assert("json"@.len() == 4);
    assert("json"@[0] == 'j');
    assert("log-level"@.len() == 9);
    assert("pass"@.len() == 4);
    assert("pass"@[0] == 'p');
    assert("pass-stdin"@.len() == 10);
    assert("pass-stdin"@[0] == 'p');
    assert("pass-stdin"@[1] == 'a');
    assert("project-id"@.len() == 10);
    assert("project-id"@[0] == 'p');
    assert("project-id"@[1] == 'r');
    assert("source-machine"@.len() == 14);
    assert("targets"@.len() == 7);
    assert("targets"@[0] == 't');
    assert("user"@.len() == 4);
    assert("user"@[0] == 'u');
    assert("yes"@.len() == 3);
    assert forall|j: int| 0 <= j < 3 implies (#[trigger] table[j]).name@ != "project-id"@ by {}
    lemma_find_from_at(table, "project-id"@, 0, 3);
    assert forall|j: int| 0 <= j < 4 implies (#[trigger] table[j]).name@ != "source-machine"@ by {}
    lemma_find_from_at(table, "source-machine"@, 0, 4);
    assert forall|j: int| 0 <= j < 5 implies (#[trigger] table[j]).name@ != "targets"@ by {}
    lemma_find_from_at(table, "targets"@, 0, 5);
    assert forall|j: int| 0 <= j < 6 implies (#[trigger] table[j]).name@ != "yes"@ by {}
    lemma_find_from_at(table, "yes"@, 0, 6);
    assert forall|j: int| 0 <= j < 7 implies (#[trigger] table[j]).name@ != "dry-run"@ by {}
    lemma_find_from_at(table, "dry-run"@, 0, 7);
    assert forall|j: int| 0 <= j < 8 implies (#[trigger] table[j]).name@ != "cred-alias"@ by {}
    lemma_find_from_at(table, "cred-alias"@, 0, 8);
    assert forall|j: int| 0 <= j < 9 implies (#[trigger] table[j]).name@ != "user"@ by {}
    lemma_find_from_at(table, "user"@, 0, 9);
    assert forall|j: int| 0 <= j < 10 implies (#[trigger] table[j]).name@ != "pass"@ by {}
    lemma_find_from_at(table, "pass"@, 0, 10);
    assert forall|j: int| 0 <= j < 11 implies (#[trigger] table[j]).name@ != "pass-stdin"@ by {}
    lemma_find_from_at(table, "pass-stdin"@, 0, 11);
}

/// `zen status`: every field of the parsed command is the value of the option
/// or positional of its name (a switch field: whether `--name` was given).
pub proof fn lemma_zen_status_by_name(argv: Seq<Seq<char>>, cli: Cli, st: ScanV)
    requires
        parse_spec(argv) == Ok::<(Leaf, ScanV), UsageErrorV>((Leaf::ZenStatus, st)),
        cli_fits(cli, Leaf::ZenStatus, st),
    ensures
        ({
            &&& cli.command matches Domain::Zen { action: ZenAction::Status { machine: f_machine, all: f_all } }
            &&& opt_int_view(f_machine) == opt_int_named(Leaf::ZenStatus, st, "machine"@)
            &&& f_all == flag_named(Leaf::ZenStatus, st, "all"@)
        }),
{
    let table = globals() + leaf_spec(Leaf::ZenStatus).opts;
    assert(globals().len() == 3);
    assert(leaf_spec(Leaf::ZenStatus).opts.len() == 2);
    assert(table[0] == globals()[0]);
    assert(table[0].name@ == "json"@);
    assert(table[1] == globals()[1]);
    assert(table[1].name@ == "db-path"@);
    assert(table[2] == globals()[2]);
    assert(table[2].name@ == "log-level"@);
    assert(table[3] == leaf_spec(Leaf::ZenStatus).opts[0]);
    assert(table[3].name@ == "machine"@);
    assert(table[4] == leaf_spec(Leaf::ZenStatus).opts[1]);
    assert(table[4].name@ == "all"@);
    reveal_strlit("all");
    reveal_strlit("db-path");
    reveal_strlit("json");
    reveal_strlit("log-level");
    reveal_strlit("machine");
    assert("all"@.len() == 3);
    assert("db-path"@.len() == 7);
    assert("db-path"@[0] == 'd');
    assert("json"@.len() == 4);
    assert("log-level"@.len() == 9);
    assert("machine"@.len() == 7);
    assert("machine"@[0] == 'm');
    assert forall|j: int| 0 <= j < 3 implies (#[trigger] table[j]).name@ != "machine"@ by {}
    lemma_find_from_at(table, "machine"@, 0, 3);
    assert forall|j: int| 0 <= j < 4 implies (#[trigger] table[j]).name@ != "all"@ by {}
    lemma_find_from_at(table, "all"@, 0, 4);
}

/// `zen probe`: every field of the parsed command is the value of the option
/// or positional of its name (a switch field: whether `--name` was given).
pub proof fn lemma_zen_probe_by_name(argv: Seq<Seq<char>>, cli: Cli, st: ScanV)
    requires
        parse_spec(argv) == Ok::<(Leaf, ScanV), UsageErrorV>((Leaf::ZenProbe, st)),
        cli_fits(cli, Leaf::ZenProbe, st),
    ensures
        ({
            &&& cli.command matches Domain::Zen { action: ZenAction::Probe { machine: f_machine, all: f_all, timeout: f_timeout, cred: f_cred } }
            &&& opt_int_view(f_machine) == opt_int_named(Leaf::ZenProbe, st, "machine"@)
            &&& f_all == flag_named(Leaf::ZenProbe, st, "all"@)
            &&& f_timeout as int == uint_named(Leaf::ZenProbe, st, "timeout"@, 0xffff_ffff_ffff_ffff, 5)
            &&& cred_named(f_cred, Leaf::ZenProbe, st)
        }),
{
    let table = globals() + leaf_spec(Leaf::ZenProbe).opts;
    assert(globals().len() == 3);
    assert(leaf_spec(Leaf::ZenProbe).opts.len() == 7);
    assert(table[0] == globals()[0]);
    assert(table[0].name@ == "json"@);
    assert(table[1] == globals()[1]);
    assert(table[1].name@ == "db-path"@);
    assert(table[2] == globals()[2]);
    assert(table[2].name@ == "log-level"@);
    assert(table[3] == leaf_spec(Leaf::ZenProbe).opts[0]);
    assert(table[3].name@ == "machine"@);
    assert(table[4] == leaf_spec(Leaf::ZenProbe).opts[1]);
    assert(table[4].name@ == "all"@);
    assert(table[5] == leaf_spec(Leaf::ZenProbe).opts[2]);
    assert(table[5].name@ == "timeout"@);
    assert(table[6] == leaf_spec(Leaf::ZenProbe).opts[3]);
    assert(table[6].name@ == "cred-alias"@);
    assert(table[7] == leaf_spec(Leaf::ZenProbe).opts[4]);
    assert(table[7].name@ == "user"@);
    assert(table[8] == leaf_spec(Leaf::ZenProbe).opts[5]);
    assert(table[8].name@ == "pass"@);
    assert(table[9] == leaf_spec(Leaf::ZenProbe).opts[6]);
    assert(table[9].name@ == "pass-stdin"@);
    reveal_strlit("all");
    reveal_strlit("cred-alias");
    reveal_strlit("db-path");
    reveal_strlit("json");
    reveal_strlit("log-level");
    reveal_strlit("machine");
    reveal_strlit("pass");
    reveal_strlit("pass-stdin");
    reveal_strlit("timeout");
    reveal_strlit("user");
    assert("all"@.len() == 3);
    assert("cred-alias"@.len() == 10);
    assert("cred-alias"@[0] == 'c');
    assert("db-path"@.len() == 7);
    assert("db-path"@[0] == 'd');
    assert("json"@.len() == 4);
    assert("json"@[0] == 'j');
    assert("log-level"@.len() == 9);
    assert("machine"@.len() == 7);
    assert("machine"@[0] == 'm');
    assert("pass"@.len() == 4);
    assert("pass"@[0] == 'p');
    assert("pass-stdin"@.len() == 10);
    assert("pass-stdin"@[0] == 'p');
    assert("timeout"@.len() == 7);
    assert("timeout"@[0] == 't');
    assert("user"@.len() == 4);
    assert("user"@[0] == 'u');
    assert forall|j: int| 0 <= j < 3 implies (#[trigger] table[j]).name@ != "machine"@ by {}
    lemma_find_from_at(table, "machine"@, 0, 3);
    assert forall|j: int| 0 <= j < 4 implies (#[trigger] table[j]).name@ != "all"@ by {}
    lemma_find_from_at(table, "all"@, 0, 4);
    assert forall|j: int| 0 <= j < 5 implies (#[trigger] table[j]).name@ != "timeout"@ by {}
    lemma_find_from_at(table, "timeout"@, 0, 5);
    assert forall|j: int| 0 <= j < 6 implies (#[trigger] table[j]).name@ != "cred-alias"@ by {}
    lemma_find_from_at(table, "cred-alias"@, 0, 6);
    assert forall|j: int| 0 <= j < 7 implies (#[trigger] table[j]).name@ != "user"@ by {}
    lemma_find_from_at(table, "user"@, 0, 7);
    assert forall|j: int| 0 <= j < 8 implies (#[trigger] table[j]).name@ != "pass"@ by {}
    lemma_find_from_at(table, "pass"@, 0, 8);
    assert forall|j: int| 0 <= j < 9 implies (#[trigger] table[j]).name@ != "pass-stdin"@ by {}
    lemma_find_from_at(table, "pass-stdin"@, 0, 9);
}

/// `zen cache-stats`: every field of the parsed command is the value of the option
/// or positional of its name (a switch field: whether `--name` was given).
pub proof fn lemma_zen_cache_stats_by_name(argv: Seq<Seq<char>>, cli: Cli, st: ScanV)
    requires
        parse_spec(argv) == Ok::<(Leaf, ScanV), UsageErrorV>((Leaf::ZenCacheStats, st)),
        cli_fits(cli, Leaf::ZenCacheStats, st),
    ensures
        ({
            &&& cli.command matches Domain::Zen { action: ZenAction::CacheStats { endpoint_id: f_endpoint_id, all: f_all, timeout: f_timeout } }
            &&& opt_int_view(f_endpoint_id) == opt_int_named(Leaf::ZenCacheStats, st, "endpoint-id"@)
            &&& f_all == flag_named(Leaf::ZenCacheStats, st, "all"@)
            &&& f_timeout as int == uint_named(Leaf::ZenCacheStats, st, "timeout"@, 0xffff_ffff_ffff_ffff, 5)
        }),
{
    let table = globals() + leaf_spec(Leaf::ZenCacheStats).opts;
    assert(globals().len() == 3);
    assert(leaf_spec(Leaf::ZenCacheStats).opts.len() == 3);
    assert(table[0] == globals()[0]);
    assert(table[0].name@ == "json"@);
    assert(table[1] == globals()[1]);
    assert(table[1].name@ == "db-path"@);
    assert(table[2] == globals()[2]);
    assert(table[2].name@ == "log-level"@);
    assert(table[3] == leaf_spec(Leaf::ZenCacheStats).opts[0]);
    assert(table[3].name@ == "endpoint-id"@);
    assert(table[4] == leaf_spec(Leaf::ZenCacheStats).opts[1]);
    assert(table[4].name@ == "all"@);
    assert(table[5] == leaf_spec(Leaf::ZenCacheStats).opts[2]);
    assert(table[5].name@ == "timeout"@);
    reveal_strlit("all");
    reveal_strlit("db-path");
    reveal_strlit("endpoint-id");
    reveal_strlit("json");
    reveal_strlit("log-level");
    reveal_strlit("timeout");
    assert("all"@.len() == 3);
    assert("db-path"@.len() == 7);
    assert("db-path"@[0] == 'd');
    assert("endpoint-id"@.len() == 11);
    assert("json"@.len() == 4);
    assert("log-level"@.len() == 9);
    assert("timeout"@.len() == 7);
    assert("timeout"@[0] == 't');
    assert forall|j: int| 0 <= j < 3 implies (#[trigger] table[j]).name@ != "endpoint-id"@ by {}
    lemma_find_from_at(table, "endpoint-id"@, 0, 3);
    assert forall|j: int| 0 <= j < 4 implies (#[trigger] table[j]).name@ != "all"@ by {}
    lemma_find_from_at(table, "all"@, 0, 4);
    assert forall|j: int| 0 <= j < 5 implies (#[trigger] table[j]).name@ != "timeout"@ by {}
    lemma_find_from_at(table, "timeout"@, 0, 5);
}

/// `zen detect-binary`: every field of the parsed command is the value of the option
/// or positional of its name (a switch field: whether `--name` was given).
pub proof fn lemma_zen_detect_binary_by_name(argv: Seq<Seq<char>>, cli: Cli, st: ScanV)
    requires
        parse_spec(argv) == Ok::<(Leaf, ScanV), UsageErrorV>((Leaf::ZenDetectBinary, st)),
        cli_fits(cli, Leaf::ZenDetectBinary, st),
    ensures
        ({
            &&& cli.command matches Domain::Zen { action: ZenAction::DetectBinary { machine: f_machine, all: f_all, cred: f_cred } }
            &&& opt_int_view(f_machine) == opt_int_named(Leaf::ZenDetectBinary, st, "machine"@)
            &&& f_all == flag_named(Leaf::ZenDetectBinary, st, "all"@)
            &&& cred_named(f_cred, Leaf::ZenDetectBinary, st)
        }),
{
    let table = globals() + leaf_spec(Leaf::ZenDetectBinary).opts;
    assert(globals().len() == 3);
    assert(leaf_spec(Leaf::ZenDetectBinary).opts.len() == 6);
    assert(table[0] == globals()[0]);
    assert(table[0].name@ == "json"@);
    assert(table[1] == globals()[1]);
    assert(table[1].name@ == "db-path"@);
    assert(table[2] == globals()[2]);
    assert(table[2].name@ == "log-level"@);
    assert(table[3] == leaf_spec(Leaf::ZenDetectBinary).opts[0]);
    assert(table[3].name@ == "machine"@);
    assert(table[4] == leaf_spec(Leaf::ZenDetectBinary).opts[1]);
    assert(table[4].name@ == "all"@);
    assert(table[5] == leaf_spec(Leaf::ZenDetectBinary).opts[2]);
    assert(table[5].name@ == "cred-alias"@);
    assert(table[6] == leaf_spec(Leaf::ZenDetectBinary).opts[3]);
    assert(table[6].name@ == "user"@);
    assert(table[7] == leaf_spec(Leaf::ZenDetectBinary).opts[4]);
    assert(table[7].name@ == "pass"@);
    assert(table[8] == leaf_spec(Leaf::ZenDetectBinary).opts[5]);
    assert(table[8].name@ == "pass-stdin"@);
    reveal_strlit("all");
    reveal_strlit("cred-alias");
    reveal_strlit("db-path");
    reveal_strlit("json");
    reveal_strlit("log-level");
    reveal_strlit("machine");
    reveal_strlit("pass");
    reveal_strlit("pass-stdin");
    reveal_strlit("user");
    assert("all"@.len() == 3);
    assert("cred-alias"@.len() == 10);
    assert("cred-alias"@[0] == 'c');
    assert("db-path"@.len() == 7);
    assert("db-path"@[0] == 'd');
    assert("json"@.len() == 4);
    assert("json"@[0] == 'j');
    assert("log-level"@.len() == 9);
    assert("machine"@.len() == 7);
    assert("machine"@[0] == 'm');
    assert("pass"@.len() == 4);
    assert("pass"@[0] == 'p');
    assert("pass-stdin"@.len() == 10);
    assert("pass-stdin"@[0] == 'p');
    assert("user"@.len() == 4);
    assert("user"@[0] == 'u');
    assert forall|j: int| 0 <= j < 3 implies (#[trigger] table[j]).name@ != "machine"@ by {}
    lemma_find_from_at(table, "machine"@, 0, 3);
    assert forall|j: int| 0 <= j < 4 implies (#[trigger] table[j]).name@ != "all"@ by {}
    lemma_find_from_at(table, "all"@, 0, 4);
    assert forall|j: int| 0 <= j < 5 implies (#[trigger] table[j]).name@ != "cred-alias"@ by {}
    lemma_find_from_at(table, "cred-alias"@, 0, 5);
    assert forall|j: int| 0 <= j < 6 implies (#[trigger] table[j]).name@ != "user"@ by {}
    lemma_find_from_at(table, "user"@, 0, 6);
    assert forall|j: int| 0 <= j < 7 implies (#[trigger] table[j]).name@ != "pass"@ by {}
    lemma_find_from_at(table, "pass"@, 0, 7);
    assert forall|j: int| 0 <= j < 8 implies (#[trigger] table[j]).name@ != "pass-stdin"@ by {}
    lemma_find_from_at(table, "pass-stdin"@, 0, 8);
}

/// `zen list-endpoints`: every field of the parsed command is the value of the option
/// or positional of its name (a switch field: whether `--name` was given).
pub proof fn lemma_zen_list_endpoints_by_name(argv: Seq<Seq<char>>, cli: Cli, st: ScanV)
    requires
        parse_spec(argv) == Ok::<(Leaf, ScanV), UsageErrorV>((Leaf::ZenListEndpoints, st)),
        cli_fits(cli, Leaf::ZenListEndpoints, st),
    ensures
        ({
            &&& cli.command matches Domain::Zen { action: ZenAction::ListEndpoints { machine: f_machine } }
            &&& opt_int_view(f_machine) == opt_int_named(Leaf::ZenListEndpoints, st, "machine"@)
        }),
{
    let table = globals() + leaf_spec(Leaf::ZenListEndpoints).opts;
    assert(globals().len() == 3);
    assert(leaf_spec(Leaf::ZenListEndpoints).opts.len() == 1);
    assert(table[0] == globals()[0]);
    assert(table[0].name@ == "json"@);
    assert(table[1] == globals()[1]);
    assert(table[1].name@ == "db-path"@);
    assert(table[2] == globals()[2]);
    assert(table[2].name@ == "log-level"@);
    assert(table[3] == leaf_spec(Leaf::ZenListEndpoints).opts[0]);
    assert(table[3].name@ == "machine"@);
    reveal_strlit("db-path");
    reveal_strlit("json");
    reveal_strlit("log-level");
    reveal_strlit("machine");
    assert("db-path"@[0] == 'd');
    assert("json"@.len() == 4);
    assert("log-level"@.len() == 9);
    assert("machine"@.len() == 7);
    assert("machine"@[0] == 'm');
    assert forall|j: int| 0 <= j < 3 implies (#[trigger] table[j]).name@ != "machine"@ by {}
    lemma_find_from_at(table, "machine"@, 0, 3);
}

/// `zen baseline list`: every field of the parsed command is the value of the option
/// or positional of its name (a switch field: whether `--name` was given).
pub proof fn lemma_zen_baseline_list_by_name(argv: Seq<Seq<char>>, cli: Cli, st: ScanV)
    requires
        parse_spec(argv) == Ok::<(Leaf, ScanV), UsageErrorV>((Leaf::ZenBaselineList, st)),
        cli_fits(cli, Leaf::ZenBaselineList, st),
    ensures
        ({
            &&& cli.command matches Domain::Zen { action: ZenAction::Baseline { action: ZenBaselineAction::List { zen_build_version: f_zen_build_version, kind: f_kind } } }
            &&& f_zen_build_version.deep_view() == opt_text_named(Leaf::ZenBaselineList, st, "zen-build-version"@)
            &&& f_kind.deep_view() == opt_text_named(Leaf::ZenBaselineList, st, "kind"@)
        }),
{
    let table = globals() + leaf_spec(Leaf::ZenBaselineList).opts;
    assert(globals().len() == 3);
    assert(leaf_spec(Leaf::ZenBaselineList).opts.len() == 2);
    assert(table[0] == globals()[0]);
    assert(table[0].name@ == "json"@);
    assert(table[1] == globals()[1]);
    assert(table[1].name@ == "db-path"@);
    assert(table[2] == globals()[2]);
    assert(table[2].name@ == "log-level"@);
    assert(table[3] == leaf_spec(Leaf::ZenBaselineList).opts[0]);
    assert(table[3].name@ == "zen-build-version"@);
    assert(table[4] == leaf_spec(Leaf::ZenBaselineList).opts[1]);
    assert(table[4].name@ == "kind"@);
    reveal_strlit("db-path");
    reveal_strlit("json");
    reveal_strlit("kind");
    reveal_strlit("log-level");
    reveal_strlit("zen-build-version");
    assert("db-path"@.len() == 7);
    assert("json"@.len() == 4);
    assert("json"@[0] == 'j');
    assert("kind"@.len() == 4);
    assert("kind"@[0] == 'k');
    assert("log-level"@.len() == 9);
    assert("zen-build-version"@.len() == 17);
    assert forall|j: int| 0 <= j < 3 implies (#[trigger] table[j]).name@ != "zen-build-version"@ by {}
    lemma_find_from_at(table, "zen-build-version"@, 0, 3);
    assert forall|j: int| 0 <= j < 4 implies (#[trigger] table[j]).name@ != "kind"@ by {}
    lemma_find_from_at(table, "kind"@, 0, 4);
}

/// `zen baseline lock`: every field of the parsed command is the value of the option
/// or positional of its name (a switch field: whether `--name` was given).
pub proof fn lemma_zen_baseline_lock_by_name(argv: Seq<Seq<char>>, cli: Cli, st: ScanV)
    requires
        parse_spec(argv) == Ok::<(Leaf, ScanV), UsageErrorV>((Leaf::ZenBaselineLock, st)),
        cli_fits(cli, Leaf::ZenBaselineLock, st),
    ensures
        ({
            &&& cli.command matches Domain::Zen { action: ZenAction::Baseline { action: ZenBaselineAction::Lock { zen_build_version: f_zen_build_version, kind: f_kind, locked_by: f_locked_by, yes: f_yes, dry_run: f_dry_run } } }
            &&& f_zen_build_version@ == text_named(Leaf::ZenBaselineLock, st, "zen-build-version"@, ""@)
            &&& f_kind@ == text_named(Leaf::ZenBaselineLock, st, "kind"@, ""@)
            &&& f_locked_by@ == text_named(Leaf::ZenBaselineLock, st, "locked-by"@, ""@)
            &&& f_yes == flag_named(Leaf::ZenBaselineLock, st, "yes"@)
            &&& f_dry_run == flag_named(Leaf::ZenBaselineLock, st, "dry-run"@)
        }),
{
    let table = globals() + leaf_spec(Leaf::ZenBaselineLock).opts;
    assert(globals().len() == 3);
    assert(leaf_spec(Leaf::ZenBaselineLock).opts.len() == 5);
    assert(table[0] == globals()[0]);
    assert(table[0].name@ == "json"@);
    assert(table[1] == globals()[1]);
    assert(table[1].name@ == "db-path"@);
    assert(table[2] == globals()[2]);
    assert(table[2].name@ == "log-level"@);
    assert(table[3] == leaf_spec(Leaf::ZenBaselineLock).opts[0]);
    assert(table[3].name@ == "zen-build-version"@);
    assert(table[4] == leaf_spec(Leaf::ZenBaselineLock).opts[1]);
    assert(table[4].name@ == "kind"@);
    assert(table[5] == leaf_spec(Leaf::ZenBaselineLock).opts[2]);
    assert(table[5].name@ == "locked-by"@);
    assert(table[6] == leaf_spec(Leaf::ZenBaselineLock).opts[3]);
    assert(table[6].name@ == "yes"@);
    assert(table[7] == leaf_spec(Leaf::ZenBaselineLock).opts[4]);
    assert(table[7].name@ == "dry-run"@);
    reveal_strlit("db-path");
    reveal_strlit("dry-run");
    reveal_strlit("json");
    reveal_strlit("kind");
    reveal_strlit("locked-by");
    reveal_strlit("log-level");
    reveal_strlit("yes");
    reveal_strlit("zen-build-version");
    assert("db-path"@.len() == 7);
    assert("db-path"@[1] == 'b');
    assert("dry-run"@.len() == 7);
    assert("dry-run"@[1] == 'r');
    assert("json"@.len() == 4);
    assert("json"@[0] == 'j');
    assert("kind"@.len() == 4);
    assert("kind"@[0] == 'k');
    assert("locked-by"@.len() == 9);
    assert("locked-by"@[2] == 'c');
    assert("log-level"@.len() == 9);
    assert("log-level"@[2] == 'g');
    assert("yes"@.len() == 3);
    assert("zen-build-version"@.len() == 17);
    assert forall|j: int| 0 <= j < 3 implies (#[trigger] table[j]).name@ != "zen-build-version"@ by {}
    lemma_find_from_at(table, "zen-build-version"@, 0, 3);
    assert forall|j: int| 0 <= j < 4 implies (#[trigger] table[j]).name@ != "kind"@ by {}
    lemma_find_from_at(table, "kind"@, 0, 4);
    assert forall|j: int| 0 <= j < 5 implies (#[trigger] table[j]).name@ != "locked-by"@ by {}
    lemma_find_from_at(table, "locked-by"@, 0, 5);
    assert forall|j: int| 0 <= j < 6 implies (#[trigger] table[j]).name@ != "yes"@ by {}
    lemma_find_from_at(table, "yes"@, 0, 6);
    assert forall|j: int| 0 <= j < 7 implies (#[trigger] table[j]).name@ != "dry-run"@ by {}
    lemma_find_from_at(table, "dry-run"@, 0, 7);
}

/// `zen baseline unlock`: every field of the parsed command is the value of the option
/// or positional of its name (a switch field: whether `--name` was given).
pub proof fn lemma_zen_baseline_unlock_by_name(argv: Seq<Seq<char>>, cli: Cli, st: ScanV)
    requires
        parse_spec(argv) == Ok::<(Leaf, ScanV), UsageErrorV>((Leaf::ZenBaselineUnlock, st)),
        cli_fits(cli, Leaf::ZenBaselineUnlock, st),
    ensures
        ({
            &&& cli.command matches Domain::Zen { action: ZenAction::Baseline { action: ZenBaselineAction::Unlock { zen_build_version: f_zen_build_version, kind: f_kind, yes: f_yes, dry_run: f_dry_run } } }
            &&& f_zen_build_version@ == text_named(Leaf::ZenBaselineUnlock, st, "zen-build-version"@, ""@)
            &&& f_kind@ == text_named(Leaf::ZenBaselineUnlock, st, "kind"@, ""@)
            &&& f_yes == flag_named(Leaf::ZenBaselineUnlock, st, "yes"@)
            &&& f_dry_run == flag_named(Leaf::ZenBaselineUnlock, st, "dry-run"@)
        }),
{
    let table = globals() + leaf_spec(Leaf::ZenBaselineUnlock).opts;
    assert(globals().len() == 3);
    assert(leaf_spec(Leaf::ZenBaselineUnlock).opts.len() == 4);
    assert(table[0] == globals()[0]);
    assert(table[0].name@ == "json"@);
    assert(table[1] == globals()[1]);
    assert(table[1].name@ == "db-path"@);
    assert(table[2] == globals()[2]);
    assert(table[2].name@ == "log-level"@);
    assert(table[3] == leaf_spec(Leaf::ZenBaselineUnlock).opts[0]);
    assert(table[3].name@ == "zen-build-version"@);
    assert(table[4] == leaf_spec(Leaf::ZenBaselineUnlock).opts[1]);
    assert(table[4].name@ == "kind"@);
    assert(table[5] == leaf_spec(Leaf::ZenBaselineUnlock).opts[2]);
    assert(table[5].name@ == "yes"@);
    assert(table[6] == leaf_spec(Leaf::ZenBaselineUnlock).opts[3]);
    assert(table[6].name@ == "dry-run"@);
    reveal_strlit("db-path");
    reveal_strlit("dry-run");
    reveal_strlit("json");
    reveal_strlit("kind");
    reveal_strlit("log-level");
    reveal_strlit("yes");
    reveal_strlit("zen-build-version");
    assert("db-path"@.len() == 7);
    assert("db-path"@[1] == 'b');
    assert("dry-run"@.len() == 7);
    assert("dry-run"@[1] == 'r');
    assert("json"@.len() == 4);
    assert("json"@[0] == 'j');
    assert("kind"@.len() == 4);
    assert("kind"@[0] == 'k');
    assert("log-level"@.len() == 9);
    assert("yes"@.len() == 3);
    assert("zen-build-version"@.len() == 17);
    assert forall|j: int| 0 <= j < 3 implies (#[trigger] table[j]).name@ != "zen-build-version"@ by {}
    lemma_find_from_at(table, "zen-build-version"@, 0, 3);
    assert forall|j: int| 0 <= j < 4 implies (#[trigger] table[j]).name@ != "kind"@ by {}
    lemma_find_from_at(table, "kind"@, 0, 4);
    assert forall|j: int| 0 <= j < 5 implies (#[trigger] table[j]).name@ != "yes"@ by {}
    lemma_find_from_at(table, "yes"@, 0, 5);
    assert forall|j: int| 0 <= j < 6 implies (#[trigger] table[j]).name@ != "dry-run"@ by {}
    lemma_find_from_at(table, "dry-run"@, 0, 6);
}

/// `zen register`: every field of the parsed command is the value of the option
/// or positional of its name (a switch field: whether `--name` was given).
pub proof fn lemma_zen_register_by_name(argv: Seq<Seq<char>>, cli: Cli, st: ScanV)
    requires
        parse_spec(argv) == Ok::<(Leaf, ScanV), UsageErrorV>((Leaf::ZenRegister, st)),
        cli_fits(cli, Leaf::ZenRegister, st),
    ensures
        ({
            &&& cli.command matches Domain::Zen { action: ZenAction::Register { machine: f_machine, declared_port: f_declared_port, scheme: f_scheme, role: f_role, upstream_endpoint_id: f_upstream_endpoint_id, data_dir: f_data_dir, httpserverclass: f_httpserverclass, lifecycle: f_lifecycle } }
            &&& f_machine as int == int_named(Leaf::ZenRegister, st, "machine"@, 0)
            &&& f_declared_port as int == int_named(Leaf::ZenRegister, st, "declared-port"@, 8558)
            &&& f_scheme@ == text_named(Leaf::ZenRegister, st, "scheme"@, "http"@)
            &&& f_role@ == text_named(Leaf::ZenRegister, st, "role"@, ""@)
            &&& opt_int_view(f_upstream_endpoint_id) == opt_int_named(Leaf::ZenRegister, st, "upstream-endpoint-id"@)
            &&& f_data_dir@ == text_named(Leaf::ZenRegister, st, "data-dir"@, "D:\\UECM\\ZenData"@)
            &&& f_httpserverclass@ == text_named(Leaf::ZenRegister, st, "httpserverclass"@, "asio"@)
            &&& f_lifecycle.deep_view() == opt_text_named(Leaf::ZenRegister, st, "lifecycle"@)
        }),
{
    let table = globals() + leaf_spec(Leaf::ZenRegister).opts;
    assert(globals().len() == 3);
    assert(leaf_spec(Leaf::ZenRegister).opts.len() == 8);
    assert(table[0] == globals()[0]);
    assert(table[0].name@ == "json"@);
    assert(table[1] == globals()[1]);
    assert(table[1].name@ == "db-path"@);
    assert(table[2] == globals()[2]);
    assert(table[2].name@ == "log-level"@);
    assert(table[3] == leaf_spec(Leaf::ZenRegister).opts[0]);
    assert(table[3].name@ == "machine"@);
    assert(table[4] == leaf_spec(Leaf::ZenRegister).opts[1]);
    assert(table[4].name@ == "declared-port"@);
    assert(table[5] == leaf_spec(Leaf::ZenRegister).opts[2]);
    assert(table[5].name@ == "scheme"@);
    assert(table[6] == leaf_spec(Leaf::ZenRegister).opts[3]);
    assert(table[6].name@ == "role"@);
    assert(table[7] == leaf_spec(Leaf::ZenRegister).opts[4]);
    assert(table[7].name@ == "upstream-endpoint-id"@);
    assert(table[8] == leaf_spec(Leaf::ZenRegister).opts[5]);
    assert(table[8].name@ == "data-dir"@);
    assert(table[9] == leaf_spec(Leaf::ZenRegister).opts[6]);
    assert(table[9].name@ == "httpserverclass"@);
    assert(table[10] == leaf_spec(Leaf::ZenRegister).opts[7]);
    assert(table[10].name@ == "lifecycle"@);
    reveal_strlit("data-dir");
    reveal_strlit("db-path");
    reveal_strlit("declared-port");
    reveal_strlit("httpserverclass");
    reveal_strlit("json");
    reveal_strlit("lifecycle");
    reveal_strlit("log-level");
    reveal_strlit("machine");
    reveal_strlit("role");
    reveal_strlit("scheme");
    reveal_strlit("upstream-endpoint-id");
    assert("data-dir"@.len() == 8);
    assert("db-path"@.len() == 7);
    assert("db-path"@[0] == 'd');
    assert("declared-port"@.len() == 13);
    assert("httpserverclass"@.len() == 15);
    assert("json"@.len() == 4);
    assert("json"@[0] == 'j');
    assert("lifecycle"@.len() == 9);
    assert("lifecycle"@[1] == 'i');
    assert("log-level"@.len() == 9);
    assert("log-level"@[1] == 'o');
    assert("machine"@.len() == 7);
    assert("machine"@[0] == 'm');
    assert("role"@.len() == 4);
    assert("role"@[0] == 'r');
    assert("scheme"@.len() == 6);
    assert("upstream-endpoint-id"@.len() == 20);
    assert forall|j: int| 0 <= j < 3 implies (#[trigger] table[j]).name@ != "machine"@ by {}
    lemma_find_from_at(table, "machine"@, 0, 3);
    assert forall|j: int| 0 <= j < 4 implies (#[trigger] table[j]).name@ != "declared-port"@ by {}
    lemma_find_from_at(table, "declared-port"@, 0, 4);
    assert forall|j: int| 0 <= j < 5 implies (#[trigger] table[j]).name@ != "scheme"@ by {}
    lemma_find_from_at(table, "scheme"@, 0, 5);
    assert forall|j: int| 0 <= j < 6 implies (#[trigger] table[j]).name@ != "role"@ by {}
    lemma_find_from_at(table, "role"@, 0, 6);
    assert forall|j: int| 0 <= j < 7 implies (#[trigger] table[j]).name@ != "upstream-endpoint-id"@ by {}
    lemma_find_from_at(table, "upstream-endpoint-id"@, 0, 7);
    assert forall|j: int| 0 <= j < 8 implies (#[trigger] table[j]).name@ != "data-dir"@ by {}
    lemma_find_from_at(table, "data-dir"@, 0, 8);
    assert forall|j: int| 0 <= j < 9 implies (#[trigger] table[j]).name@ != "httpserverclass"@ by {}
    lemma_find_from_at(table, "httpserverclass"@, 0, 9);
    assert forall|j: int| 0 <= j < 10 implies (#[trigger] table[j]).name@ != "lifecycle"@ by {}
    lemma_find_from_at(table, "lifecycle"@, 0, 10);
}

/// `zen unregister`: every field of the parsed command is the value of the option
/// or positional of its name (a switch field: whether `--name` was given).
pub proof fn lemma_zen_unregister_by_name(argv: Seq<Seq<char>>, cli: Cli, st: ScanV)
    requires
        parse_spec(argv) == Ok::<(Leaf, ScanV), UsageErrorV>((Leaf::ZenUnregister, st)),
        cli_fits(cli, Leaf::ZenUnregister, st),
    ensures
        ({
            &&& cli.command matches Domain::Zen { action: ZenAction::Unregister { endpoint_id: f_endpoint_id, yes: f_yes, dry_run: f_dry_run } }
            &&& f_endpoint_id as int == int_named(Leaf::ZenUnregister, st, "endpoint-id"@, 0)
            &&& f_yes == flag_named(Leaf::ZenUnregister, st, "yes"@)
            &&& f_dry_run == flag_named(Leaf::ZenUnregister, st, "dry-run"@)
        }),
{
    let table = globals() + leaf_spec(Leaf::ZenUnregister).opts;
    assert(globals().len() == 3);
    assert(leaf_spec(Leaf::ZenUnregister).opts.len() == 3);
    assert(table[0] == globals()[0]);
    assert(table[0].name@ == "json"@);
    assert(table[1] == globals()[1]);
    assert(table[1].name@ == "db-path"@);
    assert(table[2] == globals()[2]);
    assert(table[2].name@ == "log-level"@);
    assert(table[3] == leaf_spec(Leaf::ZenUnregister).opts[0]);
    assert(table[3].name@ == "endpoint-id"@);
    assert(table[4] == leaf_spec(Leaf::ZenUnregister).opts[1]);
    assert(table[4].name@ == "yes"@);
    assert(table[5] == leaf_spec(Leaf::ZenUnregister).opts[2]);
    assert(table[5].name@ == "dry-run"@);
    reveal_strlit("db-path");
    reveal_strlit("dry-run");
    reveal_strlit("endpoint-id");
    reveal_strlit("json");
    reveal_strlit("log-level");
    reveal_strlit("yes");
    assert("db-path"@.len() == 7);
    assert("db-path"@[1] == 'b');
    assert("dry-run"@.len() == 7);
    assert("dry-run"@[1] == 'r');
    assert("endpoint-id"@.len() == 11);
    assert("json"@.len() == 4);
    assert("log-level"@.len() == 9);
    assert("yes"@.len() == 3);
    assert forall|j: int| 0 <= j < 3 implies (#[trigger] table[j]).name@ != "endpoint-id"@ by {}
    lemma_find_from_at(table, "endpoint-id"@, 0, 3);
    assert forall|j: int| 0 <= j < 4 implies (#[trigger] table[j]).name@ != "yes"@ by {}
    lemma_find_from_at(table, "yes"@, 0, 4);
    assert forall|j: int| 0 <= j < 5 implies (#[trigger] table[j]).name@ != "dry-run"@ by {}
    lemma_find_from_at(table, "dry-run"@, 0, 5);
}

/// `zen apply-config`: every field of the parsed command is the value of the option
/// or positional of its name (a switch field: whether `--name` was given).
pub proof fn lemma_zen_apply_config_by_name(argv: Seq<Seq<char>>, cli: Cli, st: ScanV)
    requires
        parse_spec(argv) == Ok::<(Leaf, ScanV), UsageErrorV>((Leaf::ZenApplyConfig, st)),
        cli_fits(cli, Leaf::ZenApplyConfig, st),
    ensures
        ({
            &&& cli.command matches Domain::Zen { action: ZenAction::ApplyConfig { endpoint_id: f_endpoint_id, dest_path: f_dest_path, yes: f_yes, dry_run: f_dry_run, cred: f_cred } }
            &&& f_endpoint_id as int == int_named(Leaf::ZenApplyConfig, st, "endpoint-id"@, 0)
            &&& f_dest_path@ == text_named(Leaf::ZenApplyConfig, st, "dest-path"@, ""@)
            &&& f_yes == flag_named(Leaf::ZenApplyConfig, st, "yes"@)
            &&& f_dry_run == flag_named(Leaf::ZenApplyConfig, st, "dry-run"@)
            &&& cred_named(f_cred, Leaf::ZenApplyConfig, st)
        }),
{
    let table = globals() + leaf_spec(Leaf::ZenApplyConfig).opts;
    assert(globals().len() == 3);
    assert(leaf_spec(Leaf::ZenApplyConfig).opts.len() == 8);
    assert(table[0] == globals()[0]);
    assert(table[0].name@ == "json"@);
    assert(table[1] == globals()[1]);
    assert(table[1].name@ == "db-path"@);
    assert(table[2] == globals()[2]);
    assert(table[2].name@ == "log-level"@);
    assert(table[3] == leaf_spec(Leaf::ZenApplyConfig).opts[0]);
    assert(table[3].name@ == "endpoint-id"@);
    assert(table[4] == leaf_spec(Leaf::ZenApplyConfig).opts[1]);
    assert(table[4].name@ == "dest-path"@);
    assert(table[5] == leaf_spec(Leaf::ZenApplyConfig).opts[2]);
    assert(table[5].name@ == "yes"@);
    assert(table[6] == leaf_spec(Leaf::ZenApplyConfig).opts[3]);
    assert(table[6].name@ == "dry-run"@);
    assert(table[7] == leaf_spec(Leaf::ZenApplyConfig).opts[4]);
    assert(table[7].name@ == "cred-alias"@);
    assert(table[8] == leaf_spec(Leaf::ZenApplyConfig).opts[5]);
    assert(table[8].name@ == "user"@);
    assert(table[9] == leaf_spec(Leaf::ZenApplyConfig).opts[6]);
    assert(table[9].name@ == "pass"@);
    assert(table[10] == leaf_spec(Leaf::ZenApplyConfig).opts[7]);
    assert(table[10].name@ == "pass-stdin"@);
    reveal_strlit("cred-alias");
    reveal_strlit("db-path");
    reveal_strlit("dest-path");
    reveal_strlit("dry-run");
    reveal_strlit("endpoint-id");
    reveal_strlit("json");
    reveal_strlit("log-level");
    reveal_strlit("pass");
    reveal_strlit("pass-stdin");
    reveal_strlit("user");
    reveal_strlit("yes");
    assert("cred-alias"@.len() == 10);
    assert("cred-alias"@[0] == 'c');
    assert("db-path"@.len() == 7);
    assert("db-path"@[1] == 'b');
    assert("dest-path"@.len() == 9);
    assert("dest-path"@[0] == 'd');
    assert("dry-run"@.len() == 7);
    assert("dry-run"@[1] == 'r');
    assert("endpoint-id"@.len() == 11);
    assert("json"@.len() == 4);
    assert("json"@[0] == 'j');
    assert("log-level"@.len() == 9);
    assert("log-level"@[0] == 'l');
    assert("pass"@.len() == 4);
    assert("pass"@[0] == 'p');
    assert("pass-stdin"@.len() == 10);
    assert("pass-stdin"@[0] == 'p');
    assert("user"@.len() == 4);
    assert("user"@[0] == 'u');
    assert("yes"@.len() == 3);
    assert forall|j: int| 0 <= j < 3 implies (#[trigger] table[j]).name@ != "endpoint-id"@ by {}
    lemma_find_from_at(table, "endpoint-id"@, 0, 3);
    assert forall|j: int| 0 <= j < 4 implies (#[trigger] table[j]).name@ != "dest-path"@ by {}
    lemma_find_from_at(table, "dest-path"@, 0, 4);
    assert forall|j: int| 0 <= j < 5 implies (#[trigger] table[j]).name@ != "yes"@ by {}
    lemma_find_from_at(table, "yes"@, 0, 5);
    assert forall|j: int| 0 <= j < 6 implies (#[trigger] table[j]).name@ != "dry-run"@ by {}
    lemma_find_from_at(table, "dry-run"@, 0, 6);
    assert forall|j: int| 0 <= j < 7 implies (#[trigger] table[j]).name@ != "cred-alias"@ by {}
    lemma_find_from_at(table, "cred-alias"@, 0, 7);
    assert forall|j: int| 0 <= j < 8 implies (#[trigger] table[j]).name@ != "user"@ by {}
    lemma_find_from_at(table, "user"@, 0, 8);
    assert forall|j: int| 0 <= j < 9 implies (#[trigger] table[j]).name@ != "pass"@ by {}
    lemma_find_from_at(table, "pass"@, 0, 9);
    assert forall|j: int| 0 <= j < 10 implies (#[trigger] table[j]).name@ != "pass-stdin"@ by {}
    lemma_find_from_at(table, "pass-stdin"@, 0, 10);
}

/// `zen lua-preview`: every field of the parsed command is the value of the option
/// or positional of its name (a switch field: whether `--name` was given).
pub proof fn lemma_zen_lua_preview_by_name(argv: Seq<Seq<char>>, cli: Cli, st: ScanV)
    requires
        parse_spec(argv) == Ok::<(Leaf, ScanV), UsageErrorV>((Leaf::ZenLuaPreview, st)),
        cli_fits(cli, Leaf::ZenLuaPreview, st),
    ensures
        ({
            &&& cli.command matches Domain::Zen { action: ZenAction::LuaPreview { endpoint_id: f_endpoint_id } }
            &&& f_endpoint_id as int == int_named(Leaf::ZenLuaPreview, st, "endpoint-id"@, 0)
        }),
{
    let table = globals() + leaf_spec(Leaf::ZenLuaPreview).opts;
    assert(globals().len() == 3);
    assert(leaf_spec(Leaf::ZenLuaPreview).opts.len() == 1);
    assert(table[0] == globals()[0]);
    assert(table[0].name@ == "json"@);
    assert(table[1] == globals()[1]);
    assert(table[1].name@ == "db-path"@);
    assert(table[2] == globals()[2]);
    assert(table[2].name@ == "log-level"@);
    assert(table[3] == leaf_spec(Leaf::ZenLuaPreview).opts[0]);
    assert(table[3].name@ == "endpoint-id"@);
    reveal_strlit("db-path");
    reveal_strlit("endpoint-id");
    reveal_strlit("json");
    reveal_strlit("log-level");
    assert("db-path"@.len() == 7);
    assert("endpoint-id"@.len() == 11);
    assert("json"@.len() == 4);
    assert("log-level"@.len() == 9);
    assert forall|j: int| 0 <= j < 3 implies (#[trigger] table[j]).name@ != "endpoint-id"@ by {}
    lemma_find_from_at(table, "endpoint-id"@, 0, 3);
}

/// `zen service install`: every field of the parsed command is the value of the option
/// or positional of its name (a switch field: whether `--name` was given).
pub proof fn lemma_zen_service_install_by_name(argv: Seq<Seq<char>>, cli: Cli, st: ScanV)
    requires
        parse_spec(argv) == Ok::<(Leaf, ScanV), UsageErrorV>((Leaf::ZenServiceInstall, st)),
        cli_fits(cli, Leaf::ZenServiceInstall, st),
    ensures
        ({
            &&& cli.command matches Domain::Zen { action: ZenAction::Service { action: ZenServiceAction::Install { endpoint_id: f_endpoint_id, yes: f_yes, dry_run: f_dry_run, cred: f_cred } } }
            &&& f_endpoint_id as int == int_named(Leaf::ZenServiceInstall, st, "endpoint-id"@, 0)
            &&& f_yes == flag_named(Leaf::ZenServiceInstall, st, "yes"@)
            &&& f_dry_run == flag_named(Leaf::ZenServiceInstall, st, "dry-run"@)
            &&& cred_named(f_cred, Leaf::ZenServiceInstall, st)
        }),
{
    let table = globals() + leaf_spec(Leaf::ZenServiceInstall).opts;
    assert(globals().len() == 3);
    assert(leaf_spec(Leaf::ZenServiceInstall).opts.len() == 7);
    assert(table[0] == globals()[0]);
    assert(table[0].name@ == "json"@);
    assert(table[1] == globals()[1]);
    assert(table[1].name@ == "db-path"@);
    assert(table[2] == globals()[2]);
    assert(table[2].name@ == "log-level"@);
    assert(table[3] == leaf_spec(Leaf::ZenServiceInstall).opts[0]);
    assert(table[3].name@ == "endpoint-id"@);
    assert(table[4] == leaf_spec(Leaf::ZenServiceInstall).opts[1]);
    assert(table[4].name@ == "yes"@);
    assert(table[5] == leaf_spec(Leaf::ZenServiceInstall).opts[2]);
    assert(table[5].name@ == "dry-run"@);
    assert(table[6] == leaf_spec(Leaf::ZenServiceInstall).opts[3]);
    assert(table[6].name@ == "cred-alias"@);
    assert(table[7] == leaf_spec(Leaf::ZenServiceInstall).opts[4]);
    assert(table[7].name@ == "user"@);
    assert(table[8] == leaf_spec(Leaf::ZenServiceInstall).opts[5]);
    assert(table[8].name@ == "pass"@);
    assert(table[9] == leaf_spec(Leaf::ZenServiceInstall).opts[6]);
    assert(table[9].name@ == "pass-stdin"@);
    reveal_strlit("cred-alias");
    reveal_strlit("db-path");
    reveal_strlit("dry-run");
    reveal_strlit("endpoint-id");
    reveal_strlit("json");
    reveal_strlit("log-level");
    reveal_strlit("pass");
    reveal_strlit("pass-stdin");
    reveal_strlit("user");
    reveal_strlit("yes");
    assert("cred-alias"@.len() == 10);
    assert("cred-alias"@[0] == 'c');
    assert("db-path"@.len() == 7);
    assert("db-path"@[1] == 'b');
    assert("dry-run"@.len() == 7);
    assert("dry-run"@[1] == 'r');
    assert("endpoint-id"@.len() == 11);
    assert("json"@.len() == 4);
    assert("json"@[0] == 'j');
    assert("log-level"@.len() == 9);
    assert("pass"@.len() == 4);
    assert("pass"@[0] == 'p');
    assert("pass-stdin"@.len() == 10);
    assert("pass-stdin"@[0] == 'p');
    assert("user"@.len() == 4);
    assert("user"@[0] == 'u');
    assert("yes"@.len() == 3);
    assert forall|j: int| 0 <= j < 3 implies (#[trigger] table[j]).name@ != "endpoint-id"@ by {}
    lemma_find_from_at(table, "endpoint-id"@, 0, 3);
    assert forall|j: int| 0 <= j < 4 implies (#[trigger] table[j]).name@ != "yes"@ by {}
    lemma_find_from_at(table, "yes"@, 0, 4);
    assert forall|j: int| 0 <= j < 5 implies (#[trigger] table[j]).name@ != "dry-run"@ by {}
    lemma_find_from_at(table, "dry-run"@, 0, 5);
    assert forall|j: int| 0 <= j < 6 implies (#[trigger] table[j]).name@ != "cred-alias"@ by {}
    lemma_find_from_at(table, "cred-alias"@, 0, 6);
    assert forall|j: int| 0 <= j < 7 implies (#[trigger] table[j]).name@ != "user"@ by {}
    lemma_find_from_at(table, "user"@, 0, 7);
    assert forall|j: int| 0 <= j < 8 implies (#[trigger] table[j]).name@ != "pass"@ by {}
    lemma_find_from_at(table, "pass"@, 0, 8);
    assert forall|j: int| 0 <= j < 9 implies (#[trigger] table[j]).name@ != "pass-stdin"@ by {}
    lemma_find_from_at(table, "pass-stdin"@, 0, 9);
}

/// `zen service uninstall`: every field of the parsed command is the value of the option
/// or positional of its name (a switch field: whether `--name` was given).
pub proof fn lemma_zen_service_uninstall_by_name(argv: Seq<Seq<char>>, cli: Cli, st: ScanV)
    requires
        parse_spec(argv) == Ok::<(Leaf, ScanV), UsageErrorV>((Leaf::ZenServiceUninstall, st)),
        cli_fits(cli, Leaf::ZenServiceUninstall, st),
    ensures
        ({
            &&& cli.command matches Domain::Zen { action: ZenAction::Service { action: ZenServiceAction::Uninstall { endpoint_id: f_endpoint_id, yes: f_yes, dry_run: f_dry_run, cred: f_cred } } }
            &&& f_endpoint_id as int == int_named(Leaf::ZenServiceUninstall, st, "endpoint-id"@, 0)
            &&& f_yes == flag_named(Leaf::ZenServiceUninstall, st, "yes"@)
            &&& f_dry_run == flag_named(Leaf::ZenServiceUninstall, st, "dry-run"@)
            &&& cred_named(f_cred, Leaf::ZenServiceUninstall, st)
        }),
{
    let table = globals() + leaf_spec(Leaf::ZenServiceUninstall).opts;
    assert(globals().len() == 3);
    assert(leaf_spec(Leaf::ZenServiceUninstall).opts.len() == 7);
    assert(table[0] == globals()[0]);
    assert(table[0].name@ == "json"@);
    assert(table[1] == globals()[1]);
    assert(table[1].name@ == "db-path"@);
    assert(table[2] == globals()[2]);
    assert(table[2].name@ == "log-level"@);
    assert(table[3] == leaf_spec(Leaf::ZenServiceUninstall).opts[0]);
    assert(table[3].name@ == "endpoint-id"@);
    assert(table[4] == leaf_spec(Leaf::ZenServiceUninstall).opts[1]);
    assert(table[4].name@ == "yes"@);
    assert(table[5] == leaf_spec(Leaf::ZenServiceUninstall).opts[2]);
    assert(table[5].name@ == "dry-run"@);
    assert(table[6] == leaf_spec(Leaf::ZenServiceUninstall).opts[3]);
    assert(table[6].name@ == "cred-alias"@);
    assert(table[7] == leaf_spec(Leaf::ZenServiceUninstall).opts[4]);
    assert(table[7].name@ == "user"@);
    assert(table[8] == leaf_spec(Leaf::ZenServiceUninstall).opts[5]);
    assert(table[8].name@ == "pass"@);
    assert(table[9] == leaf_spec(Leaf::ZenServiceUninstall).opts[6]);
    assert(table[9].name@ == "pass-stdin"@);
    reveal_strlit("cred-alias");
    reveal_strlit("db-path");
    reveal_strlit("dry-run");
    reveal_strlit("endpoint-id");
    reveal_strlit("json");
    reveal_strlit("log-level");
    reveal_strlit("pass");
    reveal_strlit("pass-stdin");
    reveal_strlit("user");
    reveal_strlit("yes");
    assert("cred-alias"@.len() == 10);
    assert("cred-alias"@[0] == 'c');
    assert("db-path"@.len() == 7);
    assert("db-path"@[1] == 'b');
    assert("dry-run"@.len() == 7);
    assert("dry-run"@[1] == 'r');
    assert("endpoint-id"@.len() == 11);
    assert("json"@.len() == 4);
    assert("json"@[0] == 'j');
    assert("log-level"@.len() == 9);
    assert("pass"@.len() == 4);
    assert("pass"@[0] == 'p');
    assert("pass-stdin"@.len() == 10);
    assert("pass-stdin"@[0] == 'p');
    assert("user"@.len() == 4);
    assert("user"@[0] == 'u');
    assert("yes"@.len() == 3);
    assert forall|j: int| 0 <= j < 3 implies (#[trigger] table[j]).name@ != "endpoint-id"@ by {}
    lemma_find_from_at(table, "endpoint-id"@, 0, 3);
    assert forall|j: int| 0 <= j < 4 implies (#[trigger] table[j]).name@ != "yes"@ by {}
    lemma_find_from_at(table, "yes"@, 0, 4);
    assert forall|j: int| 0 <= j < 5 implies (#[trigger] table[j]).name@ != "dry-run"@ by {}
    lemma_find_from_at(table, "dry-run"@, 0, 5);
    assert forall|j: int| 0 <= j < 6 implies (#[trigger] table[j]).name@ != "cred-alias"@ by {}
    lemma_find_from_at(table, "cred-alias"@, 0, 6);
    assert forall|j: int| 0 <= j < 7 implies (#[trigger] table[j]).name@ != "user"@ by {}
    lemma_find_from_at(table, "user"@, 0, 7);
    assert forall|j: int| 0 <= j < 8 implies (#[trigger] table[j]).name@ != "pass"@ by {}
    lemma_find_from_at(table, "pass"@, 0, 8);
    assert forall|j: int| 0 <= j < 9 implies (#[trigger] table[j]).name@ != "pass-stdin"@ by {}
    lemma_find_from_at(table, "pass-stdin"@, 0, 9);
}

/// `zen service start`: every field of the parsed command is the value of the option
/// or positional of its name (a switch field: whether `--name` was given).
pub proof fn lemma_zen_service_start_by_name(argv: Seq<Seq<char>>, cli: Cli, st: ScanV)
    requires
        parse_spec(argv) == Ok::<(Leaf, ScanV), UsageErrorV>((Leaf::ZenServiceStart, st)),
        cli_fits(cli, Leaf::ZenServiceStart, st),
    ensures
        ({
            &&& cli.command matches Domain::Zen { action: ZenAction::Service { action: ZenServiceAction::Start { endpoint_id: f_endpoint_id, cred: f_cred } } }
            &&& f_endpoint_id as int == int_named(Leaf::ZenServiceStart, st, "endpoint-id"@, 0)
            &&& cred_named(f_cred, Leaf::ZenServiceStart, st)
        }),
{
    let table = globals() + leaf_spec(Leaf::ZenServiceStart).opts;
    assert(globals().len() == 3);
    assert(leaf_spec(Leaf::ZenServiceStart).opts.len() == 5);
    assert(table[0] == globals()[0]);
    assert(table[0].name@ == "json"@);
    assert(table[1] == globals()[1]);
    assert(table[1].name@ == "db-path"@);
    assert(table[2] == globals()[2]);
    assert(table[2].name@ == "log-level"@);
    assert(table[3] == leaf_spec(Leaf::ZenServiceStart).opts[0]);
    assert(table[3].name@ == "endpoint-id"@);
    assert(table[4] == leaf_spec(Leaf::ZenServiceStart).opts[1]);
    assert(table[4].name@ == "cred-alias"@);
    assert(table[5] == leaf_spec(Leaf::ZenServiceStart).opts[2]);
    assert(table[5].name@ == "user"@);
    assert(table[6] == leaf_spec(Leaf::ZenServiceStart).opts[3]);
    assert(table[6].name@ == "pass"@);
    assert(table[7] == leaf_spec(Leaf::ZenServiceStart).opts[4]);
    assert(table[7].name@ == "pass-stdin"@);
    reveal_strlit("cred-alias");
    reveal_strlit("db-path");
    reveal_strlit("endpoint-id");
    reveal_strlit("json");
    reveal_strlit("log-level");
    reveal_strlit("pass");
    reveal_strlit("pass-stdin");
    reveal_strlit("user");
    assert("cred-alias"@.len() == 10);
    assert("cred-alias"@[0] == 'c');
    assert("db-path"@.len() == 7);
    assert("endpoint-id"@.len() == 11);
    assert("json"@.len() == 4);
    assert("json"@[0] == 'j');
    assert("log-level"@.len() == 9);
    assert("pass"@.len() == 4);
    assert("pass"@[0] == 'p');
    assert("pass-stdin"@.len() == 10);
    assert("pass-stdin"@[0] == 'p');
    assert("user"@.len() == 4);
    assert("user"@[0] == 'u');
    assert forall|j: int| 0 <= j < 3 implies (#[trigger] table[j]).name@ != "endpoint-id"@ by {}
    lemma_find_from_at(table, "endpoint-id"@, 0, 3);
    assert forall|j: int| 0 <= j < 4 implies (#[trigger] table[j]).name@ != "cred-alias"@ by {}
    lemma_find_from_at(table, "cred-alias"@, 0, 4);
    assert forall|j: int| 0 <= j < 5 implies (#[trigger] table[j]).name@ != "user"@ by {}
    lemma_find_from_at(table, "user"@, 0, 5);
    assert forall|j: int| 0 <= j < 6 implies (#[trigger] table[j]).name@ != "pass"@ by {}
    lemma_find_from_at(table, "pass"@, 0, 6);
    assert forall|j: int| 0 <= j < 7 implies (#[trigger] table[j]).name@ != "pass-stdin"@ by {}
    lemma_find_from_at(table, "pass-stdin"@, 0, 7);
}

/// `zen service stop`: every field of the parsed command is the value of the option
/// or positional of its name (a switch field: whether `--name` was given).
pub proof fn lemma_zen_service_stop_by_name(argv: Seq<Seq<char>>, cli: Cli, st: ScanV)
    requires
        parse_spec(argv) == Ok::<(Leaf, ScanV), UsageErrorV>((Leaf::ZenServiceStop, st)),
        cli_fits(cli, Leaf::ZenServiceStop, st),
    ensures
        ({
            &&& cli.command matches Domain::Zen { action: ZenAction::Service { action: ZenServiceAction::Stop { endpoint_id: f_endpoint_id, yes: f_yes, dry_run: f_dry_run, cred: f_cred } } }
            &&& f_endpoint_id as int == int_named(Leaf::ZenServiceStop, st, "endpoint-id"@, 0)
            &&& f_yes == flag_named(Leaf::ZenServiceStop, st, "yes"@)
            &&& f_dry_run == flag_named(Leaf::ZenServiceStop, st, "dry-run"@)
            &&& cred_named(f_cred, Leaf::ZenServiceStop, st)
        }),
{
    let table = globals() + leaf_spec(Leaf::ZenServiceStop).opts;
    assert(globals().len() == 3);
    assert(leaf_spec(Leaf::ZenServiceStop).opts.len() == 7);
    assert(table[0] == globals()[0]);
    assert(table[0].name@ == "json"@);
    assert(table[1] == globals()[1]);
    assert(table[1].name@ == "db-path"@);
    assert(table[2] == globals()[2]);
    assert(table[2].name@ == "log-level"@);
    assert(table[3] == leaf_spec(Leaf::ZenServiceStop).opts[0]);
    assert(table[3].name@ == "endpoint-id"@);
    assert(table[4] == leaf_spec(Leaf::ZenServiceStop).opts[1]);
    assert(table[4].name@ == "yes"@);
    assert(table[5] == leaf_spec(Leaf::ZenServiceStop).opts[2]);
    assert(table[5].name@ == "dry-run"@);
    assert(table[6] == leaf_spec(Leaf::ZenServiceStop).opts[3]);
    assert(table[6].name@ == "cred-alias"@);
    assert(table[7] == leaf_spec(Leaf::ZenServiceStop).opts[4]);
    assert(table[7].name@ == "user"@);
    assert(table[8] == leaf_spec(Leaf::ZenServiceStop).opts[5]);
    assert(table[8].name@ == "pass"@);
    assert(table[9] == leaf_spec(Leaf::ZenServiceStop).opts[6]);
    assert(table[9].name@ == "pass-stdin"@);
    reveal_strlit("cred-alias");
    reveal_strlit("db-path");
    reveal_strlit("dry-run");
    reveal_strlit("endpoint-id");
    reveal_strlit("json");
    reveal_strlit("log-level");
    reveal_strlit("pass");
    reveal_strlit("pass-stdin");
    reveal_strlit("user");
    reveal_strlit("yes");
    assert("cred-alias"@.len() == 10);
    assert("cred-alias"@[0] == 'c');
    assert("db-path"@.len() == 7);
    assert("db-path"@[1] == 'b');
    assert("dry-run"@.len() == 7);
    assert("dry-run"@[1] == 'r');
    assert("endpoint-id"@.len() == 11);
    assert("json"@.len() == 4);
    assert("json"@[0] == 'j');
    assert("log-level"@.len() == 9);
    assert("pass"@.len() == 4);
    assert("pass"@[0] == 'p');
    assert("pass-stdin"@.len() == 10);
    assert("pass-stdin"@[0] == 'p');
    assert("user"@.len() == 4);
    assert("user"@[0] == 'u');
    assert("yes"@.len() == 3);
    assert forall|j: int| 0 <= j < 3 implies (#[trigger] table[j]).name@ != "endpoint-id"@ by {}
    lemma_find_from_at(table, "endpoint-id"@, 0, 3);
    assert forall|j: int| 0 <= j < 4 implies (#[trigger] table[j]).name@ != "yes"@ by {}
    lemma_find_from_at(table, "yes"@, 0, 4);
    assert forall|j: int| 0 <= j < 5 implies (#[trigger] table[j]).name@ != "dry-run"@ by {}
    lemma_find_from_at(table, "dry-run"@, 0, 5);
    assert forall|j: int| 0 <= j < 6 implies (#[trigger] table[j]).name@ != "cred-alias"@ by {}
    lemma_find_from_at(table, "cred-alias"@, 0, 6);
    assert forall|j: int| 0 <= j < 7 implies (#[trigger] table[j]).name@ != "user"@ by {}
    lemma_find_from_at(table, "user"@, 0, 7);
    assert forall|j: int| 0 <= j < 8 implies (#[trigger] table[j]).name@ != "pass"@ by {}
    lemma_find_from_at(table, "pass"@, 0, 8);
    assert forall|j: int| 0 <= j < 9 implies (#[trigger] table[j]).name@ != "pass-stdin"@ by {}
    lemma_find_from_at(table, "pass-stdin"@, 0, 9);
}

/// `zen service status`: every field of the parsed command is the value of the option
/// or positional of its name (a switch field: whether `--name` was given).
pub proof fn lemma_zen_service_status_by_name(argv: Seq<Seq<char>>, cli: Cli, st: ScanV)
    requires
        parse_spec(argv) == Ok::<(Leaf, ScanV), UsageErrorV>((Leaf::ZenServiceStatus, st)),
        cli_fits(cli, Leaf::ZenServiceStatus, st),
    ensures
        ({
            &&& cli.command matches Domain::Zen { action: ZenAction::Service { action: ZenServiceAction::Status { endpoint_id: f_endpoint_id, cred: f_cred } } }
            &&& f_endpoint_id as int == int_named(Leaf::ZenServiceStatus, st, "endpoint-id"@, 0)
            &&& cred_named(f_cred, Leaf::ZenServiceStatus, st)
        }),
{
    let table = globals() + leaf_spec(Leaf::ZenServiceStatus).opts;
    assert(globals().len() == 3);
    assert(leaf_spec(Leaf::ZenServiceStatus).opts.len() == 5);
    assert(table[0] == globals()[0]);
    assert(table[0].name@ == "json"@);
    assert(table[1] == globals()[1]);
    assert(table[1].name@ == "db-path"@);
    assert(table[2] == globals()[2]);
    assert(table[2].name@ == "log-level"@);
    assert(table[3] == leaf_spec(Leaf::ZenServiceStatus).opts[0]);
    assert(table[3].name@ == "endpoint-id"@);
    assert(table[4] == leaf_spec(Leaf::ZenServiceStatus).opts[1]);
    assert(table[4].name@ == "cred-alias"@);
    assert(table[5] == leaf_spec(Leaf::ZenServiceStatus).opts[2]);
    assert(table[5].name@ == "user"@);
    assert(table[6] == leaf_spec(Leaf::ZenServiceStatus).opts[3]);
    assert(table[6].name@ == "pass"@);
    assert(table[7] == leaf_spec(Leaf::ZenServiceStatus).opts[4]);
    assert(table[7].name@ == "pass-stdin"@);
    reveal_strlit("cred-alias");
    reveal_strlit("db-path");
    reveal_strlit("endpoint-id");
    reveal_strlit("json");
    reveal_strlit("log-level");
    reveal_strlit("pass");
    reveal_strlit("pass-stdin");
    reveal_strlit("user");
    assert("cred-alias"@.len() == 10);
    assert("cred-alias"@[0] == 'c');
    assert("db-path"@.len() == 7);
    assert("endpoint-id"@.len() == 11);
    assert("json"@.len() == 4);
    assert("json"@[0] == 'j');
    assert("log-level"@.len() == 9);
    assert("pass"@.len() == 4);
    assert("pass"@[0] == 'p');
    assert("pass-stdin"@.len() == 10);
    assert("pass-stdin"@[0] == 'p');
    assert("user"@.len() == 4);
    assert("user"@[0] == 'u');
    assert forall|j: int| 0 <= j < 3 implies (#[trigger] table[j]).name@ != "endpoint-id"@ by {}
    lemma_find_from_at(table, "endpoint-id"@, 0, 3);
    assert forall|j: int| 0 <= j < 4 implies (#[trigger] table[j]).name@ != "cred-alias"@ by {}
    lemma_find_from_at(table, "cred-alias"@, 0, 4);
    assert forall|j: int| 0 <= j < 5 implies (#[trigger] table[j]).name@ != "user"@ by {}
    lemma_find_from_at(table, "user"@, 0, 5);
    assert forall|j: int| 0 <= j < 6 implies (#[trigger] table[j]).name@ != "pass"@ by {}
    lemma_find_from_at(table, "pass"@, 0, 6);
    assert forall|j: int| 0 <= j < 7 implies (#[trigger] table[j]).name@ != "pass-stdin"@ by {}
    lemma_find_from_at(table, "pass-stdin"@, 0, 7);
}

/// `zen urlacl add`: every field of the parsed command is the value of the option
/// or positional of its name (a switch field: whether `--name` was given).
pub proof fn lemma_zen_urlacl_add_by_name(argv: Seq<Seq<char>>, cli: Cli, st: ScanV)
    requires
        parse_spec(argv) == Ok::<(Leaf, ScanV), UsageErrorV>((Leaf::ZenUrlaclAdd, st)),
        cli_fits(cli, Leaf::ZenUrlaclAdd, st),
    ensures
        ({
            &&& cli.command matches Domain::Zen { action: ZenAction::Urlacl { action: ZenUrlaclAction::Add { endpoint_id: f_endpoint_id, principal: f_principal, yes: f_yes, dry_run: f_dry_run, cred: f_cred } } }
            &&& f_endpoint_id as int == int_named(Leaf::ZenUrlaclAdd, st, "endpoint-id"@, 0)
            &&& f_principal@ == text_named(Leaf::ZenUrlaclAdd, st, "principal"@, ""@)
            &&& f_yes == flag_named(Leaf::ZenUrlaclAdd, st, "yes"@)
            &&& f_dry_run == flag_named(Leaf::ZenUrlaclAdd, st, "dry-run"@)
            &&& cred_named(f_cred, Leaf::ZenUrlaclAdd, st)
        }),
{
    let table = globals() + leaf_spec(Leaf::ZenUrlaclAdd).opts;
    assert(globals().len() == 3);
    assert(leaf_spec(Leaf::ZenUrlaclAdd).opts.len() == 8);
    assert(table[0] == globals()[0]);
    assert(table[0].name@ == "json"@);
    assert(table[1] == globals()[1]);
    assert(table[1].name@ == "db-path"@);
    assert(table[2] == globals()[2]);
    assert(table[2].name@ == "log-level"@);
    assert(table[3] == leaf_spec(Leaf::ZenUrlaclAdd).opts[0]);
    assert(table[3].name@ == "endpoint-id"@);
    assert(table[4] == leaf_spec(Leaf::ZenUrlaclAdd).opts[1]);
    assert(table[4].name@ == "principal"@);
    assert(table[5] == leaf_spec(Leaf::ZenUrlaclAdd).opts[2]);
    assert(table[5].name@ == "yes"@);
    assert(table[6] == leaf_spec(Leaf::ZenUrlaclAdd).opts[3]);
    assert(table[6].name@ == "dry-run"@);
    assert(table[7] == leaf_spec(Leaf::ZenUrlaclAdd).opts[4]);
    assert(table[7].name@ == "cred-alias"@);
    assert(table[8] == leaf_spec(Leaf::ZenUrlaclAdd).opts[5]);
    assert(table[8].name@ == "user"@);
    assert(table[9] == leaf_spec(Leaf::ZenUrlaclAdd).opts[6]);
    assert(table[9].name@ == "pass"@);
    assert(table[10] == leaf_spec(Leaf::ZenUrlaclAdd).opts[7]);
    assert(table[10].name@ == "pass-stdin"@);
    reveal_strlit("cred-alias");
    reveal_strlit("db-path");
    reveal_strlit("dry-run");
    reveal_strlit("endpoint-id");
    reveal_strlit("json");
    reveal_strlit("log-level");
    reveal_strlit("pass");
    reveal_strlit("pass-stdin");
    reveal_strlit("principal");
    reveal_strlit("user");
    reveal_strlit("yes");
    assert("cred-alias"@.len() == 10);
    assert("cred-alias"@[0] == 'c');
    assert("db-path"@.len() == 7);
    assert("db-path"@[1] == 'b');
    assert("dry-run"@.len() == 7);
    assert("dry-run"@[1] == 'r');
    assert("endpoint-id"@.len() == 11);
    assert("json"@.len() == 4);
    assert("json"@[0] == 'j');
    assert("log-level"@.len() == 9);
    assert("log-level"@[0] == 'l');
    assert("pass"@.len() == 4);
    assert("pass"@[0] == 'p');
    assert("pass-stdin"@.len() == 10);
    assert("pass-stdin"@[0] == 'p');
    assert("principal"@.len() == 9);
    assert("principal"@[0] == 'p');
    assert("user"@.len() == 4);
    assert("user"@[0] == 'u');
    assert("yes"@.len() == 3);
    assert forall|j: int| 0 <= j < 3 implies (#[trigger] table[j]).name@ != "endpoint-id"@ by {}
    lemma_find_from_at(table, "endpoint-id"@, 0, 3);
    assert forall|j: int| 0 <= j < 4 implies (#[trigger] table[j]).name@ != "principal"@ by {}
    lemma_find_from_at(table, "principal"@, 0, 4);
    assert forall|j: int| 0 <= j < 5 implies (#[trigger] table[j]).name@ != "yes"@ by {}
    lemma_find_from_at(table, "yes"@, 0, 5);
    assert forall|j: int| 0 <= j < 6 implies (#[trigger] table[j]).name@ != "dry-run"@ by {}
    lemma_find_from_at(table, "dry-run"@, 0, 6);
    assert forall|j: int| 0 <= j < 7 implies (#[trigger] table[j]).name@ != "cred-alias"@ by {}
    lemma_find_from_at(table, "cred-alias"@, 0, 7);
    assert forall|j: int| 0 <= j < 8 implies (#[trigger] table[j]).name@ != "user"@ by {}
    lemma_find_from_at(table, "user"@, 0, 8);
    assert forall|j: int| 0 <= j < 9 implies (#[trigger] table[j]).name@ != "pass"@ by {}
    lemma_find_from_at(table, "pass"@, 0, 9);
    assert forall|j: int| 0 <= j < 10 implies (#[trigger] table[j]).name@ != "pass-stdin"@ by {}
    lemma_find_from_at(table, "pass-stdin"@, 0, 10);
}

/// `zen urlacl list`: every field of the parsed command is the value of the option
/// or positional of its name (a switch field: whether `--name` was given).
pub proof fn lemma_zen_urlacl_list_by_name(argv: Seq<Seq<char>>, cli: Cli, st: ScanV)
    requires
        parse_spec(argv) == Ok::<(Leaf, ScanV), UsageErrorV>((Leaf::ZenUrlaclList, st)),
        cli_fits(cli, Leaf::ZenUrlaclList, st),
    ensures
        ({
            &&& cli.command matches Domain::Zen { action: ZenAction::Urlacl { action: ZenUrlaclAction::List { machine: f_machine, port_filter: f_port_filter, cred: f_cred } } }
            &&& f_machine as int == int_named(Leaf::ZenUrlaclList, st, "machine"@, 0)
            &&& f_port_filter.deep_view() == opt_text_named(Leaf::ZenUrlaclList, st, "port-filter"@)
            &&& cred_named(f_cred, Leaf::ZenUrlaclList, st)
        }),
{
    let table = globals() + leaf_spec(Leaf::ZenUrlaclList).opts;
    assert(globals().len() == 3);
    assert(leaf_spec(Leaf::ZenUrlaclList).opts.len() == 6);
    assert(table[0] == globals()[0]);
    assert(table[0].name@ == "json"@);
    assert(table[1] == globals()[1]);
    assert(table[1].name@ == "db-path"@);
    assert(table[2] == globals()[2]);
    assert(table[2].name@ == "log-level"@);
    assert(table[3] == leaf_spec(Leaf::ZenUrlaclList).opts[0]);
    assert(table[3].name@ == "machine"@);
    assert(table[4] == leaf_spec(Leaf::ZenUrlaclList).opts[1]);
    assert(table[4].name@ == "port-filter"@);
    assert(table[5] == leaf_spec(Leaf::ZenUrlaclList).opts[2]);
    assert(table[5].name@ == "cred-alias"@);
    assert(table[6] == leaf_spec(Leaf::ZenUrlaclList).opts[3]);
    assert(table[6].name@ == "user"@);
    assert(table[7] == leaf_spec(Leaf::ZenUrlaclList).opts[4]);
    assert(table[7].name@ == "pass"@);
    assert(table[8] == leaf_spec(Leaf::ZenUrlaclList).opts[5]);
    assert(table[8].name@ == "pass-stdin"@);
    reveal_strlit("cred-alias");
    reveal_strlit("db-path");
    reveal_strlit("json");
    reveal_strlit("log-level");
    reveal_strlit("machine");
    reveal_strlit("pass");
    reveal_strlit("pass-stdin");
    reveal_strlit("port-filter");
    reveal_strlit("user");
    assert("cred-alias"@.len() == 10);
    assert("cred-alias"@[0] == 'c');
    assert("db-path"@.len() == 7);
    assert("db-path"@[0] == 'd');
    assert("json"@.len() == 4);
    assert("json"@[0] == 'j');
    assert("log-level"@.len() == 9);
    assert("machine"@.len() == 7);
    assert("machine"@[0] == 'm');
    assert("pass"@.len() == 4);
    assert("pass"@[0] == 'p');
    assert("pass-stdin"@.len() == 10);
    assert("pass-stdin"@[0] == 'p');
    assert("port-filter"@.len() == 11);
    assert("user"@.len() == 4);
    assert("user"@[0] == 'u');
    assert forall|j: int| 0 <= j < 3 implies (#[trigger] table[j]).name@ != "machine"@ by {}
    lemma_find_from_at(table, "machine"@, 0, 3);
    assert forall|j: int| 0 <= j < 4 implies (#[trigger] table[j]).name@ != "port-filter"@ by {}
    lemma_find_from_at(table, "port-filter"@, 0, 4);
    assert forall|j: int| 0 <= j < 5 implies (#[trigger] table[j]).name@ != "cred-alias"@ by {}
    lemma_find_from_at(table, "cred-alias"@, 0, 5);
    assert forall|j: int| 0 <= j < 6 implies (#[trigger] table[j]).name@ != "user"@ by {}
    lemma_find_from_at(table, "user"@, 0, 6);
    assert forall|j: int| 0 <= j < 7 implies (#[trigger] table[j]).name@ != "pass"@ by {}
    lemma_find_from_at(table, "pass"@, 0, 7);
    assert forall|j: int| 0 <= j < 8 implies (#[trigger] table[j]).name@ != "pass-stdin"@ by {}
    lemma_find_from_at(table, "pass-stdin"@, 0, 8);
}

/// `zen urlacl remove`: every field of the parsed command is the value of the option
/// or positional of its name (a switch field: whether `--name` was given).
pub proof fn lemma_zen_urlacl_remove_by_name(argv: Seq<Seq<char>>, cli: Cli, st: ScanV)
    requires
        parse_spec(argv) == Ok::<(Leaf, ScanV), UsageErrorV>((Leaf::ZenUrlaclRemove, st)),
        cli_fits(cli, Leaf::ZenUrlaclRemove, st),
    ensures
        ({
            &&& cli.command matches Domain::Zen { action: ZenAction::Urlacl { action: ZenUrlaclAction::Remove { endpoint_id: f_endpoint_id, yes: f_yes, dry_run: f_dry_run, cred: f_cred } } }
            &&& f_endpoint_id as int == int_named(Leaf::ZenUrlaclRemove, st, "endpoint-id"@, 0)
            &&& f_yes == flag_named(Leaf::ZenUrlaclRemove, st, "yes"@)
            &&& f_dry_run == flag_named(Leaf::ZenUrlaclRemove, st, "dry-run"@)
            &&& cred_named(f_cred, Leaf::ZenUrlaclRemove, st)
        }),
{
    let table = globals() + leaf_spec(Leaf::ZenUrlaclRemove).opts;
    assert(globals().len() == 3);
    assert(leaf_spec(Leaf::ZenUrlaclRemove).opts.len() == 7);
    assert(table[0] == globals()[0]);
    assert(table[0].name@ == "json"@);
    assert(table[1] == globals()[1]);
    assert(table[1].name@ == "db-path"@);
    assert(table[2] == globals()[2]);
    assert(table[2].name@ == "log-level"@);
    assert(table[3] == leaf_spec(Leaf::ZenUrlaclRemove).opts[0]);
    assert(table[3].name@ == "endpoint-id"@);
    assert(table[4] == leaf_spec(Leaf::ZenUrlaclRemove).opts[1]);
    assert(table[4].name@ == "yes"@);
    assert(table[5] == leaf_spec(Leaf::ZenUrlaclRemove).opts[2]);
    assert(table[5].name@ == "dry-run"@);
    assert(table[6] == leaf_spec(Leaf::ZenUrlaclRemove).opts[3]);
    assert(table[6].name@ == "cred-alias"@);
    assert(table[7] == leaf_spec(Leaf::ZenUrlaclRemove).opts[4]);
    assert(table[7].name@ == "user"@);
    assert(table[8] == leaf_spec(Leaf::ZenUrlaclRemove).opts[5]);
    assert(table[8].name@ == "pass"@);
    assert(table[9] == leaf_spec(Leaf::ZenUrlaclRemove).opts[6]);
    assert(table[9].name@ == "pass-stdin"@);
    reveal_strlit("cred-alias");
    reveal_strlit("db-path");
    reveal_strlit("dry-run");
    reveal_strlit("endpoint-id");
    reveal_strlit("json");
    reveal_strlit("log-level");
    reveal_strlit("pass");
    reveal_strlit("pass-stdin");
    reveal_strlit("user");
    reveal_strlit("yes");
    assert("cred-alias"@.len() == 10);
    assert("cred-alias"@[0] == 'c');
    assert("db-path"@.len() == 7);
    assert("db-path"@[1] == 'b');
    assert("dry-run"@.len() == 7);
    assert("dry-run"@[1] == 'r');
    assert("endpoint-id"@.len() == 11);
    assert("json"@.len() == 4);
    assert("json"@[0] == 'j');
    assert("log-level"@.len() == 9);
    assert("pass"@.len() == 4);
    assert("pass"@[0] == 'p');
    assert("pass-stdin"@.len() == 10);
    assert("pass-stdin"@[0] == 'p');
    assert("user"@.len() == 4);
    assert("user"@[0] == 'u');
    assert("yes"@.len() == 3);
    assert forall|j: int| 0 <= j < 3 implies (#[trigger] table[j]).name@ != "endpoint-id"@ by {}
    lemma_find_from_at(table, "endpoint-id"@, 0, 3);
    assert forall|j: int| 0 <= j < 4 implies (#[trigger] table[j]).name@ != "yes"@ by {}
    lemma_find_from_at(table, "yes"@, 0, 4);
    assert forall|j: int| 0 <= j < 5 implies (#[trigger] table[j]).name@ != "dry-run"@ by {}
    lemma_find_from_at(table, "dry-run"@, 0, 5);
    assert forall|j: int| 0 <= j < 6 implies (#[trigger] table[j]).name@ != "cred-alias"@ by {}
    lemma_find_from_at(table, "cred-alias"@, 0, 6);
    assert forall|j: int| 0 <= j < 7 implies (#[trigger] table[j]).name@ != "user"@ by {}
    lemma_find_from_at(table, "user"@, 0, 7);
    assert forall|j: int| 0 <= j < 8 implies (#[trigger] table[j]).name@ != "pass"@ by {}
    lemma_find_from_at(table, "pass"@, 0, 8);
    assert forall|j: int| 0 <= j < 9 implies (#[trigger] table[j]).name@ != "pass-stdin"@ by {}
    lemma_find_from_at(table, "pass-stdin"@, 0, 9);
}

} // verus!
