//! Decisions the entry point makes before a command runs: whether the
//! inventory database must be opened, whether usage errors are reported as
//! JSON, and which exit status a usage error ends with.

use vstd::prelude::*;
use crate::args::{Domain, MachineAction, SystemAction};
use crate::cli_parse::UsageError;
use crate::text::str_is;

verus! {

/// Whether a command reads or writes the inventory database.
///
/// `machine scan` is a stateless network probe; of the system commands only
/// `migrate-db` touches the database; no WinRM command does. Every other
/// domain reads or writes tables.
pub open spec fn needs_db_spec(cmd: Domain) -> bool {
    match cmd {
        Domain::Machine { action } => !(action is Scan),
        Domain::System { action } => action is MigrateDb,
        Domain::Winrm { .. } => false,
        _ => true,
    }
}

/// Whether a parsed command needs the database opened first.
pub fn needs_db(cmd: &Domain) -> (r: bool)
    ensures
        r == needs_db_spec(*cmd),
{
    match cmd {
        Domain::Machine { action } => !matches!(action, MachineAction::Scan { .. }),
        Domain::System { action } => matches!(action, SystemAction::MigrateDb),
        Domain::Winrm { .. } => false,
        _ => true,
    }
}

/// The exit status for a command line that did not parse: help and version
/// requests end successfully, every other usage error ends with 64
/// (`EX_USAGE`), a status no command failure uses (see
/// `crate::output::exit_code_for`).
pub fn usage_exit_code(e: &UsageError) -> (r: i32)
    ensures
        r == (if e is Help || e is Version {
            0i32
        } else {
            64i32
        }),
{
    match e {
        UsageError::Help | UsageError::Version => 0,
        _ => 64,
    }
}

pub open spec fn is_json_format(s: Seq<char>) -> bool {
    s == "json"@ || s == "ndjson"@ || s == "stream-json"@
}

/// Whether the token at `i` asks for structured output: `--json`, a glued
/// `--output=` / `-o=` with a JSON format, or `--output` / `-o` followed by one.
pub open spec fn asks_json_at(argv: Seq<Seq<char>>, i: int) -> bool {
    let s = argv[i];
    ||| s == "--json"@
    ||| s == "--output=json"@
    ||| s == "--output=ndjson"@
    ||| s == "--output=stream-json"@
    ||| s == "-o=json"@
    ||| s == "-o=ndjson"@
    ||| s == "-o=stream-json"@
    ||| ((s == "--output"@ || s == "-o"@) && i + 1 < argv.len() && is_json_format(argv[i + 1]))
}

/// Whether any token of the raw argument vector asks for structured output;
/// decided before parsing so that usage errors can be reported as JSON.
pub open spec fn wants_json(argv: Seq<Seq<char>>) -> bool {
    exists|i: int| 0 <= i < argv.len() && #[trigger] asks_json_at(argv, i)
}

fn json_format_exec(s: &String) -> (r: bool)
    ensures
        r == is_json_format(s@),
{
    str_is(s, "json") || str_is(s, "ndjson") || str_is(s, "stream-json")
}

/// Sniffs the raw argument vector for a structured-output request.
pub fn wants_structured_output(argv: &Vec<String>) -> (r: bool)
    ensures
        r == wants_json(argv.deep_view()),
{
    let ghost av = argv.deep_view();
    let mut i: usize = 0;
    while i < argv.len()
        invariant
            av == argv.deep_view(),
            i <= argv@.len(),
            forall|j: int| 0 <= j < i ==> !#[trigger] asks_json_at(av, j),
        decreases argv@.len() - i,
    {
        let s = &argv[i];
        assert(av[i as int] == s@);
        let glued = str_is(s, "--json") || str_is(s, "--output=json") || str_is(
            s,
            "--output=ndjson",
        ) || str_is(s, "--output=stream-json") || str_is(s, "-o=json") || str_is(s, "-o=ndjson")
            || str_is(s, "-o=stream-json");
        let split = (str_is(s, "--output") || str_is(s, "-o")) && i + 1 < argv.len()
            && json_format_exec(&argv[i + 1]);
        proof {
            if i + 1 < argv@.len() {
                assert(av[i + 1] == argv@[i + 1]@);
            }
        }
        if glued || split {
            assert(asks_json_at(av, i as int));
            return true;
        }
        i = i + 1;
    }
    false
}

} // verus!
