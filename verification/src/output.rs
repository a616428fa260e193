//! Stable error codes and exit codes, and the two output sinks: NDJSON for
//! `--json`, human-readable otherwise.

use vstd::prelude::*;
use crate::error::UecmError;
use crate::text::{concat3, int_text, join2, with_number};

verus! {

/// The stable string code an error is reported under.
///
/// Database and I/O failures share `environment_error` with configuration
/// problems, so automation can tell environment trouble from ordinary
/// operation failures.
pub open spec fn error_code_spec(e: UecmError) -> Seq<char> {
    match e {
        UecmError::InvalidInput(_) => "invalid_input"@,
        UecmError::OperationFailed(_) => "operation_failed"@,
        UecmError::PowerShell(_) => "powershell_failed"@,
        UecmError::Configuration(_) | UecmError::Database(_) | UecmError::Io(_) => "environment_error"@,
    }
}

/// The process exit code for an error: 2 for invalid input, 3 for
/// environment failures, 4 for PowerShell failures, 1 otherwise.
pub open spec fn exit_code_spec(e: UecmError) -> i32 {
    match e {
        UecmError::InvalidInput(_) => 2,
        UecmError::Configuration(_) | UecmError::Database(_) | UecmError::Io(_) => 3,
        UecmError::PowerShell(_) => 4,
        UecmError::OperationFailed(_) => 1,
    }
}

/// Maps an error to its stable code.
pub fn error_code(err: &UecmError) -> (r: &'static str)
    ensures
        r@ == error_code_spec(*err),
{
    match err {
        UecmError::InvalidInput(_) => "invalid_input",
        UecmError::OperationFailed(_) => "operation_failed",
        UecmError::PowerShell(_) => "powershell_failed",
        UecmError::Configuration(_) | UecmError::Database(_) | UecmError::Io(_) => {
            "environment_error"
        },
    }
}

/// Maps an error to the process exit code.
pub fn exit_code_for(err: &UecmError) -> (r: i32)
    ensures
        r == exit_code_spec(*err),
{
    match err {
        UecmError::InvalidInput(_) => 2,
        UecmError::Configuration(_) | UecmError::Database(_) | UecmError::Io(_) => 3,
        UecmError::PowerShell(_) => 4,
        UecmError::OperationFailed(_) => 1,
    }
}

/// The exit code is a function of the error code: two errors reported under
/// the same code always end the process with the same status, and the code
/// `environment_error` is exactly the exit status 3.
pub proof fn lemma_code_determines_exit(a: UecmError, b: UecmError)
    ensures
        error_code_spec(a) == error_code_spec(b) ==> exit_code_spec(a) == exit_code_spec(b),
        error_code_spec(a) == "environment_error"@ <==> exit_code_spec(a) == 3,
{
    reveal_strlit("invalid_input");
    reveal_strlit("operation_failed");
    reveal_strlit("powershell_failed");
    reveal_strlit("environment_error");
    assert("invalid_input"@.len() == 13);
    assert("operation_failed"@.len() == 16);
    assert("powershell_failed"@[0] == 'p');
    assert("environment_error"@[0] == 'e');
    assert("environment_error"@.len() == 17);
}

/// Writes one JSON document per line to `writer`.
pub struct NdjsonEmitter<W> {
    pub writer: W,
}

impl<W> NdjsonEmitter<W> {
    /// An emitter that writes one JSON line per event to `writer`.
    pub fn new(writer: W) -> (r: Self)
        ensures
            r.writer == writer,
    {
        Self { writer }
    }
}

// ---------------------------------------------------------------------------
// human-readable lines
// ---------------------------------------------------------------------------

/// The badge of a yes/no answer.
pub open spec fn mark(ok: bool) -> Seq<char> {
    if ok {
        "✓"@
    } else {
        "✗"@
    }
}

fn mark_str(ok: bool) -> (r: &'static str)
    ensures
        r@ == mark(ok),
{
    if ok {
        "✓"
    } else {
        "✗"
    }
}

/// `→ starting <task>`: the first line of a long-running command.
pub fn started_line(task_type: &str) -> (r: String)
    ensures
        r@ == "→ starting "@ + task_type@,
{
    let a = String::from_str("→ starting ");
    let b = String::from_str(task_type);
    join2(&a, &b)
}

/// The line of a scanned host: its IP, and whether WinRM and SMB answered.
pub fn host_probe_line(ip: &str, winrm_open: bool, smb_open: bool) -> (r: String)
    ensures
        r@ == "  "@ + ip@ + "  winrm="@ + mark(winrm_open) + " smb="@ + mark(smb_open),
{
    let a = concat3("  ", ip, "  winrm=");
    let b = concat3(mark_str(winrm_open), " smb=", mark_str(smb_open));
    let r = join2(&a, &b);
    assert(r@ =~= "  "@ + ip@ + "  winrm="@ + mark(winrm_open) + " smb="@ + mark(smb_open));
    r
}

/// ` (<current>/<total>)` after a progress label when both are known.
pub fn progress_suffix(current: Option<i64>, total: Option<i64>) -> (r: String)
    ensures
        r@ == match (current, total) {
            (Some(c), Some(t)) => " ("@ + int_text(c as int) + "/"@ + int_text(t as int) + ")"@,
            _ => Seq::<char>::empty(),
        },
{
    match (current, total) {
        (Some(c), Some(t)) => {
            let a = with_number(" (", c, "/");
            let b = with_number("", t, ")");
            proof {
                reveal_strlit("");
            }
            let r = join2(&a, &b);
            assert(r@ =~= " ("@ + int_text(c as int) + "/"@ + int_text(t as int) + ")"@);
            r
        },
        _ => String::new(),
    }
}

/// `→ [<n>/<total>] <item>`, counting items from 1.
pub fn item_started_line(item_id: &str, index: i64, total: i64) -> (r: String)
    requires
        index < i64::MAX,
    ensures
        r@ == "→ ["@ + int_text(index + 1) + "/"@ + int_text(total as int) + "] "@ + item_id@,
{
    let a = with_number("→ [", index + 1, "/");
    let b = with_number("", total, "] ");
    proof {
        reveal_strlit("");
    }
    let c = join2(&a, &b);
    let d = String::from_str(item_id);
    let r = join2(&c, &d);
    assert(r@ =~= "→ ["@ + int_text(index + 1) + "/"@ + int_text(total as int) + "] "@ + item_id@);
    r
}

/// `  <badge> <item> <message>`: how an item ended.
pub fn item_completed_line(item_id: &str, ok: bool, message: Option<&str>) -> (r: String)
    ensures
        r@ == "  "@ + mark(ok) + " "@ + item_id@ + " "@ + match message {
            Some(m) => m@,
            None => Seq::<char>::empty(),
        },
{
    let a = concat3("  ", mark_str(ok), " ");
    let b = concat3(item_id, " ", match message {
        Some(m) => m,
        None => "",
    });
    proof {
        reveal_strlit("");
    }
    let r = join2(&a, &b);
    assert(r@ =~= "  "@ + mark(ok) + " "@ + item_id@ + " "@ + match message {
        Some(m) => m@,
        None => Seq::<char>::empty(),
    });
    r
}

/// `✗ error (<code>): <message>`: an error event.
pub fn error_event_line(code: &str, message: &str) -> (r: String)
    ensures
        r@ == "✗ error ("@ + code@ + "): "@ + message@,
{
    let a = concat3("✗ error (", code, "): ");
    let b = String::from_str(message);
    join2(&a, &b)
}

/// Writes human-oriented lines: results to `stdout`, progress to `stderr`.
pub struct HumanEmitter<W, E> {
    pub stdout: W,
    pub stderr: E,
    pub use_color: bool,
}

impl<W, E> HumanEmitter<W, E> {
    /// An emitter of human-readable lines, with or without colour.
    pub fn new(stdout: W, stderr: E, use_color: bool) -> (r: Self)
        ensures
            r.stdout == stdout,
            r.stderr == stderr,
            r.use_color == use_color,
    {
        Self { stdout, stderr, use_color }
    }
}

} // verus!
