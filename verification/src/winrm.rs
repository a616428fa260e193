//! WinRM commands: where the password of `winrm bootstrap` / `winrm
//! preflight` comes from, and which answers of the remote side end a command
//! as a failure.

use vstd::prelude::*;
use crate::error::UecmError;
use crate::text::{concat3, join2};

verus! {

/// Where the password of a bootstrap or a preflight comes from.
#[derive(Debug)]
pub enum PasswordSource {
    /// `--pass`, as given.
    Given(String),
    /// `--pass-stdin`: the next line of stdin, without its line ending.
    ReadStdin,
}

/// `--pass` wins over `--pass-stdin`; one of them is required.
pub fn password_source(pass: Option<String>, pass_stdin: bool) -> (r: Result<PasswordSource, UecmError>)
    ensures
        match pass {
            Some(p) => r matches Ok(PasswordSource::Given(q)) && q@ == p@,
            None => if pass_stdin {
                r matches Ok(PasswordSource::ReadStdin)
            } else {
                r matches Err(e) && e matches UecmError::InvalidInput(m) && m@
                    == "this command requires --pass or --pass-stdin"@
            },
        },
{
    match pass {
        Some(p) => Ok(PasswordSource::Given(p)),
        None => if pass_stdin {
            Ok(PasswordSource::ReadStdin)
        } else {
            Err(UecmError::InvalidInput(String::from_str("this command requires --pass or --pass-stdin")))
        },
    }
}

/// A probe the host answered with a failure is a PowerShell error naming
/// the host and its message.
pub fn probe_verdict(host: &str, ok: bool, message: &str) -> (r: Result<(), UecmError>)
    ensures
        ok ==> r is Ok,
        !ok ==> (r matches Err(e) && e matches UecmError::PowerShell(m) && m@ == "winrm probe of "@
            + host@ + " reported failure: "@ + message@),
{
    if ok {
        Ok(())
    } else {
        let head = concat3("winrm probe of ", host, " reported failure: ");
        let tail = String::from_str(message);
        Err(UecmError::PowerShell(join2(&head, &tail)))
    }
}

/// A bootstrap that reported failure fails the command with its message.
pub fn bootstrap_verdict(host: &str, ok: bool, message: &str) -> (r: Result<(), UecmError>)
    ensures
        ok ==> r is Ok,
        !ok ==> (r matches Err(e) && e matches UecmError::OperationFailed(m) && m@
            == "winrm bootstrap of "@ + host@ + " reported failure: "@ + message@),
{
    if ok {
        Ok(())
    } else {
        let head = concat3("winrm bootstrap of ", host, " reported failure: ");
        let tail = String::from_str(message);
        Err(UecmError::OperationFailed(join2(&head, &tail)))
    }
}

pub open spec fn preflight_blocks(verdict: Seq<char>) -> bool {
    verdict == "blocked"@ || verdict == "uncertain"@
}

/// The exit of `winrm preflight`: a `blocked` target, or an `uncertain`
/// verdict that cannot be trusted, fails the command so that automation
/// does not go on; every other verdict succeeds.
pub fn preflight_verdict(host: &str, verdict: &str, reason: &str) -> (r: Result<(), UecmError>)
    ensures
        !preflight_blocks(verdict@) ==> r is Ok,
        preflight_blocks(verdict@) ==> (r matches Err(e) && e matches UecmError::OperationFailed(m)
            && m@ == "Path B preflight of "@ + host@ + " verdict="@ + verdict@ + ": "@ + reason@),
{
    let v = String::from_str(verdict);
    if crate::text::str_is(&v, "blocked") || crate::text::str_is(&v, "uncertain") {
        let head = concat3("Path B preflight of ", host, " verdict=");
        let tail = concat3(verdict, ": ", reason);
        let m = join2(&head, &tail);
        assert(m@ =~= "Path B preflight of "@ + host@ + " verdict="@ + verdict@ + ": "@ + reason@);
        Err(UecmError::OperationFailed(m))
    } else {
        Ok(())
    }
}

} // verus!
