//! The INI commands that decide around remote work: one machine of a
//! cluster scan, and the plan of applying a finding.

use vstd::prelude::*;
use crate::error::UecmError;
use crate::credential_args::CredentialArgs;
use crate::ini::{
    apply_problem, count_other, count_severity, needs_credentials_msg, require_credentials,
    tally_severities, validate_apply, IniFinding,
};
use crate::machine::{destructive_check, destructive_msg, Outcome};
use crate::text::{int_text, join2, with_number};

verus! {

// ---------------------------------------------------------------------------
// cluster scan
// ---------------------------------------------------------------------------

/// What the scanner reported for one machine: the severity of each
/// finding, how many files it read, and its errors and missing files.
#[derive(Debug)]
pub struct MachineScan {
    pub severities: Vec<String>,
    pub read_count: usize,
    pub errors: Vec<String>,
    pub not_found: Vec<String>,
}

/// The running totals of a cluster scan.
#[derive(Debug)]
pub struct ScanTotals {
    pub critical: i64,
    pub warning: i64,
    pub healthy: i64,
    pub info: i64,
    pub files_read: usize,
    pub errors: Vec<String>,
    pub not_found: Vec<String>,
}

/// How one machine of a cluster scan is reported.
#[derive(Debug)]
pub enum ScanItem {
    /// Scanned; the message gives its counts.
    Done { message: String },
    /// Not scanned; the message says why.
    Failed { message: String },
}

impl ScanTotals {
    pub fn new() -> (r: Self)
        ensures
            r.critical == 0 && r.warning == 0 && r.healthy == 0 && r.info == 0 && r.files_read == 0,
            r.errors@.len() == 0 && r.not_found@.len() == 0,
    {
        ScanTotals {
            critical: 0,
            warning: 0,
            healthy: 0,
            info: 0,
            files_read: 0,
            errors: Vec::new(),
            not_found: Vec::new(),
        }
    }
}

/// Each line prefixed with `<host>: `.
pub open spec fn prefixed(host: Seq<char>, lines: Seq<Seq<char>>) -> Seq<Seq<char>> {
    lines.map_values(|l: Seq<char>| host + ": "@ + l)
}

pub open spec fn counts_msg(c: int, w: int, h: int, i: int) -> Seq<char> {
    "critical="@ + int_text(c) + " warning="@ + int_text(w) + " healthy="@ + int_text(h) + " info="@
        + int_text(i)
}

proof fn lemma_counts_bounded(s: Seq<Seq<char>>, sev: Seq<char>)
    ensures
        count_severity(s, sev) <= s.len(),
        count_other(s) <= s.len(),
    decreases s.len(),
{
    if s.len() > 0 {
        lemma_counts_bounded(s.drop_last(), sev);
    }
}

fn append_prefixed(out: &mut Vec<String>, host: &String, lines: &Vec<String>)
    ensures
        final(out).deep_view() == old(out).deep_view() + prefixed(host@, lines.deep_view()),
{
    let ghost start = out.deep_view();
    let mut i: usize = 0;
    while i < lines.len()
        invariant
            i <= lines@.len(),
            out.deep_view() == start + prefixed(host@, lines.deep_view().take(i as int)),
        decreases lines@.len() - i,
    {
        let head = join2(host, &String::from_str(": "));
        let line = join2(&head, &lines[i]);
        let ghost before = out.deep_view();
        out.push(line);
        assert(out.deep_view() =~= before.push(line@));
        assert(prefixed(host@, lines.deep_view().take(i + 1)) =~= prefixed(
            host@,
            lines.deep_view().take(i as int),
        ).push(host@ + ": "@ + lines.deep_view()[i as int]));
        i = i + 1;
    }
    assert(lines.deep_view().take(i as int) =~= lines.deep_view());
}

/// One machine of `ini scan`. A machine missing from the inventory, or one
/// the scanner failed on, is reported failed and adds nothing. A scanned
/// machine adds its findings by severity (anything but critical, warning
/// and healthy counts as info), the files it read, and its errors and
/// missing files prefixed with its hostname.
pub fn ini_scan_step(
    totals: &mut ScanTotals,
    machine_id: i64,
    hostname: Option<String>,
    result: Result<MachineScan, UecmError>,
) -> (r: ScanItem)
    requires
        0 <= old(totals).critical && 0 <= old(totals).warning && 0 <= old(totals).healthy && 0
            <= old(totals).info,
        result matches Ok(s) ==> {
            &&& old(totals).critical + s.severities@.len() < i64::MAX
            &&& old(totals).warning + s.severities@.len() < i64::MAX
            &&& old(totals).healthy + s.severities@.len() < i64::MAX
            &&& old(totals).info + s.severities@.len() < i64::MAX
            &&& old(totals).files_read + s.read_count <= usize::MAX
        },
    ensures
        match (hostname, result) {
            (Some(h), Ok(s)) => {
                let sev = s.severities.deep_view();
                let (c, w, hy, i) = (
                    count_severity(sev, "critical"@) as int,
                    count_severity(sev, "warning"@) as int,
                    count_severity(sev, "healthy"@) as int,
                    count_other(sev) as int,
                );
                &&& r matches ScanItem::Done { message } && message@ == counts_msg(c, w, hy, i)
                &&& final(totals).critical == old(totals).critical + c
                &&& final(totals).warning == old(totals).warning + w
                &&& final(totals).healthy == old(totals).healthy + hy
                &&& final(totals).info == old(totals).info + i
                &&& final(totals).files_read == old(totals).files_read + s.read_count
                &&& final(totals).errors.deep_view() == old(totals).errors.deep_view() + prefixed(
                    h@,
                    s.errors.deep_view(),
                )
                &&& final(totals).not_found.deep_view() == old(totals).not_found.deep_view()
                    + prefixed(h@, s.not_found.deep_view())
            },
            (h, res) => {
                &&& r matches ScanItem::Failed { message } && message@ == match h {
                    None => "machine "@ + int_text(machine_id as int) + " not found"@,
                    Some(_) => match res {
                        Err(e) => e.message_view(),
                        Ok(_) => Seq::<char>::empty(),
                    },
                }
                &&& final(totals).critical == old(totals).critical
                &&& final(totals).warning == old(totals).warning
                &&& final(totals).healthy == old(totals).healthy
                &&& final(totals).info == old(totals).info
                &&& final(totals).files_read == old(totals).files_read
                &&& final(totals).errors@ == old(totals).errors@
                &&& final(totals).not_found@ == old(totals).not_found@
            },
        },
{
    let host = match hostname {
        Some(h) => h,
        None => {
            return ScanItem::Failed { message: with_number("machine ", machine_id, " not found") };
        },
    };
    let s = match result {
        Ok(s) => s,
        Err(e) => {
            return ScanItem::Failed { message: e.message() };
        },
    };
    proof {
        lemma_counts_bounded(s.severities.deep_view(), "critical"@);
        lemma_counts_bounded(s.severities.deep_view(), "warning"@);
        lemma_counts_bounded(s.severities.deep_view(), "healthy"@);
    }
    let c = tally_severities(&s.severities);
    totals.critical = totals.critical + c.critical;
    totals.warning = totals.warning + c.warning;
    totals.healthy = totals.healthy + c.healthy;
    totals.info = totals.info + c.info;
    totals.files_read = totals.files_read + s.read_count;
    append_prefixed(&mut totals.errors, &host, &s.errors);
    append_prefixed(&mut totals.not_found, &host, &s.not_found);
    let a = with_number("critical=", c.critical, " warning=");
    let b = with_number("", c.warning, " healthy=");
    let d = with_number("", c.healthy, " info=");
    let e = with_number("", c.info, "");
    proof {
        reveal_strlit("");
    }
    let ab = join2(&a, &b);
    let abd = join2(&ab, &d);
    let message = join2(&abd, &e);
    assert(message@ =~= counts_msg(c.critical as int, c.warning as int, c.healthy as int, c.info as int));
    ScanItem::Done { message }
}

// ---------------------------------------------------------------------------
// apply a finding
// ---------------------------------------------------------------------------

/// Whether credentials were supplied on the command line (an alias, a
/// user, or `--pass-stdin`), judged without reading stdin.
pub open spec fn cred_supplied(c: CredentialArgs) -> bool {
    c.cred_alias is Some || c.user is Some || c.pass_stdin
}

/// A command that cannot run anonymously refuses, before any dry run, when
/// no credential flag was given.
pub fn require_cred_supplied(c: &CredentialArgs, op: &str) -> (r: Result<(), UecmError>)
    ensures
        r is Ok <==> cred_supplied(*c),
        r matches Err(e) ==> e matches UecmError::InvalidInput(m) && m@ == needs_credentials_msg(op@),
{
    if c.cred_alias.is_some() || c.user.is_some() || c.pass_stdin {
        Ok(())
    } else {
        match require_credentials(None, op) {
            Ok(_) => Ok(()),
            Err(e) => Err(e),
        }
    }
}

/// What applying a finding goes on to do.
#[derive(Debug)]
pub struct ApplyPlan {
    pub finding: IniFinding,
    /// `DryRun`: report the plan only; `Proceed`: write the value.
    pub outcome: Outcome,
}

/// `ini apply`, up to the remote write: the destructive gate, credential
/// flags given, the finding present, and the finding applicable. A dry
/// run makes every check the `--yes` run makes and fails exactly where it
/// fails; it only stops before writing.
pub fn apply_plan(
    finding_id: i64,
    cred: &CredentialArgs,
    finding: Option<IniFinding>,
    yes: bool,
    dry_run: bool,
) -> (r: Result<ApplyPlan, UecmError>)
    ensures
        !dry_run && !yes ==> (r matches Err(e) && e matches UecmError::InvalidInput(m) && m@
            == destructive_msg("ini.apply"@)),
        (dry_run || yes) && !cred_supplied(*cred) ==> (r matches Err(e)
            && e matches UecmError::InvalidInput(m) && m@ == needs_credentials_msg("ini apply"@)),
        (dry_run || yes) && cred_supplied(*cred) ==> match finding {
            None => r matches Err(e) && e matches UecmError::InvalidInput(m) && m@ == "finding id="@
                + int_text(finding_id as int) + " not found"@,
            Some(f) => match apply_problem(f) {
                Some(p) => r matches Err(e) && e matches UecmError::InvalidInput(m) && m@ == p,
                None => r matches Ok(plan) && plan.finding == f && plan.outcome == (if dry_run {
                    Outcome::DryRun
                } else {
                    Outcome::Proceed
                }),
            },
        },
{
    let outcome = destructive_check(yes, dry_run, "ini.apply")?;
    require_cred_supplied(cred, "ini apply")?;
    let f = match finding {
        Some(f) => f,
        None => {
            return Err(UecmError::InvalidInput(with_number("finding id=", finding_id, " not found")));
        },
    };
    validate_apply(&f)?;
    Ok(ApplyPlan { finding: f, outcome })
}

} // verus!
