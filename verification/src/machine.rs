//! Machine inventory commands: adding (idempotent by IP), deleting behind the
//! destructive-command gate, target selection, the authorize decision and
//! the choice of a machine's primary Unreal Engine install.

use vstd::prelude::*;
use crate::error::UecmError;
use crate::store::{machine_by_id, machine_by_ip, machine_index, Db, Machine, MachineV};
use crate::text::{parse_int_exec, parse_int_in, split_on, split_on_exec, with_number};

verus! {

// ---------------------------------------------------------------------------
// destructive commands
// ---------------------------------------------------------------------------

/// How a destructive command goes ahead.
#[derive(Debug, Clone, Copy, PartialEq, Eq)]
pub enum Outcome {
    /// `--yes`: carry it out.
    Proceed,
    /// `--dry-run`: only report the plan.
    DryRun,
}

pub open spec fn destructive_msg(operation: Seq<char>) -> Seq<char> {
    operation + " is destructive; pass --yes to proceed or --dry-run to preview"@
}

/// Guards every destructive command: `--dry-run` only reports the plan,
/// `--yes` carries it out, neither is invalid input.
pub fn destructive_check(yes: bool, dry_run: bool, operation: &str) -> (r: Result<Outcome, UecmError>)
    ensures
        dry_run ==> r == Ok::<Outcome, UecmError>(Outcome::DryRun),
        !dry_run && yes ==> r == Ok::<Outcome, UecmError>(Outcome::Proceed),
        !dry_run && !yes ==> (r matches Err(e) && e matches UecmError::InvalidInput(m) && m@
            == destructive_msg(operation@)),
{
    if dry_run {
        Ok(Outcome::DryRun)
    } else if yes {
        Ok(Outcome::Proceed)
    } else {
        let a = String::from_str(operation);
        let b = String::from_str(" is destructive; pass --yes to proceed or --dry-run to preview");
        Err(UecmError::InvalidInput(crate::text::join2(&a, &b)))
    }
}

// ---------------------------------------------------------------------------
// add / delete / rename
// ---------------------------------------------------------------------------

/// What `machine add` reports.
#[derive(Debug)]
pub struct AddOutcome {
    pub id: i64,
    pub ip: String,
    pub hostname: String,
    /// The IP was already in the inventory; nothing was stored.
    pub already_present: bool,
}

/// Adds a machine by IP; the hostname defaults to the IP. Adding an IP that
/// is already present stores nothing and reports the existing row, so
/// `scan` → `add` automation can be re-run safely.
pub fn add_machine(db: &mut Db, ip: &str, hostname: Option<String>) -> (r: Result<AddOutcome, UecmError>)
    requires
        old(db).wf(),
    ensures
        final(db).wf(),
        match machine_by_ip(old(db).machine_rows(), ip@) {
            Some(m) => (r matches Ok(o) && o.already_present && Some(o.id) == m.id && o.hostname@
                == m.hostname && o.ip@ == ip@) && final(db).machine_rows() == old(db).machine_rows(),
            None => old(db).next_machine() < i64::MAX ==> (r matches Ok(o) && !o.already_present
                && o.id == old(db).next_machine() && o.ip@ == ip@ && o.hostname@ == match hostname {
                Some(h) => h@,
                None => ip@,
            } && final(db).machine_rows() == old(db).machine_rows().push(
                MachineV { id: Some(o.id), hostname: o.hostname@, ip: ip@, status: None },
            )),
        },
        r is Err ==> final(db).machine_rows() == old(db).machine_rows(),
        final(db).endpoint_rows() == old(db).endpoint_rows(),
{
    let hostname = match hostname {
        Some(h) => h,
        None => String::from_str(ip),
    };
    if let Some(existing) = db.find_machine_by_ip(ip) {
        proof {
            crate::store::lemma_machine_by_ip_has_id(db, ip@);
        }
        let id = match existing.id {
            Some(x) => x,
            None => 0,
        };
        return Ok(AddOutcome { id, ip: String::from_str(ip), hostname: existing.hostname, already_present: true });
    }
    let row = Machine::new(hostname.as_str(), ip);
    match db.insert_machine(&row) {
        Ok(id) => Ok(AddOutcome { id, ip: String::from_str(ip), hostname, already_present: false }),
        Err(e) => Err(e),
    }
}

proof fn lemma_machine_by_ip_push(rows: Seq<MachineV>, m: MachineV, ip: Seq<char>)
    ensures
        machine_by_ip(rows.push(m), ip) == (match machine_by_ip(rows, ip) {
            Some(r) => Some(r),
            None => if m.ip == ip {
                Some(m)
            } else {
                None
            },
        }),
    decreases rows.len(),
{
    reveal_with_fuel(machine_by_ip, 2);
    if rows.len() > 0 {
        assert(rows.push(m)[0] == rows[0]);
        assert(rows.push(m).drop_first() =~= rows.drop_first().push(m));
        lemma_machine_by_ip_push(rows.drop_first(), m, ip);
    } else {
        assert(rows.push(m).drop_first() =~= Seq::<MachineV>::empty());
        assert(rows.push(m)[0] == m);
    }
}

/// Adding an IP is idempotent: the row that a first `add_machine` of a new
/// IP appends is the one that IP finds afterwards, so a second
/// `add_machine` of it stores nothing and reports the same id.
pub proof fn lemma_add_twice(rows: Seq<MachineV>, ip: Seq<char>, hostname: Seq<char>, id: i64)
    requires
        machine_by_ip(rows, ip) is None,
    ensures
        machine_by_ip(rows.push(MachineV { id: Some(id), hostname, ip, status: None }), ip) == Some(
            MachineV { id: Some(id), hostname, ip, status: None },
        ),
{
    lemma_machine_by_ip_push(rows, MachineV { id: Some(id), hostname, ip, status: None }, ip);
}

/// What `machine delete` reports.
#[derive(Debug, Clone, Copy)]
pub struct DeleteOutcome {
    pub id: i64,
    /// `false` for a dry run.
    pub deleted: bool,
}

/// Deletes a machine behind the destructive gate. An unknown id is invalid
/// input (a repeated delete fails loudly); a dry run changes nothing.
pub fn delete_machine(db: &mut Db, id: i64, yes: bool, dry_run: bool) -> (r: Result<DeleteOutcome, UecmError>)
    requires
        old(db).wf(),
    ensures
        final(db).wf(),
        !dry_run && !yes ==> (r matches Err(e) && e matches UecmError::InvalidInput(m) && m@
            == destructive_msg("machine.delete"@)),
        (dry_run || yes) && machine_by_id(old(db).machine_rows(), id) is None ==> (r matches Err(e)
            && e matches UecmError::InvalidInput(m) && m@ == "machine id="@ + crate::text::int_text(
            id as int,
        ) + " not found (already deleted or wrong id)"@),
        (dry_run || yes) && machine_by_id(old(db).machine_rows(), id) is Some ==> (r matches Ok(o)
            && o.id == id && o.deleted == !dry_run),
        r matches Ok(o) && o.deleted ==> final(db).machine_rows() == match machine_index(
            old(db).machine_rows(),
            id,
            0,
        ) {
            Some(k) => old(db).machine_rows().remove(k),
            None => old(db).machine_rows(),
        },
        !(r matches Ok(o) && o.deleted) ==> final(db).machine_rows() == old(db).machine_rows(),
        final(db).endpoint_rows() == old(db).endpoint_rows(),
{
    let outcome = destructive_check(yes, dry_run, "machine.delete")?;
    if db.find_machine(id).is_none() {
        return Err(
            UecmError::InvalidInput(with_number("machine id=", id, " not found (already deleted or wrong id)")),
        );
    }
    if matches!(outcome, Outcome::DryRun) {
        return Ok(DeleteOutcome { id, deleted: false });
    }
    db.delete_machine(id);
    Ok(DeleteOutcome { id, deleted: true })
}

// ---------------------------------------------------------------------------
// refresh
// ---------------------------------------------------------------------------

/// `rows` with the status of machine `id` set to `status`.
pub open spec fn with_status(rows: Seq<MachineV>, id: i64, status: Seq<char>) -> Seq<MachineV> {
    rows.map_values(
        |m: MachineV|
            if m.id == Some(id) {
                MachineV { status: Some(status), ..m }
            } else {
                m
            },
    )
}

/// What a WinRM probe answered: whether the host accepted the session, and
/// the message it gave.
#[derive(Debug)]
pub struct ProbeAnswer {
    pub ok: bool,
    pub message: String,
}

pub open spec fn probe_status(probe: Result<ProbeAnswer, UecmError>) -> Seq<char> {
    if probe matches Ok(p) && p.ok {
        "online"@
    } else {
        "offline"@
    }
}

/// The first step of `machine refresh`: the probe of machine `id` marks it
/// `online` when the host accepted the session, and the refresh goes on;
/// otherwise it marks it `offline` and the refresh ends, with
/// `winrm probe failed: <message>` for a refused session or with the error of
/// a probe that could not be made.
pub fn record_probe(db: &mut Db, id: i64, probe: Result<ProbeAnswer, UecmError>) -> (r: Result<(), UecmError>)
    requires
        old(db).wf(),
    ensures
        final(db).wf(),
        final(db).machine_rows() == with_status(old(db).machine_rows(), id, probe_status(probe)),
        final(db).endpoint_rows() == old(db).endpoint_rows(),
        final(db).install_rows() == old(db).install_rows(),
        final(db).gpu_rows() == old(db).gpu_rows(),
        final(db).baseline_rows() == old(db).baseline_rows(),
        final(db).probe_rows() == old(db).probe_rows(),
        final(db).credential_rows() == old(db).credential_rows(),
        match probe {
            Ok(p) => if p.ok {
                r is Ok
            } else {
                r matches Err(e) && e matches UecmError::PowerShell(m) && m@ == "winrm probe failed: "@
                    + p.message@
            },
            Err(e) => r == Err::<(), UecmError>(e),
        },
{
    match probe {
        Ok(p) => {
            if p.ok {
                db.mark_seen(id, "online");
                Ok(())
            } else {
                db.mark_seen(id, "offline");
                let head = String::from_str("winrm probe failed: ");
                Err(UecmError::PowerShell(crate::text::join2(&head, &p.message)))
            }
        },
        Err(e) => {
            db.mark_seen(id, "offline");
            Err(e)
        },
    }
}

// ---------------------------------------------------------------------------
// target selection and authorize
// ---------------------------------------------------------------------------

/// The ids of the machine rows, in order.
pub open spec fn machine_ids_of(rows: Seq<MachineV>) -> Seq<i64>
    decreases rows.len(),
{
    if rows.len() == 0 {
        Seq::<i64>::empty()
    } else {
        let rest = machine_ids_of(rows.drop_last());
        match rows.last().id {
            Some(id) => rest.push(id),
            None => rest,
        }
    }
}

/// Expands a `--machine-ids` / `--all` selection: `--all` is every machine
/// of the inventory; otherwise the ids given, of which there must be some.
pub fn resolve_target_ids(db: &Db, machine_ids: &Vec<i64>, all: bool) -> (r: Result<Vec<i64>, UecmError>)
    ensures
        all ==> (r matches Ok(v) && v@ == machine_ids_of(db.machine_rows())),
        !all && machine_ids@.len() == 0 ==> (r matches Err(e) && e matches UecmError::InvalidInput(m)
            && m@ == "one of --machine-ids or --all is required"@),
        !all && machine_ids@.len() > 0 ==> (r matches Ok(v) && v@ == machine_ids@),
{
    if all {
        let rows = db.list_machines();
        let ghost rv = rows@.map_values(|m: Machine| m@);
        let mut out: Vec<i64> = Vec::new();
        let mut i: usize = 0;
        while i < rows.len()
            invariant
                rv == rows@.map_values(|m: Machine| m@),
                i <= rows@.len(),
                out@ == machine_ids_of(rv.take(i as int)),
            decreases rows@.len() - i,
        {
            assert(rv.take(i + 1).drop_last() =~= rv.take(i as int));
            assert(rv.take(i + 1).last() == rows@[i as int]@);
            if let Some(id) = rows[i].id {
                out.push(id);
            }
            i = i + 1;
        }
        assert(rv.take(i as int) =~= rv);
        Ok(out)
    } else if machine_ids.len() == 0 {
        Err(UecmError::InvalidInput(String::from_str("one of --machine-ids or --all is required")))
    } else {
        let mut out: Vec<i64> = Vec::new();
        let mut i: usize = 0;
        while i < machine_ids.len()
            invariant
                i <= machine_ids@.len(),
                out@ == machine_ids@.take(i as int),
            decreases machine_ids@.len() - i,
        {
            out.push(machine_ids[i]);
            assert(machine_ids@.take(i + 1) =~= machine_ids@.take(i as int).push(machine_ids@[i as int]));
            i = i + 1;
        }
        assert(machine_ids@.take(i as int) =~= machine_ids@);
        Ok(out)
    }
}

/// The next step of authorizing a machine, from the preflight verdict.
#[derive(Debug, Clone, Copy, PartialEq, Eq)]
pub enum AuthorizeStep {
    /// Remote bootstrap is viable: run it.
    Bootstrap,
    /// Fall back to the USB bootstrap package.
    UsbFallback,
}

/// `viable` and `likely_viable` lead to a remote bootstrap; every other
/// verdict falls back to USB.
pub fn authorize_decision(verdict: &str) -> (r: AuthorizeStep)
    ensures
        r == (if verdict@ == "viable"@ || verdict@ == "likely_viable"@ {
            AuthorizeStep::Bootstrap
        } else {
            AuthorizeStep::UsbFallback
        }),
{
    let v = String::from_str(verdict);
    if crate::text::str_is(&v, "viable") || crate::text::str_is(&v, "likely_viable") {
        AuthorizeStep::Bootstrap
    } else {
        AuthorizeStep::UsbFallback
    }
}

// ---------------------------------------------------------------------------
// deep scan and authorize batches
// ---------------------------------------------------------------------------

/// How one machine of `machine deep-scan` went.
#[derive(Debug)]
pub enum DeepScanEvent {
    /// No machine has the id.
    MachineMissing,
    /// WinRM did not answer the reachability probe.
    Unreachable,
    /// WinRM answered, but the refresh failed with this message.
    RefreshFailed(String),
    /// The machine was refreshed and joins the batch scans.
    Refreshed,
}

/// What is reported of one machine of a deep scan.
#[derive(Debug)]
pub enum DeepScanVerdict {
    Scanned,
    Skipped { reason: String, hint: String },
    Failed { step: String, error: String },
}

/// The running tally of `machine deep-scan`: the machines refreshed (which
/// the INI scan and the health run then cover together), skipped and failed.
#[derive(Debug)]
pub struct DeepScanSummary {
    pub machines: usize,
    pub scanned: Vec<i64>,
    pub skipped: usize,
    pub failed: usize,
}

impl DeepScanSummary {
    /// The machines recorded so far.
    pub open spec fn recorded(&self) -> int {
        self.scanned@.len() + self.skipped + self.failed
    }

    /// An empty tally for a batch of `machines` machines.
    pub fn new(machines: usize) -> (r: Self)
        ensures
            r.machines == machines,
            r.scanned@ == Seq::<i64>::empty(),
            r.skipped == 0,
            r.failed == 0,
    {
        DeepScanSummary { machines, scanned: Vec::new(), skipped: 0, failed: 0 }
    }

    /// Records one machine: a missing machine or a failed refresh is a
    /// failure, an unreachable one is skipped (with the hint to authorize it
    /// first), a refreshed one is scanned.
    pub fn record(&mut self, machine_id: i64, event: DeepScanEvent) -> (v: DeepScanVerdict)
        requires
            old(self).recorded() < old(self).machines,
        ensures
            final(self).machines == old(self).machines,
            final(self).recorded() == old(self).recorded() + 1,
            match event {
                DeepScanEvent::MachineMissing => v matches DeepScanVerdict::Failed { step, error }
                    && step@ == "deep_scan"@ && error@ == "machine not found"@
                    && final(self).failed == old(self).failed + 1
                    && final(self).skipped == old(self).skipped
                    && final(self).scanned@ == old(self).scanned@,
                DeepScanEvent::Unreachable => v matches DeepScanVerdict::Skipped { reason, hint }
                    && reason@ == "WinRM unreachable"@
                    && hint@ == "run `uecm-cli machine authorize` to open WinRM first"@
                    && final(self).skipped == old(self).skipped + 1
                    && final(self).failed == old(self).failed
                    && final(self).scanned@ == old(self).scanned@,
                DeepScanEvent::RefreshFailed(e) => v matches DeepScanVerdict::Failed { step, error }
                    && step@ == "refresh"@ && error@ == "WinRM reachable but refresh failed: "@ + e@
                    && final(self).failed == old(self).failed + 1
                    && final(self).skipped == old(self).skipped
                    && final(self).scanned@ == old(self).scanned@,
                DeepScanEvent::Refreshed => v is Scanned && final(self).scanned@ == old(
                    self,
                ).scanned@.push(machine_id) && final(self).failed == old(self).failed
                    && final(self).skipped == old(self).skipped,
            },
    {
        match event {
            DeepScanEvent::MachineMissing => {
                self.failed = self.failed + 1;
                DeepScanVerdict::Failed {
                    step: String::from_str("deep_scan"),
                    error: String::from_str("machine not found"),
                }
            },
            DeepScanEvent::Unreachable => {
                self.skipped = self.skipped + 1;
                DeepScanVerdict::Skipped {
                    reason: String::from_str("WinRM unreachable"),
                    hint: String::from_str("run `uecm-cli machine authorize` to open WinRM first"),
                }
            },
            DeepScanEvent::RefreshFailed(e) => {
                self.failed = self.failed + 1;
                let head = String::from_str("WinRM reachable but refresh failed: ");
                DeepScanVerdict::Failed {
                    step: String::from_str("refresh"),
                    error: crate::text::join2(&head, &e),
                }
            },
            DeepScanEvent::Refreshed => {
                self.scanned.push(machine_id);
                DeepScanVerdict::Scanned
            },
        }
    }
}

pub open spec fn authorize_credentials_msg() -> Seq<char> {
    "machine authorize requires credentials (--cred-alias or --user/--pass-stdin)"@
}

/// `machine authorize` needs a local administrator's user and password.
pub fn authorize_credentials(creds: Option<(String, String)>) -> (r: Result<(String, String), UecmError>)
    ensures
        match creds {
            Some(p) => r == Ok::<(String, String), UecmError>(p),
            None => r matches Err(e) && e matches UecmError::InvalidInput(m) && m@
                == authorize_credentials_msg(),
        },
{
    match creds {
        Some(p) => Ok(p),
        None => Err(
            UecmError::InvalidInput(
                String::from_str(
                    "machine authorize requires credentials (--cred-alias or --user/--pass-stdin)",
                ),
            ),
        ),
    }
}

/// How one machine of `machine authorize` went.
#[derive(Debug)]
pub enum AuthorizeEvent {
    /// No machine has the id.
    MachineMissing,
    /// The preflight could not be run.
    PreflightFailed(String),
    /// The preflight verdict led to the USB fallback.
    UsbFallback,
    /// The remote bootstrap ran; whether it succeeded, and its message.
    Bootstrapped { ok: bool, message: String },
    /// The remote bootstrap could not be run.
    BootstrapFailed(String),
}

/// Whether the event is a bootstrap that reported success.
pub open spec fn authorized(e: AuthorizeEvent) -> bool {
    e matches AuthorizeEvent::Bootstrapped { ok, .. } && ok
}

/// The running tally of `machine authorize`.
#[derive(Debug, Clone, Copy)]
pub struct AuthorizeSummary {
    pub machines: usize,
    pub authorized: usize,
    pub usb_fallback: usize,
    pub failed: usize,
}

impl AuthorizeSummary {
    pub open spec fn recorded(&self) -> int {
        self.authorized + self.usb_fallback + self.failed
    }

    /// An empty tally for a batch of `machines` machines.
    pub fn new(machines: usize) -> (r: Self)
        ensures
            r.machines == machines,
            r.authorized == 0,
            r.usb_fallback == 0,
            r.failed == 0,
    {
        AuthorizeSummary { machines, authorized: 0, usb_fallback: 0, failed: 0 }
    }

    /// Records one machine: only a bootstrap that reports success authorizes
    /// it; the USB fallback is counted apart; everything else is a failure.
    pub fn record(&mut self, event: &AuthorizeEvent)
        requires
            old(self).recorded() < old(self).machines,
        ensures
            final(self).machines == old(self).machines,
            final(self).authorized == old(self).authorized + (if authorized(*event) {
                1int
            } else {
                0int
            }),
            final(self).usb_fallback == old(self).usb_fallback + (if *event is UsbFallback {
                1int
            } else {
                0int
            }),
            final(self).failed == old(self).failed + (if authorized(*event) || *event is UsbFallback {
                0int
            } else {
                1int
            }),
    {
        match event {
            AuthorizeEvent::UsbFallback => {
                self.usb_fallback = self.usb_fallback + 1;
            },
            AuthorizeEvent::Bootstrapped { ok, .. } => {
                if *ok {
                    self.authorized = self.authorized + 1;
                } else {
                    self.failed = self.failed + 1;
                }
            },
            _ => {
                self.failed = self.failed + 1;
            },
        }
    }
}

// ---------------------------------------------------------------------------
// primary install
// ---------------------------------------------------------------------------

/// A version's `(major, minor)` as numbers: the first two `.`-separated
/// parts read as `u32`, 0 where a part is missing or not a number.
pub open spec fn version_key(v: Seq<char>) -> (int, int) {
    let parts = split_on(v, '.');
    let major = match parse_int_in(parts[0], false, 0, 0xffff_ffff) {
        Some(x) => x,
        None => 0,
    };
    let minor = if parts.len() > 1 {
        match parse_int_in(parts[1], false, 0, 0xffff_ffff) {
            Some(x) => x,
            None => 0,
        }
    } else {
        0
    };
    (major, minor)
}

pub open spec fn key_le(a: (int, int), b: (int, int)) -> bool {
    a.0 < b.0 || (a.0 == b.0 && a.1 <= b.1)
}

/// Reads a version's `(major, minor)`.
pub fn parse_version(v: &str) -> (r: (u32, u32))
    ensures
        (r.0 as int, r.1 as int) == version_key(v@),
{
    let chars = crate::text::chars_of(v);
    let parts = split_on_exec(chars.as_slice(), '.');
    proof {
        crate::text::lemma_split_on_nonempty(v@, '.');
        assert(parts@[0].deep_view() =~= parts@[0]@);
        if parts@.len() > 1 {
            assert(parts@[1].deep_view() =~= parts@[1]@);
        }
    }
    let major: u32 = match parse_int_exec(parts[0].as_slice(), false, 0, 0xffff_ffff) {
        Some(x) => x as u32,
        None => 0,
    };
    let minor: u32 = if parts.len() > 1 {
        match parse_int_exec(parts[1].as_slice(), false, 0, 0xffff_ffff) {
            Some(x) => x as u32,
            None => 0,
        }
    } else {
        0
    };
    (major, minor)
}

/// The index of the newest version by numeric `(major, minor)` (so `5.10`
/// is newer than `5.9`); among equal newest versions the last one.
pub open spec fn is_primary_index(versions: Seq<Seq<char>>, k: int) -> bool {
    &&& 0 <= k < versions.len()
    &&& forall|j: int| 0 <= j < versions.len() ==> key_le(version_key(#[trigger] versions[j]), version_key(versions[k]))
    &&& forall|j: int| k < j < versions.len() ==> !key_le(version_key(versions[k]), version_key(#[trigger] versions[j]))
}

/// Picks the primary install among detected versions; `None` when there
/// are none.
pub fn primary_index(versions: &Vec<String>) -> (r: Option<usize>)
    ensures
        versions@.len() == 0 ==> r is None,
        versions@.len() > 0 ==> (r matches Some(k) && is_primary_index(versions.deep_view(), k as int)),
{
    if versions.len() == 0 {
        return None;
    }
    let ghost vs = versions.deep_view();
    let mut best: usize = 0;
    let mut best_key = parse_version(versions[0].as_str());
    let mut i: usize = 1;
    while i < versions.len()
        invariant
            vs == versions.deep_view(),
            vs.len() == versions@.len(),
            1 <= i <= versions@.len(),
            best < i,
            (best_key.0 as int, best_key.1 as int) == version_key(vs[best as int]),
            forall|j: int| 0 <= j < i ==> key_le(version_key(#[trigger] vs[j]), version_key(vs[best as int])),
            forall|j: int| best < j < i ==> !key_le(version_key(vs[best as int]), version_key(#[trigger] vs[j])),
        decreases versions@.len() - i,
    {
        let k = parse_version(versions[i].as_str());
        assert(vs[i as int] == versions@[i as int]@);
        if k.0 > best_key.0 || (k.0 == best_key.0 && k.1 >= best_key.1) {
            best = i;
            best_key = k;
        }
        i = i + 1;
    }
    Some(best)
}

} // verus!
