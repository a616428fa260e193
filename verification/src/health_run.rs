//! One machine of a `health run`: the row of check outcomes it gets (from
//! its probes and the three derived checks, or an all-offline row when the
//! probes could not run) and how the row is counted into the run's totals.

use vstd::prelude::*;
use crate::error::UecmError;
use crate::health::{
    count_ran, count_status, derive_ini_outcome, ini_status, CheckOutcome, Counters, HealthRunSummary,
    RunHealthCheckRequest, RunTotals,
};
use crate::store::{credential_by_alias, finding_with, recent_runs, Db};
use crate::text::int_text;
use crate::text::str_is;

verus! {

/// The probe keys an unreachable machine is reported offline under: the
/// remote probes, neither the local reachability ports nor the derived
/// checks.
pub open spec fn offline_keys() -> Seq<Seq<char>> {
    seq![
        "lanman_server"@,
        "firewall_445"@,
        "share_reachable"@,
        "ntfs_perm"@,
        "cred_user"@,
        "cred_system"@,
        "env_vars"@,
        "env_local"@,
        "env_shared"@,
        "rs_service"@,
        "system_write"@,
    ]
}

/// The probe keys an unreachable machine is reported offline under.
pub fn offline_probe_keys() -> (r: Vec<&'static str>)
    ensures
        r@.len() == offline_keys().len(),
        forall|i: int| 0 <= i < r@.len() ==> #[trigger] r@[i]@ == offline_keys()[i],
{
    vec![
        "lanman_server",
        "firewall_445",
        "share_reachable",
        "ntfs_perm",
        "cred_user",
        "cred_system",
        "env_vars",
        "env_local",
        "env_shared",
        "rs_service",
        "system_write",
    ]
}

/// A row of check outcomes by key, as plain values.
pub open spec fn row_view(row: Seq<(String, CheckOutcome)>) -> Seq<(Seq<char>, CheckOutcome)> {
    row.map_values(|e: (String, CheckOutcome)| (e.0@, e.1))
}

/// The statuses of a row, in order.
pub open spec fn row_statuses(row: Seq<(Seq<char>, CheckOutcome)>) -> Seq<Seq<char>> {
    row.map_values(|e: (Seq<char>, CheckOutcome)| e.1.status@)
}

/// The first index at or after `i` whose key is `k`.
pub open spec fn key_at(row: Seq<(Seq<char>, CheckOutcome)>, k: Seq<char>, i: int) -> Option<int>
    decreases row.len() - i,
{
    if i < 0 || i >= row.len() {
        None
    } else if row[i].0 == k {
        Some(i)
    } else {
        key_at(row, k, i + 1)
    }
}

/// The row with the outcome of `k` set: replaced where the key is present,
/// added at the end otherwise.
pub open spec fn row_set(row: Seq<(Seq<char>, CheckOutcome)>, k: Seq<char>, o: CheckOutcome) -> Seq<
    (Seq<char>, CheckOutcome),
> {
    match key_at(row, k, 0) {
        Some(i) => row.update(i, (k, o)),
        None => row.push((k, o)),
    }
}

proof fn lemma_key_at_in(row: Seq<(Seq<char>, CheckOutcome)>, k: Seq<char>, i: int)
    ensures
        key_at(row, k, i) matches Some(j) ==> 0 <= j < row.len(),
    decreases row.len() - i,
{
    if 0 <= i < row.len() && row[i].0 != k {
        lemma_key_at_in(row, k, i + 1);
    }
}

proof fn lemma_row_set_len(row: Seq<(Seq<char>, CheckOutcome)>, k: Seq<char>, o: CheckOutcome)
    ensures
        row_set(row, k, o).len() <= row.len() + 1,
{
    lemma_key_at_in(row, k, 0);
}

/// Sets the outcome of `key` in `row`, as `row_set` says.
pub fn set_entry(row: &mut Vec<(String, CheckOutcome)>, key: &str, o: CheckOutcome)
    ensures
        row_view(final(row)@) == row_set(row_view(old(row)@), key@, o),
{
    let ghost rv = row_view(row@);
    let mut i: usize = 0;
    while i < row.len()
        invariant
            rv == row_view(old(row)@),
            row@ == old(row)@,
            i <= row@.len(),
            key_at(rv, key@, 0) == key_at(rv, key@, i as int),
        decreases row@.len() - i,
    {
        if str_is(&row[i].0, key) {
            let ghost before = row@;
            row.set(i, (String::from_str(key), o));
            assert(row_view(row@) =~= rv.update(i as int, (key@, o)));
            return;
        }
        i = i + 1;
    }
    let ghost before = row@;
    row.push((String::from_str(key), o));
    assert(row_view(row@) =~= rv.push((key@, o)));
}

/// The counts of a row.
pub fn tally_row(row: &Vec<(String, CheckOutcome)>) -> (r: Counters)
    requires
        row@.len() <= i64::MAX,
    ensures
        r.healthy == count_status(row_statuses(row_view(row@)), "healthy"@),
        r.warning == count_status(row_statuses(row_view(row@)), "warning"@),
        r.critical == count_status(row_statuses(row_view(row@)), "critical"@),
        r.offline == count_status(row_statuses(row_view(row@)), "offline"@),
        r.skipped == count_status(row_statuses(row_view(row@)), "na"@),
        r.total_ran == count_ran(row_statuses(row_view(row@))),
        0 <= r.healthy <= row@.len() && 0 <= r.warning <= row@.len() && 0 <= r.critical
            <= row@.len() && 0 <= r.offline <= row@.len() && 0 <= r.skipped <= row@.len() && 0
            <= r.total_ran <= row@.len(),
{
    let ghost all = row_statuses(row_view(row@));
    let mut c = Counters::new();
    let mut i: usize = 0;
    while i < row.len()
        invariant
            all == row_statuses(row_view(row@)),
            row@.len() <= i64::MAX,
            i <= row@.len(),
            c.healthy == count_status(all.take(i as int), "healthy"@),
            c.warning == count_status(all.take(i as int), "warning"@),
            c.critical == count_status(all.take(i as int), "critical"@),
            c.offline == count_status(all.take(i as int), "offline"@),
            c.skipped == count_status(all.take(i as int), "na"@),
            c.total_ran == count_ran(all.take(i as int)),
            0 <= c.healthy <= i && 0 <= c.warning <= i && 0 <= c.critical <= i && 0 <= c.offline
                <= i && 0 <= c.skipped <= i && 0 <= c.total_ran <= i,
        decreases row@.len() - i,
    {
        assert(all.take(i + 1).drop_last() =~= all.take(i as int));
        assert(all.take(i + 1).last() == row@[i as int].1.status@);
        c.tally(&row[i].1);
        i = i + 1;
    }
    assert(all.take(i as int) =~= all);
    c
}

pub open spec fn offline_remediation() -> Seq<char> {
    "Bring the host online (verify network + WinRM) before retrying."@
}

/// Whether `row` reports each of `keys`, in order, as offline with the
/// probe error's message, no sample and the given remediation.
pub open spec fn all_offline(
    row: Seq<(Seq<char>, CheckOutcome)>,
    keys: Seq<Seq<char>>,
    message: Seq<char>,
    remediation: Seq<char>,
) -> bool {
    &&& row.len() == keys.len()
    &&& forall|i: int|
        0 <= i < row.len() ==> (#[trigger] row[i]).0 == keys[i] && row[i].1.status@ == "offline"@
            && row[i].1.message@ == message && row[i].1.sample@ == Seq::<char>::empty()
            && row[i].1.remediation@ == remediation
}

/// The row of an unreachable machine: every offline probe key, offline,
/// with the probe error's message.
pub open spec fn offline_row_fits(row: Seq<(Seq<char>, CheckOutcome)>, message: Seq<char>) -> bool {
    all_offline(row, offline_keys(), message, offline_remediation())
}

/// The row that reports each key as offline, as `all_offline` says.
fn offline_row_for(keys: &Vec<&'static str>, message: &str, remediation: &str) -> (r: Vec<(String, CheckOutcome)>)
    ensures
        all_offline(row_view(r@), keys@.map_values(|k: &'static str| k@), message@, remediation@),
{
    let ghost ks = keys@.map_values(|k: &'static str| k@);
    let mut row: Vec<(String, CheckOutcome)> = Vec::new();
    let mut i: usize = 0;
    while i < keys.len()
        invariant
            ks == keys@.map_values(|k: &'static str| k@),
            i <= keys@.len(),
            row@.len() == i,
            forall|j: int|
                0 <= j < i ==> (#[trigger] row_view(row@)[j]).0 == ks[j] && row_view(row@)[j].1.status@
                    == "offline"@ && row_view(row@)[j].1.message@ == message@ && row_view(row@)[j].1.sample@
                    == Seq::<char>::empty() && row_view(row@)[j].1.remediation@ == remediation@,
        decreases keys@.len() - i,
    {
        let o = CheckOutcome {
            status: String::from_str("offline"),
            message: String::from_str(message),
            sample: String::new(),
            remediation: String::from_str(remediation),
        };
        let ghost before = row@;
        row.push((String::from_str(keys[i]), o));
        assert forall|j: int| 0 <= j < i implies #[trigger] row_view(row@)[j] == row_view(before)[j] by {
            assert(row@[j] == before[j]);
        }
        i = i + 1;
    }
    row
}

/// The row of an unreachable machine, as `offline_row_fits` says.
pub fn offline_row(message: &str) -> (r: Vec<(String, CheckOutcome)>)
    ensures
        offline_row_fits(row_view(r@), message@),
{
    let keys = offline_probe_keys();
    assert(keys@.map_values(|k: &'static str| k@) =~= offline_keys());
    offline_row_for(&keys, message, "Bring the host online (verify network + WinRM) before retrying.")
}

/// The keys the desktop health check reports an unreachable machine
/// offline under.
pub open spec fn desktop_offline_keys() -> Seq<Seq<char>> {
    seq![
        "smb"@,
        "firewall_445"@,
        "share_reachable"@,
        "ntfs_perm"@,
        "cred_user"@,
        "cred_system"@,
        "env_vars"@,
        "env_local"@,
        "env_shared"@,
        "rs_service"@,
        "system_write"@,
    ]
}

/// The row of a machine the desktop health check could not probe: each of
/// its keys offline with the probe error's message, and no remediation.
pub open spec fn desktop_offline_fits(row: Seq<(Seq<char>, CheckOutcome)>, message: Seq<char>) -> bool {
    all_offline(row, desktop_offline_keys(), message, Seq::<char>::empty())
}

/// The row of a machine the desktop health check could not probe, as
/// `desktop_offline_fits` says.
pub fn desktop_offline_row(message: &str) -> (r: Vec<(String, CheckOutcome)>)
    ensures
        desktop_offline_fits(row_view(r@), message@),
{
    let keys: Vec<&'static str> = vec![
        "smb",
        "firewall_445",
        "share_reachable",
        "ntfs_perm",
        "cred_user",
        "cred_system",
        "env_vars",
        "env_local",
        "env_shared",
        "rs_service",
        "system_write",
    ];
    assert(keys@.map_values(|k: &'static str| k@) =~= desktop_offline_keys());
    proof {
        reveal_strlit("");
        assert(""@ =~= Seq::<char>::empty());
    }
    offline_row_for(&keys, message, "")
}

/// The three checks a health run derives itself rather than probing.
#[derive(Debug)]
pub struct DerivedChecks {
    pub ini_consistency: CheckOutcome,
    pub pso_precaching: CheckOutcome,
    pub gpu_consistency: CheckOutcome,
}

/// The row of a machine whose probes ran: the probe outcomes with the
/// three derived checks set.
pub open spec fn checked_row(probes: Seq<(Seq<char>, CheckOutcome)>, d: DerivedChecks) -> Seq<
    (Seq<char>, CheckOutcome),
> {
    row_set(
        row_set(row_set(probes, "ini_consistency"@, d.ini_consistency), "pso_precaching"@, d.pso_precaching),
        "gpu_consistency"@,
        d.gpu_consistency,
    )
}

/// What a health run did with one machine.
#[derive(Debug)]
pub enum MachineStep {
    /// No machine has the id: nothing is recorded.
    Skipped,
    /// The probes could not run: the all-offline row, and the error's message.
    Offline { row: Vec<(String, CheckOutcome)>, message: String },
    /// The row of probe outcomes and derived checks.
    Checked { row: Vec<(String, CheckOutcome)> },
}

/// Room in the totals for `n` more counts of every kind.
pub open spec fn room(t: RunTotals, n: int) -> bool {
    &&& 0 <= t.healthy && t.healthy + n <= i64::MAX
    &&& 0 <= t.warning && t.warning + n <= i64::MAX
    &&& 0 <= t.critical && t.critical + n <= i64::MAX
    &&& 0 <= t.offline && t.offline + n <= i64::MAX
    &&& 0 <= t.skipped && t.skipped + n <= i64::MAX
    &&& 0 <= t.total_checks && t.total_checks + n <= i64::MAX
}

/// One machine of a health run. An unknown machine is skipped and counts
/// for nothing. A machine whose probes failed gets the all-offline row: one
/// offline machine, and every offline probe key as a check that ran. A
/// machine whose probes ran gets its probes plus the three derived checks,
/// and the row's counts go into the totals.
pub fn health_machine_step(
    totals: &mut RunTotals,
    machine_known: bool,
    probes: Result<Vec<(String, CheckOutcome)>, UecmError>,
    derived: DerivedChecks,
) -> (r: MachineStep)
    requires
        room(
            *old(totals),
            match probes {
                Ok(p) => p@.len() + 3int,
                Err(_) => 11int,
            },
        ),
    ensures
        !machine_known ==> r is Skipped && *final(totals) == *old(totals),
        machine_known ==> match probes {
            Err(e) => (r matches MachineStep::Offline { row, message } && message@ == e.message_view()
                && offline_row_fits(row_view(row@), e.message_view())) && final(totals).offline == old(
                totals,
            ).offline + 1 && final(totals).total_checks == old(totals).total_checks + 11
                && final(totals).healthy == old(totals).healthy && final(totals).warning == old(
                totals,
            ).warning && final(totals).critical == old(totals).critical && final(totals).skipped
                == old(totals).skipped,
            Ok(p) => r matches MachineStep::Checked { row } && row_view(row@) == checked_row(
                row_view(p@),
                derived,
            ) && {
                let s = row_statuses(row_view(row@));
                &&& final(totals).healthy == old(totals).healthy + count_status(s, "healthy"@)
                &&& final(totals).warning == old(totals).warning + count_status(s, "warning"@)
                &&& final(totals).critical == old(totals).critical + count_status(s, "critical"@)
                &&& final(totals).offline == old(totals).offline + count_status(s, "offline"@)
                &&& final(totals).skipped == old(totals).skipped + count_status(s, "na"@)
                &&& final(totals).total_checks == old(totals).total_checks + count_ran(s)
            },
        },
{
    if !machine_known {
        return MachineStep::Skipped;
    }
    match probes {
        Err(e) => {
            let message = e.message();
            let row = offline_row(message.as_str());
            totals.add_offline_machine(11);
            MachineStep::Offline { row, message }
        },
        Ok(p) => {
            let mut row = p;
            let ghost n = row@.len();
            assert(row_view(row@).len() == n);
            let ghost r0 = row_view(row@);
            set_entry(&mut row, "ini_consistency", derived.ini_consistency);
            proof {
                lemma_row_set_len(r0, "ini_consistency"@, derived.ini_consistency);
            }
            assert(row_view(row@).len() == row@.len());
            assert(row@.len() <= n + 1);
            let ghost r1 = row_view(row@);
            set_entry(&mut row, "pso_precaching", derived.pso_precaching);
            proof {
                lemma_row_set_len(r1, "pso_precaching"@, derived.pso_precaching);
            }
            assert(row_view(row@).len() == row@.len());
            assert(row@.len() <= n + 2);
            let ghost r2 = row_view(row@);
            set_entry(&mut row, "gpu_consistency", derived.gpu_consistency);
            proof {
                lemma_row_set_len(r2, "gpu_consistency"@, derived.gpu_consistency);
            }
            assert(row_view(row@).len() == row@.len());
            assert(row@.len() <= n + 3);
            let c = tally_row(&row);
            totals.add_row(&c);
            MachineStep::Checked { row }
        },
    }
}

/// The checks before a desktop health run: machines must be named, and the
/// credential alias must be saved; its username is what the probes log in
/// with (the password is read from the secret store).
pub fn health_check_request(db: &Db, request: &RunHealthCheckRequest) -> (r: Result<String, UecmError>)
    ensures
        request.machine_ids@.len() == 0 ==> (r matches Err(e) && e matches UecmError::InvalidInput(m)
            && m@ == "machine_ids required"@),
        request.machine_ids@.len() > 0 ==> match credential_by_alias(
            db.credential_rows(),
            request.credential_alias@,
        ) {
            Some(c) => r matches Ok(u) && u@ == c.username,
            None => r matches Err(e) && e matches UecmError::InvalidInput(m) && m@ == "credential '"@
                + request.credential_alias@ + "' not found"@,
        },
{
    if request.machine_ids.len() == 0 {
        return Err(UecmError::InvalidInput(String::from_str("machine_ids required")));
    }
    match db.find_credential(request.credential_alias.as_str()) {
        Some(c) => Ok(c.username),
        None => Err(
            UecmError::InvalidInput(
                crate::text::concat3("credential '", request.credential_alias.as_str(), "' not found"),
            ),
        ),
    }
}

/// The row of a machine checked by the desktop health check: the CLI row,
/// with the detailed RenderStream service classification in place of the
/// probes' own `rs_service` outcome when that classification was obtained.
pub open spec fn desktop_row(
    probes: Seq<(Seq<char>, CheckOutcome)>,
    d: DerivedChecks,
    rs_service: Option<CheckOutcome>,
) -> Seq<(Seq<char>, CheckOutcome)> {
    match rs_service {
        Some(o) => row_set(checked_row(probes, d), "rs_service"@, o),
        None => checked_row(probes, d),
    }
}

/// Room in the desktop summary for `n` more outcomes.
pub open spec fn summary_room(s: HealthRunSummary, n: int) -> bool {
    &&& 0 <= s.healthy && s.healthy + n <= i64::MAX
    &&& 0 <= s.warning && s.warning + n <= i64::MAX
    &&& 0 <= s.critical && s.critical + n <= i64::MAX
    &&& 0 <= s.offline && s.offline + n <= i64::MAX
    &&& 0 <= s.total && s.total + n <= i64::MAX
}

/// One machine of the desktop health check. An unknown machine is skipped.
/// A machine whose probes failed gets the all-offline row and counts as one
/// offline machine with 11 checks. A machine whose probes ran gets its row
/// (probes, derived checks, and the service classification if obtained);
/// every outcome of the row counts in `total`, and the four statuses that
/// ran under their own count.
pub fn desktop_health_step(
    summary: &mut HealthRunSummary,
    machine_known: bool,
    probes: Result<Vec<(String, CheckOutcome)>, UecmError>,
    derived: DerivedChecks,
    rs_service: Option<CheckOutcome>,
) -> (r: MachineStep)
    requires
        summary_room(
            *old(summary),
            match probes {
                Ok(p) => p@.len() + 4int,
                Err(_) => 11int,
            },
        ),
    ensures
        final(summary).scan_run_id == old(summary).scan_run_id,
        !machine_known ==> r is Skipped && *final(summary) == *old(summary),
        machine_known ==> match probes {
            Err(e) => (r matches MachineStep::Offline { row, message } && message@ == e.message_view()
                && desktop_offline_fits(row_view(row@), e.message_view())) && final(summary).offline
                == old(summary).offline + 1 && final(summary).total == old(summary).total + 11
                && final(summary).healthy == old(summary).healthy && final(summary).warning == old(
                summary,
            ).warning && final(summary).critical == old(summary).critical,
            Ok(p) => r matches MachineStep::Checked { row } && row_view(row@) == desktop_row(
                row_view(p@),
                derived,
                rs_service,
            ) && {
                let s = row_statuses(row_view(row@));
                &&& final(summary).total == old(summary).total + row@.len()
                &&& final(summary).healthy == old(summary).healthy + count_status(s, "healthy"@)
                &&& final(summary).warning == old(summary).warning + count_status(s, "warning"@)
                &&& final(summary).critical == old(summary).critical + count_status(s, "critical"@)
                &&& final(summary).offline == old(summary).offline + count_status(s, "offline"@)
            },
        },
{
    if !machine_known {
        return MachineStep::Skipped;
    }
    match probes {
        Err(e) => {
            let message = e.message();
            let row = desktop_offline_row(message.as_str());
            summary.offline = summary.offline + 1;
            summary.total = summary.total + 11;
            MachineStep::Offline { row, message }
        },
        Ok(p) => {
            let mut row = p;
            let ghost n = row@.len();
            assert(row_view(row@).len() == n);
            let ghost r0 = row_view(row@);
            set_entry(&mut row, "ini_consistency", derived.ini_consistency);
            proof {
                lemma_row_set_len(r0, "ini_consistency"@, derived.ini_consistency);
            }
            assert(row_view(row@).len() == row@.len());
            let ghost r1 = row_view(row@);
            set_entry(&mut row, "pso_precaching", derived.pso_precaching);
            proof {
                lemma_row_set_len(r1, "pso_precaching"@, derived.pso_precaching);
            }
            assert(row_view(row@).len() == row@.len());
            let ghost r2 = row_view(row@);
            set_entry(&mut row, "gpu_consistency", derived.gpu_consistency);
            proof {
                lemma_row_set_len(r2, "gpu_consistency"@, derived.gpu_consistency);
            }
            assert(row_view(row@).len() == row@.len());
            match rs_service {
                Some(o) => {
                    let ghost r3 = row_view(row@);
                    set_entry(&mut row, "rs_service", o);
                    proof {
                        lemma_row_set_len(r3, "rs_service"@, o);
                    }
                },
                None => {},
            }
            assert(row_view(row@).len() == row@.len());
            assert(row@.len() <= n + 4);
            let ghost all = row_statuses(row_view(row@));
            let ghost start = *summary;
            let mut i: usize = 0;
            while i < row.len()
                invariant
                    all == row_statuses(row_view(row@)),
                    row@.len() <= n + 4,
                    summary_room(start, n + 4int),
                    i <= row@.len(),
                    summary.scan_run_id == start.scan_run_id,
                    summary.total == start.total + i,
                    summary.healthy == start.healthy + count_status(all.take(i as int), "healthy"@),
                    summary.warning == start.warning + count_status(all.take(i as int), "warning"@),
                    summary.critical == start.critical + count_status(all.take(i as int), "critical"@),
                    summary.offline == start.offline + count_status(all.take(i as int), "offline"@),
                    count_status(all.take(i as int), "healthy"@) <= i,
                    count_status(all.take(i as int), "warning"@) <= i,
                    count_status(all.take(i as int), "critical"@) <= i,
                    count_status(all.take(i as int), "offline"@) <= i,
                decreases row@.len() - i,
            {
                assert(all.take(i + 1).drop_last() =~= all.take(i as int));
                assert(all.take(i + 1).last() == row@[i as int].1.status@);
                summary.add_outcome(&row[i].1);
                i = i + 1;
            }
            assert(all.take(i as int) =~= all);
            MachineStep::Checked { row }
        },
    }
}

/// The latest INI scan run, if there is one.
pub open spec fn latest_ini_run(db: Db) -> Option<i64> {
    let latest = recent_runs(db.run_rows(), "ini"@, 1);
    if latest.len() == 0 {
        None
    } else {
        Some(latest[0].id)
    }
}

/// How many findings of the latest INI run on machine `mid` have severity
/// `sev`, capped at the largest `i64`.
pub open spec fn latest_count(db: Db, mid: i64, sev: Seq<char>) -> i64 {
    match latest_ini_run(db) {
        None => 0,
        Some(run) => {
            let n = db.finding_rows().filter(finding_with(run, mid, sev)).len();
            if n <= i64::MAX {
                n as i64
            } else {
                i64::MAX
            }
        },
    }
}

fn capped(n: usize) -> (r: i64)
    ensures
        r as int == if n <= i64::MAX {
            n as int
        } else {
            i64::MAX as int
        },
{
    if (n as u64) <= 9223372036854775807u64 {
        n as i64
    } else {
        9223372036854775807i64
    }
}

/// The `ini_consistency` check of machine `machine_id`: the critical and
/// warning findings of the latest INI scan run on it, as
/// `derive_ini_outcome` reports them.
pub fn ini_consistency_outcome(db: &Db, machine_id: i64) -> (r: CheckOutcome)
    ensures
        ({
            let run = latest_ini_run(*db);
            let c = latest_count(*db, machine_id, "critical"@);
            let w = latest_count(*db, machine_id, "warning"@);
            &&& r.status@ == ini_status(run, c, w)
            &&& r.remediation@ == Seq::<char>::empty()
            &&& match run {
                None => r.message@ == "no INI scan run yet"@ && r.sample@ == Seq::<char>::empty(),
                Some(id) => r.message@ == int_text(c as int) + " critical / "@ + int_text(w as int)
                    + " warning open"@ && r.sample@ == "scan_run #"@ + int_text(id as int) + ""@,
            }
        }),
{
    let latest = db.list_runs("ini", 1);
    assert(latest@.map_values(|x: crate::store::ScanRun| x@).len() == latest@.len());
    if latest.len() == 0 {
        return derive_ini_outcome(None, 0, 0);
    }
    let run = latest[0].id;
    assert(latest@.map_values(|x: crate::store::ScanRun| x@)[0].id == run);
    let c = capped(db.count_findings(run, machine_id, "critical"));
    let w = capped(db.count_findings(run, machine_id, "warning"));
    derive_ini_outcome(Some(run), c, w)
}

} // verus!
