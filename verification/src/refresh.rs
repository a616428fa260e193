//! `machine refresh` as a sequence of steps: the WinRM probe, then the
//! detected engine installs (stored at once), then the GPUs (stored too). Each step takes
//! what the remote side answered and says what to do next; a failure in a
//! later step never undoes an earlier one.

use vstd::prelude::*;
use crate::ddc::{detected_view, refreshed_installs, refreshed_row_fits, UeInstall};
use crate::error::UecmError;
use crate::machine::{is_primary_index, probe_status, record_probe, with_status, ProbeAnswer};
use crate::reports::{GpuInfo, GpuInfoV};
use crate::store::{gpu_not_of, install_not_of, install_of, machine_by_id, Db};
use crate::text::{int_text, with_number};

verus! {

/// The address a refresh connects to: the machine's IP (its hostname may
/// have been renamed). An unknown id is invalid input.
pub fn refresh_target(db: &Db, id: i64) -> (r: Result<String, UecmError>)
    ensures
        match machine_by_id(db.machine_rows(), id) {
            Some(m) => r matches Ok(ip) && ip@ == m.ip,
            None => r matches Err(e) && e matches UecmError::InvalidInput(msg) && msg@ == "machine id="@
                + int_text(id as int) + " not found"@,
        },
{
    match db.find_machine(id) {
        Some(m) => Ok(m.ip),
        None => Err(UecmError::InvalidInput(with_number("machine id=", id, " not found"))),
    }
}

/// Where a refresh stands.
#[derive(Debug, Clone, Copy, PartialEq, Eq)]
pub enum RefreshState {
    /// Waiting for the WinRM probe.
    AwaitProbe,
    /// The host answered; waiting for the detected engine installs.
    AwaitInstalls,
    /// The installs are saved; waiting for the detected GPUs.
    AwaitGpus { ue_versions: usize },
    /// Everything is saved.
    Finished,
    /// A step failed; what was saved before stays.
    Failed,
}

/// What the remote side answered to the current step.
#[derive(Debug)]
pub enum RefreshEvent {
    Probe(Result<ProbeAnswer, UecmError>),
    Installs(Result<Vec<(String, String)>, UecmError>),
    Gpus(Result<Vec<GpuInfo>, UecmError>),
}

/// What to do next.
#[derive(Debug)]
pub enum RefreshAction {
    /// Detect the engine installs.
    DetectInstalls,
    /// The detected installs are stored; detect the GPUs.
    DetectGpus,
    /// The detected GPUs are stored; the refresh is done.
    Done { gpus: usize, ue_versions: usize },
    /// End the refresh with this error.
    Fail(UecmError),
    /// The event does not belong to the current step; nothing changes.
    Ignore,
}

/// The install rows a refresh stores for the detected installs: one per
/// detected install in order, the newest primary, in-tree metadata kept.
pub open spec fn installs_refreshed(
    rows: Seq<UeInstall>,
    machine_id: i64,
    existing: Seq<UeInstall>,
    detected: Seq<(String, String)>,
) -> bool {
    &&& rows.len() == detected.len()
    &&& forall|k: int|
        0 <= k < rows.len() ==> #[trigger] refreshed_row_fits(
            rows[k],
            machine_id,
            detected_view(detected)[k],
            existing,
        )
    &&& forall|k: int|
        0 <= k < rows.len() ==> #[trigger] rows[k].is_primary == is_primary_index(
            detected_view(detected).map_values(|d: (Seq<char>, Seq<char>)| d.0),
            k,
        )
}

/// A detected GPU as stored for machine `machine_id`: a new row of that
/// machine.
pub open spec fn stored_gpu(g: GpuInfoV, machine_id: i64) -> GpuInfoV {
    GpuInfoV { id: None, machine_id, ..g }
}

/// The detected GPUs as rows of machine `machine_id`.
fn gpus_of_machine(machine_id: i64, detected: &Vec<GpuInfo>) -> (r: Vec<GpuInfo>)
    ensures
        r@.map_values(|x: GpuInfo| x@) == detected@.map_values(|x: GpuInfo| stored_gpu(x@, machine_id)),
{
    let mut out: Vec<GpuInfo> = Vec::new();
    let mut i: usize = 0;
    while i < detected.len()
        invariant
            i <= detected@.len(),
            out@.map_values(|x: GpuInfo| x@) =~= detected@.map_values(|x: GpuInfo| stored_gpu(x@, machine_id)).take(
                i as int,
            ),
        decreases detected@.len() - i,
    {
        let mut row = detected[i].copy();
        row.id = None;
        row.machine_id = machine_id;
        let ghost before = out@.map_values(|x: GpuInfo| x@);
        out.push(row);
        assert(out@.map_values(|x: GpuInfo| x@) =~= before.push(stored_gpu(detected@[i as int]@, machine_id)));
        assert(detected@.map_values(|x: GpuInfo| stored_gpu(x@, machine_id)).take(i + 1)
            =~= detected@.map_values(|x: GpuInfo| stored_gpu(x@, machine_id)).take(i as int).push(
            stored_gpu(detected@[i as int]@, machine_id),
        ));
        i = i + 1;
    }
    assert(detected@.map_values(|x: GpuInfo| stored_gpu(x@, machine_id)).take(i as int)
        =~= detected@.map_values(|x: GpuInfo| stored_gpu(x@, machine_id)));
    out
}

/// One step of `machine refresh` of machine `machine_id`. The probe marks
/// the machine online or offline and only a session the host accepted goes
/// on. Detected installs replace the machine's install rows at once, before
/// GPUs are detected, so a failing GPU detection keeps them; the in-tree zen
/// metadata of the rows they replace is carried over. Detected GPUs replace
/// the machine's GPU rows and finish the refresh. Nothing else changes.
pub fn refresh_step(
    db: &mut Db,
    machine_id: i64,
    state: RefreshState,
    event: RefreshEvent,
) -> (r: (RefreshState, RefreshAction))
    requires
        old(db).wf(),
    ensures
        final(db).wf(),
        final(db).endpoint_rows() == old(db).endpoint_rows(),
        final(db).baseline_rows() == old(db).baseline_rows(),
        final(db).probe_rows() == old(db).probe_rows(),
        final(db).credential_rows() == old(db).credential_rows(),
        match (state, event) {
            (RefreshState::AwaitProbe, RefreshEvent::Probe(p)) => {
                &&& final(db).machine_rows() == with_status(
                    old(db).machine_rows(),
                    machine_id,
                    probe_status(p),
                )
                &&& final(db).install_rows() == old(db).install_rows()
                &&& final(db).gpu_rows() == old(db).gpu_rows()
                &&& match p {
                    Ok(a) => if a.ok {
                        r.0 == RefreshState::AwaitInstalls && r.1 is DetectInstalls
                    } else {
                        r.0 == RefreshState::Failed && (r.1 matches RefreshAction::Fail(e)
                            && e matches UecmError::PowerShell(m) && m@ == "winrm probe failed: "@
                            + a.message@)
                    },
                    Err(e) => r.0 == RefreshState::Failed && r.1 == RefreshAction::Fail(e),
                }
            },
            (RefreshState::AwaitInstalls, RefreshEvent::Installs(res)) => {
                &&& final(db).machine_rows() == old(db).machine_rows()
                &&& final(db).gpu_rows() == old(db).gpu_rows()
                &&& match res {
                    Ok(d) => {
                        &&& r.0 == (RefreshState::AwaitGpus { ue_versions: d@.len() as usize })
                        &&& r.1 is DetectGpus
                        &&& exists|existing: Seq<UeInstall>, rows: Seq<UeInstall>|
                            #[trigger] installs_refreshed(rows, machine_id, existing, d@)
                                && existing.map_values(|x: UeInstall| x@) == old(db).install_rows().filter(
                                install_of(machine_id),
                            ) && final(db).install_rows() == old(db).install_rows().filter(
                                install_not_of(machine_id),
                            ) + rows.map_values(|x: UeInstall| x@)
                    },
                    Err(e) => {
                        &&& final(db).install_rows() == old(db).install_rows()
                        &&& r.0 == RefreshState::Failed && r.1 == RefreshAction::Fail(e)
                    },
                }
            },
            (RefreshState::AwaitGpus { ue_versions }, RefreshEvent::Gpus(res)) => {
                &&& final(db).machine_rows() == old(db).machine_rows()
                &&& final(db).install_rows() == old(db).install_rows()
                &&& match res {
                    Ok(g) => {
                        &&& final(db).gpu_rows() == old(db).gpu_rows().filter(gpu_not_of(machine_id))
                            + g@.map_values(|x: GpuInfo| stored_gpu(x@, machine_id))
                        &&& r.0 == RefreshState::Finished
                        &&& r.1 == (RefreshAction::Done { gpus: g@.len() as usize, ue_versions })
                    },
                    Err(e) => {
                        &&& final(db).gpu_rows() == old(db).gpu_rows()
                        &&& r.0 == RefreshState::Failed && r.1 == RefreshAction::Fail(e)
                    },
                }
            },
            _ => {
                &&& final(db).machine_rows() == old(db).machine_rows()
                &&& final(db).install_rows() == old(db).install_rows()
                &&& final(db).gpu_rows() == old(db).gpu_rows()
                &&& r.0 == state && r.1 is Ignore
            },
        },
{
    match (state, event) {
        (RefreshState::AwaitProbe, RefreshEvent::Probe(p)) => match record_probe(db, machine_id, p) {
            Ok(()) => (RefreshState::AwaitInstalls, RefreshAction::DetectInstalls),
            Err(e) => (RefreshState::Failed, RefreshAction::Fail(e)),
        },
        (RefreshState::AwaitInstalls, RefreshEvent::Installs(res)) => match res {
            Ok(d) => {
                let existing = db.installs_for(machine_id);
                let rows = refreshed_installs(machine_id, &existing, &d);
                let ghost rows_s = rows@;
                db.replace_installs(machine_id, rows);
                assert(installs_refreshed(rows_s, machine_id, existing@, d@));
                (RefreshState::AwaitGpus { ue_versions: d.len() }, RefreshAction::DetectGpus)
            },
            Err(e) => (RefreshState::Failed, RefreshAction::Fail(e)),
        },
        (RefreshState::AwaitGpus { ue_versions }, RefreshEvent::Gpus(res)) => match res {
            Ok(g) => {
                let n = g.len();
                let rows = gpus_of_machine(machine_id, &g);
                db.replace_gpus(machine_id, rows);
                (RefreshState::Finished, RefreshAction::Done { gpus: n, ue_versions })
            },
            Err(e) => (RefreshState::Failed, RefreshAction::Fail(e)),
        },
        (s, _) => (s, RefreshAction::Ignore),
    }
}

} // verus!
