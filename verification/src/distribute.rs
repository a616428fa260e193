//! Distribution of a generated DDC pak from a source machine to targets:
//! checking the source, planning the targets, the reachability preflight of
//! every target before any copy, and the job's id and final status.

use vstd::prelude::*;
use crate::error::UecmError;
use crate::store::{location_slot, machine_by_id, Db, ProjectLocation};
use crate::text::{int_text, join2, string_from_chars, with_number};

verus! {

/// One planned copy, to the given target machine.
#[derive(Debug, Clone)]
pub struct DistributionTarget {
    pub target_machine_id: i64,
}

/// What starting a distribution returns.
#[derive(Debug)]
pub struct DistributeJobResponse {
    pub job_id: String,
    pub project_id: i64,
    pub source_machine_id: i64,
    pub plan: Vec<DistributionTarget>,
}

/// The source of a distribution: a known machine on which the project's
/// location is recorded. Returns the machine's IP and that location.
pub fn distribution_source(db: &Db, source_machine_id: i64, project_id: i64) -> (r: Result<
    (String, ProjectLocation),
    UecmError,
>)
    ensures
        match machine_by_id(db.machine_rows(), source_machine_id) {
            None => r matches Err(e) && e matches UecmError::InvalidInput(m) && m@ == "machine "@
                + int_text(source_machine_id as int) + " not found"@,
            Some(mch) => match location_slot(db.location_rows(), project_id, source_machine_id, 0) {
                None => r matches Err(e) && e matches UecmError::InvalidInput(m) && m@ == "project "@
                    + int_text(project_id as int) + " not located on machine "@ + int_text(
                    source_machine_id as int,
                ),
                Some(k) => r matches Ok((ip, loc)) && ip@ == mch.ip && loc@ == db.location_rows()[k],
            },
        },
{
    let m = match db.find_machine(source_machine_id) {
        Some(m) => m,
        None => {
            return Err(UecmError::InvalidInput(with_number("machine ", source_machine_id, " not found")));
        },
    };
    match db.location_for(project_id, source_machine_id) {
        Some(l) => Ok((m.ip, l)),
        None => {
            let head = with_number("project ", project_id, " not located on machine ");
            let tail = with_number("", source_machine_id, "");
            proof {
                reveal_strlit("");
            }
            assert(tail@ =~= int_text(source_machine_id as int));
            Err(UecmError::InvalidInput(join2(&head, &tail)))
        },
    }
}

/// The targets other than the source, in the order given.
pub open spec fn non_source(source: i64, targets: Seq<i64>) -> Seq<i64> {
    targets.filter(other_than(source))
}

/// Whether a target is not the given source.
pub open spec fn other_than(source: i64) -> spec_fn(i64) -> bool {
    |t: i64| t != source
}

/// The planned copies: every target but the source itself. A plan with
/// nothing to copy to is invalid input.
pub fn distribution_plan(source_machine_id: i64, targets: &Vec<i64>) -> (r: Result<
    Vec<DistributionTarget>,
    UecmError,
>)
    ensures
        non_source(source_machine_id, targets@).len() == 0 ==> (r matches Err(e)
            && e matches UecmError::InvalidInput(m) && m@
            == "distribution plan has no non-source targets"@),
        non_source(source_machine_id, targets@).len() > 0 ==> (r matches Ok(plan) && plan@.map_values(
            |p: DistributionTarget| p.target_machine_id,
        ) == non_source(source_machine_id, targets@)),
{
    let ghost pred = other_than(source_machine_id);
    let mut plan: Vec<DistributionTarget> = Vec::new();
    let mut i: usize = 0;
    assert(targets@.take(0).filter(pred) =~= Seq::<i64>::empty()) by {
        reveal(Seq::filter);
    }
    while i < targets.len()
        invariant
            i <= targets@.len(),
            pred == other_than(source_machine_id),
            plan@.map_values(|p: DistributionTarget| p.target_machine_id) =~= targets@.take(
                i as int,
            ).filter(pred),
        decreases targets@.len() - i,
    {
        let t = targets[i];
        assert(targets@.take(i + 1) =~= targets@.take(i as int).push(t));
        proof {
            targets@.take(i as int).lemma_filter_push(t, pred);
        }
        if t != source_machine_id {
            let ghost before = plan@.map_values(|p: DistributionTarget| p.target_machine_id);
            plan.push(DistributionTarget { target_machine_id: t });
            assert(plan@.map_values(|p: DistributionTarget| p.target_machine_id) =~= before.push(t));
        }
        i = i + 1;
    }
    assert(targets@.take(i as int) =~= targets@);
    assert(plan@.map_values(|p: DistributionTarget| p.target_machine_id).len() == plan@.len());
    if plan.len() == 0 {
        return Err(UecmError::InvalidInput(String::from_str("distribution plan has no non-source targets")));
    }
    Ok(plan)
}

/// The first planned target whose preflight failed, with its message.
pub open spec fn first_unreachable(ids: Seq<i64>, preflight: Seq<Result<(), String>>, i: int) -> Option<
    (i64, Seq<char>),
>
    decreases ids.len() - i,
{
    if i < 0 || i >= ids.len() {
        None
    } else {
        match preflight[i] {
            Err(m) => Some((ids[i], m@)),
            Ok(_) => first_unreachable(ids, preflight, i + 1),
        }
    }
}

/// No copy starts unless every target can reach the source share: the
/// first target whose preflight failed fails the distribution.
pub fn check_preflights(plan: &Vec<DistributionTarget>, preflight: &Vec<Result<(), String>>) -> (r: Result<
    (),
    UecmError,
>)
    requires
        plan@.len() == preflight@.len(),
    ensures
        match first_unreachable(
            plan@.map_values(|p: DistributionTarget| p.target_machine_id),
            preflight@,
            0,
        ) {
            None => r is Ok,
            Some((t, m)) => r matches Err(e) && e matches UecmError::OperationFailed(msg) && msg@
                == "target "@ + int_text(t as int) + " cannot reach source UNC: "@ + m,
        },
{
    let ghost ids = plan@.map_values(|p: DistributionTarget| p.target_machine_id);
    let mut i: usize = 0;
    while i < plan.len()
        invariant
            ids == plan@.map_values(|p: DistributionTarget| p.target_machine_id),
            plan@.len() == preflight@.len(),
            i <= plan@.len(),
            first_unreachable(ids, preflight@, 0) == first_unreachable(ids, preflight@, i as int),
        decreases plan@.len() - i,
    {
        if let Err(m) = &preflight[i] {
            let head = with_number("target ", plan[i].target_machine_id, " cannot reach source UNC: ");
            return Err(UecmError::OperationFailed(join2(&head, m)));
        }
        i = i + 1;
    }
    Ok(())
}

/// The id of a distribution job from its source and its start time in
/// milliseconds.
pub fn distribution_job_id(source_machine_id: i64, started_ms: u64) -> (r: String)
    ensures
        r@ == "ddc-pak-dist-"@ + int_text(source_machine_id as int) + "-"@ + int_text(started_ms as int),
{
    let head = with_number("ddc-pak-dist-", source_machine_id, "-");
    let tail = string_from_chars(&crate::text::decimal_exec(started_ms));
    assert(tail@ =~= int_text(started_ms as int));
    join2(&head, &tail)
}

/// How a finished distribution is recorded: `err` when any copy failed.
pub fn distribution_status(had_error: bool) -> (r: &'static str)
    ensures
        r@ == (if had_error {
            "err"@
        } else {
            "ok"@
        }),
{
    if had_error {
        "err"
    } else {
        "ok"
    }
}

} // verus!
