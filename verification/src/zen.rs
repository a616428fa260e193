//! Zen endpoint inventory, status, baselines and the reports of the probe,
//! cache-stats and detect-binary commands.

use vstd::prelude::*;
use crate::error::UecmError;
use crate::machine::{destructive_check, destructive_msg, Outcome};
use crate::store::{
    baseline_by_key, endpoint_by_id, endpoint_slot, endpoints_of, latest_probes, machine_by_id,
    opt_view, set_lock, BaselineV, Db, MachineV, ZenBinaryExpected, ZenEndpoint, ZenEndpointV, ZenProbeV,
};
use crate::text::{concat3, int_text, ratio_text, str_is, with_count, with_number};

verus! {

pub const KIND_ZEN_CLI: &'static str = "zen_cli";

pub const KIND_ZENSERVER: &'static str = "zenserver";

/// Seconds a probe or a stats fetch may take when no timeout is given.
pub const DEFAULT_TIMEOUT_SECONDS: u64 = 5;

// ---------------------------------------------------------------------------
// binary kinds
// ---------------------------------------------------------------------------

pub open spec fn is_binary_kind(kind: Seq<char>) -> bool {
    kind == "zen_cli"@ || kind == "zenserver"@
}

pub open spec fn bad_kind_msg(kind: Seq<char>) -> Seq<char> {
    "invalid binary kind '"@ + kind + "'; expected 'zen_cli' or 'zenserver'"@
}

/// Accepts `zen_cli` and `zenserver`; anything else is invalid input.
pub fn validate_kind(kind: &str) -> (r: Result<(), UecmError>)
    ensures
        r is Ok <==> is_binary_kind(kind@),
        r matches Err(e) ==> e matches UecmError::InvalidInput(m) && m@ == bad_kind_msg(kind@),
{
    let k = String::from_str(kind);
    if str_is(&k, KIND_ZEN_CLI) || str_is(&k, KIND_ZENSERVER) {
        Ok(())
    } else {
        Err(
            UecmError::InvalidInput(
                concat3("invalid binary kind '", kind, "'; expected 'zen_cli' or 'zenserver'"),
            ),
        )
    }
}

// ---------------------------------------------------------------------------
// endpoint selection
// ---------------------------------------------------------------------------

/// The endpoints a zen command works on: the one named by `endpoint_id`, else
/// those of machine `machine_id`, else all of them. An unknown endpoint or
/// machine is invalid input (the message is the `Err` payload).
pub open spec fn endpoints_spec(
    machines: Seq<MachineV>,
    eps: Seq<ZenEndpointV>,
    machine_id: Option<i64>,
    endpoint_id: Option<i64>,
) -> Result<Seq<ZenEndpointV>, Seq<char>> {
    match endpoint_id {
        Some(id) => match endpoint_by_id(eps, id) {
            Some(ep) => Ok(seq![ep]),
            None => Err("endpoint id="@ + int_text(id as int) + " not found"@),
        },
        None => match machine_id {
            Some(mid) => if machine_by_id(machines, mid) is None {
                Err("machine id="@ + int_text(mid as int) + " not found"@)
            } else {
                Ok(endpoints_of(eps, mid))
            },
            None => Ok(eps),
        },
    }
}

pub open spec fn endpoints_view(v: Seq<ZenEndpoint>) -> Seq<ZenEndpointV> {
    v.map_values(|e: ZenEndpoint| e@)
}

/// Selects endpoints as `endpoints_spec` says.
pub fn resolve_endpoints(db: &Db, machine_id: Option<i64>, endpoint_id: Option<i64>) -> (r: Result<
    Vec<ZenEndpoint>,
    UecmError,
>)
    ensures
        match endpoints_spec(db.machine_rows(), db.endpoint_rows(), machine_id, endpoint_id) {
            Ok(eps) => r matches Ok(v) && endpoints_view(v@) == eps,
            Err(m) => r matches Err(e) && e matches UecmError::InvalidInput(m2) && m2@ == m,
        },
{
    if let Some(id) = endpoint_id {
        return match db.get_endpoint(id) {
            Some(ep) => {
                let ghost e = ep@;
                let v = vec![ep];
                assert(endpoints_view(v@) =~= seq![e]);
                Ok(v)
            },
            None => Err(UecmError::InvalidInput(with_number("endpoint id=", id, " not found"))),
        };
    }
    if let Some(mid) = machine_id {
        if db.find_machine(mid).is_none() {
            return Err(UecmError::InvalidInput(with_number("machine id=", mid, " not found")));
        }
        return Ok(db.list_endpoints_for_machine(mid));
    }
    Ok(db.list_endpoints())
}

/// The address to reach a machine at: its IP, if the machine is known.
pub fn resolve_host(db: &Db, machine_id: i64) -> (r: Result<Option<String>, UecmError>)
    ensures
        r matches Ok(h) && opt_view(h) == match machine_by_id(db.machine_rows(), machine_id) {
            Some(m) => Some(m.ip),
            None => None,
        },
{
    match db.find_machine(machine_id) {
        Some(m) => Ok(Some(m.ip)),
        None => Ok(None),
    }
}

/// The endpoints registered for one machine, or all of them.
pub fn zen_list_endpoints(db: &Db, machine_id: Option<i64>) -> (r: Vec<ZenEndpoint>)
    ensures
        endpoints_view(r@) == match machine_id {
            Some(id) => endpoints_of(db.endpoint_rows(), id),
            None => db.endpoint_rows(),
        },
{
    match machine_id {
        Some(id) => db.list_endpoints_for_machine(id),
        None => db.list_endpoints(),
    }
}

// ---------------------------------------------------------------------------
// register
// ---------------------------------------------------------------------------

/// The lifecycle an endpoint gets when none is given: a cluster's shared
/// upstream runs as an installed service, any other endpoint is owned by the
/// editor that starts it.
pub open spec fn default_lifecycle(role: Seq<char>) -> Seq<char> {
    if role == "shared_upstream"@ {
        "installed_service"@
    } else {
        "editor_owned"@
    }
}

/// The row `zen register` writes (its id is filled in by the inventory).
pub open spec fn register_row(
    machine: i64,
    declared_port: i64,
    scheme: Seq<char>,
    role: Seq<char>,
    upstream_endpoint_id: Option<i64>,
    data_dir: Seq<char>,
    httpserverclass: Seq<char>,
    lifecycle: Option<Seq<char>>,
) -> ZenEndpointV {
    ZenEndpointV {
        id: None,
        machine_id: machine,
        declared_port,
        scheme,
        role,
        upstream_endpoint_id,
        data_dir,
        httpserverclass,
        lifecycle_mode: match lifecycle {
            Some(l) => l,
            None => default_lifecycle(role),
        },
        created_at: None,
        updated_at: None,
    }
}

/// Registers a zen endpoint on a known machine, idempotently on the pair
/// (machine, port): a second registration on the same pair updates the row
/// and keeps its id. An unknown machine is invalid input and changes nothing.
pub fn zen_register(
    db: &mut Db,
    machine: i64,
    declared_port: i64,
    scheme: String,
    role: String,
    upstream_endpoint_id: Option<i64>,
    data_dir: String,
    httpserverclass: String,
    lifecycle: Option<String>,
) -> (r: Result<i64, UecmError>)
    requires
        old(db).wf(),
    ensures
        final(db).wf(),
        final(db).machine_rows() == old(db).machine_rows(),
        final(db).baseline_rows() == old(db).baseline_rows(),
        final(db).probe_rows() == old(db).probe_rows(),
        final(db).credential_rows() == old(db).credential_rows(),
        r is Err ==> final(db).endpoint_rows() == old(db).endpoint_rows(),
        machine_by_id(old(db).machine_rows(), machine) is None ==> (r matches Err(e) && e matches UecmError::InvalidInput(m)
            && m@ == "machine id="@ + int_text(machine as int) + " not found"@),
        machine_by_id(old(db).machine_rows(), machine) is Some ==> {
            let row = register_row(
                machine,
                declared_port,
                scheme@,
                role@,
                upstream_endpoint_id,
                data_dir@,
                httpserverclass@,
                opt_view(lifecycle),
            );
            match endpoint_slot(old(db).endpoint_rows(), machine, declared_port, 0) {
                Some(k) => old(db).endpoint_rows()[k].id matches Some(id) && r == Ok::<i64, UecmError>(id)
                    && final(db).endpoint_rows() == old(db).endpoint_rows().update(
                    k,
                    ZenEndpointV { id: Some(id), ..row },
                ),
                None => old(db).next_endpoint() < i64::MAX ==> (r == Ok::<i64, UecmError>(
                    old(db).next_endpoint(),
                ) && final(db).endpoint_rows() == old(db).endpoint_rows().push(
                    ZenEndpointV { id: Some(old(db).next_endpoint()), ..row },
                )),
            }
        },
{
    if db.find_machine(machine).is_none() {
        return Err(UecmError::InvalidInput(with_number("machine id=", machine, " not found")));
    }
    let lifecycle_mode = match lifecycle {
        Some(l) => l,
        None => if str_is(&role, "shared_upstream") {
            String::from_str("installed_service")
        } else {
            String::from_str("editor_owned")
        },
    };
    let ep = ZenEndpoint {
        id: None,
        machine_id: machine,
        declared_port,
        scheme,
        role,
        upstream_endpoint_id,
        data_dir,
        httpserverclass,
        lifecycle_mode,
        created_at: None,
        updated_at: None,
    };
    db.upsert_endpoint(&ep)
}

proof fn lemma_slot_push(rows: Seq<ZenEndpointV>, row: ZenEndpointV, mid: i64, port: i64, k: int)
    requires
        0 <= k <= rows.len(),
    ensures
        endpoint_slot(rows.push(row), mid, port, k) == match endpoint_slot(rows, mid, port, k) {
            Some(i) => Some(i),
            None => if row.machine_id == mid && row.declared_port == port {
                Some(rows.len() as int)
            } else {
                None
            },
        },
    decreases rows.len() - k,
{
    reveal_with_fuel(endpoint_slot, 2);
    if k < rows.len() {
        assert(rows.push(row)[k] == rows[k]);
        lemma_slot_push(rows, row, mid, port, k + 1);
    } else {
        assert(rows.push(row)[k] == row);
    }
}

/// Registration is idempotent on (machine, port): the row a first
/// registration appends is the one the same machine and port find
/// afterwards, so registering them again updates that row and keeps its id
/// (see `zen_register`).
pub proof fn lemma_register_twice(rows: Seq<ZenEndpointV>, row: ZenEndpointV)
    requires
        endpoint_slot(rows, row.machine_id, row.declared_port, 0) is None,
    ensures
        endpoint_slot(rows.push(row), row.machine_id, row.declared_port, 0) == Some(rows.len() as int),
{
    lemma_slot_push(rows, row, row.machine_id, row.declared_port, 0);
}

// ---------------------------------------------------------------------------
// status
// ---------------------------------------------------------------------------

/// One row of the zen status view: an endpoint with its latest probe.
/// `reachable == None` means the endpoint was never probed.
#[derive(Debug, Clone)]
pub struct ZenStatusRow {
    pub endpoint_id: i64,
    pub machine_id: i64,
    pub hostname: String,
    pub ip: String,
    pub declared_port: i64,
    pub scheme: String,
    pub role: String,
    pub lifecycle_mode: String,
    pub effective_port: Option<i64>,
    pub build_version: Option<String>,
    pub reachable: Option<bool>,
    pub last_probed_at: Option<String>,
    pub last_error: Option<String>,
}

/// Whether `row` shows endpoint `ep` with the machine and probe rows given:
/// hostname and IP of its machine (empty when the machine is gone) and the
/// fields of its newest probe (all `None` when it has none).
pub open spec fn status_row_fits(
    row: ZenStatusRow,
    ep: ZenEndpointV,
    machines: Seq<MachineV>,
    probes: Seq<ZenProbeV>,
) -> bool {
    let eid = ep.id->Some_0;
    let latest = latest_probes(probes, eid, 1);
    &&& ep.id == Some(row.endpoint_id)
    &&& row.machine_id == ep.machine_id
    &&& row.declared_port == ep.declared_port
    &&& row.scheme@ == ep.scheme
    &&& row.role@ == ep.role
    &&& row.lifecycle_mode@ == ep.lifecycle_mode
    &&& match machine_by_id(machines, ep.machine_id) {
        Some(m) => row.hostname@ == m.hostname && row.ip@ == m.ip,
        None => row.hostname@ == Seq::<char>::empty() && row.ip@ == Seq::<char>::empty(),
    }
    &&& if latest.len() > 0 {
        let p = latest[0];
        &&& row.reachable == Some(p.reachable)
        &&& opt_view(row.last_probed_at) == p.probed_at
        &&& row.effective_port == p.effective_port
        &&& opt_view(row.build_version) == p.build_version
        &&& opt_view(row.last_error) == p.error_message
    } else {
        &&& row.reachable is None
        &&& row.last_probed_at is None
        &&& row.effective_port is None
        &&& row.build_version is None
        &&& row.last_error is None
    }
}

/// The status view of the selected endpoints (see `endpoints_spec`), one row
/// per endpoint, in order.
pub fn zen_status(db: &Db, machine_id: Option<i64>) -> (r: Result<Vec<ZenStatusRow>, UecmError>)
    requires
        db.wf(),
    ensures
        match endpoints_spec(db.machine_rows(), db.endpoint_rows(), machine_id, None) {
            Ok(eps) => r matches Ok(rows) && rows@.len() == eps.len() && forall|i: int|
                0 <= i < eps.len() ==> #[trigger] status_row_fits(
                    rows@[i],
                    eps[i],
                    db.machine_rows(),
                    db.probe_rows(),
                ),
            Err(m) => r matches Err(e) && e matches UecmError::InvalidInput(m2) && m2@ == m,
        },
{
    let endpoints = match resolve_endpoints(db, machine_id, None) {
        Ok(v) => v,
        Err(e) => return Err(e),
    };
    let ghost eps = endpoints_view(endpoints@);
    proof {
        db.lemma_endpoint_ids(machine_id);
    }
    let mut rows: Vec<ZenStatusRow> = Vec::new();
    let mut i: usize = 0;
    while i < endpoints.len()
        invariant
            eps == endpoints_view(endpoints@),
            forall|j: int| 0 <= j < eps.len() ==> (#[trigger] eps[j]).id is Some,
            i <= endpoints@.len(),
            rows@.len() == i,
            forall|j: int|
                0 <= j < i ==> #[trigger] status_row_fits(
                    rows@[j],
                    eps[j],
                    db.machine_rows(),
                    db.probe_rows(),
                ),
        decreases endpoints@.len() - i,
    {
        let ep = &endpoints[i];
        assert(eps[i as int] == ep@);
        let endpoint_id = match ep.id {
            Some(x) => x,
            None => 0,
        };
        let (hostname, ip) = match db.find_machine(ep.machine_id) {
            Some(m) => (m.hostname, m.ip),
            None => (String::new(), String::new()),
        };
        let recent = db.list_recent_probes(endpoint_id, 1);
        let row = if recent.len() > 0 {
            let p = &recent[0];
            ZenStatusRow {
                endpoint_id,
                machine_id: ep.machine_id,
                hostname,
                ip,
                declared_port: ep.declared_port,
                scheme: ep.scheme.clone(),
                role: ep.role.clone(),
                lifecycle_mode: ep.lifecycle_mode.clone(),
                effective_port: p.effective_port,
                build_version: crate::store::clone_opt(&p.build_version),
                reachable: Some(p.reachable),
                last_probed_at: crate::store::clone_opt(&p.probed_at),
                last_error: crate::store::clone_opt(&p.error_message),
            }
        } else {
            ZenStatusRow {
                endpoint_id,
                machine_id: ep.machine_id,
                hostname,
                ip,
                declared_port: ep.declared_port,
                scheme: ep.scheme.clone(),
                role: ep.role.clone(),
                lifecycle_mode: ep.lifecycle_mode.clone(),
                effective_port: None,
                build_version: None,
                reachable: None,
                last_probed_at: None,
                last_error: None,
            }
        };
        rows.push(row);
        i = i + 1;
    }
    Ok(rows)
}

// ---------------------------------------------------------------------------
// baselines
// ---------------------------------------------------------------------------

pub open spec fn baselines_view(v: Seq<ZenBinaryExpected>) -> Seq<BaselineV> {
    v.map_values(|b: ZenBinaryExpected| b@)
}

/// The baselines, kept only where they match the given build version and
/// binary kind.
pub open spec fn baseline_filter(
    rows: Seq<BaselineV>,
    version: Option<Seq<char>>,
    kind: Option<Seq<char>>,
) -> Seq<BaselineV> {
    rows.filter(
        |b: BaselineV|
            (version matches Some(v) ==> b.zen_build_version == v) && (kind matches Some(k)
                ==> b.binary_kind == k),
    )
}

/// Lists the baselines, filtered by build version and binary kind. A kind
/// other than `zen_cli` / `zenserver` is invalid input.
pub fn zen_baseline_list(
    db: &Db,
    zen_build_version: Option<String>,
    binary_kind: Option<String>,
) -> (r: Result<Vec<ZenBinaryExpected>, UecmError>)
    ensures
        match binary_kind {
            Some(k) if !is_binary_kind(k@) => r matches Err(e) && e matches UecmError::InvalidInput(
                m,
            ) && m@ == bad_kind_msg(k@),
            _ => r matches Ok(v) && baselines_view(v@) == baseline_filter(
                db.baseline_rows(),
                opt_view(zen_build_version),
                opt_view(binary_kind),
            ),
        },
{
    if let Some(k) = &binary_kind {
        if let Err(e) = validate_kind(k.as_str()) {
            return Err(e);
        }
    }
    let all = db.list_baselines();
    let ghost rows = db.baseline_rows();
    let ghost vv = opt_view(zen_build_version);
    let ghost kv = opt_view(binary_kind);
    let ghost pred = |b: BaselineV|
        (vv matches Some(v) ==> b.zen_build_version == v) && (kv matches Some(k) ==> b.binary_kind
            == k);
    let mut out: Vec<ZenBinaryExpected> = Vec::new();
    let mut i: usize = 0;
    assert(rows.take(0).filter(pred) =~= Seq::<BaselineV>::empty()) by {
        reveal(Seq::filter);
    }
    while i < all.len()
        invariant
            baselines_view(all@) == rows,
            vv == opt_view(zen_build_version),
            kv == opt_view(binary_kind),
            pred == (|b: BaselineV|
                (vv matches Some(v) ==> b.zen_build_version == v) && (kv matches Some(k)
                    ==> b.binary_kind == k)),
            i <= all@.len(),
            baselines_view(out@) =~= rows.take(i as int).filter(pred),
        decreases all@.len() - i,
    {
        let b = &all[i];
        assert(rows[i as int] == b@);
        assert(rows.take(i + 1) =~= rows.take(i as int).push(b@));
        proof {
            rows.take(i as int).lemma_filter_push(b@, pred);
        }
        let keep_v = match &zen_build_version {
            Some(v) => b.zen_build_version == *v,
            None => true,
        };
        let keep_k = match &binary_kind {
            Some(k) => b.binary_kind == *k,
            None => true,
        };
        if keep_v && keep_k {
            let ghost before = baselines_view(out@);
            out.push(b.copy());
            assert(baselines_view(out@) =~= before.push(b@));
        }
        i = i + 1;
    }
    assert(rows.take(i as int) =~= rows);
    Ok(out)
}

pub open spec fn no_baseline_msg(version: Seq<char>, kind: Seq<char>) -> Seq<char> {
    "no baseline row for zen_build_version="@ + version + " kind="@ + kind
}

fn no_baseline_error(version: &str, kind: &str, hint: &str) -> (r: UecmError)
    ensures
        r matches UecmError::InvalidInput(m) && m@ == no_baseline_msg(version@, kind@) + hint@,
{
    let head = concat3("no baseline row for zen_build_version=", version, " kind=");
    UecmError::InvalidInput(concat3(head.as_str(), kind, hint))
}

/// Sets the `locked_by` marker of an existing baseline. Fails with
/// `InvalidInput` on a bad kind or when the baseline does not exist.
pub fn zen_baseline_lock(db: &mut Db, zen_build_version: &str, binary_kind: &str, locked_by: &str) -> (r:
    Result<(), UecmError>)
    requires
        old(db).wf(),
    ensures
        final(db).wf(),
        r is Ok <==> is_binary_kind(binary_kind@) && baseline_by_key(
            old(db).baseline_rows(),
            zen_build_version@,
            binary_kind@,
        ) is Some,
        r is Ok ==> final(db).baseline_rows() == set_lock(
            old(db).baseline_rows(),
            zen_build_version@,
            binary_kind@,
            Some(locked_by@),
        ),
        r is Err ==> final(db).baseline_rows() == old(db).baseline_rows(),
        !is_binary_kind(binary_kind@) ==> (r matches Err(e) && e matches UecmError::InvalidInput(m)
            && m@ == bad_kind_msg(binary_kind@)),
        is_binary_kind(binary_kind@) && baseline_by_key(
            old(db).baseline_rows(),
            zen_build_version@,
            binary_kind@,
        ) is None ==> (r matches Err(e) && e matches UecmError::InvalidInput(m) && m@
            == no_baseline_msg(zen_build_version@, binary_kind@)
            + "; run detect-binary first"@),
        final(db).machine_rows() == old(db).machine_rows(),
        final(db).endpoint_rows() == old(db).endpoint_rows(),
        final(db).probe_rows() == old(db).probe_rows(),
        final(db).credential_rows() == old(db).credential_rows(),
{
    validate_kind(binary_kind)?;
    if db.find_baseline(zen_build_version, binary_kind).is_none() {
        return Err(no_baseline_error(zen_build_version, binary_kind, "; run detect-binary first"));
    }
    db.lock_baseline(zen_build_version, binary_kind, locked_by);
    Ok(())
}

/// Clears the `locked_by` marker of an existing baseline. Fails with
/// `InvalidInput` on a bad kind or when the baseline does not exist.
pub fn zen_baseline_unlock(db: &mut Db, zen_build_version: &str, binary_kind: &str) -> (r: Result<
    (),
    UecmError,
>)
    requires
        old(db).wf(),
    ensures
        final(db).wf(),
        r is Ok <==> is_binary_kind(binary_kind@) && baseline_by_key(
            old(db).baseline_rows(),
            zen_build_version@,
            binary_kind@,
        ) is Some,
        r is Ok ==> final(db).baseline_rows() == set_lock(
            old(db).baseline_rows(),
            zen_build_version@,
            binary_kind@,
            None,
        ),
        r is Err ==> final(db).baseline_rows() == old(db).baseline_rows(),
        !is_binary_kind(binary_kind@) ==> (r matches Err(e) && e matches UecmError::InvalidInput(m)
            && m@ == bad_kind_msg(binary_kind@)),
        is_binary_kind(binary_kind@) && baseline_by_key(
            old(db).baseline_rows(),
            zen_build_version@,
            binary_kind@,
        ) is None ==> (r matches Err(e) && e matches UecmError::InvalidInput(m) && m@
            == no_baseline_msg(zen_build_version@, binary_kind@)),
        final(db).machine_rows() == old(db).machine_rows(),
        final(db).endpoint_rows() == old(db).endpoint_rows(),
        final(db).probe_rows() == old(db).probe_rows(),
        final(db).credential_rows() == old(db).credential_rows(),
{
    validate_kind(binary_kind)?;
    if db.find_baseline(zen_build_version, binary_kind).is_none() {
        proof {
            reveal_strlit("");
            assert(no_baseline_msg(zen_build_version@, binary_kind@) + ""@ =~= no_baseline_msg(
                zen_build_version@,
                binary_kind@,
            ));
        }
        return Err(no_baseline_error(zen_build_version, binary_kind, ""));
    }
    db.unlock_baseline(zen_build_version, binary_kind);
    Ok(())
}

/// `zen baseline lock`: the kind is checked first, then the destructive
/// gate, then that the baseline exists; a dry run stops there and changes
/// nothing, `--yes` sets the marker.
pub fn baseline_lock(
    db: &mut Db,
    zen_build_version: &str,
    binary_kind: &str,
    locked_by: &str,
    yes: bool,
    dry_run: bool,
) -> (r: Result<Outcome, UecmError>)
    requires
        old(db).wf(),
    ensures
        final(db).wf(),
        !is_binary_kind(binary_kind@) ==> (r matches Err(e) && e matches UecmError::InvalidInput(m)
            && m@ == bad_kind_msg(binary_kind@)),
        is_binary_kind(binary_kind@) && !dry_run && !yes ==> (r matches Err(e)
            && e matches UecmError::InvalidInput(m) && m@ == destructive_msg("zen.baseline.lock"@)),
        is_binary_kind(binary_kind@) && (dry_run || yes) && baseline_by_key(
            old(db).baseline_rows(),
            zen_build_version@,
            binary_kind@,
        ) is None ==> (r matches Err(e) && e matches UecmError::InvalidInput(m) && m@
            == no_baseline_msg(zen_build_version@, binary_kind@) + "; run detect-binary first"@),
        is_binary_kind(binary_kind@) && (dry_run || yes) && baseline_by_key(
            old(db).baseline_rows(),
            zen_build_version@,
            binary_kind@,
        ) is Some ==> r == Ok::<Outcome, UecmError>(
            if dry_run {
                Outcome::DryRun
            } else {
                Outcome::Proceed
            },
        ),
        r == Ok::<Outcome, UecmError>(Outcome::Proceed) ==> final(db).baseline_rows() == set_lock(
            old(db).baseline_rows(),
            zen_build_version@,
            binary_kind@,
            Some(locked_by@),
        ),
        r != Ok::<Outcome, UecmError>(Outcome::Proceed) ==> final(db).baseline_rows() == old(
            db,
        ).baseline_rows(),
        final(db).machine_rows() == old(db).machine_rows(),
        final(db).endpoint_rows() == old(db).endpoint_rows(),
        final(db).probe_rows() == old(db).probe_rows(),
        final(db).credential_rows() == old(db).credential_rows(),
{
    validate_kind(binary_kind)?;
    let outcome = destructive_check(yes, dry_run, "zen.baseline.lock")?;
    if db.find_baseline(zen_build_version, binary_kind).is_none() {
        return Err(no_baseline_error(zen_build_version, binary_kind, "; run detect-binary first"));
    }
    match outcome {
        Outcome::DryRun => Ok(Outcome::DryRun),
        Outcome::Proceed => {
            db.lock_baseline(zen_build_version, binary_kind, locked_by);
            Ok(Outcome::Proceed)
        },
    }
}

/// `zen baseline unlock`: the same checks as `baseline_lock`; `--yes`
/// clears the marker.
pub fn baseline_unlock(db: &mut Db, zen_build_version: &str, binary_kind: &str, yes: bool, dry_run: bool) -> (r:
    Result<Outcome, UecmError>)
    requires
        old(db).wf(),
    ensures
        final(db).wf(),
        !is_binary_kind(binary_kind@) ==> (r matches Err(e) && e matches UecmError::InvalidInput(m)
            && m@ == bad_kind_msg(binary_kind@)),
        is_binary_kind(binary_kind@) && !dry_run && !yes ==> (r matches Err(e)
            && e matches UecmError::InvalidInput(m) && m@ == destructive_msg("zen.baseline.unlock"@)),
        is_binary_kind(binary_kind@) && (dry_run || yes) && baseline_by_key(
            old(db).baseline_rows(),
            zen_build_version@,
            binary_kind@,
        ) is None ==> (r matches Err(e) && e matches UecmError::InvalidInput(m) && m@
            == no_baseline_msg(zen_build_version@, binary_kind@)),
        is_binary_kind(binary_kind@) && (dry_run || yes) && baseline_by_key(
            old(db).baseline_rows(),
            zen_build_version@,
            binary_kind@,
        ) is Some ==> r == Ok::<Outcome, UecmError>(
            if dry_run {
                Outcome::DryRun
            } else {
                Outcome::Proceed
            },
        ),
        r == Ok::<Outcome, UecmError>(Outcome::Proceed) ==> final(db).baseline_rows() == set_lock(
            old(db).baseline_rows(),
            zen_build_version@,
            binary_kind@,
            None,
        ),
        r != Ok::<Outcome, UecmError>(Outcome::Proceed) ==> final(db).baseline_rows() == old(
            db,
        ).baseline_rows(),
        final(db).machine_rows() == old(db).machine_rows(),
        final(db).endpoint_rows() == old(db).endpoint_rows(),
        final(db).probe_rows() == old(db).probe_rows(),
        final(db).credential_rows() == old(db).credential_rows(),
{
    validate_kind(binary_kind)?;
    let outcome = destructive_check(yes, dry_run, "zen.baseline.unlock")?;
    if db.find_baseline(zen_build_version, binary_kind).is_none() {
        proof {
            reveal_strlit("");
            assert(no_baseline_msg(zen_build_version@, binary_kind@) + ""@ =~= no_baseline_msg(
                zen_build_version@,
                binary_kind@,
            ));
        }
        return Err(no_baseline_error(zen_build_version, binary_kind, ""));
    }
    match outcome {
        Outcome::DryRun => Ok(Outcome::DryRun),
        Outcome::Proceed => {
            db.unlock_baseline(zen_build_version, binary_kind);
            Ok(Outcome::Proceed)
        },
    }
}

// ---------------------------------------------------------------------------
// probe / cache-stats / detect-binary reports
// ---------------------------------------------------------------------------

/// The result of probing one endpoint.
#[derive(Debug, Clone)]
pub struct ZenProbeRecord {
    pub endpoint_id: i64,
    pub machine_id: i64,
    pub host: String,
    pub reachable: bool,
    pub effective_port: Option<i64>,
    pub build_version: Option<String>,
    pub error_message: Option<String>,
    pub probe_id: Option<i64>,
}

#[derive(Debug, Clone)]
pub struct ZenProbeReport {
    pub probed: usize,
    pub reachable: usize,
    pub unreachable: usize,
    pub probes: Vec<ZenProbeRecord>,
}

/// How many probe records are reachable.
pub open spec fn count_reachable(s: Seq<ZenProbeRecord>) -> nat
    decreases s.len(),
{
    if s.len() == 0 {
        0
    } else {
        count_reachable(s.drop_last()) + if s.last().reachable {
            1nat
        } else {
            0nat
        }
    }
}

/// The record of an endpoint whose machine is gone: unreachable, nothing
/// probed, nothing stored.
pub fn missing_machine_probe(endpoint_id: i64, machine_id: i64) -> (r: ZenProbeRecord)
    ensures
        r.endpoint_id == endpoint_id,
        r.machine_id == machine_id,
        r.host@ == Seq::<char>::empty(),
        !r.reachable,
        r.effective_port is None,
        r.build_version is None,
        opt_view(r.error_message) == Some(
            "machine id="@ + int_text(machine_id as int) + " not found; cannot resolve host"@,
        ),
        r.probe_id is None,
{
    ZenProbeRecord {
        endpoint_id,
        machine_id,
        host: String::new(),
        reachable: false,
        effective_port: None,
        build_version: None,
        error_message: Some(with_number("machine id=", machine_id, " not found; cannot resolve host")),
        probe_id: None,
    }
}

/// Sums up probe records: how many were probed, reached and not reached.
pub fn probe_report(probes: Vec<ZenProbeRecord>) -> (r: ZenProbeReport)
    ensures
        r.probes@ == probes@,
        r.probed == probes@.len(),
        r.reachable == count_reachable(probes@),
        r.unreachable == probes@.len() - count_reachable(probes@),
{
    let mut reachable: usize = 0;
    let mut i: usize = 0;
    while i < probes.len()
        invariant
            i <= probes@.len(),
            reachable == count_reachable(probes@.take(i as int)),
            reachable <= i,
        decreases probes@.len() - i,
    {
        assert(probes@.take(i + 1).drop_last() =~= probes@.take(i as int));
        if probes[i].reachable {
            reachable = reachable + 1;
        }
        i = i + 1;
    }
    assert(probes@.take(i as int) =~= probes@);
    let n = probes.len();
    ZenProbeReport { probed: n, reachable, unreachable: n - reachable, probes }
}

/// How a probe run ends: some endpoints unreachable and some reached, or
/// none reached at all, is an operation failure (exit 1); otherwise success.
pub fn probe_outcome(reachable: usize, unreachable: usize, total: usize) -> (r: Result<(), UecmError>)
    requires
        reachable + unreachable == total,
    ensures
        unreachable > 0 && reachable > 0 ==> (r matches Err(e) && e matches UecmError::OperationFailed(
            m,
        ) && m@ == int_text(unreachable as int) + "/"@ + int_text(total as int)
            + " endpoints unreachable"@),
        !(unreachable > 0 && reachable > 0) && unreachable == total && total > 0 ==> (r matches Err(
            e,
        ) && e matches UecmError::OperationFailed(m) && m@ == "all "@ + int_text(total as int)
            + " endpoints unreachable"@),
        r is Ok <==> !(unreachable > 0 && reachable > 0) && !(unreachable == total && total > 0),
{
    if unreachable > 0 && reachable > 0 {
        return Err(UecmError::OperationFailed(ratio_text(unreachable, total, " endpoints unreachable")));
    }
    if unreachable == total && total > 0 {
        return Err(UecmError::OperationFailed(with_count("all ", total, " endpoints unreachable")));
    }
    Ok(())
}

/// The stats fetched from one endpoint.
#[derive(Debug, Clone)]
pub struct ZenCacheStatsRecord {
    pub endpoint_id: i64,
    pub machine_id: i64,
    pub host: String,
    pub providers: Vec<String>,
    pub records: usize,
    pub error_message: Option<String>,
}

#[derive(Debug, Clone)]
pub struct ZenCacheStatsReport {
    pub endpoints: usize,
    pub rows_inserted: usize,
    pub partial_errors: usize,
    pub samples: Vec<ZenCacheStatsRecord>,
}

pub open spec fn count_errors(s: Seq<ZenCacheStatsRecord>) -> nat
    decreases s.len(),
{
    if s.len() == 0 {
        0
    } else {
        count_errors(s.drop_last()) + if s.last().error_message is Some {
            1nat
        } else {
            0nat
        }
    }
}

pub open spec fn sum_records(s: Seq<ZenCacheStatsRecord>) -> nat
    decreases s.len(),
{
    if s.len() == 0 {
        0
    } else {
        sum_records(s.drop_last()) + s.last().records as nat
    }
}

/// The record of an endpoint whose machine is gone.
pub fn missing_machine_stats(endpoint_id: i64, machine_id: i64) -> (r: ZenCacheStatsRecord)
    ensures
        r.endpoint_id == endpoint_id,
        r.machine_id == machine_id,
        r.host@ == Seq::<char>::empty(),
        r.providers@.len() == 0,
        r.records == 0,
        opt_view(r.error_message) == Some(
            "machine id="@ + int_text(machine_id as int) + " not found"@,
        ),
{
    ZenCacheStatsRecord {
        endpoint_id,
        machine_id,
        host: String::new(),
        providers: Vec::new(),
        records: 0,
        error_message: Some(with_number("machine id=", machine_id, " not found")),
    }
}

/// Sums up cache-stats records: rows stored and endpoints with an error.
/// Fails (nothing returned) only if the row total overflows.
pub fn cache_stats_report(samples: Vec<ZenCacheStatsRecord>) -> (r: Option<ZenCacheStatsReport>)
    ensures
        sum_records(samples@) <= usize::MAX ==> (r matches Some(rep) && rep.samples@ == samples@
            && rep.endpoints == samples@.len() && rep.rows_inserted == sum_records(samples@)
            && rep.partial_errors == count_errors(samples@)),
        sum_records(samples@) > usize::MAX ==> r is None,
{
    let mut rows: usize = 0;
    let mut errors: usize = 0;
    let mut i: usize = 0;
    while i < samples.len()
        invariant
            i <= samples@.len(),
            rows == sum_records(samples@.take(i as int)),
            errors == count_errors(samples@.take(i as int)),
            errors <= i,
        decreases samples@.len() - i,
    {
        assert(samples@.take(i + 1).drop_last() =~= samples@.take(i as int));
        if samples[i].records > usize::MAX - rows {
            proof {
                lemma_sum_records_grows(samples@, (i + 1) as int);
            }
            return None;
        }
        rows = rows + samples[i].records;
        if samples[i].error_message.is_some() {
            errors = errors + 1;
        }
        i = i + 1;
    }
    assert(samples@.take(i as int) =~= samples@);
    let n = samples.len();
    Some(ZenCacheStatsReport { endpoints: n, rows_inserted: rows, partial_errors: errors, samples })
}

proof fn lemma_sum_records_grows(s: Seq<ZenCacheStatsRecord>, k: int)
    requires
        0 <= k <= s.len(),
    ensures
        sum_records(s.take(k)) <= sum_records(s),
    decreases s.len(),
{
    if k < s.len() {
        assert(s.drop_last().take(k) =~= s.take(k));
        lemma_sum_records_grows(s.drop_last(), k);
    } else {
        assert(s.take(k) =~= s);
    }
}

/// How a cache-stats run ends: every endpoint failing, or some failing,
/// is an operation failure; otherwise success.
pub fn cache_stats_outcome(partial_errors: usize, total: usize) -> (r: Result<(), UecmError>)
    ensures
        total > 0 && partial_errors == total ==> (r matches Err(e) && e matches UecmError::OperationFailed(
            m,
        ) && m@ == "all "@ + int_text(total as int)
            + " endpoint(s) failed to fetch cache stats; no rows inserted"@),
        !(total > 0 && partial_errors == total) && partial_errors > 0 && partial_errors < total
            ==> (r matches Err(e) && e matches UecmError::OperationFailed(m) && m@ == int_text(
            partial_errors as int,
        ) + "/"@ + int_text(total as int) + " endpoints had errors fetching cache stats"@),
        r is Ok <==> !(total > 0 && partial_errors == total) && !(partial_errors > 0
            && partial_errors < total),
{
    if total > 0 && partial_errors == total {
        return Err(
            UecmError::OperationFailed(
                with_count("all ", total, " endpoint(s) failed to fetch cache stats; no rows inserted"),
            ),
        );
    }
    if partial_errors > 0 && partial_errors < total {
        return Err(
            UecmError::OperationFailed(
                ratio_text(partial_errors, total, " endpoints had errors fetching cache stats"),
            ),
        );
    }
    Ok(())
}

/// What detect-binary found and stored for one machine.
#[derive(Debug, Clone)]
pub struct ZenDetectBinaryMachineResult {
    pub machine_id: i64,
    pub hostname: String,
    pub ip: String,
    pub ok: bool,
    pub install_record_written: bool,
    pub install_record_cleared: bool,
    pub intree_records_written: usize,
    pub baseline_new_rows: usize,
    pub intree_ref_rows: usize,
    pub warnings: Vec<String>,
    pub error_message: Option<String>,
}

#[derive(Debug, Clone)]
pub struct ZenDetectBinaryReport {
    pub machines: usize,
    pub ok: usize,
    pub failed: usize,
    pub results: Vec<ZenDetectBinaryMachineResult>,
}

pub open spec fn count_ok(s: Seq<ZenDetectBinaryMachineResult>) -> nat
    decreases s.len(),
{
    if s.len() == 0 {
        0
    } else {
        count_ok(s.drop_last()) + if s.last().ok {
            1nat
        } else {
            0nat
        }
    }
}

/// Sums up detect-binary results: machines that succeeded and failed.
pub fn detect_binary_report(results: Vec<ZenDetectBinaryMachineResult>) -> (r: ZenDetectBinaryReport)
    ensures
        r.results@ == results@,
        r.machines == results@.len(),
        r.ok == count_ok(results@),
        r.failed == results@.len() - count_ok(results@),
{
    let mut ok: usize = 0;
    let mut i: usize = 0;
    while i < results.len()
        invariant
            i <= results@.len(),
            ok == count_ok(results@.take(i as int)),
            ok <= i,
        decreases results@.len() - i,
    {
        assert(results@.take(i + 1).drop_last() =~= results@.take(i as int));
        if results[i].ok {
            ok = ok + 1;
        }
        i = i + 1;
    }
    assert(results@.take(i as int) =~= results@);
    let n = results.len();
    ZenDetectBinaryReport { machines: n, ok, failed: n - ok, results }
}

/// How a detect-binary run ends: a mix of successes and failures is an
/// operation failure; every machine failing is a PowerShell failure (exit 4).
pub fn detect_binary_outcome(ok: usize, failed: usize, total: usize) -> (r: Result<(), UecmError>)
    ensures
        failed > 0 && ok > 0 ==> (r matches Err(e) && e matches UecmError::OperationFailed(m) && m@
            == int_text(failed as int) + "/"@ + int_text(total as int)
            + " machines failed detect-binary"@),
        !(failed > 0 && ok > 0) && failed == total && total > 0 ==> (r matches Err(e)
            && e matches UecmError::PowerShell(m) && m@ == "all "@ + int_text(total as int)
            + " machines failed detect-binary"@),
        r is Ok <==> !(failed > 0 && ok > 0) && !(failed == total && total > 0),
{
    if failed > 0 && ok > 0 {
        return Err(UecmError::OperationFailed(ratio_text(failed, total, " machines failed detect-binary")));
    }
    if failed == total && total > 0 {
        return Err(UecmError::PowerShell(with_count("all ", total, " machines failed detect-binary")));
    }
    Ok(())
}

} // verus!
