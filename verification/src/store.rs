//! The inventory the commands read and write: machines, saved credential
//! metadata, zen endpoints, zen probe results and zen binary baselines.
//!
//! Every table is a list of rows; ids are handed out in increasing order and
//! never reused, and the uniqueness rules of the schema (one machine per IP,
//! one credential per alias, one endpoint per machine and port, one baseline
//! per build version and binary kind) hold of every reachable state.

use vstd::prelude::*;
use crate::ddc::{UeInstall, UeInstallV};
use crate::error::UecmError;
use crate::health::{CheckOutcome, CheckOutcomeV};
use crate::ini::{IniFinding, IniFindingV};
use crate::reports::{GpuInfo, GpuInfoV, ShareMode};

verus! {

// ---------------------------------------------------------------------------
// small helpers
// ---------------------------------------------------------------------------

pub open spec fn opt_view(o: Option<String>) -> Option<Seq<char>> {
    match o {
        Some(s) => Some(s@),
        None => None,
    }
}

/// A copy of an optional string.
pub fn clone_opt(o: &Option<String>) -> (r: Option<String>)
    ensures
        opt_view(r) == opt_view(*o),
{
    match o {
        Some(s) => Some(s.clone()),
        None => None,
    }
}

fn opt_eq(a: &Option<String>, b: &Option<String>) -> (r: bool)
    ensures
        r == (opt_view(*a) == opt_view(*b)),
{
    match (a, b) {
        (Some(x), Some(y)) => *x == *y,
        (None, None) => true,
        _ => false,
    }
}

// ---------------------------------------------------------------------------
// rows
// ---------------------------------------------------------------------------

/// A machine of the inventory.
#[derive(Debug)]
pub struct Machine {
    pub id: Option<i64>,
    pub hostname: String,
    pub ip: String,
    /// `online` / `offline` after a probe; `None` before the first one.
    pub status: Option<String>,
}

pub struct MachineV {
    pub id: Option<i64>,
    pub hostname: Seq<char>,
    pub ip: Seq<char>,
    pub status: Option<Seq<char>>,
}

impl View for Machine {
    type V = MachineV;

    open spec fn view(&self) -> MachineV {
        MachineV { id: self.id, hostname: self.hostname@, ip: self.ip@, status: opt_view(self.status) }
    }
}

impl Machine {
    /// A machine row not yet stored (no id, never probed).
    pub fn new(hostname: &str, ip: &str) -> (r: Machine)
        ensures
            r@ == (MachineV { id: None, hostname: hostname@, ip: ip@, status: None }),
    {
        Machine { id: None, hostname: String::from_str(hostname), ip: String::from_str(ip), status: None }
    }

    /// A field-by-field copy.
    pub fn copy(&self) -> (r: Machine)
        ensures
            r@ == self@,
    {
        Machine {
            id: self.id,
            hostname: self.hostname.clone(),
            ip: self.ip.clone(),
            status: clone_opt(&self.status),
        }
    }
}

/// The metadata of a saved credential (the secret itself lives elsewhere).
#[derive(Debug)]
pub struct CredentialRecord {
    pub alias: String,
    pub username: String,
    pub kind: String,
}

pub struct CredentialRecordV {
    pub alias: Seq<char>,
    pub username: Seq<char>,
    pub kind: Seq<char>,
}

impl View for CredentialRecord {
    type V = CredentialRecordV;

    open spec fn view(&self) -> CredentialRecordV {
        CredentialRecordV { alias: self.alias@, username: self.username@, kind: self.kind@ }
    }
}

impl CredentialRecord {
    /// A field-by-field copy.
    pub fn copy(&self) -> (r: CredentialRecord)
        ensures
            r@ == self@,
    {
        CredentialRecord {
            alias: self.alias.clone(),
            username: self.username.clone(),
            kind: self.kind.clone(),
        }
    }
}

/// A registered zen endpoint.
#[derive(Debug)]
pub struct ZenEndpoint {
    pub id: Option<i64>,
    pub machine_id: i64,
    pub declared_port: i64,
    pub scheme: String,
    pub role: String,
    pub upstream_endpoint_id: Option<i64>,
    pub data_dir: String,
    pub httpserverclass: String,
    pub lifecycle_mode: String,
    pub created_at: Option<String>,
    pub updated_at: Option<String>,
}

pub struct ZenEndpointV {
    pub id: Option<i64>,
    pub machine_id: i64,
    pub declared_port: i64,
    pub scheme: Seq<char>,
    pub role: Seq<char>,
    pub upstream_endpoint_id: Option<i64>,
    pub data_dir: Seq<char>,
    pub httpserverclass: Seq<char>,
    pub lifecycle_mode: Seq<char>,
    pub created_at: Option<Seq<char>>,
    pub updated_at: Option<Seq<char>>,
}

impl View for ZenEndpoint {
    type V = ZenEndpointV;

    open spec fn view(&self) -> ZenEndpointV {
        ZenEndpointV {
            id: self.id,
            machine_id: self.machine_id,
            declared_port: self.declared_port,
            scheme: self.scheme@,
            role: self.role@,
            upstream_endpoint_id: self.upstream_endpoint_id,
            data_dir: self.data_dir@,
            httpserverclass: self.httpserverclass@,
            lifecycle_mode: self.lifecycle_mode@,
            created_at: opt_view(self.created_at),
            updated_at: opt_view(self.updated_at),
        }
    }
}

impl ZenEndpoint {
    /// A field-by-field copy.
    pub fn copy(&self) -> (r: ZenEndpoint)
        ensures
            r@ == self@,
    {
        ZenEndpoint {
            id: self.id,
            machine_id: self.machine_id,
            declared_port: self.declared_port,
            scheme: self.scheme.clone(),
            role: self.role.clone(),
            upstream_endpoint_id: self.upstream_endpoint_id,
            data_dir: self.data_dir.clone(),
            httpserverclass: self.httpserverclass.clone(),
            lifecycle_mode: self.lifecycle_mode.clone(),
            created_at: clone_opt(&self.created_at),
            updated_at: clone_opt(&self.updated_at),
        }
    }
}

/// One probe of a zen endpoint.
#[derive(Debug)]
pub struct ZenProbe {
    pub id: Option<i64>,
    pub endpoint_id: i64,
    pub reachable: bool,
    pub effective_port: Option<i64>,
    pub build_version: Option<String>,
    pub error_message: Option<String>,
    pub probed_at: Option<String>,
}

pub struct ZenProbeV {
    pub id: Option<i64>,
    pub endpoint_id: i64,
    pub reachable: bool,
    pub effective_port: Option<i64>,
    pub build_version: Option<Seq<char>>,
    pub error_message: Option<Seq<char>>,
    pub probed_at: Option<Seq<char>>,
}

impl View for ZenProbe {
    type V = ZenProbeV;

    open spec fn view(&self) -> ZenProbeV {
        ZenProbeV {
            id: self.id,
            endpoint_id: self.endpoint_id,
            reachable: self.reachable,
            effective_port: self.effective_port,
            build_version: opt_view(self.build_version),
            error_message: opt_view(self.error_message),
            probed_at: opt_view(self.probed_at),
        }
    }
}

impl ZenProbe {
    /// A field-by-field copy.
    pub fn copy(&self) -> (r: ZenProbe)
        ensures
            r@ == self@,
    {
        ZenProbe {
            id: self.id,
            endpoint_id: self.endpoint_id,
            reachable: self.reachable,
            effective_port: self.effective_port,
            build_version: clone_opt(&self.build_version),
            error_message: clone_opt(&self.error_message),
            probed_at: clone_opt(&self.probed_at),
        }
    }
}

/// An expected zen binary (a baseline), keyed by build version and kind.
#[derive(Debug)]
pub struct ZenBinaryExpected {
    pub zen_build_version: String,
    pub binary_kind: String,
    pub sha256: String,
    /// Who locked the baseline, if anyone.
    pub locked_by: Option<String>,
    pub first_seen_at: Option<String>,
}

pub struct BaselineV {
    pub zen_build_version: Seq<char>,
    pub binary_kind: Seq<char>,
    pub sha256: Seq<char>,
    pub locked_by: Option<Seq<char>>,
    pub first_seen_at: Option<Seq<char>>,
}

impl View for ZenBinaryExpected {
    type V = BaselineV;

    open spec fn view(&self) -> BaselineV {
        BaselineV {
            zen_build_version: self.zen_build_version@,
            binary_kind: self.binary_kind@,
            sha256: self.sha256@,
            locked_by: opt_view(self.locked_by),
            first_seen_at: opt_view(self.first_seen_at),
        }
    }
}

impl ZenBinaryExpected {
    /// A field-by-field copy.
    pub fn copy(&self) -> (r: ZenBinaryExpected)
        ensures
            r@ == self@,
    {
        ZenBinaryExpected {
            zen_build_version: self.zen_build_version.clone(),
            binary_kind: self.binary_kind.clone(),
            sha256: self.sha256.clone(),
            locked_by: clone_opt(&self.locked_by),
            first_seen_at: clone_opt(&self.first_seen_at),
        }
    }
}

// ---------------------------------------------------------------------------
// lookups over row lists
// ---------------------------------------------------------------------------

/// The first machine row with the given id.
pub open spec fn machine_by_id(rows: Seq<MachineV>, id: i64) -> Option<MachineV>
    decreases rows.len(),
{
    if rows.len() == 0 {
        None
    } else if rows[0].id == Some(id) {
        Some(rows[0])
    } else {
        machine_by_id(rows.drop_first(), id)
    }
}

/// The index of the first machine row with the given id, from `k` on.
pub open spec fn machine_index(rows: Seq<MachineV>, id: i64, k: int) -> Option<int>
    decreases rows.len() - k,
{
    if k < 0 || k >= rows.len() {
        None
    } else if rows[k].id == Some(id) {
        Some(k)
    } else {
        machine_index(rows, id, k + 1)
    }
}

/// The first machine row with the given IP.
pub open spec fn machine_by_ip(rows: Seq<MachineV>, ip: Seq<char>) -> Option<MachineV>
    decreases rows.len(),
{
    if rows.len() == 0 {
        None
    } else if rows[0].ip == ip {
        Some(rows[0])
    } else {
        machine_by_ip(rows.drop_first(), ip)
    }
}

/// The first credential row with the given alias.
pub open spec fn credential_by_alias(rows: Seq<CredentialRecordV>, alias: Seq<char>) -> Option<
    CredentialRecordV,
>
    decreases rows.len(),
{
    if rows.len() == 0 {
        None
    } else if rows[0].alias == alias {
        Some(rows[0])
    } else {
        credential_by_alias(rows.drop_first(), alias)
    }
}


/// The first endpoint row with the given id.
pub open spec fn endpoint_by_id(rows: Seq<ZenEndpointV>, id: i64) -> Option<ZenEndpointV>
    decreases rows.len(),
{
    if rows.len() == 0 {
        None
    } else if rows[0].id == Some(id) {
        Some(rows[0])
    } else {
        endpoint_by_id(rows.drop_first(), id)
    }
}

/// The index of the endpoint of machine `mid` on port `port`.
pub open spec fn endpoint_slot(rows: Seq<ZenEndpointV>, mid: i64, port: i64, k: int) -> Option<int>
    decreases rows.len() - k,
{
    if k < 0 || k >= rows.len() {
        None
    } else if rows[k].machine_id == mid && rows[k].declared_port == port {
        Some(k)
    } else {
        endpoint_slot(rows, mid, port, k + 1)
    }
}

/// The endpoints of one machine, in registration order.
pub open spec fn endpoints_of(rows: Seq<ZenEndpointV>, mid: i64) -> Seq<ZenEndpointV> {
    rows.filter(|e: ZenEndpointV| e.machine_id == mid)
}

/// Up to `n` probes of endpoint `eid`, newest first (`n < 0`: all of them).
pub open spec fn latest_probes(rows: Seq<ZenProbeV>, eid: i64, n: int) -> Seq<ZenProbeV>
    decreases rows.len(),
{
    if rows.len() == 0 || n == 0 {
        Seq::<ZenProbeV>::empty()
    } else if rows.last().endpoint_id == eid {
        seq![rows.last()] + latest_probes(rows.drop_last(), eid, n - 1)
    } else {
        latest_probes(rows.drop_last(), eid, n)
    }
}

/// The first baseline row for a build version and binary kind.
pub open spec fn baseline_by_key(rows: Seq<BaselineV>, version: Seq<char>, kind: Seq<char>) -> Option<
    BaselineV,
>
    decreases rows.len(),
{
    if rows.len() == 0 {
        None
    } else if rows[0].zen_build_version == version && rows[0].binary_kind == kind {
        Some(rows[0])
    } else {
        baseline_by_key(rows.drop_first(), version, kind)
    }
}

/// Sets the `locked_by` marker of the baseline rows with the given key.
pub open spec fn set_lock(
    rows: Seq<BaselineV>,
    version: Seq<char>,
    kind: Seq<char>,
    by: Option<Seq<char>>,
) -> Seq<BaselineV> {
    rows.map_values(
        |r: BaselineV|
            if r.zen_build_version == version && r.binary_kind == kind {
                BaselineV { locked_by: by, ..r }
            } else {
                r
            },
    )
}

/// Looking a baseline up after its marker was set finds the same row with
/// the new marker: a lock is read back as locked by whom it names, an
/// unlock as unlocked.
pub proof fn lemma_lock_then_find(
    rows: Seq<BaselineV>,
    version: Seq<char>,
    kind: Seq<char>,
    by: Option<Seq<char>>,
)
    ensures
        baseline_by_key(set_lock(rows, version, kind, by), version, kind) == (match baseline_by_key(
            rows,
            version,
            kind,
        ) {
            Some(r) => Some(BaselineV { locked_by: by, ..r }),
            None => None,
        }),
    decreases rows.len(),
{
    if rows.len() > 0 {
        assert(set_lock(rows, version, kind, by).drop_first() =~= set_lock(
            rows.drop_first(),
            version,
            kind,
            by,
        ));
        lemma_lock_then_find(rows.drop_first(), version, kind, by);
    }
}

/// Setting a baseline's marker leaves every other baseline as it was.
pub proof fn lemma_lock_leaves_others(
    rows: Seq<BaselineV>,
    version: Seq<char>,
    kind: Seq<char>,
    by: Option<Seq<char>>,
    v2: Seq<char>,
    k2: Seq<char>,
)
    requires
        v2 != version || k2 != kind,
    ensures
        baseline_by_key(set_lock(rows, version, kind, by), v2, k2) == baseline_by_key(rows, v2, k2),
    decreases rows.len(),
{
    if rows.len() > 0 {
        assert(set_lock(rows, version, kind, by).drop_first() =~= set_lock(
            rows.drop_first(),
            version,
            kind,
            by,
        ));
        lemma_lock_leaves_others(rows.drop_first(), version, kind, by, v2, k2);
    }
}

proof fn lemma_machine_by_id_push(rows: Seq<MachineV>, m: MachineV, id: i64)
    ensures
        machine_by_id(rows.push(m), id) == (match machine_by_id(rows, id) {
            Some(r) => Some(r),
            None => if m.id == Some(id) {
                Some(m)
            } else {
                None
            },
        }),
    decreases rows.len(),
{
    reveal_with_fuel(machine_by_id, 2);
    if rows.len() > 0 {
        assert(rows.push(m)[0] == rows[0]);
        assert(rows.push(m).drop_first() =~= rows.drop_first().push(m));
        lemma_machine_by_id_push(rows.drop_first(), m, id);
    } else {
        assert(rows.push(m).drop_first() =~= Seq::<MachineV>::empty());
        assert(rows.push(m)[0] == m);
    }
}

/// A machine stored under the next id is found under that id afterwards.
pub proof fn lemma_insert_then_find(db: &Db, m: MachineV)
    requires
        db.wf(),
    ensures
        machine_by_id(
            db.machine_rows().push(MachineV { id: Some(db.next_machine()), ..m }),
            db.next_machine(),
        ) == Some(MachineV { id: Some(db.next_machine()), ..m }),
{
    let rows = db.machine_rows();
    assert forall|i: int| 0 <= i < rows.len() implies (#[trigger] rows[i]).id != Some(
        db.next_machine(),
    ) by {
        assert(rows[i] == db.machines@[i]@);
    }
    lemma_machine_by_id_absent(rows, db.next_machine());
    lemma_machine_by_id_push(rows, MachineV { id: Some(db.next_machine()), ..m }, db.next_machine());
}

proof fn lemma_baseline_push(rows: Seq<BaselineV>, b: BaselineV, version: Seq<char>, kind: Seq<char>)
    ensures
        baseline_by_key(rows.push(b), version, kind) == (match baseline_by_key(rows, version, kind) {
            Some(r) => Some(r),
            None => if b.zen_build_version == version && b.binary_kind == kind {
                Some(b)
            } else {
                None
            },
        }),
    decreases rows.len(),
{
    reveal_with_fuel(baseline_by_key, 2);
    if rows.len() > 0 {
        assert(rows.push(b)[0] == rows[0]);
        assert(rows.push(b).drop_first() =~= rows.drop_first().push(b));
        lemma_baseline_push(rows.drop_first(), b, version, kind);
    } else {
        assert(rows.push(b).drop_first() =~= Seq::<BaselineV>::empty());
        assert(rows.push(b)[0] == b);
    }
}

/// A baseline added where none had its build version and kind is found
/// under that key afterwards, unlocked as it was added.
pub proof fn lemma_insert_baseline_then_find(rows: Seq<BaselineV>, b: BaselineV)
    requires
        baseline_by_key(rows, b.zen_build_version, b.binary_kind) is None,
    ensures
        baseline_by_key(rows.push(b), b.zen_build_version, b.binary_kind) == Some(b),
{
    lemma_baseline_push(rows, b, b.zen_build_version, b.binary_kind);
}

proof fn lemma_machine_by_id_absent(rows: Seq<MachineV>, id: i64)
    requires
        forall|i: int| 0 <= i < rows.len() ==> (#[trigger] rows[i]).id != Some(id),
    ensures
        machine_by_id(rows, id) is None,
    decreases rows.len(),
{
    if rows.len() > 0 {
        assert forall|i: int| 0 <= i < rows.drop_first().len() implies (
        #[trigger] rows.drop_first()[i]).id != Some(id) by {
            assert(rows.drop_first()[i] == rows[i + 1]);
        }
        lemma_machine_by_id_absent(rows.drop_first(), id);
    }
}

proof fn lemma_credential_push(rows: Seq<CredentialRecordV>, c: CredentialRecordV, alias: Seq<char>)
    ensures
        credential_by_alias(rows.push(c), alias) == (match credential_by_alias(rows, alias) {
            Some(r) => Some(r),
            None => if c.alias == alias {
                Some(c)
            } else {
                None
            },
        }),
    decreases rows.len(),
{
    reveal_with_fuel(credential_by_alias, 2);
    if rows.len() > 0 {
        assert(rows.push(c)[0] == rows[0]);
        assert(rows.push(c).drop_first() =~= rows.drop_first().push(c));
        lemma_credential_push(rows.drop_first(), c, alias);
    } else {
        assert(rows.push(c).drop_first() =~= Seq::<CredentialRecordV>::empty());
        assert(rows.push(c)[0] == c);
    }
}

/// Dropping the records of alias `a` changes no lookup of another alias and
/// leaves none under `a`.
proof fn lemma_credential_filter(rows: Seq<CredentialRecordV>, a: Seq<char>, b: Seq<char>)
    ensures
        credential_by_alias(rows.filter(|c: CredentialRecordV| c.alias != a), b) == if a == b {
            None
        } else {
            credential_by_alias(rows, b)
        },
    decreases rows.len(),
{
    let pred = |c: CredentialRecordV| c.alias != a;
    if rows.len() == 0 {
        assert(rows.filter(pred) =~= Seq::<CredentialRecordV>::empty()) by {
            reveal(Seq::filter);
        }
    } else {
        let front = rows.drop_last();
        let y = rows.last();
        assert(rows =~= front.push(y));
        front.lemma_filter_push(y, pred);
        lemma_credential_filter(front, a, b);
        lemma_credential_push(front.filter(pred), y, b);
        lemma_credential_push(front, y, b);
    }
}

/// A saved credential is what its alias looks up afterwards, and saving it
/// changes the lookup of no other alias.
pub proof fn lemma_save_then_find(rows: Seq<CredentialRecordV>, rec: CredentialRecordV, other: Seq<char>)
    ensures
        credential_by_alias(
            rows.filter(|c: CredentialRecordV| c.alias != rec.alias).push(rec),
            rec.alias,
        ) == Some(rec),
        other != rec.alias ==> credential_by_alias(
            rows.filter(|c: CredentialRecordV| c.alias != rec.alias).push(rec),
            other,
        ) == credential_by_alias(rows, other),
{
    let f = rows.filter(|c: CredentialRecordV| c.alias != rec.alias);
    lemma_credential_filter(rows, rec.alias, rec.alias);
    lemma_credential_push(f, rec, rec.alias);
    lemma_credential_filter(rows, rec.alias, other);
    lemma_credential_push(f, rec, other);
}

// ---------------------------------------------------------------------------
// the inventory
// ---------------------------------------------------------------------------

/// A project, identified by the lower-cased stem of its `.uproject` file.
#[derive(Debug)]
pub struct Project {
    pub id: Option<i64>,
    pub uproject_name: String,
    pub uproject_stem_lower: String,
    pub uproject_guid: Option<String>,
    pub display_name: Option<String>,
}

pub struct ProjectV {
    pub id: Option<i64>,
    pub uproject_name: Seq<char>,
    pub uproject_stem_lower: Seq<char>,
    pub uproject_guid: Option<Seq<char>>,
    pub display_name: Option<Seq<char>>,
}

impl View for Project {
    type V = ProjectV;

    open spec fn view(&self) -> ProjectV {
        ProjectV {
            id: self.id,
            uproject_name: self.uproject_name@,
            uproject_stem_lower: self.uproject_stem_lower@,
            uproject_guid: opt_view(self.uproject_guid),
            display_name: opt_view(self.display_name),
        }
    }
}

impl Project {
    /// A field-by-field copy.
    pub fn copy(&self) -> (r: Project)
        ensures
            r@ == self@,
    {
        Project {
            id: self.id,
            uproject_name: self.uproject_name.clone(),
            uproject_stem_lower: self.uproject_stem_lower.clone(),
            uproject_guid: clone_opt(&self.uproject_guid),
            display_name: clone_opt(&self.display_name),
        }
    }
}

/// Where a project lies on one machine.
#[derive(Debug)]
pub struct ProjectLocation {
    pub id: Option<i64>,
    pub project_id: i64,
    pub machine_id: i64,
    pub abs_path: String,
    pub uproject_path: String,
    /// `manual_path`, `manual_alias`, or how discovery found it.
    pub discovery_status: String,
}

pub struct ProjectLocationV {
    pub id: Option<i64>,
    pub project_id: i64,
    pub machine_id: i64,
    pub abs_path: Seq<char>,
    pub uproject_path: Seq<char>,
    pub discovery_status: Seq<char>,
}

impl View for ProjectLocation {
    type V = ProjectLocationV;

    open spec fn view(&self) -> ProjectLocationV {
        ProjectLocationV {
            id: self.id,
            project_id: self.project_id,
            machine_id: self.machine_id,
            abs_path: self.abs_path@,
            uproject_path: self.uproject_path@,
            discovery_status: self.discovery_status@,
        }
    }
}

impl ProjectLocation {
    /// A field-by-field copy.
    pub fn copy(&self) -> (r: ProjectLocation)
        ensures
            r@ == self@,
    {
        ProjectLocation {
            id: self.id,
            project_id: self.project_id,
            machine_id: self.machine_id,
            abs_path: self.abs_path.clone(),
            uproject_path: self.uproject_path.clone(),
            discovery_status: self.discovery_status.clone(),
        }
    }
}

/// The counts a finished run ends with.
#[derive(Debug, Clone, Copy)]
pub struct RunCounts {
    pub healthy: i64,
    pub warning: i64,
    pub critical: i64,
    pub offline: i64,
    pub skipped: i64,
    pub info: i64,
    pub total: i64,
}

/// One health or INI scan run: its kind, the machines it covers, and its
/// counts once finished.
#[derive(Debug)]
pub struct ScanRun {
    pub id: i64,
    pub kind: String,
    pub machine_ids: Vec<i64>,
    pub counts: Option<RunCounts>,
}

pub struct ScanRunV {
    pub id: i64,
    pub kind: Seq<char>,
    pub machine_ids: Seq<i64>,
    pub counts: Option<RunCounts>,
}

impl View for ScanRun {
    type V = ScanRunV;

    open spec fn view(&self) -> ScanRunV {
        ScanRunV { id: self.id, kind: self.kind@, machine_ids: self.machine_ids@, counts: self.counts }
    }
}

impl ScanRun {
    /// A field-by-field copy.
    pub fn copy(&self) -> (r: ScanRun)
        ensures
            r@ == self@,
    {
        let mut ids: Vec<i64> = Vec::new();
        let mut i: usize = 0;
        while i < self.machine_ids.len()
            invariant
                i <= self.machine_ids@.len(),
                ids@ =~= self.machine_ids@.take(i as int),
            decreases self.machine_ids@.len() - i,
        {
            ids.push(self.machine_ids[i]);
            i = i + 1;
        }
        assert(self.machine_ids@.take(i as int) =~= self.machine_ids@);
        ScanRun { id: self.id, kind: self.kind.clone(), machine_ids: ids, counts: self.counts }
    }
}

/// The whole inventory.
pub struct Db {
    machines: Vec<Machine>,
    next_machine_id: i64,
    credentials: Vec<CredentialRecord>,
    endpoints: Vec<ZenEndpoint>,
    next_endpoint_id: i64,
    probes: Vec<ZenProbe>,
    next_probe_id: i64,
    baselines: Vec<ZenBinaryExpected>,
    installs: Vec<UeInstall>,
    gpus: Vec<GpuInfo>,
    runs: Vec<ScanRun>,
    next_run_id: i64,
    projects: Vec<Project>,
    next_project_id: i64,
    locations: Vec<ProjectLocation>,
    next_location_id: i64,
    results: Vec<HealthResult>,
    shares: Vec<ShareConfig>,
    next_share_id: i64,
    findings: Vec<IniFinding>,
    next_finding_id: i64,
}

impl Db {
    /// The machine rows, in insertion order.
    pub closed spec fn machine_rows(&self) -> Seq<MachineV> {
        self.machines@.map_values(|m: Machine| m@)
    }

    /// The credential rows, in insertion order.
    pub closed spec fn credential_rows(&self) -> Seq<CredentialRecordV> {
        self.credentials@.map_values(|c: CredentialRecord| c@)
    }

    /// The zen endpoint rows, in registration order.
    pub closed spec fn endpoint_rows(&self) -> Seq<ZenEndpointV> {
        self.endpoints@.map_values(|e: ZenEndpoint| e@)
    }

    /// The zen probe rows, oldest first.
    pub closed spec fn probe_rows(&self) -> Seq<ZenProbeV> {
        self.probes@.map_values(|p: ZenProbe| p@)
    }

    /// The baseline rows, in insertion order.
    pub closed spec fn baseline_rows(&self) -> Seq<BaselineV> {
        self.baselines@.map_values(|b: ZenBinaryExpected| b@)
    }

    pub closed spec fn next_endpoint(&self) -> i64 {
        self.next_endpoint_id
    }

    pub closed spec fn next_probe(&self) -> i64 {
        self.next_probe_id
    }

    /// The id the next stored machine receives.
    pub closed spec fn next_machine(&self) -> i64 {
        self.next_machine_id
    }

    /// The invariant of the inventory: every machine row has an id below the
    /// next one to hand out, no two rows share an id or an IP, no two
    /// credentials share an alias.
    pub closed spec fn wf(&self) -> bool {
        &&& self.next_machine_id >= 1
        &&& forall|i: int|
            0 <= i < self.machines@.len() ==> ((#[trigger] self.machines@[i]).id matches Some(x)
                && 1 <= x < self.next_machine_id)
        &&& forall|i: int, j: int|
            0 <= i < j < self.machines@.len() ==> #[trigger] self.machines@[i].id
                != #[trigger] self.machines@[j].id
        &&& forall|i: int, j: int|
            0 <= i < j < self.machines@.len() ==> #[trigger] self.machines@[i].ip@
                != #[trigger] self.machines@[j].ip@
        &&& forall|i: int, j: int|
            0 <= i < j < self.credentials@.len() ==> #[trigger] self.credentials@[i].alias@
                != #[trigger] self.credentials@[j].alias@
        &&& self.next_endpoint_id >= 1
        &&& self.next_probe_id >= 1
        &&& forall|i: int|
            0 <= i < self.endpoints@.len() ==> ((#[trigger] self.endpoints@[i]).id matches Some(x)
                && 1 <= x < self.next_endpoint_id)
        &&& forall|i: int, j: int|
            0 <= i < j < self.endpoints@.len() ==> #[trigger] self.endpoints@[i].id
                != #[trigger] self.endpoints@[j].id
        &&& forall|i: int, j: int|
            0 <= i < j < self.baselines@.len() ==> !(#[trigger] self.baselines@[i].zen_build_version@
                == #[trigger] self.baselines@[j].zen_build_version@ && self.baselines@[i].binary_kind@
                == self.baselines@[j].binary_kind@)
        &&& self.next_run_id >= 1
        &&& forall|i: int|
            0 <= i < self.runs@.len() ==> 1 <= (#[trigger] self.runs@[i]).id < self.next_run_id
        &&& forall|i: int, j: int|
            0 <= i < j < self.runs@.len() ==> #[trigger] self.runs@[i].id != #[trigger] self.runs@[j].id
        &&& self.next_project_id >= 1
        &&& forall|i: int|
            0 <= i < self.projects@.len() ==> ((#[trigger] self.projects@[i]).id matches Some(x) && 1
                <= x < self.next_project_id)
        &&& self.next_location_id >= 1
        &&& forall|i: int|
            0 <= i < self.locations@.len() ==> ((#[trigger] self.locations@[i]).id matches Some(x) && 1
                <= x < self.next_location_id)
        &&& self.next_share_id >= 1
        &&& forall|i: int|
            0 <= i < self.shares@.len() ==> ((#[trigger] self.shares@[i]).id matches Some(x) && 1 <= x
                < self.next_share_id)
        &&& self.next_finding_id >= 1
        &&& forall|i: int|
            0 <= i < self.findings@.len() ==> ((#[trigger] self.findings@[i]).id matches Some(x) && 1 <= x
                < self.next_finding_id)
    }

    /// An empty inventory.
    pub fn new() -> (db: Db)
        ensures
            db.wf(),
            db.machine_rows() == Seq::<MachineV>::empty(),
            db.credential_rows() == Seq::<CredentialRecordV>::empty(),
            db.endpoint_rows() == Seq::<ZenEndpointV>::empty(),
            db.probe_rows() == Seq::<ZenProbeV>::empty(),
            db.baseline_rows() == Seq::<BaselineV>::empty(),
            db.install_rows() == Seq::<UeInstallV>::empty(),
            db.gpu_rows() == Seq::<GpuInfoV>::empty(),
            db.next_machine() == 1,
    {
        let db = Db {
            machines: Vec::new(),
            next_machine_id: 1,
            credentials: Vec::new(),
            endpoints: Vec::new(),
            next_endpoint_id: 1,
            probes: Vec::new(),
            next_probe_id: 1,
            baselines: Vec::new(),
            installs: Vec::new(),
            gpus: Vec::new(),
            runs: Vec::new(),
            next_run_id: 1,
            projects: Vec::new(),
            next_project_id: 1,
            locations: Vec::new(),
            next_location_id: 1,
            results: Vec::new(),
            shares: Vec::new(),
            next_share_id: 1,
            findings: Vec::new(),
            next_finding_id: 1,
        };
        assert(db.machine_rows() =~= Seq::<MachineV>::empty());
        assert(db.credential_rows() =~= Seq::<CredentialRecordV>::empty());
        assert(db.endpoint_rows() =~= Seq::<ZenEndpointV>::empty());
        assert(db.probe_rows() =~= Seq::<ZenProbeV>::empty());
        assert(db.baseline_rows() =~= Seq::<BaselineV>::empty());
        assert(db.install_rows() =~= Seq::<UeInstallV>::empty());
        assert(db.gpu_rows() =~= Seq::<GpuInfoV>::empty());
        db
    }

    /// The machine with the given id.
    pub fn find_machine(&self, id: i64) -> (r: Option<Machine>)
        ensures
            r matches Some(m) ==> machine_by_id(self.machine_rows(), id) == Some(m@),
            r is None ==> machine_by_id(self.machine_rows(), id) is None,
    {
        let ghost rows = self.machine_rows();
        let mut i: usize = 0;
        assert(rows.skip(0) =~= rows);
        while i < self.machines.len()
            invariant
                rows == self.machine_rows(),
                rows.len() == self.machines@.len(),
                i <= rows.len(),
                machine_by_id(rows, id) == machine_by_id(rows.skip(i as int), id),
            decreases rows.len() - i,
        {
            assert(rows.skip(i as int)[0] == self.machines@[i as int]@);
            assert(rows.skip(i as int).drop_first() =~= rows.skip(i + 1));
            if self.machines[i].id == Some(id) {
                return Some(self.machines[i].copy());
            }
            i = i + 1;
        }
        assert(rows.skip(i as int) =~= Seq::<MachineV>::empty());
        None
    }

    /// The machine with the given IP.
    pub fn find_machine_by_ip(&self, ip: &str) -> (r: Option<Machine>)
        ensures
            r matches Some(m) ==> machine_by_ip(self.machine_rows(), ip@) == Some(m@),
            r is None ==> machine_by_ip(self.machine_rows(), ip@) is None,
    {
        let ghost rows = self.machine_rows();
        let key = String::from_str(ip);
        let mut i: usize = 0;
        assert(rows.skip(0) =~= rows);
        while i < self.machines.len()
            invariant
                rows == self.machine_rows(),
                rows.len() == self.machines@.len(),
                key@ == ip@,
                i <= rows.len(),
                machine_by_ip(rows, ip@) == machine_by_ip(rows.skip(i as int), ip@),
            decreases rows.len() - i,
        {
            assert(rows.skip(i as int)[0] == self.machines@[i as int]@);
            assert(rows.skip(i as int).drop_first() =~= rows.skip(i + 1));
            if self.machines[i].ip == key {
                return Some(self.machines[i].copy());
            }
            i = i + 1;
        }
        assert(rows.skip(i as int) =~= Seq::<MachineV>::empty());
        None
    }

    /// Every machine, in insertion order.
    pub fn list_machines(&self) -> (r: Vec<Machine>)
        ensures
            r@.map_values(|m: Machine| m@) == self.machine_rows(),
    {
        let mut out: Vec<Machine> = Vec::new();
        let mut i: usize = 0;
        while i < self.machines.len()
            invariant
                i <= self.machines@.len(),
                out@.map_values(|m: Machine| m@) =~= self.machine_rows().take(i as int),
            decreases self.machines@.len() - i,
        {
            out.push(self.machines[i].copy());
            assert(self.machine_rows().take(i + 1) =~= self.machine_rows().take(i as int).push(
                self.machines@[i as int]@,
            ));
            i = i + 1;
        }
        assert(self.machine_rows().take(i as int) =~= self.machine_rows());
        out
    }

    /// Stores a new machine under the next id. Fails when the IP is already
    /// present (the IP column is unique) or the id space is used up.
    pub fn insert_machine(&mut self, m: &Machine) -> (r: Result<i64, UecmError>)
        requires
            old(self).wf(),
        ensures
            final(self).wf(),
            machine_by_ip(old(self).machine_rows(), m@.ip) is Some ==> r is Err,
            machine_by_ip(old(self).machine_rows(), m@.ip) is None && old(self).next_machine()
                < i64::MAX ==> r == Ok::<i64, UecmError>(old(self).next_machine()),
            r matches Ok(id) ==> final(self).machine_rows() == old(self).machine_rows().push(
                MachineV { id: Some(id), ..m@ },
            ) && final(self).next_machine() == id + 1,
            r is Err ==> final(self).machine_rows() == old(self).machine_rows(),
            final(self).endpoint_rows() == old(self).endpoint_rows(),
            final(self).baseline_rows() == old(self).baseline_rows(),
            final(self).probe_rows() == old(self).probe_rows(),
            final(self).credential_rows() == old(self).credential_rows(),
    {
        if self.find_machine_by_ip(m.ip.as_str()).is_some() {
            return Err(UecmError::Database(String::from_str("UNIQUE constraint failed: machines.ip")));
        }
        if self.next_machine_id == i64::MAX {
            return Err(UecmError::Database(String::from_str("machine id space exhausted")));
        }
        let id = self.next_machine_id;
        let mut row = m.copy();
        row.id = Some(id);
        let ghost old_rows = self.machine_rows();
        let ghost old_ms = self.machines@;
        proof {
            assert forall|i: int| 0 <= i < old_ms.len() implies #[trigger] old_ms[i].ip@ != m.ip@ by {
                lemma_no_ip_match(old_rows, m.ip@, i);
                assert(old_rows[i] == old_ms[i]@);
            }
        }
        self.machines.push(row);
        self.next_machine_id = id + 1;
        assert(self.machine_rows() =~= old_rows.push(MachineV { id: Some(id), ..m@ }));
        Ok(id)
    }

    /// Removes the machine with the given id (no row is not an error).
    pub fn delete_machine(&mut self, id: i64)
        requires
            old(self).wf(),
        ensures
            final(self).wf(),
            final(self).machine_rows() == match machine_index(old(self).machine_rows(), id, 0) {
                Some(k) => old(self).machine_rows().remove(k),
                None => old(self).machine_rows(),
            },
            final(self).endpoint_rows() == old(self).endpoint_rows(),
            final(self).baseline_rows() == old(self).baseline_rows(),
            final(self).probe_rows() == old(self).probe_rows(),
            final(self).credential_rows() == old(self).credential_rows(),
            final(self).next_machine() == old(self).next_machine(),
    {
        let ghost rows = self.machine_rows();
        let mut k: usize = 0;
        while k < self.machines.len()
            invariant
                rows == self.machine_rows(),
                rows == old(self).machine_rows(),
                self.wf(),
                self.endpoint_rows() == old(self).endpoint_rows(),
                self.baseline_rows() == old(self).baseline_rows(),
                self.probe_rows() == old(self).probe_rows(),
                self.credential_rows() == old(self).credential_rows(),
                self.next_machine() == old(self).next_machine(),
                rows.len() == self.machines@.len(),
                k <= rows.len(),
                machine_index(rows, id, 0) == machine_index(rows, id, k as int),
            decreases rows.len() - k,
        {
            if self.machines[k].id == Some(id) {
                let ghost old_ms = self.machines@;
                self.machines.remove(k);
                assert(self.machine_rows() =~= rows.remove(k as int));
                assert forall|a: int, b: int|
                    0 <= a < b < self.machines@.len() implies #[trigger] self.machines@[a].id
                    != #[trigger] self.machines@[b].id && self.machines@[a].ip@
                    != self.machines@[b].ip@ by {
                    let a2 = if a < k { a } else { a + 1 };
                    let b2 = if b < k { b } else { b + 1 };
                    assert(self.machines@[a] == old_ms[a2]);
                    assert(self.machines@[b] == old_ms[b2]);
                    assert(old_ms[a2].id != old_ms[b2].id);
                    assert(old_ms[a2].ip@ != old_ms[b2].ip@);
                }
                assert forall|a: int| 0 <= a < self.machines@.len() implies ((
                #[trigger] self.machines@[a]).id matches Some(x) && 1 <= x < self.next_machine_id) by {
                    let a2 = if a < k { a } else { a + 1 };
                    assert(self.machines@[a] == old_ms[a2]);
                }
                return;
            }
            k = k + 1;
        }
    }

    /// Renames the machine with the given id (no row is not an error).
    pub fn rename_machine(&mut self, id: i64, hostname: &str)
        requires
            old(self).wf(),
        ensures
            final(self).wf(),
            final(self).machine_rows() == old(self).machine_rows().map_values(
                |m: MachineV|
                    if m.id == Some(id) {
                        MachineV { hostname: hostname@, ..m }
                    } else {
                        m
                    },
            ),
            final(self).endpoint_rows() == old(self).endpoint_rows(),
            final(self).baseline_rows() == old(self).baseline_rows(),
            final(self).probe_rows() == old(self).probe_rows(),
            final(self).credential_rows() == old(self).credential_rows(),
            final(self).next_machine() == old(self).next_machine(),
    {
        let ghost rows = self.machine_rows();
        let ghost goal = rows.map_values(
            |m: MachineV|
                if m.id == Some(id) {
                    MachineV { hostname: hostname@, ..m }
                } else {
                    m
                },
        );
        let mut i: usize = 0;
        while i < self.machines.len()
            invariant
                self.wf(),
                rows == old(self).machine_rows(),
                rows.len() == self.machines@.len(),
                goal == rows.map_values(
                    |m: MachineV|
                        if m.id == Some(id) {
                            MachineV { hostname: hostname@, ..m }
                        } else {
                            m
                        },
                ),
                i <= rows.len(),
                forall|j: int| 0 <= j < i ==> #[trigger] self.machines@[j]@ == goal[j],
                forall|j: int| i <= j < rows.len() ==> #[trigger] self.machines@[j]@ == rows[j],
                forall|j: int|
                    0 <= j < rows.len() ==> #[trigger] self.machines@[j].id == rows[j].id
                        && self.machines@[j].ip@ == rows[j].ip,
                self.endpoint_rows() == old(self).endpoint_rows(),
                self.baseline_rows() == old(self).baseline_rows(),
                self.probe_rows() == old(self).probe_rows(),
                self.credential_rows() == old(self).credential_rows(),
                self.next_machine() == old(self).next_machine(),
            decreases rows.len() - i,
        {
            if self.machines[i].id == Some(id) {
                let mut row = self.machines[i].copy();
                row.hostname = String::from_str(hostname);
                let ghost old_ms = self.machines@;
                self.machines.set(i, row);
                assert forall|a: int, b: int|
                    0 <= a < b < self.machines@.len() implies #[trigger] self.machines@[a].id
                    != #[trigger] self.machines@[b].id && self.machines@[a].ip@
                    != self.machines@[b].ip@ by {
                    assert(old_ms[a].id != old_ms[b].id);
                    assert(old_ms[a].ip@ != old_ms[b].ip@);
                }
                assert forall|a: int| 0 <= a < self.machines@.len() implies ((
                #[trigger] self.machines@[a]).id matches Some(x) && 1 <= x < self.next_machine_id) by {
                    assert(old_ms[a].id == self.machines@[a].id);
                }
            }
            i = i + 1;
        }
        assert(self.machine_rows() =~= goal);
    }

    /// Records the status (`online` / `offline`) of the machine with the given
    /// id after a probe (no row is not an error).
    pub fn mark_seen(&mut self, id: i64, status: &str)
        requires
            old(self).wf(),
        ensures
            final(self).wf(),
            final(self).machine_rows() == old(self).machine_rows().map_values(
                |m: MachineV|
                    if m.id == Some(id) {
                        MachineV { status: Some(status@), ..m }
                    } else {
                        m
                    },
            ),
            final(self).endpoint_rows() == old(self).endpoint_rows(),
            final(self).baseline_rows() == old(self).baseline_rows(),
            final(self).probe_rows() == old(self).probe_rows(),
            final(self).credential_rows() == old(self).credential_rows(),
            final(self).next_machine() == old(self).next_machine(),
            final(self).install_rows() == old(self).install_rows(),
            final(self).gpu_rows() == old(self).gpu_rows(),
    {
        let ghost rows = self.machine_rows();
        let ghost goal = rows.map_values(
            |m: MachineV|
                if m.id == Some(id) {
                    MachineV { status: Some(status@), ..m }
                } else {
                    m
                },
        );
        let mut i: usize = 0;
        while i < self.machines.len()
            invariant
                self.wf(),
                rows == old(self).machine_rows(),
                rows.len() == self.machines@.len(),
                goal == rows.map_values(
                    |m: MachineV|
                        if m.id == Some(id) {
                            MachineV { status: Some(status@), ..m }
                        } else {
                            m
                        },
                ),
                i <= rows.len(),
                forall|j: int| 0 <= j < i ==> #[trigger] self.machines@[j]@ == goal[j],
                forall|j: int| i <= j < rows.len() ==> #[trigger] self.machines@[j]@ == rows[j],
                forall|j: int|
                    0 <= j < rows.len() ==> #[trigger] self.machines@[j].id == rows[j].id
                        && self.machines@[j].ip@ == rows[j].ip,
                self.endpoint_rows() == old(self).endpoint_rows(),
                self.baseline_rows() == old(self).baseline_rows(),
                self.probe_rows() == old(self).probe_rows(),
                self.credential_rows() == old(self).credential_rows(),
                self.next_machine() == old(self).next_machine(),
                self.install_rows() == old(self).install_rows(),
                self.gpu_rows() == old(self).gpu_rows(),
            decreases rows.len() - i,
        {
            if self.machines[i].id == Some(id) {
                let mut row = self.machines[i].copy();
                row.status = Some(String::from_str(status));
                let ghost old_ms = self.machines@;
                self.machines.set(i, row);
                assert forall|a: int, b: int|
                    0 <= a < b < self.machines@.len() implies #[trigger] self.machines@[a].id
                    != #[trigger] self.machines@[b].id && self.machines@[a].ip@
                    != self.machines@[b].ip@ by {
                    assert(old_ms[a].id != old_ms[b].id);
                    assert(old_ms[a].ip@ != old_ms[b].ip@);
                }
                assert forall|a: int| 0 <= a < self.machines@.len() implies ((
                #[trigger] self.machines@[a]).id matches Some(x) && 1 <= x < self.next_machine_id) by {
                    assert(old_ms[a].id == self.machines@[a].id);
                }
            }
            i = i + 1;
        }
        assert(self.machine_rows() =~= goal);
    }

    /// Every saved credential, in the order saved.
    pub fn list_credentials(&self) -> (r: Vec<CredentialRecord>)
        ensures
            r@.map_values(|c: CredentialRecord| c@) == self.credential_rows(),
    {
        let mut out: Vec<CredentialRecord> = Vec::new();
        let mut i: usize = 0;
        while i < self.credentials.len()
            invariant
                i <= self.credentials@.len(),
                out@.map_values(|c: CredentialRecord| c@) =~= self.credential_rows().take(i as int),
            decreases self.credentials@.len() - i,
        {
            out.push(self.credentials[i].copy());
            assert(self.credential_rows().take(i + 1) =~= self.credential_rows().take(i as int).push(
                self.credentials@[i as int]@,
            ));
            i = i + 1;
        }
        assert(self.credential_rows().take(i as int) =~= self.credential_rows());
        out
    }

    /// Forgets the credential saved under an alias; returns whether one was.
    pub fn delete_credential(&mut self, alias: &str) -> (r: bool)
        requires
            old(self).wf(),
        ensures
            final(self).wf(),
            r == (credential_by_alias(old(self).credential_rows(), alias@) is Some),
            credential_by_alias(final(self).credential_rows(), alias@) is None,
            final(self).credential_rows() == old(self).credential_rows().filter(
                |c: CredentialRecordV| c.alias != alias@,
            ),
            final(self).machine_rows() == old(self).machine_rows(),
            final(self).endpoint_rows() == old(self).endpoint_rows(),
            final(self).baseline_rows() == old(self).baseline_rows(),
            final(self).probe_rows() == old(self).probe_rows(),
            final(self).share_rows() == old(self).share_rows(),
            final(self).next_share() == old(self).next_share(),
    {
        let ghost rows = self.credential_rows();
        let ghost pred = |c: CredentialRecordV| c.alias != alias@;
        let key = String::from_str(alias);
        let mut k: usize = 0;
        assert(rows.skip(0) =~= rows);
        while k < self.credentials.len()
            invariant
                self.wf(),
                rows == self.credential_rows(),
                rows == old(self).credential_rows(),
                pred == (|c: CredentialRecordV| c.alias != alias@),
                key@ == alias@,
                rows.len() == self.credentials@.len(),
                k <= rows.len(),
                forall|j: int| 0 <= j < k ==> (#[trigger] rows[j]).alias != alias@,
                credential_by_alias(rows, alias@) == credential_by_alias(rows.skip(k as int), alias@),
                self.machine_rows() == old(self).machine_rows(),
                self.endpoint_rows() == old(self).endpoint_rows(),
                self.baseline_rows() == old(self).baseline_rows(),
                self.probe_rows() == old(self).probe_rows(),
                self.share_rows() == old(self).share_rows(),
                self.next_share_id == old(self).next_share_id,
            decreases rows.len() - k,
        {
            assert(rows.skip(k as int)[0] == rows[k as int]);
            assert(rows.skip(k as int).drop_first() =~= rows.skip(k + 1));
            assert(rows[k as int] == self.credentials@[k as int]@);
            if self.credentials[k].alias == key {
                let ghost old_cs = self.credentials@;
                self.credentials.remove(k);
                assert(self.credential_rows() =~= rows.remove(k as int));
                assert forall|a: int, b: int|
                    0 <= a < b < self.credentials@.len() implies #[trigger] self.credentials@[a].alias@
                    != #[trigger] self.credentials@[b].alias@ by {
                    let a2 = if a < k { a } else { a + 1 };
                    let b2 = if b < k { b } else { b + 1 };
                    assert(self.credentials@[a] == old_cs[a2]);
                    assert(self.credentials@[b] == old_cs[b2]);
                    assert(old_cs[a2].alias@ != old_cs[b2].alias@);
                }
                proof {
                    assert forall|j: int| k < j < rows.len() implies (#[trigger] rows[j]).alias
                        != alias@ by {
                        assert(old_cs[j].alias@ != old_cs[k as int].alias@);
                        assert(rows[j] == old_cs[j]@);
                    }
                    lemma_filter_drops_one(rows, alias@, k as int);
                    lemma_credential_absent(rows.remove(k as int), alias@);
                }
                return true;
            }
            k = k + 1;
        }
        proof {
            assert(rows.skip(k as int) =~= Seq::<CredentialRecordV>::empty());
            lemma_filter_keeps_all(rows, alias@);
        }
        false
    }

    /// Saves credential metadata, replacing any saved under the same alias.
    pub fn save_credential(&mut self, rec: &CredentialRecord)
        requires
            old(self).wf(),
        ensures
            final(self).wf(),
            final(self).credential_rows() == old(self).credential_rows().filter(
                |c: CredentialRecordV| c.alias != rec@.alias,
            ).push(rec@),
            final(self).machine_rows() == old(self).machine_rows(),
            final(self).endpoint_rows() == old(self).endpoint_rows(),
            final(self).baseline_rows() == old(self).baseline_rows(),
            final(self).probe_rows() == old(self).probe_rows(),
            final(self).share_rows() == old(self).share_rows(),
            final(self).next_share() == old(self).next_share(),
    {
        self.delete_credential(rec.alias.as_str());
        let ghost rows = self.credential_rows();
        let ghost old_cs = self.credentials@;
        proof {
            assert forall|i: int| 0 <= i < old_cs.len() implies #[trigger] old_cs[i].alias@ != rec.alias@ by {
                lemma_no_alias_match(rows, rec.alias@, i);
                assert(rows[i] == old_cs[i]@);
            }
        }
        self.credentials.push(rec.copy());
        assert(self.credential_rows() =~= rows.push(rec@));
    }

    /// The credential saved under an alias.
    pub fn find_credential(&self, alias: &str) -> (r: Option<CredentialRecord>)
        ensures
            r matches Some(c) ==> credential_by_alias(self.credential_rows(), alias@) == Some(c@),
            r is None ==> credential_by_alias(self.credential_rows(), alias@) is None,
    {
        let ghost rows = self.credential_rows();
        let key = String::from_str(alias);
        let mut i: usize = 0;
        assert(rows.skip(0) =~= rows);
        while i < self.credentials.len()
            invariant
                rows == self.credential_rows(),
                rows.len() == self.credentials@.len(),
                key@ == alias@,
                i <= rows.len(),
                credential_by_alias(rows, alias@) == credential_by_alias(rows.skip(i as int), alias@),
            decreases rows.len() - i,
        {
            assert(rows.skip(i as int)[0] == self.credentials@[i as int]@);
            assert(rows.skip(i as int).drop_first() =~= rows.skip(i + 1));
            if self.credentials[i].alias == key {
                return Some(self.credentials[i].copy());
            }
            i = i + 1;
        }
        assert(rows.skip(i as int) =~= Seq::<CredentialRecordV>::empty());
        None
    }
}

impl Db {
    /// Every endpoint row of a well-formed inventory has an id, and so has
    /// every endpoint a selection can return.
    pub proof fn lemma_endpoint_ids(&self, machine_id: Option<i64>)
        requires
            self.wf(),
        ensures
            forall|i: int|
                0 <= i < self.endpoint_rows().len() ==> (#[trigger] self.endpoint_rows()[i]).id
                    is Some,
            forall|mid: i64, i: int|
                0 <= i < endpoints_of(self.endpoint_rows(), mid).len() ==> (
                #[trigger] endpoints_of(self.endpoint_rows(), mid)[i]).id is Some,
            forall|id: i64|
                (#[trigger] endpoint_by_id(self.endpoint_rows(), id)) is Some ==> endpoint_by_id(
                    self.endpoint_rows(),
                    id,
                )->Some_0.id == Some(id),
    {
        let rows = self.endpoint_rows();
        assert forall|i: int| 0 <= i < rows.len() implies (#[trigger] rows[i]).id is Some by {
            assert(rows[i] == self.endpoints@[i]@);
        }
        assert forall|mid: i64, i: int|
            0 <= i < endpoints_of(rows, mid).len() implies (#[trigger] endpoints_of(rows, mid)[i]).id
            is Some by {
            lemma_filter_ids(rows, mid);
        }
        assert forall|id: i64| (#[trigger] endpoint_by_id(rows, id)) is Some implies endpoint_by_id(
            rows,
            id,
        )->Some_0.id == Some(id) by {
            lemma_endpoint_by_id_key(rows, id);
        }
    }

    /// Every endpoint, in registration order.
    pub fn list_endpoints(&self) -> (r: Vec<ZenEndpoint>)
        ensures
            r@.map_values(|e: ZenEndpoint| e@) == self.endpoint_rows(),
    {
        let mut out: Vec<ZenEndpoint> = Vec::new();
        let mut i: usize = 0;
        while i < self.endpoints.len()
            invariant
                i <= self.endpoints@.len(),
                out@.map_values(|e: ZenEndpoint| e@) =~= self.endpoint_rows().take(i as int),
            decreases self.endpoints@.len() - i,
        {
            out.push(self.endpoints[i].copy());
            assert(self.endpoint_rows().take(i + 1) =~= self.endpoint_rows().take(i as int).push(
                self.endpoints@[i as int]@,
            ));
            i = i + 1;
        }
        assert(self.endpoint_rows().take(i as int) =~= self.endpoint_rows());
        out
    }

    /// The endpoints registered for one machine, in registration order.
    pub fn list_endpoints_for_machine(&self, mid: i64) -> (r: Vec<ZenEndpoint>)
        ensures
            r@.map_values(|e: ZenEndpoint| e@) == endpoints_of(self.endpoint_rows(), mid),
    {
        let ghost rows = self.endpoint_rows();
        let ghost pred = |e: ZenEndpointV| e.machine_id == mid;
        let mut out: Vec<ZenEndpoint> = Vec::new();
        let mut i: usize = 0;
        assert(rows.take(0) =~= Seq::<ZenEndpointV>::empty());
        assert(Seq::<ZenEndpointV>::empty().filter(pred) =~= Seq::<ZenEndpointV>::empty()) by {
            reveal(Seq::filter);
        }
        while i < self.endpoints.len()
            invariant
                rows == self.endpoint_rows(),
                pred == (|e: ZenEndpointV| e.machine_id == mid),
                i <= self.endpoints@.len(),
                out@.map_values(|e: ZenEndpoint| e@) =~= rows.take(i as int).filter(pred),
            decreases self.endpoints@.len() - i,
        {
            let ghost before = out@.map_values(|e: ZenEndpoint| e@);
            assert(rows.take(i + 1) =~= rows.take(i as int).push(rows[i as int]));
            proof {
                rows.take(i as int).lemma_filter_push(rows[i as int], pred);
            }
            if self.endpoints[i].machine_id == mid {
                out.push(self.endpoints[i].copy());
                assert(out@.map_values(|e: ZenEndpoint| e@) =~= before.push(rows[i as int]));
            }
            i = i + 1;
        }
        assert(rows.take(i as int) =~= rows);
        out
    }

    /// The endpoint with the given id.
    pub fn get_endpoint(&self, id: i64) -> (r: Option<ZenEndpoint>)
        ensures
            r matches Some(e) ==> endpoint_by_id(self.endpoint_rows(), id) == Some(e@),
            r is None ==> endpoint_by_id(self.endpoint_rows(), id) is None,
    {
        let ghost rows = self.endpoint_rows();
        let mut i: usize = 0;
        assert(rows.skip(0) =~= rows);
        while i < self.endpoints.len()
            invariant
                rows == self.endpoint_rows(),
                rows.len() == self.endpoints@.len(),
                i <= rows.len(),
                endpoint_by_id(rows, id) == endpoint_by_id(rows.skip(i as int), id),
            decreases rows.len() - i,
        {
            assert(rows.skip(i as int)[0] == self.endpoints@[i as int]@);
            assert(rows.skip(i as int).drop_first() =~= rows.skip(i + 1));
            if self.endpoints[i].id == Some(id) {
                return Some(self.endpoints[i].copy());
            }
            i = i + 1;
        }
        assert(rows.skip(i as int) =~= Seq::<ZenEndpointV>::empty());
        None
    }

    /// Registers an endpoint, or updates the one already registered for the
    /// same machine and port (keeping its id). Returns the endpoint's id.
    pub fn upsert_endpoint(&mut self, ep: &ZenEndpoint) -> (r: Result<i64, UecmError>)
        requires
            old(self).wf(),
        ensures
            final(self).wf(),
            final(self).machine_rows() == old(self).machine_rows(),
            final(self).baseline_rows() == old(self).baseline_rows(),
            final(self).probe_rows() == old(self).probe_rows(),
            final(self).credential_rows() == old(self).credential_rows(),
            match endpoint_slot(old(self).endpoint_rows(), ep.machine_id, ep.declared_port, 0) {
                Some(k) => old(self).endpoint_rows()[k].id matches Some(id) && r == Ok::<
                    i64,
                    UecmError,
                >(id) && final(self).endpoint_rows() == old(self).endpoint_rows().update(
                    k,
                    ZenEndpointV { id: Some(id), ..ep@ },
                ),
                None => old(self).next_endpoint() < i64::MAX ==> (r == Ok::<i64, UecmError>(
                    old(self).next_endpoint(),
                ) && final(self).endpoint_rows() == old(self).endpoint_rows().push(
                    ZenEndpointV { id: Some(old(self).next_endpoint()), ..ep@ },
                )),
            },
            r is Err ==> final(self).endpoint_rows() == old(self).endpoint_rows(),
    {
        let ghost rows = self.endpoint_rows();
        let mut k: usize = 0;
        while k < self.endpoints.len()
            invariant
                rows == self.endpoint_rows(),
                rows == old(self).endpoint_rows(),
                self.wf(),
                self.machine_rows() == old(self).machine_rows(),
                self.baseline_rows() == old(self).baseline_rows(),
                self.probe_rows() == old(self).probe_rows(),
                self.credential_rows() == old(self).credential_rows(),
                self.next_endpoint() == old(self).next_endpoint(),
                rows.len() == self.endpoints@.len(),
                k <= rows.len(),
                endpoint_slot(rows, ep.machine_id, ep.declared_port, 0) == endpoint_slot(
                    rows,
                    ep.machine_id,
                    ep.declared_port,
                    k as int,
                ),
            decreases rows.len() - k,
        {
            if self.endpoints[k].machine_id == ep.machine_id && self.endpoints[k].declared_port
                == ep.declared_port {
                assert(self.endpoints@[k as int].id is Some);
                let id = match self.endpoints[k].id {
                    Some(x) => x,
                    None => 0,
                };
                let mut row = ep.copy();
                row.id = Some(id);
                let ghost old_es = self.endpoints@;
                self.endpoints.set(k, row);
                assert(self.endpoint_rows() =~= rows.update(
                    k as int,
                    ZenEndpointV { id: Some(id), ..ep@ },
                ));
                assert forall|i: int, j: int|
                    0 <= i < j < self.endpoints@.len() implies #[trigger] self.endpoints@[i].id
                    != #[trigger] self.endpoints@[j].id by {
                    assert(old_es[i].id != old_es[j].id);
                    if i == k {
                        assert(old_es[k as int].id == Some(id));
                    }
                    if j == k {
                        assert(old_es[k as int].id == Some(id));
                    }
                }
                return Ok(id);
            }
            k = k + 1;
        }
        if self.next_endpoint_id == i64::MAX {
            return Err(UecmError::Database(String::from_str("endpoint id space exhausted")));
        }
        let id = self.next_endpoint_id;
        let mut row = ep.copy();
        row.id = Some(id);
        self.endpoints.push(row);
        self.next_endpoint_id = id + 1;
        assert(self.endpoint_rows() =~= rows.push(ZenEndpointV { id: Some(id), ..ep@ }));
        Ok(id)
    }

    /// Stores a probe result under the next probe id.
    pub fn insert_probe(&mut self, p: &ZenProbe) -> (r: Result<i64, UecmError>)
        requires
            old(self).wf(),
        ensures
            final(self).wf(),
            final(self).machine_rows() == old(self).machine_rows(),
            final(self).endpoint_rows() == old(self).endpoint_rows(),
            final(self).baseline_rows() == old(self).baseline_rows(),
            final(self).credential_rows() == old(self).credential_rows(),
            old(self).next_probe() < i64::MAX ==> r == Ok::<i64, UecmError>(old(self).next_probe()),
            r matches Ok(id) ==> final(self).probe_rows() == old(self).probe_rows().push(
                ZenProbeV { id: Some(id), ..p@ },
            ),
            r is Err ==> final(self).probe_rows() == old(self).probe_rows(),
    {
        if self.next_probe_id == i64::MAX {
            return Err(UecmError::Database(String::from_str("probe id space exhausted")));
        }
        let id = self.next_probe_id;
        let mut row = p.copy();
        row.id = Some(id);
        let ghost rows = self.probe_rows();
        self.probes.push(row);
        self.next_probe_id = id + 1;
        assert(self.probe_rows() =~= rows.push(ZenProbeV { id: Some(id), ..p@ }));
        Ok(id)
    }

    /// Up to `limit` probes of an endpoint, newest first; a negative limit
    /// returns all of them.
    pub fn list_recent_probes(&self, endpoint_id: i64, limit: i64) -> (r: Vec<ZenProbe>)
        ensures
            r@.map_values(|p: ZenProbe| p@) == latest_probes(
                self.probe_rows(),
                endpoint_id,
                limit as int,
            ),
    {
        let ghost rows = self.probe_rows();
        let mut out: Vec<ZenProbe> = Vec::new();
        let mut left: i128 = limit as i128;
        let n_rows: usize = self.probes.len();
        let mut i: usize = n_rows;
        assert(rows.take(i as int) =~= rows);
        while i > 0 && left != 0
            invariant
                rows == self.probe_rows(),
                rows.len() == self.probes@.len(),
                i <= rows.len(),
                n_rows == rows.len(),
                limit < 0 ==> left < 0,
                limit >= 0 ==> 0 <= left,
                left <= limit,
                left >= limit - (rows.len() - i),
                out@.map_values(|p: ZenProbe| p@) + latest_probes(
                    rows.take(i as int),
                    endpoint_id,
                    left as int,
                ) =~= latest_probes(rows, endpoint_id, limit as int),
            decreases i,
        {
            let ghost pre = rows.take(i as int);
            assert(pre.drop_last() =~= rows.take(i - 1));
            assert(pre.last() == self.probes@[i - 1]@);
            let ghost before = out@.map_values(|p: ZenProbe| p@);
            if self.probes[i - 1].endpoint_id == endpoint_id {
                out.push(self.probes[i - 1].copy());
                assert(out@.map_values(|p: ZenProbe| p@) =~= before.push(pre.last()));
                assert(before.push(pre.last()) + latest_probes(
                    rows.take(i - 1),
                    endpoint_id,
                    left - 1,
                ) =~= before + (seq![pre.last()] + latest_probes(
                    rows.take(i - 1),
                    endpoint_id,
                    left - 1,
                )));
                left = left - 1;
            }
            i = i - 1;
        }
        proof {
            if i == 0 {
                assert(rows.take(0) =~= Seq::<ZenProbeV>::empty());
            }
        }
        assert(latest_probes(rows.take(i as int), endpoint_id, left as int) =~= Seq::<
            ZenProbeV,
        >::empty());
        out
    }

    /// Every baseline, in insertion order.
    pub fn list_baselines(&self) -> (r: Vec<ZenBinaryExpected>)
        ensures
            r@.map_values(|b: ZenBinaryExpected| b@) == self.baseline_rows(),
    {
        let mut out: Vec<ZenBinaryExpected> = Vec::new();
        let mut i: usize = 0;
        while i < self.baselines.len()
            invariant
                i <= self.baselines@.len(),
                out@.map_values(|b: ZenBinaryExpected| b@) =~= self.baseline_rows().take(i as int),
            decreases self.baselines@.len() - i,
        {
            out.push(self.baselines[i].copy());
            assert(self.baseline_rows().take(i + 1) =~= self.baseline_rows().take(i as int).push(
                self.baselines@[i as int]@,
            ));
            i = i + 1;
        }
        assert(self.baseline_rows().take(i as int) =~= self.baseline_rows());
        out
    }

    /// The baseline for a build version and binary kind.
    pub fn find_baseline(&self, version: &str, kind: &str) -> (r: Option<ZenBinaryExpected>)
        ensures
            r matches Some(b) ==> baseline_by_key(self.baseline_rows(), version@, kind@) == Some(
                b@,
            ),
            r is None ==> baseline_by_key(self.baseline_rows(), version@, kind@) is None,
    {
        let ghost rows = self.baseline_rows();
        let v = String::from_str(version);
        let k = String::from_str(kind);
        let mut i: usize = 0;
        assert(rows.skip(0) =~= rows);
        while i < self.baselines.len()
            invariant
                rows == self.baseline_rows(),
                rows.len() == self.baselines@.len(),
                v@ == version@,
                k@ == kind@,
                i <= rows.len(),
                baseline_by_key(rows, version@, kind@) == baseline_by_key(
                    rows.skip(i as int),
                    version@,
                    kind@,
                ),
            decreases rows.len() - i,
        {
            assert(rows.skip(i as int)[0] == self.baselines@[i as int]@);
            assert(rows.skip(i as int).drop_first() =~= rows.skip(i + 1));
            if self.baselines[i].zen_build_version == v && self.baselines[i].binary_kind == k {
                return Some(self.baselines[i].copy());
            }
            i = i + 1;
        }
        assert(rows.skip(i as int) =~= Seq::<BaselineV>::empty());
        None
    }

    /// Adds a baseline unless one with the same build version and kind is
    /// already present; returns whether a row was added.
    pub fn insert_baseline(&mut self, b: &ZenBinaryExpected) -> (r: Result<bool, UecmError>)
        requires
            old(self).wf(),
        ensures
            final(self).wf(),
            final(self).machine_rows() == old(self).machine_rows(),
            final(self).endpoint_rows() == old(self).endpoint_rows(),
            final(self).probe_rows() == old(self).probe_rows(),
            final(self).credential_rows() == old(self).credential_rows(),
            baseline_by_key(old(self).baseline_rows(), b@.zen_build_version, b@.binary_kind)
                is Some ==> r == Ok::<bool, UecmError>(false) && final(self).baseline_rows()
                == old(self).baseline_rows(),
            baseline_by_key(old(self).baseline_rows(), b@.zen_build_version, b@.binary_kind)
                is None ==> r == Ok::<bool, UecmError>(true) && final(self).baseline_rows()
                == old(self).baseline_rows().push(b@),
    {
        if self.find_baseline(b.zen_build_version.as_str(), b.binary_kind.as_str()).is_some() {
            return Ok(false);
        }
        let ghost rows = self.baseline_rows();
        let ghost old_bs = self.baselines@;
        proof {
            assert forall|i: int| 0 <= i < old_bs.len() implies !(#[trigger] old_bs[i].zen_build_version@
                == b.zen_build_version@ && old_bs[i].binary_kind@ == b.binary_kind@) by {
                lemma_no_baseline_match(rows, b.zen_build_version@, b.binary_kind@, i);
                assert(rows[i] == old_bs[i]@);
            }
        }
        self.baselines.push(b.copy());
        assert(self.baseline_rows() =~= rows.push(b@));
        Ok(true)
    }

    fn set_baseline_lock(&mut self, version: &str, kind: &str, by: Option<String>)
        requires
            old(self).wf(),
        ensures
            final(self).wf(),
            final(self).machine_rows() == old(self).machine_rows(),
            final(self).endpoint_rows() == old(self).endpoint_rows(),
            final(self).probe_rows() == old(self).probe_rows(),
            final(self).credential_rows() == old(self).credential_rows(),
            final(self).baseline_rows() == set_lock(
                old(self).baseline_rows(),
                version@,
                kind@,
                opt_view(by),
            ),
    {
        let ghost rows = self.baseline_rows();
        let ghost goal = set_lock(rows, version@, kind@, opt_view(by));
        let v = String::from_str(version);
        let k = String::from_str(kind);
        let mut i: usize = 0;
        while i < self.baselines.len()
            invariant
                self.wf(),
                rows.len() == self.baselines@.len(),
                goal == set_lock(rows, version@, kind@, opt_view(by)),
                v@ == version@,
                k@ == kind@,
                i <= rows.len(),
                forall|j: int| 0 <= j < i ==> #[trigger] self.baselines@[j]@ == goal[j],
                forall|j: int| i <= j < rows.len() ==> #[trigger] self.baselines@[j]@ == rows[j],
                self.machine_rows() == old(self).machine_rows(),
                self.endpoint_rows() == old(self).endpoint_rows(),
                self.probe_rows() == old(self).probe_rows(),
                self.credential_rows() == old(self).credential_rows(),
                rows == old(self).baseline_rows(),
            decreases rows.len() - i,
        {
            if self.baselines[i].zen_build_version == v && self.baselines[i].binary_kind == k {
                let mut row = self.baselines[i].copy();
                row.locked_by = clone_opt(&by);
                let ghost old_bs = self.baselines@;
                self.baselines.set(i, row);
                assert forall|a: int, b: int|
                    0 <= a < b < self.baselines@.len() implies !(
                    #[trigger] self.baselines@[a].zen_build_version@
                    == #[trigger] self.baselines@[b].zen_build_version@
                    && self.baselines@[a].binary_kind@ == self.baselines@[b].binary_kind@) by {
                    assert(!(old_bs[a].zen_build_version@ == old_bs[b].zen_build_version@
                        && old_bs[a].binary_kind@ == old_bs[b].binary_kind@));
                }
            }
            i = i + 1;
        }
        assert(self.baseline_rows() =~= goal);
    }

    /// Marks a baseline as locked by `by` (rows with other keys are untouched;
    /// a missing row is not an error).
    pub fn lock_baseline(&mut self, version: &str, kind: &str, by: &str)
        requires
            old(self).wf(),
        ensures
            final(self).wf(),
            final(self).machine_rows() == old(self).machine_rows(),
            final(self).endpoint_rows() == old(self).endpoint_rows(),
            final(self).probe_rows() == old(self).probe_rows(),
            final(self).credential_rows() == old(self).credential_rows(),
            final(self).baseline_rows() == set_lock(
                old(self).baseline_rows(),
                version@,
                kind@,
                Some(by@),
            ),
    {
        self.set_baseline_lock(version, kind, Some(String::from_str(by)));
    }

    /// Clears the lock marker of a baseline.
    pub fn unlock_baseline(&mut self, version: &str, kind: &str)
        requires
            old(self).wf(),
        ensures
            final(self).wf(),
            final(self).machine_rows() == old(self).machine_rows(),
            final(self).endpoint_rows() == old(self).endpoint_rows(),
            final(self).probe_rows() == old(self).probe_rows(),
            final(self).credential_rows() == old(self).credential_rows(),
            final(self).baseline_rows() == set_lock(old(self).baseline_rows(), version@, kind@, None),
    {
        self.set_baseline_lock(version, kind, None);
    }
}

proof fn lemma_filter_ids(rows: Seq<ZenEndpointV>, mid: i64)
    requires
        forall|i: int| 0 <= i < rows.len() ==> (#[trigger] rows[i]).id is Some,
    ensures
        forall|i: int|
            0 <= i < endpoints_of(rows, mid).len() ==> (#[trigger] endpoints_of(rows, mid)[i]).id
                is Some,
    decreases rows.len(),
{
    reveal(Seq::filter);
    if rows.len() > 0 {
        assert forall|i: int| 0 <= i < rows.drop_last().len() implies (
        #[trigger] rows.drop_last()[i]).id is Some by {
            assert(rows.drop_last()[i] == rows[i]);
        }
        lemma_filter_ids(rows.drop_last(), mid);
        assert(rows.last() == rows[rows.len() - 1]);
    }
}

proof fn lemma_endpoint_by_id_key(rows: Seq<ZenEndpointV>, id: i64)
    ensures
        endpoint_by_id(rows, id) matches Some(e) ==> e.id == Some(id),
    decreases rows.len(),
{
    if rows.len() > 0 {
        lemma_endpoint_by_id_key(rows.drop_first(), id);
    }
}

proof fn lemma_no_baseline_match(rows: Seq<BaselineV>, version: Seq<char>, kind: Seq<char>, i: int)
    requires
        baseline_by_key(rows, version, kind) is None,
        0 <= i < rows.len(),
    ensures
        !(rows[i].zen_build_version == version && rows[i].binary_kind == kind),
    decreases rows.len(),
{
    if i > 0 {
        assert(rows.drop_first()[i - 1] == rows[i]);
        lemma_no_baseline_match(rows.drop_first(), version, kind, i - 1);
    }
}

/// A machine found by IP in a well-formed inventory has an id.
pub proof fn lemma_machine_by_ip_has_id(db: &Db, ip: Seq<char>)
    requires
        db.wf(),
    ensures
        machine_by_ip(db.machine_rows(), ip) matches Some(m) ==> m.id is Some,
{
    let rows = db.machine_rows();
    assert forall|i: int| 0 <= i < rows.len() implies (#[trigger] rows[i]).id is Some by {
        assert(rows[i] == db.machines@[i]@);
    }
    lemma_machine_by_ip_in(rows, ip);
}

proof fn lemma_machine_by_ip_in(rows: Seq<MachineV>, ip: Seq<char>)
    requires
        forall|i: int| 0 <= i < rows.len() ==> (#[trigger] rows[i]).id is Some,
    ensures
        machine_by_ip(rows, ip) matches Some(m) ==> m.id is Some,
    decreases rows.len(),
{
    if rows.len() > 0 {
        assert forall|i: int| 0 <= i < rows.drop_first().len() implies (
        #[trigger] rows.drop_first()[i]).id is Some by {
            assert(rows.drop_first()[i] == rows[i + 1]);
        }
        lemma_machine_by_ip_in(rows.drop_first(), ip);
    }
}

proof fn lemma_no_alias_match(rows: Seq<CredentialRecordV>, alias: Seq<char>, i: int)
    requires
        credential_by_alias(rows, alias) is None,
        0 <= i < rows.len(),
    ensures
        rows[i].alias != alias,
    decreases rows.len(),
{
    if i > 0 {
        assert(rows.drop_first()[i - 1] == rows[i]);
        lemma_no_alias_match(rows.drop_first(), alias, i - 1);
    }
}

proof fn lemma_credential_absent(rows: Seq<CredentialRecordV>, alias: Seq<char>)
    requires
        forall|i: int| 0 <= i < rows.len() ==> (#[trigger] rows[i]).alias != alias,
    ensures
        credential_by_alias(rows, alias) is None,
    decreases rows.len(),
{
    if rows.len() > 0 {
        assert forall|i: int| 0 <= i < rows.drop_first().len() implies (
        #[trigger] rows.drop_first()[i]).alias != alias by {
            assert(rows.drop_first()[i] == rows[i + 1]);
        }
        lemma_credential_absent(rows.drop_first(), alias);
    }
}

proof fn lemma_filter_keeps_all(rows: Seq<CredentialRecordV>, alias: Seq<char>)
    requires
        forall|i: int| 0 <= i < rows.len() ==> (#[trigger] rows[i]).alias != alias,
    ensures
        rows.filter(|c: CredentialRecordV| c.alias != alias) == rows,
    decreases rows.len(),
{
    reveal(Seq::filter);
    if rows.len() > 0 {
        assert forall|i: int| 0 <= i < rows.drop_last().len() implies (
        #[trigger] rows.drop_last()[i]).alias != alias by {
            assert(rows.drop_last()[i] == rows[i]);
        }
        lemma_filter_keeps_all(rows.drop_last(), alias);
        assert(rows.drop_last().push(rows.last()) =~= rows);
    } else {
        assert(rows.filter(|c: CredentialRecordV| c.alias != alias) =~= rows);
    }
}

proof fn lemma_filter_drops_one(rows: Seq<CredentialRecordV>, alias: Seq<char>, k: int)
    requires
        0 <= k < rows.len(),
        rows[k].alias == alias,
        forall|j: int| 0 <= j < rows.len() && j != k ==> (#[trigger] rows[j]).alias != alias,
    ensures
        rows.filter(|c: CredentialRecordV| c.alias != alias) == rows.remove(k),
    decreases rows.len(),
{
    reveal(Seq::filter);
    let pred = |c: CredentialRecordV| c.alias != alias;
    if k == rows.len() - 1 {
        assert forall|i: int| 0 <= i < rows.drop_last().len() implies (
        #[trigger] rows.drop_last()[i]).alias != alias by {
            assert(rows.drop_last()[i] == rows[i]);
        }
        lemma_filter_keeps_all(rows.drop_last(), alias);
        assert(rows.remove(k) =~= rows.drop_last());
    } else {
        assert forall|j: int|
            0 <= j < rows.drop_last().len() && j != k implies (#[trigger] rows.drop_last()[j]).alias
            != alias by {
            assert(rows.drop_last()[j] == rows[j]);
        }
        lemma_filter_drops_one(rows.drop_last(), alias, k);
        assert(rows.last().alias != alias);
        assert(rows.drop_last().remove(k).push(rows.last()) =~= rows.remove(k));
    }
}

proof fn lemma_no_ip_match(rows: Seq<MachineV>, ip: Seq<char>, i: int)
    requires
        machine_by_ip(rows, ip) is None,
        0 <= i < rows.len(),
    ensures
        rows[i].ip != ip,
    decreases rows.len(),
{
    if i > 0 {
        assert(rows.drop_first()[i - 1] == rows[i]);
        lemma_no_ip_match(rows.drop_first(), ip, i - 1);
    }
}


} // verus!

verus! {

// ---------------------------------------------------------------------------
// snapshots
// ---------------------------------------------------------------------------

/// Every row of an inventory and the ids it hands out next, as plain
/// values: what is saved between runs and read back.
#[derive(Debug)]
pub struct Snapshot {
    pub machines: Vec<Machine>,
    pub next_machine_id: i64,
    pub credentials: Vec<CredentialRecord>,
    pub endpoints: Vec<ZenEndpoint>,
    pub next_endpoint_id: i64,
    pub probes: Vec<ZenProbe>,
    pub next_probe_id: i64,
    pub baselines: Vec<ZenBinaryExpected>,
    pub installs: Vec<UeInstall>,
    pub gpus: Vec<GpuInfo>,
    pub runs: Vec<ScanRun>,
    pub next_run_id: i64,
    pub projects: Vec<Project>,
    pub next_project_id: i64,
    pub locations: Vec<ProjectLocation>,
    pub next_location_id: i64,
    pub results: Vec<HealthResult>,
    pub shares: Vec<ShareConfig>,
    pub next_share_id: i64,
    pub findings: Vec<IniFinding>,
    pub next_finding_id: i64,
}

/// Whether a snapshot is a well-formed inventory: the invariant of `Db`.
pub open spec fn snapshot_wf(s: Snapshot) -> bool {
    &&& s.next_machine_id >= 1
    &&& forall|i: int|
        0 <= i < s.machines@.len() ==> ((#[trigger] s.machines@[i]).id matches Some(x) && 1 <= x
            < s.next_machine_id)
    &&& forall|i: int, j: int|
        0 <= i < j < s.machines@.len() ==> #[trigger] s.machines@[i].id != #[trigger] s.machines@[j].id
    &&& forall|i: int, j: int|
        0 <= i < j < s.machines@.len() ==> #[trigger] s.machines@[i].ip@ != #[trigger] s.machines@[j].ip@
    &&& forall|i: int, j: int|
        0 <= i < j < s.credentials@.len() ==> #[trigger] s.credentials@[i].alias@
            != #[trigger] s.credentials@[j].alias@
    &&& s.next_endpoint_id >= 1
    &&& s.next_probe_id >= 1
    &&& forall|i: int|
        0 <= i < s.endpoints@.len() ==> ((#[trigger] s.endpoints@[i]).id matches Some(x) && 1 <= x
            < s.next_endpoint_id)
    &&& forall|i: int, j: int|
        0 <= i < j < s.endpoints@.len() ==> #[trigger] s.endpoints@[i].id
            != #[trigger] s.endpoints@[j].id
    &&& forall|i: int, j: int|
        0 <= i < j < s.baselines@.len() ==> !(#[trigger] s.baselines@[i].zen_build_version@
            == #[trigger] s.baselines@[j].zen_build_version@ && s.baselines@[i].binary_kind@
            == s.baselines@[j].binary_kind@)
    &&& s.next_run_id >= 1
    &&& forall|i: int| 0 <= i < s.runs@.len() ==> 1 <= (#[trigger] s.runs@[i]).id < s.next_run_id
    &&& forall|i: int, j: int| 0 <= i < j < s.runs@.len() ==> #[trigger] s.runs@[i].id != #[trigger] s.runs@[j].id
    &&& s.next_project_id >= 1
    &&& forall|i: int|
        0 <= i < s.projects@.len() ==> ((#[trigger] s.projects@[i]).id matches Some(x) && 1 <= x
            < s.next_project_id)
    &&& s.next_location_id >= 1
    &&& forall|i: int|
        0 <= i < s.locations@.len() ==> ((#[trigger] s.locations@[i]).id matches Some(x) && 1 <= x
            < s.next_location_id)
    &&& s.next_share_id >= 1
    &&& forall|i: int|
        0 <= i < s.shares@.len() ==> ((#[trigger] s.shares@[i]).id matches Some(x) && 1 <= x < s.next_share_id)
    &&& s.next_finding_id >= 1
    &&& forall|i: int|
        0 <= i < s.findings@.len() ==> ((#[trigger] s.findings@[i]).id matches Some(x) && 1 <= x
            < s.next_finding_id)
}

fn machines_ok(ms: &Vec<Machine>, next: i64) -> (r: bool)
    ensures
        r == ((forall|i: int|
            0 <= i < ms@.len() ==> ((#[trigger] ms@[i]).id matches Some(x) && 1 <= x < next)) && (
        forall|i: int, j: int| 0 <= i < j < ms@.len() ==> #[trigger] ms@[i].id != #[trigger] ms@[j].id)
            && (forall|i: int, j: int|
            0 <= i < j < ms@.len() ==> #[trigger] ms@[i].ip@ != #[trigger] ms@[j].ip@)),
{
    let mut i: usize = 0;
    while i < ms.len()
        invariant
            i <= ms@.len(),
            forall|a: int| 0 <= a < i ==> ((#[trigger] ms@[a]).id matches Some(x) && 1 <= x < next),
            forall|a: int, b: int| 0 <= a < b < i ==> #[trigger] ms@[a].id != #[trigger] ms@[b].id,
            forall|a: int, b: int| 0 <= a < b < i ==> #[trigger] ms@[a].ip@ != #[trigger] ms@[b].ip@,
        decreases ms@.len() - i,
    {
        match ms[i].id {
            Some(x) => {
                if !(1 <= x && x < next) {
                    return false;
                }
            },
            None => {
                return false;
            },
        }
        let mut j: usize = 0;
        while j < i
            invariant
                i < ms@.len(),
                j <= i,
                forall|a: int| 0 <= a < j ==> #[trigger] ms@[a].id != ms@[i as int].id && ms@[a].ip@
                    != ms@[i as int].ip@,
            decreases i - j,
        {
            if ms[j].id == ms[i].id || ms[j].ip == ms[i].ip {
                return false;
            }
            j = j + 1;
        }
        i = i + 1;
    }
    true
}

fn credentials_ok(cs: &Vec<CredentialRecord>) -> (r: bool)
    ensures
        r == (forall|i: int, j: int|
            0 <= i < j < cs@.len() ==> #[trigger] cs@[i].alias@ != #[trigger] cs@[j].alias@),
{
    let mut i: usize = 0;
    while i < cs.len()
        invariant
            i <= cs@.len(),
            forall|a: int, b: int| 0 <= a < b < i ==> #[trigger] cs@[a].alias@ != #[trigger] cs@[b].alias@,
        decreases cs@.len() - i,
    {
        let mut j: usize = 0;
        while j < i
            invariant
                i < cs@.len(),
                j <= i,
                forall|a: int| 0 <= a < j ==> #[trigger] cs@[a].alias@ != cs@[i as int].alias@,
            decreases i - j,
        {
            if cs[j].alias == cs[i].alias {
                return false;
            }
            j = j + 1;
        }
        i = i + 1;
    }
    true
}

fn endpoints_ok(es: &Vec<ZenEndpoint>, next: i64) -> (r: bool)
    ensures
        r == ((forall|i: int|
            0 <= i < es@.len() ==> ((#[trigger] es@[i]).id matches Some(x) && 1 <= x < next)) && (
        forall|i: int, j: int| 0 <= i < j < es@.len() ==> #[trigger] es@[i].id != #[trigger] es@[j].id)),
{
    let mut i: usize = 0;
    while i < es.len()
        invariant
            i <= es@.len(),
            forall|a: int| 0 <= a < i ==> ((#[trigger] es@[a]).id matches Some(x) && 1 <= x < next),
            forall|a: int, b: int| 0 <= a < b < i ==> #[trigger] es@[a].id != #[trigger] es@[b].id,
        decreases es@.len() - i,
    {
        match es[i].id {
            Some(x) => {
                if !(1 <= x && x < next) {
                    return false;
                }
            },
            None => {
                return false;
            },
        }
        let mut j: usize = 0;
        while j < i
            invariant
                i < es@.len(),
                j <= i,
                forall|a: int| 0 <= a < j ==> #[trigger] es@[a].id != es@[i as int].id,
            decreases i - j,
        {
            if es[j].id == es[i].id {
                return false;
            }
            j = j + 1;
        }
        i = i + 1;
    }
    true
}

fn baselines_ok(bs: &Vec<ZenBinaryExpected>) -> (r: bool)
    ensures
        r == (forall|i: int, j: int|
            0 <= i < j < bs@.len() ==> !(#[trigger] bs@[i].zen_build_version@
                == #[trigger] bs@[j].zen_build_version@ && bs@[i].binary_kind@ == bs@[j].binary_kind@)),
{
    let mut i: usize = 0;
    while i < bs.len()
        invariant
            i <= bs@.len(),
            forall|a: int, b: int|
                0 <= a < b < i ==> !(#[trigger] bs@[a].zen_build_version@
                    == #[trigger] bs@[b].zen_build_version@ && bs@[a].binary_kind@ == bs@[b].binary_kind@),
        decreases bs@.len() - i,
    {
        let mut j: usize = 0;
        while j < i
            invariant
                i < bs@.len(),
                j <= i,
                forall|a: int|
                    0 <= a < j ==> !(#[trigger] bs@[a].zen_build_version@ == bs@[i as int].zen_build_version@
                        && bs@[a].binary_kind@ == bs@[i as int].binary_kind@),
            decreases i - j,
        {
            if bs[j].zen_build_version == bs[i].zen_build_version && bs[j].binary_kind == bs[i].binary_kind {
                return false;
            }
            j = j + 1;
        }
        i = i + 1;
    }
    true
}

impl Db {
    /// Every probe row, oldest first.
    pub fn list_probes(&self) -> (r: Vec<ZenProbe>)
        ensures
            r@.map_values(|p: ZenProbe| p@) == self.probe_rows(),
    {
        let mut out: Vec<ZenProbe> = Vec::new();
        let mut i: usize = 0;
        while i < self.probes.len()
            invariant
                i <= self.probes@.len(),
                out@.map_values(|p: ZenProbe| p@) =~= self.probe_rows().take(i as int),
            decreases self.probes@.len() - i,
        {
            out.push(self.probes[i].copy());
            assert(self.probe_rows().take(i + 1) =~= self.probe_rows().take(i as int).push(
                self.probes@[i as int]@,
            ));
            i = i + 1;
        }
        assert(self.probe_rows().take(i as int) =~= self.probe_rows());
        out
    }

    /// Everything the inventory holds, to be saved.
    pub fn snapshot(&self) -> (s: Snapshot)
        requires
            self.wf(),
        ensures
            s.machines@.map_values(|m: Machine| m@) == self.machine_rows(),
            s.credentials@.map_values(|c: CredentialRecord| c@) == self.credential_rows(),
            s.endpoints@.map_values(|e: ZenEndpoint| e@) == self.endpoint_rows(),
            s.probes@.map_values(|p: ZenProbe| p@) == self.probe_rows(),
            s.baselines@.map_values(|b: ZenBinaryExpected| b@) == self.baseline_rows(),
            s.next_machine_id == self.next_machine(),
            s.next_endpoint_id == self.next_endpoint(),
            s.next_probe_id == self.next_probe(),
            s.installs@.map_values(|x: UeInstall| x@) == self.install_rows(),
            s.gpus@.map_values(|x: GpuInfo| x@) == self.gpu_rows(),
            s.runs@.map_values(|x: ScanRun| x@) == self.run_rows(),
            s.next_run_id == self.next_run(),
            s.projects@.map_values(|x: Project| x@) == self.project_rows(),
            s.next_project_id == self.next_project(),
            s.locations@.map_values(|x: ProjectLocation| x@) == self.location_rows(),
            s.next_location_id == self.next_location(),
            s.results@.map_values(|x: HealthResult| x@) == self.result_rows(),
            s.shares@.map_values(|x: ShareConfig| x@) == self.share_rows(),
            s.next_share_id == self.next_share(),
            s.findings@.map_values(|x: IniFinding| x@) == self.finding_rows(),
            s.next_finding_id == self.next_finding(),
    {
        Snapshot {
            machines: self.list_machines(),
            next_machine_id: self.next_machine_id,
            credentials: self.list_credentials(),
            endpoints: self.list_endpoints(),
            next_endpoint_id: self.next_endpoint_id,
            probes: self.list_probes(),
            next_probe_id: self.next_probe_id,
            baselines: self.list_baselines(),
            installs: self.all_installs(),
            gpus: self.all_gpus(),
            runs: self.all_runs(),
            next_run_id: self.next_run_id,
            projects: self.all_projects(),
            next_project_id: self.next_project_id,
            locations: self.all_locations(),
            next_location_id: self.next_location_id,
            results: self.all_results(),
            shares: self.all_shares(),
            next_share_id: self.next_share_id,
            findings: self.all_findings(),
            next_finding_id: self.next_finding_id,
        }
    }

    /// Reads a saved inventory back: the same rows and next ids, provided
    /// they form a well-formed inventory; otherwise nothing.
    pub fn restore(s: Snapshot) -> (r: Option<Db>)
        ensures
            r is Some <==> snapshot_wf(s),
            r matches Some(db) ==> {
                &&& db.wf()
                &&& db.machine_rows() == s.machines@.map_values(|m: Machine| m@)
                &&& db.credential_rows() == s.credentials@.map_values(|c: CredentialRecord| c@)
                &&& db.endpoint_rows() == s.endpoints@.map_values(|e: ZenEndpoint| e@)
                &&& db.probe_rows() == s.probes@.map_values(|p: ZenProbe| p@)
                &&& db.baseline_rows() == s.baselines@.map_values(|b: ZenBinaryExpected| b@)
                &&& db.next_machine() == s.next_machine_id
                &&& db.next_endpoint() == s.next_endpoint_id
                &&& db.next_probe() == s.next_probe_id
                &&& db.install_rows() == s.installs@.map_values(|x: UeInstall| x@)
                &&& db.gpu_rows() == s.gpus@.map_values(|x: GpuInfo| x@)
                &&& db.run_rows() == s.runs@.map_values(|x: ScanRun| x@)
                &&& db.next_run() == s.next_run_id
                &&& db.project_rows() == s.projects@.map_values(|x: Project| x@)
                &&& db.next_project() == s.next_project_id
                &&& db.location_rows() == s.locations@.map_values(|x: ProjectLocation| x@)
                &&& db.next_location() == s.next_location_id
                &&& db.result_rows() == s.results@.map_values(|x: HealthResult| x@)
                &&& db.share_rows() == s.shares@.map_values(|x: ShareConfig| x@)
                &&& db.next_share() == s.next_share_id
                &&& db.finding_rows() == s.findings@.map_values(|x: IniFinding| x@)
                &&& db.next_finding() == s.next_finding_id
            },
    {
        if s.next_machine_id < 1 || s.next_endpoint_id < 1 || s.next_probe_id < 1 || s.next_run_id < 1
            || s.next_project_id < 1 || s.next_location_id < 1 || s.next_share_id < 1
            || s.next_finding_id < 1 {
            return None;
        }
        if !machines_ok(&s.machines, s.next_machine_id) || !credentials_ok(&s.credentials)
            || !endpoints_ok(&s.endpoints, s.next_endpoint_id) || !baselines_ok(&s.baselines)
            || !runs_ok(&s.runs, s.next_run_id) || !projects_ok(&s.projects, s.next_project_id)
            || !locations_ok(&s.locations, s.next_location_id) || !shares_ok(&s.shares, s.next_share_id)
            || !findings_ok(&s.findings, s.next_finding_id) {
            return None;
        }
        Some(
            Db {
                machines: s.machines,
                next_machine_id: s.next_machine_id,
                credentials: s.credentials,
                endpoints: s.endpoints,
                next_endpoint_id: s.next_endpoint_id,
                probes: s.probes,
                next_probe_id: s.next_probe_id,
                baselines: s.baselines,
                installs: s.installs,
                gpus: s.gpus,
                runs: s.runs,
                next_run_id: s.next_run_id,
                projects: s.projects,
                next_project_id: s.next_project_id,
                locations: s.locations,
                next_location_id: s.next_location_id,
                results: s.results,
                shares: s.shares,
                next_share_id: s.next_share_id,
                findings: s.findings,
                next_finding_id: s.next_finding_id,
            },
        )
    }
}

/// Saving an inventory and reading it back gives the same inventory.
pub proof fn lemma_snapshot_roundtrip(db: &Db, s: Snapshot)
    requires
        db.wf(),
        s.machines@.map_values(|m: Machine| m@) == db.machine_rows(),
        s.credentials@.map_values(|c: CredentialRecord| c@) == db.credential_rows(),
        s.endpoints@.map_values(|e: ZenEndpoint| e@) == db.endpoint_rows(),
        s.probes@.map_values(|p: ZenProbe| p@) == db.probe_rows(),
        s.baselines@.map_values(|b: ZenBinaryExpected| b@) == db.baseline_rows(),
        s.next_machine_id == db.next_machine(),
        s.next_endpoint_id == db.next_endpoint(),
        s.next_probe_id == db.next_probe(),
        s.runs@.map_values(|x: ScanRun| x@) == db.run_rows(),
        s.next_run_id == db.next_run(),
        s.projects@.map_values(|x: Project| x@) == db.project_rows(),
        s.next_project_id == db.next_project(),
        s.locations@.map_values(|x: ProjectLocation| x@) == db.location_rows(),
        s.next_location_id == db.next_location(),
        s.shares@.map_values(|x: ShareConfig| x@) == db.share_rows(),
        s.next_share_id == db.next_share(),
        s.findings@.map_values(|x: IniFinding| x@) == db.finding_rows(),
        s.next_finding_id == db.next_finding(),
    ensures
        snapshot_wf(s),
{
    assert(s.machines@.map_values(|m: Machine| m@).len() == db.machine_rows().len());
    assert(s.credentials@.map_values(|c: CredentialRecord| c@).len() == db.credential_rows().len());
    assert(s.endpoints@.map_values(|e: ZenEndpoint| e@).len() == db.endpoint_rows().len());
    assert(s.baselines@.map_values(|b: ZenBinaryExpected| b@).len() == db.baseline_rows().len());
    assert forall|i: int| 0 <= i < s.machines@.len() implies #[trigger] s.machines@[i]@ == db.machines@[i]@ by {
        assert(s.machines@.map_values(|m: Machine| m@)[i] == db.machine_rows()[i]);
    }
    assert forall|i: int| 0 <= i < s.credentials@.len() implies #[trigger] s.credentials@[i]@
        == db.credentials@[i]@ by {
        assert(s.credentials@.map_values(|c: CredentialRecord| c@)[i] == db.credential_rows()[i]);
    }
    assert forall|i: int| 0 <= i < s.endpoints@.len() implies #[trigger] s.endpoints@[i]@ == db.endpoints@[i]@ by {
        assert(s.endpoints@.map_values(|e: ZenEndpoint| e@)[i] == db.endpoint_rows()[i]);
    }
    assert forall|i: int| 0 <= i < s.baselines@.len() implies #[trigger] s.baselines@[i]@ == db.baselines@[i]@ by {
        assert(s.baselines@.map_values(|b: ZenBinaryExpected| b@)[i] == db.baseline_rows()[i]);
    }
    assert forall|i: int| 0 <= i < s.machines@.len() implies ((#[trigger] s.machines@[i]).id matches Some(
        x,
    ) && 1 <= x < s.next_machine_id) by {
        assert(s.machines@[i]@ == db.machines@[i]@);
    }
    assert forall|i: int, j: int| 0 <= i < j < s.machines@.len() implies #[trigger] s.machines@[i].id
        != #[trigger] s.machines@[j].id && s.machines@[i].ip@ != s.machines@[j].ip@ by {
        assert(s.machines@[i]@ == db.machines@[i]@);
        assert(s.machines@[j]@ == db.machines@[j]@);
        assert(db.machines@[i].id != db.machines@[j].id);
        assert(db.machines@[i].ip@ != db.machines@[j].ip@);
    }
    assert forall|i: int, j: int| 0 <= i < j < s.credentials@.len() implies #[trigger] s.credentials@[i].alias@
        != #[trigger] s.credentials@[j].alias@ by {
        assert(s.credentials@[i]@ == db.credentials@[i]@);
        assert(s.credentials@[j]@ == db.credentials@[j]@);
        assert(db.credentials@[i].alias@ != db.credentials@[j].alias@);
    }
    assert forall|i: int| 0 <= i < s.endpoints@.len() implies ((#[trigger] s.endpoints@[i]).id matches Some(
        x,
    ) && 1 <= x < s.next_endpoint_id) by {
        assert(s.endpoints@[i]@ == db.endpoints@[i]@);
    }
    assert forall|i: int, j: int| 0 <= i < j < s.endpoints@.len() implies #[trigger] s.endpoints@[i].id
        != #[trigger] s.endpoints@[j].id by {
        assert(s.endpoints@[i]@ == db.endpoints@[i]@);
        assert(s.endpoints@[j]@ == db.endpoints@[j]@);
        assert(db.endpoints@[i].id != db.endpoints@[j].id);
    }
    assert forall|i: int, j: int| 0 <= i < j < s.baselines@.len() implies !(
    #[trigger] s.baselines@[i].zen_build_version@ == #[trigger] s.baselines@[j].zen_build_version@
        && s.baselines@[i].binary_kind@ == s.baselines@[j].binary_kind@) by {
        assert(s.baselines@[i]@ == db.baselines@[i]@);
        assert(s.baselines@[j]@ == db.baselines@[j]@);
        assert(!(db.baselines@[i].zen_build_version@ == db.baselines@[j].zen_build_version@
            && db.baselines@[i].binary_kind@ == db.baselines@[j].binary_kind@));
    }
    assert(s.runs@.map_values(|x: ScanRun| x@).len() == db.run_rows().len());
    assert forall|i: int| 0 <= i < s.runs@.len() implies #[trigger] s.runs@[i].id == db.runs@[i].id by {
        assert(s.runs@.map_values(|x: ScanRun| x@)[i] == db.run_rows()[i]);
    }
    assert forall|i: int| 0 <= i < s.runs@.len() implies 1 <= (#[trigger] s.runs@[i]).id < s.next_run_id by {
        assert(s.runs@[i].id == db.runs@[i].id);
    }
    assert forall|i: int, j: int| 0 <= i < j < s.runs@.len() implies #[trigger] s.runs@[i].id
        != #[trigger] s.runs@[j].id by {
        assert(s.runs@[i].id == db.runs@[i].id);
        assert(s.runs@[j].id == db.runs@[j].id);
    }
    assert(s.projects@.map_values(|x: Project| x@).len() == db.project_rows().len());
    assert forall|i: int| 0 <= i < s.projects@.len() implies ((#[trigger] s.projects@[i]).id matches Some(
        x,
    ) && 1 <= x < s.next_project_id) by {
        assert(s.projects@.map_values(|x: Project| x@)[i] == db.project_rows()[i]);
        assert(db.projects@[i].id == db.project_rows()[i].id);
    }
    assert(s.locations@.map_values(|x: ProjectLocation| x@).len() == db.location_rows().len());
    assert forall|i: int| 0 <= i < s.locations@.len() implies ((#[trigger] s.locations@[i]).id matches Some(
        x,
    ) && 1 <= x < s.next_location_id) by {
        assert(s.locations@.map_values(|x: ProjectLocation| x@)[i] == db.location_rows()[i]);
        assert(db.locations@[i].id == db.location_rows()[i].id);
    }
    assert(s.shares@.map_values(|x: ShareConfig| x@).len() == db.share_rows().len());
    assert forall|i: int| 0 <= i < s.shares@.len() implies ((#[trigger] s.shares@[i]).id matches Some(x) && 1
        <= x < s.next_share_id) by {
        assert(s.shares@.map_values(|x: ShareConfig| x@)[i] == db.share_rows()[i]);
        assert(db.shares@[i].id == db.share_rows()[i].id);
    }
    assert(s.findings@.map_values(|x: IniFinding| x@).len() == db.finding_rows().len());
    assert forall|i: int| 0 <= i < s.findings@.len() implies ((#[trigger] s.findings@[i]).id matches Some(x) && 1
        <= x < s.next_finding_id) by {
        assert(s.findings@.map_values(|x: IniFinding| x@)[i] == db.finding_rows()[i]);
        assert(db.findings@[i].id == db.finding_rows()[i].id);
    }
}


/// Whether a engine install row belongs to machine `mid`.
pub open spec fn install_of(mid: i64) -> spec_fn(UeInstallV) -> bool {
    |r: UeInstallV| r.machine_id == mid
}

/// Whether a engine install row belongs to another machine than `mid`.
pub open spec fn install_not_of(mid: i64) -> spec_fn(UeInstallV) -> bool {
    |r: UeInstallV| r.machine_id != mid
}

impl Db {
    /// The engine install rows, in the order stored.
    pub closed spec fn install_rows(&self) -> Seq<UeInstallV> {
        self.installs@.map_values(|r: UeInstall| r@)
    }

    /// The engine install rows of machine `mid`, in the order stored.
    pub fn installs_for(&self, mid: i64) -> (r: Vec<UeInstall>)
        ensures
            r@.map_values(|x: UeInstall| x@) == self.install_rows().filter(install_of(mid)),
    {
        let ghost rows = self.install_rows();
        let ghost pred = install_of(mid);
        let mut out: Vec<UeInstall> = Vec::new();
        let mut i: usize = 0;
        assert(rows.take(0).filter(pred) =~= Seq::<UeInstallV>::empty()) by {
            reveal(Seq::filter);
        }
        while i < self.installs.len()
            invariant
                rows == self.install_rows(),
                pred == install_of(mid),
                i <= self.installs@.len(),
                out@.map_values(|x: UeInstall| x@) =~= rows.take(i as int).filter(pred),
            decreases self.installs@.len() - i,
        {
            let x = &self.installs[i];
            assert(rows[i as int] == x@);
            assert(rows.take(i + 1) =~= rows.take(i as int).push(x@));
            proof {
                rows.take(i as int).lemma_filter_push(x@, pred);
            }
            if x.machine_id == mid {
                let ghost before = out@.map_values(|y: UeInstall| y@);
                out.push(x.copy());
                assert(out@.map_values(|y: UeInstall| y@) =~= before.push(x@));
            }
            i = i + 1;
        }
        assert(rows.take(i as int) =~= rows);
        out
    }

    /// Replaces the engine install rows of machine `mid` with `rows`; the rows of
    /// other machines stay as they were.
    pub fn replace_installs(&mut self, mid: i64, rows: Vec<UeInstall>)
        requires
            old(self).wf(),
        ensures
            final(self).wf(),
            final(self).install_rows() == old(self).install_rows().filter(install_not_of(mid)) + rows@.map_values(
                |x: UeInstall| x@,
            ),
            final(self).gpu_rows() == old(self).gpu_rows(),
            final(self).machine_rows() == old(self).machine_rows(),
            final(self).credential_rows() == old(self).credential_rows(),
            final(self).endpoint_rows() == old(self).endpoint_rows(),
            final(self).probe_rows() == old(self).probe_rows(),
            final(self).baseline_rows() == old(self).baseline_rows(),
            final(self).next_machine() == old(self).next_machine(),
    {
        let ghost old_rows = self.install_rows();
        let ghost pred = install_not_of(mid);
        let mut kept: Vec<UeInstall> = Vec::new();
        let mut i: usize = 0;
        assert(old_rows.take(0).filter(pred) =~= Seq::<UeInstallV>::empty()) by {
            reveal(Seq::filter);
        }
        while i < self.installs.len()
            invariant
                old_rows == self.install_rows(),
                pred == install_not_of(mid),
                i <= self.installs@.len(),
                kept@.map_values(|x: UeInstall| x@) =~= old_rows.take(i as int).filter(pred),
            decreases self.installs@.len() - i,
        {
            let x = &self.installs[i];
            assert(old_rows[i as int] == x@);
            assert(old_rows.take(i + 1) =~= old_rows.take(i as int).push(x@));
            proof {
                old_rows.take(i as int).lemma_filter_push(x@, pred);
            }
            if x.machine_id != mid {
                let ghost before = kept@.map_values(|y: UeInstall| y@);
                kept.push(x.copy());
                assert(kept@.map_values(|y: UeInstall| y@) =~= before.push(x@));
            }
            i = i + 1;
        }
        assert(old_rows.take(i as int) =~= old_rows);
        let ghost base = kept@.map_values(|y: UeInstall| y@);
        let mut j: usize = 0;
        while j < rows.len()
            invariant
                j <= rows@.len(),
                kept@.map_values(|y: UeInstall| y@) =~= base + rows@.map_values(|y: UeInstall| y@).take(j as int),
            decreases rows@.len() - j,
        {
            let ghost before = kept@.map_values(|y: UeInstall| y@);
            kept.push(rows[j].copy());
            assert(kept@.map_values(|y: UeInstall| y@) =~= before.push(rows@[j as int]@));
            assert(rows@.map_values(|y: UeInstall| y@).take(j + 1) =~= rows@.map_values(|y: UeInstall| y@).take(
                j as int,
            ).push(rows@[j as int]@));
            j = j + 1;
        }
        assert(rows@.map_values(|y: UeInstall| y@).take(j as int) =~= rows@.map_values(|y: UeInstall| y@));
        self.installs = kept;
    }
}

/// Whether a GPU row belongs to machine `mid`.
pub open spec fn gpu_of(mid: i64) -> spec_fn(GpuInfoV) -> bool {
    |r: GpuInfoV| r.machine_id == mid
}

/// Whether a GPU row belongs to another machine than `mid`.
pub open spec fn gpu_not_of(mid: i64) -> spec_fn(GpuInfoV) -> bool {
    |r: GpuInfoV| r.machine_id != mid
}

impl Db {
    /// The GPU rows, in the order stored.
    pub closed spec fn gpu_rows(&self) -> Seq<GpuInfoV> {
        self.gpus@.map_values(|r: GpuInfo| r@)
    }

    /// The GPU rows of machine `mid`, in the order stored.
    pub fn gpus_for(&self, mid: i64) -> (r: Vec<GpuInfo>)
        ensures
            r@.map_values(|x: GpuInfo| x@) == self.gpu_rows().filter(gpu_of(mid)),
    {
        let ghost rows = self.gpu_rows();
        let ghost pred = gpu_of(mid);
        let mut out: Vec<GpuInfo> = Vec::new();
        let mut i: usize = 0;
        assert(rows.take(0).filter(pred) =~= Seq::<GpuInfoV>::empty()) by {
            reveal(Seq::filter);
        }
        while i < self.gpus.len()
            invariant
                rows == self.gpu_rows(),
                pred == gpu_of(mid),
                i <= self.gpus@.len(),
                out@.map_values(|x: GpuInfo| x@) =~= rows.take(i as int).filter(pred),
            decreases self.gpus@.len() - i,
        {
            let x = &self.gpus[i];
            assert(rows[i as int] == x@);
            assert(rows.take(i + 1) =~= rows.take(i as int).push(x@));
            proof {
                rows.take(i as int).lemma_filter_push(x@, pred);
            }
            if x.machine_id == mid {
                let ghost before = out@.map_values(|y: GpuInfo| y@);
                out.push(x.copy());
                assert(out@.map_values(|y: GpuInfo| y@) =~= before.push(x@));
            }
            i = i + 1;
        }
        assert(rows.take(i as int) =~= rows);
        out
    }

    /// Replaces the GPU rows of machine `mid` with `rows`; the rows of
    /// other machines stay as they were.
    pub fn replace_gpus(&mut self, mid: i64, rows: Vec<GpuInfo>)
        requires
            old(self).wf(),
        ensures
            final(self).wf(),
            final(self).gpu_rows() == old(self).gpu_rows().filter(gpu_not_of(mid)) + rows@.map_values(
                |x: GpuInfo| x@,
            ),
            final(self).install_rows() == old(self).install_rows(),
            final(self).machine_rows() == old(self).machine_rows(),
            final(self).credential_rows() == old(self).credential_rows(),
            final(self).endpoint_rows() == old(self).endpoint_rows(),
            final(self).probe_rows() == old(self).probe_rows(),
            final(self).baseline_rows() == old(self).baseline_rows(),
            final(self).next_machine() == old(self).next_machine(),
    {
        let ghost old_rows = self.gpu_rows();
        let ghost pred = gpu_not_of(mid);
        let mut kept: Vec<GpuInfo> = Vec::new();
        let mut i: usize = 0;
        assert(old_rows.take(0).filter(pred) =~= Seq::<GpuInfoV>::empty()) by {
            reveal(Seq::filter);
        }
        while i < self.gpus.len()
            invariant
                old_rows == self.gpu_rows(),
                pred == gpu_not_of(mid),
                i <= self.gpus@.len(),
                kept@.map_values(|x: GpuInfo| x@) =~= old_rows.take(i as int).filter(pred),
            decreases self.gpus@.len() - i,
        {
            let x = &self.gpus[i];
            assert(old_rows[i as int] == x@);
            assert(old_rows.take(i + 1) =~= old_rows.take(i as int).push(x@));
            proof {
                old_rows.take(i as int).lemma_filter_push(x@, pred);
            }
            if x.machine_id != mid {
                let ghost before = kept@.map_values(|y: GpuInfo| y@);
                kept.push(x.copy());
                assert(kept@.map_values(|y: GpuInfo| y@) =~= before.push(x@));
            }
            i = i + 1;
        }
        assert(old_rows.take(i as int) =~= old_rows);
        let ghost base = kept@.map_values(|y: GpuInfo| y@);
        let mut j: usize = 0;
        while j < rows.len()
            invariant
                j <= rows@.len(),
                kept@.map_values(|y: GpuInfo| y@) =~= base + rows@.map_values(|y: GpuInfo| y@).take(j as int),
            decreases rows@.len() - j,
        {
            let ghost before = kept@.map_values(|y: GpuInfo| y@);
            kept.push(rows[j].copy());
            assert(kept@.map_values(|y: GpuInfo| y@) =~= before.push(rows@[j as int]@));
            assert(rows@.map_values(|y: GpuInfo| y@).take(j + 1) =~= rows@.map_values(|y: GpuInfo| y@).take(
                j as int,
            ).push(rows@[j as int]@));
            j = j + 1;
        }
        assert(rows@.map_values(|y: GpuInfo| y@).take(j as int) =~= rows@.map_values(|y: GpuInfo| y@));
        self.gpus = kept;
    }
}


impl Db {
    /// Every engine install row, in the order stored.
    pub fn all_installs(&self) -> (r: Vec<UeInstall>)
        ensures
            r@.map_values(|x: UeInstall| x@) == self.install_rows(),
    {
        let mut out: Vec<UeInstall> = Vec::new();
        let mut i: usize = 0;
        while i < self.installs.len()
            invariant
                i <= self.installs@.len(),
                out@.map_values(|x: UeInstall| x@) =~= self.install_rows().take(i as int),
            decreases self.installs@.len() - i,
        {
            out.push(self.installs[i].copy());
            assert(self.install_rows().take(i + 1) =~= self.install_rows().take(i as int).push(
                self.installs@[i as int]@,
            ));
            i = i + 1;
        }
        assert(self.install_rows().take(i as int) =~= self.install_rows());
        out
    }
}

impl Db {
    /// Every GPU row, in the order stored.
    pub fn all_gpus(&self) -> (r: Vec<GpuInfo>)
        ensures
            r@.map_values(|x: GpuInfo| x@) == self.gpu_rows(),
    {
        let mut out: Vec<GpuInfo> = Vec::new();
        let mut i: usize = 0;
        while i < self.gpus.len()
            invariant
                i <= self.gpus@.len(),
                out@.map_values(|x: GpuInfo| x@) =~= self.gpu_rows().take(i as int),
            decreases self.gpus@.len() - i,
        {
            out.push(self.gpus[i].copy());
            assert(self.gpu_rows().take(i + 1) =~= self.gpu_rows().take(i as int).push(
                self.gpus@[i as int]@,
            ));
            i = i + 1;
        }
        assert(self.gpu_rows().take(i as int) =~= self.gpu_rows());
        out
    }
}


fn runs_ok(rs: &Vec<ScanRun>, next: i64) -> (r: bool)
    ensures
        r == ((forall|i: int| 0 <= i < rs@.len() ==> 1 <= (#[trigger] rs@[i]).id < next) && (forall|
            i: int,
            j: int,
        | 0 <= i < j < rs@.len() ==> #[trigger] rs@[i].id != #[trigger] rs@[j].id)),
{
    let mut i: usize = 0;
    while i < rs.len()
        invariant
            i <= rs@.len(),
            forall|a: int| 0 <= a < i ==> 1 <= (#[trigger] rs@[a]).id < next,
            forall|a: int, b: int| 0 <= a < b < i ==> #[trigger] rs@[a].id != #[trigger] rs@[b].id,
        decreases rs@.len() - i,
    {
        if !(1 <= rs[i].id && rs[i].id < next) {
            return false;
        }
        let mut j: usize = 0;
        while j < i
            invariant
                i < rs@.len(),
                j <= i,
                forall|a: int| 0 <= a < j ==> #[trigger] rs@[a].id != rs@[i as int].id,
            decreases i - j,
        {
            if rs[j].id == rs[i].id {
                return false;
            }
            j = j + 1;
        }
        i = i + 1;
    }
    true
}

/// The runs of one kind, newest first, at most `limit` of them (all of them
/// for a negative limit).
pub open spec fn recent_runs(rows: Seq<ScanRunV>, kind: Seq<char>, limit: i64) -> Seq<ScanRunV> {
    let all = rows.filter(run_of_kind(kind)).reverse();
    if limit < 0 || limit >= all.len() {
        all
    } else {
        all.take(limit as int)
    }
}

/// Whether a run has the given kind.
pub open spec fn run_of_kind(kind: Seq<char>) -> spec_fn(ScanRunV) -> bool {
    |r: ScanRunV| r.kind == kind
}

/// `rows` with the counts of run `id` set.
pub open spec fn with_counts(rows: Seq<ScanRunV>, id: i64, c: RunCounts) -> Seq<ScanRunV> {
    rows.map_values(|r: ScanRunV| if r.id == id { ScanRunV { counts: Some(c), ..r } } else { r })
}

impl Db {
    /// The scan runs, oldest first.
    pub closed spec fn run_rows(&self) -> Seq<ScanRunV> {
        self.runs@.map_values(|r: ScanRun| r@)
    }

    /// The id the next run receives.
    pub closed spec fn next_run(&self) -> i64 {
        self.next_run_id
    }

    /// Every scan run, oldest first.
    pub fn all_runs(&self) -> (r: Vec<ScanRun>)
        ensures
            r@.map_values(|x: ScanRun| x@) == self.run_rows(),
    {
        let mut out: Vec<ScanRun> = Vec::new();
        let mut i: usize = 0;
        while i < self.runs.len()
            invariant
                i <= self.runs@.len(),
                out@.map_values(|x: ScanRun| x@) =~= self.run_rows().take(i as int),
            decreases self.runs@.len() - i,
        {
            out.push(self.runs[i].copy());
            assert(self.run_rows().take(i + 1) =~= self.run_rows().take(i as int).push(self.runs@[i as int]@));
            i = i + 1;
        }
        assert(self.run_rows().take(i as int) =~= self.run_rows());
        out
    }

    /// Opens a run of the given kind over the given machines, under the next
    /// id; fails when the id space is used up.
    pub fn start_run(&mut self, kind: &str, machine_ids: &Vec<i64>) -> (r: Result<i64, UecmError>)
        requires
            old(self).wf(),
        ensures
            final(self).wf(),
            old(self).next_run() < i64::MAX ==> r == Ok::<i64, UecmError>(old(self).next_run())
                && final(self).run_rows() == old(self).run_rows().push(
                ScanRunV { id: old(self).next_run(), kind: kind@, machine_ids: machine_ids@, counts: None },
            ) && final(self).next_run() == old(self).next_run() + 1,
            old(self).next_run() == i64::MAX ==> r is Err && final(self).run_rows() == old(self).run_rows(),
            final(self).machine_rows() == old(self).machine_rows(),
            final(self).credential_rows() == old(self).credential_rows(),
            final(self).endpoint_rows() == old(self).endpoint_rows(),
            final(self).probe_rows() == old(self).probe_rows(),
            final(self).baseline_rows() == old(self).baseline_rows(),
            final(self).install_rows() == old(self).install_rows(),
            final(self).gpu_rows() == old(self).gpu_rows(),
            final(self).next_machine() == old(self).next_machine(),
    {
        if self.next_run_id == i64::MAX {
            return Err(UecmError::Database(String::from_str("scan run ids are used up")));
        }
        let id = self.next_run_id;
        let probe = ScanRun { id, kind: String::from_str(kind), machine_ids: Vec::new(), counts: None };
        let mut run = probe.copy();
        let mut ids: Vec<i64> = Vec::new();
        let mut i: usize = 0;
        while i < machine_ids.len()
            invariant
                i <= machine_ids@.len(),
                ids@ =~= machine_ids@.take(i as int),
            decreases machine_ids@.len() - i,
        {
            ids.push(machine_ids[i]);
            i = i + 1;
        }
        assert(machine_ids@.take(i as int) =~= machine_ids@);
        run.machine_ids = ids;
        let ghost before = self.run_rows();
        self.runs.push(run);
        self.next_run_id = id + 1;
        assert(self.run_rows() =~= before.push(
            ScanRunV { id, kind: kind@, machine_ids: machine_ids@, counts: None },
        ));
        Ok(id)
    }

    /// Records the counts a run ended with.
    pub fn finish_run(&mut self, id: i64, counts: RunCounts)
        requires
            old(self).wf(),
        ensures
            final(self).wf(),
            final(self).run_rows() == with_counts(old(self).run_rows(), id, counts),
            final(self).next_run() == old(self).next_run(),
            final(self).machine_rows() == old(self).machine_rows(),
            final(self).credential_rows() == old(self).credential_rows(),
            final(self).endpoint_rows() == old(self).endpoint_rows(),
            final(self).probe_rows() == old(self).probe_rows(),
            final(self).baseline_rows() == old(self).baseline_rows(),
            final(self).install_rows() == old(self).install_rows(),
            final(self).gpu_rows() == old(self).gpu_rows(),
            final(self).next_machine() == old(self).next_machine(),
    {
        let ghost rows = self.run_rows();
        let mut i: usize = 0;
        while i < self.runs.len()
            invariant
                self.wf(),
                rows == old(self).run_rows(),
                rows.len() == self.runs@.len(),
                i <= rows.len(),
                forall|j: int| 0 <= j < i ==> #[trigger] self.runs@[j]@ == with_counts(rows, id, counts)[j],
                forall|j: int| i <= j < rows.len() ==> #[trigger] self.runs@[j]@ == rows[j],
                self.next_run_id == old(self).next_run_id,
                self.machine_rows() == old(self).machine_rows(),
                self.credential_rows() == old(self).credential_rows(),
                self.endpoint_rows() == old(self).endpoint_rows(),
                self.probe_rows() == old(self).probe_rows(),
                self.baseline_rows() == old(self).baseline_rows(),
                self.install_rows() == old(self).install_rows(),
                self.gpu_rows() == old(self).gpu_rows(),
                self.next_machine() == old(self).next_machine(),
            decreases rows.len() - i,
        {
            if self.runs[i].id == id {
                let mut run = self.runs[i].copy();
                run.counts = Some(counts);
                let ghost old_rs = self.runs@;
                self.runs.set(i, run);
                assert forall|a: int| 0 <= a < self.runs@.len() implies #[trigger] self.runs@[a].id
                    == old_rs[a].id by {}
            }
            i = i + 1;
        }
        assert(self.run_rows() =~= with_counts(rows, id, counts));
    }

    /// The runs of one kind, newest first, at most `limit` of them (all of
    /// them for a negative limit).
    pub fn list_runs(&self, kind: &str, limit: i64) -> (r: Vec<ScanRun>)
        ensures
            r@.map_values(|x: ScanRun| x@) == recent_runs(self.run_rows(), kind@, limit),
    {
        let ghost rows = self.run_rows();
        let ghost pred = run_of_kind(kind@);
        let key = String::from_str(kind);
        let mut matching: Vec<ScanRun> = Vec::new();
        let mut i: usize = 0;
        assert(rows.take(0).filter(pred) =~= Seq::<ScanRunV>::empty()) by {
            reveal(Seq::filter);
        }
        while i < self.runs.len()
            invariant
                rows == self.run_rows(),
                pred == run_of_kind(kind@),
                key@ == kind@,
                i <= self.runs@.len(),
                matching@.map_values(|x: ScanRun| x@) =~= rows.take(i as int).filter(pred),
            decreases self.runs@.len() - i,
        {
            let x = &self.runs[i];
            assert(rows[i as int] == x@);
            assert(rows.take(i + 1) =~= rows.take(i as int).push(x@));
            proof {
                rows.take(i as int).lemma_filter_push(x@, pred);
            }
            if x.kind == key {
                let ghost before = matching@.map_values(|y: ScanRun| y@);
                matching.push(x.copy());
                assert(matching@.map_values(|y: ScanRun| y@) =~= before.push(x@));
            }
            i = i + 1;
        }
        assert(rows.take(i as int) =~= rows);
        let ghost m = matching@.map_values(|y: ScanRun| y@);
        let ghost all = m.reverse();
        let n = matching.len();
        assert(m == rows.filter(pred));
        let keep: usize = if limit < 0 || (limit as u64) >= (n as u64) {
            n
        } else {
            limit as usize
        };
        assert(limit < 0 || limit >= n ==> keep == n);
        assert(!(limit < 0 || limit >= n) ==> keep == limit);
        let mut out: Vec<ScanRun> = Vec::new();
        let mut k: usize = 0;
        while k < keep
            invariant
                m == matching@.map_values(|y: ScanRun| y@),
                all == m.reverse(),
                n == matching@.len(),
                keep <= n,
                k <= keep,
                out@.map_values(|y: ScanRun| y@) =~= all.take(k as int),
            decreases keep - k,
        {
            let ghost before = out@.map_values(|y: ScanRun| y@);
            out.push(matching[n - 1 - k].copy());
            assert(all[k as int] == m[n - 1 - k]);
            assert(out@.map_values(|y: ScanRun| y@) =~= before.push(all[k as int]));
            assert(all.take(k + 1) =~= all.take(k as int).push(all[k as int]));
            k = k + 1;
        }
        assert(all.len() == n);
        if keep == n {
            assert(all.take(n as int) =~= all);
        }
        out
    }
}


fn projects_ok(ps: &Vec<Project>, next: i64) -> (r: bool)
    ensures
        r == (forall|i: int| 0 <= i < ps@.len() ==> ((#[trigger] ps@[i]).id matches Some(x) && 1 <= x < next)),
{
    let mut i: usize = 0;
    while i < ps.len()
        invariant
            i <= ps@.len(),
            forall|a: int| 0 <= a < i ==> ((#[trigger] ps@[a]).id matches Some(x) && 1 <= x < next),
        decreases ps@.len() - i,
    {
        match ps[i].id {
            Some(x) => {
                if !(1 <= x && x < next) {
                    return false;
                }
            },
            None => {
                return false;
            },
        }
        i = i + 1;
    }
    true
}

fn shares_ok(ls: &Vec<ShareConfig>, next: i64) -> (r: bool)
    ensures
        r == (forall|i: int| 0 <= i < ls@.len() ==> ((#[trigger] ls@[i]).id matches Some(x) && 1 <= x < next)),
{
    let mut i: usize = 0;
    while i < ls.len()
        invariant
            i <= ls@.len(),
            forall|a: int| 0 <= a < i ==> ((#[trigger] ls@[a]).id matches Some(x) && 1 <= x < next),
        decreases ls@.len() - i,
    {
        match ls[i].id {
            Some(x) => {
                if !(1 <= x && x < next) {
                    return false;
                }
            },
            None => {
                return false;
            },
        }
        i = i + 1;
    }
    true
}

fn findings_ok(ls: &Vec<IniFinding>, next: i64) -> (r: bool)
    ensures
        r == (forall|i: int| 0 <= i < ls@.len() ==> ((#[trigger] ls@[i]).id matches Some(x) && 1 <= x < next)),
{
    let mut i: usize = 0;
    while i < ls.len()
        invariant
            i <= ls@.len(),
            forall|a: int| 0 <= a < i ==> ((#[trigger] ls@[a]).id matches Some(x) && 1 <= x < next),
        decreases ls@.len() - i,
    {
        match ls[i].id {
            Some(x) => {
                if !(1 <= x && x < next) {
                    return false;
                }
            },
            None => {
                return false;
            },
        }
        i = i + 1;
    }
    true
}

fn locations_ok(ls: &Vec<ProjectLocation>, next: i64) -> (r: bool)
    ensures
        r == (forall|i: int| 0 <= i < ls@.len() ==> ((#[trigger] ls@[i]).id matches Some(x) && 1 <= x < next)),
{
    let mut i: usize = 0;
    while i < ls.len()
        invariant
            i <= ls@.len(),
            forall|a: int| 0 <= a < i ==> ((#[trigger] ls@[a]).id matches Some(x) && 1 <= x < next),
        decreases ls@.len() - i,
    {
        match ls[i].id {
            Some(x) => {
                if !(1 <= x && x < next) {
                    return false;
                }
            },
            None => {
                return false;
            },
        }
        i = i + 1;
    }
    true
}

/// The index of the first project with the given stem, from `k` on.
pub open spec fn project_slot(rows: Seq<ProjectV>, stem: Seq<char>, k: int) -> Option<int>
    decreases rows.len() - k,
{
    if k < 0 || k >= rows.len() {
        None
    } else if rows[k].uproject_stem_lower == stem {
        Some(k)
    } else {
        project_slot(rows, stem, k + 1)
    }
}

/// The index of the first location of the project on the machine, from `k` on.
pub open spec fn location_slot(rows: Seq<ProjectLocationV>, pid: i64, mid: i64, k: int) -> Option<int>
    decreases rows.len() - k,
{
    if k < 0 || k >= rows.len() {
        None
    } else if rows[k].project_id == pid && rows[k].machine_id == mid {
        Some(k)
    } else {
        location_slot(rows, pid, mid, k + 1)
    }
}

/// Whether a location belongs to the project.
pub open spec fn location_of(pid: i64) -> spec_fn(ProjectLocationV) -> bool {
    |l: ProjectLocationV| l.project_id == pid
}

/// Whether a location is not the one with the id.
pub open spec fn location_not(id: i64) -> spec_fn(ProjectLocationV) -> bool {
    |l: ProjectLocationV| l.id != Some(id)
}

/// Whether a location belongs to another project than `pid`.
pub open spec fn location_not_of(pid: i64) -> spec_fn(ProjectLocationV) -> bool {
    |l: ProjectLocationV| l.project_id != pid
}

/// Whether a project is not the one with the id.
pub open spec fn project_not(id: i64) -> spec_fn(ProjectV) -> bool {
    |p: ProjectV| p.id != Some(id)
}

impl Db {
    /// The projects, in the order created.
    pub closed spec fn project_rows(&self) -> Seq<ProjectV> {
        self.projects@.map_values(|p: Project| p@)
    }

    pub closed spec fn next_project(&self) -> i64 {
        self.next_project_id
    }

    /// The project locations, in the order recorded.
    pub closed spec fn location_rows(&self) -> Seq<ProjectLocationV> {
        self.locations@.map_values(|l: ProjectLocation| l@)
    }

    pub closed spec fn next_location(&self) -> i64 {
        self.next_location_id
    }

    /// Every project, in the order created.
    pub fn all_projects(&self) -> (r: Vec<Project>)
        ensures
            r@.map_values(|x: Project| x@) == self.project_rows(),
    {
        let mut out: Vec<Project> = Vec::new();
        let mut i: usize = 0;
        while i < self.projects.len()
            invariant
                i <= self.projects@.len(),
                out@.map_values(|x: Project| x@) =~= self.project_rows().take(i as int),
            decreases self.projects@.len() - i,
        {
            out.push(self.projects[i].copy());
            assert(self.project_rows().take(i + 1) =~= self.project_rows().take(i as int).push(
                self.projects@[i as int]@,
            ));
            i = i + 1;
        }
        assert(self.project_rows().take(i as int) =~= self.project_rows());
        out
    }

    /// Every project location, in the order recorded.
    pub fn all_locations(&self) -> (r: Vec<ProjectLocation>)
        ensures
            r@.map_values(|x: ProjectLocation| x@) == self.location_rows(),
    {
        let mut out: Vec<ProjectLocation> = Vec::new();
        let mut i: usize = 0;
        while i < self.locations.len()
            invariant
                i <= self.locations@.len(),
                out@.map_values(|x: ProjectLocation| x@) =~= self.location_rows().take(i as int),
            decreases self.locations@.len() - i,
        {
            out.push(self.locations[i].copy());
            assert(self.location_rows().take(i + 1) =~= self.location_rows().take(i as int).push(
                self.locations@[i as int]@,
            ));
            i = i + 1;
        }
        assert(self.location_rows().take(i as int) =~= self.location_rows());
        out
    }

    /// The locations of a project, in the order recorded.
    pub fn locations_of(&self, project_id: i64) -> (r: Vec<ProjectLocation>)
        ensures
            r@.map_values(|x: ProjectLocation| x@) == self.location_rows().filter(location_of(project_id)),
    {
        let ghost rows = self.location_rows();
        let ghost pred = location_of(project_id);
        let mut out: Vec<ProjectLocation> = Vec::new();
        let mut i: usize = 0;
        assert(rows.take(0).filter(pred) =~= Seq::<ProjectLocationV>::empty()) by {
            reveal(Seq::filter);
        }
        while i < self.locations.len()
            invariant
                rows == self.location_rows(),
                pred == location_of(project_id),
                i <= self.locations@.len(),
                out@.map_values(|x: ProjectLocation| x@) =~= rows.take(i as int).filter(pred),
            decreases self.locations@.len() - i,
        {
            let x = &self.locations[i];
            assert(rows[i as int] == x@);
            assert(rows.take(i + 1) =~= rows.take(i as int).push(x@));
            proof {
                rows.take(i as int).lemma_filter_push(x@, pred);
            }
            if x.project_id == project_id {
                let ghost before = out@.map_values(|y: ProjectLocation| y@);
                out.push(x.copy());
                assert(out@.map_values(|y: ProjectLocation| y@) =~= before.push(x@));
            }
            i = i + 1;
        }
        assert(rows.take(i as int) =~= rows);
        out
    }

    /// Where the project lies on the machine, if recorded.
    pub fn location_for(&self, project_id: i64, machine_id: i64) -> (r: Option<ProjectLocation>)
        ensures
            match location_slot(self.location_rows(), project_id, machine_id, 0) {
                Some(k) => r matches Some(l) && l@ == self.location_rows()[k],
                None => r is None,
            },
    {
        let ghost rows = self.location_rows();
        let mut i: usize = 0;
        while i < self.locations.len()
            invariant
                rows == self.location_rows(),
                rows.len() == self.locations@.len(),
                i <= rows.len(),
                location_slot(rows, project_id, machine_id, 0) == location_slot(rows, project_id, machine_id, i as int),
            decreases rows.len() - i,
        {
            assert(rows[i as int] == self.locations@[i as int]@);
            if self.locations[i].project_id == project_id && self.locations[i].machine_id == machine_id {
                return Some(self.locations[i].copy());
            }
            i = i + 1;
        }
        None
    }

    /// Creates a project, or updates the one with the same stem (keeping its
    /// id). Returns the project's id.
    pub fn upsert_project(&mut self, p: &Project) -> (r: Result<i64, UecmError>)
        requires
            old(self).wf(),
        ensures
            final(self).wf(),
            match project_slot(old(self).project_rows(), p.uproject_stem_lower@, 0) {
                Some(k) => old(self).project_rows()[k].id matches Some(id) && r == Ok::<i64, UecmError>(id)
                    && final(self).project_rows() == old(self).project_rows().update(
                    k,
                    ProjectV { id: Some(id), ..p@ },
                ),
                None => if old(self).next_project() < i64::MAX {
                    r == Ok::<i64, UecmError>(old(self).next_project()) && final(self).project_rows() == old(
                        self,
                    ).project_rows().push(ProjectV { id: Some(old(self).next_project()), ..p@ })
                } else {
                    r is Err
                },
            },
            r is Err ==> final(self).project_rows() == old(self).project_rows(),
            final(self).location_rows() == old(self).location_rows(),
            final(self).machine_rows() == old(self).machine_rows(),
    {
        let ghost rows = self.project_rows();
        let mut k: usize = 0;
        while k < self.projects.len()
            invariant
                self.wf(),
                rows == self.project_rows(),
                rows == old(self).project_rows(),
                self.location_rows() == old(self).location_rows(),
                self.machine_rows() == old(self).machine_rows(),
                self.next_project_id == old(self).next_project_id,
                rows.len() == self.projects@.len(),
                k <= rows.len(),
                project_slot(rows, p.uproject_stem_lower@, 0) == project_slot(rows, p.uproject_stem_lower@, k as int),
            decreases rows.len() - k,
        {
            assert(rows[k as int] == self.projects@[k as int]@);
            if self.projects[k].uproject_stem_lower == p.uproject_stem_lower {
                let id = match self.projects[k].id {
                    Some(x) => x,
                    None => 0,
                };
                let mut row = p.copy();
                row.id = Some(id);
                let ghost old_ps = self.projects@;
                self.projects.set(k, row);
                assert forall|a: int| 0 <= a < self.projects@.len() implies ((#[trigger] self.projects@[a]).id
                    matches Some(x) && 1 <= x < self.next_project_id) by {
                    if a != k {
                        assert(self.projects@[a] == old_ps[a]);
                    }
                }
                assert(self.project_rows() =~= rows.update(k as int, ProjectV { id: Some(id), ..p@ }));
                return Ok(id);
            }
            k = k + 1;
        }
        if self.next_project_id == i64::MAX {
            return Err(UecmError::Database(String::from_str("project ids are used up")));
        }
        let id = self.next_project_id;
        let mut row = p.copy();
        row.id = Some(id);
        self.projects.push(row);
        self.next_project_id = id + 1;
        assert(self.project_rows() =~= rows.push(ProjectV { id: Some(id), ..p@ }));
        Ok(id)
    }

    /// Records where a project lies on a machine, or updates that record
    /// (keeping its id). Returns the location's id.
    pub fn upsert_location(&mut self, l: &ProjectLocation) -> (r: Result<i64, UecmError>)
        requires
            old(self).wf(),
        ensures
            final(self).wf(),
            match location_slot(old(self).location_rows(), l.project_id, l.machine_id, 0) {
                Some(k) => old(self).location_rows()[k].id matches Some(id) && r == Ok::<i64, UecmError>(id)
                    && final(self).location_rows() == old(self).location_rows().update(
                    k,
                    ProjectLocationV { id: Some(id), ..l@ },
                ),
                None => if old(self).next_location() < i64::MAX {
                    r == Ok::<i64, UecmError>(old(self).next_location()) && final(self).location_rows() == old(
                        self,
                    ).location_rows().push(ProjectLocationV { id: Some(old(self).next_location()), ..l@ })
                } else {
                    r is Err
                },
            },
            r is Err ==> final(self).location_rows() == old(self).location_rows(),
            final(self).project_rows() == old(self).project_rows(),
            final(self).machine_rows() == old(self).machine_rows(),
    {
        let ghost rows = self.location_rows();
        let mut k: usize = 0;
        while k < self.locations.len()
            invariant
                self.wf(),
                rows == self.location_rows(),
                rows == old(self).location_rows(),
                self.project_rows() == old(self).project_rows(),
                self.machine_rows() == old(self).machine_rows(),
                self.next_location_id == old(self).next_location_id,
                rows.len() == self.locations@.len(),
                k <= rows.len(),
                location_slot(rows, l.project_id, l.machine_id, 0) == location_slot(rows, l.project_id, l.machine_id, k as int),
            decreases rows.len() - k,
        {
            assert(rows[k as int] == self.locations@[k as int]@);
            if self.locations[k].project_id == l.project_id && self.locations[k].machine_id == l.machine_id {
                let id = match self.locations[k].id {
                    Some(x) => x,
                    None => 0,
                };
                let mut row = l.copy();
                row.id = Some(id);
                let ghost old_ls = self.locations@;
                self.locations.set(k, row);
                assert forall|a: int| 0 <= a < self.locations@.len() implies ((#[trigger] self.locations@[a]).id
                    matches Some(x) && 1 <= x < self.next_location_id) by {
                    if a != k {
                        assert(self.locations@[a] == old_ls[a]);
                    }
                }
                assert(self.location_rows() =~= rows.update(k as int, ProjectLocationV { id: Some(id), ..l@ }));
                return Ok(id);
            }
            k = k + 1;
        }
        if self.next_location_id == i64::MAX {
            return Err(UecmError::Database(String::from_str("location ids are used up")));
        }
        let id = self.next_location_id;
        let mut row = l.copy();
        row.id = Some(id);
        self.locations.push(row);
        self.next_location_id = id + 1;
        assert(self.location_rows() =~= rows.push(ProjectLocationV { id: Some(id), ..l@ }));
        Ok(id)
    }

    /// Deletes the project with the given id and its locations.
    pub fn delete_project(&mut self, id: i64)
        requires
            old(self).wf(),
        ensures
            final(self).wf(),
            final(self).project_rows() == old(self).project_rows().filter(project_not(id)),
            final(self).location_rows() == old(self).location_rows().filter(location_not_of(id)),
            final(self).machine_rows() == old(self).machine_rows(),
    {
        let ghost rows = self.project_rows();
        let ghost pred = project_not(id);
        let mut kept: Vec<Project> = Vec::new();
        let mut i: usize = 0;
        assert(rows.take(0).filter(pred) =~= Seq::<ProjectV>::empty()) by {
            reveal(Seq::filter);
        }
        while i < self.projects.len()
            invariant
                rows == self.project_rows(),
                pred == project_not(id),
                i <= self.projects@.len(),
                kept@.map_values(|x: Project| x@) =~= rows.take(i as int).filter(pred),
                forall|a: int| 0 <= a < kept@.len() ==> ((#[trigger] kept@[a]).id matches Some(x) && 1 <= x
                    < self.next_project_id),
                self.wf(),
            decreases self.projects@.len() - i,
        {
            let x = &self.projects[i];
            assert(rows[i as int] == x@);
            assert(rows.take(i + 1) =~= rows.take(i as int).push(x@));
            proof {
                rows.take(i as int).lemma_filter_push(x@, pred);
            }
            if x.id != Some(id) {
                let ghost before = kept@.map_values(|y: Project| y@);
                kept.push(x.copy());
                assert(kept@.map_values(|y: Project| y@) =~= before.push(x@));
            }
            i = i + 1;
        }
        assert(rows.take(i as int) =~= rows);
        self.projects = kept;
        self.drop_locations_of(id);
    }

    /// Deletes the location with the given id.
    pub fn delete_location(&mut self, id: i64)
        requires
            old(self).wf(),
        ensures
            final(self).wf(),
            final(self).location_rows() == old(self).location_rows().filter(location_not(id)),
            final(self).project_rows() == old(self).project_rows(),
            final(self).machine_rows() == old(self).machine_rows(),
    {
        let ghost rows = self.location_rows();
        let ghost pred = location_not(id);
        let mut kept: Vec<ProjectLocation> = Vec::new();
        let mut i: usize = 0;
        assert(rows.take(0).filter(pred) =~= Seq::<ProjectLocationV>::empty()) by {
            reveal(Seq::filter);
        }
        while i < self.locations.len()
            invariant
                rows == self.location_rows(),
                pred == location_not(id),
                i <= self.locations@.len(),
                kept@.map_values(|x: ProjectLocation| x@) =~= rows.take(i as int).filter(pred),
                forall|a: int| 0 <= a < kept@.len() ==> ((#[trigger] kept@[a]).id matches Some(x) && 1 <= x
                    < self.next_location_id),
                self.wf(),
            decreases self.locations@.len() - i,
        {
            let x = &self.locations[i];
            assert(rows[i as int] == x@);
            assert(rows.take(i + 1) =~= rows.take(i as int).push(x@));
            proof {
                rows.take(i as int).lemma_filter_push(x@, pred);
            }
            if x.id != Some(id) {
                let ghost before = kept@.map_values(|y: ProjectLocation| y@);
                kept.push(x.copy());
                assert(kept@.map_values(|y: ProjectLocation| y@) =~= before.push(x@));
            }
            i = i + 1;
        }
        assert(rows.take(i as int) =~= rows);
        self.locations = kept;
    }

    /// Deletes every location of project `pid`.
    fn drop_locations_of(&mut self, pid: i64)
        requires
            old(self).wf(),
        ensures
            final(self).wf(),
            final(self).location_rows() == old(self).location_rows().filter(location_not_of(pid)),
            final(self).project_rows() == old(self).project_rows(),
            final(self).machine_rows() == old(self).machine_rows(),
    {
        let ghost rows = self.location_rows();
        let ghost pred = location_not_of(pid);
        let mut kept: Vec<ProjectLocation> = Vec::new();
        let mut i: usize = 0;
        assert(rows.take(0).filter(pred) =~= Seq::<ProjectLocationV>::empty()) by {
            reveal(Seq::filter);
        }
        while i < self.locations.len()
            invariant
                rows == self.location_rows(),
                pred == location_not_of(pid),
                i <= self.locations@.len(),
                kept@.map_values(|x: ProjectLocation| x@) =~= rows.take(i as int).filter(pred),
                forall|a: int| 0 <= a < kept@.len() ==> ((#[trigger] kept@[a]).id matches Some(x) && 1 <= x
                    < self.next_location_id),
                self.wf(),
            decreases self.locations@.len() - i,
        {
            let x = &self.locations[i];
            assert(rows[i as int] == x@);
            assert(rows.take(i + 1) =~= rows.take(i as int).push(x@));
            proof {
                rows.take(i as int).lemma_filter_push(x@, pred);
            }
            if x.project_id != pid {
                let ghost before = kept@.map_values(|y: ProjectLocation| y@);
                kept.push(x.copy());
                assert(kept@.map_values(|y: ProjectLocation| y@) =~= before.push(x@));
            }
            i = i + 1;
        }
        assert(rows.take(i as int) =~= rows);
        self.locations = kept;
    }
}


// ---------------------------------------------------------------------------
// health check results
// ---------------------------------------------------------------------------

/// The outcomes one health run recorded for one machine.
#[derive(Debug)]
pub struct HealthResult {
    pub scan_run_id: i64,
    pub machine_id: i64,
    pub row: Vec<(String, CheckOutcome)>,
}

/// A result row as plain values.
pub struct HealthResultV {
    pub scan_run_id: i64,
    pub machine_id: i64,
    pub row: Seq<(Seq<char>, CheckOutcomeV)>,
}

/// A row of outcomes by key, as plain values.
pub open spec fn outcomes_view(row: Seq<(String, CheckOutcome)>) -> Seq<(Seq<char>, CheckOutcomeV)> {
    row.map_values(|e: (String, CheckOutcome)| (e.0@, e.1@))
}

impl View for HealthResult {
    type V = HealthResultV;

    open spec fn view(&self) -> HealthResultV {
        HealthResultV { scan_run_id: self.scan_run_id, machine_id: self.machine_id, row: outcomes_view(self.row@) }
    }
}

/// A copy of a row of outcomes.
fn copy_outcomes(row: &Vec<(String, CheckOutcome)>) -> (r: Vec<(String, CheckOutcome)>)
    ensures
        outcomes_view(r@) == outcomes_view(row@),
{
    let mut out: Vec<(String, CheckOutcome)> = Vec::new();
    let mut i: usize = 0;
    while i < row.len()
        invariant
            i <= row@.len(),
            outcomes_view(out@) =~= outcomes_view(row@).take(i as int),
        decreases row@.len() - i,
    {
        let ghost before = out@;
        out.push((row[i].0.clone(), row[i].1.copy()));
        assert(outcomes_view(out@) =~= outcomes_view(before).push((row@[i as int].0@, row@[i as int].1@)));
        assert(outcomes_view(row@).take(i + 1) =~= outcomes_view(row@).take(i as int).push(
            (row@[i as int].0@, row@[i as int].1@),
        ));
        i = i + 1;
    }
    assert(outcomes_view(row@).take(i as int) =~= outcomes_view(row@));
    out
}

impl HealthResult {
    /// A field-by-field copy.
    pub fn copy(&self) -> (r: HealthResult)
        ensures
            r@ == self@,
    {
        HealthResult { scan_run_id: self.scan_run_id, machine_id: self.machine_id, row: copy_outcomes(&self.row) }
    }
}

/// The first index at or after `k` holding the result of machine `mid` in
/// run `run`.
pub open spec fn result_slot(rows: Seq<HealthResultV>, run: i64, mid: i64, k: int) -> Option<int>
    decreases rows.len() - k,
{
    if k < 0 || k >= rows.len() {
        None
    } else if rows[k].scan_run_id == run && rows[k].machine_id == mid {
        Some(k)
    } else {
        result_slot(rows, run, mid, k + 1)
    }
}

/// Whether a result belongs to run `run`.
pub open spec fn result_of(run: i64) -> spec_fn(HealthResultV) -> bool {
    |r: HealthResultV| r.scan_run_id == run
}

impl Db {
    /// The health check results, in the order first recorded.
    pub closed spec fn result_rows(&self) -> Seq<HealthResultV> {
        self.results@.map_values(|r: HealthResult| r@)
    }

    /// Records the outcomes of machine `machine_id` in run `scan_run_id`,
    /// in place of any recorded before for the same run and machine.
    pub fn record_result(&mut self, scan_run_id: i64, machine_id: i64, row: Vec<(String, CheckOutcome)>)
        requires
            old(self).wf(),
        ensures
            final(self).wf(),
            final(self).result_rows() == match result_slot(old(self).result_rows(), scan_run_id, machine_id, 0) {
                Some(k) => old(self).result_rows().update(
                    k,
                    HealthResultV { scan_run_id, machine_id, row: outcomes_view(row@) },
                ),
                None => old(self).result_rows().push(
                    HealthResultV { scan_run_id, machine_id, row: outcomes_view(row@) },
                ),
            },
            final(self).machine_rows() == old(self).machine_rows(),
            final(self).run_rows() == old(self).run_rows(),
            final(self).install_rows() == old(self).install_rows(),
            final(self).gpu_rows() == old(self).gpu_rows(),
    {
        let ghost rows = self.result_rows();
        let mut k: usize = 0;
        while k < self.results.len() && !(self.results[k].scan_run_id == scan_run_id
            && self.results[k].machine_id == machine_id)
            invariant
                rows == self.result_rows(),
                rows.len() == self.results@.len(),
                k <= rows.len(),
                result_slot(rows, scan_run_id, machine_id, 0) == result_slot(rows, scan_run_id, machine_id, k as int),
            decreases rows.len() - k,
        {
            assert(rows[k as int] == self.results@[k as int]@);
            k = k + 1;
        }
        let ghost v = HealthResultV { scan_run_id, machine_id, row: outcomes_view(row@) };
        let entry = HealthResult { scan_run_id, machine_id, row };
        if k < self.results.len() {
            assert(rows[k as int] == self.results@[k as int]@);
            assert(result_slot(rows, scan_run_id, machine_id, k as int) == Some(k as int));
            self.results.set(k, entry);
            assert(self.result_rows() =~= rows.update(k as int, v));
        } else {
            self.results.push(entry);
            assert(self.result_rows() =~= rows.push(v));
        }
    }

    /// The results of run `scan_run_id`, in the order first recorded.
    pub fn results_for_run(&self, scan_run_id: i64) -> (r: Vec<HealthResult>)
        ensures
            r@.map_values(|x: HealthResult| x@) == self.result_rows().filter(result_of(scan_run_id)),
    {
        let ghost rows = self.result_rows();
        let ghost pred = result_of(scan_run_id);
        let mut out: Vec<HealthResult> = Vec::new();
        let mut i: usize = 0;
        assert(rows.take(0).filter(pred) =~= Seq::<HealthResultV>::empty()) by {
            reveal(Seq::filter);
        }
        while i < self.results.len()
            invariant
                rows == self.result_rows(),
                pred == result_of(scan_run_id),
                i <= self.results@.len(),
                out@.map_values(|x: HealthResult| x@) =~= rows.take(i as int).filter(pred),
            decreases self.results@.len() - i,
        {
            let x = &self.results[i];
            assert(rows[i as int] == x@);
            assert(rows.take(i + 1) =~= rows.take(i as int).push(x@));
            proof {
                rows.take(i as int).lemma_filter_push(x@, pred);
            }
            if x.scan_run_id == scan_run_id {
                let ghost before = out@.map_values(|y: HealthResult| y@);
                out.push(x.copy());
                assert(out@.map_values(|y: HealthResult| y@) =~= before.push(x@));
            }
            i = i + 1;
        }
        assert(rows.take(i as int) =~= rows);
        out
    }

    /// Every health check result, in the order first recorded.
    pub fn all_results(&self) -> (r: Vec<HealthResult>)
        ensures
            r@.map_values(|x: HealthResult| x@) == self.result_rows(),
    {
        let mut out: Vec<HealthResult> = Vec::new();
        let mut i: usize = 0;
        while i < self.results.len()
            invariant
                i <= self.results@.len(),
                out@.map_values(|x: HealthResult| x@) =~= self.result_rows().take(i as int),
            decreases self.results@.len() - i,
        {
            out.push(self.results[i].copy());
            assert(self.result_rows().take(i + 1) =~= self.result_rows().take(i as int).push(
                self.results@[i as int]@,
            ));
            i = i + 1;
        }
        assert(self.result_rows().take(i as int) =~= self.result_rows());
        out
    }
}

// ---------------------------------------------------------------------------
// SMB shares
// ---------------------------------------------------------------------------

/// An SMB share set up on a machine for the DDC cache.
#[derive(Debug)]
pub struct ShareConfig {
    pub id: Option<i64>,
    pub host_machine_id: i64,
    pub share_name: String,
    pub unc_path: String,
    pub local_path: String,
    pub mode: ShareMode,
    pub credential_alias: Option<String>,
}

/// A share row as plain values.
pub struct ShareConfigV {
    pub id: Option<i64>,
    pub host_machine_id: i64,
    pub share_name: Seq<char>,
    pub unc_path: Seq<char>,
    pub local_path: Seq<char>,
    pub mode: ShareMode,
    pub credential_alias: Option<Seq<char>>,
}

impl View for ShareConfig {
    type V = ShareConfigV;

    open spec fn view(&self) -> ShareConfigV {
        ShareConfigV {
            id: self.id,
            host_machine_id: self.host_machine_id,
            share_name: self.share_name@,
            unc_path: self.unc_path@,
            local_path: self.local_path@,
            mode: self.mode,
            credential_alias: opt_view(self.credential_alias),
        }
    }
}

impl ShareConfig {
    /// A field-by-field copy.
    pub fn copy(&self) -> (r: ShareConfig)
        ensures
            r@ == self@,
    {
        ShareConfig {
            id: self.id,
            host_machine_id: self.host_machine_id,
            share_name: self.share_name.clone(),
            unc_path: self.unc_path.clone(),
            local_path: self.local_path.clone(),
            mode: self.mode,
            credential_alias: clone_opt(&self.credential_alias),
        }
    }
}

/// Whether a share has another id than `id`.
pub open spec fn share_not(id: i64) -> spec_fn(ShareConfigV) -> bool {
    |r: ShareConfigV| r.id != Some(id)
}

impl Db {
    /// The shares, in the order created.
    pub closed spec fn share_rows(&self) -> Seq<ShareConfigV> {
        self.shares@.map_values(|r: ShareConfig| r@)
    }

    /// The id the next share gets.
    pub closed spec fn next_share(&self) -> i64 {
        self.next_share_id
    }

    /// Every share, in the order created.
    pub fn all_shares(&self) -> (r: Vec<ShareConfig>)
        ensures
            r@.map_values(|x: ShareConfig| x@) == self.share_rows(),
    {
        let mut out: Vec<ShareConfig> = Vec::new();
        let mut i: usize = 0;
        while i < self.shares.len()
            invariant
                i <= self.shares@.len(),
                out@.map_values(|x: ShareConfig| x@) =~= self.share_rows().take(i as int),
            decreases self.shares@.len() - i,
        {
            out.push(self.shares[i].copy());
            assert(self.share_rows().take(i + 1) =~= self.share_rows().take(i as int).push(self.shares@[i as int]@));
            i = i + 1;
        }
        assert(self.share_rows().take(i as int) =~= self.share_rows());
        out
    }

    /// Records a new share under the next id; fails when the id space is
    /// used up.
    pub fn insert_share(&mut self, share: &ShareConfig) -> (r: Result<i64, UecmError>)
        requires
            old(self).wf(),
        ensures
            final(self).wf(),
            old(self).next_share() < i64::MAX ==> r == Ok::<i64, UecmError>(old(self).next_share())
                && final(self).share_rows() == old(self).share_rows().push(
                ShareConfigV { id: Some(old(self).next_share()), ..share@ },
            ) && final(self).next_share() == old(self).next_share() + 1,
            old(self).next_share() == i64::MAX ==> r is Err && final(self).share_rows() == old(self).share_rows(),
            final(self).machine_rows() == old(self).machine_rows(),
            final(self).credential_rows() == old(self).credential_rows(),
    {
        if self.next_share_id == i64::MAX {
            return Err(UecmError::Database(String::from_str("share ids are used up")));
        }
        let id = self.next_share_id;
        let mut row = share.copy();
        row.id = Some(id);
        let ghost before = self.share_rows();
        self.shares.push(row);
        self.next_share_id = id + 1;
        assert(self.share_rows() =~= before.push(ShareConfigV { id: Some(id), ..share@ }));
        Ok(id)
    }

    /// Forgets the share with the given id.
    pub fn delete_share(&mut self, id: i64)
        requires
            old(self).wf(),
        ensures
            final(self).wf(),
            final(self).share_rows() == old(self).share_rows().filter(share_not(id)),
            final(self).machine_rows() == old(self).machine_rows(),
            final(self).credential_rows() == old(self).credential_rows(),
    {
        let ghost rows = self.share_rows();
        let ghost pred = share_not(id);
        let mut kept: Vec<ShareConfig> = Vec::new();
        let mut i: usize = 0;
        assert(rows.take(0).filter(pred) =~= Seq::<ShareConfigV>::empty()) by {
            reveal(Seq::filter);
        }
        while i < self.shares.len()
            invariant
                rows == self.share_rows(),
                pred == share_not(id),
                i <= self.shares@.len(),
                kept@.map_values(|x: ShareConfig| x@) =~= rows.take(i as int).filter(pred),
                forall|a: int| 0 <= a < kept@.len() ==> ((#[trigger] kept@[a]).id matches Some(x) && 1 <= x
                    < self.next_share_id),
                self.wf(),
            decreases self.shares@.len() - i,
        {
            let x = &self.shares[i];
            assert(rows[i as int] == x@);
            assert(rows.take(i + 1) =~= rows.take(i as int).push(x@));
            proof {
                rows.take(i as int).lemma_filter_push(x@, pred);
            }
            if x.id != Some(id) {
                let ghost before = kept@.map_values(|y: ShareConfig| y@);
                kept.push(x.copy());
                assert(kept@.map_values(|y: ShareConfig| y@) =~= before.push(x@));
            }
            i = i + 1;
        }
        assert(rows.take(i as int) =~= rows);
        self.shares = kept;
    }
}

// ---------------------------------------------------------------------------
// INI findings
// ---------------------------------------------------------------------------

/// The findings a scan of machine `mid` in run `run` stores, numbered from
/// `first` in the order found.
pub open spec fn numbered_findings(found: Seq<IniFindingV>, run: i64, mid: i64, first: i64) -> Seq<IniFindingV> {
    Seq::new(
        found.len(),
        |i: int| IniFindingV { id: Some((first + i) as i64), scan_run_id: run, machine_id: mid, ..found[i] },
    )
}

/// Whether a finding belongs to run `run`.
pub open spec fn finding_of_run(run: i64) -> spec_fn(IniFindingV) -> bool {
    |f: IniFindingV| f.scan_run_id == run
}

/// Whether a finding of run `run` on machine `mid` has severity `sev`.
pub open spec fn finding_with(run: i64, mid: i64, sev: Seq<char>) -> spec_fn(IniFindingV) -> bool {
    |f: IniFindingV| f.scan_run_id == run && f.machine_id == mid && f.severity == sev
}

/// The first finding with id `id`, from index `k` on.
pub open spec fn finding_slot(rows: Seq<IniFindingV>, id: i64, k: int) -> Option<int>
    decreases rows.len() - k,
{
    if k < 0 || k >= rows.len() {
        None
    } else if rows[k].id == Some(id) {
        Some(k)
    } else {
        finding_slot(rows, id, k + 1)
    }
}

impl Db {
    /// The stored findings, in the order found.
    pub closed spec fn finding_rows(&self) -> Seq<IniFindingV> {
        self.findings@.map_values(|f: IniFinding| f@)
    }

    /// The id the next finding gets.
    pub closed spec fn next_finding(&self) -> i64 {
        self.next_finding_id
    }

    /// Every stored finding, in the order found.
    pub fn all_findings(&self) -> (r: Vec<IniFinding>)
        ensures
            r@.map_values(|x: IniFinding| x@) == self.finding_rows(),
    {
        let mut out: Vec<IniFinding> = Vec::new();
        let mut i: usize = 0;
        while i < self.findings.len()
            invariant
                i <= self.findings@.len(),
                out@.map_values(|x: IniFinding| x@) =~= self.finding_rows().take(i as int),
            decreases self.findings@.len() - i,
        {
            out.push(self.findings[i].copy());
            assert(self.finding_rows().take(i + 1) =~= self.finding_rows().take(i as int).push(
                self.findings@[i as int]@,
            ));
            i = i + 1;
        }
        assert(self.finding_rows().take(i as int) =~= self.finding_rows());
        out
    }

    /// Stores what a scan of machine `machine_id` in run `scan_run_id` found,
    /// under the next ids in the order found; fails, storing nothing, when
    /// the ids would run out.
    pub fn record_findings(&mut self, scan_run_id: i64, machine_id: i64, found: &Vec<IniFinding>) -> (r: Result<
        (),
        UecmError,
    >)
        requires
            old(self).wf(),
        ensures
            final(self).wf(),
            old(self).next_finding() + found@.len() < i64::MAX ==> r is Ok && final(self).finding_rows() == old(
                self,
            ).finding_rows() + numbered_findings(
                found@.map_values(|f: IniFinding| f@),
                scan_run_id,
                machine_id,
                old(self).next_finding(),
            ) && final(self).next_finding() == old(self).next_finding() + found@.len(),
            old(self).next_finding() + found@.len() >= i64::MAX ==> r is Err && final(self).finding_rows() == old(
                self,
            ).finding_rows(),
            final(self).machine_rows() == old(self).machine_rows(),
            final(self).run_rows() == old(self).run_rows(),
    {
        if found.len() as u64 >= (i64::MAX - self.next_finding_id) as u64 {
            return Err(UecmError::Database(String::from_str("finding ids are used up")));
        }
        let ghost before = self.finding_rows();
        let ghost first = self.next_finding_id;
        let ghost all = numbered_findings(found@.map_values(|f: IniFinding| f@), scan_run_id, machine_id, first);
        let mut i: usize = 0;
        while i < found.len()
            invariant
                self.wf(),
                i <= found@.len(),
                first + found@.len() < i64::MAX,
                self.next_finding_id == first + i,
                all == numbered_findings(found@.map_values(|f: IniFinding| f@), scan_run_id, machine_id, first),
                self.finding_rows() =~= before + all.take(i as int),
                self.machine_rows() == old(self).machine_rows(),
                self.run_rows() == old(self).run_rows(),
            decreases found@.len() - i,
        {
            let mut row = found[i].copy();
            row.id = Some(self.next_finding_id);
            row.scan_run_id = scan_run_id;
            row.machine_id = machine_id;
            let ghost rows0 = self.finding_rows();
            self.findings.push(row);
            self.next_finding_id = self.next_finding_id + 1;
            assert(all.take(i + 1) =~= all.take(i as int).push(all[i as int]));
            assert(self.finding_rows() =~= rows0.push(all[i as int]));
            i = i + 1;
        }
        assert(all.take(i as int) =~= all);
        Ok(())
    }

    /// The findings of run `scan_run_id`, in the order found.
    pub fn findings_for_run(&self, scan_run_id: i64) -> (r: Vec<IniFinding>)
        ensures
            r@.map_values(|x: IniFinding| x@) == self.finding_rows().filter(finding_of_run(scan_run_id)),
    {
        let ghost rows = self.finding_rows();
        let ghost pred = finding_of_run(scan_run_id);
        let mut out: Vec<IniFinding> = Vec::new();
        let mut i: usize = 0;
        assert(rows.take(0).filter(pred) =~= Seq::<IniFindingV>::empty()) by {
            reveal(Seq::filter);
        }
        while i < self.findings.len()
            invariant
                rows == self.finding_rows(),
                pred == finding_of_run(scan_run_id),
                i <= self.findings@.len(),
                out@.map_values(|x: IniFinding| x@) =~= rows.take(i as int).filter(pred),
            decreases self.findings@.len() - i,
        {
            let x = &self.findings[i];
            assert(rows[i as int] == x@);
            assert(rows.take(i + 1) =~= rows.take(i as int).push(x@));
            proof {
                rows.take(i as int).lemma_filter_push(x@, pred);
            }
            if x.scan_run_id == scan_run_id {
                let ghost b = out@.map_values(|y: IniFinding| y@);
                out.push(x.copy());
                assert(out@.map_values(|y: IniFinding| y@) =~= b.push(x@));
            }
            i = i + 1;
        }
        assert(rows.take(i as int) =~= rows);
        out
    }

    /// The finding with the given id.
    pub fn find_finding(&self, id: i64) -> (r: Option<IniFinding>)
        ensures
            match finding_slot(self.finding_rows(), id, 0) {
                Some(k) => r matches Some(f) && f@ == self.finding_rows()[k],
                None => r is None,
            },
    {
        let ghost rows = self.finding_rows();
        let mut i: usize = 0;
        while i < self.findings.len()
            invariant
                rows == self.finding_rows(),
                rows.len() == self.findings@.len(),
                i <= rows.len(),
                finding_slot(rows, id, 0) == finding_slot(rows, id, i as int),
            decreases rows.len() - i,
        {
            assert(rows[i as int] == self.findings@[i as int]@);
            if self.findings[i].id == Some(id) {
                return Some(self.findings[i].copy());
            }
            i = i + 1;
        }
        None
    }

    /// How many findings of run `scan_run_id` on machine `machine_id` have
    /// severity `severity`.
    pub fn count_findings(&self, scan_run_id: i64, machine_id: i64, severity: &str) -> (r: usize)
        ensures
            r == self.finding_rows().filter(finding_with(scan_run_id, machine_id, severity@)).len(),
    {
        let ghost rows = self.finding_rows();
        let ghost pred = finding_with(scan_run_id, machine_id, severity@);
        let key = String::from_str(severity);
        let mut n: usize = 0;
        let mut i: usize = 0;
        assert(rows.take(0).filter(pred) =~= Seq::<IniFindingV>::empty()) by {
            reveal(Seq::filter);
        }
        while i < self.findings.len()
            invariant
                rows == self.finding_rows(),
                pred == finding_with(scan_run_id, machine_id, severity@),
                key@ == severity@,
                i <= self.findings@.len(),
                n == rows.take(i as int).filter(pred).len(),
                n <= i,
            decreases self.findings@.len() - i,
        {
            let x = &self.findings[i];
            assert(rows[i as int] == x@);
            assert(rows.take(i + 1) =~= rows.take(i as int).push(x@));
            proof {
                rows.take(i as int).lemma_filter_push(x@, pred);
            }
            if x.scan_run_id == scan_run_id && x.machine_id == machine_id && x.severity == key {
                n = n + 1;
            }
            i = i + 1;
        }
        assert(rows.take(i as int) =~= rows);
        n
    }

    /// Marks the finding with the given id skipped at `at` (no finding has
    /// it: nothing changes).
    pub fn mark_skipped(&mut self, id: i64, at: String)
        requires
            old(self).wf(),
        ensures
            final(self).wf(),
            final(self).finding_rows() == match finding_slot(old(self).finding_rows(), id, 0) {
                Some(k) => old(self).finding_rows().update(
                    k,
                    IniFindingV { skipped_at: Some(at@), ..old(self).finding_rows()[k] },
                ),
                None => old(self).finding_rows(),
            },
            final(self).machine_rows() == old(self).machine_rows(),
    {
        let ghost rows = self.finding_rows();
        let mut k: usize = 0;
        while k < self.findings.len() && self.findings[k].id != Some(id)
            invariant
                rows == self.finding_rows(),
                rows.len() == self.findings@.len(),
                k <= rows.len(),
                finding_slot(rows, id, 0) == finding_slot(rows, id, k as int),
            decreases rows.len() - k,
        {
            assert(rows[k as int] == self.findings@[k as int]@);
            k = k + 1;
        }
        if k < self.findings.len() {
            assert(rows[k as int] == self.findings@[k as int]@);
            assert(finding_slot(rows, id, k as int) == Some(k as int));
            let mut row = self.findings[k].copy();
            row.skipped_at = Some(at);
            let ghost v = row@;
            let ghost old_fs = self.findings@;
            self.findings.set(k, row);
            assert forall|a: int| 0 <= a < self.findings@.len() implies ((#[trigger] self.findings@[a]).id
                matches Some(x) && 1 <= x < self.next_finding_id) by {
                if a != k {
                    assert(self.findings@[a] == old_fs[a]);
                }
            }
            assert(self.finding_rows() =~= rows.update(k as int, v));
        }
    }
}

// ---------------------------------------------------------------------------
// reading back what was written
// ---------------------------------------------------------------------------

proof fn lemma_filter_keeps_every<A>(s: Seq<A>, p: spec_fn(A) -> bool)
    requires
        forall|i: int| 0 <= i < s.len() ==> p(#[trigger] s[i]),
    ensures
        s.filter(p) == s,
    decreases s.len(),
{
    if s.len() == 0 {
        reveal(Seq::filter);
        assert(s.filter(p) =~= s);
    } else {
        let r = s.drop_last();
        assert forall|i: int| 0 <= i < r.len() implies p(#[trigger] r[i]) by {
            assert(r[i] == s[i]);
        }
        lemma_filter_keeps_every(r, p);
        assert(s =~= r.push(s.last()));
        r.lemma_filter_push(s.last(), p);
    }
}

proof fn lemma_filter_drops_all<A>(s: Seq<A>, p: spec_fn(A) -> bool)
    requires
        forall|i: int| 0 <= i < s.len() ==> !p(#[trigger] s[i]),
    ensures
        s.filter(p) == Seq::<A>::empty(),
    decreases s.len(),
{
    if s.len() == 0 {
        reveal(Seq::filter);
        assert(s.filter(p) =~= Seq::<A>::empty());
    } else {
        let r = s.drop_last();
        assert forall|i: int| 0 <= i < r.len() implies !p(#[trigger] r[i]) by {
            assert(r[i] == s[i]);
        }
        lemma_filter_drops_all(r, p);
        assert(s =~= r.push(s.last()));
        r.lemma_filter_push(s.last(), p);
    }
}

/// Filtering by `p` and then by a narrower `q` is filtering by `q`.
proof fn lemma_filter_narrow<A>(s: Seq<A>, p: spec_fn(A) -> bool, q: spec_fn(A) -> bool)
    requires
        forall|x: A| #[trigger] q(x) ==> p(x),
    ensures
        s.filter(p).filter(q) == s.filter(q),
    decreases s.len(),
{
    if s.len() == 0 {
        reveal(Seq::filter);
        assert(s.filter(p).filter(q) =~= s.filter(q));
    } else {
        let r = s.drop_last();
        let x = s.last();
        lemma_filter_narrow(r, p, q);
        assert(s =~= r.push(x));
        r.lemma_filter_push(x, p);
        r.lemma_filter_push(x, q);
        if p(x) {
            r.filter(p).lemma_filter_push(x, q);
        }
    }
}

/// Replacing the engine installs of machine `mid` with rows of that
/// machine and then reading that machine's installs gives exactly those
/// rows back; every other machine reads what it read before.
pub proof fn lemma_installs_read_back(stored: Seq<UeInstallV>, mid: i64, rows: Seq<UeInstallV>, other: i64)
    requires
        forall|i: int| 0 <= i < rows.len() ==> (#[trigger] rows[i]).machine_id == mid,
    ensures
        (stored.filter(install_not_of(mid)) + rows).filter(install_of(mid)) == rows,
        other != mid ==> (stored.filter(install_not_of(mid)) + rows).filter(install_of(other)) == stored.filter(
            install_of(other),
        ),
{
    let kept = stored.filter(install_not_of(mid));
    Seq::filter_distributes_over_add(kept, rows, install_of(mid));
    assert forall|i: int| 0 <= i < kept.len() implies !install_of(mid)(#[trigger] kept[i]) by {
        stored.lemma_filter_pred(install_not_of(mid), i);
    }
    lemma_filter_drops_all(kept, install_of(mid));
    assert forall|i: int| 0 <= i < rows.len() implies install_of(mid)(#[trigger] rows[i]) by {}
    lemma_filter_keeps_every(rows, install_of(mid));
    assert(Seq::<UeInstallV>::empty() + rows =~= rows);
    if other != mid {
        Seq::filter_distributes_over_add(kept, rows, install_of(other));
        assert forall|i: int| 0 <= i < rows.len() implies !install_of(other)(#[trigger] rows[i]) by {}
        lemma_filter_drops_all(rows, install_of(other));
        assert forall|x: UeInstallV| #[trigger] install_of(other)(x) implies install_not_of(mid)(x) by {}
        lemma_filter_narrow(stored, install_not_of(mid), install_of(other));
        assert(kept.filter(install_of(other)) + Seq::<UeInstallV>::empty() =~= kept.filter(install_of(other)));
    }
}

/// Replacing the GPUs of machine `mid` with rows of that machine and then
/// reading that machine's GPUs gives exactly those rows back; every other
/// machine reads what it read before.
pub proof fn lemma_gpus_read_back(stored: Seq<GpuInfoV>, mid: i64, rows: Seq<GpuInfoV>, other: i64)
    requires
        forall|i: int| 0 <= i < rows.len() ==> (#[trigger] rows[i]).machine_id == mid,
    ensures
        (stored.filter(gpu_not_of(mid)) + rows).filter(gpu_of(mid)) == rows,
        other != mid ==> (stored.filter(gpu_not_of(mid)) + rows).filter(gpu_of(other)) == stored.filter(
            gpu_of(other),
        ),
{
    let kept = stored.filter(gpu_not_of(mid));
    Seq::filter_distributes_over_add(kept, rows, gpu_of(mid));
    assert forall|i: int| 0 <= i < kept.len() implies !gpu_of(mid)(#[trigger] kept[i]) by {
        stored.lemma_filter_pred(gpu_not_of(mid), i);
    }
    lemma_filter_drops_all(kept, gpu_of(mid));
    assert forall|i: int| 0 <= i < rows.len() implies gpu_of(mid)(#[trigger] rows[i]) by {}
    lemma_filter_keeps_every(rows, gpu_of(mid));
    assert(Seq::<GpuInfoV>::empty() + rows =~= rows);
    if other != mid {
        Seq::filter_distributes_over_add(kept, rows, gpu_of(other));
        assert forall|i: int| 0 <= i < rows.len() implies !gpu_of(other)(#[trigger] rows[i]) by {}
        lemma_filter_drops_all(rows, gpu_of(other));
        assert forall|x: GpuInfoV| #[trigger] gpu_of(other)(x) implies gpu_not_of(mid)(x) by {}
        lemma_filter_narrow(stored, gpu_not_of(mid), gpu_of(other));
        assert(kept.filter(gpu_of(other)) + Seq::<GpuInfoV>::empty() =~= kept.filter(gpu_of(other)));
    }
}

proof fn lemma_location_slot_some(rows: Seq<ProjectLocationV>, pid: i64, mid: i64, start: int, k: int)
    requires
        0 <= start,
        location_slot(rows, pid, mid, start) == Some(k),
    ensures
        start <= k < rows.len(),
        rows[k].project_id == pid && rows[k].machine_id == mid,
        forall|j: int| start <= j < k ==> !((#[trigger] rows[j]).project_id == pid && rows[j].machine_id == mid),
    decreases rows.len() - start,
{
    if !(rows[start].project_id == pid && rows[start].machine_id == mid) {
        lemma_location_slot_some(rows, pid, mid, start + 1, k);
    }
}

proof fn lemma_location_slot_none(rows: Seq<ProjectLocationV>, pid: i64, mid: i64, start: int)
    requires
        0 <= start,
        location_slot(rows, pid, mid, start) is None,
    ensures
        forall|j: int| start <= j < rows.len() ==> !((#[trigger] rows[j]).project_id == pid && rows[j].machine_id == mid),
    decreases rows.len() - start,
{
    if start < rows.len() {
        lemma_location_slot_none(rows, pid, mid, start + 1);
    }
}

proof fn lemma_location_slot_first(rows: Seq<ProjectLocationV>, pid: i64, mid: i64, start: int, k: int)
    requires
        0 <= start <= k < rows.len(),
        rows[k].project_id == pid && rows[k].machine_id == mid,
        forall|j: int| start <= j < k ==> !((#[trigger] rows[j]).project_id == pid && rows[j].machine_id == mid),
    ensures
        location_slot(rows, pid, mid, start) == Some(k),
    decreases k - start,
{
    if start < k {
        lemma_location_slot_first(rows, pid, mid, start + 1, k);
    }
}

/// Recording where a project lies on a machine (in place of the first
/// record for the same project and machine, or as a new one) and then
/// looking the project up on that machine finds exactly that record.
pub proof fn lemma_location_read_back(rows: Seq<ProjectLocationV>, l: ProjectLocationV, id: i64)
    ensures
        ({
            let v = ProjectLocationV { id: Some(id), ..l };
            let after = match location_slot(rows, l.project_id, l.machine_id, 0) {
                Some(k) => rows.update(k, v),
                None => rows.push(v),
            };
            location_slot(after, l.project_id, l.machine_id, 0) matches Some(k) && after[k] == v
        }),
{
    let v = ProjectLocationV { id: Some(id), ..l };
    match location_slot(rows, l.project_id, l.machine_id, 0) {
        Some(k) => {
            lemma_location_slot_some(rows, l.project_id, l.machine_id, 0, k);
            let after = rows.update(k, v);
            assert forall|j: int| 0 <= j < k implies !((#[trigger] after[j]).project_id == l.project_id
                && after[j].machine_id == l.machine_id) by {
                assert(after[j] == rows[j]);
            }
            lemma_location_slot_first(after, l.project_id, l.machine_id, 0, k);
        },
        None => {
            lemma_location_slot_none(rows, l.project_id, l.machine_id, 0);
            let after = rows.push(v);
            assert forall|j: int| 0 <= j < rows.len() implies !((#[trigger] after[j]).project_id == l.project_id
                && after[j].machine_id == l.machine_id) by {
                assert(after[j] == rows[j]);
            }
            lemma_location_slot_first(after, l.project_id, l.machine_id, 0, rows.len() as int);
        },
    }
}

proof fn lemma_result_slot_found(rows: Seq<HealthResultV>, run: i64, mid: i64, start: int, k: int)
    requires
        0 <= start,
        result_slot(rows, run, mid, start) == Some(k),
    ensures
        start <= k < rows.len(),
        rows[k].scan_run_id == run && rows[k].machine_id == mid,
        forall|j: int| start <= j < k ==> !((#[trigger] rows[j]).scan_run_id == run && rows[j].machine_id == mid),
    decreases rows.len() - start,
{
    if !(rows[start].scan_run_id == run && rows[start].machine_id == mid) {
        lemma_result_slot_found(rows, run, mid, start + 1, k);
    }
}

proof fn lemma_result_slot_absent(rows: Seq<HealthResultV>, run: i64, mid: i64, start: int)
    requires
        0 <= start,
        result_slot(rows, run, mid, start) is None,
    ensures
        forall|j: int| start <= j < rows.len() ==> !((#[trigger] rows[j]).scan_run_id == run && rows[j].machine_id == mid),
    decreases rows.len() - start,
{
    if start < rows.len() {
        lemma_result_slot_absent(rows, run, mid, start + 1);
    }
}

proof fn lemma_result_slot_earliest(rows: Seq<HealthResultV>, run: i64, mid: i64, start: int, k: int)
    requires
        0 <= start <= k < rows.len(),
        rows[k].scan_run_id == run && rows[k].machine_id == mid,
        forall|j: int| start <= j < k ==> !((#[trigger] rows[j]).scan_run_id == run && rows[j].machine_id == mid),
    ensures
        result_slot(rows, run, mid, start) == Some(k),
    decreases k - start,
{
    if start < k {
        lemma_result_slot_earliest(rows, run, mid, start + 1, k);
    }
}

/// Recording the outcomes of a machine in a run (in place of the first
/// record for the same run and machine, or as a new one) and then looking
/// the run's result for that machine up finds exactly those outcomes.
pub proof fn lemma_result_read_back(rows: Seq<HealthResultV>, v: HealthResultV)
    ensures
        ({
            let after = match result_slot(rows, v.scan_run_id, v.machine_id, 0) {
                Some(k) => rows.update(k, v),
                None => rows.push(v),
            };
            result_slot(after, v.scan_run_id, v.machine_id, 0) matches Some(k) && after[k] == v
        }),
{
    match result_slot(rows, v.scan_run_id, v.machine_id, 0) {
        Some(k) => {
            lemma_result_slot_found(rows, v.scan_run_id, v.machine_id, 0, k);
            let after = rows.update(k, v);
            assert forall|j: int| 0 <= j < k implies !((#[trigger] after[j]).scan_run_id == v.scan_run_id
                && after[j].machine_id == v.machine_id) by {
                assert(after[j] == rows[j]);
            }
            lemma_result_slot_earliest(after, v.scan_run_id, v.machine_id, 0, k);
        },
        None => {
            lemma_result_slot_absent(rows, v.scan_run_id, v.machine_id, 0);
            let after = rows.push(v);
            assert forall|j: int| 0 <= j < rows.len() implies !((#[trigger] after[j]).scan_run_id == v.scan_run_id
                && after[j].machine_id == v.machine_id) by {
                assert(after[j] == rows[j]);
            }
            lemma_result_slot_earliest(after, v.scan_run_id, v.machine_id, 0, rows.len() as int);
        },
    }
}

} // verus!
