//! DDC pak workflow: where a project lives on disk, which engine install
//! builds it, and the install list a machine refresh stores.

use vstd::prelude::*;
use crate::error::UecmError;
use crate::machine::{is_primary_index, key_le, primary_index};
use crate::store::{
    clone_opt, credential_by_alias, install_of, location_slot, machine_by_id, opt_view, Db, MachineV, ProjectLocationV,
};
use crate::text::{chars_of, concat3, int_text, join2, slice_chars, string_from_chars, with_number};

verus! {

/// Where the UI runs a DDC job.
#[derive(Debug, Clone, Copy, PartialEq, Eq)]
pub enum BackendChoice {
    Remote,
    Local,
}

/// What starting a DDC generation job returns.
#[derive(Debug, Clone)]
pub struct GenerateJobResponse {
    pub job_id: String,
    pub source_machine_id: i64,
    pub project_id: i64,
    pub backend: String,
}

// ---------------------------------------------------------------------------
// paths
// ---------------------------------------------------------------------------

/// The index of the last `\` or `/` in `s`, if any.
pub open spec fn last_sep(s: Seq<char>) -> Option<int>
    decreases s.len(),
{
    if s.len() == 0 {
        None
    } else if s.last() == '\\' || s.last() == '/' {
        Some(s.len() - 1)
    } else {
        last_sep(s.drop_last())
    }
}

proof fn lemma_last_sep_range(s: Seq<char>)
    ensures
        last_sep(s) matches Some(i) ==> 0 <= i < s.len(),
    decreases s.len(),
{
    if s.len() > 0 {
        lemma_last_sep_range(s.drop_last());
    }
}

/// The directory of a `.uproject` path: everything before its last `\` or
/// `/`; empty when there is none.
pub fn project_dir_from_uproject_path(path: &str) -> (r: String)
    ensures
        r@ == match last_sep(path@) {
            Some(i) => path@.take(i),
            None => Seq::<char>::empty(),
        },
{
    let v = chars_of(path);
    let mut n: usize = v.len();
    assert(v@.take(n as int) =~= v@);
    while n > 0 && !(v[n - 1] == '\\' || v[n - 1] == '/')
        invariant
            n <= v@.len(),
            last_sep(v@) == last_sep(v@.take(n as int)),
        decreases n,
    {
        assert(v@.take(n as int).drop_last() =~= v@.take(n - 1));
        n = n - 1;
    }
    if n == 0 {
        return String::new();
    }
    assert(v@.take(n as int).last() == v@[n - 1]);
    let dir = slice_chars(v.as_slice(), 0, n - 1);
    assert(dir@ =~= path@.take(n - 1));
    string_from_chars(dir.as_slice())
}

// ---------------------------------------------------------------------------
// engine installs
// ---------------------------------------------------------------------------

/// An Unreal Engine install detected on a machine, with the zen binaries
/// found in its tree.
#[derive(Debug, Clone)]
pub struct UeInstall {
    pub id: Option<i64>,
    pub machine_id: i64,
    pub version: String,
    pub install_path: String,
    pub is_primary: bool,
    pub zen_cli_intree_path: Option<String>,
    pub zen_cli_intree_version: Option<String>,
    pub zen_cli_intree_sha256: Option<String>,
    pub zenserver_intree_path: Option<String>,
    pub zenserver_intree_version: Option<String>,
    pub zenserver_intree_sha256: Option<String>,
}

/// An install row as plain values.
pub struct UeInstallV {
    pub id: Option<i64>,
    pub machine_id: i64,
    pub version: Seq<char>,
    pub install_path: Seq<char>,
    pub is_primary: bool,
    pub zen_cli_intree_path: Option<Seq<char>>,
    pub zen_cli_intree_version: Option<Seq<char>>,
    pub zen_cli_intree_sha256: Option<Seq<char>>,
    pub zenserver_intree_path: Option<Seq<char>>,
    pub zenserver_intree_version: Option<Seq<char>>,
    pub zenserver_intree_sha256: Option<Seq<char>>,
}

impl View for UeInstall {
    type V = UeInstallV;

    open spec fn view(&self) -> UeInstallV {
        UeInstallV {
            id: self.id,
            machine_id: self.machine_id,
            version: self.version@,
            install_path: self.install_path@,
            is_primary: self.is_primary,
            zen_cli_intree_path: opt_view(self.zen_cli_intree_path),
            zen_cli_intree_version: opt_view(self.zen_cli_intree_version),
            zen_cli_intree_sha256: opt_view(self.zen_cli_intree_sha256),
            zenserver_intree_path: opt_view(self.zenserver_intree_path),
            zenserver_intree_version: opt_view(self.zenserver_intree_version),
            zenserver_intree_sha256: opt_view(self.zenserver_intree_sha256),
        }
    }
}

impl UeInstall {
    /// A field-by-field copy.
    pub fn copy(&self) -> (r: UeInstall)
        ensures
            r@ == self@,
    {
        UeInstall {
            id: self.id,
            machine_id: self.machine_id,
            version: self.version.clone(),
            install_path: self.install_path.clone(),
            is_primary: self.is_primary,
            zen_cli_intree_path: clone_opt(&self.zen_cli_intree_path),
            zen_cli_intree_version: clone_opt(&self.zen_cli_intree_version),
            zen_cli_intree_sha256: clone_opt(&self.zen_cli_intree_sha256),
            zenserver_intree_path: clone_opt(&self.zenserver_intree_path),
            zenserver_intree_version: clone_opt(&self.zenserver_intree_version),
            zenserver_intree_sha256: clone_opt(&self.zenserver_intree_sha256),
        }
    }
}

pub open spec fn first_with_version(installs: Seq<UeInstallV>, version: Seq<char>) -> Option<UeInstallV>
    decreases installs.len(),
{
    if installs.len() == 0 {
        None
    } else if installs[0].version == version {
        Some(installs[0])
    } else {
        first_with_version(installs.drop_first(), version)
    }
}

pub open spec fn first_primary(installs: Seq<UeInstallV>) -> Option<UeInstallV>
    decreases installs.len(),
{
    if installs.len() == 0 {
        None
    } else if installs[0].is_primary {
        Some(installs[0])
    } else {
        first_primary(installs.drop_first())
    }
}

/// The engine a job on machine `machine_id` uses: the install of the
/// preferred version if one is asked for (its absence is invalid input),
/// else the primary install, else the first one. A machine without
/// installs is invalid input.
pub open spec fn engine_path_spec(installs: Seq<UeInstallV>, machine_id: i64, preferred: Option<Seq<char>>) -> Result<
    Seq<char>,
    Seq<char>,
> {
    if installs.len() == 0 {
        Err("machine "@ + int_text(machine_id as int) + " has no detected UE installs"@)
    } else {
        match preferred {
            Some(v) => match first_with_version(installs, v) {
                Some(i) => Ok(i.install_path),
                None => Err("UE "@ + v + " not on machine "@ + int_text(machine_id as int)),
            },
            None => match first_primary(installs) {
                Some(i) => Ok(i.install_path),
                None => Ok(installs[0].install_path),
            },
        }
    }
}

/// Picks the engine path as `engine_path_spec` says.
pub fn resolve_engine_path(installs: &Vec<UeInstall>, machine_id: i64, preferred_version: Option<&str>) -> (r:
    Result<String, UecmError>)
    ensures
        match engine_path_spec(
            installs@.map_values(|x: UeInstall| x@),
            machine_id,
            match preferred_version {
                Some(v) => Some(v@),
                None => None,
            },
        ) {
            Ok(p) => r matches Ok(s) && s@ == p,
            Err(m) => r matches Err(e) && e matches UecmError::InvalidInput(m2) && m2@ == m,
        },
{
    if installs.len() == 0 {
        return Err(UecmError::InvalidInput(with_number("machine ", machine_id, " has no detected UE installs")));
    }
    let ghost all = installs@.map_values(|x: UeInstall| x@);
    let mut i: usize = 0;
    assert(all.skip(0) =~= all);
    match preferred_version {
        Some(v) => {
            let want = String::from_str(v);
            while i < installs.len()
                invariant
                    all == installs@.map_values(|x: UeInstall| x@),
                    all.len() > 0,
                    preferred_version == Some(v),
                    want@ == v@,
                    i <= all.len(),
                    first_with_version(all, v@) == first_with_version(all.skip(i as int), v@),
                decreases all.len() - i,
            {
                assert(all.skip(i as int)[0] == all[i as int]);
                assert(all[i as int] == installs@[i as int]@);
                assert(all.skip(i as int).drop_first() =~= all.skip(i + 1));
                if installs[i].version == want {
                    return Ok(installs[i].install_path.clone());
                }
                i = i + 1;
            }
            assert(all.skip(i as int) =~= Seq::<UeInstallV>::empty());
            let head = concat3("UE ", v, " not on machine ");
            let tail = with_number("", machine_id, "");
            proof {
                reveal_strlit("");
            }
            assert(tail@ =~= int_text(machine_id as int));
            Err(UecmError::InvalidInput(join2(&head, &tail)))
        },
        None => {
            while i < installs.len()
                invariant
                    all == installs@.map_values(|x: UeInstall| x@),
                    all.len() > 0,
                    preferred_version is None,
                    i <= all.len(),
                    first_primary(all) == first_primary(all.skip(i as int)),
                decreases all.len() - i,
            {
                assert(all.skip(i as int)[0] == all[i as int]);
                assert(all[i as int] == installs@[i as int]@);
                assert(all.skip(i as int).drop_first() =~= all.skip(i + 1));
                if installs[i].is_primary {
                    return Ok(installs[i].install_path.clone());
                }
                i = i + 1;
            }
            assert(all.skip(i as int) =~= Seq::<UeInstallV>::empty());
            Ok(installs[0].install_path.clone())
        },
    }
}

/// A detected install: `(version, install_path)`.
pub open spec fn detected_view(d: Seq<(String, String)>) -> Seq<(Seq<char>, Seq<char>)> {
    d.map_values(|x: (String, String)| (x.0@, x.1@))
}

/// The first stored install with the same version and path.
pub open spec fn prior_of(existing: Seq<UeInstall>, version: Seq<char>, path: Seq<char>) -> Option<UeInstall>
    decreases existing.len(),
{
    if existing.len() == 0 {
        None
    } else if existing[0].version@ == version && existing[0].install_path@ == path {
        Some(existing[0])
    } else {
        prior_of(existing.drop_first(), version, path)
    }
}

/// Whether `row` is what a refresh stores for a detected install: the
/// detected version and path, and the in-tree
/// zen metadata of the prior row for the same version and path (so a
/// refresh does not lose it).
pub open spec fn refreshed_row_fits(
    row: UeInstall,
    machine_id: i64,
    d: (Seq<char>, Seq<char>),
    existing: Seq<UeInstall>,
) -> bool {
    &&& row.id is None
    &&& row.machine_id == machine_id
    &&& row.version@ == d.0
    &&& row.install_path@ == d.1
    &&& match prior_of(existing, d.0, d.1) {
        Some(p) => {
            &&& opt_view(row.zen_cli_intree_path) == opt_view(p.zen_cli_intree_path)
            &&& opt_view(row.zen_cli_intree_version) == opt_view(p.zen_cli_intree_version)
            &&& opt_view(row.zen_cli_intree_sha256) == opt_view(p.zen_cli_intree_sha256)
            &&& opt_view(row.zenserver_intree_path) == opt_view(p.zenserver_intree_path)
            &&& opt_view(row.zenserver_intree_version) == opt_view(p.zenserver_intree_version)
            &&& opt_view(row.zenserver_intree_sha256) == opt_view(p.zenserver_intree_sha256)
        },
        None => {
            &&& row.zen_cli_intree_path is None
            &&& row.zen_cli_intree_version is None
            &&& row.zen_cli_intree_sha256 is None
            &&& row.zenserver_intree_path is None
            &&& row.zenserver_intree_version is None
            &&& row.zenserver_intree_sha256 is None
        },
    }
}

fn find_prior(existing: &Vec<UeInstall>, version: &String, path: &String) -> (r: Option<usize>)
    ensures
        match prior_of(existing@, version@, path@) {
            Some(p) => r matches Some(k) && k < existing@.len() && existing@[k as int] == p,
            None => r is None,
        },
{
    let ghost all = existing@;
    let mut i: usize = 0;
    assert(all.skip(0) =~= all);
    while i < existing.len()
        invariant
            all == existing@,
            i <= all.len(),
            prior_of(all, version@, path@) == prior_of(all.skip(i as int), version@, path@),
        decreases all.len() - i,
    {
        assert(all.skip(i as int)[0] == all[i as int]);
        assert(all.skip(i as int).drop_first() =~= all.skip(i + 1));
        if existing[i].version == *version && existing[i].install_path == *path {
            return Some(i);
        }
        i = i + 1;
    }
    assert(all.skip(i as int) =~= Seq::<UeInstall>::empty());
    None
}

/// The install rows a refresh of machine `machine_id` stores, one per
/// detected install in order: the newest version (numerically) is primary,
/// and the in-tree zen metadata of matching stored rows is kept.
pub fn refreshed_installs(machine_id: i64, existing: &Vec<UeInstall>, detected: &Vec<(String, String)>) -> (r:
    Vec<UeInstall>)
    ensures
        r@.len() == detected@.len(),
        forall|k: int|
            0 <= k < r@.len() ==> #[trigger] refreshed_row_fits(
                r@[k],
                machine_id,
                detected_view(detected@)[k],
                existing@,
            ),
        forall|k: int|
            0 <= k < r@.len() ==> #[trigger] r@[k].is_primary == is_primary_index(
                detected_view(detected@).map_values(|d: (Seq<char>, Seq<char>)| d.0),
                k,
            ),
{
    let mut versions: Vec<String> = Vec::new();
    let mut i: usize = 0;
    let ghost dv = detected_view(detected@);
    while i < detected.len()
        invariant
            dv == detected_view(detected@),
            i <= detected@.len(),
            versions.deep_view() =~= dv.take(i as int).map_values(|d: (Seq<char>, Seq<char>)| d.0),
        decreases detected@.len() - i,
    {
        versions.push(detected[i].0.clone());
        assert(dv.take(i + 1).map_values(|d: (Seq<char>, Seq<char>)| d.0) =~= dv.take(
            i as int,
        ).map_values(|d: (Seq<char>, Seq<char>)| d.0).push(detected@[i as int].0@));
        i = i + 1;
    }
    assert(dv.take(i as int) =~= dv);
    let ghost vs = dv.map_values(|d: (Seq<char>, Seq<char>)| d.0);
    let primary = primary_index(&versions);
    let p: usize = match primary {
        Some(x) => x,
        None => detected.len(),
    };
    let mut out: Vec<UeInstall> = Vec::new();
    let mut k: usize = 0;
    while k < detected.len()
        invariant
            dv == detected_view(detected@),
            k <= detected@.len(),
            out@.len() == k,
            forall|j: int| 0 <= j < k ==> #[trigger] refreshed_row_fits(out@[j], machine_id, dv[j], existing@),
            forall|j: int| 0 <= j < k ==> #[trigger] out@[j].is_primary == (j == p),
        decreases detected@.len() - k,
    {
        let (version, path) = (&detected[k].0, &detected[k].1);
        let prior = find_prior(existing, version, path);
        let row = match prior {
            Some(x) => {
                let e = &existing[x];
                UeInstall {
                    id: None,
                    machine_id,
                    version: version.clone(),
                    install_path: path.clone(),
                    is_primary: k == p,
                    zen_cli_intree_path: crate::store::clone_opt(&e.zen_cli_intree_path),
                    zen_cli_intree_version: crate::store::clone_opt(&e.zen_cli_intree_version),
                    zen_cli_intree_sha256: crate::store::clone_opt(&e.zen_cli_intree_sha256),
                    zenserver_intree_path: crate::store::clone_opt(&e.zenserver_intree_path),
                    zenserver_intree_version: crate::store::clone_opt(&e.zenserver_intree_version),
                    zenserver_intree_sha256: crate::store::clone_opt(&e.zenserver_intree_sha256),
                }
            },
            None => UeInstall {
                id: None,
                machine_id,
                version: version.clone(),
                install_path: path.clone(),
                is_primary: k == p,
                zen_cli_intree_path: None,
                zen_cli_intree_version: None,
                zen_cli_intree_sha256: None,
                zenserver_intree_path: None,
                zenserver_intree_version: None,
                zenserver_intree_sha256: None,
            },
        };
        out.push(row);
        k = k + 1;
    }
    proof {
        assert(versions.deep_view() == vs);
        assert forall|k: int| 0 <= k < out@.len() implies #[trigger] out@[k].is_primary
            == is_primary_index(vs, k) by {
            if detected@.len() > 0 {
                if k != p {
                    lemma_primary_unique(vs, p as int, k);
                }
            } else {
                assert(false);
            }
        }
    }
    out
}

/// At most one index of a version list is its primary one.
pub proof fn lemma_primary_unique(vs: Seq<Seq<char>>, a: int, b: int)
    requires
        is_primary_index(vs, a),
        a != b,
    ensures
        !is_primary_index(vs, b),
{
    if is_primary_index(vs, b) {
        if a < b {
            assert(key_le(crate::machine::version_key(vs[b]), crate::machine::version_key(vs[a])));
            assert(key_le(crate::machine::version_key(vs[a]), crate::machine::version_key(vs[b])));
        } else {
            assert(key_le(crate::machine::version_key(vs[a]), crate::machine::version_key(vs[b])));
            assert(key_le(crate::machine::version_key(vs[b]), crate::machine::version_key(vs[a])));
        }
    }
}

// ---------------------------------------------------------------------------
// credentials
// ---------------------------------------------------------------------------

// ---------------------------------------------------------------------------
// generation jobs
// ---------------------------------------------------------------------------

/// What a DDC generation runs on: the source machine's address and name
/// (empty for the local backend), the engine and the project.
#[derive(Debug)]
pub struct GenerationTarget {
    pub host: String,
    pub hostname: String,
    pub engine_path: String,
    pub uproject_path: String,
}

pub open spec fn target_view(t: GenerationTarget) -> (Seq<char>, Seq<char>, Seq<char>, Seq<char>) {
    (t.host@, t.hostname@, t.engine_path@, t.uproject_path@)
}

/// The target of a generation job. The remote backend needs a source
/// machine that is in the inventory and a recorded location of the project
/// on it (whose `.uproject` it builds), and builds with the engine
/// `engine_path_spec` picks among the machine's recorded installs. The local backend
/// needs the project's path and an engine path (given, or from the
/// operator's configuration).
pub open spec fn generation_spec(
    machines: Seq<MachineV>,
    backend: BackendChoice,
    source: Option<i64>,
    project_id: i64,
    locations: Seq<ProjectLocationV>,
    installs: Seq<UeInstallV>,
    ue_version: Option<Seq<char>>,
    local_uproject: Option<Seq<char>>,
    local_engine: Option<Seq<char>>,
) -> Result<(Seq<char>, Seq<char>, Seq<char>, Seq<char>), Seq<char>> {
    match backend {
        BackendChoice::Remote => match source {
            None => Err("source_machine_id required for remote backend"@),
            Some(id) => match machine_by_id(machines, id) {
                None => Err("machine "@ + int_text(id as int) + " not found"@),
                Some(m) => match location_slot(locations, project_id, id, 0) {
                    None => Err(
                        "project "@ + int_text(project_id as int) + " not located on machine "@
                            + int_text(id as int),
                    ),
                    Some(k) => match engine_path_spec(installs.filter(install_of(id)), id, ue_version) {
                        Err(e) => Err(e),
                        Ok(p) => Ok((m.ip, m.hostname, p, locations[k].uproject_path)),
                    },
                },
            },
        },
        BackendChoice::Local => match local_uproject {
            None => Err("local_uproject_path required for local backend"@),
            Some(u) => match local_engine {
                None => Err("local_engine_path required for local backend"@),
                Some(p) => Ok((Seq::<char>::empty(), Seq::<char>::empty(), p, u)),
            },
        },
    }
}

/// Resolves what a generation job runs on, as `generation_spec` says; every
/// refusal is invalid input.
pub fn generation_target(
    db: &Db,
    backend: BackendChoice,
    source_machine_id: Option<i64>,
    project_id: i64,
    ue_version: Option<&str>,
    local_uproject_path: Option<String>,
    local_engine_path: Option<String>,
) -> (r: Result<GenerationTarget, UecmError>)
    ensures
        match generation_spec(
            db.machine_rows(),
            backend,
            source_machine_id,
            project_id,
            db.location_rows(),
            db.install_rows(),
            match ue_version {
                Some(v) => Some(v@),
                None => None,
            },
            opt_view(local_uproject_path),
            opt_view(local_engine_path),
        ) {
            Ok(t) => r matches Ok(g) && target_view(g) == t,
            Err(m) => r matches Err(e) && e matches UecmError::InvalidInput(m2) && m2@ == m,
        },
{
    match backend {
        BackendChoice::Remote => {
            let id = match source_machine_id {
                Some(id) => id,
                None => {
                    return Err(
                        UecmError::InvalidInput(String::from_str("source_machine_id required for remote backend")),
                    );
                },
            };
            let machine = match db.find_machine(id) {
                Some(m) => m,
                None => {
                    return Err(UecmError::InvalidInput(with_number("machine ", id, " not found")));
                },
            };
            let uproject_path = match db.location_for(project_id, id) {
                Some(l) => l.uproject_path,
                None => {
                    let head = with_number("project ", project_id, " not located on machine ");
                    let tail = with_number("", id, "");
                    proof {
                        reveal_strlit("");
                    }
                    assert(tail@ =~= int_text(id as int));
                    return Err(UecmError::InvalidInput(join2(&head, &tail)));
                },
            };
            let installs = db.installs_for(id);
            let engine_path = resolve_engine_path(&installs, id, ue_version)?;
            Ok(GenerationTarget { host: machine.ip, hostname: machine.hostname, engine_path, uproject_path })
        },
        BackendChoice::Local => {
            let uproject_path = match local_uproject_path {
                Some(u) => u,
                None => {
                    return Err(
                        UecmError::InvalidInput(String::from_str("local_uproject_path required for local backend")),
                    );
                },
            };
            let engine_path = match local_engine_path {
                Some(p) => p,
                None => {
                    return Err(
                        UecmError::InvalidInput(String::from_str("local_engine_path required for local backend")),
                    );
                },
            };
            Ok(GenerationTarget { host: String::new(), hostname: String::new(), engine_path, uproject_path })
        },
    }
}

pub open spec fn job_id_spec(source: Option<i64>, started_ms: u64) -> Seq<char> {
    "ddc-pak-gen-"@ + int_text(
        match source {
            Some(id) => id as int,
            None => -1,
        },
    ) + "-"@ + int_text(started_ms as int)
}

/// What starting a generation reports: a job id made of the source machine
/// (`-1` for the local backend without one) and the start time in
/// milliseconds, and where the job runs. A remote job whose source machine
/// is the operator's own runs locally.
pub fn generation_response(
    backend: BackendChoice,
    source_is_this_machine: bool,
    source_machine_id: Option<i64>,
    project_id: i64,
    started_ms: u64,
) -> (r: GenerateJobResponse)
    ensures
        r.job_id@ == job_id_spec(source_machine_id, started_ms),
        r.source_machine_id == match source_machine_id {
            Some(id) => id,
            None => -1i64,
        },
        r.project_id == project_id,
        r.backend@ == (if backend == BackendChoice::Remote && !source_is_this_machine {
            "remote"@
        } else {
            "local"@
        }),
{
    let source = match source_machine_id {
        Some(id) => id,
        None => -1,
    };
    let head = with_number("ddc-pak-gen-", source, "-");
    let tail = string_from_chars(&crate::text::decimal_exec(started_ms));
    assert(tail@ =~= int_text(started_ms as int));
    let job_id = join2(&head, &tail);
    let remote = match backend {
        BackendChoice::Remote => !source_is_this_machine,
        BackendChoice::Local => false,
    };
    GenerateJobResponse {
        job_id,
        source_machine_id: source,
        project_id,
        backend: if remote {
            String::from_str("remote")
        } else {
            String::from_str("local")
        },
    }
}

/// How a finished generation is recorded: `ok` for exit code 0, `err`
/// otherwise; only a generation that exited with 0 has its output checked.
pub fn generation_status(exit_code: i32) -> (r: &'static str)
    ensures
        r@ == (if exit_code == 0 {
            "ok"@
        } else {
            "err"@
        }),
{
    if exit_code == 0 {
        "ok"
    } else {
        "err"
    }
}

/// Splits a resolved credential into its optional user and password.
pub fn resolve_creds(resolved: Option<(String, String)>) -> (r: (Option<String>, Option<String>))
    ensures
        match resolved {
            Some((u, p)) => opt_view(r.0) == Some(u@) && opt_view(r.1) == Some(p@),
            None => r.0 is None && r.1 is None,
        },
{
    match resolved {
        Some((u, p)) => (Some(u), Some(p)),
        None => (None, None),
    }
}

/// The operator's credential: with an alias, its saved username (the
/// password is then read from the secret store); an unknown alias is
/// invalid input; without an alias, none.
pub fn resolve_operator_user(db: &Db, alias: Option<&str>) -> (r: Result<Option<String>, UecmError>)
    ensures
        match alias {
            None => r matches Ok(u) && u is None,
            Some(a) => match credential_by_alias(db.credential_rows(), a@) {
                Some(c) => r matches Ok(u) && opt_view(u) == Some(c.username),
                None => r matches Err(e) && e matches UecmError::InvalidInput(m) && m@
                    == "credential '"@ + a@ + "' not found"@,
            },
        },
{
    match alias {
        None => Ok(None),
        Some(a) => match db.find_credential(a) {
            Some(c) => Ok(Some(c.username)),
            None => Err(UecmError::InvalidInput(concat3("credential '", a, "' not found"))),
        },
    }
}

} // verus!
