//! Result documents of the inventory commands, and the machine address
//! lookups they share.

use vstd::prelude::*;
use crate::ddc::UeInstall;
use crate::error::UecmError;
use crate::store::{
    clone_opt, credential_by_alias, machine_by_id, opt_view, CredentialRecord, CredentialRecordV, Db, ShareConfig,
    ShareConfigV,
};
use crate::text::{int_text, with_number};

verus! {

/// One host of a network scan and the ports found open on it.
#[derive(Debug, Clone)]
pub struct ProbedHost {
    pub ip: String,
    pub winrm_open: bool,
    pub smb_open: bool,
    pub rpc_open: bool,
}

/// The hosts a network scan found.
#[derive(Debug, Clone)]
pub struct ScanResult {
    pub probed: Vec<ProbedHost>,
}

/// One GPU of a machine.
#[derive(Debug, Clone)]
pub struct GpuInfo {
    pub id: Option<i64>,
    pub machine_id: i64,
    pub gpu_model: String,
    pub driver_version: String,
    pub vendor: String,
    pub vram_mb: Option<i64>,
}

/// A GPU row as plain values.
pub struct GpuInfoV {
    pub id: Option<i64>,
    pub machine_id: i64,
    pub gpu_model: Seq<char>,
    pub driver_version: Seq<char>,
    pub vendor: Seq<char>,
    pub vram_mb: Option<i64>,
}

impl View for GpuInfo {
    type V = GpuInfoV;

    open spec fn view(&self) -> GpuInfoV {
        GpuInfoV {
            id: self.id,
            machine_id: self.machine_id,
            gpu_model: self.gpu_model@,
            driver_version: self.driver_version@,
            vendor: self.vendor@,
            vram_mb: self.vram_mb,
        }
    }
}

impl GpuInfo {
    /// A field-by-field copy.
    pub fn copy(&self) -> (r: GpuInfo)
        ensures
            r@ == self@,
    {
        GpuInfo {
            id: self.id,
            machine_id: self.machine_id,
            gpu_model: self.gpu_model.clone(),
            driver_version: self.driver_version.clone(),
            vendor: self.vendor.clone(),
            vram_mb: self.vram_mb,
        }
    }
}

/// What refreshing a machine found.
#[derive(Debug, Clone)]
pub struct RefreshResult {
    pub machine_id: i64,
    pub winrm_ok: bool,
    pub ue_installs: Vec<UeInstall>,
    pub gpus: Vec<GpuInfo>,
    pub error: Option<String>,
}

/// The counts of an INI scan run.
#[derive(Debug, Clone)]
pub struct ScanRunSummary {
    pub scan_run_id: i64,
    pub critical: i64,
    pub warning: i64,
    pub healthy: i64,
}

/// A project with the number of machines it is located on.
#[derive(Debug, Clone)]
pub struct ProjectSummary {
    pub id: i64,
    pub uproject_name: String,
    pub display_name: Option<String>,
    pub uproject_guid: Option<String>,
    pub location_count: i64,
}

/// How an SMB share is opened up.
#[derive(Debug, Clone, Copy, PartialEq, Eq)]
pub enum ShareMode {
    /// Guest and Everyone with full access; no service credential.
    Open,
    /// A dedicated service account with a generated password.
    Managed,
}

/// What creating a share returns.
#[derive(Debug, Clone)]
pub struct CreateShareResponse {
    pub share_config_id: i64,
    pub unc_path: String,
    pub mode: ShareMode,
    pub credential_alias: Option<String>,
}

/// The outcome of injecting the share credential on one client.
#[derive(Debug, Clone)]
pub struct InjectionResult {
    pub client_machine_id: i64,
    pub ok: bool,
    pub message: String,
}

/// What the PowerShell bridge echoes back.
#[derive(Debug, Clone)]
pub struct EchoResult {
    pub received: String,
    pub timestamp: String,
    pub machine: String,
}

/// The service account of a managed share: the one given, unless it is
/// missing or empty, else `ddc-svc`.
pub fn managed_svc_user(svc_username: Option<&str>) -> (r: String)
    ensures
        r@ == match svc_username {
            Some(u) if u@.len() > 0 => u@,
            _ => "ddc-svc"@,
        },
{
    match svc_username {
        Some(u) if u.unicode_len() > 0 => String::from_str(u),
        _ => String::from_str("ddc-svc"),
    }
}

/// The alias a managed share's service credential is saved under.
pub fn share_credential_alias(host_hostname: &str, svc_user: &str) -> (r: String)
    ensures
        r@ == "UECM:share:"@ + host_hostname@ + ":"@ + svc_user@,
{
    let a = crate::text::concat3("UECM:share:", host_hostname, ":");
    let b = String::from_str(svc_user);
    crate::text::join2(&a, &b)
}

/// Once a managed share is up on machine `host_machine_id`: the alias of
/// its service credential, saved as a `share` credential of `svc_user`
/// unless a credential of that alias exists already. An unknown host is
/// invalid input and saves nothing.
pub fn remember_share_credential(db: &mut Db, host_machine_id: i64, svc_user: &str) -> (r: Result<
    String,
    UecmError,
>)
    requires
        old(db).wf(),
    ensures
        final(db).wf(),
        final(db).machine_rows() == old(db).machine_rows(),
        final(db).endpoint_rows() == old(db).endpoint_rows(),
        final(db).baseline_rows() == old(db).baseline_rows(),
        final(db).probe_rows() == old(db).probe_rows(),
        final(db).share_rows() == old(db).share_rows(),
        final(db).next_share() == old(db).next_share(),
        match machine_by_id(old(db).machine_rows(), host_machine_id) {
            None => (r matches Err(e) && e matches UecmError::InvalidInput(m) && m@
                == machine_not_found_msg(host_machine_id)) && final(db).credential_rows() == old(
                db,
            ).credential_rows(),
            Some(host) => {
                let alias = "UECM:share:"@ + host.hostname + ":"@ + svc_user@;
                &&& r matches Ok(a) && a@ == alias
                &&& credential_by_alias(old(db).credential_rows(), alias) is Some
                    ==> final(db).credential_rows() == old(db).credential_rows()
                &&& credential_by_alias(old(db).credential_rows(), alias) is None
                    ==> final(db).credential_rows() == old(db).credential_rows().filter(
                    |c: CredentialRecordV| c.alias != alias,
                ).push(CredentialRecordV { alias, username: svc_user@, kind: "share"@ })
            },
        },
{
    let hostname = host_hostname(db, host_machine_id)?;
    let alias = share_credential_alias(hostname.as_str(), svc_user);
    if db.find_credential(alias.as_str()).is_none() {
        let rec = CredentialRecord {
            alias: alias.clone(),
            username: String::from_str(svc_user),
            kind: String::from_str("share"),
        };
        db.save_credential(&rec);
    }
    Ok(alias)
}

/// The service credential a client injection uses: only a managed share has
/// one; a managed share without one is a broken record.
pub fn injection_alias(mode: ShareMode, credential_alias: Option<String>) -> (r: Result<String, UecmError>)
    ensures
        mode == ShareMode::Open ==> (r matches Err(e) && e matches UecmError::InvalidInput(m) && m@
            == "credential injection only applies to Mode B (managed) shares"@),
        mode == ShareMode::Managed ==> match credential_alias {
            Some(a) => r == Ok::<String, UecmError>(a),
            None => r matches Err(e) && e matches UecmError::OperationFailed(m) && m@
                == "managed share missing credential_alias"@,
        },
{
    match mode {
        ShareMode::Open => Err(
            UecmError::InvalidInput(
                String::from_str("credential injection only applies to Mode B (managed) shares"),
            ),
        ),
        ShareMode::Managed => match credential_alias {
            Some(a) => Ok(a),
            None => Err(UecmError::OperationFailed(String::from_str("managed share missing credential_alias"))),
        },
    }
}

pub open spec fn unknown_alias_msg(alias: Seq<char>) -> Seq<char> {
    "credential alias '"@ + alias + "' not found"@
}

/// The username saved under a credential alias (a batch reads the password
/// from the secret store); an unknown alias is invalid input.
pub fn saved_username(db: &Db, alias: &str) -> (r: Result<String, UecmError>)
    ensures
        match credential_by_alias(db.credential_rows(), alias@) {
            Some(c) => r matches Ok(u) && u@ == c.username,
            None => r matches Err(e) && e matches UecmError::InvalidInput(m) && m@ == unknown_alias_msg(
                alias@,
            ),
        },
{
    match db.find_credential(alias) {
        Some(c) => Ok(c.username),
        None => Err(UecmError::InvalidInput(crate::text::concat3("credential alias '", alias, "' not found"))),
    }
}

/// The operator credential of the share commands: none when no alias (or
/// an empty one) is given, else the username saved under it.
pub fn share_operator_user(db: &Db, alias: Option<&str>) -> (r: Result<Option<String>, UecmError>)
    ensures
        match alias {
            Some(a) if a@.len() > 0 => match credential_by_alias(db.credential_rows(), a@) {
                Some(c) => r matches Ok(Some(u)) && u@ == c.username,
                None => r matches Err(e) && e matches UecmError::InvalidInput(m) && m@
                    == unknown_alias_msg(a@),
            },
            _ => r matches Ok(None),
        },
{
    match alias {
        Some(a) => {
            if a.unicode_len() == 0 {
                return Ok(None);
            }
            match saved_username(db, a) {
                Ok(u) => Ok(Some(u)),
                Err(e) => Err(e),
            }
        },
        None => Ok(None),
    }
}

pub open spec fn machine_not_found_msg(id: i64) -> Seq<char> {
    "machine "@ + int_text(id as int) + " not found"@
}

/// The IP of a known machine; an unknown id is invalid input.
pub fn ip_for(db: &Db, machine_id: i64) -> (r: Result<String, UecmError>)
    ensures
        match machine_by_id(db.machine_rows(), machine_id) {
            Some(m) => r matches Ok(ip) && ip@ == m.ip,
            None => r matches Err(e) && e matches UecmError::InvalidInput(msg) && msg@
                == machine_not_found_msg(machine_id),
        },
{
    match db.find_machine(machine_id) {
        Some(m) => Ok(m.ip),
        None => Err(UecmError::InvalidInput(with_number("machine ", machine_id, " not found"))),
    }
}

/// The hostname of a known machine; an unknown id is invalid input.
pub fn host_hostname(db: &Db, machine_id: i64) -> (r: Result<String, UecmError>)
    ensures
        match machine_by_id(db.machine_rows(), machine_id) {
            Some(m) => r matches Ok(h) && h@ == m.hostname,
            None => r matches Err(e) && e matches UecmError::InvalidInput(msg) && msg@
                == machine_not_found_msg(machine_id),
        },
{
    match db.find_machine(machine_id) {
        Some(m) => Ok(m.hostname),
        None => Err(UecmError::InvalidInput(with_number("machine ", machine_id, " not found"))),
    }
}

/// The IPs of the given machines, in order, or the error for the first
/// unknown id: a batch touches no host unless every target is known.
pub open spec fn ips_spec(rows: Seq<crate::store::MachineV>, ids: Seq<i64>) -> Result<Seq<(i64, Seq<char>)>, i64>
    decreases ids.len(),
{
    if ids.len() == 0 {
        Ok(Seq::empty())
    } else {
        match ips_spec(rows, ids.drop_last()) {
            Err(bad) => Err(bad),
            Ok(prev) => match machine_by_id(rows, ids.last()) {
                Some(m) => Ok(prev.push((ids.last(), m.ip))),
                None => Err(ids.last()),
            },
        }
    }
}

pub open spec fn pairs_view(v: Seq<(i64, String)>) -> Seq<(i64, Seq<char>)> {
    v.map_values(|p: (i64, String)| (p.0, p.1@))
}

proof fn lemma_ips_error_sticks(rows: Seq<crate::store::MachineV>, ids: Seq<i64>, k: int)
    requires
        0 <= k <= ids.len(),
        ips_spec(rows, ids.take(k)) is Err,
    ensures
        ips_spec(rows, ids) == ips_spec(rows, ids.take(k)),
    decreases ids.len() - k,
{
    if k < ids.len() {
        assert(ids.drop_last().take(k) =~= ids.take(k));
        lemma_ips_error_sticks(rows, ids.drop_last(), k);
    } else {
        assert(ids.take(k) =~= ids);
    }
}

/// The IPs of the given machines, as `ips_spec` says.
pub fn ips_for(db: &Db, machine_ids: &Vec<i64>) -> (r: Result<Vec<(i64, String)>, UecmError>)
    ensures
        match ips_spec(db.machine_rows(), machine_ids@) {
            Ok(pairs) => r matches Ok(v) && pairs_view(v@) == pairs,
            Err(bad) => r matches Err(e) && e matches UecmError::InvalidInput(m) && m@
                == machine_not_found_msg(bad),
        },
{
    let mut out: Vec<(i64, String)> = Vec::new();
    let mut i: usize = 0;
    assert(machine_ids@.take(0) =~= Seq::<i64>::empty());
    assert(pairs_view(out@) =~= Seq::<(i64, Seq<char>)>::empty());
    while i < machine_ids.len()
        invariant
            i <= machine_ids@.len(),
            out@.len() == i,
            ips_spec(db.machine_rows(), machine_ids@.take(i as int)) == Ok::<Seq<(i64, Seq<char>)>, i64>(
                pairs_view(out@),
            ),
        decreases machine_ids@.len() - i,
    {
        let id = machine_ids[i];
        assert(machine_ids@.take(i + 1).drop_last() =~= machine_ids@.take(i as int));
        match ip_for(db, id) {
            Ok(ip) => {
                let ghost before = pairs_view(out@);
                let ghost ipv = ip@;
                out.push((id, ip));
                assert(pairs_view(out@) =~= before.push((id, ipv)));
            },
            Err(e) => {
                proof {
                    lemma_ips_error_sticks(db.machine_rows(), machine_ids@, (i + 1) as int);
                }
                return Err(e);
            },
        }
        i = i + 1;
    }
    assert(machine_ids@.take(i as int) =~= machine_ids@);
    Ok(out)
}

/// The credential alias a new share is recorded with: a managed share's
/// service credential alias, none for an open share.
pub open spec fn share_alias(mode: ShareMode, host_hostname: Seq<char>, svc_user: Seq<char>) -> Option<Seq<char>> {
    match mode {
        ShareMode::Managed => Some("UECM:share:"@ + host_hostname + ":"@ + svc_user),
        ShareMode::Open => None,
    }
}

/// What `create_share` records once the host has set the share up at
/// `unc_path`: for a managed share, the service credential of `svc_user`
/// (as `remember_share_credential` says); then the share itself under the
/// next share id. An unknown host is invalid input and records nothing.
pub fn record_share(
    db: &mut Db,
    host_machine_id: i64,
    mode: ShareMode,
    share_name: String,
    local_path: String,
    svc_user: &str,
    unc_path: String,
) -> (r: Result<CreateShareResponse, UecmError>)
    requires
        old(db).wf(),
    ensures
        final(db).wf(),
        final(db).machine_rows() == old(db).machine_rows(),
        match machine_by_id(old(db).machine_rows(), host_machine_id) {
            None => (r matches Err(e) && e matches UecmError::InvalidInput(m) && m@ == machine_not_found_msg(
                host_machine_id,
            )) && final(db).credential_rows() == old(db).credential_rows() && final(db).share_rows() == old(
                db,
            ).share_rows(),
            Some(host) => {
                let alias = share_alias(mode, host.hostname, svc_user@);
                let cfg = ShareConfigV {
                    id: Some(old(db).next_share()),
                    host_machine_id,
                    share_name: share_name@,
                    unc_path: unc_path@,
                    local_path: local_path@,
                    mode,
                    credential_alias: alias,
                };
                &&& mode == ShareMode::Open ==> final(db).credential_rows() == old(db).credential_rows()
                &&& mode == ShareMode::Managed ==> match alias {
                    Some(a) => if credential_by_alias(old(db).credential_rows(), a) is Some {
                        final(db).credential_rows() == old(db).credential_rows()
                    } else {
                        final(db).credential_rows() == old(db).credential_rows().filter(
                            |c: CredentialRecordV| c.alias != a,
                        ).push(CredentialRecordV { alias: a, username: svc_user@, kind: "share"@ })
                    },
                    None => false,
                }
                &&& if old(db).next_share() < i64::MAX {
                    &&& r matches Ok(resp)
                    &&& resp.share_config_id == old(db).next_share()
                    &&& resp.unc_path@ == unc_path@
                    &&& resp.mode == mode
                    &&& opt_view(resp.credential_alias) == alias
                    &&& final(db).share_rows() == old(db).share_rows().push(cfg)
                } else {
                    r is Err && final(db).share_rows() == old(db).share_rows()
                }
            },
        },
{
    host_hostname(db, host_machine_id)?;
    let alias: Option<String> = match mode {
        ShareMode::Managed => Some(remember_share_credential(db, host_machine_id, svc_user)?),
        ShareMode::Open => None,
    };
    let cfg = ShareConfig {
        id: None,
        host_machine_id,
        share_name,
        unc_path: unc_path.clone(),
        local_path,
        mode,
        credential_alias: clone_opt(&alias),
    };
    let id = db.insert_share(&cfg)?;
    Ok(CreateShareResponse { share_config_id: id, unc_path, mode, credential_alias: alias })
}

/// The share every machine of a health run is checked against, and the
/// service account it is reached with: the first share recorded (none
/// gives an empty path) and the username of its credential, `ddc-svc` when
/// it has no credential or the credential is not saved.
pub open spec fn cluster_share_spec(shares: Seq<ShareConfigV>, creds: Seq<CredentialRecordV>) -> (Seq<char>, Seq<char>) {
    if shares.len() == 0 {
        (Seq::<char>::empty(), "ddc-svc"@)
    } else {
        (
            shares[0].unc_path,
            match shares[0].credential_alias {
                Some(a) => match credential_by_alias(creds, a) {
                    Some(c) => c.username,
                    None => "ddc-svc"@,
                },
                None => "ddc-svc"@,
            },
        )
    }
}

/// The share and service account of a health run, as `cluster_share_spec`
/// says.
pub fn cluster_share(db: &Db) -> (r: (String, String))
    ensures
        (r.0@, r.1@) == cluster_share_spec(db.share_rows(), db.credential_rows()),
{
    let shares = db.all_shares();
    if shares.len() == 0 {
        return (String::new(), String::from_str("ddc-svc"));
    }
    assert(shares@.map_values(|x: ShareConfig| x@)[0] == db.share_rows()[0]);
    let first = &shares[0];
    let user = match &first.credential_alias {
        Some(a) => match db.find_credential(a.as_str()) {
            Some(c) => c.username,
            None => String::from_str("ddc-svc"),
        },
        None => String::from_str("ddc-svc"),
    };
    (first.unc_path.clone(), user)
}

} // verus!
