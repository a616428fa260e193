//! INI commands: the dry-run plan of `ini set` (which never shows the value,
//! only its length and a SHA-256 prefix), redaction of the value from error
//! messages, target selection, the checks before applying a finding, and
//! the outcome of batch writes.

use vstd::prelude::*;
use vstd::string::StringSliceAdditionalSpecFns;
use sha2::{Digest, Sha256};
use crate::args::HostArgs;
use crate::error::UecmError;
use crate::health::eq_ignore_ascii_case;
use crate::text::{chars_eq, chars_of, int_text, ratio_text, slice_chars, string_from_chars, str_is};

verus! {

// ---------------------------------------------------------------------------
// value fingerprint
// ---------------------------------------------------------------------------

/// The SHA-256 digest of a byte string.
pub uninterp spec fn sha256_of(data: Seq<u8>) -> Seq<u8>;

/// `sha2::Sha256::digest`: the 32-byte SHA-256 digest of `data`, named by
/// `sha256_of`; nothing else about its value is assumed.
#[verifier::external_body]
fn sha256_digest(data: &[u8]) -> (r: Vec<u8>)
    ensures
        r@ == sha256_of(data@),
        r@.len() == 32,
{
    Sha256::digest(data).to_vec()
}

pub open spec fn hex_digit(n: int) -> char {
    if n < 10 {
        ('0' as int + n) as char
    } else {
        ('a' as int + n - 10) as char
    }
}

/// Lowercase hex of the first `n` bytes, two digits per byte.
pub open spec fn hex_prefix_spec(bytes: Seq<u8>, n: int) -> Seq<char>
    decreases n,
{
    if n <= 0 {
        Seq::<char>::empty()
    } else {
        hex_prefix_spec(bytes, n - 1).push(hex_digit(bytes[n - 1] as int / 16)).push(
            hex_digit(bytes[n - 1] as int % 16),
        )
    }
}

fn hex_digit_exec(n: u8) -> (c: char)
    requires
        n < 16,
    ensures
        c == hex_digit(n as int),
{
    if n < 10 {
        (48u8 + n) as char
    } else {
        (97u8 + n - 10) as char
    }
}

/// The lowercase hex spelling of the first `n` bytes of `bytes`.
pub fn hex_prefix(bytes: &Vec<u8>, n: usize) -> (r: String)
    requires
        n <= bytes@.len(),
    ensures
        r@ == hex_prefix_spec(bytes@, n as int),
{
    let mut out: Vec<char> = Vec::new();
    let mut i: usize = 0;
    while i < n
        invariant
            n <= bytes@.len(),
            i <= n,
            out@ == hex_prefix_spec(bytes@, i as int),
        decreases n - i,
    {
        let b = bytes[i];
        out.push(hex_digit_exec(b / 16));
        out.push(hex_digit_exec(b % 16));
        i = i + 1;
    }
    string_from_chars(out.as_slice())
}

/// The first four bytes of the SHA-256 of a value's UTF-8 bytes, in hex: a
/// fingerprint that identifies a value in a plan without revealing it.
pub fn value_sha256_prefix(value: &str) -> (r: String)
    ensures
        r@ == hex_prefix_spec(sha256_of(value.spec_bytes()), 4),
{
    let digest = sha256_digest(value.as_bytes());
    hex_prefix(&digest, 4)
}

// ---------------------------------------------------------------------------
// redaction
// ---------------------------------------------------------------------------

/// `s` with every occurrence of `pat` replaced by `rep`, scanning left to
/// right as `str::replace` does (`pat` non-empty).
pub open spec fn replace_all(s: Seq<char>, pat: Seq<char>, rep: Seq<char>) -> Seq<char>
    decreases s.len(),
{
    if s.len() == 0 || pat.len() == 0 {
        s
    } else if pat.len() <= s.len() && s.take(pat.len() as int) == pat {
        rep + replace_all(s.skip(pat.len() as int), pat, rep)
    } else {
        seq![s[0]] + replace_all(s.skip(1), pat, rep)
    }
}

pub open spec fn redaction_marker() -> Seq<char> {
    "[REDACTED:value]"@
}

fn starts_at(s: &Vec<char>, i: usize, pat: &Vec<char>) -> (r: bool)
    requires
        i <= s@.len(),
    ensures
        r == (pat@.len() <= s@.len() - i && s@.skip(i as int).take(pat@.len() as int) == pat@),
{
    if pat.len() > s.len() - i {
        return false;
    }
    let n: usize = s.len();
    let mut j: usize = 0;
    while j < pat.len()
        invariant
            n == s@.len(),
            i <= s@.len(),
            pat@.len() <= s@.len() - i,
            j <= pat@.len(),
            forall|k: int| 0 <= k < j ==> s@[i + k] == pat@[k],
        decreases pat@.len() - j,
    {
        if s[i + j] != pat[j] {
            assert(s@.skip(i as int).take(pat@.len() as int)[j as int] == s@[i + j]);
            return false;
        }
        j = j + 1;
    }
    assert(s@.skip(i as int).take(pat@.len() as int) =~= pat@);
    true
}

/// Replaces every occurrence of a non-empty `value` in `msg` by
/// `[REDACTED:value]`, so that no error message carries the value.
pub fn redact_in_string(msg: String, value: &str) -> (r: String)
    ensures
        r@ == replace_all(msg@, value@, redaction_marker()),
{
    let s = chars_of(msg.as_str());
    let pat = chars_of(value);
    if pat.len() == 0 {
        return msg;
    }
    let rep = chars_of("[REDACTED:value]");
    let ghost goal = replace_all(s@, pat@, rep@);
    let mut out: Vec<char> = Vec::new();
    let mut i: usize = 0;
    assert(s@.skip(0) =~= s@);
    while i < s.len()
        invariant
            pat@.len() > 0,
            rep@ == redaction_marker(),
            i <= s@.len(),
            goal == replace_all(s@, pat@, rep@),
            out@ + replace_all(s@.skip(i as int), pat@, rep@) == goal,
        decreases s@.len() - i,
    {
        let ghost rest = s@.skip(i as int);
        if starts_at(&s, i, &pat) {
            assert(rest.skip(pat@.len() as int) =~= s@.skip(i + pat@.len()));
            let ghost before = out@;
            let mut k: usize = 0;
            while k < rep.len()
                invariant
                    k <= rep@.len(),
                    out@ == before + rep@.take(k as int),
                decreases rep@.len() - k,
            {
                out.push(rep[k]);
                assert(rep@.take(k + 1) =~= rep@.take(k as int).push(rep@[k as int]));
                k = k + 1;
            }
            assert(rep@.take(rep@.len() as int) =~= rep@);
            assert(before + (rep@ + replace_all(s@.skip(i + pat@.len()), pat@, rep@)) =~= out@
                + replace_all(s@.skip(i + pat@.len()), pat@, rep@));
            i = i + pat.len();
        } else {
            assert(rest.skip(1) =~= s@.skip(i + 1));
            assert(rest[0] == s@[i as int]);
            let ghost before = out@;
            out.push(s[i]);
            assert(before + (seq![s@[i as int]] + replace_all(s@.skip(i + 1), pat@, rep@)) =~= out@
                + replace_all(s@.skip(i + 1), pat@, rep@));
            i = i + 1;
        }
    }
    assert(s@.skip(i as int) =~= Seq::<char>::empty());
    assert(out@ =~= goal);
    string_from_chars(out.as_slice())
}

/// Whether `pat` occurs in `s` at position `i`.
pub open spec fn occurs_at(s: Seq<char>, pat: Seq<char>, i: int) -> bool {
    0 <= i && i + pat.len() <= s.len() && s.subrange(i, i + pat.len()) == pat
}

/// No character of `a` occurs in `b`.
pub open spec fn chars_disjoint(a: Seq<char>, b: Seq<char>) -> bool {
    forall|j: int, k: int| 0 <= j < a.len() && 0 <= k < b.len() ==> a[j] != b[k]
}

proof fn lemma_plain_prefix(t: Seq<char>, pat: Seq<char>, rep: Seq<char>, k: int)
    requires
        pat.len() > 0,
        rep.len() > 0,
        0 <= k <= replace_all(t, pat, rep).len(),
        forall|j: int, m: int|
            0 <= j < k && 0 <= m < rep.len() ==> #[trigger] replace_all(t, pat, rep)[j] != #[trigger] rep[m],
    ensures
        k <= t.len(),
        replace_all(t, pat, rep).take(k) =~= t.take(k),
    decreases k,
{
    if k > 0 {
        let out = replace_all(t, pat, rep);
        if t.len() == 0 {
            assert(out.len() == 0);
        } else if pat.len() <= t.len() && t.take(pat.len() as int) == pat {
            assert(out[0] == rep[0]);
            assert(false);
        } else {
            let r = replace_all(t.skip(1), pat, rep);
            assert(out == seq![t[0]] + r);
            assert forall|j: int, m: int| 0 <= j < k - 1 && 0 <= m < rep.len() implies #[trigger] r[j]
                != #[trigger] rep[m] by {
                assert(out[j + 1] == r[j]);
            }
            lemma_plain_prefix(t.skip(1), pat, rep, k - 1);
            assert(out.take(k) =~= seq![t[0]] + r.take(k - 1));
            assert(t.take(k) =~= seq![t[0]] + t.skip(1).take(k - 1));
        }
    }
}

/// Redaction hides the value: when the value is not empty and shares no
/// character with the marker `[REDACTED:value]`, the redacted message
/// contains the value nowhere.
pub proof fn lemma_redaction_hides_value(msg: Seq<char>, value: Seq<char>)
    requires
        value.len() > 0,
        chars_disjoint(value, redaction_marker()),
    ensures
        forall|i: int| !#[trigger] occurs_at(replace_all(msg, value, redaction_marker()), value, i),
    decreases msg.len(),
{
    reveal_strlit("[REDACTED:value]");
    let rep = redaction_marker();
    let n = value.len() as int;
    let out = replace_all(msg, value, rep);
    if msg.len() == 0 {
        assert forall|i: int| !#[trigger] occurs_at(out, value, i) by {}
    } else if n <= msg.len() && msg.take(n) == value {
        let r = replace_all(msg.skip(n), value, rep);
        lemma_redaction_hides_value(msg.skip(n), value);
        assert(out == rep + r);
        assert forall|i: int| !#[trigger] occurs_at(out, value, i) by {
            if occurs_at(out, value, i) {
                if i < rep.len() {
                    assert(out.subrange(i, i + n)[0] == value[0]);
                    assert(out[i] == rep[i]);
                } else {
                    assert(r.subrange(i - rep.len(), i - rep.len() + n) =~= out.subrange(i, i + n));
                    assert(occurs_at(r, value, i - rep.len()));
                }
            }
        }
    } else {
        let r = replace_all(msg.skip(1), value, rep);
        lemma_redaction_hides_value(msg.skip(1), value);
        assert(out == seq![msg[0]] + r);
        assert forall|i: int| !#[trigger] occurs_at(out, value, i) by {
            if occurs_at(out, value, i) {
                if i > 0 {
                    assert(r.subrange(i - 1, i - 1 + n) =~= out.subrange(i, i + n));
                    assert(occurs_at(r, value, i - 1));
                } else {
                    assert forall|j: int, m: int| 0 <= j < n - 1 && 0 <= m < rep.len() implies #[trigger] r[j]
                        != #[trigger] rep[m] by {
                        assert(out.subrange(0, n)[j + 1] == value[j + 1]);
                        assert(out[j + 1] == r[j]);
                    }
                    lemma_plain_prefix(msg.skip(1), value, rep, n - 1);
                    assert(msg.take(n) =~= seq![msg[0]] + msg.skip(1).take(n - 1));
                    assert(out.subrange(0, n) =~= seq![msg[0]] + r.take(n - 1));
                }
            }
        }
    }
}

/// Redacts the value from the message of a PowerShell or operation
/// failure; other errors pass unchanged.
pub fn redact_error(e: UecmError, value: &str) -> (r: UecmError)
    ensures
        match e {
            UecmError::PowerShell(m) => r matches UecmError::PowerShell(m2) && m2@ == replace_all(
                m@,
                value@,
                redaction_marker(),
            ),
            UecmError::OperationFailed(m) => r matches UecmError::OperationFailed(m2) && m2@
                == replace_all(m@, value@, redaction_marker()),
            _ => r == e,
        },
{
    match e {
        UecmError::PowerShell(msg) => UecmError::PowerShell(redact_in_string(msg, value)),
        UecmError::OperationFailed(msg) => UecmError::OperationFailed(redact_in_string(msg, value)),
        other => other,
    }
}

// ---------------------------------------------------------------------------
// targets and plans
// ---------------------------------------------------------------------------

/// The hosts a write goes to.
#[derive(Debug)]
pub enum HostTarget {
    Single(String),
    Batch(Vec<String>),
}

pub open spec fn target_hosts(t: HostTarget) -> Seq<Seq<char>> {
    match t {
        HostTarget::Single(h) => seq![h@],
        HostTarget::Batch(hs) => hs.deep_view(),
    }
}

/// Exactly one of `--host` / `--hosts` must be given.
pub fn require_one(target: &HostArgs) -> (r: Result<HostTarget, UecmError>)
    ensures
        match (target.host, target.hosts) {
            (Some(h), None) => r matches Ok(t) && t matches HostTarget::Single(h2) && h2@ == h@,
            (None, Some(hs)) => r matches Ok(t) && t matches HostTarget::Batch(v) && v.deep_view()
                == hs.deep_view(),
            _ => r matches Err(e) && e matches UecmError::InvalidInput(m) && m@
                == "exactly one of --host or --hosts is required"@,
        },
{
    match (&target.host, &target.hosts) {
        (Some(h), None) => Ok(HostTarget::Single(h.clone())),
        (None, Some(hs)) => Ok(HostTarget::Batch(crate::text::clone_strings(hs))),
        _ => Err(UecmError::InvalidInput(String::from_str("exactly one of --host or --hosts is required"))),
    }
}

pub open spec fn needs_credentials_msg(op: Seq<char>) -> Seq<char> {
    op + " requires credentials (--cred-alias or --user --pass / --pass-stdin)"@
}

/// The user and password of an operation that cannot run without them
/// (`ini remove`, `ini scan`): the resolved pair, or invalid input naming
/// the operation and the flags that supply credentials.
pub fn require_credentials(creds: Option<(String, String)>, op: &str) -> (r: Result<
    (String, String),
    UecmError,
>)
    ensures
        match creds {
            Some(p) => r == Ok::<(String, String), UecmError>(p),
            None => r matches Err(e) && e matches UecmError::InvalidInput(m) && m@
                == needs_credentials_msg(op@),
        },
{
    match creds {
        Some(p) => Ok(p),
        None => {
            let m = crate::text::concat3(
                op,
                " requires credentials (--cred-alias or --user --pass / --pass-stdin)",
                "",
            );
            proof {
                reveal_strlit("");
            }
            assert(m@ =~= needs_credentials_msg(op@));
            Err(UecmError::InvalidInput(m))
        },
    }
}

/// A cluster scan needs at least one machine.
pub fn require_machine_ids(machine_ids: &Vec<i64>) -> (r: Result<(), UecmError>)
    ensures
        r is Ok <==> machine_ids@.len() > 0,
        r matches Err(e) ==> e matches UecmError::InvalidInput(m) && m@
            == "--machine-ids must not be empty"@,
{
    if machine_ids.len() == 0 {
        Err(UecmError::InvalidInput(String::from_str("--machine-ids must not be empty")))
    } else {
        Ok(())
    }
}

/// What `ini set --dry-run` reports: where the key would be written and a
/// fingerprint of the value, never the value itself.
#[derive(Debug)]
pub struct IniSetPlan {
    pub hosts: Vec<String>,
    pub file: String,
    pub section: String,
    pub key: String,
    pub value_len: usize,
    pub value_sha256_prefix: String,
}

/// The dry-run plan of `ini set` on the given target.
pub fn ini_set_plan(target: &HostTarget, file: &str, section: &str, key: &str, value: &str) -> (r:
    IniSetPlan)
    ensures
        r.hosts.deep_view() == target_hosts(*target),
        r.file@ == file@,
        r.section@ == section@,
        r.key@ == key@,
        r.value_len == value@.len(),
        r.value_sha256_prefix@ == hex_prefix_spec(sha256_of(value.spec_bytes()), 4),
{
    let hosts = match target {
        HostTarget::Single(h) => {
            let v = vec![h.clone()];
            assert(v.deep_view() =~= seq![h@]);
            v
        },
        HostTarget::Batch(hs) => crate::text::clone_strings(hs),
    };
    IniSetPlan {
        hosts,
        file: String::from_str(file),
        section: String::from_str(section),
        key: String::from_str(key),
        value_len: value.unicode_len(),
        value_sha256_prefix: value_sha256_prefix(value),
    }
}

/// How a batch write ends: any failed host makes it an operation failure
/// naming the count.
pub fn batch_outcome(failed: usize, total: usize, what: &str) -> (r: Result<(), UecmError>)
    ensures
        failed == 0 ==> r is Ok,
        failed > 0 ==> (r matches Err(e) && e matches UecmError::OperationFailed(m) && m@
            == int_text(failed as int) + "/"@ + int_text(total as int) + " hosts failed "@ + what@),
{
    if failed > 0 {
        let tail = crate::text::concat3(" hosts failed ", what, "");
        proof {
            reveal_strlit("");
            assert(" hosts failed "@ + what@ + ""@ =~= " hosts failed "@ + what@);
        }
        let msg = ratio_text(failed, total, tail.as_str());
        assert(msg@ =~= int_text(failed as int) + "/"@ + int_text(total as int) + " hosts failed "@
            + what@);
        return Err(UecmError::OperationFailed(msg));
    }
    Ok(())
}

// ---------------------------------------------------------------------------
// findings
// ---------------------------------------------------------------------------

/// A finding of an INI scan.
#[derive(Debug, Clone)]
pub struct IniFinding {
    pub id: Option<i64>,
    pub scan_run_id: i64,
    pub machine_id: i64,
    pub rule_id: String,
    pub severity: String,
    pub category: String,
    pub file_path: String,
    pub section: Option<String>,
    pub key_name: Option<String>,
    pub line_number: Option<i64>,
    pub snippet_before: Option<String>,
    pub snippet_after: Option<String>,
    /// `set`, `remove` or `manual`.
    pub recommended_action: String,
    pub recommended_value: Option<String>,
    pub symptom: String,
    pub rationale: String,
    pub fixed_at: Option<String>,
    pub skipped_at: Option<String>,
}

/// A finding as plain values.
pub struct IniFindingV {
    pub id: Option<i64>,
    pub scan_run_id: i64,
    pub machine_id: i64,
    pub rule_id: Seq<char>,
    pub severity: Seq<char>,
    pub category: Seq<char>,
    pub file_path: Seq<char>,
    pub section: Option<Seq<char>>,
    pub key_name: Option<Seq<char>>,
    pub line_number: Option<i64>,
    pub snippet_before: Option<Seq<char>>,
    pub snippet_after: Option<Seq<char>>,
    pub recommended_action: Seq<char>,
    pub recommended_value: Option<Seq<char>>,
    pub symptom: Seq<char>,
    pub rationale: Seq<char>,
    pub fixed_at: Option<Seq<char>>,
    pub skipped_at: Option<Seq<char>>,
}

impl View for IniFinding {
    type V = IniFindingV;

    open spec fn view(&self) -> IniFindingV {
        IniFindingV {
            id: self.id,
            scan_run_id: self.scan_run_id,
            machine_id: self.machine_id,
            rule_id: self.rule_id@,
            severity: self.severity@,
            category: self.category@,
            file_path: self.file_path@,
            section: crate::store::opt_view(self.section),
            key_name: crate::store::opt_view(self.key_name),
            line_number: self.line_number,
            snippet_before: crate::store::opt_view(self.snippet_before),
            snippet_after: crate::store::opt_view(self.snippet_after),
            recommended_action: self.recommended_action@,
            recommended_value: crate::store::opt_view(self.recommended_value),
            symptom: self.symptom@,
            rationale: self.rationale@,
            fixed_at: crate::store::opt_view(self.fixed_at),
            skipped_at: crate::store::opt_view(self.skipped_at),
        }
    }
}

impl IniFinding {
    /// A field-by-field copy.
    pub fn copy(&self) -> (r: IniFinding)
        ensures
            r@ == self@,
    {
        IniFinding {
            id: self.id,
            scan_run_id: self.scan_run_id,
            machine_id: self.machine_id,
            rule_id: self.rule_id.clone(),
            severity: self.severity.clone(),
            category: self.category.clone(),
            file_path: self.file_path.clone(),
            section: crate::store::clone_opt(&self.section),
            key_name: crate::store::clone_opt(&self.key_name),
            line_number: self.line_number,
            snippet_before: crate::store::clone_opt(&self.snippet_before),
            snippet_after: crate::store::clone_opt(&self.snippet_after),
            recommended_action: self.recommended_action.clone(),
            recommended_value: crate::store::clone_opt(&self.recommended_value),
            symptom: self.symptom.clone(),
            rationale: self.rationale.clone(),
            fixed_at: crate::store::clone_opt(&self.fixed_at),
            skipped_at: crate::store::clone_opt(&self.skipped_at),
        }
    }
}

/// Why a finding cannot be applied automatically, if it cannot: it needs a
/// section; `set` needs a key and a value; `remove` needs a key (rule
/// `R002` reads its keys from the snippet); `manual` and unknown actions
/// are never applied.
pub open spec fn apply_problem(f: IniFinding) -> Option<Seq<char>> {
    if f.section is None {
        Some("finding has no section"@)
    } else if f.recommended_action@ == "set"@ {
        if f.key_name is None {
            Some("finding has no key_name"@)
        } else if f.recommended_value is None {
            Some("finding has no recommended_value"@)
        } else {
            None
        }
    } else if f.recommended_action@ == "remove"@ {
        if f.rule_id@ != "R002"@ && f.key_name is None {
            Some("remove needs key_name"@)
        } else {
            None
        }
    } else if f.recommended_action@ == "manual"@ {
        Some("manual findings cannot be auto-applied; open the file directly"@)
    } else {
        Some("unknown action: "@ + f.recommended_action@)
    }
}

/// The checks a dry run of `ini apply` makes, so that it succeeds only on
/// findings that the real run can apply.
pub fn validate_apply(f: &IniFinding) -> (r: Result<(), UecmError>)
    ensures
        match apply_problem(*f) {
            None => r is Ok,
            Some(m) => r matches Err(e) && e matches UecmError::InvalidInput(m2) && m2@ == m,
        },
{
    if f.section.is_none() {
        return Err(UecmError::InvalidInput(String::from_str("finding has no section")));
    }
    if str_is(&f.recommended_action, "set") {
        if f.key_name.is_none() {
            return Err(UecmError::InvalidInput(String::from_str("finding has no key_name")));
        }
        if f.recommended_value.is_none() {
            return Err(UecmError::InvalidInput(String::from_str("finding has no recommended_value")));
        }
        Ok(())
    } else if str_is(&f.recommended_action, "remove") {
        if !str_is(&f.rule_id, "R002") && f.key_name.is_none() {
            return Err(UecmError::InvalidInput(String::from_str("remove needs key_name")));
        }
        Ok(())
    } else if str_is(&f.recommended_action, "manual") {
        Err(
            UecmError::InvalidInput(
                String::from_str("manual findings cannot be auto-applied; open the file directly"),
            ),
        )
    } else {
        let head = String::from_str("unknown action: ");
        Err(UecmError::InvalidInput(crate::text::join2(&head, &f.recommended_action)))
    }
}

pub open spec fn severity_matches(f: IniFinding, sev: Option<Seq<char>>) -> bool {
    match sev {
        Some(s) => eq_ignore_ascii_case(f.severity@, s),
        None => true,
    }
}

pub open spec fn severity_filter(fs: Seq<IniFinding>, sev: Option<Seq<char>>) -> Seq<IniFinding> {
    fs.filter(|f: IniFinding| severity_matches(f, sev))
}

pub open spec fn opt_str_view(o: Option<&str>) -> Option<Seq<char>> {
    match o {
        Some(s) => Some(s@),
        None => None,
    }
}

/// The findings of a run whose severity equals `severity` ignoring ASCII
/// case (all of them when none is given), in order.
pub fn filter_by_severity(findings: Vec<IniFinding>, severity: Option<&str>) -> (r: Vec<IniFinding>)
    ensures
        r@ == severity_filter(findings@, opt_str_view(severity)),
{
    let ghost sv = opt_str_view(severity);
    let ghost pred = |f: IniFinding| severity_matches(f, sv);
    let mut out: Vec<IniFinding> = Vec::new();
    let mut i: usize = 0;
    let n = findings.len();
    assert(findings@.take(0).filter(pred) =~= Seq::<IniFinding>::empty()) by {
        reveal(Seq::filter);
    }
    let mut rest = findings;
    let ghost all = rest@;
    assert(all.skip(0) =~= all);
    while i < n
        invariant
            n == all.len(),
            i <= n,
            pred == (|f: IniFinding| severity_matches(f, sv)),
            sv == opt_str_view(severity),
            rest@ == all.skip(i as int),
            out@ == all.take(i as int).filter(pred),
        decreases n - i,
    {
        assert(all.skip(i as int)[0] == all[i as int]);
        let f = rest.remove(0);
        assert(rest@ =~= all.skip(i + 1));
        assert(all.take(i + 1) =~= all.take(i as int).push(f));
        proof {
            all.take(i as int).lemma_filter_push(f, pred);
        }
        let keep = match severity {
            Some(s) => crate::health::eq_ignore_case_exec(&f.severity, s),
            None => true,
        };
        if keep {
            out.push(f);
        }
        i = i + 1;
    }
    assert(all.take(n as int) =~= all);
    out
}

/// Finding counts by severity: `critical`, `warning`, `healthy`, and every
/// other severity as `info`.
#[derive(Debug, Clone, Copy)]
pub struct SeverityCounts {
    pub critical: i64,
    pub warning: i64,
    pub healthy: i64,
    pub info: i64,
}

pub open spec fn count_severity(s: Seq<Seq<char>>, sev: Seq<char>) -> nat
    decreases s.len(),
{
    if s.len() == 0 {
        0
    } else {
        count_severity(s.drop_last(), sev) + if s.last() == sev {
            1nat
        } else {
            0nat
        }
    }
}

pub open spec fn count_other(s: Seq<Seq<char>>) -> nat
    decreases s.len(),
{
    if s.len() == 0 {
        0
    } else {
        count_other(s.drop_last()) + if s.last() != "critical"@ && s.last() != "warning"@
            && s.last() != "healthy"@ {
            1nat
        } else {
            0nat
        }
    }
}

/// Counts the findings of one machine by severity.
pub fn tally_severities(severities: &Vec<String>) -> (r: SeverityCounts)
    requires
        severities@.len() < i64::MAX,
    ensures
        r.critical == count_severity(severities.deep_view(), "critical"@),
        r.warning == count_severity(severities.deep_view(), "warning"@),
        r.healthy == count_severity(severities.deep_view(), "healthy"@),
        r.info == count_other(severities.deep_view()),
{
    let ghost all = severities.deep_view();
    let mut c = SeverityCounts { critical: 0, warning: 0, healthy: 0, info: 0 };
    let mut i: usize = 0;
    while i < severities.len()
        invariant
            all == severities.deep_view(),
            severities@.len() < i64::MAX,
            i <= severities@.len(),
            c.critical == count_severity(all.take(i as int), "critical"@),
            c.warning == count_severity(all.take(i as int), "warning"@),
            c.healthy == count_severity(all.take(i as int), "healthy"@),
            c.info == count_other(all.take(i as int)),
            c.critical <= i && c.warning <= i && c.healthy <= i && c.info <= i,
        decreases severities@.len() - i,
    {
        assert(all.take(i + 1).drop_last() =~= all.take(i as int));
        assert(all.take(i + 1).last() == severities@[i as int]@);
        proof {
            crate::health::lemma_status_words_distinct();
        }
        let s = &severities[i];
        if str_is(s, "critical") {
            c.critical = c.critical + 1;
        } else if str_is(s, "warning") {
            c.warning = c.warning + 1;
        } else if str_is(s, "healthy") {
            c.healthy = c.healthy + 1;
        } else {
            c.info = c.info + 1;
        }
        i = i + 1;
    }
    assert(all.take(i as int) =~= all);
    c
}

} // verus!
