//! Cluster health check: outcome tallies and the derived INI / PSO checks.

use vstd::prelude::*;
use crate::text::{chars_of, concat3, int_text, join2, str_is, with_number};

verus! {

/// The outcome of one health check on one machine.
#[derive(Debug, Clone)]
pub struct CheckOutcome {
    /// `healthy`, `warning`, `critical`, `offline`, `na` or `unknown`.
    pub status: String,
    pub message: String,
    pub sample: String,
    pub remediation: String,
}

/// A check outcome as plain values.
pub struct CheckOutcomeV {
    pub status: Seq<char>,
    pub message: Seq<char>,
    pub sample: Seq<char>,
    pub remediation: Seq<char>,
}

impl View for CheckOutcome {
    type V = CheckOutcomeV;

    open spec fn view(&self) -> CheckOutcomeV {
        CheckOutcomeV {
            status: self.status@,
            message: self.message@,
            sample: self.sample@,
            remediation: self.remediation@,
        }
    }
}

impl CheckOutcome {
    /// A field-by-field copy.
    pub fn copy(&self) -> (r: CheckOutcome)
        ensures
            r@ == self@,
    {
        CheckOutcome {
            status: self.status.clone(),
            message: self.message.clone(),
            sample: self.sample.clone(),
            remediation: self.remediation.clone(),
        }
    }
}

/// Outcome counts by status. `na` (a check that did not run, e.g. for lack
/// of credentials) counts as skipped and not as run.
#[derive(Debug, Clone, Copy)]
pub struct Counters {
    pub healthy: i64,
    pub warning: i64,
    pub critical: i64,
    pub offline: i64,
    pub skipped: i64,
    pub total_ran: i64,
}

/// How many statuses of `s` equal `st`.
pub open spec fn count_status(s: Seq<Seq<char>>, st: Seq<char>) -> nat
    decreases s.len(),
{
    if s.len() == 0 {
        0
    } else {
        count_status(s.drop_last(), st) + if s.last() == st {
            1nat
        } else {
            0nat
        }
    }
}

/// Whether a status counts as a check that ran.
pub open spec fn ran(st: Seq<char>) -> bool {
    st == "healthy"@ || st == "warning"@ || st == "critical"@ || st == "offline"@
}

/// How many statuses of `s` are checks that ran.
pub open spec fn count_ran(s: Seq<Seq<char>>) -> nat
    decreases s.len(),
{
    if s.len() == 0 {
        0
    } else {
        count_ran(s.drop_last()) + if ran(s.last()) {
            1nat
        } else {
            0nat
        }
    }
}

pub open spec fn statuses(v: Seq<CheckOutcome>) -> Seq<Seq<char>> {
    v.map_values(|o: CheckOutcome| o.status@)
}

impl Counters {
    /// All counts zero.
    pub fn new() -> (r: Counters)
        ensures
            r.healthy == 0 && r.warning == 0 && r.critical == 0 && r.offline == 0 && r.skipped == 0
                && r.total_ran == 0,
    {
        Counters { healthy: 0, warning: 0, critical: 0, offline: 0, skipped: 0, total_ran: 0 }
    }

    /// Counts one outcome: a check that ran under its status and in
    /// `total_ran`, an `na` one as skipped; other statuses are ignored.
    pub fn tally(&mut self, outcome: &CheckOutcome)
        requires
            ran(outcome.status@) ==> old(self).total_ran < i64::MAX,
            outcome.status@ == "healthy"@ ==> old(self).healthy < i64::MAX,
            outcome.status@ == "warning"@ ==> old(self).warning < i64::MAX,
            outcome.status@ == "critical"@ ==> old(self).critical < i64::MAX,
            outcome.status@ == "offline"@ ==> old(self).offline < i64::MAX,
            outcome.status@ == "na"@ ==> old(self).skipped < i64::MAX,
        ensures
            final(self).healthy == old(self).healthy + if outcome.status@ == "healthy"@ {
                1int
            } else {
                0int
            },
            final(self).warning == old(self).warning + if outcome.status@ == "warning"@ {
                1int
            } else {
                0int
            },
            final(self).critical == old(self).critical + if outcome.status@ == "critical"@ {
                1int
            } else {
                0int
            },
            final(self).offline == old(self).offline + if outcome.status@ == "offline"@ {
                1int
            } else {
                0int
            },
            final(self).skipped == old(self).skipped + if outcome.status@ == "na"@ {
                1int
            } else {
                0int
            },
            final(self).total_ran == old(self).total_ran + if ran(outcome.status@) {
                1int
            } else {
                0int
            },
    {
        proof {
            lemma_status_words_distinct();
        }
        let s = &outcome.status;
        if str_is(s, "healthy") {
            self.healthy = self.healthy + 1;
            self.total_ran = self.total_ran + 1;
        } else if str_is(s, "warning") {
            self.warning = self.warning + 1;
            self.total_ran = self.total_ran + 1;
        } else if str_is(s, "critical") {
            self.critical = self.critical + 1;
            self.total_ran = self.total_ran + 1;
        } else if str_is(s, "offline") {
            self.offline = self.offline + 1;
            self.total_ran = self.total_ran + 1;
        } else if str_is(s, "na") {
            self.skipped = self.skipped + 1;
        }
    }
}

/// The status words are pairwise different, so a status is counted under
/// one of them only.
pub proof fn lemma_status_words_distinct()
    ensures
        "healthy"@ != "warning"@,
        "healthy"@ != "critical"@,
        "healthy"@ != "offline"@,
        "healthy"@ != "na"@,
        "warning"@ != "critical"@,
        "warning"@ != "offline"@,
        "warning"@ != "na"@,
        "critical"@ != "offline"@,
        "critical"@ != "na"@,
        "offline"@ != "na"@,
{
    reveal_strlit("healthy");
    reveal_strlit("warning");
    reveal_strlit("critical");
    reveal_strlit("offline");
    reveal_strlit("na");
    assert("healthy"@.len() == 7 && "healthy"@[0] == 'h');
    assert("warning"@.len() == 7 && "warning"@[0] == 'w');
    assert("critical"@.len() == 8);
    assert("offline"@.len() == 7 && "offline"@[0] == 'o');
    assert("na"@.len() == 2);
}

/// Counts a whole row of outcomes from zero.
pub fn tally_all(outcomes: &Vec<CheckOutcome>) -> (r: Counters)
    requires
        outcomes@.len() < i64::MAX,
    ensures
        r.healthy == count_status(statuses(outcomes@), "healthy"@),
        r.warning == count_status(statuses(outcomes@), "warning"@),
        r.critical == count_status(statuses(outcomes@), "critical"@),
        r.offline == count_status(statuses(outcomes@), "offline"@),
        r.skipped == count_status(statuses(outcomes@), "na"@),
        r.total_ran == count_ran(statuses(outcomes@)),
{
    let ghost all = statuses(outcomes@);
    let mut c = Counters::new();
    let mut i: usize = 0;
    while i < outcomes.len()
        invariant
            all == statuses(outcomes@),
            outcomes@.len() < i64::MAX,
            i <= outcomes@.len(),
            c.healthy == count_status(all.take(i as int), "healthy"@),
            c.warning == count_status(all.take(i as int), "warning"@),
            c.critical == count_status(all.take(i as int), "critical"@),
            c.offline == count_status(all.take(i as int), "offline"@),
            c.skipped == count_status(all.take(i as int), "na"@),
            c.total_ran == count_ran(all.take(i as int)),
            c.healthy <= i && c.warning <= i && c.critical <= i && c.offline <= i && c.skipped <= i
                && c.total_ran <= i,
        decreases outcomes@.len() - i,
    {
        assert(all.take(i + 1).drop_last() =~= all.take(i as int));
        assert(all.take(i + 1).last() == outcomes@[i as int].status@);
        c.tally(&outcomes[i]);
        i = i + 1;
    }
    assert(all.take(i as int) =~= all);
    c
}

/// Every check that ran is counted under exactly one of the four statuses
/// that ran: `total_ran == healthy + warning + critical + offline`, and
/// `na` outcomes appear only as skipped.
pub proof fn lemma_tally_partition(s: Seq<Seq<char>>)
    ensures
        count_ran(s) == count_status(s, "healthy"@) + count_status(s, "warning"@) + count_status(
            s,
            "critical"@,
        ) + count_status(s, "offline"@),
        count_status(s, "na"@) + count_ran(s) <= s.len(),
    decreases s.len(),
{
    lemma_status_words_distinct();
    if s.len() > 0 {
        lemma_tally_partition(s.drop_last());
    }
}

// ---------------------------------------------------------------------------
// derived checks
// ---------------------------------------------------------------------------

/// The INI-consistency outcome of a machine from the latest INI scan run
/// (if any) and the machine's open critical / warning findings in it.
pub open spec fn ini_status(latest_run: Option<i64>, critical: i64, warning: i64) -> Seq<char> {
    match latest_run {
        None => "unknown"@,
        Some(_) => if critical > 0 {
            "critical"@
        } else if warning > 0 {
            "warning"@
        } else {
            "healthy"@
        },
    }
}

/// The `ini_consistency` outcome of a machine from its latest INI scan run and that run's critical and warning counts.
pub fn derive_ini_outcome(latest_run: Option<i64>, critical: i64, warning: i64) -> (r: CheckOutcome)
    ensures
        r.status@ == ini_status(latest_run, critical, warning),
        r.remediation@ == Seq::<char>::empty(),
        match latest_run {
            None => r.message@ == "no INI scan run yet"@ && r.sample@ == Seq::<char>::empty(),
            Some(id) => r.message@ == int_text(critical as int) + " critical / "@ + int_text(
                warning as int,
            ) + " warning open"@ && r.sample@ == "scan_run #"@ + int_text(id as int) + ""@,
        },
{
    match latest_run {
        None => CheckOutcome {
            status: String::from_str("unknown"),
            message: String::from_str("no INI scan run yet"),
            sample: String::new(),
            remediation: String::new(),
        },
        Some(id) => {
            let status = if critical > 0 {
                String::from_str("critical")
            } else if warning > 0 {
                String::from_str("warning")
            } else {
                String::from_str("healthy")
            };
            let a = with_number("", critical, " critical / ");
            let b = with_number("", warning, " warning open");
            proof {
                reveal_strlit("");
                assert(""@ + int_text(critical as int) + " critical / "@ =~= int_text(critical as int)
                    + " critical / "@);
                assert(""@ + int_text(warning as int) + " warning open"@ =~= int_text(warning as int)
                    + " warning open"@);
            }
            let message = join2(&a, &b);
            assert(message@ =~= int_text(critical as int) + " critical / "@ + int_text(
                warning as int,
            ) + " warning open"@);
            CheckOutcome {
                status,
                message,
                sample: with_number("scan_run #", id, ""),
                remediation: String::new(),
            }
        },
    }
}

/// ASCII lowercase of one character.
pub open spec fn ascii_lower(c: char) -> char {
    if 'A' <= c && c <= 'Z' {
        ((c as u8) + 32) as char
    } else {
        c
    }
}

/// `str::eq_ignore_ascii_case`.
pub open spec fn eq_ignore_ascii_case(a: Seq<char>, b: Seq<char>) -> bool {
    a.len() == b.len() && forall|i: int| 0 <= i < a.len() ==> ascii_lower(#[trigger] a[i]) == ascii_lower(b[i])
}

pub fn lower_exec(c: char) -> (r: char)
    ensures
        r == ascii_lower(c),
{
    if 'A' <= c && c <= 'Z' {
        let b: u8 = (c as u8) + 32;
        b as char
    } else {
        c
    }
}

/// Whether two strings are equal apart from ASCII case.
pub fn eq_ignore_case_exec(a: &String, b: &str) -> (r: bool)
    ensures
        r == eq_ignore_ascii_case(a@, b@),
{
    let va = chars_of(a.as_str());
    let vb = chars_of(b);
    if va.len() != vb.len() {
        return false;
    }
    let mut i: usize = 0;
    while i < va.len()
        invariant
            va@ == a@,
            vb@ == b@,
            va@.len() == vb@.len(),
            i <= va@.len(),
            forall|j: int| 0 <= j < i ==> ascii_lower(#[trigger] va@[j]) == ascii_lower(vb@[j]),
        decreases va@.len() - i,
    {
        if lower_exec(va[i]) != lower_exec(vb[i]) {
            return false;
        }
        i = i + 1;
    }
    true
}

/// What reading a project's `ConsoleVariables.ini` gave.
pub enum ConsoleVariablesRead {
    /// The file does not exist.
    Missing,
    /// The read failed with this message.
    Failed(String),
    /// The file was parsed; its keys as `(name, value)`, in file order.
    Parsed { path: String, keys: Vec<(String, String)> },
}

/// The path of a project's `ConsoleVariables.ini` under its root.
pub open spec fn trim_backslashes(s: Seq<char>) -> Seq<char>
    decreases s.len(),
{
    if s.len() > 0 && s.last() == '\\' {
        trim_backslashes(s.drop_last())
    } else {
        s
    }
}

/// Where a project keeps its `ConsoleVariables.ini`.
pub fn console_variables_path(project_root: &str) -> (r: String)
    ensures
        r@ == trim_backslashes(project_root@) + "\\Config\\ConsoleVariables.ini"@,
{
    let v = chars_of(project_root);
    let mut n: usize = v.len();
    assert(v@.take(n as int) =~= v@);
    while n > 0 && v[n - 1] == '\\'
        invariant
            n <= v@.len(),
            trim_backslashes(v@) == trim_backslashes(v@.take(n as int)),
        decreases n,
    {
        assert(v@.take(n as int).drop_last() =~= v@.take(n - 1));
        n = n - 1;
    }
    assert(v@.take(n as int).len() > 0 ==> v@.take(n as int).last() == v@[n - 1]);
    let head = crate::text::slice_chars(v.as_slice(), 0, n);
    let tail = chars_of("\\Config\\ConsoleVariables.ini");
    let all = crate::text::cat(head.as_slice(), tail.as_slice());
    crate::text::string_from_chars(all.as_slice())
}

/// The value of the first key named `r.PSOPrecaching` (any ASCII case).
pub open spec fn pso_value(keys: Seq<(Seq<char>, Seq<char>)>) -> Option<Seq<char>>
    decreases keys.len(),
{
    if keys.len() == 0 {
        None
    } else if eq_ignore_ascii_case(keys[0].0, "r.PSOPrecaching"@) {
        Some(keys[0].1)
    } else {
        pso_value(keys.drop_first())
    }
}

pub open spec fn keys_view(v: Seq<(String, String)>) -> Seq<(Seq<char>, Seq<char>)> {
    v.map_values(|k: (String, String)| (k.0@, k.1@))
}

fn find_pso_value(keys: &Vec<(String, String)>) -> (r: Option<String>)
    ensures
        match pso_value(keys_view(keys@)) {
            Some(v) => r matches Some(s) && s@ == v,
            None => r is None,
        },
{
    let ghost kv = keys_view(keys@);
    let mut i: usize = 0;
    assert(kv.skip(0) =~= kv);
    while i < keys.len()
        invariant
            kv == keys_view(keys@),
            i <= keys@.len(),
            pso_value(kv) == pso_value(kv.skip(i as int)),
        decreases keys@.len() - i,
    {
        assert(kv.skip(i as int)[0] == (keys@[i as int].0@, keys@[i as int].1@));
        assert(kv.skip(i as int).drop_first() =~= kv.skip(i + 1));
        if eq_ignore_case_exec(&keys[i].0, "r.PSOPrecaching") {
            return Some(keys[i].1.clone());
        }
        i = i + 1;
    }
    assert(kv.skip(i as int) =~= Seq::<(Seq<char>, Seq<char>)>::empty());
    None
}

/// The PSO-precaching outcome: healthy when `r.PSOPrecaching` is `1`, a
/// warning when it has another value, is unset or the file is missing,
/// offline when the file could not be read, `na` without a project root.
pub fn derive_pso_cvar_outcome(has_project: bool, target: &str, read: &ConsoleVariablesRead) -> (r:
    CheckOutcome)
    ensures
        !has_project ==> r.status@ == "na"@ && r.message@ == "no project paths supplied"@
            && r.sample@ == Seq::<char>::empty(),
        has_project ==> match read {
            ConsoleVariablesRead::Missing => r.status@ == "warning"@ && r.message@
                == "ConsoleVariables.ini missing"@ && r.sample@ == target@,
            ConsoleVariablesRead::Failed(m) => r.status@ == "offline"@ && r.message@ == m@
                && r.sample@ == target@,
            ConsoleVariablesRead::Parsed { path, keys } => r.sample@ == path@ && match pso_value(
                keys_view(keys@),
            ) {
                Some(v) => if v == "1"@ {
                    r.status@ == "healthy"@ && r.message@ == "r.PSOPrecaching=1"@
                } else {
                    r.status@ == "warning"@ && r.message@ == "r.PSOPrecaching="@ + v
                },
                None => r.status@ == "warning"@ && r.message@ == "r.PSOPrecaching not set"@,
            },
        },
        r.remediation@ == Seq::<char>::empty(),
{
    if !has_project {
        return CheckOutcome {
            status: String::from_str("na"),
            message: String::from_str("no project paths supplied"),
            sample: String::new(),
            remediation: String::new(),
        };
    }
    match read {
        ConsoleVariablesRead::Missing => CheckOutcome {
            status: String::from_str("warning"),
            message: String::from_str("ConsoleVariables.ini missing"),
            sample: String::from_str(target),
            remediation: String::new(),
        },
        ConsoleVariablesRead::Failed(m) => CheckOutcome {
            status: String::from_str("offline"),
            message: m.clone(),
            sample: String::from_str(target),
            remediation: String::new(),
        },
        ConsoleVariablesRead::Parsed { path, keys } => {
            let found = find_pso_value(keys);
            let (status, message) = match found {
                Some(v) => if str_is(&v, "1") {
                    (String::from_str("healthy"), String::from_str("r.PSOPrecaching=1"))
                } else {
                    let head = String::from_str("r.PSOPrecaching=");
                    (String::from_str("warning"), join2(&head, &v))
                },
                None => (String::from_str("warning"), String::from_str("r.PSOPrecaching not set")),
            };
            CheckOutcome { status, message, sample: path.clone(), remediation: String::new() }
        },
    }
}

// ---------------------------------------------------------------------------
// reports
// ---------------------------------------------------------------------------

/// Progress of a health run, one event per machine.
#[derive(Debug, Clone)]
pub struct HealthProgressEvent {
    pub scan_run_id: i64,
    pub machine_id: i64,
    pub done: bool,
    pub error: Option<String>,
}

/// The counts of a finished health run.
#[derive(Debug, Clone)]
pub struct HealthRunSummary {
    pub scan_run_id: i64,
    pub healthy: i64,
    pub warning: i64,
    pub critical: i64,
    pub offline: i64,
    pub total: i64,
}

/// What a health run is asked to check.
#[derive(Debug, Clone)]
pub struct RunHealthCheckRequest {
    pub machine_ids: Vec<i64>,
    pub credential_alias: String,
    pub project_paths: Vec<String>,
}

impl HealthRunSummary {
    /// A summary of run `scan_run_id` with nothing counted yet.
    pub fn new(scan_run_id: i64) -> (r: HealthRunSummary)
        ensures
            r.scan_run_id == scan_run_id,
            r.healthy == 0 && r.warning == 0 && r.critical == 0 && r.offline == 0 && r.total == 0,
    {
        HealthRunSummary { scan_run_id, healthy: 0, warning: 0, critical: 0, offline: 0, total: 0 }
    }

    /// Counts one outcome: every outcome in `total`, the four statuses
    /// that ran under their own count.
    pub fn add_outcome(&mut self, outcome: &CheckOutcome)
        requires
            old(self).total < i64::MAX,
            outcome.status@ == "healthy"@ ==> old(self).healthy < i64::MAX,
            outcome.status@ == "warning"@ ==> old(self).warning < i64::MAX,
            outcome.status@ == "critical"@ ==> old(self).critical < i64::MAX,
            outcome.status@ == "offline"@ ==> old(self).offline < i64::MAX,
        ensures
            final(self).scan_run_id == old(self).scan_run_id,
            final(self).total == old(self).total + 1,
            final(self).healthy == old(self).healthy + if outcome.status@ == "healthy"@ {
                1int
            } else {
                0int
            },
            final(self).warning == old(self).warning + if outcome.status@ == "warning"@ {
                1int
            } else {
                0int
            },
            final(self).critical == old(self).critical + if outcome.status@ == "critical"@ {
                1int
            } else {
                0int
            },
            final(self).offline == old(self).offline + if outcome.status@ == "offline"@ {
                1int
            } else {
                0int
            },
    {
        proof {
            lemma_status_words_distinct();
        }
        self.total = self.total + 1;
        let s = &outcome.status;
        if str_is(s, "healthy") {
            self.healthy = self.healthy + 1;
        } else if str_is(s, "warning") {
            self.warning = self.warning + 1;
        } else if str_is(s, "critical") {
            self.critical = self.critical + 1;
        } else if str_is(s, "offline") {
            self.offline = self.offline + 1;
        }
    }
}

/// The running totals of a `health run` over several machines.
#[derive(Debug, Clone, Copy)]
pub struct RunTotals {
    pub healthy: i64,
    pub warning: i64,
    pub critical: i64,
    pub offline: i64,
    pub skipped: i64,
    pub total_checks: i64,
}

impl RunTotals {
    /// Totals of a run that has not looked at any machine yet.
    pub fn new() -> (r: RunTotals)
        ensures
            r.healthy == 0 && r.warning == 0 && r.critical == 0 && r.offline == 0 && r.skipped == 0
                && r.total_checks == 0,
    {
        RunTotals { healthy: 0, warning: 0, critical: 0, offline: 0, skipped: 0, total_checks: 0 }
    }

    /// Adds the counts of one machine's row; the checks that ran go into
    /// `total_checks`.
    pub fn add_row(&mut self, c: &Counters)
        requires
            i64::MIN <= old(self).healthy + c.healthy <= i64::MAX,
            i64::MIN <= old(self).warning + c.warning <= i64::MAX,
            i64::MIN <= old(self).critical + c.critical <= i64::MAX,
            i64::MIN <= old(self).offline + c.offline <= i64::MAX,
            i64::MIN <= old(self).skipped + c.skipped <= i64::MAX,
            i64::MIN <= old(self).total_checks + c.total_ran <= i64::MAX,
        ensures
            final(self).healthy == old(self).healthy + c.healthy,
            final(self).warning == old(self).warning + c.warning,
            final(self).critical == old(self).critical + c.critical,
            final(self).offline == old(self).offline + c.offline,
            final(self).skipped == old(self).skipped + c.skipped,
            final(self).total_checks == old(self).total_checks + c.total_ran,
    {
        self.healthy = self.healthy + c.healthy;
        self.warning = self.warning + c.warning;
        self.critical = self.critical + c.critical;
        self.offline = self.offline + c.offline;
        self.skipped = self.skipped + c.skipped;
        self.total_checks = self.total_checks + c.total_ran;
    }

    /// Counts a machine that could not be reached: one offline machine, and
    /// every one of its `probe_keys` checks as run.
    pub fn add_offline_machine(&mut self, probe_keys: i64)
        requires
            old(self).offline < i64::MAX,
            i64::MIN <= old(self).total_checks + probe_keys <= i64::MAX,
        ensures
            final(self).offline == old(self).offline + 1,
            final(self).total_checks == old(self).total_checks + probe_keys,
            final(self).healthy == old(self).healthy,
            final(self).warning == old(self).warning,
            final(self).critical == old(self).critical,
            final(self).skipped == old(self).skipped,
    {
        self.offline = self.offline + 1;
        self.total_checks = self.total_checks + probe_keys;
    }
}

} // verus!
