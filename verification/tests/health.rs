use uecm::health::{
    console_variables_path, derive_ini_outcome, derive_pso_cvar_outcome, tally_all, CheckOutcome,
    ConsoleVariablesRead, Counters,
};

fn outcome(status: &str) -> CheckOutcome {
    CheckOutcome { status: status.into(), message: "".into(), sample: "".into(), remediation: "".into() }
}

#[test]
fn na_outcomes_increment_skipped_not_other_counters() {
    let mut counters = Counters::new();
    counters.tally(&outcome("healthy"));
    counters.tally(&outcome("warning"));
    counters.tally(&outcome("na"));
    counters.tally(&outcome("na"));
    counters.tally(&outcome("critical"));

    assert_eq!(counters.healthy, 1);
    assert_eq!(counters.warning, 1);
    assert_eq!(counters.critical, 1);
    assert_eq!(counters.offline, 0);
    assert_eq!(counters.skipped, 2, "na must increment skipped");
    assert_eq!(counters.total_ran, 3);
}

#[test]
fn tally_all_partitions_ran_checks() {
    let row = vec![
        outcome("healthy"),
        outcome("offline"),
        outcome("unknown"),
        outcome("na"),
        outcome("critical"),
        outcome("healthy"),
    ];
    let c = tally_all(&row);
    assert_eq!(c.healthy, 2);
    assert_eq!(c.offline, 1);
    assert_eq!(c.critical, 1);
    assert_eq!(c.warning, 0);
    assert_eq!(c.skipped, 1);
    assert_eq!(c.total_ran, c.healthy + c.warning + c.critical + c.offline);
}

#[test]
fn ini_outcome_without_scan_run_is_unknown() {
    let o = derive_ini_outcome(None, 3, 4);
    assert_eq!(o.status, "unknown");
    assert_eq!(o.message, "no INI scan run yet");
}

#[test]
fn ini_outcome_ranks_critical_over_warning() {
    let o = derive_ini_outcome(Some(7), 2, 5);
    assert_eq!(o.status, "critical");
    assert_eq!(o.message, "2 critical / 5 warning open");
    assert_eq!(o.sample, "scan_run #7");
    assert_eq!(derive_ini_outcome(Some(7), 0, 5).status, "warning");
    assert_eq!(derive_ini_outcome(Some(7), 0, 0).status, "healthy");
}

#[test]
fn pso_outcome_reads_the_cvar_case_insensitively() {
    let target = console_variables_path("D:\\Proj\\");
    assert_eq!(target, "D:\\Proj\\Config\\ConsoleVariables.ini");
    let read = ConsoleVariablesRead::Parsed {
        path: target.clone(),
        keys: vec![("Other".into(), "x".into()), ("r.psoprecaching".into(), "1".into())],
    };
    let o = derive_pso_cvar_outcome(true, &target, &read);
    assert_eq!(o.status, "healthy");
    assert_eq!(o.message, "r.PSOPrecaching=1");

    let read0 = ConsoleVariablesRead::Parsed { path: target.clone(), keys: vec![("r.PSOPrecaching".into(), "0".into())] };
    let o0 = derive_pso_cvar_outcome(true, &target, &read0);
    assert_eq!(o0.status, "warning");
    assert_eq!(o0.message, "r.PSOPrecaching=0");

    let unset = ConsoleVariablesRead::Parsed { path: target.clone(), keys: vec![] };
    assert_eq!(derive_pso_cvar_outcome(true, &target, &unset).message, "r.PSOPrecaching not set");
    assert_eq!(derive_pso_cvar_outcome(true, &target, &ConsoleVariablesRead::Missing).message, "ConsoleVariables.ini missing");
    assert_eq!(derive_pso_cvar_outcome(true, &target, &ConsoleVariablesRead::Failed("boom".into())).status, "offline");
    assert_eq!(derive_pso_cvar_outcome(false, &target, &ConsoleVariablesRead::Missing).status, "na");
}

#[test]
fn run_summary_counts_every_outcome_in_total() {
    let mut s = uecm::health::HealthRunSummary::new(9);
    for st in ["healthy", "na", "offline", "unknown"] {
        s.add_outcome(&outcome(st));
    }
    assert_eq!(s.total, 4);
    assert_eq!(s.healthy, 1);
    assert_eq!(s.offline, 1);
    assert_eq!(s.scan_run_id, 9);
}

#[test]
fn run_totals_add_rows_and_offline_machines() {
    let mut t = uecm::health::RunTotals::new();
    let row = tally_all(&vec![outcome("healthy"), outcome("na"), outcome("warning")]);
    t.add_row(&row);
    t.add_offline_machine(11);
    assert_eq!(t.healthy, 1);
    assert_eq!(t.warning, 1);
    assert_eq!(t.skipped, 1);
    assert_eq!(t.offline, 1);
    assert_eq!(t.total_checks, 2 + 11);
}

#[test]
fn tally_bounds_only_the_counters_a_status_raises() {
    let mut c = Counters::new();
    c.warning = i64::MAX;
    c.tally(&outcome("healthy"));
    c.tally(&outcome("unknown"));
    assert_eq!((c.healthy, c.warning, c.total_ran), (1, i64::MAX, 1));
}
