//! The execution engine: run modes, exit-status judgement, classification,
//! the requirement cache, and whole-run reports.

use upkeep::exec::{
    output_result, plan_invocation, render_trace, status_result, CaptureOutcome, CommandSpec,
    ExecutionPlan, RunType, SpawnOutcome,
};
use upkeep::outcome::{classify, Outcome, StepError};
use upkeep::report::Report;
use upkeep::requirements::RequirementCache;
use upkeep::runner::{record_step, report_of_results};

fn command(program: &str, args: &[&str]) -> CommandSpec {
    CommandSpec {
        program: program.to_string(),
        args: args.iter().map(|a| a.to_string()).collect(),
        env: Vec::new(),
        accepted_codes: Vec::new(),
    }
}

#[test]
fn dry_run_plans_a_trace_not_a_spawn() {
    let plan = plan_invocation(RunType::DryRun, command("zsh", &["-l"]));
    match plan {
        ExecutionPlan::Trace { command } => {
            assert_eq!(command.program, "zsh");
            assert_eq!(command.args, vec!["-l".to_string()]);
        }
        ExecutionPlan::Spawn { .. } => panic!("dry run must never plan a spawn"),
    }
}

#[test]
fn execute_mode_plans_a_spawn() {
    let plan = plan_invocation(RunType::Execute, command("zsh", &["-l"]));
    match plan {
        ExecutionPlan::Spawn { command } => assert_eq!(command.program, "zsh"),
        ExecutionPlan::Trace { .. } => panic!("execute mode must spawn"),
    }
}

#[test]
fn trace_renders_environment_program_and_arguments() {
    let mut cmd = command("zsh", &["-l", "-c"]);
    cmd.env.push(("ZSH".to_string(), "/home/u/.oh-my-zsh".to_string()));
    assert_eq!(render_trace(&cmd), "ZSH=/home/u/.oh-my-zsh zsh -l -c");
}

#[test]
fn trace_of_bare_program() {
    let cmd = command("ls", &[]);
    assert_eq!(render_trace(&cmd), "ls");
}

#[test]
fn exit_zero_is_success() {
    let r = status_result(SpawnOutcome::Exited { code: 0 }, &vec![80]);
    assert!(r.is_ok());
    assert!(matches!(classify(r), Outcome::Success));
}

#[test]
fn accepted_exit_code_is_ignored_not_failed() {
    let r = status_result(SpawnOutcome::Exited { code: 80 }, &vec![80]);
    match &r {
        Err(StepError::AcceptedExit { code }) => assert_eq!(*code, 80),
        other => panic!("expected an accepted exit, got {:?}", other.is_ok()),
    }
    assert!(matches!(classify(r), Outcome::Ignored { .. }));
}

#[test]
fn unexpected_exit_code_is_failed() {
    let r = status_result(SpawnOutcome::Exited { code: 1 }, &vec![80]);
    match &r {
        Err(StepError::NonZeroExit { code }) => assert_eq!(*code, 1),
        other => panic!("expected an unexpected exit, got {:?}", other.is_ok()),
    }
    assert!(matches!(classify(r), Outcome::Failed { .. }));
}

#[test]
fn spawn_failure_is_failed() {
    let r = status_result(
        SpawnOutcome::StartFailure { detail: "no such file".to_string() },
        &Vec::new(),
    );
    assert!(matches!(r, Err(StepError::SpawnFailure { .. })));
    assert!(matches!(classify(r), Outcome::Failed { .. }));
}

#[test]
fn captured_output_comes_back_on_success_only() {
    let ok = output_result(
        CaptureOutcome::Exited { code: 0, stdout: "/home/u/.zim\n".to_string() },
        &Vec::new(),
    );
    assert_eq!(ok.unwrap(), "/home/u/.zim\n");

    let accepted = output_result(
        CaptureOutcome::Exited { code: 80, stdout: "partial".to_string() },
        &vec![80],
    );
    assert!(matches!(accepted, Err(StepError::AcceptedExit { code: 80 })));

    let failed = output_result(
        CaptureOutcome::Exited { code: 1, stdout: String::new() },
        &Vec::new(),
    );
    assert!(matches!(failed, Err(StepError::NonZeroExit { code: 1 })));
}

#[test]
fn output_that_is_not_text_is_an_io_failure() {
    let r = output_result(
        CaptureOutcome::NotText { detail: "invalid utf-8".to_string() },
        &Vec::new(),
    );
    assert!(matches!(&r, Err(StepError::Io { .. })));
    assert!(matches!(classify(r.map(|_| ())), Outcome::Failed { .. }));
}

#[test]
fn missing_requirement_is_skipped_never_failed() {
    let r: Result<(), StepError> =
        Err(StepError::RequirementMissing { name: "zr".to_string() });
    let outcome = classify(r);
    match outcome {
        Outcome::Skipped { reason: StepError::RequirementMissing { name } } => {
            assert_eq!(name, "zr")
        }
        _ => panic!("a missing requirement must classify as skipped"),
    }
}

#[test]
fn absent_directory_is_skipped() {
    let r: Result<(), StepError> =
        Err(StepError::NotApplicable { path: "/home/u/.zinit".to_string() });
    assert!(matches!(classify(r), Outcome::Skipped { .. }));
}

#[test]
fn io_failure_is_failed() {
    let r: Result<(), StepError> = Err(StepError::Io { detail: "loop".to_string() });
    assert!(matches!(classify(r), Outcome::Failed { .. }));
}

#[test]
fn requirement_cache_resolves_and_memoizes() {
    let mut cache = RequirementCache::new();
    let name = "zsh".to_string();
    assert!(cache.cached(&name).is_none());

    let first = cache.require(&name, Some("/bin/zsh".to_string()));
    assert_eq!(first.unwrap(), "/bin/zsh");

    // A later probe with a different answer is ignored: the first answer
    // stands for the whole run.
    let second = cache.require(&name, Some("/other/zsh".to_string()));
    assert_eq!(second.unwrap(), "/bin/zsh");

    assert_eq!(cache.cached(&name), Some(Some("/bin/zsh".to_string())));
}

#[test]
fn requirement_cache_remembers_absence() {
    let mut cache = RequirementCache::new();
    let name = "antibody".to_string();
    let first = cache.require(&name, None);
    match first {
        Err(StepError::RequirementMissing { name }) => assert_eq!(name, "antibody"),
        _ => panic!("an absent program must come back as a missing requirement"),
    }
    // Even if the program appears later, this run keeps treating it as
    // absent.
    let second = cache.require(&name, Some("/bin/antibody".to_string()));
    assert!(matches!(second, Err(StepError::RequirementMissing { .. })));
    assert_eq!(cache.cached(&name), Some(None));
}

#[test]
fn one_failure_never_stops_the_run() {
    let n = 5;
    for k in 0..n {
        let mut results: Vec<(String, Result<(), StepError>)> = Vec::new();
        for i in 0..n {
            let name = format!("step{i}");
            if i == k {
                results.push((name, Err(StepError::NonZeroExit { code: 2 })));
            } else {
                results.push((name, Ok(())));
            }
        }
        let report = report_of_results(results);
        assert_eq!(report.len(), n);
        for i in 0..n {
            let entry = report.entry(i);
            assert_eq!(entry.0, format!("step{i}"));
            if i == k {
                assert!(matches!(entry.1, Outcome::Failed { .. }));
            } else {
                assert!(matches!(entry.1, Outcome::Success));
            }
        }
        assert_eq!(report.count_failed(), 1);
        assert_eq!(report.count_success(), n - 1);
    }
}

#[test]
fn present_absent_and_accepted_steps_report_success_skip_ignore() {
    // Step A's tool is present and it succeeds; step B's tool is absent;
    // step C's tool is present and exits 80, which C accepts.
    let a = status_result(SpawnOutcome::Exited { code: 0 }, &Vec::new());
    let b: Result<(), StepError> =
        Err(StepError::RequirementMissing { name: "b-tool".to_string() });
    let c = status_result(SpawnOutcome::Exited { code: 80 }, &vec![80]);
    let report = report_of_results(vec![
        ("A".to_string(), a),
        ("B".to_string(), b),
        ("C".to_string(), c),
    ]);
    assert_eq!(report.len(), 3);
    assert!(matches!(report.entry(0).1, Outcome::Success));
    assert!(matches!(report.entry(1).1, Outcome::Skipped { .. }));
    assert!(matches!(report.entry(2).1, Outcome::Ignored { .. }));
    assert_eq!(report.count_success(), 1);
    assert_eq!(report.count_skipped(), 1);
    assert_eq!(report.count_ignored(), 1);
    assert_eq!(report.count_failed(), 0);
    assert_eq!(report.exit_code(), 0);
}

#[test]
fn unaccepted_failure_makes_the_exit_code_nonzero() {
    let a = status_result(SpawnOutcome::Exited { code: 0 }, &Vec::new());
    let b = status_result(SpawnOutcome::Exited { code: 1 }, &Vec::new());
    let report = report_of_results(vec![("A".to_string(), a), ("B".to_string(), b)]);
    assert_eq!(report.len(), 2);
    assert!(matches!(report.entry(0).1, Outcome::Success));
    assert!(matches!(report.entry(1).1, Outcome::Failed { .. }));
    assert_ne!(report.exit_code(), 0);
}

#[test]
fn empty_report_exits_zero() {
    let report = Report::new();
    assert_eq!(report.len(), 0);
    assert!(!report.any_failed());
    assert_eq!(report.exit_code(), 0);
}

#[test]
fn record_step_appends_in_order() {
    let mut report = Report::new();
    record_step(&mut report, "first".to_string(), Ok(()));
    record_step(
        &mut report,
        "second".to_string(),
        Err(StepError::NotApplicable { path: "/x".to_string() }),
    );
    assert_eq!(report.len(), 2);
    assert_eq!(report.entry(0).0, "first");
    assert_eq!(report.entry(1).0, "second");
    assert!(matches!(report.entry(1).1, Outcome::Skipped { .. }));
}

#[test]
fn run_type_modes_are_distinct() {
    assert!(RunType::Execute.is_execute());
    assert!(!RunType::DryRun.is_execute());
    assert_eq!(RunType::DryRun, RunType::DryRun);
    assert_ne!(RunType::DryRun, RunType::Execute);
}
