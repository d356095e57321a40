//! Dual-mode command execution: planning what to run, tracing instead of
//! spawning in dry-run mode, and turning what the operating system reported
//! back into a step result.

use vstd::prelude::*;

use crate::outcome::StepError;

verus! {

/// The mode of a whole run: `DryRun` only traces the commands that would be
/// spawned; `Execute` actually spawns them. Chosen once, immutable for the
/// run.
#[derive(Clone, Copy, PartialEq, Eq, Structural, Debug)]
pub enum RunType {
    DryRun,
    Execute,
}

impl RunType {
    /// Whether commands planned under this mode are really spawned.
    pub open spec fn spec_is_execute(self) -> bool {
        self is Execute
    }

    pub fn is_execute(self) -> (b: bool)
        ensures
            b == self.spec_is_execute(),
    {
        matches!(self, RunType::Execute)
    }
}

/// One external command: the program to launch, its arguments, extra
/// environment entries, and the nonzero exit codes the caller declared
/// acceptable.
pub struct CommandSpec {
    pub program: String,
    pub args: Vec<String>,
    pub env: Vec<(String, String)>,
    pub accepted_codes: Vec<i32>,
}

/// What the executor decided to do with a command: spawn it, or only show
/// it. The surrounding program spawns a process only for a `Spawn` plan.
pub enum ExecutionPlan {
    Spawn { command: CommandSpec },
    Trace { command: CommandSpec },
}

/// The plan a command receives under a run mode: in dry-run mode every
/// command is traced, never spawned; in execute mode it is spawned as given.
pub open spec fn spec_plan_invocation(run_type: RunType, command: CommandSpec) -> ExecutionPlan {
    match run_type {
        RunType::DryRun => ExecutionPlan::Trace { command },
        RunType::Execute => ExecutionPlan::Spawn { command },
    }
}

/// Decide whether `command` is spawned or only traced.
pub fn plan_invocation(run_type: RunType, command: CommandSpec) -> (p: ExecutionPlan)
    ensures
        p == spec_plan_invocation(run_type, command),
{
    match run_type {
        RunType::DryRun => ExecutionPlan::Trace { command },
        RunType::Execute => ExecutionPlan::Spawn { command },
    }
}

/// In dry-run mode no command is ever planned as a spawn, whatever the
/// command: the run is traced instead, and a traced step, having raised no
/// error, still reports success.
pub proof fn lemma_dry_run_never_spawns(command: CommandSpec)
    ensures
        !(spec_plan_invocation(RunType::DryRun, command) is Spawn),
        spec_plan_invocation(RunType::DryRun, command) == (ExecutionPlan::Trace { command }),
        crate::outcome::spec_classify(Ok(())) is Success,
{
}

/// The space-separated rendering of an argument list, with a space before
/// each argument.
pub open spec fn spec_args_trace(args: Seq<Seq<char>>) -> Seq<char>
    decreases args.len(),
{
    if args.len() == 0 {
        Seq::empty()
    } else {
        spec_args_trace(args.drop_last()) + " "@ + args.last()
    }
}

/// The rendering of environment overrides, each as `KEY=VALUE` followed by a
/// space.
pub open spec fn spec_env_trace(env: Seq<(Seq<char>, Seq<char>)>) -> Seq<char>
    decreases env.len(),
{
    if env.len() == 0 {
        Seq::empty()
    } else {
        spec_env_trace(env.drop_last()) + env.last().0 + "="@ + env.last().1 + " "@
    }
}

/// The one-line description of a command used as its dry-run trace:
/// environment overrides, then the program, then the arguments.
pub open spec fn spec_trace(command: CommandSpec) -> Seq<char> {
    spec_env_trace(command.env@.map_values(|p: (String, String)| (p.0@, p.1@)))
        + command.program@ + spec_args_trace(command.args@.map_values(|a: String| a@))
}

/// Render the "would run" line for a command.
pub fn render_trace(command: &CommandSpec) -> (t: String)
    ensures
        t@ == spec_trace(*command),
{
    let ghost env_v = command.env@.map_values(|p: (String, String)| (p.0@, p.1@));
    let ghost args_v = command.args@.map_values(|a: String| a@);
    let mut t = String::new();
    let mut i: usize = 0;
    while i < command.env.len()
        invariant
            i <= command.env@.len(),
            env_v == command.env@.map_values(|p: (String, String)| (p.0@, p.1@)),
            t@ == spec_env_trace(env_v.take(i as int)),
        decreases command.env@.len() - i,
    {
        proof {
            assert(env_v.take(i + 1).drop_last() =~= env_v.take(i as int));
            assert(env_v.take(i + 1).last() == env_v[i as int]);
        }
        t.append(command.env[i].0.as_str());
        t.append("=");
        t.append(command.env[i].1.as_str());
        t.append(" ");
        i += 1;
    }
    proof {
        assert(env_v.take(env_v.len() as int) =~= env_v);
    }
    t.append(command.program.as_str());
    let mut j: usize = 0;
    while j < command.args.len()
        invariant
            j <= command.args@.len(),
            env_v == command.env@.map_values(|p: (String, String)| (p.0@, p.1@)),
            args_v == command.args@.map_values(|a: String| a@),
            t@ == spec_env_trace(env_v) + command.program@ + spec_args_trace(
                args_v.take(j as int),
            ),
        decreases command.args@.len() - j,
    {
        proof {
            assert(args_v.take(j + 1).drop_last() =~= args_v.take(j as int));
            assert(args_v.take(j + 1).last() == args_v[j as int]);
        }
        t.append(" ");
        t.append(command.args[j].as_str());
        j += 1;
    }
    proof {
        assert(args_v.take(args_v.len() as int) =~= args_v);
    }
    t
}

/// What the operating system reported about one attempted spawn.
pub enum SpawnOutcome {
    /// The process ran to completion with this exit code.
    Exited { code: i32 },
    /// The process could not be started at all.
    StartFailure { detail: String },
}

/// How a spawn outcome is judged against the accepted exit codes: exit code
/// zero succeeds; a nonzero code in the accepted set is an accepted exit; any
/// other nonzero code is an unexpected exit; a failure to start is a spawn
/// failure.
pub open spec fn spec_status_result(outcome: SpawnOutcome, accepted: Seq<i32>) -> Result<
    (),
    StepError,
> {
    match outcome {
        SpawnOutcome::Exited { code } => if code == 0 {
            Ok(())
        } else if accepted.contains(code) {
            Err(StepError::AcceptedExit { code })
        } else {
            Err(StepError::NonZeroExit { code })
        },
        SpawnOutcome::StartFailure { detail } => Err(StepError::SpawnFailure { detail }),
    }
}

/// Whether `codes` contains `code`.
fn contains_code(codes: &Vec<i32>, code: i32) -> (b: bool)
    ensures
        b == codes@.contains(code),
{
    let mut i: usize = 0;
    while i < codes.len()
        invariant
            i <= codes@.len(),
            forall|j: int| 0 <= j < i ==> codes@[j] != code,
        decreases codes@.len() - i,
    {
        if codes[i] == code {
            return true;
        }
        i += 1;
    }
    false
}

/// Judge what the operating system reported against the accepted exit codes.
pub fn status_result(outcome: SpawnOutcome, accepted: &Vec<i32>) -> (r: Result<(), StepError>)
    ensures
        r == spec_status_result(outcome, accepted@),
{
    match outcome {
        SpawnOutcome::Exited { code } => {
            if code == 0 {
                Ok(())
            } else if contains_code(accepted, code) {
                Err(StepError::AcceptedExit { code })
            } else {
                Err(StepError::NonZeroExit { code })
            }
        },
        SpawnOutcome::StartFailure { detail } => Err(StepError::SpawnFailure { detail }),
    }
}

/// What the operating system reported about one attempted spawn whose
/// output was captured.
pub enum CaptureOutcome {
    /// The process ran to completion and its standard output decoded as
    /// text.
    Exited { code: i32, stdout: String },
    /// The process ran but printed bytes that are not valid text.
    NotText { detail: String },
    /// The process could not be started at all.
    StartFailure { detail: String },
}

/// How a captured-output outcome is judged: exit code zero hands the output
/// back; a nonzero code in the accepted set is an accepted exit; any other
/// nonzero code is an unexpected exit; output that is not text is an I/O
/// failure; a failure to start is a spawn failure.
pub open spec fn spec_output_result(outcome: CaptureOutcome, accepted: Seq<i32>) -> Result<
    String,
    StepError,
> {
    match outcome {
        CaptureOutcome::Exited { code, stdout } => if code == 0 {
            Ok(stdout)
        } else if accepted.contains(code) {
            Err(StepError::AcceptedExit { code })
        } else {
            Err(StepError::NonZeroExit { code })
        },
        CaptureOutcome::NotText { detail } => Err(StepError::Io { detail }),
        CaptureOutcome::StartFailure { detail } => Err(StepError::SpawnFailure { detail }),
    }
}

/// Judge a captured-output outcome against the accepted exit codes and hand
/// the output back on success.
pub fn output_result(outcome: CaptureOutcome, accepted: &Vec<i32>) -> (r: Result<
    String,
    StepError,
>)
    ensures
        r == spec_output_result(outcome, accepted@),
{
    match outcome {
        CaptureOutcome::Exited { code, stdout } => {
            if code == 0 {
                Ok(stdout)
            } else if contains_code(accepted, code) {
                Err(StepError::AcceptedExit { code })
            } else {
                Err(StepError::NonZeroExit { code })
            }
        },
        CaptureOutcome::NotText { detail } => Err(StepError::Io { detail }),
        CaptureOutcome::StartFailure { detail } => Err(StepError::SpawnFailure { detail }),
    }
}

/// A nonzero exit code in the accepted set classifies the step as ignored,
/// never as failed; any other nonzero exit code classifies it as failed.
pub proof fn lemma_accepted_exit_is_ignored(code: i32, accepted: Seq<i32>)
    requires
        code != 0,
    ensures
        accepted.contains(code) ==> crate::outcome::spec_classify(
            spec_status_result(SpawnOutcome::Exited { code }, accepted),
        ) is Ignored,
        !accepted.contains(code) ==> crate::outcome::spec_classify(
            spec_status_result(SpawnOutcome::Exited { code }, accepted),
        ) is Failed,
{
}

} // verus!
