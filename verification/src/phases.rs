//! Sequencing the lint, build and run phases of one invocation.
//!
//! The phases run in the fixed order lint, build, run; each is optional,
//! per the requested actions. The planners here decide, from the resolved
//! target and the earlier phases' results, what each phase does: nothing,
//! a report about a missing target, or one external command. The
//! surrounding program spawns the command and hands back what became of
//! the child as a `ChildEvent`.

use vstd::prelude::*;

use crate::command::{spec_build_command, spec_lint_command, spec_run_command, Cmd};
use crate::target::{opt_model, opt_wf, Target};

verus! {

/// The actions one invocation asks for. `release` is a modifier: it
/// requests the build phase on its own and switches the commands to their
/// release form.
#[derive(Clone, Copy, Debug, PartialEq, Eq, Structural)]
pub struct Actions {
    pub lint: bool,
    pub build: bool,
    pub run: bool,
    pub release: bool,
}

/// The three phases of an invocation, in their fixed order.
#[derive(Clone, Copy, Debug, PartialEq, Eq, Structural)]
pub enum Phase {
    Lint,
    Build,
    Run,
}

/// What became of a spawned child process: it exited with a status code,
/// it terminated with no status code (killed by a signal, or its status
/// could not be read), or it could not be spawned at all.
#[derive(Clone, Copy, Debug, PartialEq, Eq, Structural)]
pub enum ChildEvent {
    Exited(i32),
    NoExitCode,
    SpawnFailed,
}

/// A phase's interpreted result. Status `0` succeeds; any other status
/// fails; abnormal termination counts as failure; a spawn failure is
/// reported but is no verdict on the tool's work.
#[derive(Clone, Copy, Debug, PartialEq, Eq, Structural)]
pub enum PhaseResult {
    Success,
    Failure(i32),
    SpawnFailure,
    Abnormal,
}

/// What the lint or build phase does.
#[derive(Debug, PartialEq)]
pub enum PhasePlan {
    NotRequested,
    NoTarget,
    Go(Cmd),
}

/// What the run phase does. `Suppressed` records a failed build phase
/// barring the run.
#[derive(Debug, PartialEq)]
pub enum RunPlan {
    NotRequested,
    Suppressed,
    NoTarget,
    NoBinary,
    Go(Cmd),
}

impl Target {
    /// Uniform result interpretation: an exit status succeeds exactly
    /// when it is zero, for every kind of project.
    pub fn handle_build_result(&self, return_code: i32, _stdout: Option<u8>) -> (r: bool)
        ensures
            r == (return_code == 0),
    {
        if return_code != 0 {
            return false;
        }
        true
    }
}

/// The result a child event stands for.
pub open spec fn spec_phase_result(ev: ChildEvent) -> PhaseResult {
    match ev {
        ChildEvent::Exited(c) => if c == 0 {
            PhaseResult::Success
        } else {
            PhaseResult::Failure(c)
        },
        ChildEvent::NoExitCode => PhaseResult::Abnormal,
        ChildEvent::SpawnFailed => PhaseResult::SpawnFailure,
    }
}

/// Interprets what became of a phase's child process.
pub fn phase_result(target: &Target, ev: ChildEvent) -> (r: PhaseResult)
    ensures
        r == spec_phase_result(ev),
{
    match ev {
        ChildEvent::Exited(c) => {
            if target.handle_build_result(c, None) {
                PhaseResult::Success
            } else {
                PhaseResult::Failure(c)
            }
        },
        ChildEvent::NoExitCode => PhaseResult::Abnormal,
        ChildEvent::SpawnFailed => PhaseResult::SpawnFailure,
    }
}

/// A build-phase result that bars the run phase: the build ran and
/// failed, by status or by abnormal termination. A spawn failure leaves
/// the run phase alone.
pub open spec fn spec_suppresses_run(r: PhaseResult) -> bool {
    r is Failure || r is Abnormal
}

/// Whether this build-phase result bars the run phase.
pub fn suppresses_run(r: &PhaseResult) -> (b: bool)
    ensures
        b == spec_suppresses_run(*r),
{
    match r {
        PhaseResult::Failure(_) => true,
        PhaseResult::Abnormal => true,
        PhaseResult::Success => false,
        PhaseResult::SpawnFailure => false,
    }
}

/// The build phase, where one ran, bars the run phase.
pub open spec fn spec_build_blocks_run(build_result: Option<PhaseResult>) -> bool {
    build_result matches Some(r) && spec_suppresses_run(r)
}

/// What the lint phase does: nothing unless requested, a report when no
/// target resolved, else the target's lint command.
pub fn plan_lint(target: &Option<Target>, a: &Actions) -> (p: PhasePlan)
    requires
        opt_wf(opt_model(*target)),
    ensures
        !a.lint ==> p is NotRequested,
        a.lint && (*target) is None ==> p is NoTarget,
        a.lint ==> ((*target) matches Some(t) ==> (p matches PhasePlan::Go(c) && c@
            == spec_lint_command(t@, a.release))),
{
    if !a.lint {
        return PhasePlan::NotRequested;
    }
    match target {
        None => PhasePlan::NoTarget,
        Some(t) => PhasePlan::Go(t.lint_command(a.release)),
    }
}

/// What the build phase does. It is requested by `build` or by `release`
/// alone; with no target resolved it is fatal for the whole invocation.
pub fn plan_build(target: &Option<Target>, a: &Actions) -> (p: PhasePlan)
    requires
        opt_wf(opt_model(*target)),
    ensures
        !(a.build || a.release) ==> p is NotRequested,
        (a.build || a.release) && (*target) is None ==> p is NoTarget,
        (a.build || a.release) ==> ((*target) matches Some(t) ==> (p matches PhasePlan::Go(c)
            && c@ == spec_build_command(t@, a.release))),
{
    if !(a.build || a.release) {
        return PhasePlan::NotRequested;
    }
    match target {
        None => PhasePlan::NoTarget,
        Some(t) => PhasePlan::Go(t.build_command(a.release)),
    }
}

/// What the run phase does. A failed build phase bars it; with no target,
/// or with a target whose binary name could not be resolved, it is fatal;
/// else it is the target's run command on that binary.
pub fn plan_run(
    target: &Option<Target>,
    a: &Actions,
    build_result: &Option<PhaseResult>,
    binary: &Option<String>,
) -> (p: RunPlan)
    ensures
        !a.run ==> p is NotRequested,
        a.run && spec_build_blocks_run(*build_result) ==> p is Suppressed,
        a.run && !spec_build_blocks_run(*build_result) && (*target) is None ==> p is NoTarget,
        a.run && !spec_build_blocks_run(*build_result) && (*target) is Some && (*binary) is None
            ==> p is NoBinary,
        a.run && !spec_build_blocks_run(*build_result) ==> ((*target) matches Some(t)
            ==> ((*binary) matches Some(b) ==> (p matches RunPlan::Go(c) && c@
            == spec_run_command(t@, a.release, b@)))),
{
    if !a.run {
        return RunPlan::NotRequested;
    }
    if let Some(r) = build_result {
        if suppresses_run(r) {
            return RunPlan::Suppressed;
        }
    }
    match target {
        None => RunPlan::NoTarget,
        Some(t) => match binary {
            None => RunPlan::NoBinary,
            Some(b) => RunPlan::Go(t.run_command(a.release, b.as_str())),
        },
    }
}

/// The process exit status a phase forces when no usable target was
/// resolved: fatal status `2` for build and run, a report alone for lint.
pub fn no_target_exit_status(phase: Phase) -> (r: Option<u8>)
    ensures
        phase is Lint ==> r is None,
        phase is Build ==> r == Some(2u8),
        phase is Run ==> r == Some(2u8),
{
    match phase {
        Phase::Lint => None,
        Phase::Build => Some(2),
        Phase::Run => Some(2),
    }
}

/// A build phase that exits with a non-zero status bars the run phase:
/// its event interprets to a result that suppresses run, so the run
/// planner yields no command, whatever the target and binary.
pub proof fn lemma_build_failure_suppresses_run(c: i32)
    requires
        c != 0,
    ensures
        spec_build_blocks_run(Some(spec_phase_result(ChildEvent::Exited(c)))),
{
}

} // verus!
