use buildrun::command::Cmd;
use buildrun::phases::{
    no_target_exit_status, phase_result, plan_build, plan_lint, plan_run, Actions, ChildEvent,
    Phase, PhasePlan, PhaseResult, RunPlan,
};
use buildrun::resolve::resolve;
use buildrun::target::Target;

fn cmd(program: &str, args: &[&str]) -> Cmd {
    Cmd {
        program: program.to_string(),
        args: args.iter().map(|s| s.to_string()).collect(),
    }
}

fn acts(lint: bool, build: bool, run: bool, release: bool) -> Actions {
    Actions { lint, build, run, release }
}

#[test]
fn exit_status_interprets_uniformly() {
    let t = Target::Cargo;
    assert!(t.handle_build_result(0, None));
    assert!(!t.handle_build_result(1, None));
    assert!(!t.handle_build_result(-9, None));
    assert_eq!(phase_result(&t, ChildEvent::Exited(0)), PhaseResult::Success);
    assert_eq!(phase_result(&t, ChildEvent::Exited(3)), PhaseResult::Failure(3));
    assert_eq!(phase_result(&t, ChildEvent::NoExitCode), PhaseResult::Abnormal);
    assert_eq!(phase_result(&t, ChildEvent::SpawnFailed), PhaseResult::SpawnFailure);
}

#[test]
fn failed_build_suppresses_run() {
    let target = Some(Target::Cargo);
    let a = acts(false, true, true, false);
    let binary = Some("demo".to_string());
    let p = plan_run(&target, &a, &Some(PhaseResult::Failure(1)), &binary);
    assert_eq!(p, RunPlan::Suppressed);
    let p = plan_run(&target, &a, &Some(PhaseResult::Abnormal), &binary);
    assert_eq!(p, RunPlan::Suppressed);
}

#[test]
fn successful_build_lets_run_go() {
    let target = Some(Target::Cargo);
    let a = acts(false, true, true, false);
    let binary = Some("demo".to_string());
    let p = plan_run(&target, &a, &Some(PhaseResult::Success), &binary);
    assert_eq!(p, RunPlan::Go(cmd("cargo", &["run"])));
}

#[test]
fn build_spawn_failure_does_not_suppress_run() {
    let target = Some(Target::Cargo);
    let a = acts(false, true, true, false);
    let binary = Some("demo".to_string());
    let p = plan_run(&target, &a, &Some(PhaseResult::SpawnFailure), &binary);
    assert_eq!(p, RunPlan::Go(cmd("cargo", &["run"])));
}

#[test]
fn run_only_in_an_empty_directory_is_fatal() {
    let target = resolve(&Vec::new());
    assert_eq!(target, None);
    let a = acts(false, false, true, false);
    assert_eq!(plan_lint(&target, &a), PhasePlan::NotRequested);
    assert_eq!(plan_build(&target, &a), PhasePlan::NotRequested);
    assert_eq!(plan_run(&target, &a, &None, &None), RunPlan::NoTarget);
    assert_eq!(no_target_exit_status(Phase::Run), Some(2));
}

#[test]
fn build_without_target_is_fatal() {
    let a = acts(false, true, false, false);
    assert_eq!(plan_build(&None, &a), PhasePlan::NoTarget);
    assert_eq!(no_target_exit_status(Phase::Build), Some(2));
}

#[test]
fn lint_without_target_only_reports() {
    let a = acts(true, false, false, false);
    assert_eq!(plan_lint(&None, &a), PhasePlan::NoTarget);
    assert_eq!(no_target_exit_status(Phase::Lint), None);
}

#[test]
fn run_without_binary_name_is_fatal() {
    let target = Some(Target::Make);
    let a = acts(false, false, true, false);
    let p = plan_run(&target, &a, &None, &None);
    assert_eq!(p, RunPlan::NoBinary);
    assert_eq!(no_target_exit_status(Phase::Run), Some(2));
}

#[test]
fn release_alone_requests_the_build_phase() {
    let target = Some(Target::Cargo);
    let a = acts(false, false, false, true);
    let p = plan_build(&target, &a);
    assert_eq!(p, PhasePlan::Go(cmd("cargo", &["build", "--release"])));
}

#[test]
fn cpp_build_then_run_scenario() {
    let target = resolve(&vec!["main.cpp".to_string()]);
    assert_eq!(target, Some(Target::Cpp("main.cpp".to_string())));
    let a = acts(false, true, true, false);

    let build = plan_build(&target, &a);
    assert_eq!(build, PhasePlan::Go(cmd("g++", &["main.cpp", "-o", "main"])));

    let t = target.as_ref().unwrap();
    let result = phase_result(t, ChildEvent::Exited(0));
    assert_eq!(result, PhaseResult::Success);

    let binary = t.get_binary(&Vec::new());
    assert_eq!(binary, Some("main".to_string()));
    let run = plan_run(&target, &a, &Some(result), &binary);
    assert_eq!(run, RunPlan::Go(cmd("./main", &[])));
}

#[test]
fn cargo_release_build_then_run_scenario() {
    let target = resolve(&vec!["Cargo.toml".to_string()]);
    assert_eq!(target, Some(Target::Cargo));
    let a = acts(false, true, true, true);

    let build = plan_build(&target, &a);
    assert_eq!(build, PhasePlan::Go(cmd("cargo", &["build", "--release"])));

    let t = target.as_ref().unwrap();
    let manifest = vec!["[package]".to_string(), "name = \"demo\"".to_string()];
    let binary = t.get_binary(&manifest);
    assert_eq!(binary, Some("demo".to_string()));

    let ok = phase_result(t, ChildEvent::Exited(0));
    let run = plan_run(&target, &a, &Some(ok), &binary);
    assert_eq!(run, RunPlan::Go(cmd("cargo", &["run", "--release"])));

    let failed = phase_result(t, ChildEvent::Exited(101));
    let run = plan_run(&target, &a, &Some(failed), &binary);
    assert_eq!(run, RunPlan::Suppressed);
}
