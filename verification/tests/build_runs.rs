use std::cell::RefCell;

use adjutant::build_runs::{
    run_build_targets, truncate_build_log, try_finish_tdd_red, BuildCommandRunner, BuildResult,
    TDD_RED_DONE,
};
use adjutant::llm::AgentContext;

/// Hands back canned results keyed by command, and records every call.
struct Canned {
    answers: Vec<(&'static str, Result<(bool, i32, &'static str), &'static str>)>,
    calls: RefCell<Vec<(String, String)>>,
}

impl Canned {
    fn new(answers: Vec<(&'static str, Result<(bool, i32, &'static str), &'static str>)>) -> Self {
        Canned { answers, calls: RefCell::new(Vec::new()) }
    }
}

impl BuildCommandRunner for Canned {
    fn run_build_command(&self, dir: &str, command: &str) -> Result<BuildResult, String> {
        self.calls.borrow_mut().push((dir.to_string(), command.to_string()));
        for (cmd, answer) in &self.answers {
            if *cmd == command {
                return match answer {
                    Ok((success, exit_code, output)) => Ok(BuildResult {
                        success: *success,
                        exit_code: *exit_code,
                        output: output.to_string(),
                    }),
                    Err(e) => Err(e.to_string()),
                };
            }
        }
        Err(format!("no canned answer for {command}"))
    }
}

fn context(prompt: &str) -> AgentContext {
    AgentContext {
        input_prompt: prompt.to_string(),
        accumulated_data: "start\n".to_string(),
        iterations: 2,
        max_iterations: 5,
        is_finished: false,
        agent_completed: false,
        touched_files: Vec::new(),
        last_tool_call: None,
    }
}

fn targets() -> Vec<(String, String)> {
    vec![("/repo".to_string(), "cargo check".to_string())]
}

#[test]
fn truncate_build_log_keeps_short_logs() {
    assert_eq!(truncate_build_log("a\nb", 120, 24_000), ("a\nb".to_string(), false));
}

#[test]
fn truncate_build_log_keeps_last_lines_then_last_bytes() {
    assert_eq!(truncate_build_log("1\n2\n3\n4", 2, 100), ("3\n4".to_string(), true));
    assert_eq!(truncate_build_log("abcdef", 10, 3), ("def".to_string(), true));
    // A character is never split: `é` takes two bytes.
    assert_eq!(truncate_build_log("xé", 10, 2), ("é".to_string(), true));
    assert_eq!(truncate_build_log("xé", 10, 1), ("".to_string(), true));
}

#[test]
fn tdd_red_finishes_when_tests_fail_on_assertions() {
    let runner = Canned::new(vec![
        ("cargo check", Ok((true, 0, "checked"))),
        (
            "cargo test --test red",
            Ok((false, 101, "test red_case ... FAILED\nassertion `left == right` failed")),
        ),
    ]);
    let mut ctx = context("TDD RED PHASE");
    let paths = vec!["/repo/tests/red.rs".to_string()];
    assert!(try_finish_tdd_red(&runner, &targets(), &paths, &mut ctx));
    assert!(ctx.is_finished);
    assert_eq!(ctx.input_prompt, TDD_RED_DONE);
    assert!(ctx.accumulated_data.starts_with("start\nTDD RED check OK in /repo (`cargo check`):\nExit code: 0\nchecked\n"));
    assert!(ctx
        .accumulated_data
        .contains("TDD RED assertion failure (expected) in /repo (`cargo test --test red`):\nExit code: 101\n"));
    assert_eq!(
        runner.calls.borrow().as_slice(),
        &[
            ("/repo".to_string(), "cargo check".to_string()),
            ("/repo".to_string(), "cargo test --test red".to_string()),
        ]
    );
}

#[test]
fn tdd_red_stops_on_failed_check_without_running_tests() {
    let runner = Canned::new(vec![("cargo check", Ok((false, 1, "error[E0425]: cannot find")))]);
    let mut ctx = context("TDD RED PHASE");
    assert!(!try_finish_tdd_red(&runner, &targets(), &[], &mut ctx));
    assert!(!ctx.is_finished);
    assert_eq!(ctx.input_prompt, "TDD RED PHASE");
    assert_eq!(
        ctx.accumulated_data,
        "start\nTDD RED check FAILED in /repo (`cargo check`):\nExit code: 1\nerror[E0425]: cannot find\n"
    );
    assert_eq!(runner.calls.borrow().len(), 1);
}

#[test]
fn tdd_red_reports_unexpected_pass_and_spawn_errors() {
    let runner = Canned::new(vec![
        ("cargo check", Ok((true, 0, ""))),
        ("cargo test", Ok((true, 0, "ok"))),
        ("npm run typecheck", Ok((true, 0, ""))),
        ("npm run test", Err("spawn failed")),
    ]);
    let mut ctx = context("TDD RED PHASE");
    let two = vec![
        ("/a".to_string(), "cargo check".to_string()),
        ("/b".to_string(), "npm run typecheck".to_string()),
    ];
    assert!(!try_finish_tdd_red(&runner, &two, &[], &mut ctx));
    assert!(!ctx.is_finished);
    assert!(ctx.accumulated_data.ends_with(
        "TDD RED unexpected pass in /a (`cargo test`):\nExit code: 0\nok\n\n---\nTDD RED spawn error in /b (`npm run test`): spawn failed\n"
    ));
}

#[test]
fn tdd_red_without_targets_does_not_finish() {
    let runner = Canned::new(Vec::new());
    let mut ctx = context("TDD RED PHASE");
    assert!(!try_finish_tdd_red(&runner, &[], &[], &mut ctx));
    assert_eq!(ctx.accumulated_data, "start\n");
}

#[test]
fn build_round_passes_when_every_target_builds() {
    let runner = Canned::new(vec![("cargo check", Ok((true, 0, "  done  \n")))]);
    let mut ctx = context("fix it");
    assert!(run_build_targets(&runner, &targets(), &mut ctx));
    assert!(ctx.is_finished);
    assert_eq!(ctx.input_prompt, "[TRIAGE PASS]");
    assert_eq!(
        ctx.accumulated_data,
        "start\nWorkspace: /repo\nCommand: `cargo check`\nExit code: 0\nBuild output:\n  done\n"
    );
}

#[test]
fn build_round_notes_empty_output() {
    let runner = Canned::new(vec![("cargo check", Ok((true, 0, " \n")))]);
    let mut ctx = context("fix it");
    assert!(run_build_targets(&runner, &targets(), &mut ctx));
    assert!(ctx.accumulated_data.ends_with("Build output:\n(no further stdout/stderr)\n"));
}

#[test]
fn build_round_collects_failures() {
    let runner = Canned::new(vec![
        ("cargo check", Ok((false, 101, "error: boom"))),
        ("make", Err("not found")),
    ]);
    let mut ctx = context("fix it");
    let two = vec![
        ("/a".to_string(), "cargo check".to_string()),
        ("/b".to_string(), "make".to_string()),
    ];
    assert!(!run_build_targets(&runner, &two, &mut ctx));
    assert!(!ctx.is_finished);
    assert_eq!(ctx.input_prompt, "fix it");
    assert_eq!(
        ctx.accumulated_data,
        "start\nWorkspace: /a\nCommand: `cargo check`\nExit code: 101\nBuild FAILED:\nerror: boom\n\n---\nWorkspace: /b\nCommand: `make`\nSpawn error: not found\n"
    );
}

#[test]
fn build_round_without_targets_passes() {
    let runner = Canned::new(Vec::new());
    let mut ctx = context("fix it");
    assert!(run_build_targets(&runner, &[], &mut ctx));
    assert!(ctx.is_finished);
}
