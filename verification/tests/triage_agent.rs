use std::cell::RefCell;

use adjutant::build_runs::{BuildCommandRunner, BuildResult};
use adjutant::json::JsonValue;
use adjutant::llm::{AgentContext, LlmClient, LlmModelTurn, LlmRequest, LlmToolCall};
use adjutant::triage_agent::{
    module_roots, record_applied_edit, record_rejected_edit, record_triage_response,
    triage_action, triage_early_exit, triage_enrich_context, triage_mutate_next_iteration,
    triage_after_edit, triage_request, triage_turn, TriageAction, TRIAGE_SYSTEM_PROMPT,
};

fn context(prompt: &str) -> AgentContext {
    AgentContext {
        input_prompt: prompt.to_string(),
        accumulated_data: String::new(),
        iterations: 3,
        max_iterations: 5,
        is_finished: false,
        agent_completed: false,
        touched_files: Vec::new(),
        last_tool_call: None,
    }
}

fn obj(members: Vec<(&str, JsonValue)>) -> JsonValue {
    JsonValue::Object(members.into_iter().map(|(k, v)| (k.to_string(), v)).collect())
}

fn s(v: &str) -> JsonValue {
    JsonValue::Str(v.to_string())
}

fn edit_args(path: &str, line: u64, content: &str) -> JsonValue {
    obj(vec![("path", s(path)), ("line", JsonValue::BigUInt(line)), ("content", s(content))])
}

fn roots() -> Vec<String> {
    vec!["/repo".to_string()]
}

#[test]
fn enrich_context_adds_root_prompt_and_targets() {
    let mut ctx = context("Fix the build");
    let targets = vec![("/repo".to_string(), "cargo check".to_string())];
    let paths = vec!["/repo/src/lib.rs".to_string(), "other/x.rs".to_string()];
    triage_enrich_context(&mut ctx, "/repo", &targets, &paths);
    assert!(ctx.input_prompt.starts_with("Fix the build\n\nWorkspace root: /repo\n\n\n"));
    assert!(ctx.input_prompt.ends_with(TRIAGE_SYSTEM_PROMPT));
    assert_eq!(
        ctx.accumulated_data,
        "Triage targets (1 modules):\n/repo => cargo check\n\nTarget files:\n- src/lib.rs\n- other/x.rs\n"
    );
}

#[test]
fn enrich_context_keeps_existing_markers() {
    let mut ctx = context("Workspace root: /w PHASE_5_TRIAGE");
    triage_enrich_context(&mut ctx, "/repo", &[], &[]);
    assert_eq!(ctx.input_prompt, "Workspace root: /w PHASE_5_TRIAGE");
    assert_eq!(ctx.accumulated_data, "Triage targets (0 modules):\n\n");
}

#[test]
fn early_exit_without_resolved_paths() {
    let mut ctx = context("p");
    triage_early_exit(&mut ctx, "/repo", &[], &[]);
    assert!(ctx.is_finished);
    assert_eq!(
        ctx.input_prompt,
        "No modules to check (no git changes or unknown paths).\nWorkspace root: /repo\nRequested paths: (none)\nResolved paths: (none)\nDiscovery: no build targets."
    );
    assert_eq!(ctx.accumulated_data, format!("\n[TRIAGE EARLY EXIT]\n{}\n", ctx.input_prompt));
}

#[test]
fn early_exit_with_resolved_paths_names_them() {
    let mut ctx = context("p");
    let req = vec!["a.rs".to_string()];
    let res = vec!["/repo/a.rs".to_string(), "/repo/b.rs".to_string()];
    triage_early_exit(&mut ctx, "/repo", &req, &res);
    assert_eq!(
        ctx.input_prompt,
        "Could not resolve a build command (no manifest and discovery returned no command).\nWorkspace root: /repo\nRequested paths: a.rs\nResolved paths: /repo/a.rs, /repo/b.rs\nDiscovery: attempted build-command discovery — no command."
    );
}

#[test]
fn request_carries_logs_and_tools() {
    let mut ctx = context("TDD RED PHASE");
    ctx.accumulated_data = "LOG".to_string();
    let r = triage_request(&ctx);
    assert_eq!(r.system_prompt, TRIAGE_SYSTEM_PROMPT);
    assert_eq!(
        r.user_message,
        "Build logs to fix (TDD RED — fix ONLY compile errors, do NOT change assertions):\n\nLOG\n\nCall one tool."
    );
    let names: Vec<&str> = r.tools.iter().map(|t| t.name.as_str()).collect();
    assert_eq!(names, vec!["edit_file", "report_architectural_error"]);
    let plain = triage_request(&context("normal"));
    assert_eq!(plain.user_message, "Build logs to fix:\n\n\n\nCall one tool.");
}

#[test]
fn response_notes() {
    let mut ctx = context("p");
    record_triage_response(&mut ctx, &Some("think".to_string()), None);
    assert_eq!(ctx.accumulated_data, "LLM triage response (iter 3):\nthink\n(model did not call a tool — retrying)\n");
    let mut ctx = context("p");
    record_triage_response(&mut ctx, &None, Some(("edit_file", "{\"line\":1}")));
    assert_eq!(ctx.accumulated_data, "LLM triage response (iter 3):\nThought: \nTool: edit_file({\"line\":1})\n");
}

#[test]
fn action_resolves_edits_under_module_roots() {
    let a = triage_action("edit_file", &edit_args("src/lib.rs", 4, "use x;"), false, &roots()).unwrap();
    match a {
        TriageAction::Edit { path, line, content } => {
            assert_eq!(path, "/repo/src/lib.rs");
            assert_eq!(line, 4);
            assert_eq!(content, "use x;");
        }
        TriageAction::Escalate { .. } => panic!("expected an edit"),
    }
}

#[test]
fn action_refuses_assertion_edits_in_tdd_red() {
    let e = triage_action("edit_file", &edit_args("src/lib.rs", 4, "  assert_eq!(1, 2);"), true, &roots());
    assert_eq!(e.err(), Some("TDD RED PHASE: modifying assertions or panic! is forbidden".to_string()));
    let ok = triage_action("edit_file", &edit_args("src/lib.rs", 4, "  panic!(\"x\")"), false, &roots());
    assert!(ok.is_ok());
}

#[test]
fn action_reads_escalation_and_rejects_unknown_tools() {
    match triage_action("report_architectural_error", &obj(vec![("msg", s("needs redesign"))]), false, &roots()) {
        Ok(TriageAction::Escalate { message }) => assert_eq!(message, "needs redesign"),
        _ => panic!("expected an escalation"),
    }
    assert_eq!(
        triage_action("ripgrep", &JsonValue::Null, false, &roots()).err(),
        Some("unsupported triage tool: ripgrep".to_string())
    );
    assert!(triage_action("edit_file", &obj(vec![("path", s("a"))]), false, &roots()).is_err());
}

#[test]
fn edit_records_and_next_iteration() {
    let mut ctx = context("p");
    record_applied_edit(&mut ctx, "/repo/a.rs", 7);
    record_rejected_edit(&mut ctx, "no");
    assert_eq!(ctx.accumulated_data, "Applied edit_file(/repo/a.rs, line=7)\nEdit rejected: no\n");
    triage_mutate_next_iteration(&mut ctx);
    assert_eq!(ctx.input_prompt, "p\nRe-run the build after the latest fix attempt.");
}

#[test]
fn module_roots_are_target_dirs() {
    let t = vec![("/a".to_string(), "x".to_string()), ("/b".to_string(), "y".to_string())];
    assert_eq!(module_roots(&t), vec!["/a".to_string(), "/b".to_string()]);
}

struct FailingBuild;

impl BuildCommandRunner for FailingBuild {
    fn run_build_command(&self, _dir: &str, _command: &str) -> Result<BuildResult, String> {
        Ok(BuildResult { success: false, exit_code: 1, output: "error: missing import".to_string() })
    }
}

struct Replies(RefCell<Vec<LlmModelTurn>>);

impl LlmClient for Replies {
    fn complete(&self, request: LlmRequest) -> Result<LlmModelTurn, String> {
        assert!(request.user_message.starts_with("Build logs to fix:\n\nWorkspace: /repo"));
        Ok(self.0.borrow_mut().remove(0))
    }
}

fn call(name: &str, raw: &str, parsed: JsonValue) -> LlmModelTurn {
    LlmModelTurn {
        content: Some("fix".to_string()),
        tool_calls: vec![LlmToolCall { name: name.to_string(), arguments: raw.to_string(), parsed_arguments: parsed }],
        usage: None,
    }
}

#[test]
fn triage_turn_hands_back_the_edit() {
    let client = Replies(RefCell::new(vec![call("edit_file", "{...}", edit_args("src/lib.rs", 1, "use y;"))]));
    let targets = vec![("/repo".to_string(), "cargo check".to_string())];
    let mut ctx = context("fix");
    let r = triage_turn(&client, &FailingBuild, "/repo", &[], &[], &targets, &[], &mut ctx).unwrap();
    match r {
        Some(TriageAction::Edit { path, line, .. }) => {
            assert_eq!(path, "/repo/src/lib.rs");
            assert_eq!(line, 1);
        }
        _ => panic!("expected an edit"),
    }
    assert!(!ctx.is_finished);
    assert!(ctx.accumulated_data.contains("Build FAILED:\nerror: missing import\n"));
    assert!(ctx.accumulated_data.ends_with("Tool: edit_file({...})\n"));
}

#[test]
fn triage_turn_escalation_finishes() {
    let client = Replies(RefCell::new(vec![call(
        "report_architectural_error",
        "{}",
        obj(vec![("msg", s("redesign"))]),
    )]));
    let targets = vec![("/repo".to_string(), "cargo check".to_string())];
    let mut ctx = context("fix");
    assert!(triage_turn(&client, &FailingBuild, "/repo", &[], &[], &targets, &[], &mut ctx).unwrap().is_none());
    assert!(ctx.is_finished);
    assert_eq!(ctx.accumulated_data, "redesign");
}

#[test]
fn triage_turn_without_targets_exits_early() {
    let client = Replies(RefCell::new(Vec::new()));
    let mut ctx = context("fix");
    assert!(triage_turn(&client, &FailingBuild, "/repo", &[], &[], &[], &[], &mut ctx).unwrap().is_none());
    assert!(ctx.is_finished);
    assert!(ctx.input_prompt.starts_with("No modules to check"));
}

struct PassingBuild;

impl BuildCommandRunner for PassingBuild {
    fn run_build_command(&self, _dir: &str, _command: &str) -> Result<BuildResult, String> {
        Ok(BuildResult { success: true, exit_code: 0, output: "ok".to_string() })
    }
}

#[test]
fn triage_after_edit_records_the_edit_and_rebuilds() {
    let targets = vec![("/repo".to_string(), "cargo check".to_string())];
    let mut ctx = context("fix");
    let done = triage_after_edit(&PassingBuild, &targets, &[], &mut ctx, "/repo/src/lib.rs", 3);
    assert!(done);
    assert!(ctx.is_finished);
    assert!(ctx.accumulated_data.starts_with("Applied edit_file(/repo/src/lib.rs, line=3)\n"));
    let mut ctx = context("fix");
    let done = triage_after_edit(&FailingBuild, &targets, &[], &mut ctx, "/repo/src/lib.rs", 3);
    assert!(!done);
    assert!(!ctx.is_finished);
    assert!(ctx.accumulated_data.contains("error: missing import"));
}
