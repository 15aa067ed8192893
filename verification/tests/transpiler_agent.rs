use adjutant::build_runs::{BuildCommandRunner, BuildResult};
use adjutant::json::JsonValue;
use adjutant::llm::{AgentContext, LlmClient, LlmModelTurn, LlmRequest, LlmToolCall};
use adjutant::transpiler::{transpiler_tool_set, TRANSPILER_SYSTEM_PROMPT};
use adjutant::transpiler_agent::{
    child_triage_context, child_triage_paths, child_triage_report, finish_transpiler, record_transpiler_step,
    transpiler_action, transpiler_turn, TranspilerAction,
};

fn context(prompt: &str) -> AgentContext {
    AgentContext {
        input_prompt: prompt.to_string(),
        accumulated_data: String::new(),
        iterations: 3,
        max_iterations: 15,
        is_finished: false,
        agent_completed: false,
        touched_files: Vec::new(),
        last_tool_call: None,
    }
}

fn obj(members: Vec<(&str, JsonValue)>) -> JsonValue {
    JsonValue::Object(members.into_iter().map(|(k, v)| (k.to_string(), v)).collect())
}

fn s(v: &str) -> JsonValue {
    JsonValue::Str(v.to_string())
}

struct Verify(Result<(bool, i32, &'static str), &'static str>);

impl BuildCommandRunner for Verify {
    fn run_build_command(&self, dir: &str, command: &str) -> Result<BuildResult, String> {
        assert_eq!((dir, command), ("/ws", "npm run check"));
        match self.0 {
            Ok((success, exit_code, output)) => Ok(BuildResult { success, exit_code, output: output.to_string() }),
            Err(e) => Err(e.to_string()),
        }
    }
}

#[test]
fn child_paths_add_the_target_once() {
    let got = child_triage_paths(&["src/a.ts".to_string()], "/ws", "/ws/src/types.ts");
    assert_eq!(got, vec!["/ws/src/a.ts".to_string(), "/ws/src/types.ts".to_string()]);
    let got = child_triage_paths(&["./src/types.ts".to_string()], "/ws", "/ws/src/types.ts");
    assert_eq!(got, vec!["/ws/src/types.ts".to_string()]);
}

#[test]
fn transpiler_actions_per_tool() {
    match transpiler_action("write_target_file", &obj(vec![("path", s("a.ts")), ("content", s("x"))]), false, "/ws", "/ws/a.ts") {
        Ok(TranspilerAction::WriteTarget { path, content }) => assert_eq!((path.as_str(), content.as_str()), ("a.ts", "x")),
        _ => panic!("expected a write"),
    }
    assert_eq!(
        transpiler_action("finalize_sync", &obj(vec![]), false, "/ws", "/ws/a.ts").err(),
        Some("refusing finalize_sync: invoke_child_triage has not passed yet".to_string())
    );
    match transpiler_action("finalize_sync", &obj(vec![]), true, "/ws", "/ws/a.ts") {
        Ok(TranspilerAction::Finalize { summary }) => assert_eq!(summary, "type sync complete"),
        _ => panic!("expected finalize"),
    }
    match transpiler_action("report_error", &obj(vec![("reason", s("no mapping"))]), false, "/ws", "/ws/a.ts") {
        Ok(TranspilerAction::ReportError { reason }) => assert_eq!(reason, "no mapping"),
        _ => panic!("expected report_error"),
    }
    match transpiler_action(
        "invoke_child_triage",
        &obj(vec![("target_paths", JsonValue::Array(vec![s("b.ts")])), ("error_context", s("TS2322"))]),
        false,
        "/ws",
        "/ws/a.ts",
    ) {
        Ok(TranspilerAction::ChildTriage { paths, error_context }) => {
            assert_eq!(paths, vec!["/ws/b.ts".to_string(), "/ws/a.ts".to_string()]);
            assert_eq!(error_context, "TS2322");
        }
        _ => panic!("expected a child triage"),
    }
    assert_eq!(
        transpiler_action("shell", &JsonValue::Null, true, "/ws", "/ws/a.ts").err(),
        Some("unsupported transpiler tool: shell".to_string())
    );
}

#[test]
fn child_context_includes_failing_verify_output() {
    let cmd = Some("npm run check".to_string());
    assert_eq!(child_triage_context(&Verify(Ok((true, 0, "ok"))), "E1", "/ws", &None), "E1");
    assert_eq!(
        child_triage_context(&Verify(Ok((true, 0, "ok"))), "E1", "/ws", &cmd),
        "Verify with: cd /ws && npm run check\n\nE1"
    );
    assert_eq!(
        child_triage_context(&Verify(Ok((false, 2, "TS2322"))), "E1", "/ws", &cmd),
        "Verify with: cd /ws && npm run check\n\nE1\n\nLatest verify output:\nTS2322"
    );
    assert_eq!(
        child_triage_context(&Verify(Err("spawn")), "E1", "/ws", &cmd),
        "Verify with: cd /ws && npm run check\n\nE1\n\nLatest verify output:\nspawn"
    );
}

#[test]
fn child_report_adds_verify_run_after_failure() {
    let cmd = Some("npm run check".to_string());
    let mut t = context("still broken");
    t.accumulated_data = "log".to_string();
    assert_eq!(
        child_triage_report(&Verify(Ok((false, 2, "TS2322"))), &t, "/ws", &cmd),
        ("[TRIAGE INCOMPLETE] finished=false iterations=3\nlog\n\nVerify still failing (exit 2):\nTS2322".to_string(), false)
    );
    assert_eq!(
        child_triage_report(&Verify(Ok((true, 0, "clean"))), &t, "/ws", &cmd).0,
        "[TRIAGE INCOMPLETE] finished=false iterations=3\nlog\n\nVerify output:\nclean"
    );
    assert_eq!(
        child_triage_report(&Verify(Err("gone")), &t, "/ws", &None).0,
        "[TRIAGE INCOMPLETE] finished=false iterations=3\nlog"
    );
    t.input_prompt = "[TRIAGE PASS]".to_string();
    let (report, passed) = child_triage_report(&Verify(Err("unused")), &t, "/ws", &cmd);
    assert!(passed);
    assert!(report.starts_with("## Triage: PASS"));
}

#[test]
fn transpiler_steps_and_finish() {
    let mut ctx = context("p");
    record_transpiler_step(&mut ctx, "t", "write_target_file", "{}", "wrote a.ts (1 bytes)".to_string());
    assert_eq!(ctx.accumulated_data, "Thought:\nt\nTool: write_target_file({})\nObservation:\nwrote a.ts (1 bytes)\n");
    record_transpiler_step(&mut ctx, "t", "report_error", "{}", "no".to_string());
    assert_eq!(ctx.accumulated_data, "no");
    finish_transpiler(&mut ctx, &TranspilerAction::ReportError { reason: "cannot map".to_string() });
    assert!(ctx.is_finished && !ctx.agent_completed);
    assert_eq!(ctx.accumulated_data, "cannot map");
    let mut ok = context("p");
    finish_transpiler(&mut ok, &TranspilerAction::Finalize { summary: "done".to_string() });
    assert!(ok.is_finished && ok.agent_completed);
}

struct WriteOnce;

impl LlmClient for WriteOnce {
    fn complete(&self, request: LlmRequest) -> Result<LlmModelTurn, String> {
        assert_eq!(request.system_prompt, TRANSPILER_SYSTEM_PROMPT);
        Ok(LlmModelTurn {
            content: Some("write".to_string()),
            tool_calls: vec![LlmToolCall {
                name: "write_target_file".to_string(),
                arguments: "{\"path\":\"a.ts\"}".to_string(),
                parsed_arguments: obj(vec![("path", s("a.ts")), ("content", s("type A = 1;"))]),
            }],
            usage: None,
        })
    }
}

#[test]
fn transpiler_turn_hands_back_the_write() {
    let tools = transpiler_tool_set();
    let mut ctx = context("sync");
    match transpiler_turn(&WriteOnce, &tools, &mut ctx, false, "/ws", "/ws/a.ts") {
        Ok(Some((name, _, thought, TranspilerAction::WriteTarget { path, .. }))) => {
            assert_eq!((name.as_str(), thought.as_str(), path.as_str()), ("write_target_file", "write", "a.ts"));
        }
        _ => panic!("expected a write"),
    }
    assert!(transpiler_turn(&WriteOnce, &tools, &mut ctx, false, "/ws", "/ws/a.ts").unwrap().is_none());
}
