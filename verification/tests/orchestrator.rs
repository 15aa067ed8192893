use adjutant::json::JsonValue;
use adjutant::llm::{
    AgentContext, LlmClient, LlmModelTurn, LlmRequest, LlmToolCall, LlmToolSet, ToolDefinition,
    ToolInvocation, ToolInvoker,
};
use adjutant::orchestrator::{
    build_tool_loop_message, last_evidence_chunk, read_next_call, run_single_tool_turn, strip_prior_iteration_cap,
    AgentLoopOrchestrator,
};

fn ctx(prompt: &str, data: &str) -> AgentContext {
    AgentContext {
        input_prompt: prompt.to_string(),
        accumulated_data: data.to_string(),
        iterations: 2,
        max_iterations: 3,
        is_finished: false,
        agent_completed: false,
        touched_files: vec![],
        last_tool_call: None,
    }
}

#[test]
fn strip_prior_iteration_cap_removes_nested_header() {
    let capped = "## builder report (iteration limit after 2 of 3 turns)\n\nbuilder did not finalize; partial evidence only.\nWorkspace: /tmp\nTouched files:\n- (none)\n\nTool: read_file\nObservation:\nline 1\n";
    let stripped = strip_prior_iteration_cap(capped);
    assert!(stripped.starts_with("Tool: read_file"));
    assert!(!stripped.contains("iteration limit after"));
}

#[test]
fn last_evidence_chunk_keeps_tail() {
    let big = "x".repeat(3000);
    let chunk = last_evidence_chunk(&big);
    assert_eq!(chunk.len(), 2048);
    assert!(chunk.chars().all(|c| c == 'x'));
    assert_eq!(last_evidence_chunk("short"), "short");
}

#[test]
fn last_evidence_chunk_respects_utf8_boundaries() {
    let big = "é".repeat(3000);
    let chunk = last_evidence_chunk(&big);
    assert!(chunk.len() <= 2048);
    assert!(std::str::from_utf8(chunk.as_bytes()).is_ok());
    assert!(!chunk.is_empty());
}

#[test]
fn tool_loop_message_appends_history() {
    assert_eq!(build_tool_loop_message(&ctx("task", "")), "task");
    assert_eq!(
        build_tool_loop_message(&ctx("task", "obs")),
        "task\n\n---\nObservation history:\nobs"
    );
}

#[test]
fn iteration_cap_writes_partial_report_once() {
    let mut c = ctx("task", "Tool: x\nObservation:\ny\n");
    c.touched_files = vec!["/w/a.rs".to_string(), "/w/b.rs".to_string()];
    AgentLoopOrchestrator::apply_iteration_cap("scout", "/w", &mut c);
    assert!(c.is_finished);
    assert_eq!(
        c.accumulated_data,
        "## scout report (iteration limit after 2 of 3 turns)\n\nscout did not finalize; partial evidence only.\nWorkspace: /w\nTouched files:\n- /w/a.rs\n- /w/b.rs\n\nTool: x\nObservation:\ny\n"
    );
    let before = c.accumulated_data.clone();
    AgentLoopOrchestrator::apply_iteration_cap("scout", "/w", &mut c);
    assert_eq!(c.accumulated_data, before);
    AgentLoopOrchestrator::prepare_resume(&mut c, 4);
    assert!(!c.is_finished);
    assert_eq!(c.max_iterations, 6);
    assert!(AgentLoopOrchestrator::wants_turn(&c));
    AgentLoopOrchestrator::begin_turn(&mut c);
    assert_eq!(c.iterations, 3);
    AgentLoopOrchestrator::apply_iteration_cap("scout", "/w", &mut c);
    assert_eq!(c.accumulated_data.matches("iteration limit after").count(), 1);
}

struct NoToolClient;

impl LlmClient for NoToolClient {
    fn complete(&self, _request: LlmRequest) -> Result<LlmModelTurn, String> {
        Ok(LlmModelTurn { content: None, tool_calls: vec![], usage: None })
    }
}

/// Tools of one test: every call answers with `output` (or fails with `error`).
struct FixedTools {
    output: Result<&'static str, &'static str>,
    terminal: bool,
}

impl ToolInvoker for FixedTools {
    fn invoke(&self, _name: &str, _arguments: &JsonValue, _raw: &str) -> Result<ToolInvocation, String> {
        match self.output {
            Ok(o) => Ok(ToolInvocation { output: o.to_string(), is_terminal: self.terminal }),
            Err(e) => Err(e.to_string()),
        }
    }
}

fn tool_set(name: &str) -> LlmToolSet {
    LlmToolSet::new().register(ToolDefinition::new(name, name))
}

struct OneCallClient {
    name: &'static str,
    arguments: &'static str,
    parsed: fn() -> JsonValue,
    content: &'static str,
}

impl LlmClient for OneCallClient {
    fn complete(&self, _request: LlmRequest) -> Result<LlmModelTurn, String> {
        Ok(LlmModelTurn {
            content: Some(self.content.to_string()),
            tool_calls: vec![LlmToolCall {
                name: self.name.to_string(),
                arguments: self.arguments.to_string(),
                parsed_arguments: (self.parsed)(),
            }],
            usage: None,
        })
    }
}

fn fresh_context(prompt: &str, data: &str, max_iterations: u32) -> AgentContext {
    AgentContext {
        input_prompt: prompt.to_string(),
        accumulated_data: data.to_string(),
        iterations: 1,
        max_iterations,
        is_finished: false,
        agent_completed: false,
        touched_files: Vec::new(),
        last_tool_call: None,
    }
}

fn ripgrep_args() -> JsonValue {
    JsonValue::Object(vec![("pattern".to_string(), JsonValue::Str("token metrics".to_string()))])
}

fn blueprint_args() -> JsonValue {
    JsonValue::Object(vec![("blueprint".to_string(), JsonValue::Str("{}".to_string()))])
}

#[test]
fn duplicate_tool_call_is_blocked_on_second_identical_invoke() {
    let tools = tool_set("ripgrep");
    let invoker = FixedTools { output: Ok("(no matches)"), terminal: false };
    let client = OneCallClient {
        name: "ripgrep",
        arguments: "{\"pattern\":\"token metrics\"}",
        parsed: ripgrep_args,
        content: "search again",
    };
    let mut context = fresh_context("find metrics", "", 3);

    run_single_tool_turn(&client, &tools, &invoker, "system", &mut context).expect("first call");
    assert!(context.accumulated_data.contains("(no matches)"));

    run_single_tool_turn(&client, &tools, &invoker, "system", &mut context).expect("second call");
    assert!(
        context.accumulated_data.contains("duplicate tool call blocked"),
        "expected duplicate guard message: {}",
        context.accumulated_data
    );
}

#[test]
fn emit_blueprint_rejection_appends_observation_without_finishing() {
    let tools = tool_set("emit_blueprint");
    let invoker = FixedTools {
        output: Err("Blueprint rejected: placeholder patch\nFix the JSON and call emit_blueprint again."),
        terminal: true,
    };
    let client = OneCallClient {
        name: "emit_blueprint",
        arguments: "{\"blueprint\":\"{}\"}",
        parsed: blueprint_args,
        content: "emit plan",
    };
    let mut context = fresh_context("plan feature", "prior scout\n", 12);

    run_single_tool_turn(&client, &tools, &invoker, "system", &mut context)
        .expect("blueprint rejection should not abort the loop");

    assert!(!context.is_finished);
    assert!(!context.agent_completed);
    assert!(context.accumulated_data.starts_with("prior scout\n"));
    assert!(context.accumulated_data.contains("Blueprint rejected"));
    assert!(context.accumulated_data.contains("emit_blueprint"));
}

#[test]
fn empty_tool_response_nudges_instead_of_error() {
    let tools = tool_set("done");
    let invoker = FixedTools { output: Ok("finished"), terminal: true };
    let mut context = fresh_context("research topic", "", 3);

    let result = run_single_tool_turn(&NoToolClient, &tools, &invoker, "system", &mut context)
        .expect("should continue after empty tool response");

    assert!(result.is_none());
    assert!(context.accumulated_data.contains("call exactly one tool"));
}

#[test]
fn terminal_tool_output_becomes_the_result() {
    let tools = tool_set("done");
    let invoker = FixedTools { output: Ok("final report"), terminal: true };
    let client = OneCallClient { name: "done", arguments: "{}", parsed: || JsonValue::Object(Vec::new()), content: "" };
    let mut context = fresh_context("research topic", "history\n", 3);
    let called = run_single_tool_turn(&client, &tools, &invoker, "system", &mut context).unwrap();
    assert_eq!(called.map(|(n, _)| n), Some("done".to_string()));
    assert!(context.is_finished);
    assert!(context.agent_completed);
    assert_eq!(context.accumulated_data, "final report");
    assert_eq!(context.last_tool_call, Some(("done".to_string(), "{}".to_string())));
}

#[test]
fn failing_tool_fails_the_turn() {
    let tools = tool_set("read_file");
    let invoker = FixedTools { output: Err("no such file"), terminal: false };
    let client = OneCallClient { name: "read_file", arguments: "{}", parsed: || JsonValue::Null, content: "look" };
    let mut context = fresh_context("p", "", 3);
    assert_eq!(
        run_single_tool_turn(&client, &tools, &invoker, "system", &mut context).err(),
        Some("no such file".to_string())
    );
}

#[test]
fn read_next_call_outcomes() {
    let mut context = fresh_context("p", "", 3);
    assert_eq!(read_next_call(Err("down".to_string()), &mut context).err(), Some("down".to_string()));
    assert_eq!(context.accumulated_data, "");
    let none = LlmModelTurn { content: Some("hm".to_string()), tool_calls: vec![], usage: None };
    assert!(read_next_call(Ok(none), &mut context).unwrap().is_none());
    assert_eq!(context.accumulated_data, "Thought:\nhm\nObservation:\n(model did not call a tool — call exactly one tool)\n");
    let call = || LlmModelTurn {
        content: None,
        tool_calls: vec![LlmToolCall { name: "x".to_string(), arguments: "{}".to_string(), parsed_arguments: JsonValue::Null }],
        usage: None,
    };
    let got = read_next_call(Ok(call()), &mut context).unwrap().unwrap();
    assert_eq!((got.0.as_str(), got.1.as_str(), got.2.as_str()), ("x", "{}", ""));
    assert!(read_next_call(Ok(call()), &mut context).unwrap().is_none());
    assert!(context.accumulated_data.ends_with("duplicate tool call blocked — change approach or finalize.\n"));
}

#[test]
fn repeat_guard_compares_the_json_value_not_its_layout() {
    let tools = tool_set("ripgrep");
    let invoker = FixedTools { output: Ok("(no matches)"), terminal: false };
    let spaced = OneCallClient {
        name: "ripgrep",
        arguments: "{ \"pattern\": \"token metrics\" }",
        parsed: ripgrep_args,
        content: "search",
    };
    let compact = OneCallClient {
        name: "ripgrep",
        arguments: "{\"pattern\":\"token metrics\"}",
        parsed: ripgrep_args,
        content: "search again",
    };
    let mut context = fresh_context("find metrics", "", 3);
    run_single_tool_turn(&spaced, &tools, &invoker, "system", &mut context).expect("first call");
    assert!(context.accumulated_data.contains("Tool: ripgrep({\"pattern\":\"token metrics\"})"));
    run_single_tool_turn(&compact, &tools, &invoker, "system", &mut context).expect("second call");
    assert!(context.accumulated_data.contains("duplicate tool call blocked"));
}
