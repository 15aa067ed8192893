use adjutant::builder::SourceLanguage;
use adjutant::builder::builder_tool_set;
use adjutant::builder_agent::{
    builder_action, builder_call_step, builder_enrich_context, builder_triage_prompt, builder_turn, record_builder_launch,
    record_builder_scout, record_builder_triage, BuilderAction, BUILDER_SYSTEM_PROMPT,
};
use adjutant::llm::{LlmClient, LlmModelTurn, LlmRequest, LlmToolCall};
use std::cell::RefCell;
use adjutant::json::JsonValue;
use adjutant::llm::AgentContext;

fn context(prompt: &str, data: &str, finished: bool) -> AgentContext {
    AgentContext {
        input_prompt: prompt.to_string(),
        accumulated_data: data.to_string(),
        iterations: 0,
        max_iterations: 4,
        is_finished: finished,
        agent_completed: false,
        touched_files: Vec::new(),
        last_tool_call: None,
    }
}

fn obj(fields: Vec<(&str, JsonValue)>) -> JsonValue {
    JsonValue::Object(fields.into_iter().map(|(k, v)| (k.to_string(), v)).collect())
}

fn s(text: &str) -> JsonValue {
    JsonValue::Str(text.to_string())
}

fn note_of(r: Result<BuilderAction, String>) -> String {
    match r {
        Ok(BuilderAction::Observe { note }) => note,
        _ => panic!("expected an observation"),
    }
}

#[test]
fn builder_refuses_integration_context_for_unit_tests() {
    let args = obj(vec![("components", JsonValue::Array(vec![s("a")]))]);
    let note = note_of(builder_action("gather_integration_context", &args, "Write a `unit` test for x", None, None));
    assert_eq!(
        note,
        "Observation:\nFor unit tests, call write_test_suite directly with path under tests/ and content. Do not use gather_integration_context.\n"
    );
}

#[test]
fn builder_gathers_integration_context_with_scout_query() {
    let args = obj(vec![("components", JsonValue::Array(vec![s("auth::middleware"), s("db::UserRepository")]))]);
    match builder_action("gather_integration_context", &args, "integration test", None, None) {
        Ok(BuilderAction::Scout { query }) => {
            assert!(query.starts_with("PHASE_1_SCOUT\n\n"));
            assert!(query.contains("auth::middleware, db::UserRepository"));
        }
        _ => panic!("expected a scout query"),
    }
    let bad = obj(vec![("components", s("x"))]);
    assert_eq!(
        builder_action("gather_integration_context", &bad, "p", None, None).err(),
        Some("tool argument 'components' must be an array of strings".to_string())
    );
}

#[test]
fn builder_factory_needs_both_arguments() {
    let args = obj(vec![("target_struct", s("User")), ("target_file", s("src/user.rs"))]);
    match builder_action("generate_test_factory", &args, "p", None, None) {
        Ok(BuilderAction::Scout { query }) => {
            assert!(query.starts_with("PHASE_1_SCOUT\n\nPrepare a factory/fixture/builder template for type `User` based on file `src/user.rs`."));
        }
        _ => panic!("expected a scout query"),
    }
    let missing = obj(vec![("target_struct", s("User"))]);
    assert_eq!(
        builder_action("generate_test_factory", &missing, "p", None, None).err(),
        Some("tool argument 'target_file' must be a string".to_string())
    );
}

#[test]
fn builder_writes_tests_with_phase() {
    let args = obj(vec![("path", s("tests/a_test.rs")), ("tdd_phase", s("red")), ("content", s("  fn t() {}  "))]);
    match builder_action("write_test_suite", &args, "p", None, Some(SourceLanguage::Rust)) {
        Ok(BuilderAction::WriteTests { path, tdd_phase, content }) => {
            assert_eq!(path, "tests/a_test.rs");
            assert_eq!(tdd_phase, "red");
            assert_eq!(content, "fn t() {}");
        }
        _ => panic!("expected a write"),
    }
}

#[test]
fn builder_write_errors_and_observations() {
    let bad_phase = obj(vec![("path", s("tests/a.rs")), ("tdd_phase", s("blue"))]);
    assert_eq!(
        builder_action("write_test_suite", &bad_phase, "p", None, None).err(),
        Some("tool argument 'tdd_phase' must be one of: red, green, refactor".to_string())
    );
    let wrong_ext = obj(vec![("path", s("tests/a.py")), ("tdd_phase", s("green")), ("content", s("x"))]);
    assert_eq!(
        note_of(builder_action("write_test_suite", &wrong_ext, "p", None, Some(SourceLanguage::Rust))),
        "Observation:\ntest path `tests/a.py` extension does not match source language `rust`\n"
    );
    let empty = obj(vec![("path", s("tests/a.rs")), ("tdd_phase", s("green")), ("content", s("   "))]);
    assert_eq!(
        note_of(builder_action("write_test_suite", &empty, "p", Some("body"), None)),
        "Observation:\nwrite_test_suite requires non-empty tool argument 'content'\n"
    );
}

#[test]
fn builder_rejects_unknown_tool() {
    let args = obj(vec![]);
    assert_eq!(
        builder_action("delete_everything", &args, "p", None, None).err(),
        Some("unsupported builder tool: delete_everything".to_string())
    );
}

#[test]
fn builder_triage_prompt_per_phase() {
    assert_eq!(
        builder_triage_prompt("tests/a.rs", "red"),
        "Verify tests/a.rs:\nTDD RED PHASE: Code MUST compile cleanly (fix missing imports, type typos). Tests MUST fail assertions. DO NOT touch assertion logic."
    );
    assert_eq!(
        builder_triage_prompt("t.rs", "green"),
        "Verify t.rs:\nTDD GREEN PHASE: Code must compile and all tests MUST pass. If there are errors, fix them."
    );
    let mut ctx = context("p", "d", false);
    record_builder_launch(&mut ctx, "red", "t.rs");
    assert_eq!(ctx.accumulated_data, "d\n[SYSTEM]: Launching Triage (red) for t.rs\n");
}

#[test]
fn builder_records_red_green_and_failure() {
    let red_triage = context("compile succeeded, tests failing assertions", "log", true);
    let mut ctx = context("p", "", false);
    record_builder_triage(&mut ctx, &red_triage, "red", "t.rs");
    assert!(!ctx.is_finished);
    assert!(ctx.accumulated_data.starts_with("\n[TRIAGE RESULT]: log\n\n[RED OK]: tests compile and fail assertions."));

    let green_triage = context("All builds/tests completed successfully.", "ok", true);
    let mut ctx = context("p", "", false);
    record_builder_triage(&mut ctx, &green_triage, "green", "t.rs");
    assert!(ctx.is_finished);
    assert_eq!(ctx.accumulated_data, "\n[TRIAGE RESULT]: ok\n\n[BUILDER GREEN OK]\n");

    let failed = context("still broken", "bad", true);
    let mut ctx = context("p", "", false);
    record_builder_triage(&mut ctx, &failed, "green", "t.rs");
    assert!(!ctx.is_finished);
    assert_eq!(
        ctx.accumulated_data,
        "\n[TRIAGE RESULT]: bad\n\n[TRIAGE FAILURE]: triage did not reach expected TDD outcome\ntest_path: t.rs\n"
    );
}

struct Scripted(RefCell<Vec<LlmModelTurn>>, RefCell<Vec<LlmRequest>>);

impl LlmClient for Scripted {
    fn complete(&self, request: LlmRequest) -> Result<LlmModelTurn, String> {
        self.1.borrow_mut().push(request);
        Ok(self.0.borrow_mut().remove(0))
    }
}

fn turn(content: Option<&str>, calls: Vec<LlmToolCall>) -> LlmModelTurn {
    LlmModelTurn { content: content.map(|c| c.to_string()), tool_calls: calls, usage: None }
}

#[test]
fn builder_turn_nudges_then_fails_after_three_empty_turns() {
    let client = Scripted(RefCell::new(vec![turn(None, vec![]), turn(Some("hm"), vec![]), turn(None, vec![])]), RefCell::new(vec![]));
    let tools = builder_tool_set();
    let mut ctx = context("task", "", false);
    let mut empty = 0u32;
    for _ in 0..3 {
        let calls = builder_turn(&client, &tools, &mut ctx, &mut empty).unwrap();
        assert!(calls.is_empty());
    }
    assert_eq!(empty, 3);
    assert!(ctx.is_finished);
    assert!(ctx.accumulated_data.contains("Thought:\nhm\nObservation:"));
    assert!(ctx.accumulated_data.ends_with("\n[BUILDER FAIL EVIDENCE]\nno tool calls for 3 consecutive turns\nno GREEN\n"));
    let sent = client.1.borrow();
    assert_eq!(sent[0].system_prompt, BUILDER_SYSTEM_PROMPT);
    assert_eq!(sent[0].user_message, "task");
    assert_eq!(sent[0].tools.len(), tools.tools.len());
}

#[test]
fn builder_turn_with_calls_resets_count_and_records_thought() {
    let call = LlmToolCall {
        name: "write_test_suite".to_string(),
        arguments: "{\"path\": \"tests/a.rs\"}".to_string(),
        parsed_arguments: obj(vec![("path", s("tests/a.rs"))]),
    };
    let client = Scripted(RefCell::new(vec![turn(Some("plan"), vec![call])]), RefCell::new(vec![]));
    let tools = builder_tool_set();
    let mut ctx = context("task", "old", false);
    let mut empty = 2u32;
    let calls = builder_turn(&client, &tools, &mut ctx, &mut empty).unwrap();
    assert_eq!(calls.len(), 1);
    assert_eq!(empty, 0);
    assert_eq!(ctx.accumulated_data, "oldThought:\nplan\n");
    assert_eq!(client.1.borrow()[0].user_message, "task\n\n---\nObservation history:\nold");
}

#[test]
fn builder_call_step_notes_call_and_observation() {
    let mut ctx = context("Write a `unit` test", "", false);
    let args = obj(vec![("components", JsonValue::Array(vec![s("a")]))]);
    let r = builder_call_step(&mut ctx, "gather_integration_context", "{\"components\": [\"a\"]}", &args, None, None);
    assert!(matches!(r, Ok(BuilderAction::Observe { .. })));
    assert!(ctx.accumulated_data.starts_with("Tool: gather_integration_context({\"components\":[\"a\"]})\nObservation:\nFor unit tests"));
    let mut ctx = context("p", "", false);
    assert_eq!(
        builder_call_step(&mut ctx, "nope", "{}", &obj(vec![]), None, None).err(),
        Some("unsupported builder tool: nope".to_string())
    );
    assert_eq!(ctx.accumulated_data, "Tool: nope({})\n");
}

#[test]
fn builder_scout_and_enrich_notes() {
    let mut ctx = context("task", "", false);
    builder_enrich_context(&mut ctx);
    assert!(ctx.input_prompt.starts_with("task\n\nYou are an autonomous TDD worker (PHASE_4_BUILDER)"));
    let before = ctx.input_prompt.clone();
    builder_enrich_context(&mut ctx);
    assert_eq!(ctx.input_prompt, before);
    let mut scout = context("q", "found x", false);
    scout.iterations = 8;
    record_builder_scout(&mut ctx, "integration context", &scout);
    assert_eq!(
        ctx.accumulated_data,
        "\n[SYSTEM]: Launching Scout for integration context\nObservation:\nScout report (finished=false, iterations=8):\nfound x\n"
    );
}
