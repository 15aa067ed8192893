use adjutant::blueprint::WorkspaceFiles;
use adjutant::json::JsonValue;
use adjutant::llm::{AgentContext, LlmToolSet, ToolDefinition};
use adjutant::planner::{
    condense_scout_evidence, format_emit_prompt, format_scout_prompt, parse_plan_blueprint_args,
    planner_json_fixup_reason, reject_incomplete_blueprint, CoordinatorConstraints,
    PlanBlueprintArgs, PlanKind, PlannerHybridAgent, PLANNER_EMIT_MAX_ITERATIONS,
    PLANNER_EMIT_SYSTEM_PROMPT, PLANNER_SCOUT_MAX_ITERATIONS, PLANNER_SCOUT_SYSTEM_PROMPT,
};

fn to_json(v: &serde_json::Value) -> JsonValue {
    match v {
        serde_json::Value::Null => JsonValue::Null,
        serde_json::Value::Bool(b) => JsonValue::Bool(*b),
        serde_json::Value::Number(n) => match (n.as_i64(), n.as_u64()) {
            (Some(i), _) => JsonValue::Int(i),
            (None, Some(u)) => JsonValue::BigUInt(u),
            _ => JsonValue::OtherNumber,
        },
        serde_json::Value::String(s) => JsonValue::Str(s.clone()),
        serde_json::Value::Array(items) => JsonValue::Array(items.iter().map(to_json).collect()),
        serde_json::Value::Object(map) => JsonValue::Object(
            map.iter()
                .map(|(k, v)| (k.clone(), to_json(v)))
                .collect(),
        ),
    }
}

fn js(text: &str) -> JsonValue {
    to_json(&serde_json::from_str::<serde_json::Value>(text).expect("json"))
}

fn parsed_object(text: &str) -> Option<JsonValue> {
    adjutant::blueprint::extract_json_object(text)
        .and_then(|raw| serde_json::from_str::<serde_json::Value>(&raw).ok())
        .map(|v| to_json(&v))
}

fn fixup(text: &str) -> Option<String> {
    planner_json_fixup_reason(
        text,
        &parsed_object(text),
        &CoordinatorConstraints::none(),
        &WorkspaceFiles { files: Vec::new() },
    )
}

fn context(accumulated: &str, max: u32) -> AgentContext {
    AgentContext {
        input_prompt: String::new(),
        accumulated_data: accumulated.to_string(),
        iterations: 1,
        max_iterations: max,
        is_finished: true,
        agent_completed: true,
        touched_files: Vec::new(),
        last_tool_call: None,
    }
}

#[test]
fn planner_json_fixup_reason_flags_missing_draft() {
    let reason = fixup("Thought:\njust prose\n").expect("reason");
    assert!(reason.contains("blueprint_begin"), "{reason}");
}

#[test]
fn planner_json_fixup_reason_flags_invalid_json() {
    let reason = fixup(r#"{"task_id":"my-task","architecture_summary":"ok"}"#).expect("reason");
    assert!(
        reason.contains("pipeline") || reason.contains("blueprint_begin"),
        "{reason}"
    );
}

#[test]
fn planner_json_fixup_reason_flags_incomplete_draft() {
    let hist = "Observation:\ndraft begun task_id=fix-x\nqueued step 1: patch_file\n";
    let reason = fixup(hist).expect("reason");
    assert!(reason.contains("blueprint_finalize"), "{reason}");
}

#[test]
fn reject_incomplete_blueprint_clears_completion() {
    let mut ctx = context("{}", PLANNER_EMIT_MAX_ITERATIONS);
    reject_incomplete_blueprint(&mut ctx, "not grounded");
    assert!(!ctx.agent_completed);
    assert!(!ctx.is_finished);
    assert!(ctx.input_prompt.contains("not grounded"));
}

#[test]
fn condense_scout_evidence_passes_short_input_unchanged() {
    let short = "scout observations";
    assert_eq!(condense_scout_evidence(short), short);
}

#[test]
fn condense_scout_evidence_truncates_on_char_boundary() {
    let mut s = "x".repeat(11_997);
    s.push('🦀');
    s.push_str(&"y".repeat(12_000));
    let out = condense_scout_evidence(&s);
    assert!(std::str::from_utf8(out.as_bytes()).is_ok());
    assert!(out.contains("truncated"));
}

#[test]
fn format_scout_prompt_includes_kind_and_expectation() {
    let args = PlanBlueprintArgs {
        feature_request: "add rate limit".to_string(),
        plan_kind: Some(PlanKind::Feature),
        expectation: Some("surgical patches only".to_string()),
    };
    let prompt = format_scout_prompt(&args);
    assert!(prompt.contains("scout phase"));
    assert!(prompt.contains("Coordinator plan kind"));
    assert!(prompt.contains("feature —"));
    assert!(prompt.contains("Coordinator expectations"));
    assert!(prompt.contains("extract_search_anchor"));
    assert!(!prompt.contains("emit_blueprint"));
}

#[test]
fn format_emit_prompt_includes_few_shot_and_scout_evidence() {
    let args = PlanBlueprintArgs {
        feature_request: "add rate limit".to_string(),
        plan_kind: Some(PlanKind::Feature),
        expectation: Some("surgical".to_string()),
    };
    let mut scout = context("Tool: read_file\nObservation:\nline 1\n", PLANNER_SCOUT_MAX_ITERATIONS);
    scout.iterations = 3;
    scout.agent_completed = false;
    scout.touched_files = vec!["/work/repo/src/lib.rs".to_string()];
    let prompt = format_emit_prompt(&args, &scout);
    assert!(prompt.contains("emit phase"));
    assert!(prompt.contains("Example feature pipeline shape"));
    assert!(prompt.contains("Scout evidence"));
    assert!(prompt.contains("blueprint_finalize"));
    assert!(prompt.contains("blueprint_add_patch"));
    assert!(!prompt.contains("emit_blueprint"));
}

#[test]
fn emit_system_prompt_documents_emit_tools() {
    for tool in [
        "read_file",
        "blueprint_begin",
        "blueprint_add_patch",
        "blueprint_add_create",
        "blueprint_add_tests",
        "blueprint_finalize",
    ] {
        assert!(
            PLANNER_EMIT_SYSTEM_PROMPT.contains(tool),
            "emit prompt missing {tool}"
        );
    }
    assert!(!PLANNER_EMIT_SYSTEM_PROMPT.contains("emit_blueprint"));
}

#[test]
fn scout_system_prompt_documents_scout_tools() {
    for tool in [
        "detect_language",
        "ripgrep",
        "ast_calls",
        "read_file",
        "extract_search_anchor",
    ] {
        assert!(
            PLANNER_SCOUT_SYSTEM_PROMPT.contains(tool),
            "scout prompt missing {tool}"
        );
    }
    assert!(!PLANNER_SCOUT_SYSTEM_PROMPT.contains("emit_blueprint"));
}

#[test]
fn none_is_default() {
    assert!(CoordinatorConstraints::none().is_default());
}

#[test]
fn surgical_from_expectation_keyword() {
    let args = parse_plan_blueprint_args(&js(
        r#"{"feature_request": "x", "expectation": "Surgical patches only"}"#,
    ))
    .expect("parse");
    assert!(CoordinatorConstraints::from_args(&args).surgical_patches);
}

#[test]
fn bugfix_implies_surgical() {
    let args = parse_plan_blueprint_args(&js(r#"{"feature_request": "fix", "plan_kind": "bugfix"}"#))
        .expect("parse");
    assert!(CoordinatorConstraints::from_args(&args).surgical_patches);
}

#[test]
fn negated_surgical_expectation_is_not_surgical() {
    let args = parse_plan_blueprint_args(&js(
        r#"{"feature_request": "x", "expectation": "Not surgical — use create_file for new modules"}"#,
    ))
    .expect("parse");
    assert!(!CoordinatorConstraints::from_args(&args).surgical_patches);
}

#[test]
fn parse_requires_feature_request() {
    let err = parse_plan_blueprint_args(&js("{}")).err().expect("error");
    assert!(err.contains("feature_request"));
}

#[test]
fn parse_accepts_minimal_args() {
    let args = parse_plan_blueprint_args(&js(r#"{"feature_request": "add cache"}"#)).expect("parse");
    assert_eq!(args.feature_request, "add cache");
    assert!(args.plan_kind.is_none());
    assert!(args.expectation.is_none());
}

#[test]
fn parse_plan_kind_case_insensitive() {
    let args = parse_plan_blueprint_args(&js(
        r#"{"feature_request": "sync dto", "plan_kind": "Sync_Types"}"#,
    ))
    .expect("parse");
    assert_eq!(args.plan_kind, Some(PlanKind::SyncTypes));
}

#[test]
fn parse_rejects_unknown_plan_kind() {
    let err = parse_plan_blueprint_args(&js(r#"{"feature_request": "x", "plan_kind": "hotfix"}"#))
        .err()
        .expect("error");
    assert!(err.contains("plan_kind"));
}

#[test]
fn parse_omits_empty_expectation() {
    let args = parse_plan_blueprint_args(&js(r#"{"feature_request": "x", "expectation": "   "}"#))
        .expect("parse");
    assert!(args.expectation.is_none());
}

#[test]
fn parse_full_args() {
    let args = parse_plan_blueprint_args(&js(
        r#"{"feature_request": "rate limit", "plan_kind": "feature", "expectation": "surgical patches only"}"#,
    ))
    .expect("parse");
    assert_eq!(args.plan_kind, Some(PlanKind::Feature));
    assert_eq!(args.expectation.as_deref(), Some("surgical patches only"));
}

#[test]
fn planner_agent_phases_pick_prompt_tools_and_nudges() {
    let scout = PlannerHybridAgent::scout((), LlmToolSet::new());
    assert_eq!(scout.name(), "planner_scout_agent");
    assert_eq!(scout.system_prompt(), PLANNER_SCOUT_SYSTEM_PROMPT);
    let mut ctx = context("", 3);
    scout.mutate_next_iteration(&mut ctx);
    assert!(ctx.input_prompt.starts_with("\nContinue scouting."));
    ctx.iterations = 2;
    scout.mutate_next_iteration(&mut ctx);
    assert!(ctx.input_prompt.ends_with("then scouting ends."));
    let emit = PlannerHybridAgent::emit(
        (),
        CoordinatorConstraints::none(),
        ToolDefinition::new("read_file", "Reads a file."),
    );
    assert_eq!(emit.name(), "planner_emit_agent");
    assert_eq!(emit.tools.definitions().len(), 6);
}

#[test]
fn planner_json_fixup_reason_accepts_finalized_valid_json() {
    let finalized = r#"{
  "task_id": "add-rate-limit",
  "architecture_summary": "Add a per-client request limit module and declare it.",
  "pipeline": [
    {
      "step": 1,
      "agent": "BuilderAgent",
      "action": "create_file",
      "target_file": "src/rate_limit.rs",
      "goal": "New limiter module; lib.rs:1 declares no rate_limit yet.",
      "patch_content": "pub fn max_requests_per_minute() -> u32 {\n    60\n}\n"
    },
    {
      "step": 2,
      "agent": "BuilderAgent",
      "action": "patch_file",
      "target_file": "src/lib.rs",
      "goal": "Declare rate_limit at lib.rs:1.",
      "patch_content": "<<<<<<< SEARCH\npub mod agent;\n=======\npub mod agent;\npub mod rate_limit;\n>>>>>>> REPLACE\n"
    },
    {
      "step": 3,
      "agent": "BuilderAgent",
      "action": "generate_tests",
      "target_file": "tests/rate_limit_test.rs",
      "goal": "Assert the limit at src/rate_limit.rs:1.",
      "patch_content": ""
    }
  ]
}"#;
    let files = WorkspaceFiles {
        files: vec![("src/lib.rs".to_string(), "pub mod agent;\npub mod cache;\n".to_string())],
    };
    assert!(planner_json_fixup_reason(
        finalized,
        &parsed_object(finalized),
        &CoordinatorConstraints::none(),
        &files,
    )
    .is_none());
}
