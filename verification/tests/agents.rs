use adjutant::cache::insight_has_file_line_citation;
use adjutant::json::JsonValue;
use adjutant::llm::{AgentContext, LlmToolSet, ToolDefinition};
use adjutant::pruner::{prune_target_len, TextPrunerMock};
use adjutant::scout::{
    dedupe_paths, record_ripgrep_hits, record_scout_touched_file, scout_enrich_context,
    scout_report, scout_tool_set, scout_turn_nudge,
};
use adjutant::triage::{parse_edit_file_arguments, parse_report_error_arguments, triage_tool_set};
use adjutant::web_fetcher::{
    finalize_web_report, search_query, truncate_to_token_budget, web_fetcher_tool_set,
    web_fetcher_turn_nudge,
};

fn to_json(v: &serde_json::Value) -> JsonValue {
    match v {
        serde_json::Value::Null => JsonValue::Null,
        serde_json::Value::Bool(b) => JsonValue::Bool(*b),
        serde_json::Value::Number(n) => match (n.as_i64(), n.as_u64()) {
            (Some(i), _) => JsonValue::Int(i),
            (None, Some(u)) => JsonValue::BigUInt(u),
            _ => JsonValue::OtherNumber,
        },
        serde_json::Value::String(s) => JsonValue::Str(s.clone()),
        serde_json::Value::Array(items) => JsonValue::Array(items.iter().map(to_json).collect()),
        serde_json::Value::Object(map) => JsonValue::Object(
            map.iter()
                .map(|(k, v)| (k.clone(), to_json(v)))
                .collect(),
        ),
    }
}

fn js(text: &str) -> JsonValue {
    to_json(&serde_json::from_str::<serde_json::Value>(text).expect("json"))
}

fn names(tools: &LlmToolSet) -> Vec<String> {
    tools.definitions().iter().map(|d| d.name.clone()).collect()
}

fn context(prompt: &str, data: &str, iterations: u32) -> AgentContext {
    AgentContext {
        input_prompt: prompt.to_string(),
        accumulated_data: data.to_string(),
        iterations,
        max_iterations: 5,
        is_finished: false,
        agent_completed: false,
        touched_files: Vec::new(),
        last_tool_call: None,
    }
}

/// The read-only tools a scout is handed.
fn read_only_tools() -> LlmToolSet {
    LlmToolSet::new()
        .register(ToolDefinition::new("detect_language", "Detects a language."))
        .register(ToolDefinition::new("ripgrep", "Searches text."))
        .register(ToolDefinition::new("ast_calls", "Finds call sites."))
        .register(ToolDefinition::new("read_file", "Reads a file slice."))
}

#[test]
fn citation_accepts_basename_ext_line() {
    assert!(insight_has_file_line_citation("see manager.rs:42"));
    assert!(insight_has_file_line_citation("path/to/cache_flow.rs:28"));
    assert!(insight_has_file_line_citation("foo.ts:1 and bar.tsx:99"));
}

#[test]
fn citation_rejects_prose_without_file_line() {
    assert!(!insight_has_file_line_citation(
        "## Insight\nUse jwt_routes for JWT middleware."
    ));
    assert!(!insight_has_file_line_citation("version 1.2: not a citation"));
    assert!(!insight_has_file_line_citation("no dots or colon digits"));
}

#[test]
fn citation_needs_a_digit_after_the_colon() {
    assert!(!insight_has_file_line_citation("see a.rs:x"));
    assert!(!insight_has_file_line_citation(".rs:1"));
    assert!(insight_has_file_line_citation("x_y.py:7 "));
}

#[test]
fn prune_target_len_shrinks_progressively() {
    assert!(prune_target_len(300, 1) < 300);
    assert!(prune_target_len(300, 3) < prune_target_len(300, 1));
}

#[test]
fn prune_target_len_bottoms_out() {
    assert_eq!(prune_target_len(300, 1), 180);
    assert_eq!(prune_target_len(300, 9), 60);
    assert_eq!(prune_target_len(0, 0), 1);
}

#[test]
fn text_pruner_mock_prunes_until_short() {
    let agent = TextPrunerMock;
    let mut ctx = context(&"p".repeat(200), "", 1);
    agent.enrich_context(&mut ctx);
    assert!(ctx.input_prompt.ends_with("[MUST BE LESS THAN 100 CHARS]"));
    agent.process_and_evaluate(&mut ctx);
    assert_eq!(ctx.accumulated_data.len(), 230 * 60 / 100);
    assert!(!ctx.is_finished);
    let mut short = context("x", &"d".repeat(150), 5);
    agent.process_and_evaluate(&mut short);
    assert_eq!(short.accumulated_data.len(), 30);
    assert!(short.is_finished);
    let mut long = context("x", &"d".repeat(400), 0);
    agent.process_and_evaluate(&mut long);
    assert_eq!(long.accumulated_data.len(), 280);
    assert!(!long.is_finished);
    agent.mutate_next_iteration(&mut long);
    assert!(long.input_prompt.contains("agresywny"));
    assert_eq!(agent.name(), "text_pruner_mock");
}

#[test]
fn web_fetcher_truncate_keeps_short_report_unchanged() {
    let report = "short report";
    assert_eq!(truncate_to_token_budget(report, 8_000), report);
}

#[test]
fn web_fetcher_truncate_cuts_long_report_and_adds_note() {
    let long = "a".repeat(5_000);
    let out = truncate_to_token_budget(&long, 1_000);
    assert!(out.chars().count() < 5_000);
    assert!(out.contains("[truncated"));
}

#[test]
fn web_fetcher_web_fetcher_tool_set_registers_both_tools() {
    assert_eq!(
        names(&web_fetcher_tool_set()),
        vec!["search_web".to_string(), "finalize".to_string()]
    );
}

#[test]
fn mod_truncate_keeps_short_report_unchanged() {
    let report = "short report";
    assert_eq!(truncate_to_token_budget(report, 8_000), report);
}

#[test]
fn mod_truncate_cuts_long_report_and_adds_note() {
    let long = "a".repeat(5_000);
    let out = truncate_to_token_budget(&long, 1_000);
    assert!(out.chars().count() < 5_000);
    assert!(out.contains("[truncated"));
}

#[test]
fn mod_web_fetcher_tool_set_registers_both_tools() {
    assert_eq!(
        names(&web_fetcher_tool_set()),
        vec!["search_web".to_string(), "finalize".to_string()]
    );
}

#[test]
fn web_fetcher_truncation_text_is_exact() {
    assert_eq!(
        truncate_to_token_budget("abcdefghij", 2),
        "abcdefgh\n\n[truncated to fit 2-token budget]"
    );
    assert_eq!(truncate_to_token_budget("ab", 0), "a\n\n[truncated to fit 0-token budget]");
}

#[test]
fn web_fetcher_query_and_finalize() {
    assert_eq!(
        search_query(&js(r#"{"query": "rust 2024", "focus": "official source"}"#)).unwrap(),
        "rust 2024 official source"
    );
    assert_eq!(search_query(&js(r#"{"query": "q", "focus": ""}"#)).unwrap(), "q");
    assert_eq!(
        search_query(&js(r#"{}"#)).unwrap_err(),
        "tool argument 'query' must be a string"
    );
    assert_eq!(
        finalize_web_report(&js(r#"{"report": "abcdef"}"#), 1).unwrap(),
        "abcd\n\n[truncated to fit 1-token budget]"
    );
    assert!(web_fetcher_turn_nudge(4, 5).contains("Final turn"));
    assert!(web_fetcher_turn_nudge(1, 5).contains("Continue research"));
}

#[test]
fn scout_tool_set_registers_all_tools() {
    assert_eq!(
        names(&scout_tool_set(read_only_tools())),
        vec![
            "detect_language".to_string(),
            "ripgrep".to_string(),
            "ast_calls".to_string(),
            "read_file".to_string(),
            "finalize".to_string(),
        ]
    );
}

#[test]
fn scout_records_read_files_and_ripgrep_hits() {
    let mut ctx = context("find x", "", 1);
    record_scout_touched_file(&mut ctx, "read_file", &js(r#"{"file": "src/a.rs"}"#), "/w");
    record_scout_touched_file(
        &mut ctx,
        "detect_language",
        &js(r#"{"scope": "file", "path": "b.py"}"#),
        "/w",
    );
    record_scout_touched_file(
        &mut ctx,
        "detect_language",
        &js(r#"{"scope": "project", "path": "c"}"#),
        "/w",
    );
    record_scout_touched_file(&mut ctx, "ripgrep", &js(r#"{"pattern": "x"}"#), "/w");
    record_ripgrep_hits(&mut ctx, &["src/c.rs".to_string(), "/abs/d.rs".to_string()], "/w");
    assert_eq!(
        ctx.touched_files,
        vec!["/w/src/a.rs", "/w/b.py", "/w/src/c.rs", "/abs/d.rs"]
    );
}

#[test]
fn scout_prompt_additions_and_reports() {
    let mut ctx = context("task", "", 0);
    scout_enrich_context(&mut ctx, "/w");
    assert!(ctx.input_prompt.contains("Workspace root (search ONLY here): /w\n"));
    assert!(ctx.input_prompt.contains("PHASE_1_SCOUT"));
    let once = ctx.input_prompt.clone();
    scout_enrich_context(&mut ctx, "/w");
    assert_eq!(ctx.input_prompt, once);
    assert!(scout_turn_nudge(4, 5).contains("Final turn"));
    assert_eq!(scout_report(true, 3, "r"), "r");
    assert_eq!(
        scout_report(false, 6, "partial"),
        "Scout report (finished=false, iterations=6):\npartial"
    );
}

#[test]
fn dedupe_paths_keeps_first_occurrence() {
    let out = dedupe_paths(vec![
        "/w/a.rs".to_string(),
        "/w/b.rs".to_string(),
        "/w//a.rs".to_string(),
        "/w/b.rs".to_string(),
        "/w/c.rs".to_string(),
    ]);
    assert_eq!(out, vec!["/w/a.rs", "/w/b.rs", "/w/c.rs"]);
}

#[test]
fn triage_tool_set_registers_both_tools() {
    assert_eq!(
        names(&triage_tool_set()),
        vec![
            "edit_file".to_string(),
            "report_architectural_error".to_string(),
        ]
    );
}

#[test]
fn parse_edit_file_arguments_extracts_fields() {
    let (path, line, content) = parse_edit_file_arguments(&js(
        r#"{"path": "src/main.rs", "line": 42, "content": "pub struct NewName;"}"#,
    ))
    .expect("args");
    assert_eq!(path, "src/main.rs");
    assert_eq!(line, 42);
    assert_eq!(content, "pub struct NewName;");
}

#[test]
fn parse_edit_file_arguments_rejects_bad_line() {
    assert_eq!(
        parse_edit_file_arguments(&js(r#"{"path": "a", "line": -1, "content": "x"}"#)).unwrap_err(),
        "tool argument 'line' must be a positive integer"
    );
    assert_eq!(parse_report_error_arguments(&js(r#"{"msg": "m"}"#)).unwrap(), "m");
}
