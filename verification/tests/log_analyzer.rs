use adjutant::llm::{LlmClient, LlmModelTurn, LlmRequest};
use adjutant::log_analyzer::{
    analysis_reply, analysis_request, analysis_user_message, apply_enrich_payload,
    llm_payload_to_core, reply_content, strip_json_payload, CrashAnalysisCore, LlmAnalysisPayload,
    LlmEnrichPayload, LogAnalyzerAgent, ReportEnrichment, ANALYZER_MISSING_CONTENT,
    LOG_ANALYZER_SYSTEM_PROMPT,
};

fn empty_enrichment() -> ReportEnrichment {
    ReportEnrichment {
        summary: Some("kept".to_string()),
        diagnosis: None,
        reproduction: None,
        next_steps: None,
        llm_fallback_error: None,
    }
}

fn parsed_core() -> CrashAnalysisCore {
    CrashAnalysisCore {
        error_type: "Panic".to_string(),
        error_message: "boom".to_string(),
        target_file: Some("src/lib.rs".to_string()),
        line_number: Some(3),
        column_number: None,
        isolated_stack_trace: "trace".to_string(),
        failing_test: None,
        command: Some("cargo test".to_string()),
        exit_code: None,
    }
}

fn strs(items: &[&str]) -> Vec<String> {
    items.iter().map(|s| s.to_string()).collect()
}

#[test]
fn parse_llm_response_strips_fences() {
    let body = strip_json_payload(
        "```json\n{\"error_type\":\"Panic\",\"error_message\":\"boom\",\"target_file\":null,\"line_number\":null,\"column_number\":null,\"isolated_stack_trace\":\"x\",\"summary\":\"Panic — boom\"}\n```",
    );
    let payload: serde_json::Value = serde_json::from_str(&body).expect("parse");
    assert_eq!(payload["error_type"], "Panic");
    assert_eq!(payload["summary"].as_str(), Some("Panic — boom"));
}

#[test]
fn parse_enrich_response_accepts_lean_fields() {
    let body = strip_json_payload(
        r#"{"summary":"Panic at tests/foo.rs:1","diagnosis":"assertion failed","reproduction":["cargo test foo -- --nocapture"],"next_steps":["Inspect tests/foo.rs:1"]}"#,
    );
    let payload: serde_json::Value = serde_json::from_str(&body).expect("parse");
    assert_eq!(payload["summary"].as_str(), Some("Panic at tests/foo.rs:1"));
    assert_eq!(payload["reproduction"].as_array().map(|v| v.len()), Some(1));
}

#[test]
fn strip_json_payload_takes_object_span_from_prose() {
    assert_eq!(strip_json_payload("  Result: {\"a\":1} done "), "{\"a\":1}");
    assert_eq!(strip_json_payload("no json here"), "no json here");
}

#[test]
fn llm_payload_to_core_moves_coordinates_and_filters_enrichment() {
    let payload = LlmAnalysisPayload {
        error_type: "CompileError".to_string(),
        error_message: "E0433".to_string(),
        target_file: Some("src/main.rs".to_string()),
        line_number: Some(12),
        column_number: Some(5),
        isolated_stack_trace: "stack".to_string(),
        summary: Some("summary".to_string()),
        failing_test: None,
        command: Some("cargo build".to_string()),
        exit_code: Some(101),
        diagnosis: Some("   ".to_string()),
        reproduction: Some(Vec::new()),
        next_steps: Some(strs(&["a", "b", "c", "d", "e", "f"])),
    };
    let mut enrichment = empty_enrichment();
    let (core, summary) = llm_payload_to_core(payload, &mut enrichment);
    assert_eq!(core.error_type, "CompileError");
    assert_eq!(core.target_file.as_deref(), Some("src/main.rs"));
    assert_eq!(core.line_number, Some(12));
    assert_eq!(core.column_number, Some(5));
    assert_eq!(core.exit_code, Some(101));
    assert_eq!(summary.as_deref(), Some("summary"));
    assert_eq!(enrichment.diagnosis, None);
    assert_eq!(enrichment.reproduction, None);
    assert_eq!(enrichment.next_steps, Some(strs(&["a", "b", "c", "d"])));
    assert_eq!(enrichment.summary.as_deref(), Some("kept"));
}

#[test]
fn apply_enrich_payload_fills_only_missing_fields() {
    let mut c = parsed_core();
    let mut enrichment = empty_enrichment();
    let payload = LlmEnrichPayload {
        summary: Some("Panic at src/lib.rs:3".to_string()),
        diagnosis: Some("index out of bounds".to_string()),
        reproduction: Some(strs(&["cargo test it"])),
        next_steps: Some(Vec::new()),
        failing_test: Some("tests::it".to_string()),
        command: Some("cargo nextest".to_string()),
        exit_code: Some(1),
    };
    apply_enrich_payload(&mut c, &mut enrichment, payload);
    assert_eq!(enrichment.summary.as_deref(), Some("Panic at src/lib.rs:3"));
    assert_eq!(enrichment.diagnosis.as_deref(), Some("index out of bounds"));
    assert_eq!(enrichment.reproduction, Some(strs(&["cargo test it"])));
    assert_eq!(enrichment.next_steps, None);
    assert_eq!(c.failing_test.as_deref(), Some("tests::it"));
    assert_eq!(c.command.as_deref(), Some("cargo test"));
    assert_eq!(c.exit_code, Some(1));
    assert_eq!(c.error_type, "Panic");
    assert_eq!(c.line_number, Some(3));
}

#[test]
fn apply_enrich_payload_drops_blank_summary() {
    let mut c = parsed_core();
    let mut enrichment = empty_enrichment();
    let payload = LlmEnrichPayload {
        summary: Some(" \n".to_string()),
        diagnosis: None,
        reproduction: None,
        next_steps: None,
        failing_test: Some("  ".to_string()),
        command: None,
        exit_code: None,
    };
    apply_enrich_payload(&mut c, &mut enrichment, payload);
    assert_eq!(enrichment.summary, None);
    assert_eq!(c.failing_test, None);
    assert_eq!(c.exit_code, None);
}

#[test]
fn analysis_user_message_appends_nonblank_exemplar() {
    assert_eq!(analysis_user_message("line 1", None), "LOG DUMP:\nline 1");
    assert_eq!(analysis_user_message("line 1", Some("  ")), "LOG DUMP:\nline 1");
    assert_eq!(
        analysis_user_message("x", Some("{}")),
        "LOG DUMP:\nx\n\n## 10/10 output exemplar (match this JSON shape)\n{}"
    );
}

#[test]
fn reply_content_rejects_blank_reply() {
    assert_eq!(reply_content(Some("hi".to_string()), "missing"), Ok("hi".to_string()));
    assert_eq!(reply_content(Some(" ".to_string()), "missing"), Err("missing".to_string()));
    assert_eq!(reply_content(None, "missing"), Err("missing".to_string()));
}

#[test]
fn analysis_request_uses_system_prompt_and_no_tools() {
    let r = analysis_request("dump", None);
    assert_eq!(r.system_prompt, LOG_ANALYZER_SYSTEM_PROMPT);
    assert_eq!(r.user_message, "LOG DUMP:\ndump");
    assert!(r.tools.is_empty());
}

fn turn(content: Option<&str>) -> LlmModelTurn {
    LlmModelTurn {
        content: content.map(|s| s.to_string()),
        tool_calls: Vec::new(),
        usage: None,
    }
}

#[test]
fn analysis_reply_reads_each_outcome() {
    assert_eq!(analysis_reply(Err("down".to_string())), Err("down".to_string()));
    assert_eq!(analysis_reply(Ok(turn(None))), Err(ANALYZER_MISSING_CONTENT.to_string()));
    assert_eq!(
        analysis_reply(Ok(turn(Some("```json\n{\"a\":1}\n```")))),
        Ok("{\"a\":1}".to_string())
    );
}

struct Canned(&'static str);

impl LlmClient for Canned {
    fn complete(&self, request: LlmRequest) -> Result<LlmModelTurn, String> {
        assert!(request.user_message.starts_with("LOG DUMP:\n"));
        Ok(turn(Some(self.0)))
    }
}

#[test]
fn log_analyzer_agent_returns_json_body() {
    let agent = LogAnalyzerAgent::new(Canned("Here: {\"error_type\":\"Panic\"}"));
    assert_eq!(agent.analyze("panic", None), Ok("{\"error_type\":\"Panic\"}".to_string()));
}
