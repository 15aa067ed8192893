use adjutant::json::JsonValue;
use adjutant::transformer::RefactorTarget;
use adjutant::transformer_agent::{
    codemod_targets, record_codemod_outcome, record_skipped_file, scope_gathered_targets, transformer_action,
    TransformerAction,
};
use adjutant::llm::{AgentContext, LlmClient, LlmModelTurn, LlmRequest, LlmToolCall};
use adjutant::transformer::transformer_tool_set;
use adjutant::transformer_agent::{transformer_call_step, transformer_turn, TRANSFORMER_SYSTEM_PROMPT as TSP};
use std::cell::RefCell;
use adjutant::transformer_agent::{
    codemod_content, codemod_line_message, codemod_range_message, codemod_reply, no_targets_under_scope,
    nothing_applied_error, record_refactor_triage, record_transformer_call, record_transformer_reply,
    refactor_triage_prompt, scoped_gather_note, transformer_enrich_context,
    transformer_mutate_next_iteration, transformer_user_message, triage_success,
    TRANSFORMER_CODEMOD_SYSTEM_PROMPT, TRANSFORMER_SYSTEM_PROMPT,
};

fn context(prompt: &str, data: &str) -> AgentContext {
    AgentContext {
        input_prompt: prompt.to_string(),
        accumulated_data: data.to_string(),
        iterations: 2,
        max_iterations: 4,
        is_finished: false,
        agent_completed: false,
        touched_files: Vec::new(),
        last_tool_call: None,
    }
}

#[test]
fn enrich_adds_system_prompt_once() {
    let mut ctx = context("Rename X", "");
    transformer_enrich_context(&mut ctx);
    assert_eq!(ctx.input_prompt, format!("Rename X\n\n{TRANSFORMER_SYSTEM_PROMPT}"));
    let before = ctx.input_prompt.clone();
    transformer_enrich_context(&mut ctx);
    assert_eq!(ctx.input_prompt, before);
    transformer_mutate_next_iteration(&mut ctx);
    assert!(ctx.input_prompt.ends_with("\nContinue refactor based on the latest observation."));
}

#[test]
fn user_message_appends_history() {
    assert_eq!(transformer_user_message(&context("P", "")), "P");
    assert_eq!(
        transformer_user_message(&context("P", "obs")),
        "P\n\n---\nObservation history:\nobs"
    );
}

#[test]
fn user_message_keeps_last_bytes_of_long_history() {
    let data = format!("{}{}", "a".repeat(100), "b".repeat(24_000));
    let m = transformer_user_message(&context("P", &data));
    assert_eq!(
        m,
        format!("P\n\n---\nObservation history:\n(observation history truncated)\n{}", "b".repeat(24_000))
    );
}

#[test]
fn triage_success_needs_finish_and_marker() {
    let mut t = context("All builds/tests completed successfully.", "");
    assert!(!triage_success(&t));
    t.is_finished = true;
    assert!(triage_success(&t));
}

#[test]
fn codemod_messages() {
    assert_eq!(
        codemod_line_message("/r/a.rs", 7, "rename", "ctx"),
        "File: /r/a.rs\nTarget line: 7\nTransformation rule: rename\n\nContext:\nctx\n\nReturn ONLY the new content for line 7."
    );
    let m = codemod_range_message("/r/a.rs", 3, 5, "add source_module field", "ctx");
    assert!(m.starts_with("File: /r/a.rs\nTarget lines: 3-5\nTransformation rule: add source_module field"));
    assert!(m.ends_with("Return ONLY the replacement content for lines 3 through 5 (may be multiple lines)."));
    let plain = codemod_range_message("/r/a.rs", 3, 5, "rename", "ctx");
    assert_eq!(
        plain,
        "File: /r/a.rs\nTarget lines: 3-5\nTransformation rule: rename\n- Preserve indentation of the first line of the replaced range.\n\nContext:\nctx\n\nReturn ONLY the replacement content for lines 3 through 5 (may be multiple lines)."
    );
}

#[test]
fn codemod_reply_trims_and_takes_first_line() {
    assert_eq!(codemod_reply(Some("  a\nb  ".to_string()), true), Ok("a".to_string()));
    assert_eq!(codemod_reply(Some("  a\nb  ".to_string()), false), Ok("a\nb".to_string()));
    let empty = Err("codemod model returned empty content".to_string());
    assert_eq!(codemod_reply(Some(" \n ".to_string()), false), empty);
    assert_eq!(codemod_reply(None, true), empty);
}

struct Echo;

impl LlmClient for Echo {
    fn complete(&self, request: LlmRequest) -> Result<LlmModelTurn, String> {
        assert_eq!(request.system_prompt, TRANSFORMER_CODEMOD_SYSTEM_PROMPT);
        assert!(request.tools.is_empty());
        Ok(LlmModelTurn { content: Some(format!(" {}\nsecond ", request.user_message)), tool_calls: Vec::new(), usage: None })
    }
}

#[test]
fn codemod_content_asks_the_codemod_model() {
    assert_eq!(codemod_content(&Echo, "new line", true), Ok("new line".to_string()));
    assert_eq!(codemod_content(&Echo, "block", false), Ok("block\nsecond".to_string()));
}

#[test]
fn refactor_triage_records() {
    assert_eq!(refactor_triage_prompt("rule"), "Verify compilation after global refactor:\nrule");
    let mut ok = context("All builds/tests completed successfully.", "built");
    ok.is_finished = true;
    let mut ctx = context("p", "");
    record_refactor_triage(&mut ctx, &ok, "✓ a.rs\n");
    assert!(ctx.is_finished);
    assert_eq!(ctx.accumulated_data, "\n[TRIAGE RESULT]: built\n✓ a.rs\n\n[TRANSFORMER OK]\n");

    let mut ctx = context("p", "");
    record_refactor_triage(&mut ctx, &ok, "✗ a.rs missing\n");
    assert!(!ctx.is_finished);
    assert!(ctx.accumulated_data.ends_with("[TRANSFORMER INCOMPLETE]: verification checks failed for one or more touched files\n"));

    let failed = context("broken", "E0308");
    let mut ctx = context("p", "");
    record_refactor_triage(&mut ctx, &failed, "ignored");
    assert_eq!(
        ctx.accumulated_data,
        "\n[TRIAGE RESULT]: E0308\n\n[TRIAGE FAILURE]: Refactoring broke compilation in a way that requires Architect intervention: E0308\n"
    );
}

#[test]
fn nothing_applied_errors() {
    assert_eq!(nothing_applied_error(&[]), "no refactor targets were applied");
    assert_eq!(
        nothing_applied_error(&["a.rs line 1: x".to_string(), "b.rs line 2: y".to_string()]),
        "all codemod attempts failed: a.rs line 1: x; b.rs line 2: y"
    );
}

#[test]
fn reply_notes() {
    let mut ctx = context("p", "");
    assert_eq!(record_transformer_reply(&mut ctx, &None, false), Err("model response missing tool call".to_string()));
    assert_eq!(record_transformer_reply(&mut ctx, &Some("hm".to_string()), false), Ok(()));
    assert_eq!(ctx.accumulated_data, "Thought:\nhm\n(model did not call a tool — continue)\n");
    let mut ctx = context("p", "");
    assert_eq!(record_transformer_reply(&mut ctx, &Some("go".to_string()), true), Ok(()));
    record_transformer_call(&mut ctx, "gather_refactor_targets", "{}");
    assert_eq!(ctx.accumulated_data, "Thought:\ngo\nTool: gather_refactor_targets({})\n");
}

#[test]
fn scope_notes() {
    assert_eq!(scoped_gather_note("src/a", 2, 5), "\n[SYSTEM]: Scoped gather to src/a (2/5 targets)\n");
    assert_eq!(no_targets_under_scope("src/a"), "no refactor targets under scope src/a");
}

fn jobj(fields: Vec<(&str, JsonValue)>) -> JsonValue {
    JsonValue::Object(fields.into_iter().map(|(k, v)| (k.to_string(), v)).collect())
}

fn jstr(text: &str) -> JsonValue {
    JsonValue::Str(text.to_string())
}

#[test]
fn transformer_action_reads_each_tool() {
    let gather = jobj(vec![("method_name", jstr("LogEvent"))]);
    match transformer_action("gather_refactor_targets", &gather) {
        Ok(TransformerAction::Gather { method_name }) => assert_eq!(method_name, "LogEvent"),
        _ => panic!("expected a gather"),
    }
    let apply = jobj(vec![("transformation_rule", jstr("add ctx")), ("refactor_targets_json", jstr("[]"))]);
    match transformer_action("apply_structural_codemod", &apply) {
        Ok(TransformerAction::ApplyCodemod { rule, targets_json }) => {
            assert_eq!(rule, "add ctx");
            assert_eq!(targets_json, "[]");
        }
        _ => panic!("expected a codemod"),
    }
    let no_json = jobj(vec![("transformation_rule", jstr("add ctx"))]);
    assert_eq!(
        transformer_action("apply_structural_codemod", &no_json).err(),
        Some("tool argument 'refactor_targets_json' must be a string".to_string())
    );
    assert_eq!(
        transformer_action("gather_refactor_targets", &jobj(vec![])).err(),
        Some("tool argument 'method_name' must be a string".to_string())
    );
    assert_eq!(
        transformer_action("rewrite_all", &jobj(vec![])).err(),
        Some("unsupported transformer tool: rewrite_all".to_string())
    );
}

#[test]
fn codemod_targets_refuses_bad_or_empty_lists() {
    assert_eq!(
        codemod_targets(Err("expected value".to_string()), "/w").err(),
        Some("refactor_targets_json must be a JSON array: expected value".to_string())
    );
    assert_eq!(
        codemod_targets(Ok(Vec::new()), "/w").err(),
        Some("refactor_targets_json must contain at least one target".to_string())
    );
    let item = jobj(vec![
        ("file_path", jstr("src/a.rs")),
        ("lines", JsonValue::Array(vec![JsonValue::Int(3)])),
    ]);
    let targets = codemod_targets(Ok(vec![item]), "/w").expect("targets");
    assert_eq!(targets.len(), 1);
    assert_eq!(targets[0].file_path, "/w/src/a.rs");
    assert_eq!(targets[0].lines, vec![3]);
}

#[test]
fn scope_gathered_targets_keeps_scope_and_notes_counts() {
    let t = |p: &str| RefactorTarget { file_path: p.to_string(), lines: vec![1], ranges: Vec::new() };
    let (kept, note) = scope_gathered_targets(vec![t("scripts/pkg_a/x.py"), t("scripts/pkg_b/y.py")], "scripts/pkg_a")
        .expect("scoped");
    assert_eq!(kept.len(), 1);
    assert_eq!(kept[0].file_path, "scripts/pkg_a/x.py");
    assert_eq!(note, "\n[SYSTEM]: Scoped gather to scripts/pkg_a (1/2 targets)\n");
    assert_eq!(
        scope_gathered_targets(vec![t("src/a.rs")], "scripts").err(),
        Some("no refactor targets under scope scripts".to_string())
    );
}

#[test]
fn codemod_outcomes_are_recorded_once_per_file() {
    let mut ctx = context("P", "");
    let mut touched: Vec<String> = Vec::new();
    let mut errors: Vec<String> = Vec::new();
    record_codemod_outcome(&mut ctx, &mut touched, &mut errors, "src/a.rs", 3, 5, false, &Ok(()));
    record_codemod_outcome(&mut ctx, &mut touched, &mut errors, "src/a.rs", 9, 9, true, &Ok(()));
    assert_eq!(touched, vec!["src/a.rs".to_string()]);
    assert_eq!(ctx.touched_files, vec!["src/a.rs".to_string()]);
    record_codemod_outcome(&mut ctx, &mut touched, &mut errors, "src/b.rs", 4, 7, false, &Err("boom".to_string()));
    record_codemod_outcome(&mut ctx, &mut touched, &mut errors, "src/b.rs", 8, 8, true, &Err("bad".to_string()));
    assert_eq!(errors, vec!["src/b.rs lines 4-7: boom".to_string(), "src/b.rs line 8: bad".to_string()]);
    assert_eq!(ctx.accumulated_data, "Codemod error: boom\nCodemod error: bad\n");
    record_skipped_file(&mut ctx, "src/gone.rs");
    assert!(ctx.accumulated_data.ends_with("Skipped missing file: src/gone.rs\n"));
}

struct OneReply(RefCell<Vec<LlmModelTurn>>, RefCell<Vec<LlmRequest>>);

impl LlmClient for OneReply {
    fn complete(&self, request: LlmRequest) -> Result<LlmModelTurn, String> {
        self.1.borrow_mut().push(request);
        Ok(self.0.borrow_mut().remove(0))
    }
}

#[test]
fn transformer_turn_reads_reply_and_calls() {
    let call = LlmToolCall {
        name: "gather_refactor_targets".to_string(),
        arguments: "{ \"method_name\": \"LogEvent\" }".to_string(),
        parsed_arguments: jobj(vec![("method_name", jstr("LogEvent"))]),
    };
    let client = OneReply(
        RefCell::new(vec![
            LlmModelTurn { content: Some("scan".to_string()), tool_calls: vec![call], usage: None },
            LlmModelTurn { content: None, tool_calls: vec![], usage: None },
        ]),
        RefCell::new(vec![]),
    );
    let tools = transformer_tool_set();
    let mut ctx = context("P", "");
    let calls = transformer_turn(&client, &tools, &mut ctx).unwrap();
    assert_eq!(calls.len(), 1);
    assert_eq!(ctx.accumulated_data, "Thought:\nscan\n");
    assert_eq!(client.1.borrow()[0].system_prompt, TSP);
    let c = &calls[0];
    match transformer_call_step(&mut ctx, &c.name, &c.arguments, &c.parsed_arguments) {
        Ok(TransformerAction::Gather { method_name }) => assert_eq!(method_name, "LogEvent"),
        _ => panic!("expected a gather"),
    }
    assert!(ctx.accumulated_data.ends_with("Tool: gather_refactor_targets({\"method_name\":\"LogEvent\"})\n"));
    assert_eq!(transformer_turn(&client, &tools, &mut ctx).err(), Some("model response missing tool call".to_string()));
}
