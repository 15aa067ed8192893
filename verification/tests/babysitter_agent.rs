use adjutant::babysitter::babysitter_tool_set;
use adjutant::babysitter_agent::{
    babysitter_action, babysitter_enrich_context, babysitter_mutate_next_iteration, babysitter_turn,
    child_triage_observation, child_triage_prompt, finalize_babysitter, record_babysitter_step,
    BabysitterAction, BABYSITTER_SYSTEM_PROMPT,
};
use adjutant::json::JsonValue;
use adjutant::llm::{AgentContext, LlmClient, LlmModelTurn, LlmRequest, LlmToolCall};
use adjutant::triage_agent::TRIAGE_SYSTEM_PROMPT;

fn context(prompt: &str, iterations: u32) -> AgentContext {
    AgentContext {
        input_prompt: prompt.to_string(),
        accumulated_data: String::new(),
        iterations,
        max_iterations: 20,
        is_finished: false,
        agent_completed: false,
        touched_files: Vec::new(),
        last_tool_call: None,
    }
}

fn obj(members: Vec<(&str, JsonValue)>) -> JsonValue {
    JsonValue::Object(members.into_iter().map(|(k, v)| (k.to_string(), v)).collect())
}

fn s(v: &str) -> JsonValue {
    JsonValue::Str(v.to_string())
}

#[test]
fn enrich_and_nudges() {
    let mut ctx = context("Watch PR", 1);
    babysitter_enrich_context(&mut ctx, 42);
    assert_eq!(ctx.input_prompt, format!("Watch PR\n\n{BABYSITTER_SYSTEM_PROMPT}\n\nPR number: 42\nMax iterations: 20\n"));
    babysitter_mutate_next_iteration(&mut ctx);
    assert!(ctx.input_prompt.ends_with("\nContinue babysitting. Call exactly one harness tool."));
    let mut last = context("p", 19);
    babysitter_mutate_next_iteration(&mut last);
    assert!(last.input_prompt.ends_with("\nFinal turn: post report if needed, then call finalize_session."));
}

#[test]
fn child_triage_prompt_and_observation() {
    assert_eq!(
        child_triage_prompt("E0425"),
        format!("invoke_child_triage\n\n{TRIAGE_SYSTEM_PROMPT}\n\nError context:\nE0425")
    );
    let mut t = context("still failing", 5);
    t.accumulated_data = "log".to_string();
    assert_eq!(
        child_triage_observation(&t, &[]),
        ("[TRIAGE INCOMPLETE] finished=false iterations=5\nlog".to_string(), false)
    );
    t.input_prompt = "[TRIAGE PASS]".to_string();
    t.is_finished = true;
    let (report, passed) = child_triage_observation(&t, &["src/a.rs".to_string()]);
    assert!(passed);
    assert!(report.starts_with("## Triage: PASS\n\n[TRIAGE PASS]\n\n"));
    assert!(report.contains("- Target files verified: src/a.rs"));
}

#[test]
fn babysitter_actions_per_tool() {
    assert!(matches!(babysitter_action("github_get_pr_state", &JsonValue::Null, false), Ok(BabysitterAction::FetchPrState)));
    match babysitter_action("run_log_analyzer", &obj(vec![("log_path", s("gh-run:7"))]), false) {
        Ok(BabysitterAction::AnalyzeLog { log_path }) => assert_eq!(log_path, "gh-run:7"),
        _ => panic!("expected a log analysis"),
    }
    match babysitter_action(
        "invoke_child_triage",
        &obj(vec![("target_paths", JsonValue::Array(vec![s("src/a.rs")])), ("error_context", s("E1"))]),
        false,
    ) {
        Ok(BabysitterAction::ChildTriage { paths, error_context }) => {
            assert_eq!(paths, vec!["src/a.rs".to_string()]);
            assert_eq!(error_context, "E1");
        }
        _ => panic!("expected a child triage"),
    }
    assert_eq!(
        babysitter_action("git_push_changes", &JsonValue::Null, false).err(),
        Some("refusing git_push_changes: child triage has not passed locally yet".to_string())
    );
    assert!(matches!(babysitter_action("git_push_changes", &JsonValue::Null, true), Ok(BabysitterAction::Push)));
    match babysitter_action("finalize_session", &obj(vec![]), false) {
        Ok(BabysitterAction::Finalize { summary, skipped }) => {
            assert_eq!(summary, "babysitter session complete");
            assert!(skipped.is_empty());
        }
        _ => panic!("expected finalize"),
    }
    assert_eq!(
        babysitter_action("rm_rf", &JsonValue::Null, true).err(),
        Some("unsupported babysitter tool: rm_rf".to_string())
    );
}

#[test]
fn steps_are_recorded() {
    let mut ctx = context("p", 1);
    record_babysitter_step(&mut ctx, "t", "github_get_pr_state", "{}", "state".to_string());
    assert_eq!(ctx.accumulated_data, "Thought:\nt\nTool: github_get_pr_state({})\nObservation:\nstate\n");
    record_babysitter_step(&mut ctx, "t", "finalize_session", "{}", "done".to_string());
    assert_eq!(ctx.accumulated_data, "done");
    finalize_babysitter(&mut ctx);
    assert!(ctx.is_finished && ctx.agent_completed);
}

struct PushTwice;

impl LlmClient for PushTwice {
    fn complete(&self, request: LlmRequest) -> Result<LlmModelTurn, String> {
        assert_eq!(request.system_prompt, BABYSITTER_SYSTEM_PROMPT);
        Ok(LlmModelTurn {
            content: Some("push".to_string()),
            tool_calls: vec![LlmToolCall {
                name: "git_push_changes".to_string(),
                arguments: "{}".to_string(),
                parsed_arguments: JsonValue::Object(Vec::new()),
            }],
            usage: None,
        })
    }
}

#[test]
fn babysitter_turn_hands_back_action_and_blocks_repeats() {
    let tools = babysitter_tool_set();
    let mut ctx = context("p", 1);
    match babysitter_turn(&PushTwice, &tools, &mut ctx, true) {
        Ok(Some((name, args, thought, BabysitterAction::Push))) => {
            assert_eq!((name.as_str(), args.as_str(), thought.as_str()), ("git_push_changes", "{}", "push"));
        }
        _ => panic!("expected a push"),
    }
    assert!(babysitter_turn(&PushTwice, &tools, &mut ctx, true).unwrap().is_none());
    assert!(ctx.accumulated_data.ends_with("duplicate tool call blocked — change approach or finalize.\n"));
}
