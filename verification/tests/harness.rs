use adjutant::blueprint::WorkspaceFiles;
use adjutant::draft::{draft_tool_invoke, draft_tool_is_terminal, BlueprintDraft, DraftAnswer};
use adjutant::harness::{harness_invoke, harness_is_terminal, HarnessKind, HarnessTools};
use adjutant::json::JsonValue;
use adjutant::llm::ToolInvoker;
use adjutant::planner::CoordinatorConstraints;

fn obj(members: Vec<(&str, JsonValue)>) -> JsonValue {
    JsonValue::Object(members.into_iter().map(|(k, v)| (k.to_string(), v)).collect())
}

fn s(v: &str) -> JsonValue {
    JsonValue::Str(v.to_string())
}

#[test]
fn babysitter_harness_answers() {
    assert!(harness_is_terminal(HarnessKind::Babysitter, "finalize_session"));
    assert!(!harness_is_terminal(HarnessKind::Babysitter, "git_push_changes"));
    let done = harness_invoke(HarnessKind::Babysitter, "finalize_session", &obj(vec![("summary", s("all green"))]), "{}").unwrap();
    assert_eq!(done.output, "all green");
    assert!(done.is_terminal);
    let plain = harness_invoke(HarnessKind::Babysitter, "finalize_session", &obj(vec![]), "{}").unwrap();
    assert_eq!(plain.output, "session finalized");
    assert_eq!(
        harness_invoke(HarnessKind::Babysitter, "git_push_changes", &obj(vec![]), "{}").err(),
        Some("git_push_changes is executed by BabysitterAgent".to_string())
    );
}

#[test]
fn git_janitor_harness_answers() {
    let tools = HarnessTools { kind: HarnessKind::GitJanitor };
    let out = tools.invoke("emit_git_copy", &obj(vec![("pr_title", s("x"))]), "{\"pr_title\":\"x\"}").unwrap();
    assert_eq!(out.output, "{\"pr_title\":\"x\"}");
    assert_eq!(
        tools.invoke("update_git_conventions", &JsonValue::Null, "{}").err(),
        Some("update_git_conventions is executed by GitJanitorAgent".to_string())
    );
}

#[test]
fn transpiler_harness_answers() {
    let k = HarnessKind::Transpiler;
    assert!(harness_is_terminal(k, "finalize_sync") && harness_is_terminal(k, "report_error"));
    assert_eq!(harness_invoke(k, "report_error", &obj(vec![("reason", s("no map"))]), "").unwrap().output, "no map");
    assert_eq!(harness_invoke(k, "finalize_sync", &obj(vec![("summary", s("ok"))]), "").unwrap().output, "ok");
    assert_eq!(harness_invoke(k, "finalize_sync", &obj(vec![]), "").unwrap().output, "session finalized");
    assert_eq!(
        harness_invoke(k, "write_target_file", &obj(vec![]), "").err(),
        Some("write_target_file is executed by TranspilerAgent".to_string())
    );
}

fn no_files() -> WorkspaceFiles {
    WorkspaceFiles { files: Vec::new() }
}

#[test]
fn draft_tools_drive_the_draft() {
    let mut d = BlueprintDraft::default();
    let c = CoordinatorConstraints::none();
    assert!(draft_tool_is_terminal("blueprint_finalize"));
    assert!(!draft_tool_is_terminal("blueprint_begin"));
    match draft_tool_invoke(&mut d, &c, &no_files(), "blueprint_finalize", &obj(vec![]), Err(String::new()), false) {
        Err(e) => assert_eq!(e, "call blueprint_begin first"),
        Ok(_) => panic!("expected an error"),
    }
    match draft_tool_invoke(&mut d, &c, &no_files(), "blueprint_begin", &obj(vec![("task_id", s("add-limit"))]), Err(String::new()), false) {
        Err(e) => assert_eq!(e, "tool argument 'architecture_summary' must be a string"),
        Ok(_) => panic!("expected an error"),
    }
    let args = obj(vec![("task_id", s("add-limit")), ("architecture_summary", s("limit at src/lib.rs:1"))]);
    match draft_tool_invoke(&mut d, &c, &no_files(), "blueprint_begin", &args, Err(String::new()), false) {
        Ok(DraftAnswer::Note(n)) => assert_eq!(n, "draft begun task_id=add-limit"),
        _ => panic!("expected a note"),
    }
    assert!(d.begun);
    let tests = obj(vec![("target_file", s("tests/limit.rs")), ("goal", s("cover src/lib.rs:1"))]);
    match draft_tool_invoke(&mut d, &c, &no_files(), "blueprint_add_tests", &tests, Err(String::new()), false) {
        Ok(DraftAnswer::Note(n)) => assert!(n.contains("generate_tests")),
        _ => panic!("expected a note"),
    }
    assert_eq!(d.steps.len(), 1);
    match draft_tool_invoke(&mut d, &c, &no_files(), "read_file", &obj(vec![]), Err(String::new()), false) {
        Err(e) => assert_eq!(e, "not a draft tool: read_file"),
        Ok(_) => panic!("expected an error"),
    }
}

#[test]
fn git_janitor_answer_is_the_serialized_arguments() {
    let tools = HarnessTools { kind: HarnessKind::GitJanitor };
    let args = obj(vec![("pr_title", s("x")), ("commit_message", s("y"))]);
    let out = tools.invoke("emit_git_copy", &args, "{ \"pr_title\": \"x\",\n  \"commit_message\": \"y\" }").unwrap();
    assert_eq!(out.output, "{\"commit_message\":\"y\",\"pr_title\":\"x\"}");
    assert!(out.is_terminal);
    let bad = tools.invoke("emit_git_copy", &JsonValue::Null, "not json").unwrap();
    assert_eq!(bad.output, "null");
}
