use adjutant::blueprint::WorkspaceFiles;
use adjutant::draft::{draft_emit_tools, planner_emit_tool_set, planner_scout_tool_set, wrap_hunk, BlueprintDraft};
use adjutant::hunks::{HUNK_REPLACE_END, HUNK_SEARCH_START, HUNK_SEPARATOR};
use adjutant::json::JsonValue;
use adjutant::llm::{LlmToolSet, ToolDefinition};
use adjutant::planner::CoordinatorConstraints;

fn no_files() -> WorkspaceFiles {
    WorkspaceFiles { files: Vec::new() }
}

#[test]
fn wrap_hunk_inserts_rust_markers() {
    let h = wrap_hunk("a\nb\n", "a\nc\n");
    assert!(h.starts_with(HUNK_SEARCH_START));
    assert!(h.contains(HUNK_SEPARATOR));
    assert!(h.ends_with(HUNK_REPLACE_END));
    assert!(!h.contains("<<<<<<< SEARCH\n<<<<<<<"));
    assert_eq!(h, "<<<<<<< SEARCH\na\nb\n=======\na\nc\n>>>>>>> REPLACE");
}

#[test]
fn begin_rejects_bad_task_id() {
    let mut d = BlueprintDraft::default();
    let err = d.begin("bad".into(), "summary with path".into()).unwrap_err();
    assert!(err.contains("kebab"), "{err}");
}

#[test]
fn add_create_rejects_oversize() {
    let mut d = BlueprintDraft::default();
    d.begin("fix-emit-tools".into(), "cap create at validate.rs:1".into())
        .unwrap();
    let big = (0..20)
        .map(|i| format!("line{i}"))
        .collect::<Vec<_>>()
        .join("\n");
    let err = d
        .add_create(
            "src/new_mod.rs".into(),
            "new mod at src/new_mod.rs:1".into(),
            big,
            false,
        )
        .unwrap_err();
    assert!(err.contains("max"), "{err}");
}

#[test]
fn add_patch_rejects_one_line_search() {
    let mut d = BlueprintDraft::default();
    d.begin("fix-one-line".into(), "f.rs:1".into()).unwrap();
    let err = d
        .add_patch(
            "f.rs".into(),
            "f.rs:1 tweak".into(),
            "fn a() {}".into(),
            "fn a() { 1 }".into(),
            Ok("fn a() {}\nfn b() {}\n".into()),
        )
        .unwrap_err();
    assert!(err.contains("≥2"), "{err}");
}

#[test]
fn finalize_without_begin_fails() {
    let d = BlueprintDraft::default();
    let err = d
        .finalize(&CoordinatorConstraints::none(), &no_files())
        .unwrap_err();
    assert!(err.contains("blueprint_begin"), "{err}");
}

#[test]
fn add_patch_checks_grounding_and_queues_hunk() {
    let body = "fn hello() {\r\n    println!(\"hi\");\r\n}\r\n";
    let mut d = BlueprintDraft::default();
    d.begin("add-bye".into(), "patch hello at lib.rs:1".into())
        .unwrap();
    let err = d
        .add_patch(
            "lib.rs".into(),
            "lib.rs:1 greet".into(),
            "fn hello() {\n    println!(\"yo\");\n}".into(),
            "fn hello() {\n    println!(\"bye\");\n}".into(),
            Ok(body.into()),
        )
        .unwrap_err();
    assert!(err.starts_with("search not found in lib.rs"), "{err}");
    let err = d
        .add_patch(
            "lib.rs".into(),
            "lib.rs:1 greet".into(),
            "a\nb".into(),
            "a\nc".into(),
            Err("No such file or directory (os error 2)".into()),
        )
        .unwrap_err();
    assert_eq!(
        err,
        "cannot read lib.rs to ground search: No such file or directory (os error 2)"
    );
    let ok = d
        .add_patch(
            "lib.rs".into(),
            "lib.rs:1 greet".into(),
            "fn hello() {\n    println!(\"hi\");\n}".into(),
            "fn hello() {\n    println!(\"bye\");\n}".into(),
            Ok(body.into()),
        )
        .unwrap();
    assert_eq!(ok, "queued step 1: patch_file lib.rs (1 steps total)");
    assert_eq!(d.steps.len(), 1);
    assert!(d.steps[0].patch_content.starts_with(HUNK_SEARCH_START));
    let ok = d
        .add_tests("tests/t.rs".into(), "tests/t.rs:1 cover hello".into())
        .unwrap();
    assert_eq!(ok, "queued step 2: generate_tests tests/t.rs (2 steps total)");
}

#[test]
fn finalize_assembles_blueprint_for_validation() {
    let mut d = BlueprintDraft::default();
    d.begin("add-tests".into(), "tests for lib.rs:1".into()).unwrap();
    assert_eq!(
        d.finalize(&CoordinatorConstraints::none(), &no_files())
            .unwrap_err(),
        "pipeline empty — call blueprint_add_patch / add_create / add_tests"
    );
    d.add_create(
        "src/new_mod.rs".into(),
        "new mod at src/new_mod.rs:1".into(),
        "pub fn x() -> u8 { 1 }".into(),
        true,
    )
    .unwrap_err();
    match d.finalize(&CoordinatorConstraints::none(), &no_files()) {
        Err(e) => assert!(e.starts_with("pipeline empty")),
        Ok(_) => panic!("no steps were queued"),
    }
    d.add_tests("tests/t.rs".into(), "tests/t.rs:1 cover lib".into())
        .unwrap();
    match d.finalize(&CoordinatorConstraints::none(), &no_files()) {
        Ok(JsonValue::Object(fields)) => {
            assert_eq!(fields[0].0, "task_id");
            assert_eq!(fields[2].0, "pipeline");
        }
        Ok(_) => panic!("not an object"),
        Err(e) => assert!(e.starts_with("Blueprint rejected: "), "{e}"),
    }
}

#[test]
fn draft_emit_tools_list_read_file_and_draft_tools() {
    let names: Vec<String> = draft_emit_tools(
        CoordinatorConstraints::none(),
        ToolDefinition::new("read_file", "Reads a file."),
    )
    .definitions()
    .iter()
    .map(|d| d.name.clone())
    .collect();
    assert_eq!(
        names,
        vec![
            "read_file",
            "blueprint_begin",
            "blueprint_add_patch",
            "blueprint_add_create",
            "blueprint_add_tests",
            "blueprint_finalize"
        ]
    );
}

fn read_only_tools() -> LlmToolSet {
    LlmToolSet::new()
        .register(ToolDefinition::new("detect_language", "d"))
        .register(ToolDefinition::new("ripgrep", "r"))
        .register(ToolDefinition::new("ast_calls", "a"))
        .register(ToolDefinition::new("read_file", "Reads a file."))
}

fn names_of(tools: &LlmToolSet) -> Vec<String> {
    tools.definitions().iter().map(|t| t.name.clone()).collect()
}

#[test]
fn planner_scout_tool_set_excludes_emit_blueprint() {
    let tools = planner_scout_tool_set(read_only_tools());
    let names = names_of(&tools);
    assert!(!names.contains(&"emit_blueprint".to_string()));
    assert!(names.contains(&"extract_search_anchor".to_string()));
}

#[test]
fn planner_emit_tool_set_includes_emit_and_read_file_only() {
    let tools = planner_emit_tool_set(CoordinatorConstraints::none(), ToolDefinition::new("read_file", "Reads a file."));
    assert_eq!(names_of(&tools), vec!["read_file".to_string(), "emit_blueprint".to_string()]);
}

#[test]
fn hybrid_tool_sets_cover_scout_and_emit() {
    let scout_names = names_of(&planner_scout_tool_set(read_only_tools()));
    let emit_names = names_of(&planner_emit_tool_set(
        CoordinatorConstraints::none(),
        ToolDefinition::new("read_file", "Reads a file."),
    ));
    assert!(!scout_names.contains(&"emit_blueprint".to_string()));
    assert!(scout_names.contains(&"extract_search_anchor".to_string()));
    assert_eq!(emit_names, vec!["read_file".to_string(), "emit_blueprint".to_string()]);
}
