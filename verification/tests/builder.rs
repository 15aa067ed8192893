use adjutant::builder::{
    build_scout_factory_query, build_scout_integration_query, builder_tool_set,
    extract_test_content, parse_components, parse_write_test_suite_arguments,
    record_empty_tool_turn, resolve_test_output_path, source_file_from_builder_prompt,
    strip_code_fences, validate_test_content, validate_test_path_for_source, SourceLanguage,
    MAX_TEST_CONTENT_CHARS,
};
use adjutant::json::JsonValue;

fn obj(fields: Vec<(&str, JsonValue)>) -> JsonValue {
    JsonValue::Object(fields.into_iter().map(|(k, v)| (k.to_string(), v)).collect())
}

fn s(v: &str) -> JsonValue {
    JsonValue::Str(v.to_string())
}

#[test]
fn resolve_test_output_path_joins_relative_paths_to_project_root() {
    let resolved = resolve_test_output_path("/repo/demo", "tests/unit.rs").expect("relative path");
    assert_eq!(resolved, "/repo/demo/tests/unit.rs");
}

#[test]
fn resolve_test_output_path_rejects_absolute_paths() {
    assert!(resolve_test_output_path("/repo/demo", "/tmp/abs_test.rs").is_err());
}

#[test]
fn resolve_test_output_path_rejects_parent_traversal() {
    assert!(resolve_test_output_path("/repo/demo", "../escape.rs").is_err());
}

#[test]
fn resolve_test_output_path_refuses_shared_cache_manager_suite() {
    let err = resolve_test_output_path("/repo/demo/", "tests/cache_manager_tests.rs").unwrap_err();
    assert!(err.contains("refusing to overwrite"));
    assert_eq!(
        resolve_test_output_path("/repo/demo/", "tests/new_test.rs").unwrap(),
        "/repo/demo/tests/new_test.rs"
    );
}

#[test]
fn empty_tool_turn_nudges_without_finishing() {
    let mut counter = 0u32;
    let mut data = String::new();
    assert!(!record_empty_tool_turn(&mut data, "", &mut counter));
    assert!(data.contains("no tool call"));
    assert!(data.contains("write_test_suite"));
    assert!(!data.contains("[BUILDER FAIL EVIDENCE]"));
    assert_eq!(counter, 1);
}

#[test]
fn empty_tool_turn_with_thought_still_nudges() {
    let mut counter = 0u32;
    let mut data = String::new();
    assert!(!record_empty_tool_turn(&mut data, "planning", &mut counter));
    assert!(data.contains("Thought:\nplanning"));
    assert!(data.contains("did not call a tool"));
}

#[test]
fn third_empty_tool_turn_finishes_with_fail_evidence() {
    let mut counter = 0u32;
    let mut data = String::new();
    assert!(!record_empty_tool_turn(&mut data, "", &mut counter));
    assert!(!record_empty_tool_turn(&mut data, "", &mut counter));
    assert!(record_empty_tool_turn(&mut data, "", &mut counter));
    assert!(data.contains("[BUILDER FAIL EVIDENCE]"));
    assert!(data.contains("no GREEN"));
    assert_eq!(counter, 3);
}

#[test]
fn builder_tool_set_registers_all_tools() {
    let tools = builder_tool_set();
    let names: Vec<_> = tools
        .definitions()
        .into_iter()
        .map(|tool| tool.name.clone())
        .collect();

    assert_eq!(
        names,
        vec![
            "gather_integration_context".to_string(),
            "generate_test_factory".to_string(),
            "write_test_suite".to_string(),
        ]
    );
}

#[test]
fn build_scout_integration_query_lists_components() {
    let query = build_scout_integration_query(&[
        "auth::middleware".to_string(),
        "db::UserRepository".to_string(),
    ]);
    assert!(query.contains("PHASE_1_SCOUT"));
    assert!(query.contains("cache_manager_tests.rs"));
    assert!(query.contains("auth::middleware"));
    assert!(query.contains("db::UserRepository"));
    assert!(query.contains("finalize"));
}

#[test]
fn build_scout_factory_query_is_language_agnostic() {
    let query = build_scout_factory_query("User", "src/models/User.java");
    assert!(query.contains("PHASE_1_SCOUT"));
    assert!(query.contains("User"));
    assert!(query.contains("src/models/User.java"));
    assert!(query.contains("detect_language"));
    assert!(query.contains("finalize"));
    assert!(!query.contains("pub struct"));
}

#[test]
fn validate_test_content_rejects_thought_prefixed() {
    let err = validate_test_content(
        "Thought: rationale\nimport { describe } from 'vitest'\ndescribe('x', () => {})",
        "foo.test.ts",
    )
    .expect_err("thought");
    assert!(err.contains("source code only"), "{err}");
}

#[test]
fn validate_test_content_rejects_markdown_prose() {
    let err = validate_test_content(
        "## PHASE_4_BUILDER Report\nimport { describe } from 'vitest'",
        "foo.test.ts",
    )
    .expect_err("prose");
    assert!(err.contains("source code only"), "{err}");
}

#[test]
fn validate_test_content_accepts_python_hash_comment() {
    validate_test_content(
        "# helpers for the module under test\nimport pytest\n\ndef test_x():\n    assert True\n",
        "tests/test_x.py",
    )
    .expect("ok");
}

#[test]
fn validate_test_content_rejects_oversized() {
    let huge = format!("import x from 'y'\n{}", "a".repeat(MAX_TEST_CONTENT_CHARS));
    let err = validate_test_content(&huge, "foo.test.ts").expect_err("size");
    assert!(err.contains("max"), "{err}");
}

#[test]
fn validate_test_content_accepts_vitest() {
    validate_test_content(
        "import { describe, it } from 'vitest'\ndescribe('x', () => { it('y', () => {}) })",
        "foo.test.ts",
    )
    .expect("ok");
}

#[test]
fn validate_test_content_reports_exact_errors() {
    assert_eq!(
        validate_test_content("   \n ", "a.rs").unwrap_err(),
        "write_test_suite content is empty"
    );
    assert_eq!(
        validate_test_content("let x = 1;", "a.rs").unwrap_err(),
        "write_test_suite content for `a.rs` does not look like rs source (missing imports/tests)"
    );
    let huge = "é".repeat(12_001);
    assert_eq!(
        validate_test_content(&huge, "a.rs").unwrap_err(),
        "write_test_suite content is 24002 chars (max 24000); shrink the file"
    );
    assert!(validate_test_content("anything goes", "notes.txt").is_ok());
}

#[test]
fn extract_test_content_prefers_tool_argument_over_thought() {
    let content = extract_test_content(
        Some("Thought: I will write the suite now."),
        &obj(vec![("content", s("#[test]\nfn t() {}"))]),
    )
    .expect("content");
    assert_eq!(content, "#[test]\nfn t() {}");
}

#[test]
fn extract_test_content_rejects_assistant_message_fallback() {
    let err = extract_test_content(Some("```rust\n#[test]\nfn t() {}\n```"), &obj(vec![]))
        .expect_err("require content arg");
    assert!(err.contains("content"), "{err}");
}

#[test]
fn extract_test_content_unescapes_json_single_quotes() {
    let content = extract_test_content(
        None,
        &obj(vec![("content", s("std::env::set_var(\\'FOO\\', \"bar\");"))]),
    )
    .expect("content");
    assert_eq!(content, "std::env::set_var(\"FOO\", \"bar\");");
}

#[test]
fn extract_test_content_falls_back_to_tool_argument() {
    let content =
        extract_test_content(None, &obj(vec![("content", s("#[test] fn t() {}"))])).expect("content");
    assert_eq!(content, "#[test] fn t() {}");
}

#[test]
fn extract_test_content_strips_code_fences() {
    let args = obj(vec![("content", s("```rust\nfn t() {}\n```"))]);
    assert_eq!(extract_test_content(None, &args).unwrap(), "fn t() {}");
    assert_eq!(strip_code_fences("  #[test] fn t() {}  "), "#[test] fn t() {}");
}

#[test]
fn parse_components_requires_string_array() {
    let ok = obj(vec![(
        "components",
        JsonValue::Array(vec![s("auth::middleware"), s("db::Repo")]),
    )]);
    assert_eq!(
        parse_components(&ok).unwrap(),
        vec!["auth::middleware".to_string(), "db::Repo".to_string()]
    );
    let mixed = obj(vec![("components", JsonValue::Array(vec![s("a"), JsonValue::Int(3)]))]);
    assert_eq!(
        parse_components(&mixed).unwrap_err(),
        "tool argument 'components' must contain only strings"
    );
    assert_eq!(
        parse_components(&obj(vec![])).unwrap_err(),
        "tool argument 'components' must be an array of strings"
    );
}

#[test]
fn parse_write_test_suite_arguments_extracts_fields() {
    let (path, phase) = parse_write_test_suite_arguments(&obj(vec![
        ("path", s("tests/example.rs")),
        ("tdd_phase", s("red")),
    ]))
    .expect("args");

    assert_eq!(path, "tests/example.rs");
    assert_eq!(phase, "red");
}

#[test]
fn parse_write_test_suite_arguments_rejects_unknown_tdd_phase() {
    let err = parse_write_test_suite_arguments(&obj(vec![
        ("path", s("tests/example.rs")),
        ("tdd_phase", s("blue")),
    ]))
    .expect_err("invalid phase");

    assert!(err.contains("tdd_phase"));
}

#[test]
fn validate_test_path_rejects_rust_for_tsx_source() {
    let err = validate_test_path_for_source("tests/foo_integration_test.rs", SourceLanguage::Tsx)
        .expect_err("cross-language");
    assert!(err.contains("tsx") || err.contains("extension"));
}

#[test]
fn test_path_extension_must_match_source_language() {
    assert!(validate_test_path_for_source("tests/foo_integration_test.rs", SourceLanguage::Rust).is_ok());
    let err = validate_test_path_for_source("tests/foo_integration_test.rs", SourceLanguage::Tsx)
        .unwrap_err();
    assert!(err.contains("tsx") || err.contains("extension"));
    assert!(validate_test_path_for_source("x.whatever", SourceLanguage::Unknown).is_ok());
}

#[test]
fn source_file_is_read_from_task_prompt() {
    assert_eq!(
        source_file_from_builder_prompt("Generate a `unit` test for file:  src/lib.rs \nmore"),
        Some("src/lib.rs".to_string())
    );
    assert_eq!(source_file_from_builder_prompt("no file here"), None);
    assert_eq!(source_file_from_builder_prompt("for file:   "), None);
}

#[test]
fn ts_parts_use_co_located_test_path() {
    let parts = adjutant::builder::builder_task_parts(
        SourceLanguage::Tsx,
        "unit",
        "frontend/src/modules/config-ui/AgentPhaseCard.tsx",
        &None,
    );
    assert!(parts.workflow.contains("AgentPhaseCard.test.tsx"));
    assert!(parts.workflow.contains("do NOT write Rust"));
    assert!(parts.exemplar.contains("vitest"));
    assert!(parts
        .workflow
        .contains("`frontend/src/modules/config-ui/AgentPhaseCard.test.tsx`"));
}

#[test]
fn rust_parts_name_integration_test_and_excerpt_golden_file() {
    let golden: String = (1..=50).map(|i| format!("line {i}\n")).collect();
    let parts = adjutant::builder::builder_task_parts(
        SourceLanguage::Rust,
        "integration",
        "src/cache/manager.rs",
        &Some(golden),
    );
    assert!(parts.workflow.starts_with(
        "Generate a `integration` test for file: src/cache/manager.rs\n\nSource language: rust\n"
    ));
    assert!(parts.workflow.contains("`tests/manager_integration_test.rs`"));
    assert!(parts.workflow.ends_with("`cargo test --test manager_integration_test`."));
    assert!(parts.exemplar.contains("line 7\n"));
    assert!(parts.exemplar.contains("line 47\n```"));
    assert!(!parts.exemplar.contains("line 6\n"));
    assert!(!parts.exemplar.contains("line 48"));
}

#[test]
fn python_and_generic_parts() {
    let py = adjutant::builder::builder_task_parts(SourceLanguage::Python, "unit", "app/db.py", &None);
    assert!(py.workflow.contains("`tests/test_db.py`"));
    assert!(py.exemplar.is_empty());
    let go = adjutant::builder::builder_task_parts(SourceLanguage::Unknown, "unit", "main.go", &None);
    assert!(go.workflow.contains("Source language: unknown\nDetect idiomatic test layout"));
    let ts = adjutant::builder::builder_task_parts(SourceLanguage::TypeScript, "unit", "util.js", &Some("X".into()));
    assert!(ts.workflow.contains("`/util.test.tsx`"));
    assert_eq!(ts.exemplar, "Golden vitest pattern (copy structure):\n```tsx\nX\n```");
}

#[test]
fn builder_task_workflow_reads_back_its_file() {
    for language in [SourceLanguage::Rust, SourceLanguage::Python, SourceLanguage::Tsx, SourceLanguage::Unknown] {
        let parts = adjutant::builder::builder_task_parts(language, "integration", " src/cache/mod.rs ", &None);
        assert_eq!(source_file_from_builder_prompt(&parts.workflow), Some("src/cache/mod.rs".to_string()));
    }
}
