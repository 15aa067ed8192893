use adjutant::json::JsonValue;
use adjutant::transpiler::{
    embed_source_section, finalize_sync_summary, parse_report_reason, parse_transpile_types_args,
    parse_write_arguments, transpiler_context_suffix, transpiler_tool_set, transpiler_turn_nudge,
    truncate_utf8_prefix, write_target_refusal, TRANSPILER_MAX_ITERATIONS,
};

fn to_json(v: &serde_json::Value) -> JsonValue {
    match v {
        serde_json::Value::Null => JsonValue::Null,
        serde_json::Value::Bool(b) => JsonValue::Bool(*b),
        serde_json::Value::Number(n) => match (n.as_i64(), n.as_u64()) {
            (Some(i), _) => JsonValue::Int(i),
            (None, Some(u)) => JsonValue::BigUInt(u),
            _ => JsonValue::OtherNumber,
        },
        serde_json::Value::String(s) => JsonValue::Str(s.clone()),
        serde_json::Value::Array(items) => JsonValue::Array(items.iter().map(to_json).collect()),
        serde_json::Value::Object(map) => JsonValue::Object(
            map.iter()
                .map(|(k, v)| (k.clone(), to_json(v)))
                .collect(),
        ),
    }
}

fn js(text: &str) -> JsonValue {
    to_json(&serde_json::from_str::<serde_json::Value>(text).expect("json"))
}

#[test]
fn truncate_utf8_prefix_respects_byte_limit() {
    let s = "é".repeat(100);
    assert!(truncate_utf8_prefix(&s, 50).len() <= 50);
}

#[test]
fn truncate_utf8_prefix_keeps_longest_fitting_prefix() {
    assert_eq!(truncate_utf8_prefix("aé", 2), "a");
    assert_eq!(truncate_utf8_prefix("aé", 3), "aé");
    assert_eq!(truncate_utf8_prefix("short", 50), "short");
}

#[test]
fn parse_transpile_types_args_requires_sources() {
    assert!(parse_transpile_types_args(&js(
        r#"{"target_path": "out.ts", "architecture_layout": "sync"}"#
    ))
    .is_err());
}

#[test]
fn parse_transpile_types_args_rejects_non_string_source() {
    let err = parse_transpile_types_args(&js(
        r#"{"source_paths": ["ok.rs", 1], "target_path": "out.ts", "architecture_layout": "sync"}"#,
    ))
    .unwrap_err();
    assert!(err.contains("source_paths[1]"));
}

#[test]
fn parse_transpile_types_args_reads_all_fields() {
    let a = parse_transpile_types_args(&js(
        r#"{"source_paths": ["src/domain.rs"], "target_path": "web/types.ts",
            "architecture_layout": "camelCase", "preserve_paths": ["web/keep.ts"],
            "verify_workspace": "web", "verify_command": "  npx tsc -b  "}"#,
    ))
    .unwrap();
    assert_eq!(a.source_paths, vec!["src/domain.rs".to_string()]);
    assert_eq!(a.target_path, "web/types.ts");
    assert_eq!(a.architecture_layout, "camelCase");
    assert_eq!(a.preserve_paths, vec!["web/keep.ts".to_string()]);
    assert_eq!(a.verify_workspace.as_deref(), Some("web"));
    assert_eq!(a.verify_command.as_deref(), Some("npx tsc -b"));

    let blank = parse_transpile_types_args(&js(
        r#"{"source_paths": ["a.rs"], "target_path": "t.ts", "architecture_layout": "x", "verify_command": "  "}"#,
    ))
    .unwrap();
    assert!(blank.verify_command.is_none());
    assert!(blank.preserve_paths.is_empty());
}

#[test]
fn parse_transpile_types_args_reports_each_missing_field() {
    assert_eq!(
        parse_transpile_types_args(&js(r#"{"source_paths": []}"#)).unwrap_err(),
        "source_paths must not be empty"
    );
    assert_eq!(
        parse_transpile_types_args(&js(r#"{"source_paths": ["a"]}"#)).unwrap_err(),
        "target_path is required"
    );
    assert_eq!(
        parse_transpile_types_args(&js(r#"{"source_paths": ["a"], "target_path": "t"}"#))
            .unwrap_err(),
        "architecture_layout is required"
    );
    assert_eq!(
        parse_transpile_types_args(&js(
            r#"{"source_paths": ["a"], "target_path": "t", "architecture_layout": "x", "preserve_paths": "p"}"#
        ))
        .unwrap_err(),
        "preserve_paths must be an array"
    );
}

#[test]
fn transpiler_tool_set_registers_harness_tools() {
    let names: Vec<String> = transpiler_tool_set()
        .definitions()
        .iter()
        .map(|d| d.name.clone())
        .collect();
    assert_eq!(
        names,
        vec!["write_target_file", "invoke_child_triage", "finalize_sync", "report_error"]
    );
    assert_eq!(TRANSPILER_MAX_ITERATIONS, 15);
}

#[test]
fn write_and_report_arguments_are_required_strings() {
    let (p, c) = parse_write_arguments(&js(r#"{"path": "a.ts", "content": "x"}"#)).unwrap();
    assert_eq!((p.as_str(), c.as_str()), ("a.ts", "x"));
    assert_eq!(
        parse_write_arguments(&js(r#"{"path": "a.ts"}"#)).unwrap_err(),
        "tool argument 'content' must be a string"
    );
    assert_eq!(parse_report_reason(&js(r#"{"reason": "no"}"#)).unwrap(), "no");
    assert_eq!(finalize_sync_summary(&js(r#"{}"#)), "type sync complete");
    assert_eq!(finalize_sync_summary(&js(r#"{"summary": "ok"}"#)), "ok");
}

#[test]
fn write_gate_allows_only_the_target() {
    let preserve = vec!["/w/web/keep.ts".to_string()];
    assert!(write_target_refusal("/w/web/types.ts", "/w/web/types.ts", &preserve).is_none());
    assert_eq!(
        write_target_refusal("/w/web/other.ts", "/w/web/types.ts", &preserve).unwrap(),
        "refusing write_target_file: /w/web/other.ts is not target_path /w/web/types.ts"
    );
    assert_eq!(
        write_target_refusal("/w/web/keep.ts", "/w/web//keep.ts", &preserve).unwrap(),
        "refusing write_target_file: /w/web/keep.ts is in preserve_paths"
    );
}

#[test]
fn context_suffix_and_nudges() {
    let s = transpiler_context_suffix(
        "/w/t.ts",
        &["/w/a.ts".to_string(), "/w/b.ts".to_string()],
        "/w",
        &Some("npm test".to_string()),
    );
    assert_eq!(s, "\n\nTarget: /w/t.ts\nPreserve: /w/a.ts, /w/b.ts\nVerify: cd /w && npm test\n");
    let s = transpiler_context_suffix("/w/t.ts", &[], "/w", &None);
    assert_eq!(s, "\n\nTarget: /w/t.ts\nPreserve: \nVerify: (triage auto-discover)\n");
    assert!(transpiler_turn_nudge(14, 15).contains("Final turn"));
    assert!(transpiler_turn_nudge(3, 15).contains("Continue sync"));
}

#[test]
fn embed_source_section_truncates_large_files() {
    let embedded = embed_source_section("src/big.rs", "rust", &"x".repeat(200), 50);
    assert!(embedded.contains("[truncated]"));
    assert!(embedded.contains("rust"));
    assert_eq!(
        embed_source_section("a.rs", "rust", "fn a() {}", 50),
        "### `a.rs` (rust)\n\n```rust\nfn a() {}\n```\n\n"
    );
}
