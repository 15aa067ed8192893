use adjutant::json::JsonValue;
use adjutant::migration::{
    explicit_module_from_instruction, infer_source_module, instruction_contains_field_migration,
    ModuleIdStyle,
};
use adjutant::transformer::{
    build_scout_refactor_query, drop_subset_ranges, file_refactor_ranges, regex_escape, expand_brace_range, extract_refactor_instruction,
    filter_targets_by_scope, is_production_src_file, is_skipped_refactor_file,
    is_type_definition_file, line_has_identifier, line_window, parse_line_number,
    parse_target_range, path_under_scope, transformer_tool_set, RefactorTarget, TargetLineRange,
};

const ROOT: &str = "/work/repo";

fn target(path: &str, lines: Vec<usize>) -> RefactorTarget {
    RefactorTarget {
        file_path: path.to_string(),
        lines,
        ranges: Vec::new(),
    }
}

#[test]
fn line_window_clamps_to_file_bounds() {
    assert_eq!(line_window(1, 2, 10), (1, 3));
    assert_eq!(line_window(5, 2, 6), (3, 6));
    assert_eq!(line_window(1, 2, 0), (1, 1));
}

#[test]
fn transformer_tool_set_registers_all_tools() {
    let tools = transformer_tool_set();
    let names: Vec<_> = tools
        .definitions()
        .into_iter()
        .map(|tool| tool.name.clone())
        .collect();

    assert_eq!(
        names,
        vec![
            "gather_refactor_targets".to_string(),
            "apply_structural_codemod".to_string(),
        ]
    );
}

#[test]
fn build_scout_refactor_query_mentions_ast_tools() {
    let query = build_scout_refactor_query("validate");
    assert!(query.contains("PHASE_1_SCOUT"));
    assert!(query.contains("validate"));
    assert!(query.contains("ast_calls"));
    assert!(query.contains("ast_constructions"));
    assert!(query.contains("refactor_targets"));
    assert!(query.contains("ranges"));
}

#[test]
fn path_under_scope_respects_directory_boundary() {
    let scope = format!("{ROOT}/scripts/pkg_a");
    assert!(path_under_scope(&format!("{ROOT}/scripts/pkg_a/foo.py"), &scope));
    assert!(!path_under_scope(&format!("{ROOT}/scripts/pkg_b/foo.py"), &scope));
    assert!(path_under_scope("C:\\w\\pkg_a\\x.py", "C:/w/pkg_a/"));
    assert!(!path_under_scope("/w/pkg_ab/x.py", "/w/pkg_a"));
}

#[test]
fn extract_refactor_instruction_reads_labeled_line() {
    let prompt = "PHASE_3_5_TRANSFORMER\nRefactor instruction: rename headline to subject\n";
    assert_eq!(extract_refactor_instruction(prompt), "rename headline to subject");
    assert_eq!(extract_refactor_instruction("  Instruction:  add x "), "add x");
    assert_eq!(extract_refactor_instruction("no label"), "no label");
}

#[test]
fn is_production_src_file_accepts_known_layouts() {
    assert!(is_production_src_file("src/jobs.rs"));
    assert!(is_production_src_file("frontend/src/modules/foo/Bar.tsx"));
    assert!(is_production_src_file("scripts/demo_pkg/foo.py"));
    assert!(is_production_src_file("scripts/demo_java/src/main/java/demo/Foo.java"));
    assert!(!is_production_src_file("src/tests/foo.rs"));
    assert!(!is_production_src_file("scripts/demo/readme.txt"));
}

#[test]
fn filter_targets_by_scope_keeps_only_scoped_paths() {
    let scope = format!("{ROOT}/scripts/pkg_a");
    let targets = vec![
        target(&format!("{ROOT}/scripts/pkg_a/foo.py"), vec![1]),
        target(&format!("{ROOT}/scripts/pkg_b/foo.py"), vec![2]),
    ];
    let scoped = filter_targets_by_scope(targets, &scope);
    assert_eq!(scoped.len(), 1);
    assert!(scoped[0].file_path.contains("pkg_a"));
}

#[test]
fn expand_brace_range_covers_zig_call_site() {
    let lines: Vec<String> = vec![
        "    sort_log.log_sort_event(sort_log.SortEvent{",
        "        .headline = sort_log.SortHeadline{",
        "            .component = \"bubble\",",
        "        },",
        "    });",
    ]
    .into_iter()
    .map(String::from)
    .collect();
    let range = expand_brace_range(&lines, 0);
    assert_eq!(range.start, 1);
    assert_eq!(range.end, 5);
}

#[test]
fn expand_brace_range_runs_to_end_when_unbalanced() {
    let lines: Vec<String> = vec!["call(x", "{", "y"].into_iter().map(String::from).collect();
    assert_eq!(expand_brace_range(&lines, 0), TargetLineRange { start: 1, end: 3 });
    let lines: Vec<String> = vec!["f();"].into_iter().map(String::from).collect();
    assert_eq!(expand_brace_range(&lines, 0), TargetLineRange { start: 1, end: 1 });
}

#[test]
fn identifiers_and_definitions_are_recognised() {
    assert!(line_has_identifier("let e = LogEvent { a: 1 };", "LogEvent"));
    assert!(!line_has_identifier("let e = LogEvents::new();", "LogEvent"));
    assert!(!line_has_identifier("x_LogEvent()", "LogEvent"));
    assert!(!line_has_identifier("anything", ""));
    assert!(is_type_definition_file("pub struct LogEvent {}", "LogEvent"));
    assert!(is_type_definition_file("fun emit(x: Int)", "emit"));
    assert!(!is_type_definition_file("let x = LogEvent {};", "LogEvent"));
    assert!(is_skipped_refactor_file("/w/node_modules/a.js"));
    assert!(!is_skipped_refactor_file("/w/src/a.rs"));
}

#[test]
fn target_ranges_are_validated() {
    let range = |s: i64, e: i64| {
        JsonValue::Object(vec![
            ("start".to_string(), JsonValue::Int(s)),
            ("end".to_string(), JsonValue::Int(e)),
        ])
    };
    assert_eq!(
        parse_target_range(&range(25, 32)).unwrap(),
        TargetLineRange { start: 25, end: 32 }
    );
    assert_eq!(
        parse_target_range(&range(5, 2)).unwrap_err(),
        "range end 2 must be >= start 5"
    );
    assert_eq!(
        parse_line_number(&JsonValue::Int(0)).unwrap_err(),
        "line numbers must be >= 1"
    );
    assert_eq!(
        parse_line_number(&JsonValue::Str("1".into())).unwrap_err(),
        "lines must contain only integers"
    );
}

#[test]
fn rust_from_src_tree() {
    assert_eq!(
        infer_source_module(ROOT, "src/agent/orchestrator.rs", "add source_module", ModuleIdStyle::RustPath)
            .as_deref(),
        Some("agent::orchestrator")
    );
    assert_eq!(
        infer_source_module(ROOT, "src/mcp/handlers.rs", "add source_module", ModuleIdStyle::RustPath)
            .as_deref(),
        Some("mcp::handlers")
    );
    assert_eq!(
        infer_source_module(ROOT, "src/jobs.rs", "add source_module", ModuleIdStyle::RustPath)
            .as_deref(),
        Some("jobs")
    );
}

#[test]
fn snake_from_src_tree() {
    assert_eq!(
        infer_source_module(ROOT, "src/agent/transformer/foo.py", "add source_module", ModuleIdStyle::Snake)
            .as_deref(),
        Some("agent.transformer.foo")
    );
}

#[test]
fn snake_from_lza_e2e_scripts() {
    assert_eq!(
        infer_source_module(ROOT, "scripts/lza_e2e_py/block_lza.py", "add source_module", ModuleIdStyle::Snake)
            .as_deref(),
        Some("lza_e2e_py.block_lza")
    );
}

#[test]
fn snake_from_absolute_lza_scripts_path() {
    let path = format!("{ROOT}/scripts/lza_e2e_py/block_lza.py");
    assert_eq!(
        infer_source_module(ROOT, &path, "add source_module", ModuleIdStyle::Snake).as_deref(),
        Some("lza_e2e_py.block_lza")
    );
}

#[test]
fn snake_skips_scripts_prefix() {
    assert_eq!(
        infer_source_module(ROOT, "scripts/sort_demo/bubble_sort.py", "add source_module", ModuleIdStyle::Snake)
            .as_deref(),
        Some("sort_demo.bubble_sort")
    );
}

#[test]
fn java_from_maven_tree() {
    assert_eq!(
        infer_source_module(
            ROOT,
            "src/main/java/com/acme/app/Handler.java",
            "add sourceModule",
            ModuleIdStyle::JavaPackage
        )
        .as_deref(),
        Some("com.acme.app.Handler")
    );
}

#[test]
fn ts_from_frontend_src() {
    assert_eq!(
        infer_source_module(
            ROOT,
            "frontend/src/modules/config-ui/ConfigApp.tsx",
            "add sourceModule",
            ModuleIdStyle::TsSlash
        )
        .as_deref(),
        Some("config-ui/ConfigApp")
    );
}

#[test]
fn instruction_arrow_overrides_path() {
    assert_eq!(
        infer_source_module(
            ROOT,
            "src/foo.py",
            "add source_module\nsource_module -> my.module",
            ModuleIdStyle::Snake
        )
        .as_deref(),
        Some("my.module")
    );
}

#[test]
fn explicit_module_needs_dotted_or_slashed_id() {
    assert_eq!(
        explicit_module_from_instruction("module → \"pkg/mod\""),
        Some("pkg/mod".to_string())
    );
    assert_eq!(explicit_module_from_instruction("module -> plain"), None);
    assert_eq!(explicit_module_from_instruction("rename -> a.b"), None);
    assert!(instruction_contains_field_migration("Rename HEADLINE to subject"));
    assert!(!instruction_contains_field_migration("add a parameter"));
}

#[test]
fn snake_outside_src_and_scripts_skips_test_dirs() {
    assert_eq!(
        infer_source_module(ROOT, "tests/unit/helpers.py", "x", ModuleIdStyle::Snake).as_deref(),
        Some("unit.helpers")
    );
    assert_eq!(
        infer_source_module(ROOT, "lib/x.kt", "x", ModuleIdStyle::JavaPackage),
        None
    );
}

fn json_value(v: &serde_json::Value) -> adjutant::json::JsonValue {
    match v {
        serde_json::Value::Null => JsonValue::Null,
        serde_json::Value::Bool(b) => JsonValue::Bool(*b),
        serde_json::Value::Number(n) => match (n.as_i64(), n.as_u64()) {
            (Some(i), _) => JsonValue::Int(i),
            (None, Some(u)) => JsonValue::BigUInt(u),
            _ => JsonValue::OtherNumber,
        },
        serde_json::Value::String(s) => JsonValue::Str(s.clone()),
        serde_json::Value::Array(items) => JsonValue::Array(items.iter().map(json_value).collect()),
        serde_json::Value::Object(map) => JsonValue::Object(
            map.iter()
                .map(|(k, v)| (k.clone(), json_value(v)))
                .collect(),
        ),
    }
}

/// Parses `refactor_targets_json` text the way the transformer tool does.
fn parse_refactor_targets_json(raw: &str) -> Result<Vec<RefactorTarget>, String> {
    let items: Vec<serde_json::Value> = serde_json::from_str(raw)
        .map_err(|err| format!("refactor_targets_json must be a JSON array: {err}"))?;
    let items: Vec<adjutant::json::JsonValue> = items.iter().map(json_value).collect();
    adjutant::transformer::parse_refactor_targets(&items, ROOT)
}

#[test]
fn parse_refactor_targets_json_accepts_valid_payload() {
    let targets = parse_refactor_targets_json(r#"[{"file_path":"src/a.rs","lines":[1,3]}]"#)
        .expect("parse");
    assert_eq!(targets.len(), 1);
    assert!(targets[0].file_path.ends_with("src/a.rs"));
    assert_eq!(targets[0].lines, vec![1, 3]);
}

#[test]
fn parse_refactor_targets_json_accepts_ranges() {
    let targets = parse_refactor_targets_json(
        r#"[{"file_path":"src/a.rs","ranges":[{"start":25,"end":32}]}]"#,
    )
    .expect("parse");
    assert_eq!(targets.len(), 1);
    assert_eq!(targets[0].ranges, vec![TargetLineRange { start: 25, end: 32 }]);
    assert!(targets[0].lines.is_empty());
}

#[test]
fn parse_refactor_targets_json_rejects_invalid_payload() {
    assert!(parse_refactor_targets_json("not json").is_err());
    assert!(parse_refactor_targets_json(r#"[{"lines":[1]}]"#).is_err());
    assert!(parse_refactor_targets_json(r#"[{"file_path":"x.rs","lines":[]}]"#).is_err());
    assert!(parse_refactor_targets_json(
        r#"[{"file_path":"x.rs","ranges":[{"start":5,"end":2}]}]"#
    )
    .is_err());
}

#[test]
fn refactor_target_files_merge_ast_and_call_ranges() {
    let r = |s, e| TargetLineRange { start: s, end: e };
    let out = file_refactor_ranges(&[r(10, 20), r(10, 20)], &[r(11, 22), r(11, 11)], &[15, 30], &None, "LogEvent");
    assert_eq!(out, vec![r(10, 20), r(11, 22), r(30, 30)]);
    assert_eq!(drop_subset_ranges(vec![r(11, 11), r(11, 22), r(5, 5)]), vec![r(11, 22), r(5, 5)]);
    let scan = Some(vec![
        "fn a() {}".to_string(),
        "let e = LogEvent {".to_string(),
        "  x: 1,".to_string(),
        "};".to_string(),
        "log(LogEvent::new());".to_string(),
    ]);
    assert_eq!(file_refactor_ranges(&[], &[], &[], &scan, "LogEvent"), vec![r(2, 4), r(5, 5)]);
    assert_eq!(regex_escape("a.b_c"), "a\\.b_c");
}
