use adjutant::literal_codemods::{
    try_cpp_call_codemod, try_java_call_codemod, try_jvm_type_codemod,
    try_rust_struct_literal_codemod, try_ts_object_literal_codemod,
};

const ROOT: &str = "/work/repo";

#[test]
fn renames_designated_initializers() {
    let snippet = "    log_sort_event(SortEvent{\n        .headline = SortHeadline{\n            .component = \"bubble\",\n            .message = \"sorted\",\n        },\n        .meta = SortMeta{\n            .tags = \"demo\",\n            .correlation_id = std::nullopt,\n        },\n    });";
    let out = try_cpp_call_codemod(
        snippet,
        "rename headline to subject, message to summary, remove tags, add source_module",
        ROOT,
        "scripts/demo_cpp/src/widget.cpp",
    )
    .expect("codemod");

    assert!(out.contains(".subject ="));
    assert!(out.contains(".summary ="));
    assert!(!out.contains(".headline ="));
    assert!(!out.contains(".tags ="));
    assert!(out.contains(".source_module = \"demo_cpp.widget\""));
}

#[test]
fn renames_c_compound_literal_inline_fields() {
    let snippet = "    log_event(&(Event){\n        .headline = { .component = \"block\", .message = \"done\" },\n        .meta = { .tags = \"demo_c\", .correlation_id = NULL },\n    });";
    let out = try_cpp_call_codemod(
        snippet,
        "rename headline to subject, message to summary, remove tags, add source_module",
        ROOT,
        "scripts/demo_c/src/widget.c",
    )
    .expect("codemod");

    assert!(out.contains(".subject ="));
    assert!(out.contains(".summary ="));
    assert!(!out.contains(".headline ="));
    assert!(!out.contains(".message ="));
    assert!(!out.contains(".tags ="));
    assert!(out.contains(".source_module = \"demo_c.widget\""));
}

#[test]
fn cpp_inline_tags_are_cut_with_their_comma() {
    let out = try_cpp_call_codemod(
        "        .meta = { .tags = \"demo_c\", .correlation_id = NULL },",
        "remove tags, add source_module",
        ROOT,
        "scripts/demo_c/src/widget.c",
    )
    .expect("codemod");
    let expected = format!(
        " .meta = {{ {}.source_module = \"demo_c.widget\", .correlation_id = NULL }},",
        " ".repeat(12)
    );
    assert_eq!(out, expected);
}

#[test]
fn renames_sort_event_builder_fields() {
    let snippet = "        logSortEvent(\n            SortEvent.builder()\n                .headline(\n                    SortHeadline.builder()\n                        .component(\"bubble\")\n                        .message(\"sorted\")\n                        .build())\n                .meta(\n                    SortMeta.builder()\n                        .tags(\"demo\")\n                        .correlationId(null)\n                        .build())\n                .build());";
    let out = try_java_call_codemod(
        snippet,
        "rename headline to subject, message to summary, remove tags, add sourceModule",
        ROOT,
        "scripts/lza_e2e_java/src/main/java/lzademo/BlockLza.java",
    )
    .expect("codemod");

    assert!(out.contains(".subject("));
    assert!(out.contains(".summary("));
    assert!(!out.contains(".headline("));
    assert!(!out.contains(".message("));
    assert!(!out.contains(".tags("));
    assert!(out.contains(".sourceModule(\"lzademo.BlockLza\")"));
}

const AST_LOG: &str = r#"package astdemo;

public final class AstLog {
    public static final class AstEvent {
        public static final class Builder {
            public Builder headline(AstHeadline headline) { return this; }
            public Builder subject(AstHeadline headline) { return this; }
        }
    }
    public static final class AstHeadline {
        public static final class Builder {
            public Builder message(String message) { return this; }
            public Builder summary(String message) { return this; }
        }
    }
    public static final class AstMeta {
        public static final class Builder {
            public Builder tags(String tags) { return this; }
            public Builder sourceModule(String tags) { return this; }
        }
    }
}
"#;

#[test]
fn drops_legacy_builder_aliases_when_new_names_exist() {
    let out = try_jvm_type_codemod(
        AST_LOG,
        "rename headline to subject, message to summary, remove tags, add sourceModule",
    )
    .expect("codemod");

    assert!(!out.contains("headline("));
    assert!(!out.contains("message("));
    assert!(!out.contains("tags("));
    assert!(out.contains("subject("));
    assert!(out.contains("summary("));
    assert!(out.contains("sourceModule("));
}

#[test]
fn jvm_renames_legacy_methods_when_new_names_are_missing() {
    let out = try_jvm_type_codemod(
        "class B {\n    fun headline(h: String) = this\n}",
        "rename headline to subject",
    )
    .expect("codemod");
    assert_eq!(out, "class B {\n    fun subject(h: String) = this\n}");
    assert!(try_jvm_type_codemod("class B {}", "rename headline").is_none());
}

#[test]
fn renames_log_event_literal_fields() {
    let snippet = "            &LogEvent {\n                headline: LogHeadline {\n                    component: \"jobs\".into(),\n                    message: format!(\"queued\"),\n                },\n                meta: LogMeta {\n                    tags: vec![\"async\".into()],\n                    correlation_id: Some(id),\n                },\n            },";
    let out = try_rust_struct_literal_codemod(
        snippet,
        "headline->subject, message->summary, remove tags, add source_module",
        ROOT,
        "src/jobs.rs",
    )
    .expect("codemod");

    assert!(out.contains("subject:"));
    assert!(out.contains("summary:"));
    assert!(!out.contains("headline:"));
    assert!(!out.contains("message:"));
    assert!(!out.contains("tags:"));
    assert!(out.contains("source_module: \"jobs\".into()"));
}

#[test]
fn infers_rust_module_path_from_src_tree() {
    let snippet = "                meta: LogMeta {\n                    tags: vec![\"async\".into()],\n                    correlation_id: None,\n                },";
    let out = try_rust_struct_literal_codemod(
        snippet,
        "remove tags, add source_module",
        ROOT,
        "src/agent/orchestrator.rs",
    )
    .expect("codemod");
    assert!(out.contains("source_module: \"agent::orchestrator\".into()"));
}

#[test]
fn returns_none_for_unrelated_instruction() {
    let snippet = "config.validate();";
    assert!(try_rust_struct_literal_codemod(snippet, "Add true as argument", ROOT, "src/a.rs")
        .is_none());
}

#[test]
fn rust_codemod_output_is_exact() {
    let out = try_rust_struct_literal_codemod(
        "  headline: h,\n  correlation_id: c,",
        "headline->subject",
        ROOT,
        "src/jobs.rs",
    )
    .unwrap();
    assert_eq!(out, "  subject: h,\n  source_module: \"jobs\".into(),\n  correlation_id: c,");
}

#[test]
fn renames_ui_notify_object_fields() {
    let snippet = "      emitUiNotify({\n        headline: {\n          component: 'config',\n          message: 'saved',\n        },\n        meta: {\n          tags: ['ui'],\n          correlationId: null,\n        },\n      })";
    let out = try_ts_object_literal_codemod(
        snippet,
        "headline->subject, message->summary, remove tags, add sourceModule",
        ROOT,
        "frontend/src/modules/config-ui/ConfigApp.tsx",
    )
    .expect("codemod");

    assert!(out.contains("subject:"));
    assert!(out.contains("summary:"));
    assert!(!out.contains("headline:"));
    assert!(!out.contains("message:"));
    assert!(!out.contains("tags:"));
    assert!(out.contains("sourceModule: 'config-ui/ConfigApp'"));
}
