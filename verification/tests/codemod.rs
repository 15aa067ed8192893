use adjutant::codemod::{
    detect_added_field, detect_removed_field, detect_rename, format_change_report,
    summarize_snippet_diff, verification_passed, verify_field_migration, CodemodChange,
};

#[test]
fn summarizes_python_field_renames() {
    let before = "    log_sort_event(\n        SortEvent(\n            headline=SortHeadline(\n                component=\"bubble\",\n                message=f\"sorted\",\n            ),\n            meta=SortMeta(\n                tags=\"sort_demo.bubble_sort\",\n                correlation_id=None,\n            ),\n        )\n    )";
    let after = "    log_sort_event(\n        SortEvent(\n            subject=SortHeadline(\n                component=\"bubble\",\n                summary=f\"sorted\",\n            ),\n            meta=SortMeta(\n                source_module=\"sort_demo.bubble_sort\",\n                correlation_id=None,\n            ),\n        )\n    )";
    let changes = summarize_snippet_diff(before, after, 11);
    assert!(changes
        .iter()
        .any(|c| c.kind == "rename" && c.detail.contains("headline")));
    assert!(changes
        .iter()
        .any(|c| c.kind == "rename" && c.detail.contains("message")));
    assert!(changes
        .iter()
        .any(|c| c.kind == "add" && c.detail.contains("source_module")));
}

#[test]
fn verification_passed_rejects_failed_checks() {
    let report = "## Refactor verification\n✓ subject 4/4 files\n✗ tags 3/4 files\n";
    assert!(!verification_passed(report));
    assert!(verification_passed("## Refactor verification\n✓ subject 4/4 files\n"));
    assert!(verification_passed(""));
}

#[test]
fn snippet_diff_numbers_lines_and_reports_removals() {
    let changes = summarize_snippet_diff("a\ntags=1\nx", "a\n\ny", 10);
    let got: Vec<(usize, &str, String)> = changes
        .iter()
        .map(|c| (c.line, c.kind, c.detail.clone()))
        .collect();
    assert_eq!(
        got,
        vec![
            (11, "remove", "tags=".to_string()),
            (12, "rewrite", "x".to_string())
        ]
    );
}

#[test]
fn field_detectors_recognise_spellings() {
    assert_eq!(detect_rename("  .headline(x)", ".subject(x)"), Some(".headline(→.subject(".to_string()));
    assert_eq!(detect_rename("a", "b"), None);
    assert_eq!(detect_removed_field("  tags : [1]"), Some("tags:".to_string()));
    assert_eq!(detect_added_field(" source_module = 'x' "), Some("source_module = 'x'".to_string()));
    assert_eq!(detect_added_field("other"), None);
}

#[test]
fn change_report_lists_changes_and_snippet() {
    let changes = vec![CodemodChange {
        line: 3,
        kind: "rename",
        detail: "headline=→subject=".to_string(),
    }];
    assert_eq!(
        format_change_report("src/a.py", 3, 4, &changes, "x = 1"),
        "## Codemod: src/a.py (lines 3-4)\n- L3 rename: headline=→subject=\nAfter:\n```\nx = 1\n```\n"
    );
    assert_eq!(
        format_change_report("b.rs", 1, 1, &[], ""),
        "## Codemod: b.rs (lines 1-1)\n- (no line-level field diff detected)\nAfter:\n```\n\n```\n"
    );
}

#[test]
fn field_migration_report_counts_files() {
    let paths = vec!["a.py".to_string(), "b.py".to_string()];
    let contents = vec![
        Some("subject=1\ntags=2".to_string()),
        Some("subject=3".to_string()),
    ];
    assert_eq!(
        verify_field_migration(&paths, &contents, "Rename headline to subject, remove tags"),
        "## Refactor verification\n✓ subject:/subject= present in call sites 2/2 files\n✗ tags= absent in call sites 1/2 files\n"
    );
    assert_eq!(verify_field_migration(&paths, &contents, "add a parameter"), "");
    let java = vec!["A.java".to_string()];
    assert_eq!(
        verify_field_migration(&java, &[None], "add sourceModule"),
        "## Refactor verification\n✗ sourceModule: present in call sites 0/1 files\n"
    );
}

#[test]
fn unchanged_snippet_reports_no_change_and_changes_sit_on_differing_lines() {
    assert!(summarize_snippet_diff("a\nheadline: x,\nb", "a\nheadline: x,\nb", 7).is_empty());
    let changes = summarize_snippet_diff("a\nheadline: x,\nb", "a\nsubject: x,\nb", 7);
    assert!(!changes.is_empty());
    assert!(changes.iter().all(|c| c.line == 8));
}
