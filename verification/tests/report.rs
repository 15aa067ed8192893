use adjutant::llm::AgentContext;
use adjutant::report::{
    backtick_command, format_triage_success, parse_triage_evidence, tail_lines, triage_passed,
    truncate_debug_trace, TRIAGE_PASS_MARKER,
};

fn ctx(prompt: &str, data: &str) -> AgentContext {
    AgentContext {
        input_prompt: prompt.to_string(),
        accumulated_data: data.to_string(),
        iterations: 1,
        max_iterations: 3,
        is_finished: true,
        agent_completed: false,
        touched_files: vec![],
        last_tool_call: None,
    }
}

#[test]
fn parse_triage_evidence_handles_tdd_red_lines() {
    let block = "TDD RED assertion failure (expected) in /repo (`cargo test --test foo`):\nExit code: 101\nassertion failed\n";
    let (cmd, code, log) = parse_triage_evidence(block);
    assert_eq!(cmd.as_deref(), Some("cargo test --test foo"));
    assert_eq!(code, Some(101));
    assert!(log.contains("assertion failed"));
}

#[test]
fn format_triage_success_includes_build_evidence() {
    let context = ctx(
        TRIAGE_PASS_MARKER,
        "Triage targets (1 modules):\nbackend => npm run typecheck\n\nWorkspace: /tmp/backend\nCommand: `npm run typecheck`\nExit code: 0\nBuild output:\ntest ok\n",
    );
    let paths = vec!["src/foo.ts".to_string(), "src/bar.ts".to_string()];

    let report = format_triage_success(&context, &paths);
    assert!(report.contains("## Triage: PASS"));
    assert!(report.contains("npm run typecheck"));
    assert!(report.contains("Exit code: 0"));
    assert!(report.contains("Target files verified: src/foo.ts, src/bar.ts"));
}

#[test]
fn format_triage_success_empty_paths_omits_line() {
    let context = ctx(TRIAGE_PASS_MARKER, "Build OK");
    let report = format_triage_success(&context, &[]);
    assert!(report.contains("## Triage: PASS"));
    assert!(!report.contains("Target files verified"));
    assert_eq!(
        format_triage_success(&ctx("", ""), &[]),
        "## Triage: PASS\n\n[TRIAGE PASS]\n\n### Verification log\n\n(no build output captured)\n\n### Summary\n\n- Status: all configured build/test commands exited successfully\n- Iterations: 1\n"
    );
}

#[test]
fn triage_evidence_reads_command_exit_and_log() {
    let block = "Workspace: /repo\nCommand: `cargo test`\nExit code: 0\nBuild output:\nrunning 1 test\ntest a ... ok\n";
    let (cmd, code, log) = parse_triage_evidence(block);
    assert_eq!(cmd.as_deref(), Some("cargo test"));
    assert_eq!(code, Some(0));
    assert_eq!(log, "running 1 test\ntest a ... ok\n");
    let (cmd, code, log) = parse_triage_evidence("Exit code: nope\nx\n");
    assert_eq!((cmd, code, log.as_str()), (None, None, "x\n"));
    assert_eq!(backtick_command("run (`a b`) now"), Some("a b".to_string()));
    assert_eq!(backtick_command("run (`a b"), None);
}

#[test]
fn triage_passed_accepts_marker_or_sentence() {
    assert!(triage_passed(&ctx("... [TRIAGE PASS] ...", "")));
    assert!(triage_passed(&ctx("All builds/tests completed successfully.", "")));
    assert!(!triage_passed(&ctx("[TRIAGE FAILURE]", "")));
}

#[test]
fn excerpts_keep_the_end() {
    assert_eq!(tail_lines("a\nb\nc", 2), "b\nc");
    assert_eq!(tail_lines("a\nb\n", 5), "a\nb\n");
    assert_eq!(truncate_debug_trace("short", 10), "short");
    assert_eq!(
        truncate_debug_trace("abcdef", 3),
        "(truncated to last 3 chars)\ndef"
    );
}

#[test]
fn format_builder_report_structured_green() {
    let fixture = "Tool: write_test_suite({\"path\":\"tests/foo_integration_test.rs\"})\n\n[SYSTEM]: Launching Triage (green) for tests/foo_integration_test.rs\n\n[TRIAGE RESULT]: Workspace: /repo\nCommand: `cargo test --test foo_integration_test`\nExit code: 0\nBuild output:\nrunning 1 test\ntest foo ... ok\n\n[BUILDER GREEN OK]\n";
    let root = "/tmp/builder-report";
    let rel = adjutant::report::builder_report_test_path(fixture, root).expect("test path");
    assert_eq!(rel, "tests/foo_integration_test.rs");
    let report = adjutant::report::format_builder_report(
        &adjutant::report::BuilderReportInput {
            accumulated_data: fixture,
            project_root: root,
            source_file_path: "src/foo.rs",
            test_type: "unit",
            green_ok: true,
            verify_summary: Some("cargo test --test foo_integration_test: all tests passed"),
        },
        Some("fn test_x() {}"),
    );
    assert!(report.contains("[TEST SOURCE]"));
    assert!(report.contains("tests/foo_integration_test.rs"));
    assert!(report.contains("fn test_x()"));
    assert!(report.contains("[BUILD COMMAND & EXIT CODE]"));
    assert!(report.contains("cargo test --test foo_integration_test"));
    assert!(report.contains("[BUILDER GREEN OK]"));
    assert!(!report.starts_with("Tool: write_test_suite"));
}

#[test]
fn builder_report_without_triage_notes_what_is_missing() {
    let report = adjutant::report::format_builder_report(
        &adjutant::report::BuilderReportInput {
            accumulated_data: "nothing happened",
            project_root: "/w",
            source_file_path: "src/a.rs",
            test_type: "unit",
            green_ok: false,
            verify_summary: None,
        },
        None,
    );
    assert_eq!(
        report,
        "## PHASE_4_BUILDER Report: src/a.rs (unit)\n\n[TEST SOURCE]\n(no test file path in builder log)\n\n[BUILD COMMAND & EXIT CODE]\n(no build command captured)\n\n[LOG EXCERPT]\nnothing happened\n\n(no GREEN — see debug trace)\n\n## Debug trace\nnothing happened"
    );
}

#[test]
fn builder_report_paths_are_made_relative_to_the_root() {
    let log = "[SYSTEM]: Launching Triage (red) for /w/tests/a_test.rs\n";
    assert_eq!(
        adjutant::report::builder_report_test_path(log, "/w").as_deref(),
        Some("tests/a_test.rs")
    );
    assert_eq!(adjutant::report::builder_report_test_path(log, "/other"), None);
    assert_eq!(
        adjutant::report::extract_last_triage_block("x\n[TRIAGE RESULT]: A\n[TRIAGE RESULT]: B\n[SYSTEM]: next").as_deref(),
        Some("B")
    );
}

#[test]
fn a_triage_success_report_reads_as_a_pass() {
    let report = format_triage_success(&ctx("p", "build ok"), &["src/a.rs".to_string()]);
    assert!(triage_passed(&ctx(&report, "")));
}
