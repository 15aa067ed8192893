use adjutant::json::JsonValue;
use adjutant::babysitter::{
    babysitter_tool_set, check_finalize_allowed, ci_checks_blocking, uncovered_review_paths,
    BabysitterSession, PrCheck, PrReviewComment, PrState,
};

fn pr_state(checks: Vec<PrCheck>, review_comments: Vec<PrReviewComment>) -> PrState {
    PrState {
        number: 1,
        title: "t".into(),
        state: "OPEN".into(),
        mergeable: None,
        head_ref_name: "feat".into(),
        base_ref_name: "main".into(),
        url: "u".into(),
        checks,
        review_comments,
    }
}

fn comment(path: &str, line: Option<u32>, body: &str) -> PrReviewComment {
    PrReviewComment {
        path: Some(path.into()),
        line,
        body: body.into(),
    }
}

#[test]
fn uncovered_paths_excludes_handled_and_skipped() {
    let seen = vec![
        "src/a.rs".to_string(),
        "src/b.rs".to_string(),
        "src/c.rs".to_string(),
    ];
    let handled = vec!["src/a.rs".to_string()];
    let skipped = vec!["src/c.rs".to_string()];
    assert_eq!(
        uncovered_review_paths(&seen, &handled, &skipped),
        vec!["src/b.rs".to_string()]
    );
}

#[test]
fn check_finalize_rejects_pending_ci() {
    let state = pr_state(
        vec![PrCheck {
            name: "Rust Backend".into(),
            bucket: "pending".into(),
            state: "IN_PROGRESS".into(),
            workflow: None,
            link: None,
        }],
        vec![],
    );
    let session = BabysitterSession {
        report_posted: true,
        ..Default::default()
    };
    let err = check_finalize_allowed(&state, &session, &[]).unwrap_err();
    assert!(err.contains("CI not green"));
}

#[test]
fn check_finalize_rejects_without_report() {
    let state = pr_state(vec![], vec![]);
    let session = BabysitterSession::default();
    let err = check_finalize_allowed(&state, &session, &[]).unwrap_err();
    assert!(err.contains("github_post_final_report"));
}

#[test]
fn check_finalize_allows_handled_paths() {
    let state = pr_state(vec![], vec![comment("src/foo.rs", Some(1), "fix")]);
    let mut session = BabysitterSession {
        report_posted: true,
        ..Default::default()
    };
    session.record_pr_state(&state);
    session.record_triage_paths(&vec!["src/foo.rs".to_string()]);
    assert!(check_finalize_allowed(&state, &session, &[]).is_ok());
}

#[test]
fn check_finalize_rejects_unhandled_review_paths() {
    let state = pr_state(vec![], vec![comment("src/foo.rs", Some(1), "fix")]);
    let mut session = BabysitterSession {
        report_posted: true,
        ..Default::default()
    };
    session.record_pr_state(&state);
    let err = check_finalize_allowed(&state, &session, &[]).unwrap_err();
    assert!(err.contains("src/foo.rs"));
}

#[test]
fn check_finalize_allows_skipped_paths() {
    let state = pr_state(vec![], vec![comment("src/foo.rs", None, "nit")]);
    let mut session = BabysitterSession {
        report_posted: true,
        ..Default::default()
    };
    session.record_pr_state(&state);
    assert!(check_finalize_allowed(&state, &session, &["src/foo.rs".to_string()]).is_ok());
}

#[test]
fn uncovered_paths_are_sorted_and_deduplicated() {
    let seen = vec![
        "src/z.rs".to_string(),
        "src/a.rs".to_string(),
        "src/z.rs".to_string(),
        "src/m.rs".to_string(),
    ];
    assert_eq!(
        uncovered_review_paths(&seen, &[], &[]),
        vec![
            "src/a.rs".to_string(),
            "src/m.rs".to_string(),
            "src/z.rs".to_string()
        ]
    );
}

#[test]
fn check_finalize_lists_blocking_checks_in_order() {
    let check = |name: &str, bucket: &str| PrCheck {
        name: name.into(),
        bucket: bucket.into(),
        state: "X".into(),
        workflow: None,
        link: None,
    };
    let state = pr_state(
        vec![
            check("lint", "fail"),
            check("docs", "pass"),
            check("e2e", "skipping"),
            check("unit", "pending"),
        ],
        vec![],
    );
    assert_eq!(
        ci_checks_blocking(&state.checks),
        vec!["lint".to_string(), "unit".to_string()]
    );
    let session = BabysitterSession::default();
    assert_eq!(
        check_finalize_allowed(&state, &session, &[]).unwrap_err(),
        "refusing finalize_session: CI not green (lint, unit) — wait for checks to pass or fix failures first"
    );
}

#[test]
fn check_finalize_rejects_skipped_path_not_reviewed() {
    let state = pr_state(vec![], vec![]);
    let session = BabysitterSession {
        report_posted: true,
        ..Default::default()
    };
    let err = check_finalize_allowed(&state, &session, &["src/x.rs".to_string()]).unwrap_err();
    assert_eq!(
        err,
        "refusing finalize_session: skipped_review_paths contains \"src/x.rs\" which was not in review comments — only cite paths from github_get_pr_state"
    );
}

#[test]
fn babysitter_tool_set_lists_harness_tools() {
    let names: Vec<String> = babysitter_tool_set()
        .definitions()
        .iter()
        .map(|d| d.name.clone())
        .collect();
    assert_eq!(
        names,
        vec![
            "github_get_pr_state",
            "run_log_analyzer",
            "invoke_child_triage",
            "git_push_changes",
            "github_post_final_report",
            "finalize_session"
        ]
    );
}

fn obj(fields: Vec<(&str, adjutant::json::JsonValue)>) -> adjutant::json::JsonValue {
    adjutant::json::JsonValue::Object(fields.into_iter().map(|(k, v)| (k.to_string(), v)).collect())
}

#[test]
fn parse_finalize_arguments_reads_optional_fields() {
    let args = obj(vec![
        ("summary", JsonValue::Str("done".into())),
        (
            "skipped_review_paths",
            JsonValue::Array(vec![JsonValue::Str("src/a.rs".into())]),
        ),
    ]);
    let (summary, skipped) = adjutant::babysitter::parse_finalize_arguments(&args).expect("parse");
    assert_eq!(summary.as_deref(), Some("done"));
    assert_eq!(skipped, vec!["src/a.rs"]);
}

#[test]
fn parse_finalize_arguments_defaults_skipped_to_empty() {
    let (summary, skipped) =
        adjutant::babysitter::parse_finalize_arguments(&obj(vec![])).expect("parse");
    assert!(summary.is_none());
    assert!(skipped.is_empty());
}

#[test]
fn parse_triage_arguments_requires_paths_and_context() {
    assert_eq!(
        adjutant::babysitter::parse_triage_arguments(&obj(vec![])).unwrap_err(),
        "target_paths array is required"
    );
    assert_eq!(
        adjutant::babysitter::parse_triage_arguments(&obj(vec![("target_paths", JsonValue::Array(vec![JsonValue::Int(1)]))]))
            .unwrap_err(),
        "target_paths must not be empty"
    );
    let (paths, ctx) = adjutant::babysitter::parse_triage_arguments(&obj(vec![
        (
            "target_paths",
            JsonValue::Array(vec![JsonValue::Str("a.rs".into()), JsonValue::Null]),
        ),
        ("error_context", JsonValue::Str("E0308".into())),
    ]))
    .unwrap();
    assert_eq!(paths, vec!["a.rs".to_string()]);
    assert_eq!(ctx, "E0308");
}
