use adjutant::evaluator::{
    agent_evaluation_rubric, build_evaluator_user_message, check_evaluation_score,
    evaluation_json_body, extract_json_object, find_legacy_eval_appendix,
    format_eval_job_appendix, format_evaluation_result, git_janitor_rubric_for,
    is_git_janitor_create_branch_eval, normalize_agent_name, normalize_desired_output,
    payload_to_summary, strip_auto_eval_appendix, AgentEvalSummary, EvaluationPayload,
    EVALUATOR_SYSTEM_PROMPT,
};

/// Parses an evaluator reply the way the agent does: recover the JSON body, then
/// read `score`, `critique` and the optional `desired_output`.
fn parse_evaluation_response(raw: &str) -> Result<EvaluationPayload, String> {
    let body = evaluation_json_body(raw);
    let v: serde_json::Value = serde_json::from_str(&body)
        .map_err(|err| format!("failed to parse evaluator JSON response: {err}"))?;
    let score = v
        .get("score")
        .and_then(|s| s.as_i64())
        .ok_or("missing score")? as i32;
    let critique = v
        .get("critique")
        .and_then(|s| s.as_str())
        .ok_or("missing critique")?
        .to_string();
    let desired_output = v
        .get("desired_output")
        .and_then(|s| s.as_str())
        .unwrap_or_default()
        .to_string();
    Ok(EvaluationPayload {
        score,
        critique,
        desired_output,
    })
}

#[test]
fn planner_rubric_appended_for_planner_agent() {
    let rubric = agent_evaluation_rubric("PlannerAgent", "", "").expect("rubric");
    assert!(rubric.contains("PLANNER RUBRIC"));
    assert!(rubric.contains("ellipsis"));
    assert!(rubric.contains("generate_tests"));
}

#[test]
fn agent_rubrics_route_by_canonical_name_only() {
    assert!(agent_evaluation_rubric("Phase_4_Builder", "", "").is_some());
    assert!(agent_evaluation_rubric("Phase_4_Builder_GREEN", "", "").is_some());
    assert!(agent_evaluation_rubric("StringBuilder", "", "").is_none());
    let builder = agent_evaluation_rubric("Phase_4_Builder", "", "").expect("builder");
    assert!(builder.contains("Evidenced FAIL"));
    let scout = agent_evaluation_rubric("Phase_1_Scout", "", "").expect("scout");
    assert!(scout.contains("5-7: Partial answer"));
    let triage = agent_evaluation_rubric("Phase_5_Triage", "", "").expect("triage");
    assert!(triage.contains("Evidenced FAIL"));
    let baby = agent_evaluation_rubric("BabysitterAgent", "", "").expect("babysitter");
    assert!(baby.contains("BABYSITTER RUBRIC"));
    assert!(baby.contains("Valid JSON"));
    let janitor = agent_evaluation_rubric("GitJanitorAgent", "", "").expect("janitor");
    assert!(janitor.contains("prepare_git_copy"));
    assert!(janitor.contains("commit_message"));
}

#[test]
fn git_janitor_create_branch_rubric_from_task_name() {
    assert!(is_git_janitor_create_branch_eval(
        "create_git_branch feat/GIT-1-git-janitor",
        r#"{"branch":"feat/GIT-1-git-janitor","status":"created","previous":"main"}"#
    ));
    let rubric = git_janitor_rubric_for("Create and checkout feat/X via create_git_branch", "{}");
    assert!(rubric.contains("create_git_branch"));
    assert!(rubric.contains("previous"));
    assert!(rubric.contains("Do NOT apply the prepare_git_copy"));
}

#[test]
fn git_janitor_create_branch_rubric_from_output_shape() {
    let out = r#"{"branch":"feat/GIT-1-git-janitor","status":"created","previous":"cursor/evaluator-desired-output-exemplar"}"#;
    assert!(is_git_janitor_create_branch_eval(
        "Create and checkout feat/GIT-1-git-janitor from current HEAD",
        out
    ));
    assert!(is_git_janitor_create_branch_eval("checkout new feature branch", out));
    let rubric = agent_evaluation_rubric("GitJanitorAgent", "checkout new feature branch", out)
        .expect("rubric");
    assert!(rubric.contains("create_git_branch"));
    assert!(rubric.contains("Do NOT apply the prepare_git_copy"));
}

#[test]
fn git_janitor_prepare_rubric_when_emit_json() {
    let out = r#"{"commit_message":"feat: x","pr_title":"feat: x","pr_body":"b","changelog_entry":"c","branch_status":"ok","action_required":"none","commit_allowed":true,"suggested_branch_name":"feat/x","current_branch":"feat/x"}"#;
    assert!(!is_git_janitor_create_branch_eval("prepare_git_copy for feature", out));
    let rubric = git_janitor_rubric_for("prepare_git_copy for feature", out);
    assert!(rubric.contains("prepare_git_copy"));
    assert!(rubric.contains("commit_allowed"));
}

#[test]
fn git_janitor_prepare_shape_wins_over_create_branch_task_name() {
    let out = r#"{"commit_message":"feat: x","pr_title":"feat: x","pr_body":"b","changelog_entry":"c","branch_status":"on_default","action_required":"create_branch","commit_allowed":false,"suggested_branch_name":"feat/x","current_branch":"main"}"#;
    assert!(!is_git_janitor_create_branch_eval(
        "create_git_branch then re-run prepare_git_copy",
        out
    ));
    let rubric = git_janitor_rubric_for("create_git_branch then re-run prepare_git_copy", out);
    assert!(rubric.contains("prepare_git_copy"));
    assert!(!rubric.contains("create_git_branch (override"));
}

#[test]
fn evaluator_prompt_flags_orchestrator_paraphrase() {
    assert!(EVALUATOR_SYSTEM_PROMPT.contains("query_job_status.result"));
    assert!(EVALUATOR_SYSTEM_PROMPT.contains("score ≤3"));
    assert!(EVALUATOR_SYSTEM_PROMPT.contains("verifiable evidence"));
    assert!(EVALUATOR_SYSTEM_PROMPT.contains("desired_output"));
    assert!(EVALUATOR_SYSTEM_PROMPT.contains("When score is 10, desired_output MUST be \"\""));
}

#[test]
fn extract_json_object_finds_object_inside_prose() {
    let raw = "Verdict follows: {\"score\": 7, \"critique\": \"ok\"} (end).";
    assert_eq!(
        extract_json_object(raw),
        Some(r#"{"score": 7, "critique": "ok"}"#.to_string())
    );
}

#[test]
fn parse_evaluation_response_accepts_desired_output() {
    let mut payload = parse_evaluation_response(
        r#"{"score": 6, "critique": "thin", "desired_output": "full exemplar with file:line"}"#,
    )
    .expect("parse with desired_output");
    normalize_desired_output(&mut payload).expect("normalize");
    assert_eq!(payload.score, 6);
    assert_eq!(payload.critique, "thin");
    assert_eq!(payload.desired_output, "full exemplar with file:line");
}

#[test]
fn parse_evaluation_response_score_10_clears_desired_output() {
    let mut payload = parse_evaluation_response(
        r#"{"score": 10, "critique": "perfect", "desired_output": "should be cleared"}"#,
    )
    .expect("parse score 10");
    normalize_desired_output(&mut payload).expect("normalize");
    assert_eq!(payload.score, 10);
    assert!(payload.desired_output.is_empty());
}

#[test]
fn parse_evaluation_response_rejects_empty_desired_when_score_below_10() {
    let mut payload =
        parse_evaluation_response(r#"{"score": 5, "critique": "weak", "desired_output": "   "}"#)
            .expect("parse");
    let err = normalize_desired_output(&mut payload).expect_err("empty desired_output must fail");
    assert!(err.contains("desired_output"));
}

#[test]
fn parse_evaluation_response_accepts_wrapped_prose() {
    let mut payload = parse_evaluation_response(
        "Thought: done.\n{\"score\": 8, \"critique\": \"solid\", \"desired_output\": \"exemplar\"}\n",
    )
    .expect("parse wrapped json");
    normalize_desired_output(&mut payload).expect("normalize");
    assert_eq!(payload.score, 8);
    assert_eq!(payload.critique, "solid");
    assert_eq!(payload.desired_output, "exemplar");
}

#[test]
fn evaluation_json_body_unwraps_fences() {
    assert_eq!(evaluation_json_body("```json\n{\"score\": 3}\n```"), "{\"score\": 3}");
    assert_eq!(evaluation_json_body("```\n{\"a\": 1}\n```"), "{\"a\": 1}");
    assert_eq!(evaluation_json_body("  no json  "), "no json");
}

#[test]
fn normalize_desired_output_trims_whitespace() {
    let mut payload = EvaluationPayload {
        score: 4,
        critique: "x".into(),
        desired_output: "  exemplar  ".into(),
    };
    normalize_desired_output(&mut payload).expect("ok");
    assert_eq!(payload.desired_output, "exemplar");
}

#[test]
fn format_evaluation_result_omits_desired_when_empty() {
    let payload = EvaluationPayload {
        score: 10,
        critique: "perfect".into(),
        desired_output: String::new(),
    };
    let text = format_evaluation_result(&payload);
    assert!(text.contains("QA score: 10/10"));
    assert!(text.contains("Critique: perfect"));
    assert!(!text.contains("Desired output"));
}

#[test]
fn format_evaluation_result_includes_exemplar() {
    let payload = EvaluationPayload {
        score: 6,
        critique: "thin".into(),
        desired_output: "better".into(),
    };
    assert_eq!(
        format_evaluation_result(&payload),
        "Evaluation saved. QA score: 6/10\nCritique: thin\nDesired output (10/10 exemplar):\nbetter"
    );
}

#[test]
fn strip_auto_eval_appendix_cuts_new_and_legacy_markers() {
    let with_new = format!(
        "agent body{}",
        format_eval_job_appendix(&AgentEvalSummary {
            score: 7,
            critique: "ok".into(),
            desired_output: "better".into(),
        })
    );
    assert_eq!(strip_auto_eval_appendix(&with_new), "agent body");

    let with_legacy = "agent body\n\nEvaluation: QA score 3/10\nCritique: stale";
    assert_eq!(strip_auto_eval_appendix(with_legacy), "agent body");
}

#[test]
fn strip_auto_eval_appendix_ignores_incidental_qa_score_mention() {
    let body = "Discussed prior run:\n\nEvaluation: QA score was weak overall.\nKeep going.";
    assert_eq!(strip_auto_eval_appendix(body), body);
}

#[test]
fn find_legacy_eval_appendix_rejects_empty_and_zero_scores() {
    assert!(find_legacy_eval_appendix("body\n\nEvaluation: QA score /10\nCritique: x").is_none());
    assert!(find_legacy_eval_appendix("body\n\nEvaluation: QA score 0/10\nCritique: x").is_none());
    assert!(find_legacy_eval_appendix("body\n\nEvaluation: QA score 00/10\nCritique: x").is_none());
    assert_eq!(
        find_legacy_eval_appendix("body\n\nEvaluation: QA score 10/10\nCritique: x"),
        Some(4)
    );
}

#[test]
fn find_legacy_eval_appendix_reports_byte_offset() {
    assert_eq!(
        find_legacy_eval_appendix("réponse\n\nEvaluation: QA score 2/10\nCritique: x"),
        Some(8)
    );
}

#[test]
fn format_eval_job_appendix_marks_host_metadata() {
    let text = format_eval_job_appendix(&AgentEvalSummary {
        score: 10,
        critique: "clean".into(),
        desired_output: String::new(),
    });
    assert_eq!(
        text,
        "\n\n[ADJUTANT AUTO-EVAL APPENDIX — not part of agent output]\nQA score: 10/10\nCritique: clean"
    );
}

#[test]
fn evaluation_score_must_be_in_range() {
    assert!(check_evaluation_score(1).is_ok());
    assert!(check_evaluation_score(10).is_ok());
    assert_eq!(
        check_evaluation_score(11).unwrap_err(),
        "evaluator score must be between 1 and 10, got 11"
    );
    assert_eq!(
        check_evaluation_score(-2).unwrap_err(),
        "evaluator score must be between 1 and 10, got -2"
    );
}

#[test]
fn payload_to_summary_copies_fields() {
    let payload = EvaluationPayload {
        score: 8,
        critique: "solid".into(),
        desired_output: "x".into(),
    };
    let s = payload_to_summary(&payload);
    assert_eq!((s.score, s.critique.as_str(), s.desired_output.as_str()), (8, "solid", "x"));
}

#[test]
fn user_message_uses_canonical_name_and_rubric() {
    let msg = build_evaluator_user_message("builder", "add tests", "done");
    assert!(msg.starts_with("AGENT: Phase_4_Builder\n\nORIGINAL TASK:\nadd tests\n\nAGENT OUTPUT:\ndone"));
    assert!(msg.contains("BUILDER RUBRIC"));
    let plain = build_evaluator_user_message("CustomAgent", "t", "o");
    assert_eq!(plain, "AGENT: CustomAgent\n\nORIGINAL TASK:\nt\n\nAGENT OUTPUT:\no");
}

#[test]
fn normalize_maps_legacy_builder_aliases() {
    assert_eq!(normalize_agent_name("builder"), "Phase_4_Builder");
    assert_eq!(normalize_agent_name("BuilderAgent"), "Phase_4_Builder");
}

#[test]
fn normalize_preserves_unknown_names() {
    assert_eq!(normalize_agent_name("CustomAgent"), "CustomAgent");
}

#[test]
fn normalize_trims_and_folds_case() {
    assert_eq!(normalize_agent_name("  SCOUT "), "Phase_1_Scout");
    assert_eq!(normalize_agent_name("   "), "");
    assert_eq!(normalize_agent_name("evaluator_agent"), "EvaluatorAgent");
}

#[test]
fn normalizing_an_agent_name_twice_changes_nothing_more() {
    for name in ["  Scout ", "evaluator_agent", "EvaluatorAgent", "custom-agent", "   ", "TranspilerAgent"] {
        let once = normalize_agent_name(name);
        assert_eq!(normalize_agent_name(&once), once);
    }
}
