use adjutant::git_janitor::{
    evaluate_branch_gate, extract_ticket, find_jira_ticket, first_line_commit_summary,
    git_janitor_tool_set, slugify, suggest_branch_name, BranchAction, BranchStatus,
    GitConventions, DEFAULT_TICKET_REGEX,
};

#[test]
fn first_line_commit_summary_strips_ticket_bracket() {
    assert_eq!(
        first_line_commit_summary("[GIT-42] fix: rustfmt import order\n\nBody"),
        "fix: rustfmt import order"
    );
    assert_eq!(first_line_commit_summary("  chore: tidy  "), "chore: tidy");
    assert_eq!(first_line_commit_summary("[TICKET]   \nbody"), "[TICKET]");
}

#[test]
fn commit_summary_drops_colon_after_ticket() {
    assert_eq!(first_line_commit_summary("[ABC-1]: add thing"), "add thing");
    assert_eq!(first_line_commit_summary(""), "");
}

#[test]
fn find_jira_ticket_takes_first_well_formed_id() {
    assert_eq!(find_jira_ticket("fix ABC- and XY-12 then ZZ-9"), Some("XY-12".to_string()));
    assert_eq!(find_jira_ticket("feat/GIT-42-fix"), Some("GIT-42".to_string()));
    assert_eq!(find_jira_ticket("no ticket here"), None);
    assert_eq!(find_jira_ticket("aBC-12"), Some("BC-12".to_string()));
    assert_eq!(extract_ticket("[PROJ-7] x", DEFAULT_TICKET_REGEX), Some("PROJ-7".to_string()));
}

#[test]
fn slugify_makes_short_dashed_lowercase() {
    assert_eq!(slugify("Fix: rustfmt import order!"), "fix-rustfmt-import-order");
    assert_eq!(slugify("--"), "");
    let long = "a".repeat(50);
    assert_eq!(slugify(&long).len(), 40);
}

#[test]
fn suggest_branch_name_uses_ticket_and_slug() {
    assert_eq!(
        suggest_branch_name(Some("GIT-0"), Some("fix: rustfmt import order")),
        "feat/GIT-0-fix-rustfmt-import-order"
    );
    assert_eq!(suggest_branch_name(None, None), "feat/work");
    assert_eq!(suggest_branch_name(Some(""), Some("!!!")), "feat/work");
}

#[test]
fn branch_gate_blocks_default_branch() {
    let conv = GitConventions::default();
    let gate = evaluate_branch_gate("Main", &conv, Some("ABC-9 add login"), None, None);
    assert_eq!(gate.branch_status, BranchStatus::OnDefault);
    assert_eq!(gate.action_required, BranchAction::CreateBranch);
    assert!(!gate.commit_allowed);
    assert_eq!(gate.ticket_id.as_deref(), Some("ABC-9"));
    assert_eq!(gate.suggested_branch_name, "feat/ABC-9-abc-9-add-login");
}

#[test]
fn branch_gate_checks_expected_ticket() {
    let conv = GitConventions::default();
    let ok = evaluate_branch_gate("feat/abc-9-x", &conv, None, Some("ABC-9"), None);
    assert_eq!(ok.branch_status, BranchStatus::TicketMismatch);
    let ok = evaluate_branch_gate("feat/ABC-9-x", &conv, None, Some("abc-9"), None);
    assert_eq!(ok.branch_status, BranchStatus::Ready);
    assert!(ok.commit_allowed);
    let stale = evaluate_branch_gate("feat/ABC-8-x", &conv, None, Some("ABC-9"), None);
    assert_eq!(stale.branch_status, BranchStatus::StaleFeature);
    let free = evaluate_branch_gate("feat/x", &conv, None, None, None);
    assert_eq!(free.branch_status, BranchStatus::Ready);
    assert_eq!(free.ticket_id, None);
}

#[test]
fn git_janitor_tool_set_lists_tools() {
    let names: Vec<String> = git_janitor_tool_set()
        .definitions()
        .iter()
        .map(|d| d.name.clone())
        .collect();
    assert_eq!(
        names,
        vec!["emit_git_copy", "propose_conventions_patch", "update_git_conventions"]
    );
}

#[test]
fn ticket_is_leftmost_match_not_run_start_only() {
    assert_eq!(find_jira_ticket("AB-CD-5"), Some("CD-5".to_string()));
    assert_eq!(find_jira_ticket("feat/GIT-1-x"), Some("GIT-1".to_string()));
    assert_eq!(find_jira_ticket("ABC-123456 tail"), Some("ABC-123456".to_string()));
}
