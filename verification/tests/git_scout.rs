use adjutant::git_janitor::{BranchAction, BranchGate, BranchStatus, GitConventions};
use adjutant::git_scout::{format_scout_block, GitJanitorScout, TemplateSnippet};

fn scout(staged: &str, from_disk: bool) -> GitJanitorScout {
    GitJanitorScout {
        conventions: GitConventions::default(),
        conventions_from_disk: from_disk,
        conventions_path: None,
        templates: vec![TemplateSnippet { path: ".github/PULL_REQUEST_TEMPLATE.md".to_string(), content: "## What".to_string() }],
        recent_commits: String::new(),
        unstaged_diff: String::new(),
        staged_diff: staged.to_string(),
        branch_gate: BranchGate {
            current_branch: "main".to_string(),
            branch_status: BranchStatus::OnDefault,
            action_required: BranchAction::CreateBranch,
            commit_allowed: false,
            suggested_branch_name: "feat/x".to_string(),
            ticket_id: None,
        },
        suggested_adjutant_toml: "[git_rules]".to_string(),
    }
}

#[test]
fn scout_block_lists_conventions_gate_diffs_and_templates() {
    let block = format_scout_block(&scout("+a", false), "{\"current_branch\": \"main\"}");
    assert!(block.starts_with("## Conventions\nNo local file — using Conventional Commits defaults.\nstyle=conventional "));
    assert!(block.contains("require_ticket=true"));
    assert!(block.contains("\n## Branch gate\n{\"current_branch\": \"main\"}\n\n## Recent commits\n(none)"));
    assert!(block.contains("\n\n## Staged diff\n+a\n\n## Unstaged diff\n(empty)"));
    assert!(block.contains("\n\n## Template .github/PULL_REQUEST_TEMPLATE.md\n## What"));
    assert!(block.ends_with("\n\n## Suggested .adjutant.toml\n```toml\n[git_rules]\n```\n"));
    let on_disk = format_scout_block(&scout("", true), "{}");
    assert!(on_disk.starts_with("## Conventions\nLoaded from .adjutant.toml\n"));
}

#[test]
fn scout_block_cuts_long_diffs() {
    let long = "x".repeat(13_000);
    let block = format_scout_block(&scout(&long, false), "{}");
    let shown = format!("\n\n## Staged diff\n{}\n\n## Unstaged diff", "x".repeat(12_000));
    assert!(block.contains(&shown));
}
