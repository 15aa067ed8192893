//! PR babysitting: the pull-request state the agent reads, the session it
//! keeps, and the check that says whether the session may be finalized.
use vstd::prelude::*;

use crate::json::{get, get_array, get_str, JsonValue};
use crate::llm::{LlmToolSet, ToolDefinition};
use crate::order::{
    contains_string, insert_sorted_unique, lemma_contains_push, push_unique, sorted_strict,
};
use crate::text::{debug_quote, debug_str, join, join_strings, str_eq, string_views};

verus! {

/// One CI check of a pull request, as `gh pr checks` reports it.
pub struct PrCheck {
    pub name: String,
    /// `pass`, `fail`, `pending`, `skipping` or `cancel`.
    pub bucket: String,
    pub state: String,
    pub workflow: Option<String>,
    pub link: Option<String>,
}

/// One unresolved review comment.
pub struct PrReviewComment {
    pub path: Option<String>,
    pub line: Option<u32>,
    pub body: String,
}

/// The remote state of a pull request.
pub struct PrState {
    pub number: u64,
    pub title: String,
    pub state: String,
    pub mergeable: Option<bool>,
    pub head_ref_name: String,
    pub base_ref_name: String,
    pub url: String,
    pub checks: Vec<PrCheck>,
    pub review_comments: Vec<PrReviewComment>,
}

/// A check holds up finalizing unless it passed or was skipped.
pub open spec fn check_blocks(c: PrCheck) -> bool {
    c.bucket@ != "pass"@ && c.bucket@ != "skipping"@
}

/// Names of the blocking checks, in order.
pub open spec fn blocking_names(checks: Seq<PrCheck>) -> Seq<Seq<char>>
    decreases checks.len(),
{
    if checks.len() == 0 {
        seq![]
    } else {
        let rest = blocking_names(checks.drop_last());
        if check_blocks(checks.last()) {
            rest.push(checks.last().name@)
        } else {
            rest
        }
    }
}

/// Names of the checks that are neither passed nor skipped.
pub fn ci_checks_blocking(checks: &Vec<PrCheck>) -> (r: Vec<String>)
    ensures
        string_views(r@) == blocking_names(checks@),
{
    let mut r: Vec<String> = Vec::new();
    let mut i: usize = 0;
    while i < checks.len()
        invariant
            i <= checks@.len(),
            string_views(r@) == blocking_names(checks@.take(i as int)),
        decreases checks.len() - i,
    {
        assert(checks@.take(i + 1).drop_last() =~= checks@.take(i as int));
        let c = &checks[i];
        let passed = str_eq(c.bucket.as_str(), "pass") || str_eq(c.bucket.as_str(), "skipping");
        if !passed {
            let ghost before = r@;
            r.push(c.name.clone());
            assert(string_views(r@) =~= string_views(before).push(c.name@));
        }
        i = i + 1;
    }
    assert(checks@.take(checks@.len() as int) =~= checks@);
    r
}

/// File paths of the review comments that carry one, in order.
pub open spec fn comment_paths(cs: Seq<PrReviewComment>) -> Seq<Seq<char>>
    decreases cs.len(),
{
    if cs.len() == 0 {
        seq![]
    } else {
        let rest = comment_paths(cs.drop_last());
        match cs.last().path {
            Some(p) => rest.push(p@),
            None => rest,
        }
    }
}

/// File paths named by review comments.
pub fn review_comment_paths(comments: &Vec<PrReviewComment>) -> (r: Vec<String>)
    ensures
        string_views(r@) == comment_paths(comments@),
{
    let mut r: Vec<String> = Vec::new();
    let mut i: usize = 0;
    while i < comments.len()
        invariant
            i <= comments@.len(),
            string_views(r@) == comment_paths(comments@.take(i as int)),
        decreases comments.len() - i,
    {
        assert(comments@.take(i + 1).drop_last() =~= comments@.take(i as int));
        match &comments[i].path {
            Some(p) => {
                let ghost before = r@;
                r.push(p.clone());
                assert(string_views(r@) =~= string_views(before).push(p@));
            },
            None => {},
        }
        i = i + 1;
    }
    assert(comments@.take(comments@.len() as int) =~= comments@);
    r
}

/// What the babysitter has done so far in one session. The path lists are
/// sets: only membership matters.
pub struct BabysitterSession {
    pub report_posted: bool,
    pub review_paths_seen: Vec<String>,
    pub review_paths_handled: Vec<String>,
}

impl Default for BabysitterSession {
    fn default() -> (s: Self)
        ensures
            !s.report_posted,
            s.review_paths_seen@.len() == 0,
            s.review_paths_handled@.len() == 0,
    {
        BabysitterSession {
            report_posted: false,
            review_paths_seen: Vec::new(),
            review_paths_handled: Vec::new(),
        }
    }
}

/// Adds every path of `paths` to the set `v`.
fn add_all(v: &mut Vec<String>, paths: &[String])
    ensures
        forall|x: Seq<char>|
            #![trigger string_views(final(v)@).contains(x)]
            string_views(final(v)@).contains(x) <==> (string_views(old(v)@).contains(x)
                || string_views(paths@).contains(x)),
{
    let ghost start = string_views(v@);
    let mut i: usize = 0;
    while i < paths.len()
        invariant
            i <= paths@.len(),
            start == string_views(old(v)@),
            forall|x: Seq<char>|
                #![trigger string_views(v@).contains(x)]
                string_views(v@).contains(x) <==> (start.contains(x) || string_views(
                    paths@,
                ).take(i as int).contains(x)),
        decreases paths.len() - i,
    {
        let ghost prev = string_views(v@);
        push_unique(v, paths[i].clone());
        proof {
            assert(string_views(paths@).take(i + 1) =~= string_views(paths@).take(i as int).push(
                paths@[i as int]@,
            ));
            assert forall|x: Seq<char>|
                #![trigger string_views(v@).contains(x)]
                string_views(v@).contains(x) <==> (start.contains(x) || string_views(
                    paths@,
                ).take(i + 1).contains(x)) by {
                lemma_contains_push(string_views(paths@).take(i as int), paths@[i as int]@, x);
                assert(prev.contains(x) <==> (start.contains(x) || string_views(paths@).take(
                    i as int,
                ).contains(x)));
            }
        }
        i = i + 1;
    }
    assert(string_views(paths@).take(paths@.len() as int) =~= string_views(paths@));
}

impl BabysitterSession {
    /// Remembers every review-comment path of a fetched PR state as seen.
    pub fn record_pr_state(&mut self, state: &PrState)
        ensures
            final(self).report_posted == old(self).report_posted,
            final(self).review_paths_handled == old(self).review_paths_handled,
            forall|x: Seq<char>|
                string_views(final(self).review_paths_seen@).contains(x) <==> (string_views(
                    old(self).review_paths_seen@,
                ).contains(x) || comment_paths(state.review_comments@).contains(x)),
    {
        let paths = review_comment_paths(&state.review_comments);
        add_all(&mut self.review_paths_seen, paths.as_slice());
    }

    /// Remembers that child triage ran on these paths.
    pub fn record_triage_paths(&mut self, paths: &Vec<String>)
        ensures
            final(self).report_posted == old(self).report_posted,
            final(self).review_paths_seen == old(self).review_paths_seen,
            forall|x: Seq<char>|
                string_views(final(self).review_paths_handled@).contains(x) <==> (string_views(
                    old(self).review_paths_handled@,
                ).contains(x) || string_views(paths@).contains(x)),
    {
        add_all(&mut self.review_paths_handled, paths.as_slice());
    }

    /// Remembers that the final report was posted.
    pub fn mark_report_posted(&mut self)
        ensures
            final(self).report_posted,
            final(self).review_paths_seen == old(self).review_paths_seen,
            final(self).review_paths_handled == old(self).review_paths_handled,
    {
        self.report_posted = true;
    }
}

/// A seen review path that was neither handled nor skipped.
pub open spec fn is_uncovered(
    seen: Seq<Seq<char>>,
    handled: Seq<Seq<char>>,
    skipped: Seq<Seq<char>>,
    x: Seq<char>,
) -> bool {
    seen.contains(x) && !handled.contains(x) && !skipped.contains(x)
}

/// The seen paths that were neither handled nor skipped, sorted, each once.
pub fn uncovered_review_paths(seen: &[String], handled: &[String], skipped: &[String]) -> (r: Vec<
    String,
>)
    ensures
        sorted_strict(string_views(r@)),
        forall|x: Seq<char>|
            #![trigger string_views(r@).contains(x)]
            string_views(r@).contains(x) <==> is_uncovered(
                string_views(seen@),
                string_views(handled@),
                string_views(skipped@),
                x,
            ),
{
    let mut r: Vec<String> = Vec::new();
    let mut i: usize = 0;
    while i < seen.len()
        invariant
            i <= seen@.len(),
            sorted_strict(string_views(r@)),
            forall|x: Seq<char>|
                #![trigger string_views(r@).contains(x)]
                string_views(r@).contains(x) <==> is_uncovered(
                    string_views(seen@).take(i as int),
                    string_views(handled@),
                    string_views(skipped@),
                    x,
                ),
        decreases seen.len() - i,
    {
        let p = &seen[i];
        let keep = !contains_string(handled, p.as_str()) && !contains_string(skipped, p.as_str());
        let ghost before = string_views(r@);
        if keep {
            insert_sorted_unique(&mut r, p.clone());
        }
        proof {
            assert(string_views(seen@).take(i + 1) =~= string_views(seen@).take(i as int).push(
                p@,
            ));
            assert forall|x: Seq<char>|
                #![trigger string_views(r@).contains(x)]
                string_views(r@).contains(x) <==> is_uncovered(
                    string_views(seen@).take(i + 1),
                    string_views(handled@),
                    string_views(skipped@),
                    x,
                ) by {
                lemma_contains_push(string_views(seen@).take(i as int), p@, x);
                assert(before.contains(x) <==> is_uncovered(
                    string_views(seen@).take(i as int),
                    string_views(handled@),
                    string_views(skipped@),
                    x,
                ));
            }
        }
        i = i + 1;
    }
    assert(string_views(seen@).take(seen@.len() as int) =~= string_views(seen@));
    r
}

/// The first skipped path that is not among the seen ones.
pub open spec fn first_unseen(skipped: Seq<Seq<char>>, seen: Seq<Seq<char>>) -> Option<Seq<char>>
    decreases skipped.len(),
{
    if skipped.len() == 0 {
        None
    } else if !seen.contains(skipped[0]) {
        Some(skipped[0])
    } else {
        first_unseen(skipped.drop_first(), seen)
    }
}

pub open spec fn ci_not_green_msg(names: Seq<Seq<char>>) -> Seq<char> {
    "refusing finalize_session: CI not green ("@ + join(names, ", "@)
        + ") — wait for checks to pass or fix failures first"@
}

pub open spec fn no_report_msg() -> Seq<char> {
    "refusing finalize_session: call github_post_final_report before finalize_session"@
}

pub open spec fn unseen_skip_msg(path: Seq<char>) -> Seq<char> {
    "refusing finalize_session: skipped_review_paths contains "@ + debug_str(path)
        + " which was not in review comments — only cite paths from github_get_pr_state"@
}

pub open spec fn uncovered_msg(paths: Seq<Seq<char>>) -> Seq<char> {
    "refusing finalize_session: review paths not triaged or skipped: "@ + join(paths, ", "@)
        + " — invoke_child_triage on each path or list nitpicks in skipped_review_paths"@
}

/// Any review path left neither handled nor skipped?
pub open spec fn has_uncovered(session: BabysitterSession, skipped: Seq<Seq<char>>) -> bool {
    exists|x: Seq<char>|
        is_uncovered(
            string_views(session.review_paths_seen@),
            string_views(session.review_paths_handled@),
            skipped,
            x,
        )
}

/// Finalizing is allowed only when CI is green, the report was posted, every
/// skipped path was really reviewed, and every reviewed path was triaged or
/// skipped. The first failing condition, in that order, gives the error.
pub fn check_finalize_allowed(
    state: &PrState,
    session: &BabysitterSession,
    skipped_review_paths: &[String],
) -> (r: Result<(), String>)
    ensures
        ({
            let blocking = blocking_names(state.checks@);
            let skipped = string_views(skipped_review_paths@);
            let seen = string_views(session.review_paths_seen@);
            &&& blocking.len() > 0 ==> (r matches Err(e) && e@ == ci_not_green_msg(blocking))
            &&& (blocking.len() == 0 && !session.report_posted) ==> (r matches Err(e) && e@
                == no_report_msg())
            &&& (blocking.len() == 0 && session.report_posted && first_unseen(skipped, seen)
                is Some) ==> (r matches Err(e) && e@ == unseen_skip_msg(
                first_unseen(skipped, seen)->0,
            ))
            &&& (blocking.len() == 0 && session.report_posted && first_unseen(skipped, seen)
                is None && has_uncovered(*session, skipped)) ==> (r matches Err(e) && exists|
                u: Seq<Seq<char>>,
            |
                #![trigger join(u, ", "@)]
                sorted_strict(u) && (forall|x: Seq<char>|
                    u.contains(x) <==> is_uncovered(
                        seen,
                        string_views(session.review_paths_handled@),
                        skipped,
                        x,
                    )) && e@ == uncovered_msg(u))
            &&& (blocking.len() == 0 && session.report_posted && first_unseen(skipped, seen)
                is None && !has_uncovered(*session, skipped)) ==> r is Ok
        }),
{
    let blocking = ci_checks_blocking(&state.checks);
    if blocking.len() > 0 {
        let mut m = "refusing finalize_session: CI not green (".to_owned();
        let names = join_strings(blocking.as_slice(), ", ");
        m.append(names.as_str());
        m.append(") — wait for checks to pass or fix failures first");
        return Err(m);
    }
    if !session.report_posted {
        return Err(
            "refusing finalize_session: call github_post_final_report before finalize_session".to_owned(),
        );
    }
    let ghost seen = string_views(session.review_paths_seen@);
    let ghost skipped = string_views(skipped_review_paths@);
    let mut i: usize = 0;
    assert(skipped.skip(0) =~= skipped);
    while i < skipped_review_paths.len()
        invariant
            i <= skipped.len(),
            skipped == string_views(skipped_review_paths@),
            seen == string_views(session.review_paths_seen@),
            first_unseen(skipped, seen) == first_unseen(skipped.skip(i as int), seen),
            blocking_names(state.checks@).len() == 0,
            session.report_posted,
        decreases skipped_review_paths.len() - i,
    {
        let path = &skipped_review_paths[i];
        assert(skipped.skip(i as int)[0] == path@);
        if !contains_string(session.review_paths_seen.as_slice(), path.as_str()) {
            let mut m = "refusing finalize_session: skipped_review_paths contains ".to_owned();
            let q = debug_quote(path.as_str());
            m.append(q.as_str());
            m.append(" which was not in review comments — only cite paths from github_get_pr_state");
            assert(first_unseen(skipped.skip(i as int), seen) == Some(path@));
            return Err(m);
        }
        assert(skipped.skip(i as int).drop_first() =~= skipped.skip(i + 1));
        i = i + 1;
    }
    let uncovered = uncovered_review_paths(
        session.review_paths_seen.as_slice(),
        session.review_paths_handled.as_slice(),
        skipped_review_paths,
    );
    if uncovered.len() > 0 {
        let mut m = "refusing finalize_session: review paths not triaged or skipped: ".to_owned();
        let list = join_strings(uncovered.as_slice(), ", ");
        m.append(list.as_str());
        m.append(" — invoke_child_triage on each path or list nitpicks in skipped_review_paths");
        proof {
            assert(string_views(uncovered@).contains(string_views(uncovered@)[0]));
        }
        return Err(m);
    }
    proof {
        if has_uncovered(*session, skipped) {
            let x = choose|x: Seq<char>|
                is_uncovered(
                    string_views(session.review_paths_seen@),
                    string_views(session.review_paths_handled@),
                    skipped,
                    x,
                );
            assert(string_views(uncovered@).contains(x));
        }
    }
    Ok(())
}

/// The tools of the babysitter loop, in the order the model sees them.
pub fn babysitter_tool_set() -> (s: LlmToolSet)
    ensures
        crate::llm::tool_names(s) == seq![
            "github_get_pr_state"@,
            "run_log_analyzer"@,
            "invoke_child_triage"@,
            "git_push_changes"@,
            "github_post_final_report"@,
            "finalize_session"@,
        ],
        forall|i: int|
            0 <= i < crate::llm::tool_names(s).len() ==> (crate::harness::harness_terminal(
                crate::harness::HarnessKind::Babysitter,
                #[trigger] crate::llm::tool_names(s)[i],
            ) <==> i == 5),
{
    let s = LlmToolSet::new().register(
        ToolDefinition::new(
            "github_get_pr_state",
            "Fetches remote CI statuses and unresolved PR review comments.",
        ),
    ).register(
        ToolDefinition::new(
            "run_log_analyzer",
            "Analyzes a CI log (local path, https:// URL, or gh-run:<run_id>) and returns root-cause JSON.",
        ).string_param(
            "log_path",
            "Log source: file path, https:// URL, or gh-run:<run_id>.",
            true,
        ),
    ).register(
        ToolDefinition::new(
            "invoke_child_triage",
            "Runs a nested TriageAgent loop on target files with error context from CI or review.",
        ).string_array_param("target_paths", "Files to fix.", true).string_param(
            "error_context",
            "Compile/lint error or review fix context.",
            true,
        ),
    ).register(
        ToolDefinition::new(
            "git_push_changes",
            "Pushes the current branch to origin after child triage reported green builds.",
        ),
    ).register(
        ToolDefinition::new(
            "github_post_final_report",
            "Posts the structured babysitter markdown report as a PR comment.",
        ).string_param("report", "Markdown report body.", true),
    ).register(
        ToolDefinition::new(
            "finalize_session",
            "Ends the babysitter session (terminal).",
        ).string_param("summary", "Optional one-line session summary.", false).string_array_param(
            "skipped_review_paths",
            "Review comment file paths intentionally not triaged ([NITPICK_OR_IGNORE] / [ARCHITECTURAL_DISCUSSION]).",
            false,
        ),
    );
    assert(crate::llm::tool_names(s) =~= seq![
        "github_get_pr_state"@,
        "run_log_analyzer"@,
        "invoke_child_triage"@,
        "git_push_changes"@,
        "github_post_final_report"@,
        "finalize_session"@,
    ]);
    proof {
        reveal_strlit("github_get_pr_state");
        reveal_strlit("run_log_analyzer");
        reveal_strlit("invoke_child_triage");
        reveal_strlit("git_push_changes");
        reveal_strlit("github_post_final_report");
        reveal_strlit("finalize_session");
    }
    assert forall|i: int| 0 <= i < crate::llm::tool_names(s).len() implies (crate::harness::harness_terminal(
        crate::harness::HarnessKind::Babysitter,
        #[trigger] crate::llm::tool_names(s)[i],
    ) <==> i == 5) by {
        if i != 5 {
            assert(crate::llm::tool_names(s)[i][0] != "finalize_session"@[0]);
        }
    }
    s
}

/// The `log_path` argument of `run_log_analyzer`.
pub fn parse_log_path(arguments: &JsonValue) -> (r: Result<String, String>)
    ensures
        match r {
            Ok(s) => get_str(*arguments, "log_path"@) == Some(s@),
            Err(e) => get_str(*arguments, "log_path"@) is None && e@
                == crate::json::not_a_string_msg("log_path"@),
        },
{
    crate::json::required_str(arguments, "log_path")
}

/// The `report` argument of `github_post_final_report`.
pub fn parse_report_body(arguments: &JsonValue) -> (r: Result<String, String>)
    ensures
        match r {
            Ok(s) => get_str(*arguments, "report"@) == Some(s@),
            Err(e) => get_str(*arguments, "report"@) is None && e@
                == crate::json::not_a_string_msg("report"@),
        },
{
    crate::json::required_str(arguments, "report")
}

pub open spec fn missing_targets_msg() -> Seq<char> {
    "target_paths array is required"@
}

pub open spec fn empty_targets_msg() -> Seq<char> {
    "target_paths must not be empty"@
}

/// The arguments of `invoke_child_triage`: the string items of
/// `target_paths` (at least one) and the `error_context`.
pub fn parse_triage_arguments(arguments: &JsonValue) -> (r: Result<(Vec<String>, String), String>)
    ensures
        match get_array(*arguments, "target_paths"@) {
            None => r matches Err(e) && e@ == missing_targets_msg(),
            Some(items) => if crate::json::string_items(items).len() == 0 {
                r matches Err(e) && e@ == empty_targets_msg()
            } else {
                match get_str(*arguments, "error_context"@) {
                    Some(c) => r matches Ok((ps, ctx)) && string_views(ps@)
                        == crate::json::string_items(items) && ctx@ == c,
                    None => r matches Err(e) && e@ == crate::json::not_a_string_msg(
                        "error_context"@,
                    ),
                }
            },
        },
{
    let items = match crate::json::get_array_exec(arguments, "target_paths") {
        Some(a) => a,
        None => {
            return Err("target_paths array is required".to_owned());
        },
    };
    let paths = crate::json::collect_strings(items);
    if paths.len() == 0 {
        return Err("target_paths must not be empty".to_owned());
    }
    match crate::json::required_str(arguments, "error_context") {
        Ok(c) => Ok((paths, c)),
        Err(e) => Err(e),
    }
}

/// The arguments of `finalize_session`: an optional summary and the string
/// items of `skipped_review_paths` (none when absent).
pub fn parse_finalize_arguments(arguments: &JsonValue) -> (r: Result<
    (Option<String>, Vec<String>),
    String,
>)
    ensures
        r matches Ok((summary, skipped)) && crate::planner::opt_view(summary) == get_str(
            *arguments,
            "summary"@,
        ) && string_views(skipped@) == match get_array(*arguments, "skipped_review_paths"@) {
            Some(items) => crate::json::string_items(items),
            None => seq![],
        },
{
    let summary = match crate::json::get_str_exec(arguments, "summary") {
        Some(s) => Some(s.to_owned()),
        None => None,
    };
    let skipped = match crate::json::get_array_exec(arguments, "skipped_review_paths") {
        Some(items) => crate::json::collect_strings(items),
        None => {
            let v: Vec<String> = Vec::new();
            assert(string_views(v@) =~= seq![]);
            v
        },
    };
    Ok((summary, skipped))
}

} // verus!
