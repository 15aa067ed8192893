//! The babysitter agent's own steps: its prompt, the action it takes for
//! each tool the model calls (performed by the caller), and the rule that
//! a push waits for a passing triage.
use vstd::prelude::*;

use crate::babysitter::{parse_finalize_arguments, parse_log_path, parse_report_body, parse_triage_arguments};
use crate::json::{get_array, get_str, JsonValue};
use crate::llm::{AgentContext, LlmClient};
use crate::text::{contains, decimal, fmt_u64, str_contains, str_eq, string_views};

verus! {

pub const BABYSITTER_SYSTEM_PROMPT: &'static str = r#"You are the BabysitterAgent (PHASE_BABYSITTER), a high-level orchestrator inside mcp-adjutant. Drive the assigned GitHub PR to mergeable state (green CI, resolved actionable reviews).

Every turn: reply with a short Thought, then call exactly ONE tool.

Orchestration rules:
1. Start with github_get_pr_state.
2. CI failure -> run_log_analyzer on gh-run:<id> from state, then invoke_child_triage for straightforward compile/lint errors.
2b. CI green but review line comments exist -> invoke_child_triage on cited paths (CodeRabbit/bot inline comments are FIXABLE_ACTION by default).
3. Review comments: [FIXABLE_ACTION] -> invoke_child_triage; [ARCHITECTURAL_DISCUSSION] / [NITPICK_OR_IGNORE] -> skip (note in finalize report).
4. Never git_push_changes until the latest invoke_child_triage observation contains [TRIAGE PASS].
5. When done: github_post_final_report, then finalize_session with skipped_review_paths for any review paths not triaged ([NITPICK_OR_IGNORE] / [ARCHITECTURAL_DISCUSSION]).

Available tools: github_get_pr_state, run_log_analyzer, invoke_child_triage, git_push_changes, github_post_final_report, finalize_session."#;

pub const BABYSITTER_MAX_ITERATIONS: u32 = 20;

pub const CHILD_TRIAGE_MAX_ITERATIONS: u32 = 5;

/// Adds the babysitter prompt (once) and the PR number and turn budget.
pub fn babysitter_enrich_context(context: &mut AgentContext, pr_number: u64)
    ensures
        final(context).input_prompt@ == (if contains(old(context).input_prompt@, "PHASE_BABYSITTER"@) {
            old(context).input_prompt@
        } else {
            old(context).input_prompt@ + "\n\n"@ + BABYSITTER_SYSTEM_PROMPT@
        }) + "\n\nPR number: "@ + decimal(pr_number as nat) + "\nMax iterations: "@ + decimal(
            old(context).max_iterations as nat,
        ) + "\n"@,
        final(context).accumulated_data == old(context).accumulated_data,
        final(context).max_iterations == old(context).max_iterations,
{
    if !str_contains(context.input_prompt.as_str(), "PHASE_BABYSITTER") {
        context.input_prompt.append("\n\n");
        context.input_prompt.append(BABYSITTER_SYSTEM_PROMPT);
    }
    context.input_prompt.append("\n\nPR number: ");
    context.input_prompt.append(fmt_u64(pr_number).as_str());
    context.input_prompt.append("\nMax iterations: ");
    context.input_prompt.append(fmt_u64(context.max_iterations as u64).as_str());
    context.input_prompt.append("\n");
}

pub const BABYSITTER_FINAL_TURN: &'static str = "\nFinal turn: post report if needed, then call finalize_session.";

pub const BABYSITTER_CONTINUE: &'static str = "\nContinue babysitting. Call exactly one harness tool.";

/// Before the next turn the prompt asks for one more tool, or, on the last
/// turn, for the report and `finalize_session`.
pub fn babysitter_mutate_next_iteration(context: &mut AgentContext)
    ensures
        final(context).input_prompt@ == old(context).input_prompt@ + if old(context).iterations >= (
        if old(context).max_iterations >= 1 {
            old(context).max_iterations - 1
        } else {
            0
        }) {
            BABYSITTER_FINAL_TURN@
        } else {
            BABYSITTER_CONTINUE@
        },
        final(context).accumulated_data == old(context).accumulated_data,
{
    if context.iterations >= context.max_iterations.saturating_sub(1) {
        context.input_prompt.append(BABYSITTER_FINAL_TURN);
    } else {
        context.input_prompt.append(BABYSITTER_CONTINUE);
    }
}

/// The prompt of a child triage launched for the PR.
pub fn child_triage_prompt(error_context: &str) -> (r: String)
    ensures
        r@ == "invoke_child_triage\n\n"@ + crate::triage_agent::TRIAGE_SYSTEM_PROMPT@ + "\n\nError context:\n"@
            + error_context@,
{
    let mut p = "invoke_child_triage\n\n".to_owned();
    p.append(crate::triage_agent::TRIAGE_SYSTEM_PROMPT);
    p.append("\n\nError context:\n");
    p.append(error_context);
    p
}

/// What a child triage reports back: the pass report when it passed, else
/// how far it got and its data.
pub open spec fn child_triage_observation_spec(triage: AgentContext, paths: Seq<Seq<char>>) -> Seq<char> {
    if crate::report::triage_passed_spec(triage.input_prompt@) {
        crate::report::triage_success_spec(triage.accumulated_data@, triage.iterations, paths)
    } else {
        "[TRIAGE INCOMPLETE] finished="@ + (if triage.is_finished {
            "true"@
        } else {
            "false"@
        }) + " iterations="@ + decimal(triage.iterations as nat) + "\n"@ + triage.accumulated_data@
    }
}

/// The observation of a child triage, and whether it passed (which opens the
/// push gate).
pub fn child_triage_observation(triage: &AgentContext, paths: &[String]) -> (r: (String, bool))
    ensures
        r.0@ == child_triage_observation_spec(*triage, string_views(paths@)),
        r.1 == crate::report::triage_passed_spec(triage.input_prompt@),
{
    if crate::report::triage_passed(triage) {
        return (crate::report::format_triage_success(triage, paths), true);
    }
    let mut s = "[TRIAGE INCOMPLETE] finished=".to_owned();
    if triage.is_finished {
        s.append("true");
    } else {
        s.append("false");
    }
    s.append(" iterations=");
    s.append(fmt_u64(triage.iterations as u64).as_str());
    s.append("\n");
    s.append(triage.accumulated_data.as_str());
    (s, false)
}

/// What the babysitter does for one tool call; the caller performs it.
pub enum BabysitterAction {
    /// Read the PR state (and check the branch is its head).
    FetchPrState,
    /// Analyze the CI log at `log_path`.
    AnalyzeLog { log_path: String },
    /// Triage these paths with this error context.
    ChildTriage { paths: Vec<String>, error_context: String },
    /// Push the branch (the latest child triage passed).
    Push,
    /// Post this report to the PR.
    PostReport { body: String },
    /// Finalize the session with this summary, skipping these review paths.
    Finalize { summary: String, skipped: Vec<String> },
}

pub open spec fn push_refused_msg() -> Seq<char> {
    "refusing git_push_changes: child triage has not passed locally yet"@
}

/// What an action is, as plain values.
pub enum ActionView {
    FetchPrState,
    AnalyzeLog(Seq<char>),
    ChildTriage(Seq<Seq<char>>, Seq<char>),
    Push,
    PostReport(Seq<char>),
    Finalize(Seq<char>, Seq<Seq<char>>),
}

pub open spec fn action_view(a: BabysitterAction) -> ActionView {
    match a {
        BabysitterAction::FetchPrState => ActionView::FetchPrState,
        BabysitterAction::AnalyzeLog { log_path } => ActionView::AnalyzeLog(log_path@),
        BabysitterAction::ChildTriage { paths, error_context } => ActionView::ChildTriage(
            string_views(paths@),
            error_context@,
        ),
        BabysitterAction::Push => ActionView::Push,
        BabysitterAction::PostReport { body } => ActionView::PostReport(body@),
        BabysitterAction::Finalize { summary, skipped } => ActionView::Finalize(summary@, string_views(skipped@)),
    }
}

pub open spec fn default_summary() -> Seq<char> {
    "babysitter session complete"@
}

/// The babysitter's reading of a tool call: the action, or why there is none.
/// `triage_green` says whether the latest child triage passed.
pub open spec fn babysitter_action_spec(name: Seq<char>, args: JsonValue, triage_green: bool) -> Result<
    ActionView,
    Seq<char>,
> {
    if name == "github_get_pr_state"@ {
        Ok(ActionView::FetchPrState)
    } else if name == "run_log_analyzer"@ {
        match get_str(args, "log_path"@) {
            Some(p) => Ok(ActionView::AnalyzeLog(p)),
            None => Err(crate::json::not_a_string_msg("log_path"@)),
        }
    } else if name == "invoke_child_triage"@ {
        match get_array(args, "target_paths"@) {
            None => Err(crate::babysitter::missing_targets_msg()),
            Some(items) => if crate::json::string_items(items).len() == 0 {
                Err(crate::babysitter::empty_targets_msg())
            } else {
                match get_str(args, "error_context"@) {
                    Some(c) => Ok(ActionView::ChildTriage(crate::json::string_items(items), c)),
                    None => Err(crate::json::not_a_string_msg("error_context"@)),
                }
            },
        }
    } else if name == "git_push_changes"@ {
        if triage_green {
            Ok(ActionView::Push)
        } else {
            Err(push_refused_msg())
        }
    } else if name == "github_post_final_report"@ {
        match get_str(args, "report"@) {
            Some(b) => Ok(ActionView::PostReport(b)),
            None => Err(crate::json::not_a_string_msg("report"@)),
        }
    } else if name == "finalize_session"@ {
        Ok(
            ActionView::Finalize(
                match get_str(args, "summary"@) {
                    Some(x) => x,
                    None => default_summary(),
                },
                match get_array(args, "skipped_review_paths"@) {
                    Some(items) => crate::json::string_items(items),
                    None => seq![],
                },
            ),
        )
    } else {
        Err("unsupported babysitter tool: "@ + name)
    }
}

/// Reads a tool call of the babysitter's model as an action for the caller.
pub fn babysitter_action(name: &str, args: &JsonValue, triage_green: bool) -> (r: Result<BabysitterAction, String>)
    ensures
        match babysitter_action_spec(name@, *args, triage_green) {
            Ok(v) => r matches Ok(a) && action_view(a) == v,
            Err(e) => r matches Err(x) && x@ == e,
        },
{
    if str_eq(name, "github_get_pr_state") {
        Ok(BabysitterAction::FetchPrState)
    } else if str_eq(name, "run_log_analyzer") {
        match parse_log_path(args) {
            Ok(p) => Ok(BabysitterAction::AnalyzeLog { log_path: p }),
            Err(e) => Err(e),
        }
    } else if str_eq(name, "invoke_child_triage") {
        match parse_triage_arguments(args) {
            Ok((paths, error_context)) => Ok(BabysitterAction::ChildTriage { paths, error_context }),
            Err(e) => Err(e),
        }
    } else if str_eq(name, "git_push_changes") {
        if triage_green {
            Ok(BabysitterAction::Push)
        } else {
            Err("refusing git_push_changes: child triage has not passed locally yet".to_owned())
        }
    } else if str_eq(name, "github_post_final_report") {
        match parse_report_body(args) {
            Ok(b) => Ok(BabysitterAction::PostReport { body: b }),
            Err(e) => Err(e),
        }
    } else if str_eq(name, "finalize_session") {
        let (summary, skipped) = match parse_finalize_arguments(args) {
            Ok(t) => t,
            Err(e) => {
                return Err(e);
            },
        };
        let summary = match summary {
            Some(x) => x,
            None => "babysitter session complete".to_owned(),
        };
        Ok(BabysitterAction::Finalize { summary, skipped })
    } else {
        let mut e = "unsupported babysitter tool: ".to_owned();
        e.append(name);
        Err(e)
    }
}

/// What the babysitter records of a tool call and its observation; a
/// finalized session keeps only its summary.
pub fn record_babysitter_step(
    context: &mut AgentContext,
    thought: &str,
    name: &str,
    args: &str,
    observation: String,
)
    ensures
        final(context).accumulated_data@ == if name@ == "finalize_session"@ {
            observation@
        } else {
            old(context).accumulated_data@ + crate::orchestrator::tool_step(thought@, name@, args@, observation@)
        },
        final(context).input_prompt == old(context).input_prompt,
        final(context).is_finished == old(context).is_finished,
{
    if str_eq(name, "finalize_session") {
        context.accumulated_data = observation;
        return;
    }
    let ghost before = context.accumulated_data@;
    context.accumulated_data.append("Thought:\n");
    context.accumulated_data.append(thought);
    context.accumulated_data.append("\nTool: ");
    context.accumulated_data.append(name);
    context.accumulated_data.append("(");
    context.accumulated_data.append(args);
    context.accumulated_data.append(")\nObservation:\n");
    context.accumulated_data.append(observation.as_str());
    context.accumulated_data.append("\n");
    assert(context.accumulated_data@ =~= before + crate::orchestrator::tool_step(thought@, name@, args@, observation@));
}

/// A session allowed to finalize ends the run.
pub fn finalize_babysitter(context: &mut AgentContext)
    ensures
        final(context).is_finished,
        final(context).agent_completed,
        final(context).accumulated_data == old(context).accumulated_data,
        final(context).input_prompt == old(context).input_prompt,
{
    context.is_finished = true;
    context.agent_completed = true;
}

/// What a babysitter turn hands back for what asking the model gave (`c`):
/// its failure, no call, or the call with the action it reads as (or the
/// error of a call that reads as none).
pub open spec fn babysitter_turn_outcome(
    c: Result<Option<(String, String, String, JsonValue)>, String>,
    triage_green: bool,
    r: Result<Option<(String, String, String, BabysitterAction)>, String>,
) -> bool {
    match c {
        Err(e) => r matches Err(x) && x@ == e@,
        Ok(None) => r matches Ok(None),
        Ok(Some((n, a, th, p))) => match babysitter_action_spec(n@, p, triage_green) {
            Ok(v) => r matches Ok(Some((n2, a2, th2, act))) && n2@ == n@ && a2@ == a@ && th2@ == th@
                && action_view(act) == v,
            Err(e) => r matches Err(x) && x@ == e,
        },
    }
}

/// One babysitter turn up to the action: the model is asked for one tool with
/// the tool-turn request (see `next_tool_call`), and the call is handed back (name, arguments as `call_text` writes them,
/// thought) with the action the caller must perform, or the error that ends
/// the turn. Whatever the model replies, the turn is `next_call_effect` of the
/// reply followed by `babysitter_turn_outcome`.
pub fn babysitter_turn<C: LlmClient>(
    client: &C,
    tools: &crate::llm::LlmToolSet,
    context: &mut AgentContext,
    triage_green: bool,
) -> (r: Result<Option<(String, String, String, BabysitterAction)>, String>)
    ensures
        exists|reply: Result<crate::llm::LlmModelTurn, String>, c: Result<Option<(String, String, String, JsonValue)>, String>|
            crate::orchestrator::tool_loop_asked(client, BABYSITTER_SYSTEM_PROMPT@, *tools, *old(context), reply)
                && #[trigger] crate::orchestrator::next_call_effect(*old(context), *final(context), reply, c)
                && babysitter_turn_outcome(c, triage_green, r),
        final(context).input_prompt == old(context).input_prompt,
        final(context).is_finished == old(context).is_finished,
        r matches Ok(Some((n, a, _, act))) ==> final(context).last_tool_call matches Some((x, y)) && x@ == n@
            && y@ == a@ && !crate::orchestrator::is_repeat_call(old(context).last_tool_call, n@, a@)
            && exists|args: JsonValue| #[trigger] babysitter_action_spec(n@, args, triage_green) == Ok::<
                ActionView,
                Seq<char>,
            >(action_view(act)),
        r matches Ok(None) ==> final(context).last_tool_call == old(context).last_tool_call,
{
    let called = crate::orchestrator::next_tool_call(client, BABYSITTER_SYSTEM_PROMPT, tools, context);
    let ghost cv = called;
    let ghost reply = choose|reply: Result<crate::llm::LlmModelTurn, String>|
        crate::orchestrator::tool_loop_asked(client, BABYSITTER_SYSTEM_PROMPT@, *tools, *old(context), reply)
            && crate::orchestrator::next_call_effect(*old(context), *context, reply, cv);
    assert(crate::orchestrator::tool_loop_asked(client, BABYSITTER_SYSTEM_PROMPT@, *tools, *old(context), reply));
    assert(crate::orchestrator::next_call_effect(*old(context), *context, reply, cv));
    let called = match called {
        Ok(c) => c,
        Err(e) => {
            let r = Err(e);
            assert(babysitter_turn_outcome(cv, triage_green, r));
            return r;
        },
    };
    match called {
        None => {
            let r = Ok(None);
            assert(babysitter_turn_outcome(cv, triage_green, r));
            r
        },
        Some((name, arguments, thought, parsed)) => {
            let action = match babysitter_action(name.as_str(), &parsed, triage_green) {
                Ok(a) => a,
                Err(e) => {
                    let r = Err(e);
                    assert(babysitter_turn_outcome(cv, triage_green, r));
                    return r;
                },
            };
            assert(babysitter_action_spec(name@, parsed, triage_green) == Ok::<ActionView, Seq<char>>(
                action_view(action),
            ));
            let r = Ok(Some((name, arguments, thought, action)));
            assert(babysitter_turn_outcome(cv, triage_green, r));
            r
        },
    }
}

} // verus!
