//! The transpiler agent's own steps: the action it takes for each tool the
//! model calls (performed by the caller), the paths and error context its
//! child triage gets, and what it reports of that triage.
use vstd::prelude::*;

use crate::build_runs::{BuildCommandRunner, BuildResult};
use crate::json::{get_array, get_str, JsonValue};
use crate::llm::{AgentContext, LlmClient};
use crate::paths::{path_eq, path_eq_exec};
use crate::project::{resolve_workspace_path, workspace_path_spec};
use crate::text::{decimal_int, fmt_i64, fmt_u64, str_eq, string_views};
use crate::transpiler::{finalize_sync_summary, parse_report_reason, parse_write_arguments, TRANSPILER_SYSTEM_PROMPT};

verus! {

/// What the transpiler does for one tool call; the caller performs it.
pub enum TranspilerAction {
    /// Write `content` to `path` (after the write rules are checked).
    WriteTarget { path: String, content: String },
    /// Triage these paths with this error context.
    ChildTriage { paths: Vec<String>, error_context: String },
    /// Finish: the sync is done.
    Finalize { summary: String },
    /// Finish: the sync cannot be done, for this reason.
    ReportError { reason: String },
}

/// What an action is, as plain values.
pub enum TranspilerActionView {
    WriteTarget(Seq<char>, Seq<char>),
    ChildTriage(Seq<Seq<char>>, Seq<char>),
    Finalize(Seq<char>),
    ReportError(Seq<char>),
}

pub open spec fn transpiler_action_view(a: TranspilerAction) -> TranspilerActionView {
    match a {
        TranspilerAction::WriteTarget { path, content } => TranspilerActionView::WriteTarget(path@, content@),
        TranspilerAction::ChildTriage { paths, error_context } => TranspilerActionView::ChildTriage(
            string_views(paths@),
            error_context@,
        ),
        TranspilerAction::Finalize { summary } => TranspilerActionView::Finalize(summary@),
        TranspilerAction::ReportError { reason } => TranspilerActionView::ReportError(reason@),
    }
}

/// Some path of `paths` is the same path as `p`.
pub open spec fn has_path(paths: Seq<Seq<char>>, p: Seq<char>) -> bool {
    exists|j: int| 0 <= j < paths.len() && path_eq(#[trigger] paths[j], p)
}

/// The paths a child triage gets: the model's paths resolved against the
/// workspace root, with the target added when none of them is it.
pub open spec fn child_paths_spec(paths: Seq<Seq<char>>, root: Seq<char>, target: Seq<char>) -> Seq<Seq<char>> {
    let resolved = paths.map_values(|p: Seq<char>| workspace_path_spec(root, p));
    if has_path(resolved, target) {
        resolved
    } else {
        resolved.push(target)
    }
}

/// The transpiler's reading of a tool call. `triage_green` says whether the
/// latest child triage passed (finalizing needs it).
pub open spec fn transpiler_action_spec(
    name: Seq<char>,
    args: JsonValue,
    triage_green: bool,
    root: Seq<char>,
    target: Seq<char>,
) -> Result<TranspilerActionView, Seq<char>> {
    if name == "write_target_file"@ {
        match (get_str(args, "path"@), get_str(args, "content"@)) {
            (Some(p), Some(c)) => Ok(TranspilerActionView::WriteTarget(p, c)),
            (None, _) => Err(crate::json::not_a_string_msg("path"@)),
            (Some(_), None) => Err(crate::json::not_a_string_msg("content"@)),
        }
    } else if name == "invoke_child_triage"@ {
        match get_array(args, "target_paths"@) {
            None => Err(crate::babysitter::missing_targets_msg()),
            Some(items) => if crate::json::string_items(items).len() == 0 {
                Err(crate::babysitter::empty_targets_msg())
            } else {
                match get_str(args, "error_context"@) {
                    Some(c) => Ok(
                        TranspilerActionView::ChildTriage(
                            child_paths_spec(crate::json::string_items(items), root, target),
                            c,
                        ),
                    ),
                    None => Err(crate::json::not_a_string_msg("error_context"@)),
                }
            },
        }
    } else if name == "finalize_sync"@ {
        if triage_green {
            Ok(
                TranspilerActionView::Finalize(
                    match get_str(args, "summary"@) {
                        Some(s) => s,
                        None => "type sync complete"@,
                    },
                ),
            )
        } else {
            Err("refusing finalize_sync: invoke_child_triage has not passed yet"@)
        }
    } else if name == "report_error"@ {
        match get_str(args, "reason"@) {
            Some(r) => Ok(TranspilerActionView::ReportError(r)),
            None => Err(crate::json::not_a_string_msg("reason"@)),
        }
    } else {
        Err("unsupported transpiler tool: "@ + name)
    }
}

/// Resolves the model's triage paths and adds the target when it is missing.
pub fn child_triage_paths(paths: &[String], workspace_root: &str, target_path: &str) -> (r: Vec<String>)
    ensures
        string_views(r@) == child_paths_spec(string_views(paths@), workspace_root@, target_path@),
{
    let ghost resolved = string_views(paths@).map_values(|p: Seq<char>| workspace_path_spec(workspace_root@, p));
    let mut out: Vec<String> = Vec::new();
    let mut found = false;
    let mut i: usize = 0;
    while i < paths.len()
        invariant
            i <= paths@.len(),
            resolved == string_views(paths@).map_values(|p: Seq<char>| workspace_path_spec(workspace_root@, p)),
            string_views(out@) == resolved.take(i as int),
            found == has_path(resolved.take(i as int), target_path@),
        decreases paths.len() - i,
    {
        let r = resolve_workspace_path(workspace_root, paths[i].as_str());
        let hit = path_eq_exec(r.as_str(), target_path);
        let ghost rv = r@;
        let ghost before = string_views(out@);
        out.push(r);
        proof {
            assert(resolved[i as int] == rv);
            assert(resolved.take(i + 1) =~= resolved.take(i as int).push(rv));
            assert(string_views(out@) =~= before.push(rv));
            if has_path(resolved.take(i + 1), target_path@) && !hit {
                let j = choose|j: int| 0 <= j < i + 1 && path_eq(#[trigger] resolved.take(i + 1)[j], target_path@);
                assert(j < i);
                assert(resolved.take(i as int)[j] == resolved.take(i + 1)[j]);
            }
            if found {
                let j = choose|j: int| 0 <= j < i && path_eq(#[trigger] resolved.take(i as int)[j], target_path@);
                assert(resolved.take(i + 1)[j] == resolved.take(i as int)[j]);
            }
            if hit {
                assert(resolved.take(i + 1)[i as int] == rv);
            }
        }
        found = found || hit;
        i = i + 1;
    }
    assert(resolved.take(paths@.len() as int) =~= resolved);
    if !found {
        let t = target_path.to_owned();
        out.push(t);
    }
    out
}

/// Reads a tool call of the transpiler's model as an action for the caller.
pub fn transpiler_action(
    name: &str,
    args: &JsonValue,
    triage_green: bool,
    workspace_root: &str,
    target_path: &str,
) -> (r: Result<TranspilerAction, String>)
    ensures
        match transpiler_action_spec(name@, *args, triage_green, workspace_root@, target_path@) {
            Ok(v) => r matches Ok(a) && transpiler_action_view(a) == v,
            Err(e) => r matches Err(x) && x@ == e,
        },
{
    if str_eq(name, "write_target_file") {
        match parse_write_arguments(args) {
            Ok((path, content)) => Ok(TranspilerAction::WriteTarget { path, content }),
            Err(e) => Err(e),
        }
    } else if str_eq(name, "invoke_child_triage") {
        match crate::babysitter::parse_triage_arguments(args) {
            Ok((paths, error_context)) => {
                let resolved = child_triage_paths(paths.as_slice(), workspace_root, target_path);
                Ok(TranspilerAction::ChildTriage { paths: resolved, error_context })
            },
            Err(e) => Err(e),
        }
    } else if str_eq(name, "finalize_sync") {
        if !triage_green {
            return Err("refusing finalize_sync: invoke_child_triage has not passed yet".to_owned());
        }
        Ok(TranspilerAction::Finalize { summary: finalize_sync_summary(args) })
    } else if str_eq(name, "report_error") {
        match parse_report_reason(args) {
            Ok(r) => Ok(TranspilerAction::ReportError { reason: r }),
            Err(e) => Err(e),
        }
    } else {
        let mut e = "unsupported transpiler tool: ".to_owned();
        e.append(name);
        Err(e)
    }
}


pub open spec fn opt_view(o: Option<String>) -> Option<Seq<char>> {
    match o {
        Some(s) => Some(s@),
        None => None,
    }
}

/// The error context a child triage gets: with a verify command, how to
/// verify and, when the verify fails now (`pre` is its run), its output.
pub open spec fn child_context_spec(
    error_context: Seq<char>,
    workspace: Seq<char>,
    command: Option<Seq<char>>,
    pre: Result<BuildResult, String>,
) -> Seq<char> {
    match command {
        None => error_context,
        Some(c) => {
            let base = "Verify with: cd "@ + workspace + " && "@ + c + "\n\n"@ + error_context;
            match pre {
                Ok(b) => if !b.success {
                    base + "\n\nLatest verify output:\n"@ + b.output@
                } else {
                    base
                },
                Err(e) => base + "\n\nLatest verify output:\n"@ + e@,
            }
        },
    }
}

/// Builds the error context of a child triage, running the verify command
/// (in the verify workspace) first when there is one; whatever the runner
/// reports for it, the context is `child_context_spec` of that run.
pub fn child_triage_context<B: BuildCommandRunner>(
    runner: &B,
    error_context: &str,
    verify_workspace: &str,
    verify_command: &Option<String>,
) -> (r: String)
    ensures
        verify_command is None ==> r@ == error_context@,
        exists|pre: Result<BuildResult, String>|
            r@ == #[trigger] child_context_spec(error_context@, verify_workspace@, opt_view(*verify_command), pre)
                && (verify_command matches Some(c) ==> runner.ran(verify_workspace@, c@, pre)),
{
    match verify_command {
        None => {
            let r = error_context.to_owned();
            let no_run: Result<BuildResult, String> = Err(String::new());
            assert(r@ == child_context_spec(error_context@, verify_workspace@, opt_view(*verify_command), no_run));
            r
        },
        Some(c) => {
            let mut block = "Verify with: cd ".to_owned();
            block.append(verify_workspace);
            block.append(" && ");
            block.append(c.as_str());
            block.append("\n\n");
            block.append(error_context);
            let pre = runner.run_build_command(verify_workspace, c.as_str());
            match &pre {
                Ok(b) => {
                    if !b.success {
                        block.append("\n\nLatest verify output:\n");
                        block.append(b.output.as_str());
                    }
                },
                Err(e) => {
                    block.append("\n\nLatest verify output:\n");
                    block.append(e.as_str());
                },
            }
            assert(block@ == child_context_spec(error_context@, verify_workspace@, opt_view(*verify_command), pre));
            block
        },
    }
}

/// What a failed child triage adds from the verify command run after it.
pub open spec fn verify_extra_spec(r: Result<BuildResult, String>) -> Seq<char> {
    match r {
        Ok(b) => if b.success {
            "\n\nVerify output:\n"@ + b.output@
        } else {
            "\n\nVerify still failing (exit "@ + decimal_int(b.exit_code as int) + "):\n"@ + b.output@
        },
        Err(e) => "\n\nVerify spawn error:\n"@ + e@,
    }
}

/// What the transpiler reports of a child triage: the pass report, or how far
/// it got, its data and (with a verify command) the verify run after it.
pub open spec fn child_report_spec(triage: AgentContext, extra: Seq<char>) -> Seq<char> {
    if crate::report::triage_passed_spec(triage.input_prompt@) {
        crate::report::triage_success_spec(triage.accumulated_data@, triage.iterations, seq![])
    } else {
        "[TRIAGE INCOMPLETE] finished="@ + (if triage.is_finished {
            "true"@
        } else {
            "false"@
        }) + " iterations="@ + crate::text::decimal(triage.iterations as nat) + "\n"@
            + triage.accumulated_data@ + extra
    }
}

/// Reports a child triage, and whether it passed. A failed one is followed by
/// the verify command, when there is one; whatever that reports, the report is
/// `child_report_spec` of it.
pub fn child_triage_report<B: BuildCommandRunner>(
    runner: &B,
    triage: &AgentContext,
    verify_workspace: &str,
    verify_command: &Option<String>,
) -> (r: (String, bool))
    ensures
        r.1 == crate::report::triage_passed_spec(triage.input_prompt@),
        r.1 || verify_command is None ==> r.0@ == child_report_spec(*triage, Seq::empty()),
        exists|extra: Seq<char>| r.0@ == #[trigger] child_report_spec(*triage, extra) && (extra.len() == 0
            || exists|v: Result<BuildResult, String>|
            extra == #[trigger] verify_extra_spec(v) && (verify_command matches Some(c) && runner.ran(
                verify_workspace@,
                c@,
                v,
            ))),
{
    if crate::report::triage_passed(triage) {
        let e: Vec<String> = Vec::new();
        assert(string_views(e@) =~= seq![]);
        let s = crate::report::format_triage_success(triage, e.as_slice());
        assert(s@ == child_report_spec(*triage, Seq::empty()));
        return (s, true);
    }
    let mut s = "[TRIAGE INCOMPLETE] finished=".to_owned();
    if triage.is_finished {
        s.append("true");
    } else {
        s.append("false");
    }
    s.append(" iterations=");
    s.append(fmt_u64(triage.iterations as u64).as_str());
    s.append("\n");
    s.append(triage.accumulated_data.as_str());
    match verify_command {
        None => {
            assert(s@ =~= child_report_spec(*triage, Seq::empty()));
            (s, false)
        },
        Some(c) => {
            let v = runner.run_build_command(verify_workspace, c.as_str());
            let ghost before = s@;
            match &v {
                Ok(b) => {
                    if b.success {
                        s.append("\n\nVerify output:\n");
                        s.append(b.output.as_str());
                    } else {
                        s.append("\n\nVerify still failing (exit ");
                        s.append(fmt_i64(b.exit_code as i64).as_str());
                        s.append("):\n");
                        s.append(b.output.as_str());
                    }
                },
                Err(e) => {
                    s.append("\n\nVerify spawn error:\n");
                    s.append(e.as_str());
                },
            }
            assert(s@ =~= before + verify_extra_spec(v));
            assert(s@ =~= child_report_spec(*triage, verify_extra_spec(v)));
            (s, false)
        },
    }
}

/// What the transpiler records of a tool call and its observation; a finished
/// sync (finalized or reported as impossible) keeps only its observation.
pub fn record_transpiler_step(
    context: &mut AgentContext,
    thought: &str,
    name: &str,
    args: &str,
    observation: String,
)
    ensures
        final(context).accumulated_data@ == if name@ == "finalize_sync"@ || name@ == "report_error"@ {
            observation@
        } else {
            old(context).accumulated_data@ + crate::orchestrator::tool_step(thought@, name@, args@, observation@)
        },
        final(context).input_prompt == old(context).input_prompt,
        final(context).is_finished == old(context).is_finished,
{
    if str_eq(name, "finalize_sync") || str_eq(name, "report_error") {
        context.accumulated_data = observation;
        return;
    }
    let ghost before = context.accumulated_data@;
    context.accumulated_data.append("Thought:\n");
    context.accumulated_data.append(thought);
    context.accumulated_data.append("\nTool: ");
    context.accumulated_data.append(name);
    context.accumulated_data.append("(");
    context.accumulated_data.append(args);
    context.accumulated_data.append(")\nObservation:\n");
    context.accumulated_data.append(observation.as_str());
    context.accumulated_data.append("\n");
    assert(context.accumulated_data@ =~= before + crate::orchestrator::tool_step(thought@, name@, args@, observation@));
}

/// Ends the run on `finalize_sync` (completed) or `report_error` (not
/// completed; the reason becomes the data).
pub fn finish_transpiler(context: &mut AgentContext, action: &TranspilerAction)
    ensures
        match action {
            TranspilerAction::Finalize { .. } => final(context).is_finished && final(context).agent_completed
                && final(context).accumulated_data == old(context).accumulated_data,
            TranspilerAction::ReportError { reason } => final(context).is_finished
                && !final(context).agent_completed && final(context).accumulated_data@ == reason@,
            _ => final(context).is_finished == old(context).is_finished && final(context).agent_completed
                == old(context).agent_completed && final(context).accumulated_data == old(context).accumulated_data,
        },
        final(context).input_prompt == old(context).input_prompt,
{
    match action {
        TranspilerAction::Finalize { .. } => {
            context.is_finished = true;
            context.agent_completed = true;
        },
        TranspilerAction::ReportError { reason } => {
            context.is_finished = true;
            context.agent_completed = false;
            context.accumulated_data = reason.clone();
        },
        _ => {},
    }
}


/// What a transpiler turn hands back for what asking the model gave (`c`):
/// its failure, no call, or the call with the action it reads as (or the
/// error of a call that reads as none).
pub open spec fn transpiler_turn_outcome(
    c: Result<Option<(String, String, String, JsonValue)>, String>,
    triage_green: bool,
    root: Seq<char>,
    target: Seq<char>,
    r: Result<Option<(String, String, String, TranspilerAction)>, String>,
) -> bool {
    match c {
        Err(e) => r matches Err(x) && x@ == e@,
        Ok(None) => r matches Ok(None),
        Ok(Some((n, a, th, p))) => match transpiler_action_spec(n@, p, triage_green, root, target) {
            Ok(v) => r matches Ok(Some((n2, a2, th2, act))) && n2@ == n@ && a2@ == a@ && th2@ == th@
                && transpiler_action_view(act) == v,
            Err(e) => r matches Err(x) && x@ == e,
        },
    }
}

/// One transpiler turn up to the action: the model is asked for one tool with
/// the tool-turn request (see `next_tool_call`), and the call is handed back (name, arguments as `call_text` writes them,
/// thought) with the action the caller must perform, or the error that ends
/// the turn. Whatever the model replies, the turn is `next_call_effect` of the
/// reply followed by `transpiler_turn_outcome`.
pub fn transpiler_turn<C: LlmClient>(
    client: &C,
    tools: &crate::llm::LlmToolSet,
    context: &mut AgentContext,
    triage_green: bool,
    workspace_root: &str,
    target_path: &str,
) -> (r: Result<Option<(String, String, String, TranspilerAction)>, String>)
    ensures
        exists|reply: Result<crate::llm::LlmModelTurn, String>, c: Result<Option<(String, String, String, JsonValue)>, String>|
            crate::orchestrator::tool_loop_asked(client, TRANSPILER_SYSTEM_PROMPT@, *tools, *old(context), reply)
                && #[trigger] crate::orchestrator::next_call_effect(*old(context), *final(context), reply, c)
                && transpiler_turn_outcome(c, triage_green, workspace_root@, target_path@, r),
        final(context).input_prompt == old(context).input_prompt,
        final(context).is_finished == old(context).is_finished,
        r matches Ok(Some((n, a, _, act))) ==> final(context).last_tool_call matches Some((x, y)) && x@ == n@
            && y@ == a@ && !crate::orchestrator::is_repeat_call(old(context).last_tool_call, n@, a@)
            && exists|args: JsonValue| #[trigger] transpiler_action_spec(
                n@,
                args,
                triage_green,
                workspace_root@,
                target_path@,
            ) == Ok::<TranspilerActionView, Seq<char>>(transpiler_action_view(act)),
        r matches Ok(None) ==> final(context).last_tool_call == old(context).last_tool_call,
{
    let called = crate::orchestrator::next_tool_call(client, TRANSPILER_SYSTEM_PROMPT, tools, context);
    let ghost cv = called;
    let ghost reply = choose|reply: Result<crate::llm::LlmModelTurn, String>|
        crate::orchestrator::tool_loop_asked(client, TRANSPILER_SYSTEM_PROMPT@, *tools, *old(context), reply)
            && crate::orchestrator::next_call_effect(*old(context), *context, reply, cv);
    assert(crate::orchestrator::tool_loop_asked(client, TRANSPILER_SYSTEM_PROMPT@, *tools, *old(context), reply));
    assert(crate::orchestrator::next_call_effect(*old(context), *context, reply, cv));
    let called = match called {
        Ok(c) => c,
        Err(e) => {
            let r = Err(e);
            assert(transpiler_turn_outcome(cv, triage_green, workspace_root@, target_path@, r));
            return r;
        },
    };
    match called {
        None => {
            let r = Ok(None);
            assert(transpiler_turn_outcome(cv, triage_green, workspace_root@, target_path@, r));
            r
        },
        Some((name, arguments, thought, parsed)) => {
            let action = match transpiler_action(name.as_str(), &parsed, triage_green, workspace_root, target_path) {
                Ok(a) => a,
                Err(e) => {
                    let r = Err(e);
                    assert(transpiler_turn_outcome(cv, triage_green, workspace_root@, target_path@, r));
                    return r;
                },
            };
            assert(transpiler_action_spec(name@, parsed, triage_green, workspace_root@, target_path@) == Ok::<
                TranspilerActionView,
                Seq<char>,
            >(transpiler_action_view(action)));
            let r = Ok(Some((name, arguments, thought, action)));
            assert(transpiler_turn_outcome(cv, triage_green, workspace_root@, target_path@, r));
            r
        },
    }
}

} // verus!
