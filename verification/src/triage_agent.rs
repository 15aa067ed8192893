//! The triage agent's own steps: how it frames its context and its request to
//! the model, how it gives up when there is nothing to build, and what it does
//! with the tool the model picked.
use vstd::prelude::*;

use crate::build_runs::target_views;
use crate::json::JsonValue;
use crate::llm::{AgentContext, LlmRequest};
use crate::paths::{components, components_exec, path_starts_with, path_starts_with_exec};
use crate::text::{
    chars_of, contains, decimal, fmt_u64, fmt_usize, join, join_exec, join_strings, starts_with,
    str_contains, str_starts_with, string_of, string_views, trim_start, trim_start_exec, views,
};
use crate::triage::{
    parse_edit_file_arguments, parse_report_error_arguments, required_usize_spec, resolve_edit_path,
    resolve_edit_spec, triage_tool_set,
};

verus! {

pub const TRIAGE_SYSTEM_PROMPT: &'static str = r#"You are a compiler repair agent (PHASE_5_TRIAGE). You will receive error logs.
Decide whether you can fix the code (e.g. missing import, typo).

Available tools (tool calls):
- edit_file — replace one file line (path, line, content)
- report_architectural_error — escalate when a fix needs an architect (msg)

Evidence requirements (mandatory in your final report):
- Workspace root path and the exact target files/modules triaged
- Each build/test command run with exit code and a log excerpt (last ~40 lines)
- Never claim PASS or FAIL without command output — "trust me" assertions score as failure
- Verify triage targets match the coordinator request before reporting success

Reply with a short rationale (Thought), then call exactly one tool."#;

/// The mark of a TDD red triage in its prompt.
pub const TDD_RED_PHASE: &'static str = "TDD RED PHASE";

/// The triage prompt, with the workspace root and the system prompt added
/// unless they are already there.
pub open spec fn triage_prompt_spec(prompt: Seq<char>, root: Seq<char>) -> Seq<char> {
    let p = if contains(prompt, "Workspace root:"@) {
        prompt
    } else {
        prompt + "\n\nWorkspace root: "@ + root + "\n"@
    };
    if contains(p, "PHASE_5_TRIAGE"@) {
        p
    } else {
        p + "\n\n"@ + TRIAGE_SYSTEM_PROMPT@
    }
}

/// A path shown relative to the workspace root when it lies under it.
pub open spec fn strip_root(p: Seq<char>, root: Seq<char>) -> Seq<char> {
    if path_starts_with(p, root) {
        join(components(p).skip(components(root).len() as int), "/"@)
    } else {
        p
    }
}

/// `- <file>` lines, one per file.
pub open spec fn file_bullets(files: Seq<Seq<char>>) -> Seq<char>
    decreases files.len(),
{
    if files.len() == 0 {
        Seq::empty()
    } else {
        file_bullets(files.drop_last()) + "- "@ + files.last() + "\n"@
    }
}

/// `<dir> => <command>` for each target.
pub open spec fn target_lines(targets: Seq<(Seq<char>, Seq<char>)>) -> Seq<Seq<char>> {
    targets.map_values(|t: (Seq<char>, Seq<char>)| t.0 + " => "@ + t.1)
}

/// The accumulated data a triage starts from: its build targets, then the
/// target files relative to the workspace root.
pub open spec fn triage_targets_text(
    targets: Seq<(Seq<char>, Seq<char>)>,
    paths: Seq<Seq<char>>,
    root: Seq<char>,
) -> Seq<char> {
    "Triage targets ("@ + decimal(targets.len()) + " modules):\n"@ + join(target_lines(targets), "\n"@)
        + "\n"@ + if paths.len() == 0 {
        Seq::empty()
    } else {
        "\nTarget files:\n"@ + file_bullets(paths.map_values(|p: Seq<char>| strip_root(p, root)))
    }
}

fn strip_root_exec(p: &str, root: &str) -> (r: String)
    ensures
        r@ == strip_root(p@, root@),
{
    if !path_starts_with_exec(p, root) {
        return p.to_owned();
    }
    let pc = components_exec(chars_of(p).as_slice());
    let rc = components_exec(chars_of(root).as_slice());
    let k = rc.len();
    let mut rest: Vec<Vec<char>> = Vec::new();
    let mut i = k;
    while i < pc.len()
        invariant
            k <= i <= pc@.len(),
            views(rest@) == views(pc@).subrange(k as int, i as int),
        decreases pc.len() - i,
    {
        let piece = crate::text::copy_range(pc[i].as_slice(), 0, pc[i].len());
        assert(piece@ =~= pc@[i as int]@);
        let ghost before = views(rest@);
        rest.push(piece);
        assert(views(rest@) =~= before.push(pc@[i as int]@));
        assert(views(pc@)[i as int] == pc@[i as int]@);
        assert(views(rest@) =~= views(pc@).subrange(k as int, i + 1));
        i = i + 1;
    }
    assert(views(pc@).subrange(k as int, pc@.len() as int) =~= views(pc@).skip(k as int));
    let sep = chars_of("/");
    let j = join_exec(rest.as_slice(), sep.as_slice());
    string_of(j.as_slice())
}

/// Frames a triage: adds the workspace root and the system prompt to its
/// prompt, and starts its accumulated data from the build targets and the
/// target files (both found on disk by the caller).
pub fn triage_enrich_context(
    context: &mut AgentContext,
    workspace_root: &str,
    targets: &[(String, String)],
    paths: &[String],
)
    ensures
        final(context).input_prompt@ == triage_prompt_spec(old(context).input_prompt@, workspace_root@),
        final(context).accumulated_data@ == triage_targets_text(
            target_views(targets@),
            string_views(paths@),
            workspace_root@,
        ),
        final(context).is_finished == old(context).is_finished,
        final(context).iterations == old(context).iterations,
{
    if !str_contains(context.input_prompt.as_str(), "Workspace root:") {
        context.input_prompt.append("\n\nWorkspace root: ");
        context.input_prompt.append(workspace_root);
        context.input_prompt.append("\n");
    }
    if !str_contains(context.input_prompt.as_str(), "PHASE_5_TRIAGE") {
        context.input_prompt.append("\n\n");
        context.input_prompt.append(TRIAGE_SYSTEM_PROMPT);
    }
    let ghost tv = target_views(targets@);
    let mut lines: Vec<String> = Vec::new();
    let mut i: usize = 0;
    while i < targets.len()
        invariant
            i <= targets@.len(),
            tv == target_views(targets@),
            string_views(lines@) == target_lines(tv).take(i as int),
        decreases targets.len() - i,
    {
        let mut l = targets[i].0.clone();
        assert(l@ == targets@[i as int].0@);
        l.append(" => ");
        l.append(targets[i].1.as_str());
        let ghost before = string_views(lines@);
        let ghost lv = l@;
        lines.push(l);
        assert(string_views(lines@) =~= before.push(lv));
        assert(target_lines(tv)[i as int] == lv);
        assert(target_lines(tv).take(i + 1) =~= target_lines(tv).take(i as int).push(lv));
        i = i + 1;
    }
    assert(target_lines(tv).take(targets@.len() as int) =~= target_lines(tv));
    let mut acc = "Triage targets (".to_owned();
    let n = fmt_usize(targets.len());
    acc.append(n.as_str());
    acc.append(" modules):\n");
    let joined = join_strings(lines.as_slice(), "\n");
    acc.append(joined.as_str());
    acc.append("\n");
    let ghost files = string_views(paths@).map_values(|p: Seq<char>| strip_root(p, workspace_root@));
    if paths.len() > 0 {
        acc.append("\nTarget files:\n");
        let ghost head = acc@;
        let mut j: usize = 0;
        while j < paths.len()
            invariant
                j <= paths@.len(),
                files == string_views(paths@).map_values(|p: Seq<char>| strip_root(p, workspace_root@)),
                acc@ == head + file_bullets(files.take(j as int)),
            decreases paths.len() - j,
        {
            let f = strip_root_exec(paths[j].as_str(), workspace_root);
            assert(files[j as int] == f@);
            assert(files.take(j + 1).drop_last() =~= files.take(j as int));
            acc.append("- ");
            acc.append(f.as_str());
            acc.append("\n");
            j = j + 1;
        }
        assert(files.take(paths@.len() as int) =~= files);
    }
    context.accumulated_data = acc;
}

/// `, `-joined paths, or `(none)`.
pub open spec fn paths_or_none(paths: Seq<Seq<char>>) -> Seq<char> {
    if paths.len() == 0 {
        "(none)"@
    } else {
        join(paths, ", "@)
    }
}

/// Why a triage with no build target stops at once.
pub open spec fn early_exit_prompt(root: Seq<char>, requested: Seq<Seq<char>>, resolved: Seq<Seq<char>>) -> Seq<char> {
    if resolved.len() == 0 {
        "No modules to check (no git changes or unknown paths).\nWorkspace root: "@ + root
            + "\nRequested paths: "@ + paths_or_none(requested)
            + "\nResolved paths: (none)\nDiscovery: no build targets."@
    } else {
        "Could not resolve a build command (no manifest and discovery returned no command).\nWorkspace root: "@
            + root + "\nRequested paths: "@ + paths_or_none(requested) + "\nResolved paths: "@
            + paths_or_none(resolved) + "\nDiscovery: attempted build-command discovery — no command."@
    }
}

fn paths_or_none_exec(paths: &[String]) -> (r: String)
    ensures
        r@ == paths_or_none(string_views(paths@)),
{
    if paths.len() == 0 {
        "(none)".to_owned()
    } else {
        join_strings(paths, ", ")
    }
}

/// Ends a triage that found no build target: the prompt says why, and the
/// accumulated data records it.
pub fn triage_early_exit(context: &mut AgentContext, workspace_root: &str, requested: &[String], resolved: &[String])
    ensures
        final(context).is_finished,
        final(context).input_prompt@ == early_exit_prompt(
            workspace_root@,
            string_views(requested@),
            string_views(resolved@),
        ),
        final(context).accumulated_data@ == old(context).accumulated_data@ + "\n[TRIAGE EARLY EXIT]\n"@
            + final(context).input_prompt@ + "\n"@,
{
    let req = paths_or_none_exec(requested);
    let mut p = if resolved.len() == 0 {
        let mut p = "No modules to check (no git changes or unknown paths).\nWorkspace root: ".to_owned();
        p.append(workspace_root);
        p.append("\nRequested paths: ");
        p.append(req.as_str());
        p.append("\nResolved paths: (none)\nDiscovery: no build targets.");
        p
    } else {
        let res = paths_or_none_exec(resolved);
        let mut p =
            "Could not resolve a build command (no manifest and discovery returned no command).\nWorkspace root: ".to_owned();
        p.append(workspace_root);
        p.append("\nRequested paths: ");
        p.append(req.as_str());
        p.append("\nResolved paths: ");
        p.append(res.as_str());
        p.append("\nDiscovery: attempted build-command discovery — no command.");
        p
    };
    context.is_finished = true;
    context.accumulated_data.append("\n[TRIAGE EARLY EXIT]\n");
    context.accumulated_data.append(p.as_str());
    context.accumulated_data.append("\n");
    context.input_prompt = p;
}


/// The user message of a triage turn: the build logs to fix, with the TDD red
/// restriction when the prompt carries it.
pub open spec fn triage_user_message_spec(prompt: Seq<char>, accumulated: Seq<char>) -> Seq<char> {
    if contains(prompt, TDD_RED_PHASE@) {
        "Build logs to fix (TDD RED — fix ONLY compile errors, do NOT change assertions):\n\n"@ + accumulated
            + "\n\nCall one tool."@
    } else {
        "Build logs to fix:\n\n"@ + accumulated + "\n\nCall one tool."@
    }
}

/// `r` is the request of a triage turn on `context`: the triage system prompt,
/// the build logs to fix, and the triage tools.
pub open spec fn is_triage_request(context: AgentContext, r: LlmRequest) -> bool {
    &&& r.system_prompt@ == TRIAGE_SYSTEM_PROMPT@
    &&& r.user_message@ == triage_user_message_spec(context.input_prompt@, context.accumulated_data@)
    &&& crate::llm::request_tool_names(r) == seq!["edit_file"@, "report_architectural_error"@]
}

/// The model was asked with the triage request of `context` and gave `reply`.
pub open spec fn triage_asked<C: crate::llm::LlmClient>(
    client: &C,
    context: AgentContext,
    reply: Result<crate::llm::LlmModelTurn, String>,
) -> bool {
    exists|req: LlmRequest| is_triage_request(context, req) && #[trigger] client.answers(req, reply)
}

/// The request of a triage turn: the triage system prompt, the build logs to
/// fix, and the triage tools.
pub fn triage_request(context: &AgentContext) -> (r: LlmRequest)
    ensures
        r.system_prompt@ == TRIAGE_SYSTEM_PROMPT@,
        r.user_message@ == triage_user_message_spec(context.input_prompt@, context.accumulated_data@),
        is_triage_request(*context, r),
{
    let mut m = if str_contains(context.input_prompt.as_str(), TDD_RED_PHASE) {
        "Build logs to fix (TDD RED — fix ONLY compile errors, do NOT change assertions):\n\n".to_owned()
    } else {
        "Build logs to fix:\n\n".to_owned()
    };
    m.append(context.accumulated_data.as_str());
    m.append("\n\nCall one tool.");
    LlmRequest { system_prompt: TRIAGE_SYSTEM_PROMPT.to_owned(), user_message: m, tools: triage_tool_set().tools }
}

/// What the accumulated data records of the model's reply: its thought and
/// the tool it called, or that it called none.
pub open spec fn response_note(iteration: u32, thought: Seq<char>, call: Option<(Seq<char>, Seq<char>)>) -> Seq<char> {
    match call {
        None => "LLM triage response (iter "@ + decimal(iteration as nat) + "):\n"@ + thought
            + "\n(model did not call a tool — retrying)\n"@,
        Some((name, args)) => "LLM triage response (iter "@ + decimal(iteration as nat) + "):\nThought: "@
            + thought + "\nTool: "@ + name + "("@ + args + ")\n"@,
    }
}

/// Records the model's reply in the accumulated data (a missing thought is empty).
pub fn record_triage_response(context: &mut AgentContext, thought: &Option<String>, call: Option<(&str, &str)>)
    ensures
        final(context).accumulated_data@ == old(context).accumulated_data@ + response_note(
            old(context).iterations,
            match thought {
                Some(t) => t@,
                None => Seq::empty(),
            },
            match call {
                Some((n, a)) => Some((n@, a@)),
                None => None,
            },
        ),
        final(context).input_prompt == old(context).input_prompt,
        final(context).is_finished == old(context).is_finished,
        final(context).iterations == old(context).iterations,
{
    proof {
        reveal_strlit("");
    }
    let t: &str = match thought {
        Some(t) => t.as_str(),
        None => "",
    };
    let it = fmt_u64(context.iterations as u64);
    let mut n = "LLM triage response (iter ".to_owned();
    n.append(it.as_str());
    match call {
        None => {
            n.append("):\n");
            n.append(t);
            n.append("\n(model did not call a tool — retrying)\n");
        },
        Some((name, args)) => {
            n.append("):\nThought: ");
            n.append(t);
            n.append("\nTool: ");
            n.append(name);
            n.append("(");
            n.append(args);
            n.append(")\n");
        },
    }
    proof {
        let tv = match thought {
            Some(t) => t@,
            None => Seq::<char>::empty(),
        };
        let cv = match call {
            Some((a, b)) => Some((a@, b@)),
            None => None,
        };
        assert(t@ == tv);
        assert(n@ =~= response_note(context.iterations, tv, cv));
    }
    context.accumulated_data.append(n.as_str());
}

/// An edit that rewrites an assertion or a `panic!`.
pub open spec fn edits_assertion(content: Seq<char>) -> bool {
    let t = trim_start(content);
    starts_with(t, "assert"@) || starts_with(t, "panic!"@)
}

/// What the triage does with the tool the model called.
pub enum TriageAction {
    /// Rewrite line `line` of `path` (resolved under a module root) with
    /// `content`, then build again.
    Edit { path: String, line: usize, content: String },
    /// Stop: the fix needs an architect; `message` says why.
    Escalate { message: String },
}

pub open spec fn tdd_assert_msg() -> Seq<char> {
    "TDD RED PHASE: modifying assertions or panic! is forbidden"@
}

/// The triage's reading of one tool call, given the call's arguments, whether
/// the triage is in its TDD red phase, and the module roots edits must stay in.
pub open spec fn triage_action_spec(
    name: Seq<char>,
    arguments: JsonValue,
    tdd_red: bool,
    module_roots: Seq<Seq<char>>,
) -> Result<(Seq<char>, Option<(nat, Seq<char>)>), Seq<char>> {
    if name == "edit_file"@ {
        match (
            crate::json::get_str(arguments, "path"@),
            required_usize_spec(arguments, "line"@),
            crate::json::get_str(arguments, "content"@),
        ) {
            (None, _, _) => Err(crate::json::not_a_string_msg("path"@)),
            (Some(_), Err(m), _) => Err(m),
            (Some(_), Ok(_), None) => Err(crate::json::not_a_string_msg("content"@)),
            (Some(p), Ok(n), Some(c)) => if tdd_red && edits_assertion(c) {
                Err(tdd_assert_msg())
            } else {
                match resolve_edit_spec(p, module_roots) {
                    Ok(rp) => Ok((rp, Some((n as nat, c)))),
                    Err(e) => Err(e),
                }
            },
        }
    } else if name == "report_architectural_error"@ {
        match crate::json::get_str(arguments, "msg"@) {
            Some(m) => Ok((m, None)),
            None => Err(crate::json::not_a_string_msg("msg"@)),
        }
    } else {
        Err("unsupported triage tool: "@ + name)
    }
}

/// In the TDD red phase an `edit_file` call whose content, with leading
/// whitespace removed, starts with `assert` or with `panic!` is refused with
/// the TDD red message, whatever the module roots; any other edit, and any
/// edit outside that phase, is resolved under the module roots.
pub proof fn tdd_red_refuses_assertion_and_panic_edits(
    arguments: JsonValue,
    module_roots: Seq<Seq<char>>,
    p: Seq<char>,
    n: nat,
    c: Seq<char>,
)
    requires
        crate::json::get_str(arguments, "path"@) == Some(p),
        required_usize_spec(arguments, "line"@) == Ok::<nat, Seq<char>>(n),
        crate::json::get_str(arguments, "content"@) == Some(c),
    ensures
        ({
            let t = trim_start(c);
            (t.len() >= 6 && t.subrange(0, 6) == "assert"@) || (t.len() >= 6 && t.subrange(0, 6)
                == "panic!"@)
        }) ==> triage_action_spec("edit_file"@, arguments, true, module_roots) == Err::<
            (Seq<char>, Option<(nat, Seq<char>)>),
            Seq<char>,
        >("TDD RED PHASE: modifying assertions or panic! is forbidden"@),
        !({
            let t = trim_start(c);
            (t.len() >= 6 && t.subrange(0, 6) == "assert"@) || (t.len() >= 6 && t.subrange(0, 6)
                == "panic!"@)
        }) ==> triage_action_spec("edit_file"@, arguments, true, module_roots) == triage_action_spec(
            "edit_file"@,
            arguments,
            false,
            module_roots,
        ),
        triage_action_spec("edit_file"@, arguments, false, module_roots) == match resolve_edit_spec(
            p,
            module_roots,
        ) {
            Ok(rp) => Ok((rp, Some((n, c)))),
            Err(e) => Err(e),
        },
{
    reveal_strlit("assert");
    reveal_strlit("panic!");
}

/// The view of an action: the edited path (or the escalation message) and,
/// for an edit, its line and content.
pub open spec fn action_view(a: TriageAction) -> (Seq<char>, Option<(nat, Seq<char>)>) {
    match a {
        TriageAction::Edit { path, line, content } => (path@, Some((line as nat, content@))),
        TriageAction::Escalate { message } => (message@, None),
    }
}

/// Reads the tool the model called: an edit (refused in the TDD red phase
/// when it rewrites an assertion, and resolved under the module roots) or an
/// escalation; any other tool is an error.
pub fn triage_action(
    name: &str,
    arguments: &JsonValue,
    tdd_red: bool,
    module_roots: &[String],
) -> (r: Result<TriageAction, String>)
    ensures
        match triage_action_spec(name@, *arguments, tdd_red, string_views(module_roots@)) {
            Ok(v) => r matches Ok(a) && action_view(a) == v,
            Err(e) => r matches Err(x) && x@ == e,
        },
{
    if crate::text::str_eq(name, "edit_file") {
        let (path, line, content) = match parse_edit_file_arguments(arguments) {
            Ok(t) => t,
            Err(e) => {
                return Err(e);
            },
        };
        let t = trim_start_exec(chars_of(content.as_str()).as_slice());
        let ts = string_of(t.as_slice());
        if tdd_red && (str_starts_with(ts.as_str(), "assert") || str_starts_with(ts.as_str(), "panic!")) {
            return Err("TDD RED PHASE: modifying assertions or panic! is forbidden".to_owned());
        }
        match resolve_edit_path(path.as_str(), module_roots) {
            Ok(p) => Ok(TriageAction::Edit { path: p, line, content }),
            Err(e) => Err(e),
        }
    } else if crate::text::str_eq(name, "report_architectural_error") {
        match parse_report_error_arguments(arguments) {
            Ok(m) => Ok(TriageAction::Escalate { message: m }),
            Err(e) => Err(e),
        }
    } else {
        let mut e = "unsupported triage tool: ".to_owned();
        e.append(name);
        Err(e)
    }
}

/// Escalation ends the triage with the model's message as its data.
pub fn triage_escalate(context: &mut AgentContext, message: String)
    ensures
        final(context).accumulated_data@ == message@,
        final(context).is_finished,
        final(context).input_prompt == old(context).input_prompt,
{
    context.accumulated_data = message;
    context.is_finished = true;
}

/// What the accumulated data records of an edit that was applied.
pub fn record_applied_edit(context: &mut AgentContext, path: &str, line: usize)
    ensures
        final(context).accumulated_data@ == old(context).accumulated_data@ + "Applied edit_file("@ + path@
            + ", line="@ + decimal(line as nat) + ")\n"@,
        final(context).input_prompt == old(context).input_prompt,
        final(context).is_finished == old(context).is_finished,
{
    context.accumulated_data.append("Applied edit_file(");
    context.accumulated_data.append(path);
    context.accumulated_data.append(", line=");
    let n = fmt_usize(line);
    context.accumulated_data.append(n.as_str());
    context.accumulated_data.append(")\n");
}

/// What the accumulated data records of an edit refused by the edit scope.
pub fn record_rejected_edit(context: &mut AgentContext, message: &str)
    ensures
        final(context).accumulated_data@ == old(context).accumulated_data@ + "Edit rejected: "@ + message@
            + "\n"@,
        final(context).input_prompt == old(context).input_prompt,
        final(context).is_finished == old(context).is_finished,
{
    context.accumulated_data.append("Edit rejected: ");
    context.accumulated_data.append(message);
    context.accumulated_data.append("\n");
}

/// Before the next iteration the prompt asks for a new build.
pub fn triage_mutate_next_iteration(context: &mut AgentContext)
    ensures
        final(context).input_prompt@ == old(context).input_prompt@ + "\nRe-run the build after the latest fix attempt."@,
        final(context).accumulated_data == old(context).accumulated_data,
        final(context).is_finished == old(context).is_finished,
{
    context.input_prompt.append("\nRe-run the build after the latest fix attempt.");
}


/// The directories of the build targets.
pub open spec fn target_dirs(targets: Seq<(Seq<char>, Seq<char>)>) -> Seq<Seq<char>> {
    targets.map_values(|t: (Seq<char>, Seq<char>)| t.0)
}

/// The directories of the build targets: the roots edits must stay under.
pub fn module_roots(targets: &[(String, String)]) -> (r: Vec<String>)
    ensures
        string_views(r@) == target_dirs(target_views(targets@)),
{
    let ghost want = target_dirs(target_views(targets@));
    let mut r: Vec<String> = Vec::new();
    let mut i: usize = 0;
    while i < targets.len()
        invariant
            i <= targets@.len(),
            want == target_dirs(target_views(targets@)),
            string_views(r@) == want.take(i as int),
        decreases targets.len() - i,
    {
        let d = targets[i].0.clone();
        let ghost before = string_views(r@);
        let ghost dv = d@;
        r.push(d);
        assert(string_views(r@) =~= before.push(dv));
        assert(want[i as int] == dv);
        assert(want.take(i + 1) =~= want.take(i as int).push(dv));
        i = i + 1;
    }
    assert(want.take(targets@.len() as int) =~= want);
    r
}

/// The build round a triage turn runs: the TDD red round when the prompt
/// carries the TDD red mark, else the normal round; `done` says whether it
/// finished the triage. The runner's results are what it reported for the
/// commands the round sent (`red_round_ran`, `build_round_ran`).
pub open spec fn triage_round<B: crate::build_runs::BuildCommandRunner>(
    runner: &B,
    before: AgentContext,
    mid: AgentContext,
    targets: Seq<(Seq<char>, Seq<char>)>,
    paths: Seq<Seq<char>>,
    done: bool,
) -> bool {
    if contains(before.input_prompt@, TDD_RED_PHASE@) {
        exists|checks: Seq<Result<crate::build_runs::BuildResult, String>>, tests: Seq<Result<crate::build_runs::BuildResult, String>>|
            checks.len() == targets.len() && tests.len() == targets.len()
                && crate::build_runs::red_round_ran(runner, targets, paths, checks, tests) && done
                == #[trigger] crate::build_runs::tdd_red_verdict(targets, paths, checks, tests).1
                && crate::build_runs::round_applied(
                before,
                mid,
                crate::build_runs::tdd_red_verdict(targets, paths, checks, tests).0,
                done,
                crate::build_runs::TDD_RED_DONE@,
            )
    } else {
        exists|rs: Seq<Result<crate::build_runs::BuildResult, String>>|
            rs.len() == targets.len() && crate::build_runs::build_round_ran(runner, targets, rs) && done
                == #[trigger] crate::build_runs::build_round_verdict(targets, rs).1
                && crate::build_runs::round_applied(
                before,
                mid,
                crate::build_runs::build_round_verdict(targets, rs).0,
                done,
                crate::report::TRIAGE_PASS_MARKER@,
            )
    }
}

/// What a triage turn does with the model's reply to `triage_request`: a
/// failed call fails the turn; the reply is recorded (`record_triage_response`);
/// the tool called is read by `triage_action_spec`: an escalation ends the
/// triage with its message as the data, an edit is handed back, and any other
/// reading fails the turn.
pub open spec fn triage_reply_effect(
    mid: AgentContext,
    after: AgentContext,
    tdd_red: bool,
    roots: Seq<Seq<char>>,
    reply: Result<crate::llm::LlmModelTurn, String>,
    r: Result<Option<TriageAction>, String>,
) -> bool {
    match reply {
        Err(e) => r matches Err(x) && x@ == e@ && after == mid,
        Ok(t) => {
            let th = crate::orchestrator::thought_of(t);
            &&& after.input_prompt == mid.input_prompt
            &&& if t.tool_calls@.len() == 0 {
                &&& r matches Ok(None)
                &&& after.accumulated_data@ == mid.accumulated_data@ + response_note(mid.iterations, th, None)
                &&& after.is_finished == mid.is_finished
            } else {
                let c = t.tool_calls@[0];
                let noted = mid.accumulated_data@ + response_note(
                    mid.iterations,
                    th,
                    Some((c.name@, crate::json::call_text(c.arguments@))),
                );
                match triage_action_spec(c.name@, c.parsed_arguments, tdd_red, roots) {
                    Err(e) => r matches Err(x) && x@ == e && after.accumulated_data@ == noted
                        && after.is_finished == mid.is_finished,
                    Ok(v) => if v.1 is None {
                        r matches Ok(None) && after.accumulated_data@ == v.0 && after.is_finished
                    } else {
                        r matches Ok(Some(a)) && action_view(a) == v && after.accumulated_data@ == noted
                            && after.is_finished == mid.is_finished
                    },
                }
            }
        },
    }
}

/// A triage turn with build targets: the round from `before` to `mid`, then,
/// unless the round finished the triage, the reading of the model's reply.
pub open spec fn triage_turn_effect<C: crate::llm::LlmClient, B: crate::build_runs::BuildCommandRunner>(
    client: &C,
    runner: &B,
    before: AgentContext,
    after: AgentContext,
    targets: Seq<(Seq<char>, Seq<char>)>,
    paths: Seq<Seq<char>>,
    mid: AgentContext,
    done: bool,
    reply: Result<crate::llm::LlmModelTurn, String>,
    r: Result<Option<TriageAction>, String>,
) -> bool {
    &&& triage_round(runner, before, mid, targets, paths, done)
    &&& !done ==> triage_asked(client, mid, reply)
    &&& done ==> (r matches Ok(None) && after == mid)
    &&& !done ==> triage_reply_effect(
        mid,
        after,
        contains(before.input_prompt@, TDD_RED_PHASE@),
        target_dirs(targets),
        reply,
        r,
    )
}

/// One triage turn. With no build target the triage stops at once. Otherwise
/// the round runs (the TDD red round when the prompt asks for it); if it did
/// not finish the triage, the model is asked with `triage_request` of the
/// context after the round, its reply is recorded, an escalation ends the
/// triage, and an edit is handed back for the caller to check against the
/// edit scope, apply on disk, record, and follow with a new round. Whatever
/// the runner reports and the model replies, the turn is `triage_round`
/// followed by `triage_reply_effect`.
pub fn triage_turn<C: crate::llm::LlmClient, B: crate::build_runs::BuildCommandRunner>(
    client: &C,
    runner: &B,
    workspace_root: &str,
    requested: &[String],
    resolved: &[String],
    targets: &[(String, String)],
    test_paths: &[String],
    context: &mut AgentContext,
) -> (r: Result<Option<TriageAction>, String>)
    ensures
        targets@.len() == 0 ==> (r matches Ok(None) && final(context).is_finished
            && final(context).input_prompt@ == early_exit_prompt(
            workspace_root@,
            string_views(requested@),
            string_views(resolved@),
        ) && final(context).accumulated_data@ == old(context).accumulated_data@
            + "\n[TRIAGE EARLY EXIT]\n"@ + final(context).input_prompt@ + "\n"@),
        targets@.len() > 0 ==> exists|mid: AgentContext, done: bool, reply: Result<crate::llm::LlmModelTurn, String>|
            #[trigger] triage_turn_effect(
                client,
                runner,
                *old(context),
                *final(context),
                target_views(targets@),
                string_views(test_paths@),
                mid,
                done,
                reply,
                r,
            ),
        r matches Ok(Some(a)) ==> (a is Edit && exists|args: JsonValue|
            #[trigger] triage_action_spec(
                "edit_file"@,
                args,
                contains(old(context).input_prompt@, TDD_RED_PHASE@),
                target_dirs(target_views(targets@)),
            ) == Ok::<(Seq<char>, Option<(nat, Seq<char>)>), Seq<char>>(action_view(a))),
{
    if targets.len() == 0 {
        triage_early_exit(context, workspace_root, requested, resolved);
        return Ok(None);
    }
    let ghost tv = target_views(targets@);
    let ghost pv = string_views(test_paths@);
    let tdd = str_contains(context.input_prompt.as_str(), TDD_RED_PHASE);
    let done = if tdd {
        crate::build_runs::try_finish_tdd_red(runner, targets, test_paths, context)
    } else {
        crate::build_runs::run_build_targets(runner, targets, context)
    };
    let ghost mid = *context;
    assert(triage_round(runner, *old(context), mid, tv, pv, done));
    if done {
        let r = Ok(None);
        let no_reply: Result<crate::llm::LlmModelTurn, String> = Err(String::new());
        assert(triage_turn_effect(client, runner, *old(context), *context, tv, pv, mid, done, no_reply, r));
        return r;
    }
    let request = triage_request(context);
    let ghost req = request;
    let reply = client.complete(request);
    let ghost rv = reply;
    assert(triage_asked(client, mid, rv)) by {
        assert(is_triage_request(mid, req) && client.answers(req, rv));
    }
    let turn = match reply {
        Ok(t) => t,
        Err(e) => {
            let r = Err(e);
            assert(triage_turn_effect(client, runner, *old(context), *context, tv, pv, mid, done, rv, r));
            return r;
        },
    };
    if turn.tool_calls.len() == 0 {
        record_triage_response(context, &turn.content, None);
        let r = Ok(None);
        assert(triage_turn_effect(client, runner, *old(context), *context, tv, pv, mid, done, rv, r));
        return r;
    }
    let call = &turn.tool_calls[0];
    let text = crate::json::call_arguments_text(call.arguments.as_str());
    record_triage_response(context, &turn.content, Some((call.name.as_str(), text.as_str())));
    let roots = module_roots(targets);
    let action = match triage_action(call.name.as_str(), &call.parsed_arguments, tdd, roots.as_slice()) {
        Ok(a) => a,
        Err(e) => {
            let r = Err(e);
            assert(triage_turn_effect(client, runner, *old(context), *context, tv, pv, mid, done, rv, r));
            return r;
        },
    };
    match action {
        TriageAction::Escalate { message } => {
            triage_escalate(context, message);
            let r = Ok(None);
            assert(triage_turn_effect(client, runner, *old(context), *context, tv, pv, mid, done, rv, r));
            r
        },
        TriageAction::Edit { path, line, content } => {
            let ghost args = call.parsed_arguments;
            proof {
                if !(call.name@ == "edit_file"@) {
                    assert(triage_action_spec(call.name@, args, tdd, string_views(roots@)) is Ok);
                }
            }
            let r = Ok(Some(TriageAction::Edit { path, line, content }));
            assert(triage_turn_effect(client, runner, *old(context), *context, tv, pv, mid, done, rv, r));
            r
        },
    }
}

/// After an edit was written to `path` at `line`, the turn records it and runs
/// the build round again (the TDD red round under the TDD red mark); a passing
/// round finishes the triage as it does at the start of a turn.
pub fn triage_after_edit<B: crate::build_runs::BuildCommandRunner>(
    runner: &B,
    targets: &[(String, String)],
    test_paths: &[String],
    context: &mut AgentContext,
    path: &str,
    line: usize,
) -> (done: bool)
    ensures
        exists|noted: AgentContext|
            #[trigger] noted.accumulated_data@ == old(context).accumulated_data@ + "Applied edit_file("@
                + path@ + ", line="@ + decimal(line as nat) + ")\n"@ && noted.input_prompt
                == old(context).input_prompt && noted.is_finished == old(context).is_finished
                && triage_round(runner, noted, *final(context), target_views(targets@), string_views(test_paths@), done),
{
    record_applied_edit(context, path, line);
    let ghost noted = *context;
    let tdd = str_contains(context.input_prompt.as_str(), TDD_RED_PHASE);
    let done = if tdd {
        crate::build_runs::try_finish_tdd_red(runner, targets, test_paths, context)
    } else {
        crate::build_runs::run_build_targets(runner, targets, context)
    };
    assert(triage_round(runner, noted, *context, target_views(targets@), string_views(test_paths@), done));
    done
}

} // verus!
