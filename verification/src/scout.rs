//! Code scouting: the scout's tools, the paths it records as read, its prompt
//! additions, and the de-duplication of scouted paths before caching.
use vstd::prelude::*;

use crate::json::{get_str, get_str_exec, JsonValue};
use crate::llm::{AgentContext, LlmToolSet, ToolDefinition};
use crate::paths::{path_eq, path_eq_exec};
use crate::project::workspace_path_spec;
use crate::text::{contains, fmt_u64, str_contains, str_eq, string_views};

verus! {

pub const SCOUT_SYSTEM_PROMPT: &'static str = r#"You are an autonomous code scout (PHASE_1_SCOUT). Your goal is to gather and condense code context.

Available tools (tool calls):
- detect_language — detect file or project language (extension, manifests, content heuristics)
- ripgrep — broad text search across the repository
- ast_calls — precise AST lookup: call sites for a method in a file (Rust, TS, Python, Java, Kotlin, SQL, C, C++)
- read_file — file slice by line numbers
- finalize — end scouting with a condensed markdown report

Selection rule: If you do not know the language or repo layout, use detect_language. If you do not know where code lives, use ripgrep. When you know the files, use ast_calls. When you have the essence, call finalize.

Search strategy: Decompose the user query into code symbols (type names, function names, module paths) — not natural-language phrases. Example: search `LlmUsage`, `record_llm_call`, `metrics` instead of "token metrics implementation state".

Workspace: Search ONLY under the workspace root stated in your prompt. If ripgrep returns zero hits, read_file a likely path under that root before concluding code is absent. Never blame config errors — adjust search paths within the workspace.

Mandatory finalize format:
- file:line citations (e.g. src/metrics/store.rs:42) for every claim
- 2–5 line code snippets or log excerpts for each major finding (not just file names)
- Answer every sub-question in the original task explicitly
- Never output meta-commentary about reviews, conversations, or prior agent runs — deliver a technical trace only

Efficiency: Finalize within 6 tool turns once you can answer. Do not repeat the same tool with identical arguments.

Reply with a short rationale (Thought), then call exactly one tool."#;

/// What a cached scout run produced: a cached insight or a fresh report.
pub enum ScoutCacheOutcome {
    Hit(String),
    Fresh(String),
}

/// The scout's tools: the read-only tools it is given, then the terminal `finalize`.
pub fn scout_tool_set(read_only: LlmToolSet) -> (s: LlmToolSet)
    ensures
        crate::llm::tool_names(s) == crate::llm::tool_names(read_only).push("finalize"@),
{
    let s = read_only.register(
        ToolDefinition::new("finalize", "Ends scouting and returns a condensed markdown report.").string_param(
            "report",
            "Final condensed markdown report.",
            true,
        ),
    );
    assert(crate::llm::tool_names(s) =~= crate::llm::tool_names(read_only).push("finalize"@));
    s
}

/// The file a scout tool call reads: `file` of read_file / ast_calls, `path` of a
/// file-scoped detect_language.
pub open spec fn scout_touched_path(tool_name: Seq<char>, args: JsonValue) -> Option<Seq<char>> {
    if tool_name == "read_file"@ || tool_name == "ast_calls"@ {
        get_str(args, "file"@)
    } else if tool_name == "detect_language"@ && get_str(args, "scope"@) == Some("file"@) {
        get_str(args, "path"@)
    } else {
        None
    }
}

/// Records the resolved path of the file a scout tool call read.
pub fn record_scout_touched_file(
    context: &mut AgentContext,
    tool_name: &str,
    args: &JsonValue,
    workspace_root: &str,
)
    ensures
        final(context).input_prompt == old(context).input_prompt,
        final(context).accumulated_data == old(context).accumulated_data,
        final(context).last_tool_call == old(context).last_tool_call,
        final(context).iterations == old(context).iterations,
        final(context).max_iterations == old(context).max_iterations,
        final(context).is_finished == old(context).is_finished,
        final(context).agent_completed == old(context).agent_completed,
        match scout_touched_path(tool_name@, *args) {
            None => final(context).touched_files@ == old(context).touched_files@,
            Some(p) => string_views(final(context).touched_files@) == string_views(
                old(context).touched_files@,
            ).push(workspace_path_spec(workspace_root@, p)),
        },
{
    let path = if str_eq(tool_name, "read_file") || str_eq(tool_name, "ast_calls") {
        get_str_exec(args, "file")
    } else if str_eq(tool_name, "detect_language") && match get_str_exec(args, "scope") {
        Some(sc) => str_eq(sc, "file"),
        None => false,
    } {
        get_str_exec(args, "path")
    } else {
        None
    };
    match path {
        Some(p) => {
            let resolved = crate::project::resolve_workspace_path(workspace_root, p);
            let ghost before = context.touched_files@;
            context.touched_files.push(resolved);
            proof {
                assert(string_views(context.touched_files@) =~= string_views(before).push(
                    workspace_path_spec(workspace_root@, p@),
                ));
            }
        },
        None => {},
    }
}

/// Records every file a ripgrep search matched (as the search reported them).
pub fn record_ripgrep_hits(context: &mut AgentContext, files: &[String], workspace_root: &str)
    ensures
        final(context).input_prompt == old(context).input_prompt,
        final(context).accumulated_data == old(context).accumulated_data,
        final(context).is_finished == old(context).is_finished,
        final(context).agent_completed == old(context).agent_completed,
        string_views(final(context).touched_files@) == string_views(old(context).touched_files@) + Seq::new(
            files@.len(),
            |i: int| workspace_path_spec(workspace_root@, files@[i]@),
        ),
{
    let ghost start = context.touched_files@;
    let mut i: usize = 0;
    while i < files.len()
        invariant
            i <= files@.len(),
            context.input_prompt == old(context).input_prompt,
            context.accumulated_data == old(context).accumulated_data,
            context.is_finished == old(context).is_finished,
            context.agent_completed == old(context).agent_completed,
            start == old(context).touched_files@,
            string_views(context.touched_files@) == string_views(start) + Seq::new(
                i as nat,
                |k: int| workspace_path_spec(workspace_root@, files@[k]@),
            ),
        decreases files.len() - i,
    {
        let resolved = crate::project::resolve_workspace_path(workspace_root, files[i].as_str());
        let ghost before = context.touched_files@;
        context.touched_files.push(resolved);
        proof {
            assert(string_views(context.touched_files@) =~= string_views(before).push(
                workspace_path_spec(workspace_root@, files@[i as int]@),
            ));
            assert(string_views(start) + Seq::new(
                (i + 1) as nat,
                |k: int| workspace_path_spec(workspace_root@, files@[k]@),
            ) =~= (string_views(start) + Seq::new(
                i as nat,
                |k: int| workspace_path_spec(workspace_root@, files@[k]@),
            )).push(workspace_path_spec(workspace_root@, files@[i as int]@)));
        }
        i = i + 1;
    }
}

/// Adds the workspace root and the scout's system prompt to its prompt, once each.
pub open spec fn scout_enriched_prompt(prompt: Seq<char>, root: Seq<char>) -> Seq<char> {
    let p1 = if contains(prompt, "Workspace root"@) {
        prompt
    } else {
        prompt + "\n\nWorkspace root (search ONLY here): "@ + root + "\n"@
    };
    if contains(p1, "PHASE_1_SCOUT"@) {
        p1
    } else {
        p1 + "\n\n"@ + SCOUT_SYSTEM_PROMPT@
    }
}

/// The scout's context enrichment.
pub fn scout_enrich_context(context: &mut AgentContext, workspace_root: &str)
    ensures
        final(context).input_prompt@ == scout_enriched_prompt(old(context).input_prompt@, workspace_root@),
        final(context).accumulated_data == old(context).accumulated_data,
        final(context).touched_files == old(context).touched_files,
        final(context).is_finished == old(context).is_finished,
{
    if !str_contains(context.input_prompt.as_str(), "Workspace root") {
        context.input_prompt.append("\n\nWorkspace root (search ONLY here): ");
        context.input_prompt.append(workspace_root);
        context.input_prompt.append("\n");
    }
    if !str_contains(context.input_prompt.as_str(), "PHASE_1_SCOUT") {
        context.input_prompt.append("\n\n");
        context.input_prompt.append(SCOUT_SYSTEM_PROMPT);
    }
}

pub const SCOUT_FINAL_TURN: &'static str = "\nFinal turn: call finalize(report) with your best condensed markdown report.";

pub const SCOUT_CONTINUE: &'static str = "\nContinue scouting. Call exactly one tool: detect_language, ripgrep, ast_calls, read_file, or finalize.";

/// The nudge for the scout's next turn.
pub fn scout_turn_nudge(iterations: u32, max_iterations: u32) -> (r: &'static str)
    ensures
        r@ == if iterations >= (if max_iterations >= 1 { max_iterations - 1 } else { 0 }) {
            SCOUT_FINAL_TURN@
        } else {
            SCOUT_CONTINUE@
        },
{
    if iterations >= max_iterations.saturating_sub(1) {
        SCOUT_FINAL_TURN
    } else {
        SCOUT_CONTINUE
    }
}

/// The report of a fresh scout run: its output, prefixed with the run's state when
/// the scout did not finish.
pub open spec fn scout_report_spec(is_finished: bool, iterations: u32, data: Seq<char>) -> Seq<char> {
    if is_finished {
        data
    } else {
        "Scout report (finished=false, iterations="@ + crate::text::decimal(iterations as nat)
            + "):\n"@ + data
    }
}

/// Formats the report a fresh scout run hands back.
pub fn scout_report(is_finished: bool, iterations: u32, data: &str) -> (r: String)
    ensures
        r@ == scout_report_spec(is_finished, iterations, data@),
{
    if is_finished {
        return data.to_owned();
    }
    let mut out = "Scout report (finished=false, iterations=".to_owned();
    let d = fmt_u64(iterations as u64);
    out.append(d.as_str());
    out.append("):\n");
    out.append(data);
    out
}

// ---------------------------------------------------------------------------
// De-duplicating scouted paths
// ---------------------------------------------------------------------------

/// Some kept path names the same path as `p`.
pub open spec fn has_path(kept: Seq<Seq<char>>, p: Seq<char>) -> bool {
    exists|j: int| 0 <= j < kept.len() && path_eq(#[trigger] kept[j], p)
}

/// The paths in order, each kept only at its first occurrence (paths compare by components).
pub open spec fn dedupe_spec(ps: Seq<Seq<char>>) -> Seq<Seq<char>>
    decreases ps.len(),
{
    if ps.len() == 0 {
        Seq::empty()
    } else {
        let rest = dedupe_spec(ps.drop_last());
        if has_path(rest, ps.last()) {
            rest
        } else {
            rest.push(ps.last())
        }
    }
}

/// Drops repeated paths, keeping the first occurrence of each.
pub fn dedupe_paths(paths: Vec<String>) -> (r: Vec<String>)
    ensures
        string_views(r@) == dedupe_spec(string_views(paths@)),
{
    let mut kept: Vec<String> = Vec::new();
    let mut i: usize = 0;
    while i < paths.len()
        invariant
            i <= paths@.len(),
            string_views(kept@) == dedupe_spec(string_views(paths@.take(i as int))),
        decreases paths.len() - i,
    {
        let p = &paths[i];
        assert(string_views(paths@.take(i + 1)).drop_last() =~= string_views(paths@.take(i as int)));
        assert(string_views(paths@.take(i + 1)).last() == p@);
        let mut seen = false;
        let mut j: usize = 0;
        while j < kept.len()
            invariant
                j <= kept@.len(),
                seen == exists|k: int| 0 <= k < j && path_eq(#[trigger] string_views(kept@)[k], p@),
            decreases kept.len() - j,
        {
            if path_eq_exec(kept[j].as_str(), p.as_str()) {
                assert(path_eq(string_views(kept@)[j as int], p@));
                seen = true;
            }
            j = j + 1;
        }
        assert(seen == has_path(string_views(kept@), p@));
        if !seen {
            let c = p.clone();
            let ghost before = kept@;
            kept.push(c);
            assert(string_views(kept@) =~= string_views(before).push(p@));
        }
        i = i + 1;
    }
    assert(paths@.take(paths@.len() as int) =~= paths@);
    kept
}

/// No two kept paths name the same path.
pub proof fn lemma_dedupe_distinct(ps: Seq<Seq<char>>)
    ensures
        forall|i: int, j: int|
            0 <= i < j < dedupe_spec(ps).len() ==> !path_eq(
                #[trigger] dedupe_spec(ps)[i],
                #[trigger] dedupe_spec(ps)[j],
            ),
    decreases ps.len(),
{
    if ps.len() > 0 {
        lemma_dedupe_distinct(ps.drop_last());
        let rest = dedupe_spec(ps.drop_last());
        if !has_path(rest, ps.last()) {
            assert forall|i: int, j: int|
                0 <= i < j < dedupe_spec(ps).len() implies !path_eq(
                dedupe_spec(ps)[i],
                dedupe_spec(ps)[j],
            ) by {
                if j == rest.len() {
                    assert(dedupe_spec(ps)[i] == rest[i]);
                    if path_eq(rest[i], ps.last()) {
                        assert(has_path(rest, ps.last()));
                    }
                }
            }
        }
    }
}

/// Every input path is named by some kept path, and every kept path is an input path.
pub proof fn lemma_dedupe_covers(ps: Seq<Seq<char>>)
    ensures
        forall|i: int| 0 <= i < ps.len() ==> has_path(dedupe_spec(ps), #[trigger] ps[i]),
        forall|j: int| 0 <= j < dedupe_spec(ps).len() ==> ps.contains(#[trigger] dedupe_spec(ps)[j]),
    decreases ps.len(),
{
    if ps.len() > 0 {
        let init = ps.drop_last();
        lemma_dedupe_covers(init);
        let rest = dedupe_spec(init);
        let d = dedupe_spec(ps);
        assert forall|i: int| 0 <= i < ps.len() implies has_path(d, #[trigger] ps[i]) by {
            if i < ps.len() - 1 {
                assert(ps[i] == init[i]);
                assert(has_path(rest, init[i]));
                let k = choose|k: int| 0 <= k < rest.len() && path_eq(#[trigger] rest[k], init[i]);
                assert(d[k] == rest[k]);
            } else if has_path(rest, ps.last()) {
                let k = choose|k: int| 0 <= k < rest.len() && path_eq(#[trigger] rest[k], ps.last());
                assert(d[k] == rest[k]);
            } else {
                assert(d[rest.len() as int] == ps.last());
                assert(path_eq(d[rest.len() as int], ps[i]));
            }
        }
        assert forall|j: int| 0 <= j < d.len() implies ps.contains(#[trigger] d[j]) by {
            if j < rest.len() {
                assert(d[j] == rest[j]);
                assert(init.contains(rest[j]));
                let k = choose|k: int| 0 <= k < init.len() && init[k] == rest[j];
                assert(ps[k] == init[k]);
            } else {
                assert(d[j] == ps[ps.len() - 1]);
            }
        }
    }
}



/// The context after the file a scout tool call read is recorded as touched.
pub open spec fn touched_recorded(
    before: AgentContext,
    after: AgentContext,
    tool_name: Seq<char>,
    args: JsonValue,
    root: Seq<char>,
) -> bool {
    &&& after.input_prompt == before.input_prompt
    &&& after.accumulated_data == before.accumulated_data
    &&& after.last_tool_call == before.last_tool_call
    &&& after.iterations == before.iterations
    &&& after.max_iterations == before.max_iterations
    &&& after.is_finished == before.is_finished
    &&& after.agent_completed == before.agent_completed
    &&& match scout_touched_path(tool_name, args) {
        None => after.touched_files@ == before.touched_files@,
        Some(p) => string_views(after.touched_files@) == string_views(before.touched_files@).push(
            workspace_path_spec(root, p),
        ),
    }
}

/// What a scout turn hands back for the call the tool turn made: the
/// pattern of a ripgrep search, else nothing.
pub open spec fn scout_pattern(c: Option<(String, JsonValue)>) -> Option<Seq<char>> {
    match c {
        Some((n, args)) => if n@ == "ripgrep"@ {
            get_str(args, "pattern"@)
        } else {
            None
        },
        None => None,
    }
}

/// The scout agent: the model it asks and the tools it offers.
pub struct ScoutAgent<C: crate::llm::LlmClient> {
    pub client: C,
    pub tools: LlmToolSet,
}

impl<C: crate::llm::LlmClient> ScoutAgent<C> {
    /// A scout offering the given read-only tools and `finalize`.
    pub fn new(client: C, read_only: LlmToolSet) -> (r: Self)
        ensures
            r.client == client,
            crate::llm::tool_names(r.tools) == crate::llm::tool_names(read_only).push("finalize"@),
    {
        ScoutAgent { client, tools: scout_tool_set(read_only) }
    }

    /// A scout offering exactly the given tools.
    pub fn with_tools(client: C, tools: LlmToolSet) -> (r: Self)
        ensures
            r.client == client,
            r.tools == tools,
    {
        ScoutAgent { client, tools }
    }

    /// The tools the scout offers.
    pub fn tools(&self) -> (r: &LlmToolSet)
        ensures
            *r == self.tools,
    {
        &self.tools
    }

    /// One scout turn: one tool call asked with the scout's tool-turn request (see
/// `run_single_tool_turn`), the file it
    /// read recorded as touched. When the model searched with ripgrep, its
    /// pattern is handed back for the caller to run the search and record the
    /// files it matched. Whatever the model replies and the tool answers, the
    /// turn is `tool_turn_effect` of them followed by `touched_recorded`.
    pub fn process_and_evaluate<T: crate::llm::ToolInvoker>(
        &self,
        invoker: &T,
        context: &mut AgentContext,
        workspace_root: &str,
    ) -> (r: Result<Option<String>, String>)
        ensures
            exists|
                mid: AgentContext,
                reply: Result<crate::llm::LlmModelTurn, String>,
                answer: Result<crate::llm::ToolInvocation, String>,
                c: Result<Option<(String, JsonValue)>, String>,
            |
                crate::orchestrator::tool_loop_asked(&self.client, SCOUT_SYSTEM_PROMPT@, self.tools, *old(context), reply)
                    && #[trigger] crate::orchestrator::tool_turn_effect(*old(context), mid, reply, answer, c) && match c {
                    Err(e) => r matches Err(x) && x@ == e@ && *final(context) == mid,
                    Ok(call) => (match call {
                        Some((n, args)) => touched_recorded(mid, *final(context), n@, args, workspace_root@),
                        None => *final(context) == mid,
                    }) && match (r, scout_pattern(call)) {
                        (Ok(Some(x)), Some(pt)) => x@ == pt,
                        (Ok(None), None) => true,
                        _ => false,
                    },
                },
            final(context).input_prompt == old(context).input_prompt,
            r matches Ok(Some(_)) ==> (final(context).last_tool_call matches Some((n, _)) && n@ == "ripgrep"@),
    {
        let called = crate::orchestrator::run_single_tool_turn(
            &self.client,
            &self.tools,
            invoker,
            SCOUT_SYSTEM_PROMPT,
            context,
        );
        let ghost cv = called;
        let ghost mid = *context;
        let ghost (reply, answer) = choose|reply: Result<crate::llm::LlmModelTurn, String>, answer: Result<crate::llm::ToolInvocation, String>|
            crate::orchestrator::tool_loop_asked(&self.client, SCOUT_SYSTEM_PROMPT@, self.tools, *old(context), reply)
                && crate::orchestrator::tool_turn_effect(*old(context), mid, reply, answer, cv);
        assert(crate::orchestrator::tool_loop_asked(&self.client, SCOUT_SYSTEM_PROMPT@, self.tools, *old(context), reply));
        assert(crate::orchestrator::tool_turn_effect(*old(context), mid, reply, answer, cv));
        let called = match called {
            Ok(c) => c,
            Err(e) => {
                return Err(e);
            },
        };
        match called {
            Some((name, args)) => {
                record_scout_touched_file(context, name.as_str(), &args, workspace_root);
                assert(touched_recorded(mid, *context, name@, args, workspace_root@));
                if str_eq(name.as_str(), "ripgrep") {
                    match get_str_exec(&args, "pattern") {
                        Some(p) => Ok(Some(p.to_owned())),
                        None => Ok(None),
                    }
                } else {
                    Ok(None)
                }
            },
            None => Ok(None),
        }
    }
}

} // verus!
