//! Web research: the fetcher's tools, report budget and turn nudges.
use vstd::prelude::*;

use crate::json::{get_str, get_str_exec, JsonValue};
use crate::llm::{LlmToolSet, ToolDefinition};
use crate::text::{chars_of, copy_range, decimal, fmt_u64, string_of};

verus! {

pub const WEB_FETCHER_SYSTEM_PROMPT: &'static str = r#"You are an autonomous web research agent (WEB_FETCHER). Your goal is to produce a compacted, accurate markdown document of the latest, authoritative web content for a given topic. The topic can be anything the user asks about; adapt your search approach to the kind of information it requires.

Available tools (call exactly one per turn):
- search_web(query, focus?) — search the web via Brave Search, fetch the top result pages, and return grounded markdown with inline source links. Use `focus` to narrow the search. Non-terminal: results are added to your observation history.
- finalize(report) — end research and return your compacted markdown report.

Strategy:
1. Call search_web with the clearest possible query for the topic.
2. If the results are incomplete, refine the query (more specific terms, add a year, name the canonical source) and call search_web again. You may search up to the hop limit.
3. Once you have enough grounded material, call finalize with a single compacted markdown document: keep the authoritative facts relevant to the topic, drop filler, preserve any source links inline as markdown links.

Efficiency: prefer 1-2 well-targeted searches. Do not repeat the same query. Reply with a short Thought, then call exactly one tool."#;

pub const MAX_PAGES_PER_SEARCH: usize = 3;

pub const CHARS_PER_TOKEN: usize = 4;

/// What a web fetch produced: a cached report or a fresh one.
pub enum WebCacheOutcome {
    Hit(String),
    Fresh(String),
}

/// The character budget for a token budget: `CHARS_PER_TOKEN` characters per token
/// (saturating), at least one.
pub open spec fn char_budget(token_budget: u32) -> int {
    let b = if token_budget * CHARS_PER_TOKEN > usize::MAX {
        usize::MAX as int
    } else {
        token_budget * CHARS_PER_TOKEN
    };
    if b < 1 {
        1
    } else {
        b
    }
}

/// A report cut to the character budget, with a visible note when it was cut.
pub open spec fn truncate_to_token_budget_spec(report: Seq<char>, token_budget: u32) -> Seq<char> {
    if report.len() <= char_budget(token_budget) {
        report
    } else {
        report.take(char_budget(token_budget)) + "\n\n[truncated to fit "@ + decimal(
            token_budget as nat,
        ) + "-token budget]"@
    }
}

/// Truncates `report` to `token_budget * CHARS_PER_TOKEN` characters, noting the cut.
pub fn truncate_to_token_budget(report: &str, token_budget: u32) -> (r: String)
    ensures
        r@ == truncate_to_token_budget_spec(report@, token_budget),
{
    let b: usize = match (token_budget as usize).checked_mul(CHARS_PER_TOKEN) {
        Some(x) => x,
        None => usize::MAX,
    };
    let budget = if b < 1 {
        1
    } else {
        b
    };
    let v = chars_of(report);
    if v.len() <= budget {
        return report.to_owned();
    }
    let kept = copy_range(v.as_slice(), 0, budget);
    assert(kept@ =~= report@.take(budget as int));
    let mut out = string_of(kept.as_slice());
    out.append("\n\n[truncated to fit ");
    let d = fmt_u64(token_budget as u64);
    out.append(d.as_str());
    out.append("-token budget]");
    out
}

/// The fetcher's tools: `search_web` then the terminal `finalize`.
pub fn web_fetcher_tool_set() -> (s: LlmToolSet)
    ensures
        crate::llm::tool_names(s) == seq!["search_web"@, "finalize"@],
{
    let s = LlmToolSet::new().register(
        ToolDefinition::new(
            "search_web",
            "Search the live web via Brave Search and return grounded, cited markdown.",
        ).string_param("query", "Web search query.", true).string_param(
            "focus",
            "Optional focus to narrow results (e.g. 'official source', 'recent news').",
            false,
        ),
    ).register(
        ToolDefinition::new(
            "finalize",
            "Ends web research and returns a compacted markdown report.",
        ).string_param("report", "Final compacted markdown report.", true),
    );
    assert(crate::llm::tool_names(s) =~= seq!["search_web"@, "finalize"@]);
    s
}

/// The query `search_web` runs: `query`, then the non-empty `focus` after a space.
pub open spec fn search_query_spec(arguments: JsonValue) -> Result<Seq<char>, Seq<char>> {
    match get_str(arguments, "query"@) {
        None => Err(crate::json::not_a_string_msg("query"@)),
        Some(q) => match get_str(arguments, "focus"@) {
            Some(f) => if f.len() > 0 {
                Ok(q + " "@ + f)
            } else {
                Ok(q)
            },
            None => Ok(q),
        },
    }
}

/// Builds the search query of a `search_web` call.
pub fn search_query(arguments: &JsonValue) -> (r: Result<String, String>)
    ensures
        match search_query_spec(*arguments) {
            Ok(q) => r matches Ok(x) && x@ == q,
            Err(e) => r matches Err(m) && m@ == e,
        },
{
    let mut q = match crate::json::required_str(arguments, "query") {
        Ok(q) => q,
        Err(e) => {
            return Err(e);
        },
    };
    match get_str_exec(arguments, "focus") {
        Some(f) => if !f.is_empty() {
            q.append(" ");
            q.append(f);
        },
        None => {},
    }
    Ok(q)
}

/// The terminal `finalize` tool: the report, cut to the token budget.
pub fn finalize_web_report(arguments: &JsonValue, token_budget: u32) -> (r: Result<String, String>)
    ensures
        match get_str(*arguments, "report"@) {
            Some(rep) => r matches Ok(x) && x@ == truncate_to_token_budget_spec(rep, token_budget),
            None => r matches Err(m) && m@ == crate::json::not_a_string_msg("report"@),
        },
{
    match crate::json::required_str(arguments, "report") {
        Ok(rep) => Ok(truncate_to_token_budget(rep.as_str(), token_budget)),
        Err(e) => Err(e),
    }
}

pub const WEB_FINAL_TURN: &'static str = "\nFinal turn: call finalize(report) with your best compacted markdown report.";

pub const WEB_CONTINUE: &'static str = "\nContinue research. Call exactly one tool: search_web or finalize.";

/// The nudge for the fetcher's next turn.
pub fn web_fetcher_turn_nudge(iterations: u32, max_iterations: u32) -> (r: &'static str)
    ensures
        r@ == if iterations >= (if max_iterations >= 1 { max_iterations - 1 } else { 0 }) {
            WEB_FINAL_TURN@
        } else {
            WEB_CONTINUE@
        },
{
    if iterations >= max_iterations.saturating_sub(1) {
        WEB_FINAL_TURN
    } else {
        WEB_CONTINUE
    }
}

} // verus!
