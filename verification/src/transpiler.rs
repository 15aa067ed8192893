//! Cross-language type sync: the transpiler's arguments, tools, write gate and the
//! text it adds to its prompt.
use vstd::prelude::*;

use crate::json::{get, get_array, get_str, get_str_exec, get_array_exec, JsonValue};
use crate::llm::{LlmToolSet, ToolDefinition};
use crate::text::{
    chars_of, copy_range, decimal, fmt_usize, is_prefix_within, join, join_strings, prefix_within,
    str_trim, string_of, string_views, trim, utf8_len, byte_len,
};

pub use crate::babysitter::parse_triage_arguments;

verus! {

pub const TRANSPILER_SYSTEM_PROMPT: &'static str = r#"You are the TranspilerAgent — authoritative cross-language API type / DTO sync.

Every turn: reply with a short Thought, then call exactly ONE tool.

Rules:
- Read idiom mapping rules from architecture_layout (field naming, enums, Option/null, collections, validation libs).
- Adapt source idioms natively in the target language.
- Preserve wire-format field names when architecture_layout says so.
- Never edit preserve_paths or any file other than target_path (write_target_file is allowlisted to target_path only).
- Loop: write_target_file → invoke_child_triage → fix until observation contains [TRIAGE PASS] → finalize_sync.
- On iteration cap or unrecoverable mismatch → report_error.

Available tools: write_target_file, invoke_child_triage, finalize_sync, report_error."#;

pub const TRANSPILER_MAX_ITERATIONS: u32 = 15;

pub const CHILD_TRIAGE_MAX_ITERATIONS: u32 = 5;

// ---------------------------------------------------------------------------
// Arguments
// ---------------------------------------------------------------------------

/// The arguments of a transpile_types request.
#[derive(Debug)]
pub struct TranspileTypesArgs {
    pub source_paths: Vec<String>,
    pub target_path: String,
    pub architecture_layout: String,
    pub preserve_paths: Vec<String>,
    pub verify_workspace: Option<String>,
    pub verify_command: Option<String>,
}

pub open spec fn opt_view(o: Option<String>) -> Option<Seq<char>> {
    match o {
        Some(s) => Some(s@),
        None => None,
    }
}

/// The items of a string array from index `i` on, or the first item that is not a string.
pub open spec fn strings_from(items: Seq<JsonValue>, key: Seq<char>, i: int) -> Result<
    Seq<Seq<char>>,
    Seq<char>,
>
    decreases items.len() - i,
{
    if i < 0 || i >= items.len() {
        Ok(Seq::empty())
    } else {
        match items[i] {
            JsonValue::Str(s) => match strings_from(items, key, i + 1) {
                Ok(rest) => Ok(seq![s@] + rest),
                Err(e) => Err(e),
            },
            _ => Err(key + "["@ + decimal(i as nat) + "] must be a string"@),
        }
    }
}

/// A required array of strings.
pub open spec fn required_string_array_spec(args: JsonValue, key: Seq<char>) -> Result<
    Seq<Seq<char>>,
    Seq<char>,
> {
    match get_array(args, key) {
        None => Err(key + " array is required"@),
        Some(items) => strings_from(items, key, 0),
    }
}

/// An optional array of strings: missing or `null` is empty.
pub open spec fn optional_string_array_spec(args: JsonValue, key: Seq<char>) -> Result<
    Seq<Seq<char>>,
    Seq<char>,
> {
    match get(args, key) {
        None => Ok(Seq::empty()),
        Some(JsonValue::Null) => Ok(Seq::empty()),
        Some(JsonValue::Array(items)) => strings_from(items@, key, 0),
        Some(_) => Err(key + " must be an array"@),
    }
}

fn strings_of(items: &Vec<JsonValue>, key: &str) -> (r: Result<Vec<String>, String>)
    ensures
        match strings_from(items@, key@, 0) {
            Ok(v) => r matches Ok(out) && string_views(out@) == v,
            Err(e) => r matches Err(m) && m@ == e,
        },
{
    let mut out: Vec<String> = Vec::new();
    let mut i: usize = 0;
    while i < items.len()
        invariant
            i <= items@.len(),
            strings_from(items@, key@, 0) == match strings_from(items@, key@, i as int) {
                Ok(rest) => Ok(string_views(out@) + rest),
                Err(e) => Err(e),
            },
        decreases items.len() - i,
    {
        match &items[i] {
            JsonValue::Str(s) => {
                let c = s.clone();
                let ghost before = out@;
                out.push(c);
                proof {
                    assert(string_views(out@) =~= string_views(before).push(s@));
                    match strings_from(items@, key@, i + 1) {
                        Ok(rest) => {
                            assert(string_views(before) + (seq![s@] + rest) =~= string_views(out@)
                                + rest);
                        },
                        Err(_) => {},
                    }
                }
            },
            _ => {
                let mut e = key.to_owned();
                e.append("[");
                let d = fmt_usize(i);
                e.append(d.as_str());
                e.append("] must be a string");
                return Err(e);
            },
        }
        i = i + 1;
    }
    assert(string_views(out@) + Seq::<Seq<char>>::empty() =~= string_views(out@));
    Ok(out)
}

/// A required array of strings; each item must be a string.
pub fn required_string_array(args: &JsonValue, key: &str) -> (r: Result<Vec<String>, String>)
    ensures
        match required_string_array_spec(*args, key@) {
            Ok(v) => r matches Ok(out) && string_views(out@) == v,
            Err(e) => r matches Err(m) && m@ == e,
        },
{
    match get_array_exec(args, key) {
        None => {
            let mut e = key.to_owned();
            e.append(" array is required");
            Err(e)
        },
        Some(items) => strings_of(items, key),
    }
}

/// An optional array of strings (missing or `null` is empty).
pub fn optional_string_array(args: &JsonValue, key: &str) -> (r: Result<Vec<String>, String>)
    ensures
        match optional_string_array_spec(*args, key@) {
            Ok(v) => r matches Ok(out) && string_views(out@) == v,
            Err(e) => r matches Err(m) && m@ == e,
        },
{
    match args.get(key) {
        None => Ok(Vec::new()),
        Some(JsonValue::Null) => Ok(Vec::new()),
        Some(JsonValue::Array(items)) => strings_of(items, key),
        Some(_) => {
            let mut e = key.to_owned();
            e.append(" must be an array");
            Err(e)
        },
    }
}

/// The trimmed verify command, when it is a non-blank string.
pub open spec fn verify_command_spec(args: JsonValue) -> Option<Seq<char>> {
    match get_str(args, "verify_command"@) {
        Some(c) => if trim(c).len() > 0 {
            Some(trim(c))
        } else {
            None
        },
        None => None,
    }
}

/// The fields of a transpile_types request, in declaration order.
pub type TranspileView = (
    Seq<Seq<char>>,
    Seq<char>,
    Seq<char>,
    Seq<Seq<char>>,
    Option<Seq<char>>,
    Option<Seq<char>>,
);

pub open spec fn transpile_args_view(a: TranspileTypesArgs) -> TranspileView {
    (
        string_views(a.source_paths@),
        a.target_path@,
        a.architecture_layout@,
        string_views(a.preserve_paths@),
        opt_view(a.verify_workspace),
        opt_view(a.verify_command),
    )
}

/// What `parse_transpile_types_args` makes of a request.
pub open spec fn transpile_args_spec(args: JsonValue) -> Result<TranspileView, Seq<char>> {
    match required_string_array_spec(args, "source_paths"@) {
        Err(e) => Err(e),
        Ok(sources) => if sources.len() == 0 {
            Err("source_paths must not be empty"@)
        } else {
            match get_str(args, "target_path"@) {
                None => Err("target_path is required"@),
                Some(target) => match get_str(args, "architecture_layout"@) {
                    None => Err("architecture_layout is required"@),
                    Some(layout) => match optional_string_array_spec(args, "preserve_paths"@) {
                        Err(e) => Err(e),
                        Ok(preserve) => Ok(
                            (
                                sources,
                                target,
                                layout,
                                preserve,
                                get_str(args, "verify_workspace"@),
                                verify_command_spec(args),
                            ),
                        ),
                    },
                },
            }
        },
    }
}

/// Parses the arguments of a transpile_types request.
pub fn parse_transpile_types_args(args: &JsonValue) -> (r: Result<TranspileTypesArgs, String>)
    ensures
        match transpile_args_spec(*args) {
            Ok(v) => r matches Ok(a) && transpile_args_view(a) == v,
            Err(e) => r matches Err(m) && m@ == e,
        },
{
    let source_paths = match required_string_array(args, "source_paths") {
        Ok(v) => v,
        Err(e) => {
            return Err(e);
        },
    };
    if source_paths.len() == 0 {
        return Err("source_paths must not be empty".to_owned());
    }
    let target_path = match get_str_exec(args, "target_path") {
        Some(t) => t.to_owned(),
        None => {
            return Err("target_path is required".to_owned());
        },
    };
    let architecture_layout = match get_str_exec(args, "architecture_layout") {
        Some(t) => t.to_owned(),
        None => {
            return Err("architecture_layout is required".to_owned());
        },
    };
    let preserve_paths = match optional_string_array(args, "preserve_paths") {
        Ok(v) => v,
        Err(e) => {
            return Err(e);
        },
    };
    let verify_workspace = match get_str_exec(args, "verify_workspace") {
        Some(t) => Some(t.to_owned()),
        None => None,
    };
    let verify_command = match get_str_exec(args, "verify_command") {
        Some(t) => {
            let c = str_trim(t);
            if c.as_str().is_empty() {
                None
            } else {
                Some(c)
            }
        },
        None => None,
    };
    Ok(
        TranspileTypesArgs {
            source_paths,
            target_path,
            architecture_layout,
            preserve_paths,
            verify_workspace,
            verify_command,
        },
    )
}

// ---------------------------------------------------------------------------
// Tools
// ---------------------------------------------------------------------------

/// The transpiler's harness tools.
pub fn transpiler_tool_set() -> (s: LlmToolSet)
    ensures
        crate::llm::tool_names(s) == seq![
            "write_target_file"@,
            "invoke_child_triage"@,
            "finalize_sync"@,
            "report_error"@,
        ],
        forall|i: int|
            0 <= i < crate::llm::tool_names(s).len() ==> (crate::harness::harness_terminal(
                crate::harness::HarnessKind::Transpiler,
                #[trigger] crate::llm::tool_names(s)[i],
            ) <==> i == 2 || i == 3),
{
    let s = LlmToolSet::new().register(
        ToolDefinition::new(
            "write_target_file",
            "Writes or overwrites a target-language file with transpiled types/DTOs.",
        ).string_param("path", "Target file path (relative to repo root).", true).string_param(
            "content",
            "Full file contents to write.",
            true,
        ),
    ).register(
        ToolDefinition::new(
            "invoke_child_triage",
            "Runs a nested TriageAgent loop on target files with compile/type error context.",
        ).string_array_param("target_paths", "Files to fix in the target stack.", true).string_param(
            "error_context",
            "Compiler, type-checker, or linter errors to repair.",
            true,
        ),
    ).register(
        ToolDefinition::new(
            "finalize_sync",
            "Ends the transpiler session after verification passes (terminal).",
        ).string_param("summary", "Optional one-line sync summary.", false),
    ).register(
        ToolDefinition::new(
            "report_error",
            "Ends the transpiler session with a failure reason (terminal).",
        ).string_param("reason", "Why sync could not complete.", true),
    );
    assert(crate::llm::tool_names(s) =~= seq![
        "write_target_file"@,
        "invoke_child_triage"@,
        "finalize_sync"@,
        "report_error"@,
    ]);
    proof {
        reveal_strlit("write_target_file");
        reveal_strlit("invoke_child_triage");
        reveal_strlit("finalize_sync");
        reveal_strlit("report_error");
    }
    assert forall|i: int| 0 <= i < crate::llm::tool_names(s).len() implies (crate::harness::harness_terminal(
        crate::harness::HarnessKind::Transpiler,
        #[trigger] crate::llm::tool_names(s)[i],
    ) <==> i == 2 || i == 3) by {
        assert(crate::llm::tool_names(s)[i].len() > 0);
    }
    s
}

/// The `path` and `content` of write_target_file.
pub fn parse_write_arguments(arguments: &JsonValue) -> (r: Result<(String, String), String>)
    ensures
        match (get_str(*arguments, "path"@), get_str(*arguments, "content"@)) {
            (Some(p), Some(c)) => r matches Ok((a, b)) && a@ == p && b@ == c,
            (None, _) => r matches Err(e) && e@ == crate::json::not_a_string_msg("path"@),
            (Some(_), None) => r matches Err(e) && e@ == crate::json::not_a_string_msg("content"@),
        },
{
    let path = match crate::json::required_str(arguments, "path") {
        Ok(p) => p,
        Err(e) => {
            return Err(e);
        },
    };
    let content = match crate::json::required_str(arguments, "content") {
        Ok(c) => c,
        Err(e) => {
            return Err(e);
        },
    };
    Ok((path, content))
}

/// The `reason` of report_error.
pub fn parse_report_reason(arguments: &JsonValue) -> (r: Result<String, String>)
    ensures
        match get_str(*arguments, "reason"@) {
            Some(s) => r matches Ok(x) && x@ == s,
            None => r matches Err(e) && e@ == crate::json::not_a_string_msg("reason"@),
        },
{
    crate::json::required_str(arguments, "reason")
}

/// The summary finalize_sync reports: `summary` when it is a string.
pub fn finalize_sync_summary(arguments: &JsonValue) -> (r: String)
    ensures
        r@ == match get_str(*arguments, "summary"@) {
            Some(s) => s,
            None => "type sync complete"@,
        },
{
    match get_str_exec(arguments, "summary") {
        Some(s) => s.to_owned(),
        None => "type sync complete".to_owned(),
    }
}

// ---------------------------------------------------------------------------
// The write gate
// ---------------------------------------------------------------------------

/// Some path of `paths` is the same path as `p`.
pub open spec fn names_path(paths: Seq<String>, p: Seq<char>) -> bool {
    exists|j: int| 0 <= j < paths.len() && crate::paths::path_eq(#[trigger] paths[j]@, p)
}

/// Why write_target_file refuses `resolved`, if it does: only `target_path` may be
/// written, and never a preserved path.
pub open spec fn write_refusal_spec(resolved: Seq<char>, target: Seq<char>, preserve: Seq<String>) -> Option<
    Seq<char>,
> {
    if !crate::paths::path_eq(resolved, target) {
        Some("refusing write_target_file: "@ + resolved + " is not target_path "@ + target)
    } else if names_path(preserve, resolved) {
        Some("refusing write_target_file: "@ + resolved + " is in preserve_paths"@)
    } else {
        None
    }
}

/// Checks a resolved write_target_file path against the target and the preserved paths.
pub fn write_target_refusal(resolved: &str, target_path: &str, preserve_paths: &[String]) -> (r:
    Option<String>)
    ensures
        match write_refusal_spec(resolved@, target_path@, preserve_paths@) {
            Some(m) => r matches Some(x) && x@ == m,
            None => r is None,
        },
{
    if !crate::paths::path_eq_exec(resolved, target_path) {
        let mut m = "refusing write_target_file: ".to_owned();
        m.append(resolved);
        m.append(" is not target_path ");
        m.append(target_path);
        return Some(m);
    }
    let mut j: usize = 0;
    while j < preserve_paths.len()
        invariant
            j <= preserve_paths@.len(),
            crate::paths::path_eq(resolved@, target_path@),
            forall|k: int| 0 <= k < j ==> !crate::paths::path_eq(#[trigger] preserve_paths@[k]@, resolved@),
        decreases preserve_paths.len() - j,
    {
        if crate::paths::path_eq_exec(preserve_paths[j].as_str(), resolved) {
            assert(crate::paths::path_eq(preserve_paths@[j as int]@, resolved@));
            let mut m = "refusing write_target_file: ".to_owned();
            m.append(resolved);
            m.append(" is in preserve_paths");
            return Some(m);
        }
        j = j + 1;
    }
    None
}

// ---------------------------------------------------------------------------
// Prompt text
// ---------------------------------------------------------------------------

/// How the transpiler verifies: the explicit command, or triage's own discovery.
pub open spec fn verify_hint_spec(workspace: Seq<char>, command: Option<Seq<char>>) -> Seq<char> {
    match command {
        Some(c) => "cd "@ + workspace + " && "@ + c,
        None => "(triage auto-discover)"@,
    }
}

/// The block appended to the transpiler's prompt before its first turn.
pub open spec fn transpiler_context_spec(
    target: Seq<char>,
    preserve: Seq<String>,
    workspace: Seq<char>,
    command: Option<Seq<char>>,
) -> Seq<char> {
    "\n\nTarget: "@ + target + "\nPreserve: "@ + join(string_views(preserve), ", "@) + "\nVerify: "@
        + verify_hint_spec(workspace, command) + "\n"@
}

/// Target, preserved paths and verify hint for the transpiler's prompt.
pub fn transpiler_context_suffix(
    target_path: &str,
    preserve_paths: &[String],
    verify_workspace: &str,
    verify_command: &Option<String>,
) -> (r: String)
    ensures
        r@ == transpiler_context_spec(
            target_path@,
            preserve_paths@,
            verify_workspace@,
            opt_view(*verify_command),
        ),
{
    let hint = match verify_command {
        Some(c) => {
            let mut h = "cd ".to_owned();
            h.append(verify_workspace);
            h.append(" && ");
            h.append(c.as_str());
            h
        },
        None => "(triage auto-discover)".to_owned(),
    };
    let mut out = "\n\nTarget: ".to_owned();
    out.append(target_path);
    out.append("\nPreserve: ");
    let joined = join_strings(preserve_paths, ", ");
    out.append(joined.as_str());
    out.append("\nVerify: ");
    out.append(hint.as_str());
    out.append("\n");
    out
}

pub const FINAL_TURN_NUDGE: &'static str = "\nFinal turn: fix remaining verify errors or call report_error with reason.";

pub const CONTINUE_NUDGE: &'static str = "\nContinue sync. Call exactly one harness tool.";

/// The nudge for the next turn: the last turn asks to finish or report.
pub fn transpiler_turn_nudge(iterations: u32, max_iterations: u32) -> (r: &'static str)
    ensures
        r@ == if iterations >= (if max_iterations >= 1 { max_iterations - 1 } else { 0 }) {
            FINAL_TURN_NUDGE@
        } else {
            CONTINUE_NUDGE@
        },
{
    if iterations >= max_iterations.saturating_sub(1) {
        FINAL_TURN_NUDGE
    } else {
        CONTINUE_NUDGE
    }
}

// ---------------------------------------------------------------------------
// Source embedding
// ---------------------------------------------------------------------------

/// The longest prefix of `s` that fits in `max_bytes` bytes of UTF-8.
pub fn truncate_utf8_prefix(s: &str, max_bytes: usize) -> (r: String)
    ensures
        r@.len() <= s@.len(),
        r@ == s@.take(r@.len() as int),
        is_prefix_within(s@, max_bytes as nat, r@.len() as int),
{
    let v = chars_of(s);
    let k = prefix_within(v.as_slice(), max_bytes);
    let head = copy_range(v.as_slice(), 0, k);
    assert(head@ =~= s@.take(k as int));
    string_of(head.as_slice())
}

pub const SOURCE_FILES_HEADER: &'static str = "## Source files\n\n";

/// A file's body as embedded: cut to `max` bytes with a marker when it is longer.
pub open spec fn embedded_body(contents: Seq<char>, max: nat, kept: int) -> Seq<char> {
    if utf8_len(contents) > max {
        contents.take(kept) + "\n... [truncated]"@
    } else {
        contents
    }
}

/// One embedded source file: a heading with its path and language, then its fenced body
/// (truncated to `max_bytes` bytes of UTF-8, the longest prefix that fits).
pub fn embed_source_section(display_path: &str, lang: &str, contents: &str, max_bytes: usize) -> (r:
    String)
    ensures
        exists|kept: int|
            is_prefix_within(contents@, max_bytes as nat, kept) && r@ == "### `"@ + display_path@
                + "` ("@ + lang@ + ")\n\n```"@ + lang@ + "\n"@ + embedded_body(
                contents@,
                max_bytes as nat,
                kept,
            ) + "\n```\n\n"@,
{
    let mut out = "### `".to_owned();
    out.append(display_path);
    out.append("` (");
    out.append(lang);
    out.append(")\n\n```");
    out.append(lang);
    out.append("\n");
    let head = truncate_utf8_prefix(contents, max_bytes);
    let ghost kept = head@.len() as int;
    if byte_len(contents) > max_bytes {
        out.append(head.as_str());
        out.append("\n... [truncated]");
    } else {
        out.append(contents);
    }
    out.append("\n```\n\n");
    assert(is_prefix_within(contents@, max_bytes as nat, kept));
    out
}

} // verus!
