//! The transformer agent's own steps: its prompt, what it tells the model,
//! what it asks the codemod model for one line or one range, how it reads that
//! reply, which local codemod a file gets, and how it reports the triage that
//! follows a codemod.
use vstd::prelude::*;

use crate::json::{get_str, not_a_string_msg, required_str, JsonValue};
use crate::llm::{AgentContext, LlmClient, LlmModelTurn, LlmRequest, LlmToolCall, LlmToolSet};
use crate::transformer::{scoped_targets, target_item_spec, target_view, RefactorTarget};
use crate::report::tail_cut_ok;
use crate::text::{
    chars_of, contains, copy_range, decimal, fmt_usize, join, join_strings, lines, lines_exec,
    str_contains, str_eq, string_of, string_views, trim, utf8_len,
};

verus! {

pub const TRANSFORMER_SYSTEM_PROMPT: &'static str = r#"You are an autonomous refactor agent (PHASE_3_5_TRANSFORMER). You apply structural code changes across multiple files.

Available tools (tool calls):
- gather_refactor_targets — runs Scout to locate call sites for a method/struct (ripgrep, ast_calls, ast_constructions)
- apply_structural_codemod — applies a transformation rule to Scout-provided file paths and line numbers

Workflow: gather_refactor_targets first, then apply_structural_codemod with refactor_targets_json copied from Scout's report. Triage verifies compilation after codemod.

Reply with a short rationale (Thought), then call tools."#;

pub const TRANSFORMER_CODEMOD_SYSTEM_PROMPT: &'static str = "You rewrite source code. Return ONLY the replacement content — one line or a multi-line block — with no markdown or explanation.";

pub const TRANSFORMER_SCOUT_MAX_ITERATIONS: u32 = 8;

pub const TRANSFORMER_TRIAGE_MAX_ITERATIONS: u32 = 4;

pub const CODEMOD_CONTEXT_MARGIN: usize = 2;

/// Observation history kept in a transformer request, in bytes.
pub const MAX_OBSERVATION_BYTES: usize = 24000;

/// Adds the transformer system prompt unless the prompt already carries it.
pub fn transformer_enrich_context(context: &mut AgentContext)
    ensures
        final(context).input_prompt@ == if contains(old(context).input_prompt@, "PHASE_3_5_TRANSFORMER"@) {
            old(context).input_prompt@
        } else {
            old(context).input_prompt@ + "\n\n"@ + TRANSFORMER_SYSTEM_PROMPT@
        },
        final(context).accumulated_data == old(context).accumulated_data,
{
    if !str_contains(context.input_prompt.as_str(), "PHASE_3_5_TRANSFORMER") {
        context.input_prompt.append("\n\n");
        context.input_prompt.append(TRANSFORMER_SYSTEM_PROMPT);
    }
}

/// Before the next iteration the prompt asks to continue.
pub fn transformer_mutate_next_iteration(context: &mut AgentContext)
    ensures
        final(context).input_prompt@ == old(context).input_prompt@
            + "\nContinue refactor based on the latest observation."@,
        final(context).accumulated_data == old(context).accumulated_data,
{
    context.input_prompt.append("\nContinue refactor based on the latest observation.");
}

/// The last `max` bytes of a text (a character boundary lies there).
pub open spec fn last_bytes(s: Seq<char>, max: nat) -> Seq<char> {
    s.skip(choose|k: int| 0 <= k <= s.len() && utf8_len(s.skip(k)) == max)
}

/// The transformer's message: the prompt, then the observation history (its
/// last bytes behind a note when it is long).
pub open spec fn transformer_message_spec(prompt: Seq<char>, acc: Seq<char>) -> Seq<char> {
    let obs = if utf8_len(acc) > MAX_OBSERVATION_BYTES as nat {
        "(observation history truncated)\n"@ + last_bytes(acc, MAX_OBSERVATION_BYTES as nat)
    } else {
        acc
    };
    if obs.len() == 0 {
        prompt
    } else {
        prompt + "\n\n---\nObservation history:\n"@ + obs
    }
}

/// Builds the transformer's message. A long history is cut at a byte offset,
/// which must fall on a character boundary.
pub fn transformer_user_message(context: &AgentContext) -> (r: String)
    requires
        tail_cut_ok(context.accumulated_data@, MAX_OBSERVATION_BYTES as nat),
    ensures
        r@ == transformer_message_spec(context.input_prompt@, context.accumulated_data@),
{
    let acc = context.accumulated_data.as_str();
    let obs = if crate::text::byte_len(acc) > MAX_OBSERVATION_BYTES {
        let c = chars_of(acc);
        let k = crate::text::suffix_within(c.as_slice(), MAX_OBSERVATION_BYTES);
        proof {
            let w = choose|w: int| 0 <= w <= acc@.len() && utf8_len(acc@.skip(w)) == MAX_OBSERVATION_BYTES as nat;
            assert(crate::text::is_suffix_within(acc@, MAX_OBSERVATION_BYTES as nat, w)) by {
                if w > 0 {
                    crate::text::lemma_utf8_len_skip_step(acc@, w);
                }
            }
            crate::planner::lemma_suffix_within_unique(acc@, MAX_OBSERVATION_BYTES as nat, k as int, w);
        }
        let tail = copy_range(c.as_slice(), k, c.len());
        assert(tail@ =~= acc@.skip(k as int));
        let mut o = "(observation history truncated)\n".to_owned();
        o.append(string_of(tail.as_slice()).as_str());
        o
    } else {
        acc.to_owned()
    };
    if obs.as_str().is_empty() {
        context.input_prompt.clone()
    } else {
        let mut m = context.input_prompt.clone();
        m.append("\n\n---\nObservation history:\n");
        m.append(obs.as_str());
        m
    }
}

/// Did the triage run after a codemod pass?
pub open spec fn triage_success_spec(c: AgentContext) -> bool {
    c.is_finished && contains(c.input_prompt@, "All builds/tests completed successfully."@)
}

pub fn triage_success(triage: &AgentContext) -> (b: bool)
    ensures
        b == triage_success_spec(*triage),
{
    triage.is_finished && str_contains(triage.input_prompt.as_str(), "All builds/tests completed successfully.")
}

/// The codemod request for one line.
pub open spec fn line_request_spec(path: Seq<char>, line: nat, rule: Seq<char>, snippet: Seq<char>) -> Seq<char> {
    "File: "@ + path + "\nTarget line: "@ + decimal(line) + "\nTransformation rule: "@ + rule + "\n\nContext:\n"@
        + snippet + "\n\nReturn ONLY the new content for line "@ + decimal(line) + "."@
}

pub fn codemod_line_message(path: &str, line: usize, rule: &str, snippet: &str) -> (r: String)
    ensures
        r@ == line_request_spec(path@, line as nat, rule@, snippet@),
{
    let n = fmt_usize(line);
    let mut m = "File: ".to_owned();
    m.append(path);
    m.append("\nTarget line: ");
    m.append(n.as_str());
    m.append("\nTransformation rule: ");
    m.append(rule);
    m.append("\n\nContext:\n");
    m.append(snippet);
    m.append("\n\nReturn ONLY the new content for line ");
    m.append(n.as_str());
    m.append(".");
    m
}

/// The codemod request for a range of lines; a field migration adds a note on
/// which fields are optional.
pub open spec fn range_request_spec(
    path: Seq<char>,
    start: nat,
    end: nat,
    rule: Seq<char>,
    snippet: Seq<char>,
) -> Seq<char> {
    let field_rules = if crate::migration::migration_words(crate::text::unicode_lower(rule)) {
        "\n- `source_module` / `sourceModule` is `String`, NOT `Option`. Only `correlation_id` / `correlationId` is optional.\n"@
    } else {
        Seq::empty()
    };
    "File: "@ + path + "\nTarget lines: "@ + decimal(start) + "-"@ + decimal(end) + "\nTransformation rule: "@
        + rule + field_rules + "\n- Preserve indentation of the first line of the replaced range.\n\nContext:\n"@
        + snippet + "\n\nReturn ONLY the replacement content for lines "@ + decimal(start) + " through "@
        + decimal(end) + " (may be multiple lines)."@
}

pub fn codemod_range_message(path: &str, start: usize, end: usize, rule: &str, snippet: &str) -> (r: String)
    ensures
        r@ == range_request_spec(path@, start as nat, end as nat, rule@, snippet@),
{
    let a = fmt_usize(start);
    let b = fmt_usize(end);
    let mut m = "File: ".to_owned();
    m.append(path);
    m.append("\nTarget lines: ");
    m.append(a.as_str());
    m.append("-");
    m.append(b.as_str());
    m.append("\nTransformation rule: ");
    m.append(rule);
    if crate::migration::instruction_contains_field_migration(rule) {
        m.append(
            "\n- `source_module` / `sourceModule` is `String`, NOT `Option`. Only `correlation_id` / `correlationId` is optional.\n",
        );
    }
    m.append("\n- Preserve indentation of the first line of the replaced range.\n\nContext:\n");
    m.append(snippet);
    m.append("\n\nReturn ONLY the replacement content for lines ");
    m.append(a.as_str());
    m.append(" through ");
    m.append(b.as_str());
    m.append(" (may be multiple lines).");
    m
}

pub open spec fn empty_codemod_msg() -> Seq<char> {
    "codemod model returned empty content"@
}

/// The codemod model's reply as replacement text: trimmed, never empty, and
/// only its first line when one line was asked for.
pub open spec fn codemod_reply_spec(content: Option<Seq<char>>, single_line: bool) -> Result<Seq<char>, Seq<char>> {
    match content {
        Some(c) => if trim(c).len() == 0 {
            Err(empty_codemod_msg())
        } else if single_line && lines(trim(c)).len() > 0 {
            Ok(lines(trim(c))[0])
        } else {
            Ok(trim(c))
        },
        None => Err(empty_codemod_msg()),
    }
}

pub fn codemod_reply(content: Option<String>, single_line: bool) -> (r: Result<String, String>)
    ensures
        match codemod_reply_spec(
            match content {
                Some(c) => Some(c@),
                None => None,
            },
            single_line,
        ) {
            Ok(x) => r matches Ok(y) && y@ == x,
            Err(e) => r matches Err(y) && y@ == e,
        },
{
    match content {
        Some(c) => {
            let t = crate::text::str_trim(c.as_str());
            if t.as_str().is_empty() {
                return Err("codemod model returned empty content".to_owned());
            }
            if single_line {
                let tc = chars_of(t.as_str());
                let ls = lines_exec(tc.as_slice());
                if ls.len() > 0 {
                    assert(crate::text::views(ls@)[0] == ls@[0]@);
                    return Ok(string_of(ls[0].as_slice()));
                }
            }
            Ok(t)
        },
        None => Err("codemod model returned empty content".to_owned()),
    }
}

/// What a codemod request yields for the model's `reply`: a failed request's
/// error, else the reading of the reply's content.
pub open spec fn codemod_outcome(reply: Result<crate::llm::LlmModelTurn, String>, single_line: bool) -> Result<
    Seq<char>,
    Seq<char>,
> {
    match reply {
        Err(e) => Err(e@),
        Ok(t) => codemod_reply_spec(
            match t.content {
                Some(c) => Some(c@),
                None => None,
            },
            single_line,
        ),
    }
}

/// `r` asks for replacement content: the codemod system prompt, the message,
/// and no tools.
pub open spec fn is_codemod_request(user_message: Seq<char>, r: LlmRequest) -> bool {
    &&& r.system_prompt@ == TRANSFORMER_CODEMOD_SYSTEM_PROMPT@
    &&& r.user_message@ == user_message
    &&& r.tools@.len() == 0
}

/// The request for replacement content: the codemod system prompt, the
/// message, and no tools.
pub fn codemod_request(user_message: &str) -> (r: LlmRequest)
    ensures
        is_codemod_request(user_message@, r),
{
    LlmRequest {
        system_prompt: TRANSFORMER_CODEMOD_SYSTEM_PROMPT.to_owned(),
        user_message: user_message.to_owned(),
        tools: Vec::new(),
    }
}

/// Asks the codemod model for replacement content with the codemod request
/// (`is_codemod_request`); whatever the model replies, the result is
/// `codemod_outcome` of the reply.
pub fn codemod_content<C: LlmClient>(client: &C, user_message: &str, single_line: bool) -> (r: Result<String, String>)
    ensures
        exists|req: LlmRequest, reply: Result<crate::llm::LlmModelTurn, String>|
            is_codemod_request(user_message@, req) && #[trigger] client.answers(req, reply)
                && codemod_outcome(reply, single_line) == match r {
                Ok(x) => Ok::<Seq<char>, Seq<char>>(x@),
                Err(e) => Err::<Seq<char>, Seq<char>>(e@),
            },
{
    let request = codemod_request(user_message);
    let ghost req = request;
    let reply = client.complete(request);
    let ghost reply_v = reply;
    assert(is_codemod_request(user_message@, req) && client.answers(req, reply_v));
    let turn = match reply {
        Ok(t) => t,
        Err(e) => {
            assert(codemod_outcome(reply_v, single_line) == Err::<Seq<char>, Seq<char>>(e@));
            return Err(e);
        },
    };
    let r = codemod_reply(turn.content, single_line);
    assert(codemod_outcome(reply_v, single_line) == match r {
        Ok(x) => Ok::<Seq<char>, Seq<char>>(x@),
        Err(e) => Err::<Seq<char>, Seq<char>>(e@),
    });
    r
}

pub const STRUCTURAL_CHANGES_APPLIED: &'static str = "\n[TRANSFORMER]: Structural changes applied. Launching Triage to fix compiler side-effects...\n";

/// The prompt of the triage that follows a codemod pass.
pub fn refactor_triage_prompt(rule: &str) -> (r: String)
    ensures
        r@ == "Verify compilation after global refactor:\n"@ + rule@,
{
    let mut p = "Verify compilation after global refactor:\n".to_owned();
    p.append(rule);
    p
}

/// What the transformer records of the triage that followed its codemod pass:
/// the triage's data, then, when it passed, the field-migration verification
/// (which finishes the refactor when every check passed); otherwise that the
/// refactor broke the build.
pub open spec fn after_triage_spec(triage_ok: bool, triage_data: Seq<char>, verification: Seq<char>) -> (Seq<char>, bool) {
    let head = "\n[TRIAGE RESULT]: "@ + triage_data + "\n"@;
    if triage_ok {
        if crate::codemod::verification_passed_spec(verification) {
            (head + verification + "\n[TRANSFORMER OK]\n"@, true)
        } else {
            (
                head + verification
                    + "\n[TRANSFORMER INCOMPLETE]: verification checks failed for one or more touched files\n"@,
                false,
            )
        }
    } else {
        (
            head
                + "\n[TRIAGE FAILURE]: Refactoring broke compilation in a way that requires Architect intervention: "@
                + triage_data + "\n"@,
            false,
        )
    }
}

/// Records the triage that followed a codemod pass. `verification` is the
/// field-migration report of the touched files, read only when the triage
/// passed.
pub fn record_refactor_triage(context: &mut AgentContext, triage: &AgentContext, verification: &str)
    ensures
        final(context).accumulated_data@ == old(context).accumulated_data@ + after_triage_spec(
            triage_success_spec(*triage),
            triage.accumulated_data@,
            verification@,
        ).0,
        final(context).is_finished == (old(context).is_finished || after_triage_spec(
            triage_success_spec(*triage),
            triage.accumulated_data@,
            verification@,
        ).1),
        final(context).input_prompt == old(context).input_prompt,
{
    let ghost before = context.accumulated_data@;
    context.accumulated_data.append("\n[TRIAGE RESULT]: ");
    context.accumulated_data.append(triage.accumulated_data.as_str());
    context.accumulated_data.append("\n");
    if triage_success(triage) {
        context.accumulated_data.append(verification);
        if crate::codemod::verification_passed(verification) {
            context.is_finished = true;
            context.accumulated_data.append("\n[TRANSFORMER OK]\n");
        } else {
            context.accumulated_data.append(
                "\n[TRANSFORMER INCOMPLETE]: verification checks failed for one or more touched files\n",
            );
        }
    } else {
        context.accumulated_data.append(
            "\n[TRIAGE FAILURE]: Refactoring broke compilation in a way that requires Architect intervention: ",
        );
        context.accumulated_data.append(triage.accumulated_data.as_str());
        context.accumulated_data.append("\n");
    }
    assert(context.accumulated_data@ =~= before + after_triage_spec(
        triage_success_spec(*triage),
        triage.accumulated_data@,
        verification@,
    ).0);
}

/// The error of a codemod pass that touched no file.
pub open spec fn nothing_applied_spec(errors: Seq<Seq<char>>) -> Seq<char> {
    if errors.len() == 0 {
        "no refactor targets were applied"@
    } else {
        "all codemod attempts failed: "@ + join(errors, "; "@)
    }
}

pub fn nothing_applied_error(errors: &[String]) -> (r: String)
    ensures
        r@ == nothing_applied_spec(string_views(errors@)),
{
    if errors.len() == 0 {
        "no refactor targets were applied".to_owned()
    } else {
        let mut e = "all codemod attempts failed: ".to_owned();
        e.append(join_strings(errors, "; ").as_str());
        e
    }
}

/// Records the model's thought before its tool calls; with no tool call a
/// thought is still progress, and silence is an error.
pub open spec fn reply_note_spec(thought: Seq<char>, has_calls: bool) -> Result<Seq<char>, Seq<char>> {
    if !has_calls {
        if thought.len() == 0 {
            Err("model response missing tool call"@)
        } else {
            Ok("Thought:\n"@ + thought + "\n(model did not call a tool — continue)\n"@)
        }
    } else if thought.len() == 0 {
        Ok(Seq::empty())
    } else {
        Ok("Thought:\n"@ + thought + "\n"@)
    }
}

pub fn record_transformer_reply(context: &mut AgentContext, content: &Option<String>, has_calls: bool) -> (r: Result<
    (),
    String,
>)
    ensures
        match reply_note_spec(
            match content {
                Some(c) => c@,
                None => Seq::empty(),
            },
            has_calls,
        ) {
            Ok(n) => r is Ok && final(context).accumulated_data@ == old(context).accumulated_data@ + n,
            Err(e) => r matches Err(x) && x@ == e && final(context).accumulated_data == old(
                context,
            ).accumulated_data,
        },
        final(context).input_prompt == old(context).input_prompt,
        final(context).is_finished == old(context).is_finished,
{
    proof {
        reveal_strlit("");
    }
    let thought: &str = match content {
        Some(c) => c.as_str(),
        None => "",
    };
    if !has_calls {
        if thought.is_empty() {
            return Err("model response missing tool call".to_owned());
        }
        context.accumulated_data.append("Thought:\n");
        context.accumulated_data.append(thought);
        context.accumulated_data.append("\n(model did not call a tool — continue)\n");
        return Ok(());
    }
    if !thought.is_empty() {
        context.accumulated_data.append("Thought:\n");
        context.accumulated_data.append(thought);
        context.accumulated_data.append("\n");
    } else {
        assert(context.accumulated_data@ =~= old(context).accumulated_data@ + Seq::<char>::empty());
    }
    Ok(())
}

/// Records one tool call of the model.
pub fn record_transformer_call(context: &mut AgentContext, name: &str, arguments: &str)
    ensures
        final(context).accumulated_data@ == old(context).accumulated_data@ + "Tool: "@ + name@ + "("@
            + arguments@ + ")\n"@,
        final(context).input_prompt == old(context).input_prompt,
        final(context).is_finished == old(context).is_finished,
{
    context.accumulated_data.append("Tool: ");
    context.accumulated_data.append(name);
    context.accumulated_data.append("(");
    context.accumulated_data.append(arguments);
    context.accumulated_data.append(")\n");
}

/// The note of a gather narrowed to a scope: how many of the targets stayed.
pub fn scoped_gather_note(scope: &str, kept: usize, total: usize) -> (r: String)
    ensures
        r@ == "\n[SYSTEM]: Scoped gather to "@ + scope@ + " ("@ + decimal(kept as nat) + "/"@ + decimal(
            total as nat,
        ) + " targets)\n"@,
{
    let mut s = "\n[SYSTEM]: Scoped gather to ".to_owned();
    s.append(scope);
    s.append(" (");
    s.append(fmt_usize(kept).as_str());
    s.append("/");
    s.append(fmt_usize(total).as_str());
    s.append(" targets)\n");
    s
}

/// The error of a gather whose targets all lie outside the scope.
pub fn no_targets_under_scope(scope: &str) -> (r: String)
    ensures
        r@ == "no refactor targets under scope "@ + scope@,
{
    let mut s = "no refactor targets under scope ".to_owned();
    s.append(scope);
    s
}


// ---------------------------------------------------------------------------
// Tool calls
// ---------------------------------------------------------------------------

/// What the transformer does for one tool call; the caller performs it.
pub enum TransformerAction {
    /// Scan the workspace for the refactor targets of `method_name`.
    Gather { method_name: String },
    /// Apply `rule` to the targets listed in the JSON text `targets_json`.
    ApplyCodemod { rule: String, targets_json: String },
}

/// What an action is, as plain values.
pub enum TransformerActionView {
    Gather(Seq<char>),
    ApplyCodemod(Seq<char>, Seq<char>),
}

pub open spec fn transformer_action_view(a: TransformerAction) -> TransformerActionView {
    match a {
        TransformerAction::Gather { method_name } => TransformerActionView::Gather(method_name@),
        TransformerAction::ApplyCodemod { rule, targets_json } => TransformerActionView::ApplyCodemod(
            rule@,
            targets_json@,
        ),
    }
}

/// The transformer's reading of a tool call.
pub open spec fn transformer_action_spec(name: Seq<char>, args: JsonValue) -> Result<
    TransformerActionView,
    Seq<char>,
> {
    if name == "gather_refactor_targets"@ {
        match get_str(args, "method_name"@) {
            Some(m) => Ok(TransformerActionView::Gather(m)),
            None => Err(not_a_string_msg("method_name"@)),
        }
    } else if name == "apply_structural_codemod"@ {
        match (get_str(args, "transformation_rule"@), get_str(args, "refactor_targets_json"@)) {
            (None, _) => Err(not_a_string_msg("transformation_rule"@)),
            (Some(_), None) => Err(not_a_string_msg("refactor_targets_json"@)),
            (Some(r), Some(t)) => Ok(TransformerActionView::ApplyCodemod(r, t)),
        }
    } else {
        Err("unsupported transformer tool: "@ + name)
    }
}

/// Reads a tool call of the transformer's model (see `transformer_action_spec`).
pub fn transformer_action(name: &str, args: &JsonValue) -> (r: Result<TransformerAction, String>)
    ensures
        match transformer_action_spec(name@, *args) {
            Ok(v) => r matches Ok(a) && transformer_action_view(a) == v,
            Err(e) => r matches Err(x) && x@ == e,
        },
{
    if str_eq(name, "gather_refactor_targets") {
        match crate::transformer::parse_method_name(args) {
            Ok(m) => Ok(TransformerAction::Gather { method_name: m }),
            Err(e) => Err(e),
        }
    } else if str_eq(name, "apply_structural_codemod") {
        let rule = match required_str(args, "transformation_rule") {
            Ok(r) => r,
            Err(e) => {
                return Err(e);
            },
        };
        match required_str(args, "refactor_targets_json") {
            Ok(t) => Ok(TransformerAction::ApplyCodemod { rule, targets_json: t }),
            Err(e) => Err(e),
        }
    } else {
        let mut e = "unsupported transformer tool: ".to_owned();
        e.append(name);
        Err(e)
    }
}

/// The targets of `apply_structural_codemod`, from its `refactor_targets_json`
/// text as read into JSON items (or the reader's error): a text that is no
/// array, a bad item or an empty list is refused.
pub fn codemod_targets(parsed: Result<Vec<JsonValue>, String>, workspace_root: &str) -> (r: Result<
    Vec<RefactorTarget>,
    String,
>)
    ensures
        match parsed {
            Err(e) => r matches Err(m) && m@ == "refactor_targets_json must be a JSON array: "@ + e@,
            Ok(items) => {
                &&& items@.len() == 0 ==> (r matches Err(m) && m@
                    == "refactor_targets_json must contain at least one target"@)
                &&& (items@.len() > 0 && forall|i: int|
                    0 <= i < items@.len() ==> #[trigger] target_item_spec(items@[i], workspace_root@)
                        is Ok) ==> (r matches Ok(ts) && ts@.len() == items@.len() && forall|i: int|
                    0 <= i < items@.len() ==> target_item_spec(items@[i], workspace_root@) == Ok::<
                        (Seq<char>, Seq<nat>, Seq<(nat, nat)>),
                        Seq<char>,
                    >(target_view(#[trigger] ts@[i])))
                &&& r is Err && items@.len() > 0 ==> (r matches Err(m) && exists|i: int|
                    0 <= i < items@.len() && target_item_spec(#[trigger] items@[i], workspace_root@)
                        == Err::<(Seq<char>, Seq<nat>, Seq<(nat, nat)>), Seq<char>>(m@) && forall|
                        k: int,
                    |
                        0 <= k < i ==> target_item_spec(#[trigger] items@[k], workspace_root@) is Ok)
            },
        },
{
    match parsed {
        Err(e) => {
            let mut m = "refactor_targets_json must be a JSON array: ".to_owned();
            m.append(e.as_str());
            Err(m)
        },
        Ok(items) => {
            if items.len() == 0 {
                return Err("refactor_targets_json must contain at least one target".to_owned());
            }
            let r = crate::transformer::parse_refactor_targets(&items, workspace_root);
            proof {
                if forall|i: int|
                    0 <= i < items@.len() ==> #[trigger] target_item_spec(items@[i], workspace_root@)
                        is Ok {
                    if r is Err {
                        let m = r->Err_0;
                        let i = choose|i: int|
                            0 <= i < items@.len() && target_item_spec(
                                #[trigger] items@[i],
                                workspace_root@,
                            ) == Err::<(Seq<char>, Seq<nat>, Seq<(nat, nat)>), Seq<char>>(m@)
                                && forall|k: int|
                                0 <= k < i ==> target_item_spec(
                                    #[trigger] items@[k],
                                    workspace_root@,
                                ) is Ok;
                        assert(target_item_spec(items@[i], workspace_root@) is Ok);
                    }
                }
            }
            r
        },
    }
}

/// The gathered targets narrowed to the scope directory, with the note that
/// says how many stayed; none staying is an error.
pub fn scope_gathered_targets(targets: Vec<RefactorTarget>, scope: &str) -> (r: Result<
    (Vec<RefactorTarget>, String),
    String,
>)
    ensures
        scoped_targets(targets@, scope@).len() == 0 ==> (r matches Err(e) && e@
            == "no refactor targets under scope "@ + scope@),
        scoped_targets(targets@, scope@).len() > 0 ==> (r matches Ok((kept, note)) && kept@
            == scoped_targets(targets@, scope@) && note@ == "\n[SYSTEM]: Scoped gather to "@
            + scope@ + " ("@ + decimal(kept@.len()) + "/"@ + decimal(targets@.len()) + " targets)\n"@),
{
    let total = targets.len();
    let kept = crate::transformer::filter_targets_by_scope(targets, scope);
    if kept.len() == 0 {
        return Err(no_targets_under_scope(scope));
    }
    let note = scoped_gather_note(scope, kept.len(), total);
    Ok((kept, note))
}

/// Where a codemod attempt lies: `file line l` or `file lines s-e`.
pub open spec fn codemod_site(file: Seq<char>, start: nat, end: nat, single_line: bool) -> Seq<char> {
    if single_line {
        file + " line "@ + decimal(start)
    } else {
        file + " lines "@ + decimal(start) + "-"@ + decimal(end)
    }
}

/// Records the outcome of one codemod attempt on a file: a success adds the file
/// to the touched files (once), a failure is listed with its site and noted.
pub fn record_codemod_outcome(
    context: &mut AgentContext,
    touched: &mut Vec<String>,
    errors: &mut Vec<String>,
    file: &str,
    start: usize,
    end: usize,
    single_line: bool,
    outcome: &Result<(), String>,
)
    ensures
        final(context).input_prompt == old(context).input_prompt,
        final(context).is_finished == old(context).is_finished,
        match outcome {
            Ok(()) => {
                &&& string_views(final(errors)@) == string_views(old(errors)@)
                &&& final(context).accumulated_data == old(context).accumulated_data
                &&& if string_views(old(touched)@).contains(file@) {
                    &&& string_views(final(touched)@) == string_views(old(touched)@)
                    &&& string_views(final(context).touched_files@) == string_views(
                        old(context).touched_files@,
                    )
                } else {
                    &&& string_views(final(touched)@) == string_views(old(touched)@).push(file@)
                    &&& string_views(final(context).touched_files@) == string_views(
                        old(context).touched_files@,
                    ).push(file@)
                }
            },
            Err(err) => {
                &&& string_views(final(touched)@) == string_views(old(touched)@)
                &&& string_views(final(context).touched_files@) == string_views(
                    old(context).touched_files@,
                )
                &&& string_views(final(errors)@) == string_views(old(errors)@).push(
                    codemod_site(file@, start as nat, end as nat, single_line) + ": "@ + err@,
                )
                &&& final(context).accumulated_data@ == old(context).accumulated_data@
                    + "Codemod error: "@ + err@ + "\n"@
            },
        },
{
    match outcome {
        Ok(()) => {
            let mut seen = false;
            let mut i: usize = 0;
            while i < touched.len()
                invariant
                    i <= touched@.len(),
                    seen == string_views(touched@).take(i as int).contains(file@),
                decreases touched.len() - i,
            {
                assert(string_views(touched@).take(i + 1) =~= string_views(touched@).take(
                    i as int,
                ).push(touched@[i as int]@));
                let eq = str_eq(touched[i].as_str(), file);
                proof {
                    let a = string_views(touched@).take(i as int);
                    let b = string_views(touched@).take(i + 1);
                    if eq {
                        assert(b[i as int] == file@);
                    } else if b.contains(file@) {
                        let j = choose|j: int| 0 <= j < b.len() && b[j] == file@;
                        if j < i {
                            assert(a[j] == file@);
                        }
                    }
                }
                if eq {
                    seen = true;
                }
                i = i + 1;
            }
            assert(string_views(touched@).take(touched@.len() as int) =~= string_views(touched@));
            if !seen {
                let ghost t0 = touched@;
                let ghost c0 = context.touched_files@;
                touched.push(file.to_owned());
                context.touched_files.push(file.to_owned());
                assert(string_views(touched@) =~= string_views(t0).push(file@));
                assert(string_views(context.touched_files@) =~= string_views(c0).push(file@));
            }
        },
        Err(err) => {
            let mut m = file.to_owned();
            if single_line {
                m.append(" line ");
                m.append(fmt_usize(start).as_str());
            } else {
                m.append(" lines ");
                m.append(fmt_usize(start).as_str());
                m.append("-");
                m.append(fmt_usize(end).as_str());
            }
            m.append(": ");
            m.append(err.as_str());
            let ghost e0 = errors@;
            errors.push(m);
            assert(string_views(errors@) =~= string_views(e0).push(
                codemod_site(file@, start as nat, end as nat, single_line) + ": "@ + err@,
            ));
            context.accumulated_data.append("Codemod error: ");
            context.accumulated_data.append(err.as_str());
            context.accumulated_data.append("\n");
        },
    }
}

/// Records a target file that is gone.
pub fn record_skipped_file(context: &mut AgentContext, file: &str)
    ensures
        final(context).accumulated_data@ == old(context).accumulated_data@ + "Skipped missing file: "@
            + file@ + "\n"@,
        final(context).input_prompt == old(context).input_prompt,
        final(context).is_finished == old(context).is_finished,
        final(context).touched_files == old(context).touched_files,
{
    context.accumulated_data.append("Skipped missing file: ");
    context.accumulated_data.append(file);
    context.accumulated_data.append("\n");
}

// ---------------------------------------------------------------------------
// Turns
// ---------------------------------------------------------------------------

/// `r` is the request of a transformer turn on `context`: the transformer
/// system prompt, the prompt with the observation history, and its tools.
pub open spec fn is_transformer_request(context: AgentContext, tools: LlmToolSet, r: LlmRequest) -> bool {
    &&& r.system_prompt@ == TRANSFORMER_SYSTEM_PROMPT@
    &&& r.user_message@ == transformer_message_spec(context.input_prompt@, context.accumulated_data@)
    &&& crate::llm::request_tool_names(r) == crate::llm::tool_names(tools)
}

/// What a transformer turn does with the model's reply, up to its tool calls:
/// a failed call fails the turn; the thought is recorded by `reply_note_spec`
/// (a reply with neither thought nor call fails the turn); the calls are handed
/// back in order.
pub open spec fn transformer_reply_effect(
    before: AgentContext,
    after: AgentContext,
    reply: Result<LlmModelTurn, String>,
    r: Result<Vec<LlmToolCall>, String>,
) -> bool {
    &&& after.input_prompt == before.input_prompt
    &&& after.is_finished == before.is_finished
    &&& match reply {
        Err(e) => r matches Err(x) && x@ == e@ && after.accumulated_data == before.accumulated_data,
        Ok(t) => match reply_note_spec(crate::orchestrator::thought_of(t), t.tool_calls@.len() > 0) {
            Err(e) => r matches Err(x) && x@ == e && after.accumulated_data == before.accumulated_data,
            Ok(n) => r matches Ok(v) && v@ == t.tool_calls@ && after.accumulated_data@
                == before.accumulated_data@ + n,
        },
    }
}

/// One transformer turn up to its tool calls: the model is asked with the
/// transformer request (`is_transformer_request`) and its reply read by
/// `transformer_reply_effect`.
pub fn transformer_turn<C: LlmClient>(client: &C, tools: &LlmToolSet, context: &mut AgentContext) -> (r: Result<
    Vec<LlmToolCall>,
    String,
>)
    requires
        tail_cut_ok(old(context).accumulated_data@, MAX_OBSERVATION_BYTES as nat),
    ensures
        exists|req: LlmRequest, reply: Result<LlmModelTurn, String>|
            is_transformer_request(*old(context), *tools, req) && #[trigger] client.answers(req, reply)
                && transformer_reply_effect(*old(context), *final(context), reply, r),
{
    let m = transformer_user_message(context);
    let request = LlmRequest {
        system_prompt: TRANSFORMER_SYSTEM_PROMPT.to_owned(),
        user_message: m,
        tools: crate::llm::offered_tools(tools),
    };
    let ghost req = request;
    let reply = client.complete(request);
    let ghost rv = reply;
    assert(is_transformer_request(*old(context), *tools, req) && client.answers(req, rv));
    let turn = match reply {
        Ok(t) => t,
        Err(e) => {
            return Err(e);
        },
    };
    let has_calls = turn.tool_calls.len() > 0;
    match record_transformer_reply(context, &turn.content, has_calls) {
        Ok(()) => Ok(turn.tool_calls),
        Err(e) => Err(e),
    }
}

/// One tool call of a transformer turn: the call is noted (its arguments as
/// `call_text` writes them) and read by `transformer_action_spec`.
pub fn transformer_call_step(context: &mut AgentContext, name: &str, raw_arguments: &str, args: &JsonValue) -> (r: Result<
    TransformerAction,
    String,
>)
    ensures
        final(context).input_prompt == old(context).input_prompt,
        final(context).is_finished == old(context).is_finished,
        final(context).accumulated_data@ == old(context).accumulated_data@ + "Tool: "@ + name@ + "("@
            + crate::json::call_text(raw_arguments@) + ")\n"@,
        match transformer_action_spec(name@, *args) {
            Ok(v) => r matches Ok(a) && transformer_action_view(a) == v,
            Err(e) => r matches Err(x) && x@ == e,
        },
{
    let text = crate::json::call_arguments_text(raw_arguments);
    record_transformer_call(context, name, text.as_str());
    transformer_action(name, args)
}

} // verus!
