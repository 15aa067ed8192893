//! Context densifier: token estimates, the auto-compact thresholds, and the
//! request/reply handling around the pruner model.
use vstd::prelude::*;

use crate::llm::{AgentContext, LlmClient, LlmRequest};
use crate::text::{
    chars_of, contains, debug_quote, debug_str, decimal, fmt_u64, lower_ascii, lower_ascii_exec,
    str_contains, str_eq, str_trim, string_of, trim,
};

verus! {

pub const CHARS_PER_TOKEN: usize = 4;

pub const COMPACT_THRESHOLD_PCT: u32 = 80;

pub const COMPACT_CONTEXT_TOOL_NAME: &'static str = "compact_context";

pub const PRUNER_SYSTEM_PROMPT: &'static str = "You are a context densifier (PRUNER). Rewrite the transcript into a shorter main prompt for another agent.

Rules:
- Preserve every actionable fact: paths, file:line, symbols, errors, decisions, open questions, tool outcomes
- Drop chatter, repeated observations, and redundant tool dumps
- Output ONLY the densified prompt text — no preamble, no markdown fences around the whole reply
- Stay under the TARGET_TOKENS budget (approx 4 chars ≈ 1 token)
";

/// How hard the pruner squeezes.
#[derive(PartialEq, Eq, Structural, Clone, Copy, Debug)]
pub enum CompactMode {
    /// Densify with minimal information loss (may stay near the target).
    Compact,
    /// Hard-fit under target_tokens.
    Reduce,
}

impl CompactMode {
    /// Reads `compact` or `reduce`, ignoring surrounding whitespace and ASCII case.
    pub fn parse(s: &str) -> (r: Result<Self, String>)
        ensures
            lower_ascii(trim(s@)) == "compact"@ ==> r == Ok::<Self, String>(CompactMode::Compact),
            lower_ascii(trim(s@)) == "reduce"@ ==> r == Ok::<Self, String>(CompactMode::Reduce),
            lower_ascii(trim(s@)) != "compact"@ && lower_ascii(trim(s@)) != "reduce"@ ==> (r matches Err(
                e,
            ) && e@ == "mode must be compact|reduce, got "@ + debug_str(lower_ascii(trim(s@)))),
    {
        proof {
            reveal_strlit("reduce");
            reveal_strlit("compact");
            assert("reduce"@ != "compact"@) by {
                assert("reduce"@.len() != "compact"@.len());
            }
        }
        let t = str_trim(s);
        let tv = chars_of(t.as_str());
        let low = string_of(lower_ascii_exec(tv.as_slice()).as_slice());
        if str_eq(low.as_str(), "compact") {
            Ok(CompactMode::Compact)
        } else if str_eq(low.as_str(), "reduce") {
            Ok(CompactMode::Reduce)
        } else {
            let mut e = "mode must be compact|reduce, got ".to_owned();
            let q = debug_quote(low.as_str());
            e.append(q.as_str());
            Err(e)
        }
    }

    /// The lowercase name of the mode.
    pub fn as_str(self) -> (s: &'static str)
        ensures
            self is Compact ==> s@ == "compact"@,
            self is Reduce ==> s@ == "reduce"@,
    {
        match self {
            CompactMode::Compact => "compact",
            CompactMode::Reduce => "reduce",
        }
    }
}

/// `ceil(chars / 4)`, at least 1.
pub open spec fn estimate_tokens_spec(chars: nat) -> nat {
    let t = (chars + 3) / 4;
    if t < 1 {
        1
    } else {
        t
    }
}

/// Estimated tokens of a text: one token per four characters, rounded up, at least one.
pub fn estimate_tokens(text: &str) -> (n: usize)
    ensures
        n == estimate_tokens_spec(text@.len()),
{
    let c = chars_of(text).len();
    let t = c / CHARS_PER_TOKEN + if c % CHARS_PER_TOKEN == 0 {
        0
    } else {
        1
    };
    if t < 1 {
        1
    } else {
        t
    }
}

/// Is the estimate at or above 80% of a (non-zero) window?
pub open spec fn over_threshold_spec(est: nat, window: nat) -> bool {
    window != 0 && est >= (window * 80) / 100
}

/// True when `est_tokens` reaches 80% of `window_tokens`; never for an empty window.
pub fn tokens_over_threshold(est_tokens: usize, window_tokens: u32) -> (b: bool)
    ensures
        b == over_threshold_spec(est_tokens as nat, window_tokens as nat),
{
    if window_tokens == 0 {
        return false;
    }
    let w: u64 = window_tokens as u64;
    assert(w * 80 <= 0xffff_ffff * 80) by (nonlinear_arith)
        requires
            w <= 0xffff_ffff,
    ;
    let limit: u64 = (w * COMPACT_THRESHOLD_PCT as u64) / 100;
    est_tokens as u64 >= limit
}

/// The phrases providers use for an overlong prompt.
pub open spec fn overflow_phrase(lower: Seq<char>) -> bool {
    ||| (contains(lower, "context"@) && (contains(lower, "length"@) || contains(lower, "window"@)
        || contains(lower, "overflow"@) || contains(lower, "too long"@) || contains(
        lower,
        "maximum"@,
    )))
    ||| contains(lower, "maximum context"@)
    ||| contains(lower, "token limit"@)
    ||| contains(lower, "too many tokens"@)
    ||| contains(lower, "context_length_exceeded"@)
}

/// ASCII uppercase of one character.
pub open spec fn upper_ascii_char(c: char) -> char {
    if 'a' <= c && c <= 'z' {
        ((c as u32) - 32) as char
    } else {
        c
    }
}

proof fn lemma_contains_in_middle(a: Seq<char>, x: Seq<char>, b: Seq<char>, p: Seq<char>)
    requires
        contains(x, p),
    ensures
        contains(a + x + b, p),
{
    let i = choose|i: int| crate::text::matches_at(x, p, i);
    assert((a + x + b).subrange(a.len() + i, a.len() + i + p.len()) =~= x.subrange(i, i + p.len()));
    assert(crate::text::matches_at(a + x + b, p, a.len() + i));
}

/// Overflow detection ignores ASCII case and what surrounds the message: the
/// message in ASCII upper case is judged as the message is, and a message that
/// reads as an overflow still does inside a longer one.
pub proof fn overflow_detection_ignores_case_and_context(a: Seq<char>, e: Seq<char>, b: Seq<char>)
    ensures
        overflow_phrase(lower_ascii(e.map_values(|c: char| upper_ascii_char(c)))) == overflow_phrase(
            lower_ascii(e),
        ),
        overflow_phrase(lower_ascii(e)) ==> overflow_phrase(lower_ascii(a + e + b)),
{
    let u = e.map_values(|c: char| upper_ascii_char(c));
    assert forall|i: int| 0 <= i < e.len() implies crate::text::lower_ascii_char(#[trigger] u[i])
        == crate::text::lower_ascii_char(e[i]) by {
        let c = e[i];
        if 'a' <= c && c <= 'z' {
            assert((((c as u32) - 32) as char) as u32 == (c as u32) - 32);
        }
    }
    assert(lower_ascii(u) =~= lower_ascii(e));
    let x = lower_ascii(e);
    let y = lower_ascii(a + e + b);
    assert(y =~= lower_ascii(a) + x + lower_ascii(b));
    assert forall|p: Seq<char>| contains(x, p) implies contains(y, p) by {
        lemma_contains_in_middle(lower_ascii(a), x, lower_ascii(b), p);
    }
}

/// Does a model error say the prompt did not fit the context window?
pub fn is_context_overflow_err(err: &str) -> (b: bool)
    ensures
        b == overflow_phrase(lower_ascii(err@)),
{
    let v = chars_of(err);
    let lower = string_of(lower_ascii_exec(v.as_slice()).as_slice());
    let l = lower.as_str();
    (str_contains(l, "context") && (str_contains(l, "length") || str_contains(l, "window")
        || str_contains(l, "overflow") || str_contains(l, "too long") || str_contains(
        l,
        "maximum",
    ))) || str_contains(l, "maximum context") || str_contains(l, "token limit") || str_contains(
        l,
        "too many tokens",
    ) || str_contains(l, "context_length_exceeded")
}

/// New `(input_prompt, accumulated_data)` once `compacted` replaces the history.
pub open spec fn rewrite_spec(input_prompt: Seq<char>, accumulated: Seq<char>, compacted: Seq<
    char,
>) -> (Seq<char>, Seq<char>) {
    if accumulated.len() == 0 {
        (compacted, seq![])
    } else {
        (input_prompt, "[compacted observation history]\n"@ + compacted)
    }
}

/// Replaces the observation history (or, with none, the whole prompt) by `compacted`.
pub fn rewrite_context_for_window(input_prompt: &str, accumulated_data: &str, compacted: &str) -> (r: (
    String,
    String,
))
    ensures
        (r.0@, r.1@) == rewrite_spec(input_prompt@, accumulated_data@, compacted@),
{
    if accumulated_data.is_empty() {
        (compacted.to_owned(), String::new())
    } else {
        let mut acc = "[compacted observation history]\n".to_owned();
        acc.append(compacted);
        (input_prompt.to_owned(), acc)
    }
}

/// The token target actually used: at least 256.
pub open spec fn effective_target(target_tokens: u32) -> nat {
    if target_tokens < 256 {
        256
    } else {
        target_tokens as nat
    }
}

/// Characters allowed by a target, saturating at `usize::MAX`.
pub open spec fn target_chars_spec(target_tokens: u32) -> nat {
    let c = effective_target(target_tokens) * 4;
    if c > usize::MAX {
        usize::MAX as nat
    } else {
        c
    }
}

fn target_chars(target: u32) -> (c: usize)
    requires
        target >= 256,
    ensures
        c == target_chars_spec(target),
{
    let t = target as usize;
    if t > usize::MAX / CHARS_PER_TOKEN {
        usize::MAX
    } else {
        t * CHARS_PER_TOKEN
    }
}

/// The instruction line for a mode.
pub open spec fn mode_line(mode: CompactMode) -> Seq<char> {
    match mode {
        CompactMode::Compact => "MODE=compact — densify with the smallest possible loss; prefer staying under TARGET."@,
        CompactMode::Reduce => "MODE=reduce — HARD CAP: output MUST fit under TARGET_TOKENS; drop lowest-value detail first."@,
    }
}

/// The user message sent to the pruner model.
pub open spec fn compact_message_spec(context: Seq<char>, mode: CompactMode, target_tokens: u32) -> Seq<
    char,
> {
    mode_line(mode) + "\nTARGET_TOKENS="@ + decimal(effective_target(target_tokens)) + " (~"@
        + decimal(target_chars_spec(target_tokens)) + " chars)\n\n---\nCONTEXT TO DENSIFY:\n"@
        + context
}

/// Builds the pruner's user message for `context`.
pub fn compact_request_message(context: &str, mode: CompactMode, target_tokens: u32) -> (s: String)
    ensures
        s@ == compact_message_spec(context@, mode, target_tokens),
{
    let target: u32 = if target_tokens < 256 {
        256
    } else {
        target_tokens
    };
    let chars: usize = target_chars(target);
    let mut s = match mode {
        CompactMode::Compact => "MODE=compact — densify with the smallest possible loss; prefer staying under TARGET.".to_owned(),
        CompactMode::Reduce => "MODE=reduce — HARD CAP: output MUST fit under TARGET_TOKENS; drop lowest-value detail first.".to_owned(),
    };
    s.append("\nTARGET_TOKENS=");
    let t = fmt_u64(target as u64);
    s.append(t.as_str());
    s.append(" (~");
    let c = fmt_u64(chars as u64);
    s.append(c.as_str());
    s.append(" chars)\n\n---\nCONTEXT TO DENSIFY:\n");
    s.append(context);
    s
}

/// What `compact_text` returns for the pruner's reply `content`.
pub open spec fn finish_compact_spec(content: Option<Seq<char>>, mode: CompactMode, target_tokens: u32) -> Result<
    Seq<char>,
    Seq<char>,
> {
    match content {
        None => Err("pruner returned empty content"@),
        Some(c) => {
            let out = trim(c);
            if out.len() == 0 {
                Err("pruner returned empty content"@)
            } else if mode == CompactMode::Reduce && estimate_tokens_spec(out.len()) > effective_target(
                target_tokens,
            ) {
                let keep = if target_chars_spec(target_tokens) < out.len() {
                    target_chars_spec(target_tokens)
                } else {
                    out.len()
                };
                Ok(out.take(keep as int))
            } else {
                Ok(out)
            }
        },
    }
}

/// Trims the pruner's reply; with `Reduce`, cuts it to the character budget when the
/// model ignored the cap.
pub fn finish_compact(content: Option<String>, mode: CompactMode, target_tokens: u32) -> (r: Result<
    String,
    String,
>)
    ensures
        match (r, finish_compact_spec(
            match content {
                Some(c) => Some(c@),
                None => None,
            },
            mode,
            target_tokens,
        )) {
            (Ok(a), Ok(b)) => a@ == b,
            (Err(a), Err(b)) => a@ == b,
            _ => false,
        },
{
    let text = match content {
        Some(c) => c,
        None => {
            return Err("pruner returned empty content".to_owned());
        },
    };
    let out = str_trim(text.as_str());
    if out.as_str().is_empty() {
        return Err("pruner returned empty content".to_owned());
    }
    let target: u32 = if target_tokens < 256 {
        256
    } else {
        target_tokens
    };
    if mode == CompactMode::Reduce && estimate_tokens(out.as_str()) > target as usize {
        let chars: usize = target_chars(target);
        let v = chars_of(out.as_str());
        let keep = if chars < v.len() {
            chars
        } else {
            v.len()
        };
        let kept = crate::text::copy_range(v.as_slice(), 0, keep);
        assert(kept@ =~= v@.take(keep as int));
        return Ok(string_of(kept.as_slice()));
    }
    Ok(out)
}

/// What a compaction request yields for the pruner's `reply`: a failed call's
/// error, else what `finish_compact` makes of the reply's content.
pub open spec fn compact_outcome(
    reply: Result<crate::llm::LlmModelTurn, String>,
    mode: CompactMode,
    target_tokens: u32,
) -> Result<Seq<char>, Seq<char>> {
    match reply {
        Err(e) => Err(e@),
        Ok(t) => finish_compact_spec(
            match t.content {
                Some(c) => Some(c@),
                None => None,
            },
            mode,
            target_tokens,
        ),
    }
}

/// `Reduce` keeps its promise whatever the model answers: a compacted text is
/// never estimated above the effective token target (the target, at least 256),
/// where the character budget of that target fits in a `usize`.
pub proof fn reduce_stays_within_target(reply: Result<crate::llm::LlmModelTurn, String>, target_tokens: u32)
    requires
        effective_target(target_tokens) * 4 <= usize::MAX,
    ensures
        compact_outcome(reply, CompactMode::Reduce, target_tokens) matches Ok(out)
            ==> estimate_tokens_spec(out.len()) <= effective_target(target_tokens),
{
    let e = effective_target(target_tokens);
    assert(target_chars_spec(target_tokens) == e * 4);
    if let Ok(t) = reply {
        if let Some(c) = t.content {
            let out = trim(c@);
            if out.len() > 0 && estimate_tokens_spec(out.len()) > e {
                let keep: nat = if e * 4 < out.len() {
                    e * 4
                } else {
                    out.len()
                };
                assert(keep <= e * 4);
                assert((keep + 3) / 4 <= e) by (nonlinear_arith)
                    requires
                        keep <= e * 4,
                        e >= 256,
                ;
                assert(out.take(keep as int).len() == keep);
            }
        }
    }
}

/// `r` is the pruner request for `context`: the pruner system prompt, the
/// densify message, no tools.
pub open spec fn is_compact_request(context: Seq<char>, mode: CompactMode, target_tokens: u32, r: LlmRequest) -> bool {
    &&& r.system_prompt@ == PRUNER_SYSTEM_PROMPT@
    &&& r.user_message@ == compact_message_spec(context, mode, target_tokens)
    &&& r.tools@.len() == 0
}

/// The pruner model was asked to densify `context` and gave `reply`.
pub open spec fn pruner_asked<C: LlmClient>(
    client: &C,
    context: Seq<char>,
    mode: CompactMode,
    target_tokens: u32,
    reply: Result<crate::llm::LlmModelTurn, String>,
) -> bool {
    exists|req: LlmRequest|
        is_compact_request(context, mode, target_tokens, req) && #[trigger] client.answers(req, reply)
}

/// The pruner request: the pruner system prompt, the densify message, no tools.
pub fn compact_request(context: &str, mode: CompactMode, target_tokens: u32) -> (r: LlmRequest)
    ensures
        is_compact_request(context@, mode, target_tokens, r),
{
    LlmRequest {
        system_prompt: PRUNER_SYSTEM_PROMPT.to_owned(),
        user_message: compact_request_message(context, mode, target_tokens),
        tools: Vec::new(),
    }
}

/// Densifies `context` under `target_tokens` with the pruner model `client`.
/// The model is asked with the pruner request (`pruner_asked`); whatever it
/// replies, the result is `compact_outcome` of the reply.
pub fn compact_text<C: LlmClient>(client: &C, context: &str, mode: CompactMode, target_tokens: u32) -> (r:
    Result<String, String>)
    ensures
        exists|reply: Result<crate::llm::LlmModelTurn, String>|
            pruner_asked(client, context@, mode, target_tokens, reply) && #[trigger] compact_outcome(
                reply,
                mode,
                target_tokens,
            ) == match r {
                Ok(x) => Ok::<Seq<char>, Seq<char>>(x@),
                Err(e) => Err::<Seq<char>, Seq<char>>(e@),
            },
{
    let request = compact_request(context, mode, target_tokens);
    let ghost req = request;
    let reply = client.complete(request);
    let ghost reply_v = reply;
    assert(pruner_asked(client, context@, mode, target_tokens, reply_v)) by {
        assert(is_compact_request(context@, mode, target_tokens, req) && client.answers(req, reply_v));
    }
    let turn = match reply {
        Ok(t) => t,
        Err(e) => {
            assert(compact_outcome(reply_v, mode, target_tokens) == Err::<Seq<char>, Seq<char>>(e@));
            return Err(e);
        },
    };
    let r = finish_compact(turn.content, mode, target_tokens);
    assert(compact_outcome(reply_v, mode, target_tokens) == match r {
        Ok(x) => Ok::<Seq<char>, Seq<char>>(x@),
        Err(e) => Err::<Seq<char>, Seq<char>>(e@),
    });
    r
}

/// Auto-compaction settings of a job: the caller's context window and the
/// pruner model that densifies.
pub struct AutoCompactGuard<C> {
    pub window_tokens: u32,
    pub pruner: C,
}

/// Auto-compaction aims at half the window, and at least 512 tokens.
pub open spec fn compact_target(window_tokens: u32) -> nat {
    let half = (window_tokens as nat * 50) / 100;
    if half < 512 {
        512
    } else {
        half
    }
}

/// What is densified: the observations, or the prompt when there are none.
pub open spec fn compact_blob(prompt: Seq<char>, accumulated: Seq<char>) -> Seq<char> {
    if accumulated.len() == 0 {
        prompt
    } else {
        accumulated
    }
}

/// What compacting the context does for the pruner's `reply` (`res` is the
/// outcome): a failure leaves the context as it was; otherwise the compacted
/// text is written back by `rewrite_spec`, and nothing else changes.
pub open spec fn compact_effect(
    before: AgentContext,
    after: AgentContext,
    window_tokens: u32,
    reply: Result<crate::llm::LlmModelTurn, String>,
    res: Result<(), Seq<char>>,
) -> bool {
    match compact_outcome(reply, CompactMode::Reduce, compact_target(window_tokens) as u32) {
        Err(e) => res == Err::<(), Seq<char>>(e) && after == before,
        Ok(out) => {
            &&& res == Ok::<(), Seq<char>>(())
            &&& (after.input_prompt@, after.accumulated_data@) == rewrite_spec(
                before.input_prompt@,
                before.accumulated_data@,
                out,
            )
            &&& after.iterations == before.iterations
            &&& after.max_iterations == before.max_iterations
            &&& after.is_finished == before.is_finished
            &&& after.agent_completed == before.agent_completed
            &&& after.touched_files == before.touched_files
            &&& after.last_tool_call == before.last_tool_call
        },
    }
}

/// A retry answer as a compaction outcome.
pub open spec fn retry_result(r: Result<bool, String>) -> Result<(), Seq<char>> {
    match r {
        Ok(_) => Ok(()),
        Err(e) => Err(e@),
    }
}

pub open spec fn unit_result(r: Result<(), String>) -> Result<(), Seq<char>> {
    match r {
        Ok(()) => Ok(()),
        Err(e) => Err(e@),
    }
}

/// Densifies the context with the guard's pruner (reduce mode, half the
/// window as target, the observations or else the prompt as the text) and
/// rewrites it to fit the window; whatever the pruner replies, the result is
/// `compact_effect` of the reply.
fn apply_compact_to_context<C: LlmClient>(context: &mut AgentContext, guard: &AutoCompactGuard<C>) -> (r:
    Result<(), String>)
    ensures
        exists|reply: Result<crate::llm::LlmModelTurn, String>|
            pruner_asked(
                &guard.pruner,
                compact_blob(old(context).input_prompt@, old(context).accumulated_data@),
                CompactMode::Reduce,
                compact_target(guard.window_tokens) as u32,
                reply,
            ) && #[trigger] compact_effect(*old(context), *final(context), guard.window_tokens, reply, unit_result(r)),
        r is Err ==> *final(context) == *old(context),
        final(context).iterations == old(context).iterations,
        final(context).is_finished == old(context).is_finished,
        final(context).touched_files == old(context).touched_files,
{
    let blob = if context.accumulated_data.as_str().is_empty() {
        context.input_prompt.clone()
    } else {
        context.accumulated_data.clone()
    };
    let half: u64 = (guard.window_tokens as u64 * 50) / 100;
    let target: u32 = if half < 512 {
        512
    } else {
        half as u32
    };
    assert(target as nat == compact_target(guard.window_tokens));
    assert(compact_target(guard.window_tokens) as u32 == target);
    let compacted = compact_text(&guard.pruner, blob.as_str(), CompactMode::Reduce, target);
    let ghost cv = compacted;
    let ghost reply = choose|reply: Result<crate::llm::LlmModelTurn, String>|
        pruner_asked(&guard.pruner, blob@, CompactMode::Reduce, target, reply) && compact_outcome(
            reply,
            CompactMode::Reduce,
            target,
        ) == match cv {
            Ok(x) => Ok::<Seq<char>, Seq<char>>(x@),
            Err(e) => Err::<Seq<char>, Seq<char>>(e@),
        };
    assert(pruner_asked(&guard.pruner, blob@, CompactMode::Reduce, target, reply));
    assert(blob@ == compact_blob(old(context).input_prompt@, old(context).accumulated_data@));
    assert(compact_outcome(reply, CompactMode::Reduce, target) == match cv {
        Ok(x) => Ok::<Seq<char>, Seq<char>>(x@),
        Err(e) => Err::<Seq<char>, Seq<char>>(e@),
    });
    let compacted = match compacted {
        Ok(c) => c,
        Err(e) => {
            let r = Err(e);
            assert(compact_effect(*old(context), *context, guard.window_tokens, reply, unit_result(r)));
            return r;
        },
    };
    let (prompt, acc) = rewrite_context_for_window(
        context.input_prompt.as_str(),
        context.accumulated_data.as_str(),
        compacted.as_str(),
    );
    context.input_prompt = prompt;
    context.accumulated_data = acc;
    let r = Ok(());
    assert(compact_effect(*old(context), *context, guard.window_tokens, reply, unit_result(r)));
    r
}

/// Densifies proactively when the next turn's estimated size reaches 80%
/// of the window. `guard` is the job's auto-compaction (none: off);
/// `allowed` is false inside the compaction tool itself. When not due, nothing
/// changes; when due, whatever the pruner replies, the result is
/// `compact_effect` of the reply.
pub fn maybe_proactive_compact<C: LlmClient>(
    system_prompt: &str,
    context: &mut AgentContext,
    guard: Option<&AutoCompactGuard<C>>,
    allowed: bool,
) -> (r: Result<(), String>)
    ensures
        ({
            let est = estimate_tokens_spec(system_prompt@.len()) + estimate_tokens_spec(
                crate::orchestrator::tool_loop_message_spec(
                    old(context).input_prompt@,
                    old(context).accumulated_data@,
                ).len(),
            );
            let due = guard matches Some(g) && allowed && over_threshold_spec(
                if est > usize::MAX {
                    usize::MAX as nat
                } else {
                    est
                },
                g.window_tokens as nat,
            );
            &&& !due ==> (r is Ok && *final(context) == *old(context))
            &&& due ==> exists|reply: Result<crate::llm::LlmModelTurn, String>|
                pruner_asked(
                    &guard->0.pruner,
                    compact_blob(old(context).input_prompt@, old(context).accumulated_data@),
                    CompactMode::Reduce,
                    compact_target(guard->0.window_tokens) as u32,
                    reply,
                ) && #[trigger] compact_effect(*old(context), *final(context), guard->0.window_tokens, reply, unit_result(r))
            &&& (due && r is Err) ==> *final(context) == *old(context)
        }),
        final(context).iterations == old(context).iterations,
        final(context).is_finished == old(context).is_finished,
{
    let g = match guard {
        None => {
            return Ok(());
        },
        Some(g) => g,
    };
    if !allowed {
        return Ok(());
    }
    let user = crate::orchestrator::build_tool_loop_message(context);
    let est = estimate_tokens(system_prompt).saturating_add(estimate_tokens(user.as_str()));
    if !tokens_over_threshold(est, g.window_tokens) {
        return Ok(());
    }
    apply_compact_to_context(context, g)
}

/// After a context-overflow error from the model, densifies once; `true`
/// tells the caller to retry the turn. Without an overflow, a guard, or
/// leave, nothing changes; otherwise, whatever the pruner replies, the result
/// is `compact_effect` of the reply (success is `Ok(true)`).
pub fn maybe_overflow_compact<C: LlmClient>(
    err: &str,
    context: &mut AgentContext,
    guard: Option<&AutoCompactGuard<C>>,
    allowed: bool,
) -> (r: Result<bool, String>)
    ensures
        !overflow_phrase(lower_ascii(err@)) || guard is None || !allowed ==> (r == Ok::<
            bool,
            String,
        >(false) && *final(context) == *old(context)),
        overflow_phrase(lower_ascii(err@)) && guard is Some && allowed ==> (r != Ok::<bool, String>(false)
            && exists|reply: Result<crate::llm::LlmModelTurn, String>|
            pruner_asked(
                &guard->0.pruner,
                compact_blob(old(context).input_prompt@, old(context).accumulated_data@),
                CompactMode::Reduce,
                compact_target(guard->0.window_tokens) as u32,
                reply,
            ) && #[trigger] compact_effect(
                *old(context),
                *final(context),
                guard->0.window_tokens,
                reply,
                retry_result(r),
            )),
        r matches Ok(true) ==> overflow_phrase(lower_ascii(err@)) && guard is Some && allowed,
        r is Err ==> *final(context) == *old(context),
        final(context).iterations == old(context).iterations,
{
    if !is_context_overflow_err(err) {
        return Ok(false);
    }
    let g = match guard {
        None => {
            return Ok(false);
        },
        Some(g) => g,
    };
    if !allowed {
        return Ok(false);
    }
    match apply_compact_to_context(context, g) {
        Ok(()) => Ok(true),
        Err(e) => Err(e),
    }
}

// ---------------------------------------------------------------------------
// The text pruner test agent
// ---------------------------------------------------------------------------

pub const MOCK_MAX_OUTPUT_CHARS: usize = 100;

pub const MOCK_ENRICHMENT_SUFFIX: &'static str = "\n[MUST BE LESS THAN 100 CHARS]";

pub const MOCK_MUTATION_SUFFIX: &'static str = "\nWciąż za długie, wykonaj bardziej agresywny prunining";

/// The share (in percent) of the text kept at an iteration: 70%, ten points less per
/// iteration, never under 20%.
pub open spec fn keep_percent(iteration: u32) -> int {
    let m = if iteration * 10 > u32::MAX {
        u32::MAX as int
    } else {
        iteration * 10
    };
    let k = if 70 >= m {
        70 - m
    } else {
        0
    };
    if k < 20 {
        20
    } else {
        k
    }
}

/// How many characters the pruner keeps of a text of `current_len` bytes.
pub open spec fn prune_target_len_spec(current_len: int, iteration: u32) -> int {
    let t = current_len * keep_percent(iteration) / 100;
    if t < 1 {
        1
    } else {
        t
    }
}

/// The pruned length for an iteration: a shrinking share of the current length, at least 1.
pub fn prune_target_len(current_len: usize, iteration: u32) -> (n: usize)
    requires
        current_len * keep_percent(iteration) <= usize::MAX,
    ensures
        n == prune_target_len_spec(current_len as int, iteration),
{
    let m: u32 = match iteration.checked_mul(10) {
        Some(x) => x,
        None => u32::MAX,
    };
    let k: u32 = if 70 >= m {
        70 - m
    } else {
        0
    };
    let keep: u32 = if k < 20 {
        20
    } else {
        k
    };
    let t = current_len * (keep as usize) / 100;
    if t < 1 {
        1
    } else {
        t
    }
}

/// A test agent that prunes its text until it is shorter than 100 bytes.
pub struct TextPrunerMock;

impl TextPrunerMock {
    pub fn name(&self) -> (r: &'static str)
        ensures
            r@ == "text_pruner_mock"@,
    {
        "text_pruner_mock"
    }

    /// Appends the length constraint to the prompt.
    pub fn enrich_context(&self, context: &mut AgentContext)
        ensures
            final(context).input_prompt@ == old(context).input_prompt@ + MOCK_ENRICHMENT_SUFFIX@,
            final(context).accumulated_data == old(context).accumulated_data,
    {
        context.input_prompt.append(MOCK_ENRICHMENT_SUFFIX);
    }

    /// Keeps the first `prune_target_len` characters of the text (the accumulated data,
    /// or the prompt before there is any) and finishes once it is under 100 bytes.
    pub fn process_and_evaluate(&self, context: &mut AgentContext)
        requires
            ({
                let src = if old(context).accumulated_data@.len() == 0 {
                    old(context).input_prompt@
                } else {
                    old(context).accumulated_data@
                };
                crate::text::utf8_len(src) * keep_percent(old(context).iterations) <= usize::MAX
            }),
        ensures
            ({
                let src = if old(context).accumulated_data@.len() == 0 {
                    old(context).input_prompt@
                } else {
                    old(context).accumulated_data@
                };
                let n = prune_target_len_spec(crate::text::utf8_len(src) as int, old(context).iterations);
                &&& final(context).accumulated_data@ == if n < src.len() {
                    src.take(n)
                } else {
                    src
                }
                &&& final(context).is_finished == (crate::text::utf8_len(
                    final(context).accumulated_data@,
                ) < MOCK_MAX_OUTPUT_CHARS)
                &&& final(context).input_prompt == old(context).input_prompt
                &&& final(context).iterations == old(context).iterations
            }),
    {
        let source: String = if context.accumulated_data.as_str().is_empty() {
            context.input_prompt.clone()
        } else {
            context.accumulated_data.clone()
        };
        proof {
            assert(source@ == (if old(context).accumulated_data@.len() == 0 {
                old(context).input_prompt@
            } else {
                old(context).accumulated_data@
            }));
        }
        let len = crate::text::byte_len(source.as_str());
        let target = prune_target_len(len, context.iterations);
        let v = crate::text::chars_of(source.as_str());
        let keep = if target < v.len() {
            target
        } else {
            v.len()
        };
        let head = crate::text::copy_range(v.as_slice(), 0, keep);
        proof {
            if target < v@.len() {
                assert(head@ =~= source@.take(target as int));
            } else {
                assert(head@ =~= source@);
            }
        }
        context.accumulated_data = crate::text::string_of(head.as_slice());
        let out_len = crate::text::byte_len(context.accumulated_data.as_str());
        context.is_finished = out_len < MOCK_MAX_OUTPUT_CHARS;
    }

    /// Asks for more aggressive pruning on the next turn.
    pub fn mutate_next_iteration(&self, context: &mut AgentContext)
        ensures
            final(context).input_prompt@ == old(context).input_prompt@ + MOCK_MUTATION_SUFFIX@,
            final(context).accumulated_data == old(context).accumulated_data,
    {
        context.input_prompt.append(MOCK_MUTATION_SUFFIX);
    }
}

/// Later iterations never keep more: the pruned length shrinks as iterations grow.
pub proof fn lemma_prune_target_monotone(current_len: nat, a: u32, b: u32)
    requires
        a <= b,
    ensures
        prune_target_len_spec(current_len as int, b) <= prune_target_len_spec(current_len as int, a),
{
    assert(keep_percent(b) <= keep_percent(a));
    assert(current_len * keep_percent(b) <= current_len * keep_percent(a)) by (nonlinear_arith)
        requires
            keep_percent(b) <= keep_percent(a),
            keep_percent(b) >= 0,
    ;
    assert(current_len * keep_percent(b) / 100 <= current_len * keep_percent(a) / 100) by (nonlinear_arith)
        requires
            current_len * keep_percent(b) <= current_len * keep_percent(a),
            current_len * keep_percent(b) >= 0,
    ;
}

} // verus!
