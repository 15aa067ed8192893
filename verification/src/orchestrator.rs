//! The agent loop's bookkeeping: the message sent each turn, the turn
//! budget, and the partial report written when an agent runs out of turns.
use vstd::prelude::*;

use crate::llm::AgentContext;
use crate::text::{
    chars_of, contains, copy_range, find_from, join, string_of, string_views, trim_start, utf8_len,
};

verus! {

/// Runs agents turn by turn (the turns themselves are driven by the
/// caller; this type holds the loop's rules).
pub struct AgentLoopOrchestrator;

/// The user message of a turn: the prompt, followed by the observation
/// history when there is one.
pub open spec fn tool_loop_message_spec(prompt: Seq<char>, accumulated: Seq<char>) -> Seq<char> {
    if accumulated.len() == 0 {
        prompt
    } else {
        prompt + "\n\n---\nObservation history:\n"@ + accumulated
    }
}

/// Builds the user message of the next turn.
pub fn build_tool_loop_message(context: &AgentContext) -> (r: String)
    ensures
        r@ == tool_loop_message_spec(context.input_prompt@, context.accumulated_data@),
{
    if context.accumulated_data.as_str().is_empty() {
        context.input_prompt.clone()
    } else {
        let mut m = context.input_prompt.clone();
        m.append("\n\n---\nObservation history:\n");
        m.append(context.accumulated_data.as_str());
        m
    }
}

/// Observations with an earlier iteration-limit header removed: what
/// follows the first blank line after `Touched files:`, left-trimmed.
pub open spec fn strip_cap_spec(data: Seq<char>) -> Seq<char> {
    if !contains(data, "iteration limit after"@) {
        data
    } else {
        match find_from(data, "Touched files:\n"@, 0) {
            None => data,
            Some(idx) => {
                let tail = data.skip(idx);
                match find_from(tail, "\n\n"@, 0) {
                    None => data,
                    Some(b) => trim_start(tail.skip(b + 2)),
                }
            },
        }
    }
}

/// Drops a previous iteration-limit header so that resumed loops do not
/// nest them.
pub fn strip_prior_iteration_cap(data: &str) -> (r: String)
    ensures
        r@ == strip_cap_spec(data@),
{
    proof {
        reveal_strlit("\n\n");
    }
    if !crate::text::str_contains(data, "iteration limit after") {
        return data.to_owned();
    }
    let c = chars_of(data);
    let marker = chars_of("Touched files:\n");
    let idx = match crate::text::find_from_exec(c.as_slice(), marker.as_slice(), 0) {
        None => {
            return data.to_owned();
        },
        Some(i) => i,
    };
    proof {
        crate::text::lemma_find_from(c@, marker@, 0);
    }
    let tail = copy_range(c.as_slice(), idx, c.len());
    assert(tail@ =~= data@.skip(idx as int));
    let blank = chars_of("\n\n");
    let b = match crate::text::find_from_exec(tail.as_slice(), blank.as_slice(), 0) {
        None => {
            return data.to_owned();
        },
        Some(b) => b,
    };
    proof {
        crate::text::lemma_find_from(tail@, blank@, 0);
        assert(blank@.len() == 2);
        assert(crate::text::matches_at(tail@, blank@, b as int));
        assert(tail@.len() == tail.len());
    }
    let rest = copy_range(tail.as_slice(), b + 2, tail.len());
    assert(rest@ =~= tail@.skip(b + 2));
    string_of(crate::text::trim_start_exec(rest.as_slice()).as_slice())
}

/// At most the last 2048 bytes of the observations, cut between
/// characters: the longest suffix that fits.
pub open spec fn evidence_chunk_spec(obs: Seq<char>) -> Seq<char> {
    if utf8_len(obs) <= 2048 {
        obs
    } else {
        obs.skip(choose|k: int| crate::text::is_suffix_within(obs, 2048, k))
    }
}

/// Keeps the most recent evidence of a long observation dump.
pub fn last_evidence_chunk(observations: &str) -> (r: String)
    ensures
        r@ == evidence_chunk_spec(observations@),
        utf8_len(r@) <= 2048,
{
    if crate::text::byte_len(observations) <= 2048 {
        return observations.to_owned();
    }
    let c = chars_of(observations);
    let k = crate::text::suffix_within(c.as_slice(), 2048);
    proof {
        let w = choose|w: int| crate::text::is_suffix_within(observations@, 2048, w);
        crate::planner::lemma_suffix_within_unique(observations@, 2048, k as int, w);
    }
    let tail = copy_range(c.as_slice(), k, c.len());
    assert(tail@ =~= observations@.skip(k as int));
    string_of(tail.as_slice())
}

/// The partial report of an agent that ran out of turns.
pub open spec fn cap_report_spec(
    agent_name: Seq<char>,
    workspace: Seq<char>,
    iterations: u32,
    max_iterations: u32,
    touched: Seq<Seq<char>>,
    accumulated: Seq<char>,
) -> Seq<char> {
    let touched_list = if touched.len() == 0 {
        "(none)"@
    } else {
        join(touched, "\n- "@)
    };
    let obs = evidence_chunk_spec(strip_cap_spec(accumulated));
    let header = "## "@ + agent_name + " report (iteration limit after "@ + crate::text::decimal(
        iterations as nat,
    ) + " of "@ + crate::text::decimal(max_iterations as nat) + " turns)\n\n"@ + agent_name
        + " did not finalize; partial evidence only.\nWorkspace: "@ + workspace
        + "\nTouched files:\n- "@ + touched_list;
    if obs.len() == 0 {
        header + "\n"@
    } else {
        header + "\n\n"@ + obs
    }
}

impl AgentLoopOrchestrator {
    /// When the loop stopped without the agent finishing, replaces the
    /// observations by a partial report and marks the context finished.
    pub fn apply_iteration_cap(agent_name: &str, workspace: &str, context: &mut AgentContext)
        ensures
            old(context).is_finished ==> *final(context) == *old(context),
            !old(context).is_finished ==> final(context).is_finished && final(context).accumulated_data@ == cap_report_spec(
                agent_name@,
                workspace@,
                old(context).iterations,
                old(context).max_iterations,
                string_views(old(context).touched_files@),
                old(context).accumulated_data@,
            ) && final(context).input_prompt == old(context).input_prompt && final(context).iterations == old(context).iterations && final(context).agent_completed == old(context).agent_completed,
    {
        if context.is_finished {
            return;
        }
        let touched = if context.touched_files.len() == 0 {
            "(none)".to_owned()
        } else {
            crate::text::join_strings(context.touched_files.as_slice(), "\n- ")
        };
        let stripped = strip_prior_iteration_cap(context.accumulated_data.as_str());
        let obs = last_evidence_chunk(stripped.as_str());
        let mut header = "## ".to_owned();
        header.append(agent_name);
        header.append(" report (iteration limit after ");
        header.append(crate::text::fmt_u64(context.iterations as u64).as_str());
        header.append(" of ");
        header.append(crate::text::fmt_u64(context.max_iterations as u64).as_str());
        header.append(" turns)\n\n");
        header.append(agent_name);
        header.append(" did not finalize; partial evidence only.\nWorkspace: ");
        header.append(workspace);
        header.append("\nTouched files:\n- ");
        header.append(touched.as_str());
        if obs.as_str().is_empty() {
            header.append("\n");
        } else {
            header.append("\n\n");
            header.append(obs.as_str());
        }
        context.accumulated_data = header;
        context.is_finished = true;
    }

    /// Re-opens a finished context for `extra_iters` more turns.
    pub fn prepare_resume(context: &mut AgentContext, extra_iters: u32)
        ensures
            !final(context).is_finished,
            final(context).max_iterations as int == if old(context).iterations + extra_iters
                > u32::MAX {
                u32::MAX as int
            } else {
                old(context).iterations + extra_iters
            },
            final(context).iterations == old(context).iterations,
            final(context).accumulated_data == old(context).accumulated_data,
            final(context).input_prompt == old(context).input_prompt,
    {
        context.is_finished = false;
        context.max_iterations = context.iterations.saturating_add(extra_iters);
    }

    /// Whether the loop takes another turn.
    pub fn wants_turn(context: &AgentContext) -> (b: bool)
        ensures
            b == (!context.is_finished && context.iterations < context.max_iterations),
    {
        !context.is_finished && context.iterations < context.max_iterations
    }

    /// Counts the turn about to be taken.
    pub fn begin_turn(context: &mut AgentContext)
        requires
            old(context).iterations < old(context).max_iterations,
        ensures
            final(context).iterations == old(context).iterations + 1,
            final(context).max_iterations == old(context).max_iterations,
            final(context).is_finished == old(context).is_finished,
            final(context).accumulated_data == old(context).accumulated_data,
            final(context).input_prompt == old(context).input_prompt,
    {
        context.iterations = context.iterations + 1;
    }
}


// ---------------------------------------------------------------------------
// One tool turn
// ---------------------------------------------------------------------------

/// What a turn records when the model called no tool.
pub open spec fn no_tool_step(thought: Seq<char>) -> Seq<char> {
    if thought.len() == 0 {
        "Observation:\n(model returned no tool call — call exactly one tool)\n"@
    } else {
        "Thought:\n"@ + thought + "\nObservation:\n(model did not call a tool — call exactly one tool)\n"@
    }
}

/// What a turn records of a tool call and what came of it.
pub open spec fn tool_step(thought: Seq<char>, name: Seq<char>, args: Seq<char>, observation: Seq<char>) -> Seq<char> {
    "Thought:\n"@ + thought + "\nTool: "@ + name + "("@ + args + ")\nObservation:\n"@ + observation + "\n"@
}

pub open spec fn duplicate_blocked() -> Seq<char> {
    "duplicate tool call blocked — change pattern or call finalize."@
}

/// Is this the call the agent made last turn?
pub open spec fn is_repeat_call(last: Option<(String, String)>, name: Seq<char>, args: Seq<char>) -> bool {
    match last {
        Some((n, a)) => n@ == name && a@ == args,
        None => false,
    }
}

/// A call repeats the last call only when both its name and its argument
/// text equal those of the last call: the last call itself repeats, a call
/// with other arguments (or another name) never does, and nothing repeats
/// before the first call.
pub proof fn repeat_needs_same_name_and_arguments(
    last: Option<(String, String)>,
    name: Seq<char>,
    args: Seq<char>,
    other_args: Seq<char>,
)
    ensures
        is_repeat_call(last, name, args) ==> (last matches Some((n, a)) && n@ == name && a@ == args),
        is_repeat_call(last, name, args) && other_args != args ==> !is_repeat_call(last, name, other_args),
        last matches Some((n, a)) ==> is_repeat_call(last, n@, a@),
        last is None ==> !is_repeat_call(last, name, args),
{
}

pub fn repeats_last_call(context: &AgentContext, name: &str, args: &str) -> (b: bool)
    ensures
        b == is_repeat_call(context.last_tool_call, name@, args@),
{
    match &context.last_tool_call {
        Some((n, a)) => crate::text::str_eq(n.as_str(), name) && crate::text::str_eq(a.as_str(), args),
        None => false,
    }
}

fn append_tool_step(context: &mut AgentContext, thought: &str, name: &str, args: &str, observation: &str)
    ensures
        final(context).accumulated_data@ == old(context).accumulated_data@ + tool_step(
            thought@,
            name@,
            args@,
            observation@,
        ),
        final(context).input_prompt == old(context).input_prompt,
        final(context).is_finished == old(context).is_finished,
        final(context).agent_completed == old(context).agent_completed,
        final(context).last_tool_call == old(context).last_tool_call,
        final(context).iterations == old(context).iterations,
        final(context).max_iterations == old(context).max_iterations,
        final(context).touched_files == old(context).touched_files,
{
    let ghost before = context.accumulated_data@;
    context.accumulated_data.append("Thought:\n");
    context.accumulated_data.append(thought);
    context.accumulated_data.append("\nTool: ");
    context.accumulated_data.append(name);
    context.accumulated_data.append("(");
    context.accumulated_data.append(args);
    context.accumulated_data.append(")\nObservation:\n");
    context.accumulated_data.append(observation);
    context.accumulated_data.append("\n");
    assert(context.accumulated_data@ =~= before + tool_step(thought@, name@, args@, observation@));
}

/// The effect of a tool's answer on the context: its step is recorded, and a
/// terminal tool's output becomes the agent's result.
pub open spec fn answered(
    before: AgentContext,
    after: AgentContext,
    thought: Seq<char>,
    name: Seq<char>,
    args: Seq<char>,
    output: Seq<char>,
    terminal: bool,
) -> bool {
    &&& after.accumulated_data@ == if terminal {
        output
    } else {
        before.accumulated_data@ + tool_step(thought, name, args, output)
    }
    &&& after.is_finished == (terminal || before.is_finished)
    &&& after.agent_completed == (terminal || before.agent_completed)
    &&& after.input_prompt == before.input_prompt
    &&& after.iterations == before.iterations
}

/// The model's thought in a reply (empty when it wrote none).
pub open spec fn thought_of(t: crate::llm::LlmModelTurn) -> Seq<char> {
    match t.content {
        Some(c) => c@,
        None => Seq::empty(),
    }
}

/// Everything but the accumulated data and the last call is as it was.
pub open spec fn same_state(before: AgentContext, after: AgentContext) -> bool {
    &&& after.input_prompt == before.input_prompt
    &&& after.iterations == before.iterations
    &&& after.max_iterations == before.max_iterations
    &&& after.is_finished == before.is_finished
    &&& after.agent_completed == before.agent_completed
    &&& after.touched_files == before.touched_files
}

/// What one tool turn does, given the model's `reply` and what the tool
/// answered (`answer`, read only when the tool ran): a failed request fails
/// the turn and changes nothing; no call, or the call made last turn, is
/// recorded and nothing runs; otherwise the call is remembered, the tool's
/// output recorded (a terminal tool's output becomes the agent's result), and
/// the call handed back. A failing tool fails the turn, except
/// `emit_blueprint`, whose refusal is recorded as the observation.
pub open spec fn tool_turn_effect(
    before: AgentContext,
    after: AgentContext,
    reply: Result<crate::llm::LlmModelTurn, String>,
    answer: Result<crate::llm::ToolInvocation, String>,
    r: Result<Option<(String, crate::json::JsonValue)>, String>,
) -> bool {
    match reply {
        Err(e) => r matches Err(x) && x@ == e@ && after == before,
        Ok(t) => if t.tool_calls@.len() == 0 {
            &&& r matches Ok(None)
            &&& same_state(before, after)
            &&& after.last_tool_call == before.last_tool_call
            &&& after.accumulated_data@ == before.accumulated_data@ + no_tool_step(thought_of(t))
        } else {
            let c = t.tool_calls@[0];
            if is_repeat_call(before.last_tool_call, c.name@, crate::json::call_text(c.arguments@)) {
                &&& r matches Ok(None)
                &&& same_state(before, after)
                &&& after.last_tool_call == before.last_tool_call
                &&& after.accumulated_data@ == before.accumulated_data@ + tool_step(
                    thought_of(t),
                    c.name@,
                    crate::json::call_text(c.arguments@),
                    duplicate_blocked(),
                )
            } else {
                &&& after.last_tool_call matches Some((x, y)) && x@ == c.name@ && y@ == crate::json::call_text(c.arguments@)
                &&& match answer {
                    Err(e) => if c.name@ == "emit_blueprint"@ {
                        &&& r matches Ok(Some((n, p))) && n@ == c.name@ && p == c.parsed_arguments
                        &&& same_state(before, after)
                        &&& after.accumulated_data@ == before.accumulated_data@ + tool_step(
                            thought_of(t),
                            c.name@,
                            crate::json::call_text(c.arguments@),
                            e@,
                        )
                    } else {
                        &&& r matches Err(x) && x@ == e@
                        &&& same_state(before, after)
                        &&& after.accumulated_data == before.accumulated_data
                    },
                    Ok(i) => {
                        &&& r matches Ok(Some((n, p))) && n@ == c.name@ && p == c.parsed_arguments
                        &&& answered(before, after, thought_of(t), c.name@, crate::json::call_text(c.arguments@), i.output@, i.is_terminal)
                        &&& after.max_iterations == before.max_iterations
                        &&& after.touched_files == before.touched_files
                    },
                }
            }
        },
    }
}

/// `r` is the request of a tool turn on `context`: the system prompt, the
/// loop message, and the offered tools.
pub open spec fn is_tool_loop_request(
    system_prompt: Seq<char>,
    tools: crate::llm::LlmToolSet,
    context: AgentContext,
    r: crate::llm::LlmRequest,
) -> bool {
    &&& r.system_prompt@ == system_prompt
    &&& r.user_message@ == tool_loop_message_spec(context.input_prompt@, context.accumulated_data@)
    &&& crate::llm::request_tool_names(r) == crate::llm::tool_names(tools)
}

/// The model was asked with the tool-turn request of `context` and gave `reply`.
pub open spec fn tool_loop_asked<C: crate::llm::LlmClient>(
    client: &C,
    system_prompt: Seq<char>,
    tools: crate::llm::LlmToolSet,
    context: AgentContext,
    reply: Result<crate::llm::LlmModelTurn, String>,
) -> bool {
    exists|req: crate::llm::LlmRequest|
        is_tool_loop_request(system_prompt, tools, context, req) && #[trigger] client.answers(req, reply)
}

/// The request of a tool turn: the system prompt, the loop message, and the
/// offered tools.
pub fn tool_loop_request(system_prompt: &str, tools: &crate::llm::LlmToolSet, context: &AgentContext) -> (r:
    crate::llm::LlmRequest)
    ensures
        is_tool_loop_request(system_prompt@, *tools, *context, r),
{
    let r = crate::llm::LlmRequest {
        system_prompt: system_prompt.to_owned(),
        user_message: build_tool_loop_message(context),
        tools: crate::llm::offered_tools(tools),
    };
    assert(crate::llm::request_tool_names(r) =~= crate::llm::tool_names(*tools));
    r
}

/// The first half of a tool turn, from the model's reply: the call to run,
/// with the thought, or `None` when nothing runs (see `tool_turn_effect`).
fn read_tool_turn_reply(reply: Result<crate::llm::LlmModelTurn, String>, context: &mut AgentContext) -> (r:
    Result<Option<(String, String, String, String, crate::json::JsonValue)>, String>)
    ensures
        match reply {
            Err(e) => r matches Err(x) && x@ == e@ && *final(context) == *old(context),
            Ok(t) => if t.tool_calls@.len() == 0 || is_repeat_call(
                old(context).last_tool_call,
                t.tool_calls@[0].name@,
                crate::json::call_text(t.tool_calls@[0].arguments@),
            ) {
                r matches Ok(None) && (forall|any: Result<crate::llm::ToolInvocation, String>|
                    #[trigger] tool_turn_effect(*old(context), *final(context), reply, any, Ok(None)))
            } else {
                let c = t.tool_calls@[0];
                &&& r matches Ok(Some((n, a, w, th, p))) && n@ == c.name@ && a@ == c.arguments@ && w@
                    == crate::json::call_text(c.arguments@) && th@ == thought_of(t) && p == c.parsed_arguments
                &&& final(context).last_tool_call matches Some((x, y)) && x@ == c.name@ && y@
                    == crate::json::call_text(c.arguments@)
                &&& same_state(*old(context), *final(context))
                &&& final(context).accumulated_data == old(context).accumulated_data
            },
        },
{
    let mut turn = match reply {
        Ok(t) => t,
        Err(e) => {
            return Err(e);
        },
    };
    let ghost t0 = turn;
    proof {
        reveal_strlit("");
    }
    let thought: String = match &turn.content {
        Some(t) => t.clone(),
        None => "".to_owned(),
    };
    assert(thought@ == thought_of(t0));
    if turn.tool_calls.len() == 0 {
        let ghost before = context.accumulated_data@;
        if thought.as_str().is_empty() {
            context.accumulated_data.append(
                "Observation:\n(model returned no tool call — call exactly one tool)\n",
            );
        } else {
            context.accumulated_data.append("Thought:\n");
            context.accumulated_data.append(thought.as_str());
            context.accumulated_data.append(
                "\nObservation:\n(model did not call a tool — call exactly one tool)\n",
            );
        }
        assert(context.accumulated_data@ =~= before + no_tool_step(thought@));
        return Ok(None);
    }
    let call = turn.tool_calls.remove(0);
    assert(call == t0.tool_calls@[0]);
    let crate::llm::LlmToolCall { name, arguments, parsed_arguments } = call;
    let text = crate::json::call_arguments_text(arguments.as_str());
    if repeats_last_call(context, name.as_str(), text.as_str()) {
        append_tool_step(
            context,
            thought.as_str(),
            name.as_str(),
            text.as_str(),
            "duplicate tool call blocked — change pattern or call finalize.",
        );
        return Ok(None);
    }
    context.last_tool_call = Some((name.clone(), text.clone()));
    Ok(Some((name, arguments, text, thought, parsed_arguments)))
}

/// One turn of a tool-calling agent. The model is asked with the tool-turn
/// request of the context (`tool_loop_asked`); whatever it replies and the
/// tool answers, the turn is `tool_turn_effect` of them.
pub fn run_single_tool_turn<C: crate::llm::LlmClient, T: crate::llm::ToolInvoker>(
    client: &C,
    tools: &crate::llm::LlmToolSet,
    invoker: &T,
    system_prompt: &str,
    context: &mut AgentContext,
) -> (r: Result<Option<(String, crate::json::JsonValue)>, String>)
    ensures
        exists|reply: Result<crate::llm::LlmModelTurn, String>, answer: Result<crate::llm::ToolInvocation, String>|
            tool_loop_asked(client, system_prompt@, *tools, *old(context), reply) && #[trigger] tool_turn_effect(
                *old(context),
                *final(context),
                reply,
                answer,
                r,
            ),
        final(context).input_prompt == old(context).input_prompt,
        final(context).iterations == old(context).iterations,
        r matches Ok(None) ==> final(context).last_tool_call == old(context).last_tool_call,
        r matches Ok(Some((n, _))) ==> (final(context).last_tool_call matches Some((a, b)) && a@ == n@
            && !is_repeat_call(old(context).last_tool_call, n@, b@)),
{
    let request = tool_loop_request(system_prompt, tools, context);
    let ghost req = request;
    let reply = client.complete(request);
    let ghost reply_v = reply;
    assert(tool_loop_asked(client, system_prompt@, *tools, *old(context), reply_v)) by {
        assert(is_tool_loop_request(system_prompt@, *tools, *old(context), req) && client.answers(req, reply_v));
    }
    let called = read_tool_turn_reply(reply, context);
    let (name, arguments, text, thought, parsed) = match called {
        Err(e) => {
            let r = Err(e);
            let no_answer: Result<crate::llm::ToolInvocation, String> = Err(String::new());
            assert(tool_turn_effect(*old(context), *context, reply_v, no_answer, r));
            return r;
        },
        Ok(None) => {
            let r = Ok(None);
            let no_answer: Result<crate::llm::ToolInvocation, String> = Err(String::new());
            assert(tool_turn_effect(*old(context), *context, reply_v, no_answer, r));
            return r;
        },
        Ok(Some(c)) => c,
    };
    let ghost mid = *context;
    let answer = invoker.invoke(name.as_str(), &parsed, arguments.as_str());
    let ghost answer_v = answer;
    match answer {
        Err(e) => {
            if crate::text::str_eq(name.as_str(), "emit_blueprint") {
                append_tool_step(context, thought.as_str(), name.as_str(), text.as_str(), e.as_str());
                let r = Ok(Some((name, parsed)));
                assert(tool_turn_effect(*old(context), *context, reply_v, answer_v, r));
                return r;
            }
            let r = Err(e);
            assert(tool_turn_effect(*old(context), *context, reply_v, answer_v, r));
            r
        },
        Ok(inv) => {
            append_tool_step(context, thought.as_str(), name.as_str(), text.as_str(), inv.output.as_str());
            if inv.is_terminal {
                context.accumulated_data = inv.output;
                context.is_finished = true;
                context.agent_completed = true;
            }
            let r = Ok(Some((name, parsed)));
            assert(tool_turn_effect(*old(context), *context, reply_v, answer_v, r));
            r
        },
    }
}

pub open spec fn no_call_note(thought: Seq<char>) -> Seq<char> {
    "Thought:\n"@ + thought + "\nObservation:\n(model did not call a tool — call exactly one tool)\n"@
}

pub open spec fn repeat_blocked_note() -> Seq<char> {
    "Observation:\nduplicate tool call blocked — change approach or finalize.\n"@
}

/// What asking the model for one tool call does, given its `reply`: a failed
/// request changes nothing; no call (noted with the thought) and the call made
/// last turn (noted as blocked) give `None`; otherwise the call is remembered
/// and handed back as its name, its arguments as `call_text` writes them, the thought and the parsed
/// arguments.
pub open spec fn next_call_effect(
    before: AgentContext,
    after: AgentContext,
    reply: Result<crate::llm::LlmModelTurn, String>,
    r: Result<Option<(String, String, String, crate::json::JsonValue)>, String>,
) -> bool {
    match reply {
        Err(e) => r matches Err(x) && x@ == e@ && after == before,
        Ok(t) => same_state(before, after) && if t.tool_calls@.len() == 0 {
            &&& r matches Ok(None)
            &&& after.last_tool_call == before.last_tool_call
            &&& after.accumulated_data@ == before.accumulated_data@ + no_call_note(thought_of(t))
        } else {
            let c = t.tool_calls@[0];
            if is_repeat_call(before.last_tool_call, c.name@, crate::json::call_text(c.arguments@)) {
                &&& r matches Ok(None)
                &&& after.last_tool_call == before.last_tool_call
                &&& after.accumulated_data@ == before.accumulated_data@ + repeat_blocked_note()
            } else {
                &&& r matches Ok(Some((n, a, th, p))) && n@ == c.name@ && a@ == crate::json::call_text(c.arguments@) && th@
                    == thought_of(t) && p == c.parsed_arguments
                &&& after.last_tool_call matches Some((x, y)) && x@ == c.name@ && y@ == crate::json::call_text(c.arguments@)
                &&& after.accumulated_data == before.accumulated_data
            }
        },
    }
}

/// Reads the model's reply to a request for one tool call (see `next_call_effect`).
pub fn read_next_call(reply: Result<crate::llm::LlmModelTurn, String>, context: &mut AgentContext) -> (r:
    Result<Option<(String, String, String, crate::json::JsonValue)>, String>)
    ensures
        next_call_effect(*old(context), *final(context), reply, r),
{
    let mut turn = match reply {
        Ok(t) => t,
        Err(e) => {
            return Err(e);
        },
    };
    let ghost t0 = turn;
    proof {
        reveal_strlit("");
    }
    let thought: String = match &turn.content {
        Some(t) => t.clone(),
        None => "".to_owned(),
    };
    assert(thought@ == thought_of(t0));
    if turn.tool_calls.len() == 0 {
        let ghost before = context.accumulated_data@;
        context.accumulated_data.append("Thought:\n");
        context.accumulated_data.append(thought.as_str());
        context.accumulated_data.append(
            "\nObservation:\n(model did not call a tool — call exactly one tool)\n",
        );
        assert(context.accumulated_data@ =~= before + no_call_note(thought@));
        return Ok(None);
    }
    let call = turn.tool_calls.remove(0);
    assert(call == t0.tool_calls@[0]);
    let crate::llm::LlmToolCall { name, arguments, parsed_arguments } = call;
    let text = crate::json::call_arguments_text(arguments.as_str());
    if repeats_last_call(context, name.as_str(), text.as_str()) {
        context.accumulated_data.append(
            "Observation:\nduplicate tool call blocked — change approach or finalize.\n",
        );
        return Ok(None);
    }
    context.last_tool_call = Some((name.clone(), text.clone()));
    Ok(Some((name, text, thought, parsed_arguments)))
}

/// Asks the model for one tool call with the tool-turn request of the context
/// (`tool_loop_asked`); whatever it replies, the outcome is `next_call_effect` of it.
pub fn next_tool_call<C: crate::llm::LlmClient>(
    client: &C,
    system_prompt: &str,
    tools: &crate::llm::LlmToolSet,
    context: &mut AgentContext,
) -> (r: Result<Option<(String, String, String, crate::json::JsonValue)>, String>)
    ensures
        exists|reply: Result<crate::llm::LlmModelTurn, String>|
            tool_loop_asked(client, system_prompt@, *tools, *old(context), reply) && #[trigger] next_call_effect(
                *old(context),
                *final(context),
                reply,
                r,
            ),
        final(context).input_prompt == old(context).input_prompt,
        final(context).is_finished == old(context).is_finished,
        final(context).agent_completed == old(context).agent_completed,
        final(context).iterations == old(context).iterations,
        r matches Ok(Some((n, a, _, _))) ==> (final(context).last_tool_call matches Some((x, y)) && x@ == n@
            && y@ == a@ && !is_repeat_call(old(context).last_tool_call, n@, a@)
            && final(context).accumulated_data == old(context).accumulated_data),
        r matches Ok(None) ==> final(context).last_tool_call == old(context).last_tool_call,
{
    let request = tool_loop_request(system_prompt, tools, context);
    let ghost req = request;
    let reply = client.complete(request);
    let ghost reply_v = reply;
    assert(tool_loop_asked(client, system_prompt@, *tools, *old(context), reply_v)) by {
        assert(is_tool_loop_request(system_prompt@, *tools, *old(context), req) && client.answers(req, reply_v));
    }
    let r = read_next_call(reply, context);
    assert(next_call_effect(*old(context), *context, reply_v, r));
    r
}

} // verus!
