//! The builder agent's own steps: what it does for each tool the model calls
//! (performed by the caller: scout runs, writing the test file, the triage
//! loop), and what it records of the triage that checks the written tests.
use vstd::prelude::*;

use crate::builder::{
    extract_test_content, factory_query_spec, integration_query_spec, parse_components,
    parse_factory_arguments, parse_write_test_suite_arguments, str_items, strip_code_fences_spec,
    validate_test_path_for_source, SourceLanguage,
};
use crate::json::{get_array, get_str, JsonValue};
use crate::llm::{AgentContext, LlmClient, LlmModelTurn, LlmRequest, LlmToolCall, LlmToolSet};
use crate::transformer_agent::{transformer_message_spec, transformer_user_message, MAX_OBSERVATION_BYTES};
use crate::report::tail_cut_ok;
use crate::text::{contains, str_contains, str_eq, string_views, trim};

verus! {

pub const BUILDER_SYSTEM_PROMPT: &'static str = r#"You are an autonomous TDD worker (PHASE_4_BUILDER). You generate unit tests, integration tests, and data factories.

Available tools (tool calls):
- gather_integration_context — runs a Scout sub-agent (ripgrep, AST, read_file) before integration tests
- generate_test_factory — runs Scout to produce an idiomatic factory/fixture for a type (language agnostic)
- write_test_suite — writes a test file with a TDD phase (red|green|refactor). Put the full test file contents in your message; the tool only takes path and tdd_phase.

Selection rule: unit tests -> write_test_suite directly (skip gather_integration_context). Write to a new test file matching the source language — never overwrite the source file. integration tests -> gather_integration_context then write_test_suite. factories -> generate_test_factory.

TDD workflow: write_test_suite(tdd_phase=red) then write_test_suite(tdd_phase=green). RED only proves compile + failing assertions. The job is NOT done until GREEN triage passes (all tests pass). Do not stop after RED.

Deliverable requirements (mandatory — MCP output is a structured report, not a tool transcript):
- Repo-relative test file path and the full test source you wrote (or a diff)
- Build command run, exit code, and a log excerpt (last ~40 lines) proving pass/fail
- Test file extension must match source language (tsx source -> .test.tsx, rust -> .rs, etc.)
- Cover every function/symbol named in the task — never skip scope without file:line proof that existing tests already cover it
- On env/compile errors: include the error output and attempt pathing/fix before giving up

Reply with a short rationale (Thought), then call tools."#;

/// Adds the builder system prompt unless the prompt already names the builder.
pub fn builder_enrich_context(context: &mut AgentContext)
    ensures
        final(context).input_prompt@ == if contains(old(context).input_prompt@, "PHASE_4_BUILDER"@) {
            old(context).input_prompt@
        } else {
            old(context).input_prompt@ + "\n\n"@ + BUILDER_SYSTEM_PROMPT@
        },
        final(context).accumulated_data == old(context).accumulated_data,
        final(context).is_finished == old(context).is_finished,
{
    if !str_contains(context.input_prompt.as_str(), "PHASE_4_BUILDER") {
        context.input_prompt.append("\n\n");
        context.input_prompt.append(BUILDER_SYSTEM_PROMPT);
    }
}

/// `r` is the request of a builder turn on `context`: the builder system prompt,
/// the prompt with the observation history, and the builder's tools.
pub open spec fn is_builder_request(context: AgentContext, tools: LlmToolSet, r: LlmRequest) -> bool {
    &&& r.system_prompt@ == BUILDER_SYSTEM_PROMPT@
    &&& r.user_message@ == transformer_message_spec(context.input_prompt@, context.accumulated_data@)
    &&& crate::llm::request_tool_names(r) == crate::llm::tool_names(tools)
}

/// What a builder turn does with the model's reply, up to its tool calls: a
/// failed call fails the turn and changes nothing; a reply without a tool call
/// is a nudge (`record_empty_tool_turn`, which finishes the builder on the
/// limit-th one in a row); a reply with calls resets that count, records the
/// thought, and hands the calls back in order.
pub open spec fn builder_reply_effect(
    before: AgentContext,
    after: AgentContext,
    empty_before: u32,
    empty_after: u32,
    reply: Result<LlmModelTurn, String>,
    r: Result<Vec<LlmToolCall>, String>,
) -> bool {
    match reply {
        Err(e) => r matches Err(x) && x@ == e@ && after == before && empty_after == empty_before,
        Ok(t) => {
            let th = crate::orchestrator::thought_of(t);
            &&& after.input_prompt == before.input_prompt
            &&& if t.tool_calls@.len() == 0 {
                let done = empty_after >= crate::builder::EMPTY_TOOL_TURN_LIMIT;
                &&& empty_after == empty_before + 1
                &&& r matches Ok(v) && v@.len() == 0
                &&& after.accumulated_data@ == before.accumulated_data@ + crate::builder::empty_turn_note(th) + (
                if done {
                    crate::builder::builder_fail_evidence()
                } else {
                    seq![]
                })
                &&& after.is_finished == (before.is_finished || done)
            } else {
                &&& empty_after == 0
                &&& r matches Ok(v) && v@ == t.tool_calls@
                &&& after.accumulated_data@ == before.accumulated_data@ + (if th.len() == 0 {
                    seq![]
                } else {
                    "Thought:\n"@ + th + "\n"@
                })
                &&& after.is_finished == before.is_finished
            }
        },
    }
}

/// One builder turn up to its tool calls: the model is asked with the builder
/// request (`is_builder_request`) and its reply read by `builder_reply_effect`.
/// `empty_turns` counts the turns in a row without a tool call.
pub fn builder_turn<C: LlmClient>(
    client: &C,
    tools: &LlmToolSet,
    context: &mut AgentContext,
    empty_turns: &mut u32,
) -> (r: Result<Vec<LlmToolCall>, String>)
    requires
        tail_cut_ok(old(context).accumulated_data@, MAX_OBSERVATION_BYTES as nat),
        *old(empty_turns) < u32::MAX,
    ensures
        exists|req: LlmRequest, reply: Result<LlmModelTurn, String>|
            is_builder_request(*old(context), *tools, req) && #[trigger] client.answers(req, reply)
                && builder_reply_effect(*old(context), *final(context), *old(empty_turns), *final(empty_turns), reply, r),
{
    let m = transformer_user_message(context);
    let request = LlmRequest {
        system_prompt: BUILDER_SYSTEM_PROMPT.to_owned(),
        user_message: m,
        tools: crate::llm::offered_tools(tools),
    };
    let ghost req = request;
    let reply = client.complete(request);
    let ghost rv = reply;
    assert(is_builder_request(*old(context), *tools, req) && client.answers(req, rv));
    let turn = match reply {
        Ok(t) => t,
        Err(e) => {
            return Err(e);
        },
    };
    proof {
        reveal_strlit("");
    }
    let thought: String = match &turn.content {
        Some(t) => t.clone(),
        None => "".to_owned(),
    };
    assert(thought@ == crate::orchestrator::thought_of(turn));
    if turn.tool_calls.len() == 0 {
        let done = crate::builder::record_empty_tool_turn(&mut context.accumulated_data, thought.as_str(), empty_turns);
        if done {
            context.is_finished = true;
        }
        return Ok(Vec::new());
    }
    *empty_turns = 0;
    let ghost before = context.accumulated_data@;
    if !thought.as_str().is_empty() {
        context.accumulated_data.append("Thought:\n");
        context.accumulated_data.append(thought.as_str());
        context.accumulated_data.append("\n");
        assert(context.accumulated_data@ =~= before + ("Thought:\n"@ + thought@ + "\n"@));
    } else {
        assert(context.accumulated_data@ =~= old(context).accumulated_data@ + Seq::<char>::empty());
    }
    Ok(turn.tool_calls)
}

/// The note of one tool call: `Tool: name(arguments)`.
pub open spec fn tool_line(name: Seq<char>, arguments: Seq<char>) -> Seq<char> {
    "Tool: "@ + name + "("@ + arguments + ")\n"@
}

/// One tool call of a builder turn: the call is noted (its arguments as
/// `call_text` writes them) and read by `builder_action_spec`; an observation is
/// noted too, and ends the turn for the caller.
pub fn builder_call_step(
    context: &mut AgentContext,
    name: &str,
    raw_arguments: &str,
    args: &JsonValue,
    content: Option<&str>,
    language: Option<SourceLanguage>,
) -> (r: Result<BuilderAction, String>)
    ensures
        final(context).input_prompt == old(context).input_prompt,
        final(context).is_finished == old(context).is_finished,
        match builder_action_spec(name@, *args, old(context).input_prompt@, language) {
            Ok(v) => r matches Ok(a) && builder_action_view(a) == v && final(context).accumulated_data@
                == old(context).accumulated_data@ + tool_line(name@, crate::json::call_text(raw_arguments@))
                + match v {
                BuilderActionView::Observe(n) => n,
                _ => seq![],
            },
            Err(e) => r matches Err(x) && x@ == e && final(context).accumulated_data@ == old(
                context,
            ).accumulated_data@ + tool_line(name@, crate::json::call_text(raw_arguments@)),
        },
{
    let text = crate::json::call_arguments_text(raw_arguments);
    context.accumulated_data.append("Tool: ");
    context.accumulated_data.append(name);
    context.accumulated_data.append("(");
    context.accumulated_data.append(text.as_str());
    context.accumulated_data.append(")\n");
    let ghost noted = context.accumulated_data@;
    let r = builder_action(name, args, context.input_prompt.as_str(), content, language);
    match &r {
        Ok(BuilderAction::Observe { note }) => {
            context.accumulated_data.append(note.as_str());
        },
        _ => {
            assert(context.accumulated_data@ =~= noted + Seq::<char>::empty());
        },
    }
    r
}

/// What the builder keeps of a scout run: its data when the scout finished,
/// else a report of how far it got.
pub open spec fn scout_output_spec(scout: AgentContext) -> Seq<char> {
    if scout.is_finished {
        scout.accumulated_data@
    } else {
        "Scout report (finished=false, iterations="@ + crate::text::decimal(scout.iterations as nat) + "):\n"@
            + scout.accumulated_data@
    }
}

/// Records a scout run the builder launched (`label` says what for) and what it
/// found.
pub fn record_builder_scout(context: &mut AgentContext, label: &str, scout: &AgentContext)
    ensures
        final(context).accumulated_data@ == old(context).accumulated_data@ + "\n[SYSTEM]: Launching Scout for "@
            + label@ + "\n"@ + "Observation:\n"@ + scout_output_spec(*scout) + "\n"@,
        final(context).input_prompt == old(context).input_prompt,
        final(context).is_finished == old(context).is_finished,
{
    context.accumulated_data.append("\n[SYSTEM]: Launching Scout for ");
    context.accumulated_data.append(label);
    context.accumulated_data.append("\n");
    context.accumulated_data.append("Observation:\n");
    if scout.is_finished {
        context.accumulated_data.append(scout.accumulated_data.as_str());
    } else {
        context.accumulated_data.append("Scout report (finished=false, iterations=");
        context.accumulated_data.append(crate::text::fmt_u64(scout.iterations as u64).as_str());
        context.accumulated_data.append("):\n");
        context.accumulated_data.append(scout.accumulated_data.as_str());
    }
    context.accumulated_data.append("\n");
}

/// What the builder does for one tool call; the caller performs it.
pub enum BuilderAction {
    /// Record this observation and end the turn.
    Observe { note: String },
    /// Run the scout with this query (integration context or test factory).
    Scout { query: String },
    /// Write `content` to the test file `path`, then triage it in `tdd_phase`.
    WriteTests { path: String, tdd_phase: String, content: String },
}

/// What an action is, as plain values.
pub enum BuilderActionView {
    Observe(Seq<char>),
    Scout(Seq<char>),
    WriteTests(Seq<char>, Seq<char>, Seq<char>),
}

pub open spec fn builder_action_view(a: BuilderAction) -> BuilderActionView {
    match a {
        BuilderAction::Observe { note } => BuilderActionView::Observe(note@),
        BuilderAction::Scout { query } => BuilderActionView::Scout(query@),
        BuilderAction::WriteTests { path, tdd_phase, content } => BuilderActionView::WriteTests(
            path@,
            tdd_phase@,
            content@,
        ),
    }
}

pub open spec fn unit_test_note() -> Seq<char> {
    "Observation:\nFor unit tests, call write_test_suite directly with path under tests/ and content. Do not use gather_integration_context.\n"@
}

/// An observation note.
pub open spec fn observation(text: Seq<char>) -> Seq<char> {
    "Observation:\n"@ + text + "\n"@
}

/// The builder's reading of a tool call. `language` is the language of the
/// source under test when it is known (the test file must fit it).
pub open spec fn builder_action_spec(
    name: Seq<char>,
    args: JsonValue,
    prompt: Seq<char>,
    language: Option<SourceLanguage>,
) -> Result<BuilderActionView, Seq<char>> {
    if name == "gather_integration_context"@ {
        if contains(prompt, "`unit` test"@) {
            Ok(BuilderActionView::Observe(unit_test_note()))
        } else {
            match get_array(args, "components"@) {
                None => Err(crate::builder::components_not_array_msg()),
                Some(items) => if crate::builder::all_strings(items) {
                    Ok(BuilderActionView::Scout(integration_query_spec(str_items(items))))
                } else {
                    Err(crate::builder::components_not_strings_msg())
                },
            }
        }
    } else if name == "generate_test_factory"@ {
        match (get_str(args, "target_struct"@), get_str(args, "target_file"@)) {
            (Some(a), Some(b)) => Ok(BuilderActionView::Scout(factory_query_spec(a, b))),
            (None, _) => Err(crate::json::not_a_string_msg("target_struct"@)),
            (Some(_), None) => Err(crate::json::not_a_string_msg("target_file"@)),
        }
    } else if name == "write_test_suite"@ {
        match (get_str(args, "path"@), get_str(args, "tdd_phase"@)) {
            (None, _) => Err(crate::json::not_a_string_msg("path"@)),
            (Some(_), None) => Err(crate::json::not_a_string_msg("tdd_phase"@)),
            (Some(p), Some(ph)) => if !(ph == "red"@ || ph == "green"@ || ph == "refactor"@) {
                Err(crate::builder::bad_phase_msg())
            } else {
                let path_ok = match language {
                    Some(l) => crate::builder::ext_fits(l, crate::builder::ext_or_empty(p)),
                    None => true,
                };
                if !path_ok {
                    Ok(BuilderActionView::Observe(observation(crate::builder::test_ext_mismatch_msg(p, language->0))))
                } else {
                    match get_str(args, "content"@) {
                        Some(t) => if trim(t).len() > 0 {
                            Ok(BuilderActionView::WriteTests(p, ph, strip_code_fences_spec(trim(t))))
                        } else {
                            Ok(BuilderActionView::Observe(observation(crate::builder::missing_content_msg())))
                        },
                        None => Ok(BuilderActionView::Observe(observation(crate::builder::missing_content_msg()))),
                    }
                }
            }
        }
    } else {
        Err("unsupported builder tool: "@ + name)
    }
}

fn observe(text: String) -> (a: BuilderAction)
    ensures
        builder_action_view(a) == BuilderActionView::Observe(observation(text@)),
{
    let mut n = "Observation:\n".to_owned();
    n.append(text.as_str());
    n.append("\n");
    BuilderAction::Observe { note: n }
}

/// Reads a tool call of the builder's model (see `builder_action_spec`).
pub fn builder_action(
    name: &str,
    args: &JsonValue,
    input_prompt: &str,
    content: Option<&str>,
    language: Option<SourceLanguage>,
) -> (r: Result<BuilderAction, String>)
    ensures
        match builder_action_spec(name@, *args, input_prompt@, language) {
            Ok(v) => r matches Ok(a) && builder_action_view(a) == v,
            Err(e) => r matches Err(x) && x@ == e,
        },
{
    if str_eq(name, "gather_integration_context") {
        if str_contains(input_prompt, "`unit` test") {
            return Ok(BuilderAction::Observe {
                note: "Observation:\nFor unit tests, call write_test_suite directly with path under tests/ and content. Do not use gather_integration_context.\n".to_owned(),
            });
        }
        match parse_components(args) {
            Ok(c) => Ok(BuilderAction::Scout { query: crate::builder::build_scout_integration_query(c.as_slice()) }),
            Err(e) => Err(e),
        }
    } else if str_eq(name, "generate_test_factory") {
        match parse_factory_arguments(args) {
            Ok((s, f)) => Ok(BuilderAction::Scout {
                query: crate::builder::build_scout_factory_query(s.as_str(), f.as_str()),
            }),
            Err(e) => Err(e),
        }
    } else if str_eq(name, "write_test_suite") {
        let (path, phase) = match parse_write_test_suite_arguments(args) {
            Ok(t) => t,
            Err(e) => {
                return Err(e);
            },
        };
        match language {
            Some(l) => match validate_test_path_for_source(path.as_str(), l) {
                Err(e) => {
                    return Ok(observe(e));
                },
                Ok(()) => {},
            },
            None => {},
        }
        match extract_test_content(content, args) {
            Ok(c) => Ok(BuilderAction::WriteTests { path, tdd_phase: phase, content: c }),
            Err(e) => Ok(observe(e)),
        }
    } else {
        let mut e = "unsupported builder tool: ".to_owned();
        e.append(name);
        Err(e)
    }
}

/// The triage directive of a TDD phase.
pub open spec fn triage_directive_spec(phase: Seq<char>) -> Seq<char> {
    if phase == "red"@ {
        "TDD RED PHASE: Code MUST compile cleanly (fix missing imports, type typos). Tests MUST fail assertions. DO NOT touch assertion logic."@
    } else if phase == "refactor"@ {
        "TDD REFACTOR PHASE: Code must compile and all tests MUST pass after refactoring."@
    } else {
        "TDD GREEN PHASE: Code must compile and all tests MUST pass. If there are errors, fix them."@
    }
}

/// The prompt of the triage that checks a written test file.
pub fn builder_triage_prompt(test_path: &str, tdd_phase: &str) -> (r: String)
    ensures
        r@ == "Verify "@ + test_path@ + ":\n"@ + triage_directive_spec(tdd_phase@),
{
    let mut p = "Verify ".to_owned();
    p.append(test_path);
    p.append(":\n");
    if str_eq(tdd_phase, "red") {
        p.append("TDD RED PHASE: Code MUST compile cleanly (fix missing imports, type typos). Tests MUST fail assertions. DO NOT touch assertion logic.");
    } else if str_eq(tdd_phase, "refactor") {
        p.append("TDD REFACTOR PHASE: Code must compile and all tests MUST pass after refactoring.");
    } else {
        p.append("TDD GREEN PHASE: Code must compile and all tests MUST pass. If there are errors, fix them.");
    }
    p
}

/// Records the launch of the triage of a written test file.
pub fn record_builder_launch(context: &mut AgentContext, tdd_phase: &str, test_path: &str)
    ensures
        final(context).accumulated_data@ == old(context).accumulated_data@ + "\n[SYSTEM]: Launching Triage ("@
            + tdd_phase@ + ") for "@ + test_path@ + "\n"@,
        final(context).is_finished == old(context).is_finished,
        final(context).input_prompt == old(context).input_prompt,
{
    context.accumulated_data.append("\n[SYSTEM]: Launching Triage (");
    context.accumulated_data.append(tdd_phase);
    context.accumulated_data.append(") for ");
    context.accumulated_data.append(test_path);
    context.accumulated_data.append("\n");
}

/// Did the triage reach the phase's outcome: red wants compiling code with
/// tests failing on assertions, the other phases a pass.
pub open spec fn builder_triage_ok(triage: AgentContext, phase: Seq<char>) -> bool {
    triage.is_finished && if phase == "red"@ {
        contains(triage.input_prompt@, "compile succeeded, tests failing assertions"@)
    } else {
        crate::report::triage_passed_spec(triage.input_prompt@)
    }
}

/// What the builder records of a triage run: its data, then red OK (the
/// green phase is still owed), green OK (the job is done), or a failure.
pub open spec fn builder_triage_note(triage: AgentContext, phase: Seq<char>, test_path: Seq<char>) -> Seq<char> {
    "\n[TRIAGE RESULT]: "@ + triage.accumulated_data@ + "\n"@ + if builder_triage_ok(triage, phase) {
        if phase == "red"@ {
            "\n[RED OK]: tests compile and fail assertions. Call write_test_suite again with tdd_phase=green — job is not done until GREEN.\n"@
        } else {
            "\n[BUILDER GREEN OK]\n"@
        }
    } else {
        "\n[TRIAGE FAILURE]: triage did not reach expected TDD outcome\ntest_path: "@ + test_path + "\n"@
    }
}

/// Records the triage that checked a written test file; a passing green (or
/// refactor) phase finishes the builder.
pub fn record_builder_triage(context: &mut AgentContext, triage: &AgentContext, tdd_phase: &str, test_path: &str)
    ensures
        final(context).accumulated_data@ == old(context).accumulated_data@ + builder_triage_note(
            *triage,
            tdd_phase@,
            test_path@,
        ),
        final(context).is_finished == (old(context).is_finished || (builder_triage_ok(*triage, tdd_phase@)
            && tdd_phase@ != "red"@)),
        final(context).input_prompt == old(context).input_prompt,
{
    let ghost before = context.accumulated_data@;
    context.accumulated_data.append("\n[TRIAGE RESULT]: ");
    context.accumulated_data.append(triage.accumulated_data.as_str());
    context.accumulated_data.append("\n");
    let red = str_eq(tdd_phase, "red");
    let ok = triage.is_finished && if red {
        str_contains(triage.input_prompt.as_str(), "compile succeeded, tests failing assertions")
    } else {
        crate::report::triage_passed(triage)
    };
    if ok {
        if red {
            context.accumulated_data.append(
                "\n[RED OK]: tests compile and fail assertions. Call write_test_suite again with tdd_phase=green — job is not done until GREEN.\n",
            );
        } else {
            context.is_finished = true;
            context.accumulated_data.append("\n[BUILDER GREEN OK]\n");
        }
    } else {
        context.accumulated_data.append(
            "\n[TRIAGE FAILURE]: triage did not reach expected TDD outcome\ntest_path: ",
        );
        context.accumulated_data.append(test_path);
        context.accumulated_data.append("\n");
    }
    assert(context.accumulated_data@ =~= before + builder_triage_note(*triage, tdd_phase@, test_path@));
}

} // verus!
