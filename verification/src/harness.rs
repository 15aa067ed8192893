//! Harness tools: the tools of the babysitter, git janitor and transpiler
//! agents. The agent performs every tool itself except its terminal ones,
//! whose answer ends the run; asked to run any other tool, the tool set says
//! which agent runs it.
use vstd::prelude::*;

use crate::json::{get, JsonValue};
use crate::llm::{ToolInvocation, ToolInvoker};
use crate::text::str_eq;

verus! {

/// Whose harness tools these are.
#[derive(Clone, Copy, PartialEq, Eq, Structural)]
pub enum HarnessKind {
    Babysitter,
    GitJanitor,
    Transpiler,
}

/// The agent that runs a harness's non-terminal tools.
pub open spec fn harness_agent(kind: HarnessKind) -> Seq<char> {
    match kind {
        HarnessKind::Babysitter => "BabysitterAgent"@,
        HarnessKind::GitJanitor => "GitJanitorAgent"@,
        HarnessKind::Transpiler => "TranspilerAgent"@,
    }
}

/// The terminal tools: `finalize_session`; `emit_git_copy`; `finalize_sync`
/// and `report_error`.
pub open spec fn harness_terminal(kind: HarnessKind, name: Seq<char>) -> bool {
    match kind {
        HarnessKind::Babysitter => name == "finalize_session"@,
        HarnessKind::GitJanitor => name == "emit_git_copy"@,
        HarnessKind::Transpiler => name == "finalize_sync"@ || name == "report_error"@,
    }
}

pub fn harness_is_terminal(kind: HarnessKind, name: &str) -> (b: bool)
    ensures
        b == harness_terminal(kind, name@),
{
    match kind {
        HarnessKind::Babysitter => str_eq(name, "finalize_session"),
        HarnessKind::GitJanitor => str_eq(name, "emit_git_copy"),
        HarnessKind::Transpiler => str_eq(name, "finalize_sync") || str_eq(name, "report_error"),
    }
}

/// The text of a string value, or `default`.
pub open spec fn str_or(v: Option<JsonValue>, default: Seq<char>) -> Seq<char> {
    match v {
        Some(JsonValue::Str(s)) => s@,
        _ => default,
    }
}

/// What a harness tool answers: a terminal tool its result (the summary, or
/// the transpiler's summary else reason, or "session finalized"; the git
/// janitor's arguments as serde_json writes the value they hold, `call_text`);
/// any other tool the agent that runs it.
pub open spec fn harness_answer(kind: HarnessKind, name: Seq<char>, args: JsonValue, raw: Seq<char>) -> Result<
    Seq<char>,
    Seq<char>,
> {
    if !harness_terminal(kind, name) {
        Err(name + " is executed by "@ + harness_agent(kind))
    } else {
        match kind {
            HarnessKind::Babysitter => Ok(str_or(get(args, "summary"@), "session finalized"@)),
            HarnessKind::GitJanitor => Ok(crate::json::call_text(raw)),
            HarnessKind::Transpiler => Ok(
                match get(args, "summary"@) {
                    Some(v) => str_or(Some(v), "session finalized"@),
                    None => str_or(get(args, "reason"@), "session finalized"@),
                },
            ),
        }
    }
}

fn str_or_exec(v: Option<&JsonValue>, default: &str) -> (r: String)
    ensures
        r@ == str_or(
            match v {
                Some(x) => Some(*x),
                None => None,
            },
            default@,
        ),
{
    match v {
        Some(x) => match x.as_str() {
            Some(s) => s.to_owned(),
            None => default.to_owned(),
        },
        None => default.to_owned(),
    }
}

/// Answers a call of a harness tool (see `harness_answer`).
pub fn harness_invoke(kind: HarnessKind, name: &str, args: &JsonValue, raw: &str) -> (r: Result<
    ToolInvocation,
    String,
>)
    ensures
        match harness_answer(kind, name@, *args, raw@) {
            Ok(o) => r matches Ok(i) && i.output@ == o && i.is_terminal,
            Err(e) => r matches Err(x) && x@ == e,
        },
{
    if !harness_is_terminal(kind, name) {
        let mut e = name.to_owned();
        e.append(" is executed by ");
        e.append(
            match kind {
                HarnessKind::Babysitter => "BabysitterAgent",
                HarnessKind::GitJanitor => "GitJanitorAgent",
                HarnessKind::Transpiler => "TranspilerAgent",
            },
        );
        return Err(e);
    }
    let output = match kind {
        HarnessKind::Babysitter => str_or_exec(args.get("summary"), "session finalized"),
        HarnessKind::GitJanitor => crate::json::call_arguments_text(raw),
        HarnessKind::Transpiler => match args.get("summary") {
            Some(v) => str_or_exec(Some(v), "session finalized"),
            None => str_or_exec(args.get("reason"), "session finalized"),
        },
    };
    Ok(ToolInvocation { output, is_terminal: true })
}

/// The harness tools of one agent, as a tool box for the tool turn.
pub struct HarnessTools {
    pub kind: HarnessKind,
}

impl ToolInvoker for HarnessTools {
    fn invoke(&self, name: &str, arguments: &JsonValue, raw_arguments: &str) -> Result<ToolInvocation, String> {
        harness_invoke(self.kind, name, arguments, raw_arguments)
    }
}

} // verus!
