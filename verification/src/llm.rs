//! Tool definitions offered to the model, the tool registry, the model client
//! interface, and the per-run agent context.
use vstd::prelude::*;

use crate::text::{string_views, str_contains};

verus! {

/// The JSON-schema type of a tool parameter.
#[derive(Clone)]
pub enum ParamKind {
    String,
    StringArray,
    Integer,
    Boolean,
    Enum(Vec<String>),
}

/// One named parameter of a tool.
#[derive(Clone)]
pub struct ToolParam {
    pub name: String,
    pub description: String,
    pub kind: ParamKind,
    pub required: bool,
}

/// A tool as the model sees it: name, description and parameters.
#[derive(Clone)]
pub struct ToolDefinition {
    pub name: String,
    pub description: String,
    pub params: Vec<ToolParam>,
}

/// The parameter names of a definition, in declaration order.
pub open spec fn param_names(d: ToolDefinition) -> Seq<Seq<char>> {
    d.params@.map_values(|p: ToolParam| p.name@)
}

impl ToolDefinition {
    /// A definition with no parameters yet.
    pub fn new(name: &str, description: &str) -> (d: Self)
        ensures
            d.name@ == name@,
            d.description@ == description@,
            d.params@.len() == 0,
    {
        ToolDefinition {
            name: name.to_owned(),
            description: description.to_owned(),
            params: Vec::new(),
        }
    }

    fn with_param(self, name: &str, description: &str, kind: ParamKind, required: bool) -> (d:
        Self)
        ensures
            d.name == self.name,
            d.description == self.description,
            d.params@.len() == self.params@.len() + 1,
            d.params@.drop_last() == self.params@,
            d.params@.last().name@ == name@,
            d.params@.last().description@ == description@,
            d.params@.last().kind == kind,
            d.params@.last().required == required,
    {
        let mut d = self;
        d.params.push(
            ToolParam {
                name: name.to_owned(),
                description: description.to_owned(),
                kind,
                required,
            },
        );
        d
    }

    /// Adds a string parameter.
    pub fn string_param(self, name: &str, description: &str, required: bool) -> (d: Self)
        ensures
            d.name == self.name,
            d.description == self.description,
            d.params@.drop_last() == self.params@,
            d.params@.len() == self.params@.len() + 1,
            d.params@.last().name@ == name@,
            d.params@.last().kind is String,
            d.params@.last().required == required,
    {
        self.with_param(name, description, ParamKind::String, required)
    }

    /// Adds a string-array parameter.
    pub fn string_array_param(self, name: &str, description: &str, required: bool) -> (d: Self)
        ensures
            d.name == self.name,
            d.description == self.description,
            d.params@.drop_last() == self.params@,
            d.params@.len() == self.params@.len() + 1,
            d.params@.last().name@ == name@,
            d.params@.last().kind is StringArray,
            d.params@.last().required == required,
    {
        self.with_param(name, description, ParamKind::StringArray, required)
    }

    /// Adds an integer parameter.
    pub fn integer_param(self, name: &str, description: &str, required: bool) -> (d: Self)
        ensures
            d.name == self.name,
            d.description == self.description,
            d.params@.drop_last() == self.params@,
            d.params@.len() == self.params@.len() + 1,
            d.params@.last().name@ == name@,
            d.params@.last().kind is Integer,
            d.params@.last().required == required,
    {
        self.with_param(name, description, ParamKind::Integer, required)
    }

    /// Adds a boolean parameter.
    pub fn boolean_param(self, name: &str, description: &str, required: bool) -> (d: Self)
        ensures
            d.name == self.name,
            d.description == self.description,
            d.params@.drop_last() == self.params@,
            d.params@.len() == self.params@.len() + 1,
            d.params@.last().name@ == name@,
            d.params@.last().kind is Boolean,
            d.params@.last().required == required,
    {
        self.with_param(name, description, ParamKind::Boolean, required)
    }

    /// Adds a string parameter restricted to `values`.
    pub fn enum_param(self, name: &str, description: &str, values: &[&str], required: bool) -> (d:
        Self)
        ensures
            d.name == self.name,
            d.description == self.description,
            d.params@.drop_last() == self.params@,
            d.params@.len() == self.params@.len() + 1,
            d.params@.last().name@ == name@,
            d.params@.last().required == required,
            d.params@.last().kind matches ParamKind::Enum(vs) && string_views(vs@) == values@.map_values(
                |v: &str| v@,
            ),
    {
        let mut vs: Vec<String> = Vec::new();
        let mut i: usize = 0;
        while i < values.len()
            invariant
                i <= values@.len(),
                string_views(vs@) == values@.take(i as int).map_values(|v: &str| v@),
            decreases values.len() - i,
        {
            let v: String = values[i].to_owned();
            assert(v@ == values@[i as int]@);
            let ghost before = vs@;
            vs.push(v);
            assert(values@.take(i + 1).map_values(|v: &str| v@) =~= values@.take(i as int).map_values(
                |v: &str| v@,
            ).push(values@[i as int]@));
            assert(string_views(vs@) =~= string_views(before).push(v@));
            i = i + 1;
            assert(string_views(vs@) =~= values@.take(i as int).map_values(|v: &str| v@));
        }
        assert(values@.take(values@.len() as int) =~= values@);
        self.with_param(name, description, ParamKind::Enum(vs), required)
    }
}

/// The tools offered to the model on one turn, in registration order.
pub struct LlmToolSet {
    pub tools: Vec<ToolDefinition>,
}

/// Names of the tools of a set, in registration order.
pub open spec fn tool_names(s: LlmToolSet) -> Seq<Seq<char>> {
    s.tools@.map_values(|d: ToolDefinition| d.name@)
}

impl LlmToolSet {
    /// An empty tool set.
    pub fn new() -> (s: Self)
        ensures
            s.tools@.len() == 0,
    {
        LlmToolSet { tools: Vec::new() }
    }

    /// Adds a tool after the ones already registered.
    pub fn register(self, tool: ToolDefinition) -> (s: Self)
        ensures
            s.tools@ == self.tools@.push(tool),
    {
        let mut s = self;
        s.tools.push(tool);
        s
    }

    /// The registered definitions, in order.
    pub fn definitions(&self) -> (r: &Vec<ToolDefinition>)
        ensures
            r@ == self.tools@,
    {
        &self.tools
    }

    /// Is a tool of this name registered?
    pub fn has_tool(&self, name: &str) -> (b: bool)
        ensures
            b == tool_names(*self).contains(name@),
    {
        let mut i: usize = 0;
        while i < self.tools.len()
            invariant
                i <= self.tools@.len(),
                forall|j: int| 0 <= j < i ==> self.tools@[j].name@ != name@,
            decreases self.tools.len() - i,
        {
            if crate::text::str_eq(self.tools[i].name.as_str(), name) {
                assert(tool_names(*self)[i as int] == name@);
                return true;
            }
            i = i + 1;
        }
        assert(!tool_names(*self).contains(name@)) by {
            if tool_names(*self).contains(name@) {
                let k = choose|k: int| 0 <= k < tool_names(*self).len() && tool_names(*self)[k] == name@;
                assert(self.tools@[k].name@ == name@);
            }
        }
        false
    }
}

/// One request to the model: system prompt, user message and offered tools.
pub struct LlmRequest {
    pub system_prompt: String,
    pub user_message: String,
    pub tools: Vec<ToolDefinition>,
}

/// One tool call the model asked for: `arguments` is the raw JSON text, and
/// `parsed_arguments` what the client parsed from it (`Null` when it was not
/// valid JSON).
pub struct LlmToolCall {
    pub name: String,
    pub arguments: String,
    pub parsed_arguments: crate::json::JsonValue,
}

/// Token counts the provider reported for one completion.
pub struct LlmUsage {
    pub prompt_tokens: u32,
    pub completion_tokens: u32,
}

/// The model's reply to one request.
pub struct LlmModelTurn {
    pub content: Option<String>,
    pub tool_calls: Vec<LlmToolCall>,
    pub usage: Option<LlmUsage>,
}

/// A chat model that answers one request. Implemented by provider clients
/// (and by test doubles); nothing is assumed of what it returns beyond this:
/// each client relates the request it was handed to its reply (`answers`), so a
/// caller's contract can say what it asked.
pub trait LlmClient {
    /// `reply` is what this client answers to `request`. A client that says
    /// nothing of its replies keeps the default: any reply may come.
    open spec fn answers(&self, request: LlmRequest, reply: Result<LlmModelTurn, String>) -> bool {
        true
    }

    fn complete(&self, request: LlmRequest) -> (r: Result<LlmModelTurn, String>)
        ensures
            self.answers(request, r),
    ;
}

/// A copy of a tool definition (same name and description).
fn copy_tool(d: &ToolDefinition) -> (c: ToolDefinition)
    ensures
        c.name == d.name,
        c.description == d.description,
{
    ToolDefinition { name: d.name.clone(), description: d.description.clone(), params: d.params.clone() }
}

/// The definitions a request offers for a tool set: a copy of each, in order.
pub fn offered_tools(tools: &LlmToolSet) -> (v: Vec<ToolDefinition>)
    ensures
        v@.map_values(|d: ToolDefinition| d.name@) == tool_names(*tools),
        v@.len() == tools.tools@.len(),
        forall|k: int| 0 <= k < v@.len() ==> (#[trigger] v@[k]).description == tools.tools@[k].description,
{
    let mut copies: Vec<ToolDefinition> = Vec::new();
    let mut i: usize = 0;
    while i < tools.tools.len()
        invariant
            i <= tools.tools@.len(),
            copies@.len() == i,
            forall|k: int|
                0 <= k < i ==> (#[trigger] copies@[k]).name == tools.tools@[k].name && copies@[k].description
                    == tools.tools@[k].description,
        decreases tools.tools.len() - i,
    {
        copies.push(copy_tool(&tools.tools[i]));
        i = i + 1;
    }
    assert(copies@.map_values(|d: ToolDefinition| d.name@) =~= tool_names(*tools));
    copies
}

/// The names of the tools a request offers.
pub open spec fn request_tool_names(r: LlmRequest) -> Seq<Seq<char>> {
    r.tools@.map_values(|d: ToolDefinition| d.name@)
}

/// The state an agent loop threads through its iterations.
pub struct AgentContext {
    pub input_prompt: String,
    pub accumulated_data: String,
    pub iterations: u32,
    pub max_iterations: u32,
    pub is_finished: bool,
    pub agent_completed: bool,
    pub touched_files: Vec<String>,
    /// Last tool invocation `(name, serialized args)`, used to block repeat loops.
    pub last_tool_call: Option<(String, String)>,
}


/// What a tool handed back: its output, and whether it ends the agent's run.
pub struct ToolInvocation {
    pub output: String,
    pub is_terminal: bool,
}

/// Runs the tools an agent offers (they read files, search code or record a
/// draft). Implemented by each agent's tool box; nothing is assumed of what it
/// returns.
pub trait ToolInvoker {
    fn invoke(&self, name: &str, arguments: &crate::json::JsonValue, raw_arguments: &str) -> Result<
        ToolInvocation,
        String,
    >;
}

} // verus!
