use adjutant::json::JsonValue;
use adjutant::llm::{
    AgentContext, LlmClient, LlmModelTurn, LlmRequest, LlmToolCall, LlmToolSet, ToolDefinition,
    ToolInvocation, ToolInvoker,
};
use adjutant::scout::{ScoutAgent, SCOUT_SYSTEM_PROMPT};

struct Reply {
    name: &'static str,
    args: Vec<(&'static str, &'static str)>,
}

impl LlmClient for Reply {
    fn complete(&self, request: LlmRequest) -> Result<LlmModelTurn, String> {
        assert_eq!(request.system_prompt, SCOUT_SYSTEM_PROMPT);
        let names: Vec<&str> = request.tools.iter().map(|t| t.name.as_str()).collect();
        assert_eq!(names, vec!["read_file", "finalize"]);
        Ok(LlmModelTurn {
            content: Some("look".to_string()),
            tool_calls: vec![LlmToolCall {
                name: self.name.to_string(),
                arguments: "{}".to_string(),
                parsed_arguments: JsonValue::Object(
                    self.args.iter().map(|(k, v)| (k.to_string(), JsonValue::Str(v.to_string()))).collect(),
                ),
            }],
            usage: None,
        })
    }
}

struct Ok1;

impl ToolInvoker for Ok1 {
    fn invoke(&self, name: &str, _arguments: &JsonValue, _raw: &str) -> Result<ToolInvocation, String> {
        Ok(ToolInvocation { output: format!("{name} output"), is_terminal: false })
    }
}

fn context() -> AgentContext {
    AgentContext {
        input_prompt: "where is X".to_string(),
        accumulated_data: String::new(),
        iterations: 1,
        max_iterations: 6,
        is_finished: false,
        agent_completed: false,
        touched_files: Vec::new(),
        last_tool_call: None,
    }
}

fn read_only() -> LlmToolSet {
    LlmToolSet::new().register(ToolDefinition::new("read_file", "read"))
}

#[test]
fn scout_turn_records_the_file_it_read() {
    let agent = ScoutAgent::new(Reply { name: "read_file", args: vec![("file", "src/x.rs")] }, read_only());
    let mut ctx = context();
    assert_eq!(agent.process_and_evaluate(&Ok1, &mut ctx, "/repo"), Ok(None));
    assert_eq!(ctx.touched_files, vec!["/repo/src/x.rs".to_string()]);
    assert!(ctx.accumulated_data.contains("read_file output"));
}

#[test]
fn scout_turn_hands_back_ripgrep_pattern() {
    let agent = ScoutAgent::new(Reply { name: "ripgrep", args: vec![("pattern", "LlmUsage")] }, read_only());
    let mut ctx = context();
    assert_eq!(agent.process_and_evaluate(&Ok1, &mut ctx, "/repo"), Ok(Some("LlmUsage".to_string())));
    assert!(ctx.touched_files.is_empty());
}

#[test]
fn scout_with_tools_keeps_the_set() {
    let agent = ScoutAgent::with_tools(Reply { name: "x", args: vec![] }, read_only());
    assert_eq!(agent.tools().tools.len(), 1);
}
