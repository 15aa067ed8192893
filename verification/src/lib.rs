//! Verified core of the adjutant agent toolkit.
pub mod text;
pub mod paths;
pub mod llm;
pub mod pruner;
pub mod json;
pub mod planner;
pub mod hunks;
pub mod blueprint;
pub mod order;
pub mod babysitter;
pub mod builder;
pub mod git_janitor;
pub mod triage;
pub mod transformer;
pub mod project;
pub mod migration;
pub mod codemod;
pub mod draft;
pub mod report;
pub mod orchestrator;
pub mod evaluator;
pub mod transpiler;
pub mod web_fetcher;
pub mod scout;
pub mod cache;
pub mod literal_codemods;
pub mod log_analyzer;
pub mod build_runs;
pub mod triage_agent;
pub mod transformer_agent;
pub mod babysitter_agent;
pub mod transpiler_agent;
pub mod harness;
pub mod builder_agent;
pub mod discovery;
pub mod git_scout;
