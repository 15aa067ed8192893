use adjutant::llm::{AgentContext, LlmClient, LlmModelTurn, LlmRequest};
use adjutant::pruner::{
    compact_request_message, compact_text, estimate_tokens, finish_compact,
    is_context_overflow_err, maybe_overflow_compact, maybe_proactive_compact,
    rewrite_context_for_window, tokens_over_threshold, AutoCompactGuard, CompactMode,
};

struct EchoShorter;

impl LlmClient for EchoShorter {
    fn complete(&self, request: LlmRequest) -> Result<LlmModelTurn, String> {
        let body = request.user_message.chars().take(200).collect::<String>();
        Ok(LlmModelTurn {
            content: Some(format!("DENSE:{body}")),
            tool_calls: vec![],
            usage: None,
        })
    }
}

#[test]
fn estimate_tokens_uses_chars_per_token() {
    assert_eq!(estimate_tokens("abcd"), 1);
    assert_eq!(estimate_tokens("abcdefgh"), 2);
}

#[test]
fn threshold_at_eighty_percent() {
    assert!(!tokens_over_threshold(79, 100));
    assert!(tokens_over_threshold(80, 100));
}

#[test]
fn overflow_err_detects_common_phrases() {
    assert!(is_context_overflow_err("context_length_exceeded"));
    assert!(is_context_overflow_err("Error: maximum context length"));
    assert!(!is_context_overflow_err("temperature unsupported"));
}

#[test]
fn compact_mode_parse() {
    assert_eq!(CompactMode::parse("compact").unwrap(), CompactMode::Compact);
    assert_eq!(CompactMode::parse("REDUCE").unwrap(), CompactMode::Reduce);
    assert!(CompactMode::parse("squash").is_err());
}

#[test]
fn compact_text_returns_model_output() {
    let out = compact_text(&EchoShorter, "hello world stuff", CompactMode::Compact, 512)
        .expect("compact");
    assert!(out.starts_with("DENSE:"));
}

#[test]
fn reduce_hard_truncates_when_over_target() {
    struct Verbose;
    impl LlmClient for Verbose {
        fn complete(&self, _request: LlmRequest) -> Result<LlmModelTurn, String> {
            Ok(LlmModelTurn {
                content: Some("x".repeat(10_000)),
                tool_calls: vec![],
                usage: None,
            })
        }
    }
    let out = compact_text(&Verbose, "src", CompactMode::Reduce, 100).expect("reduce");
    // floor is 256 tokens even if caller asks for less
    assert!(estimate_tokens(&out) <= 256);
}

#[test]
fn estimate_tokens_empty_text_is_one() {
    assert_eq!(estimate_tokens(""), 1);
    assert_eq!(estimate_tokens("abcde"), 2);
    assert_eq!(estimate_tokens("ééé"), 1);
}

#[test]
fn zero_window_is_never_over_threshold() {
    assert!(!tokens_over_threshold(usize::MAX, 0));
    assert!(tokens_over_threshold(8, 10));
    assert!(!tokens_over_threshold(7, 10));
}

#[test]
fn compact_mode_parse_trims_and_reports_bad_mode() {
    assert_eq!(CompactMode::parse("  Compact \n").unwrap(), CompactMode::Compact);
    let err = CompactMode::parse(" Squash ").unwrap_err();
    assert_eq!(err, "mode must be compact|reduce, got \"squash\"");
    assert_eq!(CompactMode::Reduce.as_str(), "reduce");
    assert_eq!(CompactMode::Compact.as_str(), "compact");
}

#[test]
fn rewrite_replaces_history_or_prompt() {
    let (p, a) = rewrite_context_for_window("prompt", "", "dense");
    assert_eq!((p.as_str(), a.as_str()), ("dense", ""));
    let (p, a) = rewrite_context_for_window("prompt", "history", "dense");
    assert_eq!(p, "prompt");
    assert_eq!(a, "[compacted observation history]\ndense");
}

#[test]
fn request_message_raises_small_targets() {
    let msg = compact_request_message("CTX", CompactMode::Compact, 10);
    assert!(msg.starts_with("MODE=compact"));
    assert!(msg.contains("\nTARGET_TOKENS=256 (~1024 chars)\n\n---\nCONTEXT TO DENSIFY:\nCTX"));
}

#[test]
fn finish_compact_rejects_blank_and_trims() {
    assert!(finish_compact(None, CompactMode::Compact, 300).is_err());
    assert!(finish_compact(Some("  \n ".to_string()), CompactMode::Compact, 300).is_err());
    assert_eq!(
        finish_compact(Some("  dense  ".to_string()), CompactMode::Compact, 300).unwrap(),
        "dense"
    );
    let long = "y".repeat(2000);
    let cut = finish_compact(Some(long), CompactMode::Reduce, 1).unwrap();
    assert_eq!(cut.chars().count(), 1024);
}

fn agent_context(prompt: &str, data: &str) -> AgentContext {
    AgentContext {
        input_prompt: prompt.to_string(),
        accumulated_data: data.to_string(),
        iterations: 1,
        max_iterations: 4,
        is_finished: false,
        agent_completed: false,
        touched_files: vec![],
        last_tool_call: None,
    }
}

#[test]
fn proactive_compact_runs_only_near_the_window() {
    let guard = AutoCompactGuard {
        window_tokens: 100,
        pruner: EchoShorter,
    };
    let mut small = agent_context("task", "short");
    maybe_proactive_compact("sys", &mut small, Some(&guard), true).unwrap();
    assert_eq!(small.accumulated_data, "short");
    let mut big = agent_context("task", &"o".repeat(1000));
    maybe_proactive_compact("sys", &mut big, Some(&guard), false).unwrap();
    assert_eq!(big.accumulated_data.len(), 1000);
    maybe_proactive_compact::<EchoShorter>("sys", &mut big, None, true).unwrap();
    assert_eq!(big.accumulated_data.len(), 1000);
    maybe_proactive_compact("sys", &mut big, Some(&guard), true).unwrap();
    assert_eq!(big.input_prompt, "task");
    assert!(big
        .accumulated_data
        .starts_with("[compacted observation history]\nDENSE:"));
}

#[test]
fn overflow_compact_needs_an_overflow_error() {
    let guard = AutoCompactGuard {
        window_tokens: 1000,
        pruner: EchoShorter,
    };
    let mut c = agent_context("whole prompt", "");
    assert_eq!(
        maybe_overflow_compact("rate limited", &mut c, Some(&guard), true),
        Ok(false)
    );
    assert_eq!(c.input_prompt, "whole prompt");
    assert_eq!(
        maybe_overflow_compact("context_length_exceeded", &mut c, Some(&guard), true),
        Ok(true)
    );
    assert!(c.input_prompt.starts_with("DENSE:"));
    assert_eq!(c.accumulated_data, "");
}

#[test]
fn overflow_detection_ignores_case_and_surrounding_text() {
    for e in ["context_length_exceeded", "Error: maximum context length", "too many tokens", "temperature unsupported"] {
        let upper = e.to_ascii_uppercase();
        assert_eq!(is_context_overflow_err(&upper), is_context_overflow_err(e));
        if is_context_overflow_err(e) {
            assert!(is_context_overflow_err(&format!("provider said: {e} (retry later)")));
        }
    }
}
