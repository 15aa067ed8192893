//! CI / crash log analysis: the model prompts, the payloads the model returns, and how
//! they are folded into the parsed crash report.
use vstd::prelude::*;

use crate::llm::{LlmClient, LlmModelTurn, LlmRequest};
use crate::text::{str_trim, trim};

verus! {

pub const LOG_ANALYZER_SYSTEM_PROMPT: &'static str = r#"You are a hyper-focused log analysis utility. Triage crash/CI logs: isolate the first root cause, extract coordinates, and return actionable coordinator fields. Return ONLY one minified JSON object (no markdown fences).

Schema:
{
  "error_type": "string",
  "error_message": "string (clean — no GH Actions job/step/timestamp prefixes)",
  "target_file": "string or null (repo-relative when possible)",
  "line_number": "integer or null",
  "column_number": "integer or null",
  "isolated_stack_trace": "string (3-5 relevant lines only, cleaned)",
  "summary": "string (one concise line: what failed and where)",
  "failing_test": "string or null",
  "command": "string or null (e.g. cargo fmt -- --check)",
  "exit_code": "integer or null",
  "diagnosis": "string (one short hypothesis grounded in the log)",
  "reproduction": ["1-3 concrete shell commands"],
  "next_steps": ["up to 4 inspect/reproduce actions — never invent patches"]
}

Rules:
- Strip GitHub Actions `job\tstep\tISO8601Z` prefixes from every text field.
- Prefer repo-relative paths (src/..., tests/...).
- next_steps = inspect/reproduce only; NEVER invent patches, unified diffs, or fake compiler output.
- Do not hallucinate log lines that are not in the dump."#;

pub const LOG_ANALYZER_ENRICH_PROMPT: &'static str = r#"You enrich an already-parsed crash report. Coordinates are LOCKED — do not change error_type, target_file, line_number, column_number, or invent different stack frames. Return ONLY one minified JSON object (no markdown fences):

{
  "summary": "string (one concise clean line)",
  "diagnosis": "string (one short hypothesis grounded in the log)",
  "reproduction": ["1-3 concrete shell commands"],
  "next_steps": ["up to 4 inspect/reproduce actions"],
  "failing_test": "string or null",
  "command": "string or null",
  "exit_code": "integer or null"
}

Rules: strip GH Actions prefixes; no invented patches or hallucinated log lines; fill nulls only when clearly present in the log."#;

/// The model's full analysis of a log.
#[derive(Debug)]
pub struct LlmAnalysisPayload {
    pub error_type: String,
    pub error_message: String,
    pub target_file: Option<String>,
    pub line_number: Option<u32>,
    pub column_number: Option<u32>,
    pub isolated_stack_trace: String,
    pub summary: Option<String>,
    pub failing_test: Option<String>,
    pub command: Option<String>,
    pub exit_code: Option<i32>,
    pub diagnosis: Option<String>,
    pub reproduction: Option<Vec<String>>,
    pub next_steps: Option<Vec<String>>,
}

/// The model's enrichment of a parsed report (coordinates stay locked).
#[derive(Debug)]
pub struct LlmEnrichPayload {
    pub summary: Option<String>,
    pub diagnosis: Option<String>,
    pub reproduction: Option<Vec<String>>,
    pub next_steps: Option<Vec<String>>,
    pub failing_test: Option<String>,
    pub command: Option<String>,
    pub exit_code: Option<i32>,
}

/// The coordinates of a crash: what failed and where.
#[derive(Debug)]
pub struct CrashAnalysisCore {
    pub error_type: String,
    pub error_message: String,
    pub target_file: Option<String>,
    pub line_number: Option<u32>,
    pub column_number: Option<u32>,
    pub isolated_stack_trace: String,
    pub failing_test: Option<String>,
    pub command: Option<String>,
    pub exit_code: Option<i32>,
}

/// What the model adds to a report.
#[derive(Debug)]
pub struct ReportEnrichment {
    pub summary: Option<String>,
    pub diagnosis: Option<String>,
    pub reproduction: Option<Vec<String>>,
    pub next_steps: Option<Vec<String>>,
    pub llm_fallback_error: Option<String>,
}

pub open spec fn sv(o: Option<String>) -> Option<Seq<char>> {
    match o {
        Some(s) => Some(s@),
        None => None,
    }
}

pub open spec fn vv(o: Option<Vec<String>>) -> Option<Seq<Seq<char>>> {
    match o {
        Some(v) => Some(crate::text::string_views(v@)),
        None => None,
    }
}

/// A text kept only when it is not blank.
pub open spec fn nonblank(o: Option<Seq<char>>) -> Option<Seq<char>> {
    match o {
        Some(s) => if trim(s).len() > 0 {
            Some(s)
        } else {
            None
        },
        None => None,
    }
}

/// A list kept only when it is not empty.
pub open spec fn nonempty(o: Option<Seq<Seq<char>>>) -> Option<Seq<Seq<char>>> {
    match o {
        Some(v) => if v.len() > 0 {
            Some(v)
        } else {
            None
        },
        None => None,
    }
}

/// At most four next steps, kept only when there is one.
pub open spec fn next_steps_spec(o: Option<Seq<Seq<char>>>) -> Option<Seq<Seq<char>>> {
    match o {
        Some(v) => if v.len() == 0 {
            None
        } else if v.len() > 4 {
            Some(v.take(4))
        } else {
            Some(v)
        },
        None => None,
    }
}

fn keep_nonblank(o: Option<String>) -> (r: Option<String>)
    ensures
        sv(r) == nonblank(sv(o)),
{
    match o {
        Some(s) => {
            let t = str_trim(s.as_str());
            if t.as_str().is_empty() {
                None
            } else {
                Some(s)
            }
        },
        None => None,
    }
}

fn keep_nonempty(o: Option<Vec<String>>) -> (r: Option<Vec<String>>)
    ensures
        vv(r) == nonempty(vv(o)),
{
    match o {
        Some(v) => if v.len() == 0 {
            None
        } else {
            Some(v)
        },
        None => None,
    }
}

fn keep_next_steps(o: Option<Vec<String>>) -> (r: Option<Vec<String>>)
    ensures
        vv(r) == next_steps_spec(vv(o)),
{
    match o {
        Some(v0) => {
            let mut v = v0;
            let ghost before = v@;
            if v.len() > 4 {
                v.truncate(4);
                assert(crate::text::string_views(v@) =~= crate::text::string_views(before).take(4));
            }
            if v.len() == 0 {
                None
            } else {
                Some(v)
            }
        },
        None => None,
    }
}


pub open spec fn core_view(c: CrashAnalysisCore) -> (
    Seq<char>,
    Seq<char>,
    Option<Seq<char>>,
    Option<u32>,
    Option<u32>,
    Seq<char>,
    Option<Seq<char>>,
    Option<Seq<char>>,
    Option<i32>,
) {
    (
        c.error_type@,
        c.error_message@,
        sv(c.target_file),
        c.line_number,
        c.column_number,
        c.isolated_stack_trace@,
        sv(c.failing_test),
        sv(c.command),
        c.exit_code,
    )
}

/// Takes the model's full analysis as the crash core (its summary returned aside) and
/// its diagnosis, reproduction and next steps as the enrichment.
pub fn llm_payload_to_core(payload: LlmAnalysisPayload, enrichment: &mut ReportEnrichment) -> (r: (
    CrashAnalysisCore,
    Option<String>,
))
    ensures
        core_view(r.0) == (
            payload.error_type@,
            payload.error_message@,
            sv(payload.target_file),
            payload.line_number,
            payload.column_number,
            payload.isolated_stack_trace@,
            sv(payload.failing_test),
            sv(payload.command),
            payload.exit_code,
        ),
        sv(r.1) == sv(payload.summary),
        sv(final(enrichment).diagnosis) == nonblank(sv(payload.diagnosis)),
        vv(final(enrichment).reproduction) == nonempty(vv(payload.reproduction)),
        vv(final(enrichment).next_steps) == next_steps_spec(vv(payload.next_steps)),
        sv(final(enrichment).summary) == sv(old(enrichment).summary),
        sv(final(enrichment).llm_fallback_error) == sv(old(enrichment).llm_fallback_error),
{
    let LlmAnalysisPayload {
        error_type,
        error_message,
        target_file,
        line_number,
        column_number,
        isolated_stack_trace,
        summary,
        failing_test,
        command,
        exit_code,
        diagnosis,
        reproduction,
        next_steps,
    } = payload;
    enrichment.diagnosis = keep_nonblank(diagnosis);
    enrichment.reproduction = keep_nonempty(reproduction);
    enrichment.next_steps = keep_next_steps(next_steps);
    (
        CrashAnalysisCore {
            error_type,
            error_message,
            target_file,
            line_number,
            column_number,
            isolated_stack_trace,
            failing_test,
            command,
            exit_code,
        },
        summary,
    )
}

/// Folds an enrichment into a parsed report: the texts it adds, and the failing test,
/// command and exit code only where the parser found none.
pub fn apply_enrich_payload(
    core: &mut CrashAnalysisCore,
    enrichment: &mut ReportEnrichment,
    payload: LlmEnrichPayload,
)
    ensures
        sv(final(enrichment).summary) == nonblank(sv(payload.summary)),
        sv(final(enrichment).diagnosis) == nonblank(sv(payload.diagnosis)),
        vv(final(enrichment).reproduction) == nonempty(vv(payload.reproduction)),
        vv(final(enrichment).next_steps) == next_steps_spec(vv(payload.next_steps)),
        sv(final(enrichment).llm_fallback_error) == sv(old(enrichment).llm_fallback_error),
        sv(final(core).failing_test) == if old(core).failing_test is None {
            nonblank(sv(payload.failing_test))
        } else {
            sv(old(core).failing_test)
        },
        sv(final(core).command) == if old(core).command is None {
            nonblank(sv(payload.command))
        } else {
            sv(old(core).command)
        },
        final(core).exit_code == if old(core).exit_code is None {
            payload.exit_code
        } else {
            old(core).exit_code
        },
        final(core).error_type@ == old(core).error_type@,
        final(core).error_message@ == old(core).error_message@,
        sv(final(core).target_file) == sv(old(core).target_file),
        final(core).line_number == old(core).line_number,
        final(core).column_number == old(core).column_number,
        final(core).isolated_stack_trace@ == old(core).isolated_stack_trace@,
{
    let LlmEnrichPayload {
        summary,
        diagnosis,
        reproduction,
        next_steps,
        failing_test,
        command,
        exit_code,
    } = payload;
    enrichment.summary = keep_nonblank(summary);
    enrichment.diagnosis = keep_nonblank(diagnosis);
    enrichment.reproduction = keep_nonempty(reproduction);
    enrichment.next_steps = keep_next_steps(next_steps);
    if core.failing_test.is_none() {
        core.failing_test = keep_nonblank(failing_test);
    }
    if core.command.is_none() {
        core.command = keep_nonblank(command);
    }
    if core.exit_code.is_none() {
        core.exit_code = exit_code;
    }
}

/// The JSON body of a model reply: unfenced, then its first `{`..`}` span.
pub fn strip_json_payload(raw: &str) -> (r: String)
    ensures
        r@ == crate::evaluator::evaluation_json_body_spec(raw@),
{
    crate::evaluator::evaluation_json_body(raw)
}

/// The analysis request's user message: the log dump, and an exemplar when one is given.
pub open spec fn analysis_message_spec(log_dump: Seq<char>, exemplar: Option<Seq<char>>) -> Seq<char> {
    "LOG DUMP:\n"@ + log_dump + match exemplar {
        Some(ex) => if trim(ex).len() > 0 {
            "\n\n## 10/10 output exemplar (match this JSON shape)\n"@ + ex
        } else {
            Seq::empty()
        },
        None => Seq::empty(),
    }
}

pub open spec fn opt_str(o: Option<&str>) -> Option<Seq<char>> {
    match o {
        Some(s) => Some(s@),
        None => None,
    }
}

/// Builds the analysis request's user message.
pub fn analysis_user_message(log_dump: &str, exemplar: Option<&str>) -> (r: String)
    ensures
        r@ == analysis_message_spec(log_dump@, opt_str(exemplar)),
{
    let mut m = "LOG DUMP:\n".to_owned();
    m.append(log_dump);
    match exemplar {
        Some(ex) => {
            let t = str_trim(ex);
            if !t.as_str().is_empty() {
                m.append("\n\n## 10/10 output exemplar (match this JSON shape)\n");
                m.append(ex);
            }
        },
        None => {},
    }
    m
}

/// The non-blank content of a model reply, or `missing` as the error.
pub fn reply_content(content: Option<String>, missing: &str) -> (r: Result<String, String>)
    ensures
        match nonblank(sv(content)) {
            Some(c) => r matches Ok(x) && x@ == c,
            None => r matches Err(e) && e@ == missing@,
        },
{
    match keep_nonblank(content) {
        Some(c) => Ok(c),
        None => Err(missing.to_owned()),
    }
}

/// The log analysis agent: one model call per log.
pub struct LogAnalyzerAgent<C: LlmClient> {
    pub client: C,
}

impl<C: LlmClient> LogAnalyzerAgent<C> {
    pub fn new(client: C) -> (r: Self)
        ensures
            r.client == client,
    {
        LogAnalyzerAgent { client }
    }

    /// Asks the model to analyse `log_dump` and hands back the JSON body of its
    /// reply (the payload's text). The model is asked with the analysis request
    /// (`is_analysis_request`); whatever it answers, the result is
    /// `analysis_outcome` of its reply.
    pub fn analyze(&self, log_dump: &str, exemplar: Option<&str>) -> (r: Result<String, String>)
        ensures
            exists|req: LlmRequest, reply: Result<LlmModelTurn, String>|
                is_analysis_request(log_dump@, opt_str(exemplar), req) && #[trigger] self.client.answers(
                    req,
                    reply,
                ) && analysis_outcome(reply) == match r {
                    Ok(x) => Ok::<Seq<char>, Seq<char>>(x@),
                    Err(e) => Err::<Seq<char>, Seq<char>>(e@),
                },
    {
        let request = analysis_request(log_dump, exemplar);
        let ghost req = request;
        let reply = self.client.complete(request);
        let ghost reply_v = reply;
        assert(is_analysis_request(log_dump@, opt_str(exemplar), req) && self.client.answers(req, reply_v));
        let r = analysis_reply(reply);
        assert(analysis_outcome(reply_v) == match r {
            Ok(x) => Ok::<Seq<char>, Seq<char>>(x@),
            Err(e) => Err::<Seq<char>, Seq<char>>(e@),
        });
        r
    }
}

/// What an analysis request yields for the model's reply: a failed call's
/// error, an error for a blank reply, else the JSON body of the reply.
pub open spec fn analysis_outcome(reply: Result<LlmModelTurn, String>) -> Result<Seq<char>, Seq<char>> {
    match reply {
        Err(e) => Err(e@),
        Ok(turn) => match nonblank(sv(turn.content)) {
            Some(c) => Ok(crate::evaluator::evaluation_json_body_spec(c)),
            None => Err(ANALYZER_MISSING_CONTENT@),
        },
    }
}

/// `r` asks the model for a full analysis of `log_dump`: the analyzer system
/// prompt, the log (with the exemplar when there is one), and no tools.
pub open spec fn is_analysis_request(log_dump: Seq<char>, exemplar: Option<Seq<char>>, r: LlmRequest) -> bool {
    &&& r.system_prompt@ == LOG_ANALYZER_SYSTEM_PROMPT@
    &&& r.user_message@ == analysis_message_spec(log_dump, exemplar)
    &&& r.tools@.len() == 0
}

/// The request that asks the model for a full analysis of `log_dump`.
pub fn analysis_request(log_dump: &str, exemplar: Option<&str>) -> (r: LlmRequest)
    ensures
        is_analysis_request(log_dump@, opt_str(exemplar), r),
{
    LlmRequest {
        system_prompt: LOG_ANALYZER_SYSTEM_PROMPT.to_owned(),
        user_message: analysis_user_message(log_dump, exemplar),
        tools: Vec::new(),
    }
}

/// Reads the model's answer to an analysis request: a failed call passes its error on, a
/// blank reply is an error, and otherwise the JSON body of the reply comes back.
pub fn analysis_reply(reply: Result<LlmModelTurn, String>) -> (r: Result<String, String>)
    ensures
        match reply {
            Err(e) => r matches Err(x) && x@ == e@,
            Ok(turn) => match nonblank(sv(turn.content)) {
                Some(c) => r matches Ok(b) && b@ == crate::evaluator::evaluation_json_body_spec(c),
                None => r matches Err(x) && x@ == ANALYZER_MISSING_CONTENT@,
            },
        },
{
    match reply {
        Err(e) => Err(e),
        Ok(turn) => match reply_content(turn.content, ANALYZER_MISSING_CONTENT) {
            Ok(raw) => Ok(strip_json_payload(raw.as_str())),
            Err(e) => Err(e),
        },
    }
}

/// The error of a blank analysis reply.
pub const ANALYZER_MISSING_CONTENT: &'static str = "log analyzer model response missing content";

} // verus!
