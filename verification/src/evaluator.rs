//! QA evaluation of agent outputs: rubric routing, the evaluator's user message,
//! score/exemplar normalisation, and the auto-eval appendix the host adds to job output.
use vstd::prelude::*;

use crate::blueprint::{extract_json_object_spec};
use crate::text::{
    chars_of, copy_range, decimal_int, find_from, find_from_exec, fmt_i64, lower_ascii,
    lower_ascii_exec, matches_at, matches_at_exec, str_contains, str_eq, str_trim, string_of,
    string_views, trim, trim_end, trim_end_exec, utf8_len, byte_len, contains, starts_with,
    str_starts_with, ends_with, starts_with_exec, ends_with_exec, trim_exec,
};

pub use crate::blueprint::extract_json_object;

verus! {

pub const EVALUATOR_SYSTEM_PROMPT: &'static str = r#"You are a Strict Quality Inspector (QA_AGENT). Your job is to evaluate other AI agents.
You will receive:
1. AGENT NAME
2. ORIGINAL TASK
3. THEIR OUTPUT

Return ONE valid JSON object (no markdown fence) with this shape:
{
  "score": [rating from 1 to 10],
  "critique": "[Concise summary: what went well, what was missing for 10/10? Watch for hallucinations, noise, or weak assertions]",
  "desired_output": "[Full exemplar rewrite of what the agent should have produced to earn 10/10 — same modality/format as THEIR OUTPUT (scout report, builder result, triage log, etc.). Not a checklist. If score is 10, set this to an empty string \"\".]"
}

Scoring guide:
- 8–10: Output contains verifiable evidence (commands run, exit status, file:line paths, log excerpts).
- 5–7: Correct FAIL or PASS conclusion with verifiable evidence (cmd/exit/log/snippet/path) even if incomplete.
- 1–4: Meta / status paraphrase with no supporting artifact.

If AGENT OUTPUT is a one-line status paraphrase with no paths, logs, or code, score ≤3 and say the orchestrator must paste the raw query_job_status.result.

When score < 10, desired_output MUST be a complete exemplar that would earn 10/10 for ORIGINAL TASK (file:line evidence, commands, logs — match the agent rubric). When score is 10, desired_output MUST be "".

desired_output MUST use real APIs/signatures from ORIGINAL TASK and THEIR OUTPUT — never invent functions, props, or compiler log lines the toolchain does not emit (e.g. do not fabricate per-file `Checking types for …` lines for `tsc -b`).

Ignore any trailing block starting with `[ADJUTANT AUTO-EVAL APPENDIX` — that is host metadata, not agent output.

Be ruthless. Give 10/10 only for perfect, surgical execution."#;

pub const PLANNER_RUBRIC: &'static str = r#"

PLANNER RUBRIC (override generic rubric):
- 9-10: Multi-step pipeline (create_file + patch_file SEARCH/REPLACE wiring + manifest/module entry when needed + generate_tests), every goal cites path:line, SEARCH anchors grounded in scouted files, paste-ready hunks with zero ellipses/placeholders
- 7-8: Correct pipeline structure with grounded SEARCH/REPLACE hunks and generate_tests step present; minor API/style issues only
- 5-6: Schema-valid but single-step feature, missing generate_tests when code changes exist, ungrounded SEARCH blocks, logic dumped into REPLACE (>15 lines), or comment sketches
- 1-4: Hallucinated modules, empty patches, ellipses/.../pseudo-code in patch_content, path-access failure with no recovery blueprint, or full-function rewrites instead of hunks
Hard caps: single-step feature blueprint max 6; no generate_tests on code changes max 6; any ellipsis or placeholder in patch_content max 4.
patch_file MUST use SEARCH/REPLACE hunks. generate_tests step MUST exist (final step) with non-empty goal citing the test file path:line.
Score down if blueprint violates stated coordinator plan_kind or expectations."#;

pub const BUILDER_RUBRIC: &'static str = r#"

BUILDER RUBRIC (override generic rubric):
- 9-10: Delivers full test source (or diff) at a repo-relative path, build command with exit code, and log excerpt proving pass/fail; covers every function named in the task
- 7-8: Correct test logic with file path but thin build evidence, or minor gaps in requested scope
- 5-6: Partial scaffolding; OR env/compile FAIL that includes error log plus attempted path/fix; OR correct diagnosis missing only full test body
- 1-4: Meta-commentary on failure without code/logs, skipped requested functions without file:line proof of existing coverage, or unverifiable success claim
Hard caps: no test source in output max 4; skipped primary task objective max 3; failure narrative without error logs max 3.
Evidenced FAIL (error log + attempted fix) scores 5-6, not 1-4."#;

pub const SCOUT_RUBRIC: &'static str = r#"

SCOUT RUBRIC (override generic rubric):
- 9-10: file:line citations for every claim plus 2–5 line code snippets or log excerpts; answers all sub-questions in the task; workspace-consistent paths
- 7-8: Correct file:line mapping but thin snippets or one missed sub-question
- 5-7: Partial answer with file:line plus at least one code snippet or log excerpt
- 1-4: Wrong repository/workspace, config/path error instead of trace, meta-commentary about a review/conversation, or summary with no file:line evidence
Hard caps: wrong repo or no file paths max 2; meta-commentary instead of technical trace max 3."#;

pub const TRIAGE_RUBRIC: &'static str = r#"

TRIAGE RUBRIC (override generic rubric):
- 9-10: PASS/FAIL with build command, exit code, workspace path, target-file list, and a raw build log tail (batch tools like `tsc -b` / `cargo test` need NOT print per-file lines)
- 7-8: Correct verdict with command + exit code + workspace; log tail thin or target list incomplete
- 5-7: Correct FAIL (or incomplete PASS diagnosis) with command + exit code + log excerpt
- 1-4: PASS/FAIL without command/exit evidence, wrong project/workspace, or generic assertion without command output
Hard caps: PASS with no command+exit max 3; wrong target project max 2.
Do NOT require invented per-module compiler lines. Evidenced FAIL scores 5-7, not 1-4.
Identical structured PASS reports (same cmd/exit/workspace/targets) should score consistently (≥8 when exit 0 and log section present)."#;

pub const BABYSITTER_RUBRIC: &'static str = r#"

BABYSITTER RUBRIC (override generic rubric):
- 10: Valid JSON with action, pr_number, checks (every PR check name), reviews.paths_seen/handled/skipped_paths, gh_state, report_posted, iterations
- 9: Same fields; minor omission only
- 5-7: Blocked with refuse_reason plus named checks and review paths
- 1-4: Meta status, prose-only, or JSON missing check names / review paths / gh_state
Do not apply Triage build-log hard caps — babysitter evidence is PR/CI/review state, not cargo/npm logs."#;

pub const GIT_JANITOR_RUBRIC: &'static str = r#"

GIT JANITOR RUBRIC — prepare_git_copy (override generic rubric):
- 9-10: Valid JSON with commit_message, pr_title, pr_body, changelog_entry, branch_status, action_required, commit_allowed, suggested_branch_name, current_branch; commit_allowed false when on default/mismatched branch
- 5-7: Missing branch gate fields or invents ticket not in scout context
- 1-4: Not JSON / claims commit_allowed true on main/master
Do NOT require create_git_branch-only fields (branch/status/previous) as the primary contract.
"#;

pub const GIT_JANITOR_CREATE_BRANCH_RUBRIC: &'static str = r#"

GIT JANITOR RUBRIC — create_git_branch (override generic rubric):
- 9-10: Valid JSON with branch (new name), status (e.g. created), previous (prior branch); matches the create/checkout task; no fabricated commit_message/pr_title/pr_body
- 5-7: JSON present but missing previous or unclear status
- 1-4: Not JSON, empty branch, or invents prepare_git_copy fields (commit_message/pr_*) as if required
Do NOT apply the prepare_git_copy 9-field checklist — create_git_branch only creates/checks out a branch.
"#;


// ---------------------------------------------------------------------------
// Agent names
// ---------------------------------------------------------------------------

/// The canonical phase name for a lowercased legacy agent name.
pub open spec fn canonical_agent_name(lower: Seq<char>) -> Option<Seq<char>> {
    if lower == "scout"@ || lower == "scoutagent"@ || lower == "phase_1_scout"@ {
        Some("Phase_1_Scout"@)
    } else if lower == "builder"@ || lower == "builderagent"@ || lower == "phase_4_builder"@ {
        Some("Phase_4_Builder"@)
    } else if lower == "triage"@ || lower == "triageagent"@ || lower == "phase_5_triage"@ {
        Some("Phase_5_Triage"@)
    } else if lower == "planner"@ || lower == "planneragent"@ {
        Some("PlannerAgent"@)
    } else if lower == "transpiler"@ || lower == "transpileragent"@ || lower
        == "phase_3_transformer"@ {
        Some("TranspilerAgent"@)
    } else if lower == "evaluator"@ || lower == "evaluator_agent"@ {
        Some("EvaluatorAgent"@)
    } else {
        None
    }
}

/// A stored agent name as its canonical phase name; unknown names are kept (trimmed).
pub open spec fn normalize_agent_name_spec(name: Seq<char>) -> Seq<char> {
    let t = trim(name);
    if t.len() == 0 {
        Seq::empty()
    } else {
        match canonical_agent_name(lower_ascii(t)) {
            Some(c) => c,
            None => t,
        }
    }
}

/// A canonical phase name is its own normal form.
proof fn lemma_canonical_name_fixed(lower: Seq<char>)
    requires
        canonical_agent_name(lower) is Some,
    ensures
        normalize_agent_name_spec(canonical_agent_name(lower)->0) == canonical_agent_name(lower)->0,
{
    reveal_strlit("EvaluatorAgent");
    reveal_strlit("Phase_1_Scout");
    reveal_strlit("Phase_4_Builder");
    reveal_strlit("Phase_5_Triage");
    reveal_strlit("PlannerAgent");
    reveal_strlit("TranspilerAgent");
    reveal_strlit("builder");
    reveal_strlit("builderagent");
    reveal_strlit("evaluator");
    reveal_strlit("evaluator_agent");
    reveal_strlit("evaluatoragent");
    reveal_strlit("phase_1_scout");
    reveal_strlit("phase_3_transformer");
    reveal_strlit("phase_4_builder");
    reveal_strlit("phase_5_triage");
    reveal_strlit("planner");
    reveal_strlit("planneragent");
    reveal_strlit("scout");
    reveal_strlit("scoutagent");
    reveal_strlit("transpiler");
    reveal_strlit("transpileragent");
    reveal_strlit("triage");
    reveal_strlit("triageagent");
    let c = canonical_agent_name(lower)->0;
    assert(!crate::text::is_ws(c[0]));
    assert(!crate::text::is_ws(c.last()));
    assert(crate::text::trim_start(c) == c);
    assert(crate::text::trim_end(c) == c);
    assert(trim(c) == c);
    if c == "Phase_1_Scout"@ {
        assert(crate::text::lower_ascii(c) =~= "phase_1_scout"@);
        assert(normalize_agent_name_spec(c) == c);
    } else if c == "Phase_4_Builder"@ {
        assert(crate::text::lower_ascii(c) =~= "phase_4_builder"@);
        assert("phase_4_builder"@[0] != "transpileragent"@[0]);
        assert("phase_4_builder"@[0] != "evaluator_agent"@[0]);
        assert(normalize_agent_name_spec(c) == c);
    } else if c == "Phase_5_Triage"@ {
        assert(crate::text::lower_ascii(c) =~= "phase_5_triage"@);
        assert(normalize_agent_name_spec(c) == c);
    } else if c == "PlannerAgent"@ {
        assert(crate::text::lower_ascii(c) =~= "planneragent"@);
        assert("planneragent"@[0] != "builderagent"@[0]);
        assert(normalize_agent_name_spec(c) == c);
    } else if c == "TranspilerAgent"@ {
        assert(crate::text::lower_ascii(c) =~= "transpileragent"@);
        assert("transpileragent"@[0] != "phase_4_builder"@[0]);
        assert("transpileragent"@[0] != "evaluator_agent"@[0]);
        assert(normalize_agent_name_spec(c) == c);
    } else if c == "EvaluatorAgent"@ {
        assert(crate::text::lower_ascii(c) =~= "evaluatoragent"@);
        assert("evaluatoragent"@[0] != "phase_5_triage"@[0]);
        assert(normalize_agent_name_spec(c) == c);
    }
}

/// Normalising an agent name twice gives what normalising it once gives.
pub proof fn normalize_agent_name_idempotent(name: Seq<char>)
    ensures
        normalize_agent_name_spec(normalize_agent_name_spec(name)) == normalize_agent_name_spec(name),
{
    let t = trim(name);
    crate::text::lemma_trim_idempotent(name);
    if t.len() == 0 {
        assert(crate::text::trim_start(Seq::<char>::empty()) == Seq::<char>::empty());
        assert(trim(Seq::<char>::empty()) == Seq::<char>::empty());
    } else if canonical_agent_name(crate::text::lower_ascii(t)) is Some {
        lemma_canonical_name_fixed(crate::text::lower_ascii(t));
    }
}

fn canonical_agent_name_exec(lower: &str) -> (r: Option<&'static str>)
    ensures
        match r {
            Some(c) => canonical_agent_name(lower@) == Some(c@),
            None => canonical_agent_name(lower@) is None,
        },
{
    if str_eq(lower, "scout") || str_eq(lower, "scoutagent") || str_eq(lower, "phase_1_scout") {
        Some("Phase_1_Scout")
    } else if str_eq(lower, "builder") || str_eq(lower, "builderagent") || str_eq(
        lower,
        "phase_4_builder",
    ) {
        Some("Phase_4_Builder")
    } else if str_eq(lower, "triage") || str_eq(lower, "triageagent") || str_eq(
        lower,
        "phase_5_triage",
    ) {
        Some("Phase_5_Triage")
    } else if str_eq(lower, "planner") || str_eq(lower, "planneragent") {
        Some("PlannerAgent")
    } else if str_eq(lower, "transpiler") || str_eq(lower, "transpileragent") || str_eq(
        lower,
        "phase_3_transformer",
    ) {
        Some("TranspilerAgent")
    } else if str_eq(lower, "evaluator") || str_eq(lower, "evaluator_agent") {
        Some("EvaluatorAgent")
    } else {
        None
    }
}

/// Maps legacy `agent_evaluations.agent_name` values to canonical phase names.
pub fn normalize_agent_name(name: &str) -> (r: String)
    ensures
        r@ == normalize_agent_name_spec(name@),
{
    let t = str_trim(name);
    if t.as_str().is_empty() {
        return String::new();
    }
    let tv = chars_of(t.as_str());
    let lower_v = lower_ascii_exec(tv.as_slice());
    let lower = string_of(lower_v.as_slice());
    match canonical_agent_name_exec(lower.as_str()) {
        Some(c) => c.to_owned(),
        None => t,
    }
}

// ---------------------------------------------------------------------------
// Evaluation payloads
// ---------------------------------------------------------------------------

/// What the evaluator concluded about one agent output.
#[derive(Debug, Clone)]
pub struct AgentEvalSummary {
    pub score: i32,
    pub critique: String,
    pub desired_output: String,
}

/// The evaluator model's JSON reply.
#[derive(Debug)]
pub struct EvaluationPayload {
    pub score: i32,
    pub critique: String,
    pub desired_output: String,
}

pub const DESIRED_OUTPUT_REQUIRED: &'static str = "evaluator desired_output must be a non-empty 10/10 exemplar when score < 10";

/// The exemplar kept for a score: none at 10, otherwise the trimmed, non-blank exemplar.
pub open spec fn desired_output_spec(score: int, desired: Seq<char>) -> Result<Seq<char>, Seq<char>> {
    if score == 10 {
        Ok(Seq::empty())
    } else if trim(desired).len() == 0 {
        Err(DESIRED_OUTPUT_REQUIRED@)
    } else {
        Ok(trim(desired))
    }
}

/// Score 10 forces an empty exemplar; a lower score requires a non-blank one (kept trimmed).
pub fn normalize_desired_output(evaluation: &mut EvaluationPayload) -> (r: Result<(), String>)
    ensures
        final(evaluation).score == old(evaluation).score,
        final(evaluation).critique@ == old(evaluation).critique@,
        match desired_output_spec(old(evaluation).score as int, old(evaluation).desired_output@) {
            Ok(d) => r is Ok && final(evaluation).desired_output@ == d,
            Err(e) => r matches Err(m) && m@ == e && final(evaluation).desired_output@ == old(
                evaluation,
            ).desired_output@,
        },
{
    if evaluation.score == 10 {
        evaluation.desired_output = String::new();
        return Ok(());
    }
    let trimmed = str_trim(evaluation.desired_output.as_str());
    if trimmed.as_str().is_empty() {
        return Err(DESIRED_OUTPUT_REQUIRED.to_owned());
    }
    evaluation.desired_output = trimmed;
    Ok(())
}

pub const SCORE_RANGE_PREFIX: &'static str = "evaluator score must be between 1 and 10, got ";

/// Scores outside 1..=10 are rejected.
pub fn check_evaluation_score(score: i32) -> (r: Result<(), String>)
    ensures
        (1 <= score <= 10) ==> r is Ok,
        !(1 <= score <= 10) ==> (r matches Err(m) && m@ == SCORE_RANGE_PREFIX@ + decimal_int(
            score as int,
        )),
{
    if 1 <= score && score <= 10 {
        Ok(())
    } else {
        let mut e = SCORE_RANGE_PREFIX.to_owned();
        let d = fmt_i64(score as i64);
        e.append(d.as_str());
        Err(e)
    }
}

/// The summary handed back for a stored evaluation.
pub fn payload_to_summary(evaluation: &EvaluationPayload) -> (s: AgentEvalSummary)
    ensures
        s.score == evaluation.score,
        s.critique@ == evaluation.critique@,
        s.desired_output@ == evaluation.desired_output@,
{
    AgentEvalSummary {
        score: evaluation.score,
        critique: evaluation.critique.clone(),
        desired_output: evaluation.desired_output.clone(),
    }
}

pub open spec fn exemplar_suffix(desired: Seq<char>) -> Seq<char> {
    if desired.len() == 0 {
        Seq::empty()
    } else {
        "\nDesired output (10/10 exemplar):\n"@ + desired
    }
}

/// `Evaluation saved. QA score: N/10`, the critique, and the exemplar when there is one.
pub open spec fn evaluation_result_text(score: int, critique: Seq<char>, desired: Seq<char>) -> Seq<
    char,
> {
    "Evaluation saved. QA score: "@ + decimal_int(score) + "/10\nCritique: "@ + critique
        + exemplar_suffix(desired)
}

fn append_exemplar(out: &mut String, desired: &str)
    ensures
        final(out)@ == old(out)@ + exemplar_suffix(desired@),
{
    if !desired.is_empty() {
        out.append("\nDesired output (10/10 exemplar):\n");
        out.append(desired);
    }
}

/// The text reported after an evaluation is stored.
pub fn format_evaluation_result(evaluation: &EvaluationPayload) -> (r: String)
    ensures
        r@ == evaluation_result_text(
            evaluation.score as int,
            evaluation.critique@,
            evaluation.desired_output@,
        ),
{
    let mut out = "Evaluation saved. QA score: ".to_owned();
    let d = fmt_i64(evaluation.score as i64);
    out.append(d.as_str());
    out.append("/10\nCritique: ");
    out.append(evaluation.critique.as_str());
    append_exemplar(&mut out, evaluation.desired_output.as_str());
    out
}

/// The text inside a ```` ```json ```` (or ```` ``` ````) fence around the whole reply, trimmed.
pub open spec fn unfenced(t: Seq<char>) -> Option<Seq<char>> {
    let rest = if starts_with(t, "```json"@) {
        Some(t.skip(7))
    } else if starts_with(t, "```"@) {
        Some(t.skip(3))
    } else {
        None
    };
    match rest {
        Some(r) => if ends_with(r, "```"@) {
            Some(trim(r.take(r.len() - 3)))
        } else {
            None
        },
        None => None,
    }
}

/// The JSON text of an evaluator reply: unfenced, then its first `{`..`}` span if any.
pub open spec fn evaluation_json_body_spec(raw: Seq<char>) -> Seq<char> {
    let t = trim(raw);
    let f = match unfenced(t) {
        Some(x) => x,
        None => t,
    };
    match extract_json_object_spec(f) {
        Some(b) => b,
        None => f,
    }
}

/// Recovers the JSON object from an evaluator reply (fenced, bare, or wrapped in prose).
pub fn evaluation_json_body(raw: &str) -> (r: String)
    ensures
        r@ == evaluation_json_body_spec(raw@),
{
    proof {
        reveal_strlit("```json");
        reveal_strlit("```");
    }
    let t = str_trim(raw);
    let tv = chars_of(t.as_str());
    let json_fence = chars_of("```json");
    let fence = chars_of("```");
    let rest: Option<Vec<char>> = if starts_with_exec(tv.as_slice(), json_fence.as_slice()) {
        let r = copy_range(tv.as_slice(), 7, tv.len());
        assert(r@ =~= t@.skip(7));
        Some(r)
    } else if starts_with_exec(tv.as_slice(), fence.as_slice()) {
        let r = copy_range(tv.as_slice(), 3, tv.len());
        assert(r@ =~= t@.skip(3));
        Some(r)
    } else {
        None
    };
    let f: String = match rest {
        Some(r) => if ends_with_exec(r.as_slice(), fence.as_slice()) {
            let inner = copy_range(r.as_slice(), 0, r.len() - 3);
            assert(inner@ =~= r@.take(r@.len() - 3));
            let inner_t = trim_exec(inner.as_slice());
            string_of(inner_t.as_slice())
        } else {
            t
        },
        None => t,
    };
    match extract_json_object(f.as_str()) {
        Some(b) => b,
        None => f,
    }
}

// ---------------------------------------------------------------------------
// The host's auto-eval appendix
// ---------------------------------------------------------------------------

pub const APPENDIX_MARKER: &'static str = "\n\n[ADJUTANT AUTO-EVAL APPENDIX";

/// The block the host appends to a job result after an automatic evaluation.
pub open spec fn eval_appendix_text(score: int, critique: Seq<char>, desired: Seq<char>) -> Seq<char> {
    "\n\n[ADJUTANT AUTO-EVAL APPENDIX — not part of agent output]\nQA score: "@ + decimal_int(score)
        + "/10\nCritique: "@ + critique + exemplar_suffix(desired)
}

/// Formats the appendix for `summary`.
pub fn format_eval_job_appendix(summary: &AgentEvalSummary) -> (r: String)
    ensures
        r@ == eval_appendix_text(summary.score as int, summary.critique@, summary.desired_output@),
{
    let mut out = "\n\n[ADJUTANT AUTO-EVAL APPENDIX — not part of agent output]\nQA score: ".to_owned();
    let d = fmt_i64(summary.score as i64);
    out.append(d.as_str());
    out.append("/10\nCritique: ");
    out.append(summary.critique.as_str());
    append_exemplar(&mut out, summary.desired_output.as_str());
    out
}

pub const LEGACY_NEEDLE: &'static str = "\n\nEvaluation: QA score ";

pub const LEGACY_SCORE_END: &'static str = "/10\nCritique:";

/// A score the old appendix could carry: `1` to `10`, written plainly.
pub open spec fn legacy_score_text(s: Seq<char>) -> bool {
    s == "1"@ || s == "2"@ || s == "3"@ || s == "4"@ || s == "5"@ || s == "6"@ || s == "7"@ || s
        == "8"@ || s == "9"@ || s == "10"@
}

/// The old appendix `\n\nEvaluation: QA score N/10\nCritique:` starts at `i`.
pub open spec fn legacy_appendix_at(s: Seq<char>, i: int) -> bool {
    &&& matches_at(s, LEGACY_NEEDLE@, i)
    &&& match find_from(s.skip(i + LEGACY_NEEDLE@.len()), LEGACY_SCORE_END@, 0) {
        Some(k) => legacy_score_text(s.skip(i + LEGACY_NEEDLE@.len()).take(k)),
        None => false,
    }
}

/// The first position from `i` on where the old appendix starts.
pub open spec fn legacy_appendix_from(s: Seq<char>, i: int) -> Option<int>
    decreases s.len() + 1 - i,
{
    if i < 0 || i > s.len() {
        None
    } else if legacy_appendix_at(s, i) {
        Some(i)
    } else {
        legacy_appendix_from(s, i + 1)
    }
}

fn is_legacy_score(s: &[char]) -> (b: bool)
    ensures
        b == legacy_score_text(s@),
{
    let t = string_of(s);
    let x = t.as_str();
    str_eq(x, "1") || str_eq(x, "2") || str_eq(x, "3") || str_eq(x, "4") || str_eq(x, "5")
        || str_eq(x, "6") || str_eq(x, "7") || str_eq(x, "8") || str_eq(x, "9") || str_eq(x, "10")
}

fn legacy_at_exec(s: &[char], needle: &[char], end: &[char], i: usize) -> (b: bool)
    requires
        needle@ == LEGACY_NEEDLE@,
        end@ == LEGACY_SCORE_END@,
        i <= s@.len(),
    ensures
        b == legacy_appendix_at(s@, i as int),
{
    if !matches_at_exec(s, needle, i) {
        return false;
    }
    let nl = needle.len();
    let sl = s.len();
    assert(i + nl <= sl);
    let start = i + nl;
    let rest = copy_range(s, start, s.len());
    assert(rest@ =~= s@.skip(start as int));
    let found = find_from_exec(rest.as_slice(), end, 0);
    proof {
        crate::text::lemma_find_from(rest@, end@, 0);
    }
    match found {
        Some(k) => {
            let score = copy_range(rest.as_slice(), 0, k);
            assert(score@ =~= rest@.take(k as int));
            is_legacy_score(score.as_slice())
        },
        None => false,
    }
}

/// Char index of the first old-style appendix in `s`.
fn legacy_char_index(s: &[char]) -> (r: Option<usize>)
    ensures
        match r {
            Some(i) => legacy_appendix_from(s@, 0) == Some(i as int) && i <= s@.len(),
            None => legacy_appendix_from(s@, 0) is None,
        },
{
    let needle = chars_of(LEGACY_NEEDLE);
    let end = chars_of(LEGACY_SCORE_END);
    proof {
        reveal_strlit("\n\nEvaluation: QA score ");
    }
    let mut i: usize = 0;
    while i < s.len()
        invariant
            i <= s@.len(),
            needle@ == LEGACY_NEEDLE@,
            end@ == LEGACY_SCORE_END@,
            legacy_appendix_from(s@, 0) == legacy_appendix_from(s@, i as int),
        decreases s@.len() - i,
    {
        if legacy_at_exec(s, needle.as_slice(), end.as_slice(), i) {
            return Some(i);
        }
        i = i + 1;
    }
    proof {
        reveal_strlit("\n\nEvaluation: QA score ");
        assert(!legacy_appendix_at(s@, s@.len() as int));
        assert(legacy_appendix_from(s@, s@.len() + 1int) is None);
    }
    None
}

/// Byte offset of the old host appendix `\n\nEvaluation: QA score N/10\nCritique:` (N = 1–10).
pub fn find_legacy_eval_appendix(output: &str) -> (r: Option<usize>)
    ensures
        match legacy_appendix_from(output@, 0) {
            Some(i) => r == Some(utf8_len(output@.take(i)) as usize),
            None => r is None,
        },
{
    let s = chars_of(output);
    match legacy_char_index(s.as_slice()) {
        Some(i) => {
            let head = copy_range(s.as_slice(), 0, i);
            assert(head@ =~= output@.take(i as int));
            let h = string_of(head.as_slice());
            Some(byte_len(h.as_str()))
        },
        None => None,
    }
}

/// Where agent output ends: before the host appendix (new or old style), if any.
pub open spec fn agent_output_end(s: Seq<char>) -> int {
    let a = match find_from(s, APPENDIX_MARKER@, 0) {
        Some(k) => k,
        None => s.len() as int,
    };
    match legacy_appendix_from(s, 0) {
        Some(k) => if k < a {
            k
        } else {
            a
        },
        None => a,
    }
}

/// Agent output without the host's auto-eval appendix, trailing whitespace trimmed.
pub open spec fn strip_appendix_spec(s: Seq<char>) -> Seq<char> {
    trim_end(s.take(agent_output_end(s)))
}

/// Cuts a host auto-eval appendix (new or legacy marker) from the end of agent output.
pub fn strip_auto_eval_appendix(output: &str) -> (r: String)
    ensures
        r@ == strip_appendix_spec(output@),
{
    let s = chars_of(output);
    let marker = chars_of(APPENDIX_MARKER);
    let mut cut = s.len();
    let found = find_from_exec(s.as_slice(), marker.as_slice(), 0);
    proof {
        crate::text::lemma_find_from(output@, marker@, 0);
    }
    match found {
        Some(k) => {
            cut = k;
        },
        None => {},
    }
    match legacy_char_index(s.as_slice()) {
        Some(k) => if k < cut {
            cut = k;
        },
        None => {},
    }
    assert(cut == agent_output_end(output@));
    let head = copy_range(s.as_slice(), 0, cut);
    assert(head@ =~= output@.take(cut as int));
    let t = trim_end_exec(head.as_slice());
    string_of(t.as_slice())
}

// ---------------------------------------------------------------------------
// Rubrics
// ---------------------------------------------------------------------------

/// Keys of the JSON object `text` holds, as serde_json's map lists them; `None` when
/// `text` does not parse as a JSON object.
pub uninterp spec fn json_object_keys_of(text: Seq<char>) -> Option<Seq<Seq<char>>>;

/// Parses `text` with `serde_json::from_str` into a `serde_json::Value` and, for an
/// object, hands back its keys. The contract only names the result as a function of
/// `text`; nothing is stated about which texts parse.
#[verifier::external_body]
fn json_object_keys(text: &str) -> (r: Option<Vec<String>>)
    ensures
        match r {
            Some(ks) => json_object_keys_of(text@) == Some(string_views(ks@)),
            None => json_object_keys_of(text@) is None,
        },
{
    match serde_json::from_str::<serde_json::Value>(text) {
        Ok(serde_json::Value::Object(map)) => Some(map.keys().cloned().collect()),
        Ok(_) => None,
        Err(_) => None,
    }
}

/// The task names create_git_branch (ASCII case-insensitively).
pub open spec fn task_mentions_create_branch(task: Seq<char>) -> bool {
    contains(lower_ascii(task), "create_git_branch"@)
}

/// Decides the create_git_branch rubric from the output's JSON keys: `commit_message`
/// marks a prepare result, `branch` with `status` a branch result; otherwise the task
/// text decides.
pub open spec fn create_branch_decision_spec(keys: Option<Seq<Seq<char>>>, task: Seq<char>) -> bool {
    match keys {
        Some(ks) => if ks.contains("commit_message"@) {
            false
        } else if ks.contains("branch"@) && ks.contains("status"@) {
            true
        } else {
            task_mentions_create_branch(task)
        },
        None => task_mentions_create_branch(task),
    }
}

fn task_mentions_create_branch_exec(task: &str) -> (b: bool)
    ensures
        b == task_mentions_create_branch(task@),
{
    let v = chars_of(task);
    let l = lower_ascii_exec(v.as_slice());
    let s = string_of(l.as_slice());
    str_contains(s.as_str(), "create_git_branch")
}

/// The routing decision for a parsed output (`keys`: the keys of its JSON object, if any).
pub fn create_branch_decision(keys: &Option<Vec<String>>, original_task: &str) -> (b: bool)
    ensures
        b == create_branch_decision_spec(
            match keys {
                Some(ks) => Some(string_views(ks@)),
                None => None,
            },
            original_task@,
        ),
{
    match keys {
        Some(ks) => {
            if crate::order::contains_string(ks.as_slice(), "commit_message") {
                false
            } else if crate::order::contains_string(ks.as_slice(), "branch")
                && crate::order::contains_string(ks.as_slice(), "status") {
                true
            } else {
                task_mentions_create_branch_exec(original_task)
            }
        },
        None => task_mentions_create_branch_exec(original_task),
    }
}

/// The JSON body of an agent output: its first `{`..`}` span, else the trimmed output.
pub open spec fn output_json_body(output: Seq<char>) -> Seq<char> {
    match extract_json_object_spec(trim(output)) {
        Some(b) => b,
        None => trim(output),
    }
}

/// Whether a GitJanitor output is judged as create_git_branch (not prepare_git_copy).
pub open spec fn is_create_branch_eval_spec(task: Seq<char>, output: Seq<char>) -> bool {
    create_branch_decision_spec(json_object_keys_of(output_json_body(output)), task)
}

/// True when evaluating create_git_branch: the output's shape decides, the task name
/// only when the shape is inconclusive.
pub fn is_git_janitor_create_branch_eval(original_task: &str, received_output: &str) -> (b: bool)
    ensures
        b == is_create_branch_eval_spec(original_task@, received_output@),
{
    let trimmed = str_trim(received_output);
    let body = match extract_json_object(trimmed.as_str()) {
        Some(b) => b,
        None => trimmed,
    };
    let keys = json_object_keys(body.as_str());
    create_branch_decision(&keys, original_task)
}

pub open spec fn git_janitor_rubric_spec(create_branch: bool) -> Seq<char> {
    if create_branch {
        GIT_JANITOR_CREATE_BRANCH_RUBRIC@
    } else {
        GIT_JANITOR_RUBRIC@
    }
}

/// The GitJanitor rubric: create_git_branch or prepare_git_copy.
pub fn git_janitor_rubric_for(original_task: &str, received_output: &str) -> (r: &'static str)
    ensures
        r@ == git_janitor_rubric_spec(is_create_branch_eval_spec(original_task@, received_output@)),
{
    if is_git_janitor_create_branch_eval(original_task, received_output) {
        GIT_JANITOR_CREATE_BRANCH_RUBRIC
    } else {
        GIT_JANITOR_RUBRIC
    }
}

/// The rubric appended for a canonical agent name (`create_branch` routes GitJanitor).
pub open spec fn rubric_spec(agent: Seq<char>, create_branch: bool) -> Option<Seq<char>> {
    if agent == "PlannerAgent"@ {
        Some(PLANNER_RUBRIC@)
    } else if agent == "Phase_1_Scout"@ {
        Some(SCOUT_RUBRIC@)
    } else if agent == "Phase_5_Triage"@ {
        Some(TRIAGE_RUBRIC@)
    } else if agent == "BabysitterAgent"@ {
        Some(BABYSITTER_RUBRIC@)
    } else if agent == "GitJanitorAgent"@ {
        Some(git_janitor_rubric_spec(create_branch))
    } else if starts_with(agent, "Phase_4_Builder"@) {
        Some(BUILDER_RUBRIC@)
    } else {
        None
    }
}

/// The rubric appended to the evaluator's message for `target_agent` (a canonical name).
pub fn agent_evaluation_rubric(target_agent: &str, original_task: &str, received_output: &str) -> (r:
    Option<&'static str>)
    ensures
        match r {
            Some(s) => rubric_spec(
                target_agent@,
                is_create_branch_eval_spec(original_task@, received_output@),
            ) == Some(s@),
            None => rubric_spec(
                target_agent@,
                is_create_branch_eval_spec(original_task@, received_output@),
            ) is None,
        },
{
    if str_eq(target_agent, "PlannerAgent") {
        Some(PLANNER_RUBRIC)
    } else if str_eq(target_agent, "Phase_1_Scout") {
        Some(SCOUT_RUBRIC)
    } else if str_eq(target_agent, "Phase_5_Triage") {
        Some(TRIAGE_RUBRIC)
    } else if str_eq(target_agent, "BabysitterAgent") {
        Some(BABYSITTER_RUBRIC)
    } else if str_eq(target_agent, "GitJanitorAgent") {
        Some(git_janitor_rubric_for(original_task, received_output))
    } else if str_starts_with(target_agent, "Phase_4_Builder") {
        Some(BUILDER_RUBRIC)
    } else {
        None
    }
}

/// The evaluator's user message: agent (canonical name), task, output, and the agent's rubric.
pub open spec fn evaluator_user_message_spec(target: Seq<char>, task: Seq<char>, output: Seq<char>) -> Seq<
    char,
> {
    let canonical = normalize_agent_name_spec(target);
    let base = "AGENT: "@ + canonical + "\n\nORIGINAL TASK:\n"@ + task + "\n\nAGENT OUTPUT:\n"@
        + output;
    match rubric_spec(canonical, is_create_branch_eval_spec(task, output)) {
        Some(r) => base + r,
        None => base,
    }
}

/// Builds the evaluator's user message for one agent output.
pub fn build_evaluator_user_message(target_agent: &str, original_task: &str, agent_output: &str) -> (r:
    String)
    ensures
        r@ == evaluator_user_message_spec(target_agent@, original_task@, agent_output@),
{
    let canonical = normalize_agent_name(target_agent);
    let mut message = "AGENT: ".to_owned();
    message.append(canonical.as_str());
    message.append("\n\nORIGINAL TASK:\n");
    message.append(original_task);
    message.append("\n\nAGENT OUTPUT:\n");
    message.append(agent_output);
    match agent_evaluation_rubric(canonical.as_str(), original_task, agent_output) {
        Some(r) => {
            message.append(r);
        },
        None => {},
    }
    message
}


/// Normalising an exemplar twice changes nothing more: a kept exemplar is already in
/// its normal form for the same score.
pub proof fn lemma_desired_output_normal_form(score: int, desired: Seq<char>)
    requires
        desired_output_spec(score, desired) is Ok,
    ensures
        desired_output_spec(score, desired_output_spec(score, desired)->Ok_0) == desired_output_spec(
            score,
            desired,
        ),
{
    reveal_strlit("");
    if score != 10 {
        crate::text::lemma_trim_idempotent(desired);
    }
}


/// No character of `s` is a newline.
pub open spec fn newline_free(s: Seq<char>) -> bool
    decreases s.len(),
{
    s.len() == 0 || (s[0] != '\n' && newline_free(s.drop_first()))
}

proof fn lemma_newline_free(s: Seq<char>)
    requires
        newline_free(s),
    ensures
        forall|i: int| 0 <= i < s.len() ==> s[i] != '\n',
    decreases s.len(),
{
    if s.len() > 0 {
        lemma_newline_free(s.drop_first());
        assert forall|i: int| 0 <= i < s.len() implies s[i] != '\n' by {
            if i > 0 {
                assert(s[i] == s.drop_first()[i - 1]);
            }
        }
    }
}

proof fn lemma_marker_shape()
    ensures
        APPENDIX_MARKER@.len() == 30,
        APPENDIX_MARKER@[0] == '\n',
        APPENDIX_MARKER@[1] == '\n',
        APPENDIX_MARKER@[2] == '[',
        forall|d: int| 2 <= d < APPENDIX_MARKER@.len() ==> APPENDIX_MARKER@[d] != '\n',
{
    reveal_strlit("\n\n[ADJUTANT AUTO-EVAL APPENDIX");
    let r = APPENDIX_MARKER@.skip(2);
    assert(newline_free(r)) by {
        reveal_with_fuel(newline_free, 30);
    }
    lemma_newline_free(r);
    assert forall|d: int| 2 <= d < APPENDIX_MARKER@.len() implies APPENDIX_MARKER@[d] != '\n' by {
        assert(APPENDIX_MARKER@[d] == r[d - 2]);
    }
}


proof fn lemma_needle_shape()
    ensures
        LEGACY_NEEDLE@.len() == 23,
        LEGACY_NEEDLE@[0] == '\n',
        LEGACY_NEEDLE@[1] == '\n',
        LEGACY_NEEDLE@[2] == 'E',
        forall|d: int| 2 <= d < LEGACY_NEEDLE@.len() ==> LEGACY_NEEDLE@[d] != '\n',
{
    reveal_strlit("\n\nEvaluation: QA score ");
    let r = LEGACY_NEEDLE@.skip(2);
    assert(newline_free(r)) by {
        reveal_with_fuel(newline_free, 25);
    }
    lemma_newline_free(r);
    assert forall|d: int| 2 <= d < LEGACY_NEEDLE@.len() implies LEGACY_NEEDLE@[d] != '\n' by {
        assert(LEGACY_NEEDLE@[d] == r[d - 2]);
    }
}

/// `b` begins `a`, character by character.
pub open spec fn begins_with(a: Seq<char>, b: Seq<char>) -> bool
    decreases b.len(),
{
    b.len() == 0 || (a.len() > 0 && a[0] == b[0] && begins_with(a.drop_first(), b.drop_first()))
}

proof fn lemma_begins_with(a: Seq<char>, b: Seq<char>)
    requires
        begins_with(a, b),
    ensures
        b.len() <= a.len(),
        a.take(b.len() as int) == b,
    decreases b.len(),
{
    if b.len() > 0 {
        lemma_begins_with(a.drop_first(), b.drop_first());
        assert(a.take(b.len() as int) =~= seq![a[0]] + a.drop_first().take(b.len() - 1));
        assert(b =~= seq![b[0]] + b.drop_first());
    }
}

proof fn lemma_appendix_starts_with_marker(score: int, critique: Seq<char>, desired: Seq<char>)
    ensures
        eval_appendix_text(score, critique, desired).len() >= 30,
        eval_appendix_text(score, critique, desired).take(30) == APPENDIX_MARKER@,
{
    reveal_strlit("\n\n[ADJUTANT AUTO-EVAL APPENDIX");
    reveal_strlit("\n\n[ADJUTANT AUTO-EVAL APPENDIX — not part of agent output]\nQA score: ");
    let lit = "\n\n[ADJUTANT AUTO-EVAL APPENDIX — not part of agent output]\nQA score: "@;
    assert(begins_with(lit, APPENDIX_MARKER@)) by {
        reveal_with_fuel(begins_with, 31);
    }
    lemma_begins_with(lit, APPENDIX_MARKER@);
    let app = eval_appendix_text(score, critique, desired);
    assert(app.take(30) =~= lit.take(30));
}

proof fn lemma_find_from_at(hay: Seq<char>, needle: Seq<char>, from: int, t: int)
    requires
        0 <= from <= t,
        matches_at(hay, needle, t),
        forall|i: int| from <= i < t ==> !matches_at(hay, needle, i),
    ensures
        find_from(hay, needle, from) == Some(t),
    decreases t - from,
{
    if from < t {
        lemma_find_from_at(hay, needle, from + 1, t);
    }
}

proof fn lemma_legacy_skip(s: Seq<char>, i: int, j: int)
    requires
        0 <= i <= j <= s.len(),
        forall|k: int| i <= k < j ==> !legacy_appendix_at(s, k),
    ensures
        legacy_appendix_from(s, i) == legacy_appendix_from(s, j),
    decreases j - i,
{
    if i < j {
        lemma_legacy_skip(s, i + 1, j);
    }
}

proof fn lemma_legacy_at_least(s: Seq<char>, j: int)
    ensures
        legacy_appendix_from(s, j) matches Some(k) ==> k >= j,
    decreases s.len() + 1 - j,
{
    if 0 <= j <= s.len() && !legacy_appendix_at(s, j) {
        lemma_legacy_at_least(s, j + 1);
    }
}

/// The appendix the host adds to an agent's output is cut again by stripping: stripping
/// `body` plus a formatted appendix gives back `body` (trailing whitespace trimmed), for
/// any body that carries neither appendix marker itself.
pub proof fn lemma_strip_added_appendix(body: Seq<char>, score: int, critique: Seq<char>, desired: Seq<char>)
    requires
        !contains(body, APPENDIX_MARKER@),
        !contains(body, LEGACY_NEEDLE@),
    ensures
        strip_appendix_spec(body + eval_appendix_text(score, critique, desired)) == trim_end(body),
{
    let app = eval_appendix_text(score, critique, desired);
    let s = body + app;
    let bl = body.len() as int;
    let m = APPENDIX_MARKER@;
    let n = LEGACY_NEEDLE@;
    lemma_marker_shape();
    lemma_needle_shape();
    lemma_appendix_starts_with_marker(score, critique, desired);
    assert(app[0] == m[0] && app[1] == m[1]) by {
        assert(app.take(30)[0] == app[0]);
        assert(app.take(30)[1] == app[1]);
    }
    assert(s[bl] == '\n' && s[bl + 1] == '\n');
    assert(s.subrange(bl, bl + 30) =~= m) by {
        assert(s.subrange(bl, bl + 30) =~= app.take(30));
    }
    assert(matches_at(s, m, bl));
    assert forall|i: int| 0 <= i < bl implies !matches_at(s, m, i) by {
        if matches_at(s, m, i) {
            if i + 30 <= bl {
                assert(s.subrange(i, i + 30) =~= body.subrange(i, i + 30));
                assert(matches_at(body, m, i));
            } else {
                let d = bl - i;
                assert(s.subrange(i, i + 30)[d] == s[bl]);
                assert(m[d] == '\n');
                assert(d == 1);
                assert(s.subrange(i, i + 30)[2] == s[bl + 1]);
            }
        }
    }
    lemma_find_from_at(s, m, 0, bl);
    assert forall|i: int| 0 <= i < bl implies !legacy_appendix_at(s, i) by {
        if matches_at(s, n, i) {
            if i + 23 <= bl {
                assert(s.subrange(i, i + 23) =~= body.subrange(i, i + 23));
                assert(matches_at(body, n, i));
            } else {
                let d = bl - i;
                assert(s.subrange(i, i + 23)[d] == s[bl]);
                assert(n[d] == '\n');
                assert(d == 1);
                assert(s.subrange(i, i + 23)[2] == s[bl + 1]);
            }
        }
    }
    lemma_legacy_skip(s, 0, bl);
    lemma_legacy_at_least(s, bl);
    assert(agent_output_end(s) == bl);
    assert(s.take(bl) =~= body);
}

} // verus!
