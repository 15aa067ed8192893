//! Planner coordinator inputs (plan kind, expectations) and the planner's prompts.
use vstd::prelude::*;

use crate::json::{get, get_str, get_str_exec, JsonValue};
use crate::llm::AgentContext;
use crate::text::{
    byte_len, chars_of, contains, copy_range, debug_quote, debug_str, is_prefix_within,
    is_suffix_within, lower_ascii, lower_ascii_exec, prefix_within, rfind, rfind_exec, str_contains,
    str_eq, str_trim, string_of, suffix_within, trim, utf8_len, find_from, find_from_exec,
    lemma_find_from, lemma_rfind_before, string_views,
};

verus! {

pub const PLANNER_SCOUT_MAX_ITERATIONS: u32 = 12;

/// begin + ~6 patches + tests + finalize (+ retries)
pub const PLANNER_EMIT_MAX_ITERATIONS: u32 = 12;

/// Soft nudges to continue draft tools when finalize never ran.
pub const PLANNER_JSON_FIX_ITERATIONS: u32 = 4;

pub const PLANNER_JSON_FIX_ROUNDS: u32 = 1;

pub const PLANNER_MAX_ITERATIONS: u32 = 24;

pub const PLANNER_SCOUT_SYSTEM_PROMPT: &'static str = "You are the Lead Software Architect (PLANNER scout phase). Gather repo evidence only — you do NOT emit the blueprint yet.

READ-ONLY tools:
- detect_language, ripgrep, ast_calls, read_file, extract_search_anchor

Strategy:
1. Use ripgrep/ast_calls to locate files and line numbers relevant to the feature or bug.
2. read_file every file you expect to patch or that defines wiring (package entry, manifest, target module).
3. Use extract_search_anchor(file, start, end) to copy verbatim SEARCH anchors for future patch hunks (≥2 lines).
4. Scout 3–8 turns. One tool per turn. Do not output Blueprint JSON in chat.";

pub const PLANNER_EMIT_SYSTEM_PROMPT: &'static str = "You are the Lead Software Architect (PLANNER emit phase). Build a Blueprint by calling draft tools — Rust assembles valid JSON. Never invent a Blueprint JSON string.

Downstream: BuilderAgent applies steps. Triage runs automatically — never put TriageAgent in the pipeline.

EMIT tools (exactly one per turn):
- read_file — only if a target was missed during scout
- blueprint_begin(task_id, architecture_summary) — once; task_id must be kebab-case with a hyphen
- blueprint_add_patch(target_file, goal, search, replace) — diffs only; pass RAW search/replace text (no <<<<<<< markers); search ≥2 non-empty lines copied from scout; replace ≤15 extra lines
- blueprint_add_create(target_file, goal, contents) — ONLY tiny new files ≤15 lines; prefer patch
- blueprint_add_tests(target_file, goal) — usually last; goal must cite path:line
- blueprint_finalize() — terminal; Rust validates and returns JSON

Hard rules:
1. Sequence: begin → one or more add_patch (and rare add_create) → add_tests → finalize.
2. Goals must cite path:line. architecture_summary should too.
3. Do NOT paste full files into create/patch. Plans are SEARCH/REPLACE diffs.
4. Do NOT write Blueprint JSON in chat or as a single string arg.
5. One tool per turn.";

pub const PLANNER_SYSTEM_PROMPT: &'static str = PLANNER_EMIT_SYSTEM_PROMPT;

/// The kind of change the coordinator asked the planner for.
#[derive(PartialEq, Eq, Structural, Clone, Copy, Debug)]
pub enum PlanKind {
    Feature,
    Bugfix,
    Refactor,
    SyncTypes,
}

pub open spec fn kind_name(k: PlanKind) -> Seq<char> {
    match k {
        PlanKind::Feature => "feature"@,
        PlanKind::Bugfix => "bugfix"@,
        PlanKind::Refactor => "refactor"@,
        PlanKind::SyncTypes => "sync_types"@,
    }
}

pub open spec fn kind_playbook(k: PlanKind) -> Seq<char> {
    match k {
        PlanKind::Feature => "Multi-step: impl → module entry if new file → manifest if deps → generate_tests."@,
        PlanKind::Bugfix => "Minimal patch_file on existing code; no new modules unless unavoidable."@,
        PlanKind::Refactor => "Behavior-preserving; surgical patches; generate_tests or extend existing tests."@,
        PlanKind::SyncTypes => "TranspilerAgent + sync_types only; no BuilderAgent code patches."@,
    }
}

pub open spec fn kind_few_shot(k: PlanKind) -> Seq<char> {
    match k {
        PlanKind::Feature => FEATURE_FEW_SHOT@,
        PlanKind::Bugfix => BUGFIX_FEW_SHOT@,
        PlanKind::Refactor => REFACTOR_FEW_SHOT@,
        PlanKind::SyncTypes => SYNC_TYPES_FEW_SHOT@,
    }
}

pub const FEATURE_FEW_SHOT: &'static str = r#"## Example feature pipeline shape (structure only)
Step 2 patch_file lib.rs — SEARCH/REPLACE one-line module declare:
<<<<<<< SEARCH
pub mod agent;
=======
pub mod agent;
pub mod config_rate_limit;
>>>>>>> REPLACE

Step 4 patch_file Cargo.toml — single-line manifest hunk:
<<<<<<< SEARCH
axum = "0.7"
=======
axum = { version = "0.7", features = ["macros"] }
>>>>>>> REPLACE
"#;

pub const BUGFIX_FEW_SHOT: &'static str = "## Bugfix pipeline shape
- Max 3 steps; no create_file.
- patch_file with grounded SEARCH/REPLACE hunks only.
- End with generate_tests when code changes.";

pub const REFACTOR_FEW_SHOT: &'static str = "## Refactor pipeline shape
- No create_file for new source modules.
- patch_file with minimal SEARCH/REPLACE hunks.
- End with generate_tests when code changes.";

pub const SYNC_TYPES_FEW_SHOT: &'static str = "## sync_types pipeline shape
- TranspilerAgent + sync_types steps only.
";

/// The kind a (lowercased) name denotes.
pub open spec fn kind_from_name(lower: Seq<char>) -> Option<PlanKind> {
    if lower == "feature"@ {
        Some(PlanKind::Feature)
    } else if lower == "bugfix"@ {
        Some(PlanKind::Bugfix)
    } else if lower == "refactor"@ {
        Some(PlanKind::Refactor)
    } else if lower == "sync_types"@ {
        Some(PlanKind::SyncTypes)
    } else {
        None
    }
}

impl PlanKind {
    /// The snake-case name of the kind.
    pub fn as_str(self) -> (s: &'static str)
        ensures
            s@ == kind_name(self),
    {
        match self {
            PlanKind::Feature => "feature",
            PlanKind::Bugfix => "bugfix",
            PlanKind::Refactor => "refactor",
            PlanKind::SyncTypes => "sync_types",
        }
    }

    /// One-line pipeline guidance for the kind.
    pub fn playbook(self) -> (s: &'static str)
        ensures
            s@ == kind_playbook(self),
    {
        match self {
            PlanKind::Feature => "Multi-step: impl → module entry if new file → manifest if deps → generate_tests.",
            PlanKind::Bugfix => "Minimal patch_file on existing code; no new modules unless unavoidable.",
            PlanKind::Refactor => "Behavior-preserving; surgical patches; generate_tests or extend existing tests.",
            PlanKind::SyncTypes => "TranspilerAgent + sync_types only; no BuilderAgent code patches.",
        }
    }

    /// Example pipeline shape shown to the emit phase.
    pub fn emit_few_shot(self) -> (s: &'static str)
        ensures
            s@ == kind_few_shot(self),
    {
        match self {
            PlanKind::Feature => FEATURE_FEW_SHOT,
            PlanKind::Bugfix => BUGFIX_FEW_SHOT,
            PlanKind::Refactor => REFACTOR_FEW_SHOT,
            PlanKind::SyncTypes => SYNC_TYPES_FEW_SHOT,
        }
    }

    /// Reads a kind name, ignoring ASCII case.
    pub fn parse(raw: &str) -> (r: Result<Self, String>)
        ensures
            match kind_from_name(lower_ascii(raw@)) {
                Some(k) => r == Ok::<PlanKind, String>(k),
                None => r matches Err(e) && e@
                    == "plan_kind must be one of feature, bugfix, refactor, sync_types — got "@
                    + debug_str(lower_ascii(raw@)),
            },
    {
        let v = chars_of(raw);
        let low = string_of(lower_ascii_exec(v.as_slice()).as_slice());
        let l = low.as_str();
        if str_eq(l, "feature") {
            Ok(PlanKind::Feature)
        } else if str_eq(l, "bugfix") {
            Ok(PlanKind::Bugfix)
        } else if str_eq(l, "refactor") {
            Ok(PlanKind::Refactor)
        } else if str_eq(l, "sync_types") {
            Ok(PlanKind::SyncTypes)
        } else {
            let mut e = "plan_kind must be one of feature, bugfix, refactor, sync_types — got ".to_owned();
            let q = debug_quote(l);
            e.append(q.as_str());
            Err(e)
        }
    }
}

/// Arguments of a `plan_blueprint` request.
pub struct PlanBlueprintArgs {
    pub feature_request: String,
    pub plan_kind: Option<PlanKind>,
    pub expectation: Option<String>,
}

/// Trimmed, non-empty text of a string member.
pub open spec fn nonempty_trimmed(v: Option<Seq<char>>) -> Option<Seq<char>> {
    match v {
        Some(s) => if trim(s).len() > 0 {
            Some(trim(s))
        } else {
            None
        },
        None => None,
    }
}

fn nonempty_trimmed_exec(v: Option<&str>) -> (r: Option<String>)
    ensures
        match r {
            Some(s) => nonempty_trimmed(
                match v {
                    Some(x) => Some(x@),
                    None => None,
                },
            ) == Some(s@),
            None => nonempty_trimmed(
                match v {
                    Some(x) => Some(x@),
                    None => None,
                },
            ) is None,
        },
{
    match v {
        Some(x) => {
            let t = str_trim(x);
            if t.as_str().is_empty() {
                None
            } else {
                Some(t)
            }
        },
        None => None,
    }
}

/// Reads `feature_request` (required), `plan_kind` and `expectation` from tool arguments.
pub fn parse_plan_blueprint_args(args: &JsonValue) -> (r: Result<PlanBlueprintArgs, String>)
    ensures
        nonempty_trimmed(get_str(*args, "feature_request"@)) is None ==> (r matches Err(e) && e@
            == "feature_request is required"@),
        r matches Ok(a) ==> {
            &&& nonempty_trimmed(get_str(*args, "feature_request"@)) == Some(a.feature_request@)
            &&& match get(*args, "plan_kind"@) {
                None => a.plan_kind is None,
                Some(JsonValue::Null) => a.plan_kind is None,
                Some(_) => nonempty_trimmed(get_str(*args, "plan_kind"@)) matches Some(raw)
                    && a.plan_kind == kind_from_name(lower_ascii(raw)),
            }
            &&& match nonempty_trimmed(get_str(*args, "expectation"@)) {
                Some(e) => a.expectation matches Some(x) && x@ == e,
                None => a.expectation is None,
            }
        },
        nonempty_trimmed(get_str(*args, "feature_request"@)) is Some ==> match get(
            *args,
            "plan_kind"@,
        ) {
            None => r is Ok,
            Some(JsonValue::Null) => r is Ok,
            Some(_) => match nonempty_trimmed(get_str(*args, "plan_kind"@)) {
                None => r matches Err(e) && e@ == "plan_kind must be a non-empty string"@,
                Some(raw) => match kind_from_name(lower_ascii(raw)) {
                    Some(_) => r is Ok,
                    None => r matches Err(e) && e@
                        == "plan_kind must be one of feature, bugfix, refactor, sync_types — got "@
                        + debug_str(lower_ascii(raw)),
                },
            },
        },
{
    let feature_request = match nonempty_trimmed_exec(get_str_exec(args, "feature_request")) {
        Some(f) => f,
        None => {
            return Err("feature_request is required".to_owned());
        },
    };
    let plan_kind = match args.get("plan_kind") {
        None => None,
        Some(v) => {
            if v.is_null() {
                None
            } else {
                let raw = match nonempty_trimmed_exec(v.as_str()) {
                    Some(r) => r,
                    None => {
                        return Err("plan_kind must be a non-empty string".to_owned());
                    },
                };
                match PlanKind::parse(raw.as_str()) {
                    Ok(k) => Some(k),
                    Err(e) => {
                        return Err(e);
                    },
                }
            }
        },
    };
    let expectation = nonempty_trimmed_exec(get_str_exec(args, "expectation"));
    Ok(PlanBlueprintArgs { feature_request, plan_kind, expectation })
}

/// An expectation asks for surgical patches (and does not negate it).
pub open spec fn expects_surgical_spec(expectation: Seq<char>) -> bool {
    let lower = lower_ascii(expectation);
    !(contains(lower, "not surgical"@) || contains(lower, "non-surgical"@) || contains(
        lower,
        "avoid surgical"@,
    )) && contains(lower, "surgical"@)
}

fn expects_surgical(expectation: &str) -> (b: bool)
    ensures
        b == expects_surgical_spec(expectation@),
{
    let v = chars_of(expectation);
    let lower = string_of(lower_ascii_exec(v.as_slice()).as_slice());
    let l = lower.as_str();
    if str_contains(l, "not surgical") || str_contains(l, "non-surgical") || str_contains(
        l,
        "avoid surgical",
    ) {
        return false;
    }
    str_contains(l, "surgical")
}

/// Coordinator plan kind / expectation gates applied to a blueprint.
pub struct CoordinatorConstraints {
    pub plan_kind: Option<PlanKind>,
    pub expectation: Option<String>,
    pub surgical_patches: bool,
}

impl CoordinatorConstraints {
    /// No coordinator fields.
    pub fn none() -> (c: Self)
        ensures
            c.plan_kind is None,
            c.expectation is None,
            !c.surgical_patches,
    {
        CoordinatorConstraints { plan_kind: None, expectation: None, surgical_patches: false }
    }

    /// Constraints from request arguments: bugfix and refactor plans, and expectations
    /// that ask for surgical patches, are surgical.
    pub fn from_args(args: &PlanBlueprintArgs) -> (c: Self)
        ensures
            c.plan_kind == args.plan_kind,
            match args.expectation {
                Some(e) => c.expectation matches Some(x) && x@ == e@,
                None => c.expectation is None,
            },
            c.surgical_patches == (args.plan_kind == Some(PlanKind::Bugfix) || args.plan_kind
                == Some(PlanKind::Refactor) || (args.expectation matches Some(e)
                && expects_surgical_spec(e@))),
    {
        let by_kind = match args.plan_kind {
            Some(PlanKind::Bugfix) => true,
            Some(PlanKind::Refactor) => true,
            _ => false,
        };
        let by_expectation = match &args.expectation {
            Some(e) => expects_surgical(e.as_str()),
            None => false,
        };
        let expectation = match &args.expectation {
            Some(e) => Some(e.as_str().to_owned()),
            None => None,
        };
        CoordinatorConstraints {
            plan_kind: args.plan_kind,
            expectation,
            surgical_patches: by_kind || by_expectation,
        }
    }

    /// No plan kind and no expectation were given.
    pub fn is_default(&self) -> (b: bool)
        ensures
            b == (self.plan_kind is None && self.expectation is None),
    {
        self.plan_kind.is_none() && self.expectation.is_none()
    }
}

/// The scout-phase prompt.
pub open spec fn scout_prompt_spec(fr: Seq<char>, kind: Option<PlanKind>, exp: Option<Seq<char>>) -> Seq<
    char,
> {
    "plan_blueprint (scout phase)\n\nFeature request / bug report:\n"@ + fr + "\n"@ + (match kind {
        Some(k) => "\n## Coordinator plan kind\n\n"@ + kind_name(k) + " — "@ + kind_playbook(k)
            + "\n"@,
        None => seq![],
    }) + (match exp {
        Some(e) => "\n## Coordinator expectations\n\n"@ + e
            + "\nTreat these as hard constraints on the eventual pipeline shape.\n"@,
        None => seq![],
    }) + "\n\n"@ + PLANNER_SCOUT_SYSTEM_PROMPT@
}

pub open spec fn opt_view(o: Option<String>) -> Option<Seq<char>> {
    match o {
        Some(s) => Some(s@),
        None => None,
    }
}

/// Prompt for the scout phase of the planner.
pub fn format_scout_prompt(args: &PlanBlueprintArgs) -> (p: String)
    ensures
        p@ == scout_prompt_spec(args.feature_request@, args.plan_kind, opt_view(args.expectation)),
{
    let mut p = "plan_blueprint (scout phase)\n\nFeature request / bug report:\n".to_owned();
    p.append(args.feature_request.as_str());
    p.append("\n");
    let ghost base = p@;
    if let Some(kind) = args.plan_kind {
        p.append("\n## Coordinator plan kind\n\n");
        p.append(kind.as_str());
        p.append(" — ");
        p.append(kind.playbook());
        p.append("\n");
    }
    let ghost with_kind = p@;
    if let Some(e) = &args.expectation {
        p.append("\n## Coordinator expectations\n\n");
        p.append(e.as_str());
        p.append("\nTreat these as hard constraints on the eventual pipeline shape.\n");
    }
    p.append("\n\n");
    p.append(PLANNER_SCOUT_SYSTEM_PROMPT);
    proof {
        let k = match args.plan_kind {
            Some(k) => "\n## Coordinator plan kind\n\n"@ + kind_name(k) + " — "@ + kind_playbook(
                k,
            ) + "\n"@,
            None => seq![],
        };
        let e = match opt_view(args.expectation) {
            Some(e) => "\n## Coordinator expectations\n\n"@ + e
                + "\nTreat these as hard constraints on the eventual pipeline shape.\n"@,
            None => seq![],
        };
        assert(with_kind =~= base + k);
        assert(p@ =~= base + k + e + "\n\n"@ + PLANNER_SCOUT_SYSTEM_PROMPT@);
    }
    p
}

/// Evidence kept for the emit prompt: all of it up to 24000 bytes; otherwise the
/// longest 12000-byte head and tail around a truncation marker.
pub open spec fn condense_spec(acc: Seq<char>) -> Seq<char> {
    if utf8_len(acc) <= 24000 {
        acc
    } else {
        let h = choose|k: int| is_prefix_within(acc, 12000, k);
        let t = choose|k: int| is_suffix_within(acc, 12000, k);
        acc.take(h) + "\n\n...[scout evidence truncated]...\n\n"@ + acc.skip(t)
    }
}

pub proof fn lemma_prefix_within_unique(s: Seq<char>, max: nat, a: int, b: int)
    requires
        is_prefix_within(s, max, a),
        is_prefix_within(s, max, b),
    ensures
        a == b,
{
    if a < b {
        crate::text::lemma_utf8_len_take_mono(s, a + 1, b);
    } else if b < a {
        crate::text::lemma_utf8_len_take_mono(s, b + 1, a);
    }
}

pub proof fn lemma_suffix_within_unique(s: Seq<char>, max: nat, a: int, b: int)
    requires
        is_suffix_within(s, max, a),
        is_suffix_within(s, max, b),
    ensures
        a == b,
{
    if a < b {
        crate::text::lemma_utf8_len_skip_mono(s, a, b - 1);
    } else if b < a {
        crate::text::lemma_utf8_len_skip_mono(s, b, a - 1);
    }
}

/// Scout evidence shortened to fit the emit prompt, cut only between characters.
pub fn condense_scout_evidence(accumulated: &str) -> (r: String)
    ensures
        r@ == condense_spec(accumulated@),
{
    if byte_len(accumulated) <= 24000 {
        return accumulated.to_owned();
    }
    let v = chars_of(accumulated);
    let h = prefix_within(v.as_slice(), 12000);
    let t = suffix_within(v.as_slice(), 12000);
    proof {
        let hc = choose|k: int| is_prefix_within(accumulated@, 12000, k);
        let tc = choose|k: int| is_suffix_within(accumulated@, 12000, k);
        lemma_prefix_within_unique(accumulated@, 12000, h as int, hc);
        lemma_suffix_within_unique(accumulated@, 12000, t as int, tc);
    }
    let head = copy_range(v.as_slice(), 0, h);
    let tail = copy_range(v.as_slice(), t, v.len());
    let mut r = string_of(head.as_slice());
    r.append("\n\n...[scout evidence truncated]...\n\n");
    let ts = string_of(tail.as_slice());
    r.append(ts.as_str());
    proof {
        assert(head@ =~= accumulated@.take(h as int));
        assert(tail@ =~= accumulated@.skip(t as int));
    }
    r
}

/// The emit-phase prompt.
pub open spec fn emit_prompt_spec(
    fr: Seq<char>,
    kind: Option<PlanKind>,
    exp: Option<Seq<char>>,
    surgical: bool,
    evidence: Seq<char>,
    touched: Seq<Seq<char>>,
) -> Seq<char> {
    "plan_blueprint (emit phase)\n\nFeature request / bug report:\n"@ + fr + "\n"@ + (match kind {
        Some(k) => "\n## Coordinator plan kind\n\n"@ + kind_name(k) + " — "@ + kind_playbook(k)
            + "\n"@ + kind_few_shot(k),
        None => seq![],
    }) + (match exp {
        Some(e) => "\n## Coordinator expectations\n\n"@ + e
            + "\nTreat these as hard constraints on pipeline shape, agents, and patch style.\n"@,
        None => seq![],
    }) + (if surgical {
        SURGICAL_NOTE@
    } else {
        seq![]
    }) + "\n## Scout evidence (read_file / extract_search_anchor observations)\n\n"@
        + condense_spec(evidence) + (if touched.len() > 0 {
        "\n\n## Files read during scout\n\n"@ + bullet_list(touched)
    } else {
        seq![]
    }) + "\n\n"@ + PLANNER_EMIT_SYSTEM_PROMPT@
}

/// The emit prompt opens with the feature request, carries the plan kind's
/// few-shot example when there is a kind and the condensed scout evidence under
/// its heading, and closes with the emit system prompt.
pub proof fn emit_prompt_frame(
    fr: Seq<char>,
    kind: Option<PlanKind>,
    exp: Option<Seq<char>>,
    surgical: bool,
    evidence: Seq<char>,
    touched: Seq<Seq<char>>,
)
    ensures
        crate::text::starts_with(
            emit_prompt_spec(fr, kind, exp, surgical, evidence, touched),
            "plan_blueprint (emit phase)\n\nFeature request / bug report:\n"@ + fr,
        ),
        crate::text::contains(
            emit_prompt_spec(fr, kind, exp, surgical, evidence, touched),
            "\n## Scout evidence (read_file / extract_search_anchor observations)\n\n"@ + condense_spec(
                evidence,
            ),
        ),
        kind matches Some(k) ==> crate::text::contains(
            emit_prompt_spec(fr, kind, exp, surgical, evidence, touched),
            kind_few_shot(k),
        ),
        crate::text::ends_with(
            emit_prompt_spec(fr, kind, exp, surgical, evidence, touched),
            "\n\n"@ + PLANNER_EMIT_SYSTEM_PROMPT@,
        ),
{
    let h = "plan_blueprint (emit phase)\n\nFeature request / bug report:\n"@ + fr;
    let kp = match kind {
        Some(k) => "\n## Coordinator plan kind\n\n"@ + kind_name(k) + " — "@ + kind_playbook(k) + "\n"@
            + kind_few_shot(k),
        None => seq![],
    };
    let ep = match exp {
        Some(e) => "\n## Coordinator expectations\n\n"@ + e
            + "\nTreat these as hard constraints on pipeline shape, agents, and patch style.\n"@,
        None => seq![],
    };
    let sp = if surgical {
        SURGICAL_NOTE@
    } else {
        seq![]
    };
    let ev = "\n## Scout evidence (read_file / extract_search_anchor observations)\n\n"@ + condense_spec(
        evidence,
    );
    let tp = if touched.len() > 0 {
        "\n\n## Files read during scout\n\n"@ + bullet_list(touched)
    } else {
        seq![]
    };
    let tail = "\n\n"@ + PLANNER_EMIT_SYSTEM_PROMPT@;
    let p = emit_prompt_spec(fr, kind, exp, surgical, evidence, touched);
    let pre = h + "\n"@ + kp + ep + sp;
    assert(p =~= pre + ev + tp + tail);
    assert(p.subrange(0, h.len() as int) =~= h);
    assert(p.subrange(pre.len() as int, (pre.len() + ev.len()) as int) =~= ev);
    assert(crate::text::matches_at(p, ev, pre.len() as int));
    assert(p.subrange(p.len() - tail.len(), p.len() as int) =~= tail);
    if let Some(k) = kind {
        let fs = kind_few_shot(k);
        let at: int = h.len() + 1 + (kp.len() - fs.len());
        assert(("\n"@).len() == 1) by {
            reveal_strlit("\n");
        }
        assert(p.subrange(at, at + fs.len()) =~= fs);
        assert(crate::text::matches_at(p, fs, at));
    }
}

/// The emit prompt carries the surgical note in surgical mode, and the list of
/// files the scout read when it read any.
pub proof fn emit_prompt_optional_sections(
    fr: Seq<char>,
    kind: Option<PlanKind>,
    exp: Option<Seq<char>>,
    surgical: bool,
    evidence: Seq<char>,
    touched: Seq<Seq<char>>,
)
    ensures
        surgical ==> crate::text::contains(emit_prompt_spec(fr, kind, exp, surgical, evidence, touched), SURGICAL_NOTE@),
        touched.len() > 0 ==> crate::text::contains(
            emit_prompt_spec(fr, kind, exp, surgical, evidence, touched),
            "\n\n## Files read during scout\n\n"@ + bullet_list(touched),
        ),
{
    let p = emit_prompt_spec(fr, kind, exp, surgical, evidence, touched);
    let a = "plan_blueprint (emit phase)\n\nFeature request / bug report:\n"@ + fr + "\n"@ + (match kind {
        Some(k) => "\n## Coordinator plan kind\n\n"@ + kind_name(k) + " — "@ + kind_playbook(k) + "\n"@
            + kind_few_shot(k),
        None => seq![],
    }) + (match exp {
        Some(e) => "\n## Coordinator expectations\n\n"@ + e
            + "\nTreat these as hard constraints on pipeline shape, agents, and patch style.\n"@,
        None => seq![],
    });
    let sp = if surgical {
        SURGICAL_NOTE@
    } else {
        seq![]
    };
    let ev = "\n## Scout evidence (read_file / extract_search_anchor observations)\n\n"@ + condense_spec(
        evidence,
    );
    let tp = if touched.len() > 0 {
        "\n\n## Files read during scout\n\n"@ + bullet_list(touched)
    } else {
        seq![]
    };
    let rest = "\n\n"@ + PLANNER_EMIT_SYSTEM_PROMPT@;
    assert(p =~= a + sp + ev + tp + rest);
    if surgical {
        let at: int = a.len() as int;
        assert(p.subrange(at, at + sp.len()) =~= sp);
        assert(crate::text::matches_at(p, SURGICAL_NOTE@, at));
    }
    if touched.len() > 0 {
        let at: int = (a + sp + ev).len() as int;
        assert(p.subrange(at, at + tp.len()) =~= tp);
        assert(crate::text::matches_at(p, tp, at));
    }
}

pub const SURGICAL_NOTE: &'static str = "\nSurgical mode: use blueprint_add_patch with verbatim ≥2-line search from scout; replace ≤15 extra lines; prefer patch over create.\n";

/// `- item\n` for each item.
pub open spec fn bullet_list(items: Seq<Seq<char>>) -> Seq<char>
    decreases items.len(),
{
    if items.len() == 0 {
        seq![]
    } else {
        bullet_list(items.drop_last()) + "- "@ + items.last() + "\n"@
    }
}

fn bullet_list_exec(items: &Vec<String>) -> (s: String)
    ensures
        s@ == bullet_list(crate::text::string_views(items@)),
{
    let mut s = String::new();
    let mut i: usize = 0;
    while i < items.len()
        invariant
            i <= items@.len(),
            s@ == bullet_list(crate::text::string_views(items@.take(i as int))),
        decreases items.len() - i,
    {
        assert(crate::text::string_views(items@.take(i + 1)).drop_last()
            =~= crate::text::string_views(items@.take(i as int)));
        s.append("- ");
        s.append(items[i].as_str());
        s.append("\n");
        i = i + 1;
    }
    assert(items@.take(items@.len() as int) =~= items@);
    s
}

/// Prompt for the emit phase of the planner, built from the scout run.
pub fn format_emit_prompt(args: &PlanBlueprintArgs, scout: &AgentContext) -> (p: String)
    ensures
        p@ == emit_prompt_spec(
            args.feature_request@,
            args.plan_kind,
            opt_view(args.expectation),
            args.plan_kind == Some(PlanKind::Bugfix) || args.plan_kind == Some(PlanKind::Refactor)
                || (args.expectation matches Some(e) && expects_surgical_spec(e@)),
            scout.accumulated_data@,
            crate::text::string_views(scout.touched_files@),
        ),
{
    let mut p = "plan_blueprint (emit phase)\n\nFeature request / bug report:\n".to_owned();
    p.append(args.feature_request.as_str());
    p.append("\n");
    let ghost s0 = p@;
    if let Some(kind) = args.plan_kind {
        p.append("\n## Coordinator plan kind\n\n");
        p.append(kind.as_str());
        p.append(" — ");
        p.append(kind.playbook());
        p.append("\n");
        p.append(kind.emit_few_shot());
    }
    let ghost s1 = p@;
    if let Some(e) = &args.expectation {
        p.append("\n## Coordinator expectations\n\n");
        p.append(e.as_str());
        p.append("\nTreat these as hard constraints on pipeline shape, agents, and patch style.\n");
    }
    let ghost s2 = p@;
    let constraints = CoordinatorConstraints::from_args(args);
    if constraints.surgical_patches {
        p.append(SURGICAL_NOTE);
    }
    let ghost s3 = p@;
    p.append("\n## Scout evidence (read_file / extract_search_anchor observations)\n\n");
    let ev = condense_scout_evidence(scout.accumulated_data.as_str());
    p.append(ev.as_str());
    let ghost s4 = p@;
    if scout.touched_files.len() > 0 {
        p.append("\n\n## Files read during scout\n\n");
        let b = bullet_list_exec(&scout.touched_files);
        p.append(b.as_str());
    }
    let ghost s5 = p@;
    p.append("\n\n");
    p.append(PLANNER_EMIT_SYSTEM_PROMPT);
    proof {
        let k = match args.plan_kind {
            Some(k) => "\n## Coordinator plan kind\n\n"@ + kind_name(k) + " — "@ + kind_playbook(
                k,
            ) + "\n"@ + kind_few_shot(k),
            None => seq![],
        };
        let e = match opt_view(args.expectation) {
            Some(e) => "\n## Coordinator expectations\n\n"@ + e
                + "\nTreat these as hard constraints on pipeline shape, agents, and patch style.\n"@,
            None => seq![],
        };
        assert(s1 =~= s0 + k);
        assert(s2 =~= s0 + k + e);
    }
    assert(p@ =~= emit_prompt_spec(
        args.feature_request@,
        args.plan_kind,
        opt_view(args.expectation),
        constraints.surgical_patches,
        scout.accumulated_data@,
        crate::text::string_views(scout.touched_files@),
    ));
    p
}

/// After a rejected finalize: the run is not complete and the prompt names the reason.
pub fn reject_incomplete_blueprint(context: &mut AgentContext, reason: &str)
    ensures
        !final(context).agent_completed,
        !final(context).is_finished,
        final(context).input_prompt@ == old(context).input_prompt@
            + "\nBlueprint rejected after finalize: "@ + reason@
            + "\nFix with blueprint_add_* then blueprint_finalize again."@,
        final(context).accumulated_data == old(context).accumulated_data,
        final(context).iterations == old(context).iterations,
        final(context).touched_files == old(context).touched_files,
{
    context.agent_completed = false;
    context.is_finished = false;
    context.input_prompt.append("\nBlueprint rejected after finalize: ");
    context.input_prompt.append(reason);
    context.input_prompt.append("\nFix with blueprint_add_* then blueprint_finalize again.");
}

/// The text of the last `Thought:` block, up to the next observation, trimmed.
pub open spec fn last_thought_spec(acc: Seq<char>) -> Option<Seq<char>> {
    match rfind(acc, "Thought:\n"@) {
        None => None,
        Some(i) => {
            let rest = acc.skip(i + 9);
            let end = match find_from(rest, "\nObservation:"@, 0) {
                Some(e) => e,
                None => rest.len() as int,
            };
            Some(trim(rest.take(end)))
        },
    }
}

/// The last model thought recorded in a transcript.
pub fn last_thought_block(accumulated: &str) -> (r: Option<String>)
    ensures
        opt_view(r) == last_thought_spec(accumulated@),
{
    proof {
        reveal_strlit("Thought:\n");
    }
    let v = chars_of(accumulated);
    let marker = chars_of("Thought:\n");
    let idx = match rfind_exec(v.as_slice(), marker.as_slice()) {
        Some(i) => i,
        None => {
            return None;
        },
    };
    proof {
        lemma_rfind_before(accumulated@, "Thought:\n"@, accumulated@.len() + 1int);
    }
    let n = v.len();
    assert(idx + marker@.len() <= n);
    assert(marker@.len() == 9);
    let rest = copy_range(v.as_slice(), idx + 9, n);
    assert(rest@ =~= accumulated@.skip(idx + 9));
    let obs = chars_of("\nObservation:");
    let end = match find_from_exec(rest.as_slice(), obs.as_slice(), 0) {
        Some(e) => e,
        None => rest.len(),
    };
    proof {
        lemma_find_from(rest@, "\nObservation:"@, 0);
    }
    let body = copy_range(rest.as_slice(), 0, end);
    assert(body@ =~= rest@.take(end as int));
    let t = crate::text::trim_exec(body.as_slice());
    Some(string_of(t.as_slice()))
}

pub const PROSE_JSON_NUDGE: &'static str = "Do not paste Blueprint JSON in chat — call blueprint_begin / add_patch / add_tests / blueprint_finalize.";

/// When the model pasted JSON in a thought instead of calling draft tools, the prompt
/// gains (once) a nudge towards the draft tools.
pub fn nudge_prose_json(context: &mut AgentContext)
    ensures
        final(context).accumulated_data == old(context).accumulated_data,
        final(context).is_finished == old(context).is_finished,
        final(context).agent_completed == old(context).agent_completed,
        final(context).input_prompt@ == if (last_thought_spec(old(context).accumulated_data@) matches Some(
            t,
        ) && contains(t, "{"@)) && !contains(old(context).input_prompt@, PROSE_JSON_NUDGE@) {
            old(context).input_prompt@ + "\n"@ + PROSE_JSON_NUDGE@ + "\n"@
        } else {
            old(context).input_prompt@
        },
{
    let thought = match last_thought_block(context.accumulated_data.as_str()) {
        Some(t) => t,
        None => {
            return;
        },
    };
    if !str_contains(thought.as_str(), "{") {
        return;
    }
    if !str_contains(context.input_prompt.as_str(), PROSE_JSON_NUDGE) {
        context.input_prompt.append("\n");
        context.input_prompt.append(PROSE_JSON_NUDGE);
        context.input_prompt.append("\n");
    }
}

pub open spec fn incomplete_draft_msg() -> Seq<char> {
    "draft incomplete — finish with blueprint_add_* as needed then blueprint_finalize"@
}

pub open spec fn no_draft_msg() -> Seq<char> {
    "no Blueprint draft yet — call blueprint_begin, then add_patch/add_tests, then blueprint_finalize"@
}

/// Why the emit phase must go on, or `None` when the observations end in a
/// complete, valid Blueprint. `blueprint` is the JSON object found in the
/// observations, parsed (`None` when there is none or it does not parse);
/// `files` are the workspace files patches are checked against.
pub open spec fn fixup_reason_spec(
    accumulated: Seq<char>,
    blueprint: Option<JsonValue>,
    c: CoordinatorConstraints,
    files: Seq<(String, String)>,
) -> Option<Seq<char>> {
    let valid = match blueprint {
        Some(bp) => crate::blueprint::blueprint_spec(bp, files) is Ok,
        None => false,
    };
    if valid {
        match crate::blueprint::coordinator_spec(blueprint->0, c) {
            Ok(()) => None,
            Err(e) => Some(e),
        }
    } else if contains(accumulated, "Tool: blueprint_finalize"@) || contains(
        accumulated,
        "draft begun"@,
    ) || contains(accumulated, "queued step"@) {
        Some(incomplete_draft_msg())
    } else {
        Some(no_draft_msg())
    }
}

/// Decides whether the emit loop needs another fix-up round.
pub fn planner_json_fixup_reason(
    accumulated_data: &str,
    blueprint: &Option<JsonValue>,
    coordinator: &CoordinatorConstraints,
    files: &crate::blueprint::WorkspaceFiles,
) -> (r: Option<String>)
    ensures
        opt_view(r) == fixup_reason_spec(accumulated_data@, *blueprint, *coordinator, files.files@),
{
    match blueprint {
        Some(bp) => {
            if crate::blueprint::validate_blueprint_value(bp, files).is_ok() {
                return match crate::blueprint::validate_blueprint_coordinator(bp, coordinator) {
                    Ok(()) => None,
                    Err(e) => Some(e),
                };
            }
        },
        None => {},
    }
    if str_contains(accumulated_data, "Tool: blueprint_finalize") || str_contains(
        accumulated_data,
        "draft begun",
    ) || str_contains(accumulated_data, "queued step") {
        return Some(
            "draft incomplete — finish with blueprint_add_* as needed then blueprint_finalize".to_owned(),
        );
    }
    Some(
        "no Blueprint draft yet — call blueprint_begin, then add_patch/add_tests, then blueprint_finalize".to_owned(),
    )
}

/// The file a read-only planner tool call looked at (`file` argument of
/// `read_file` and `extract_search_anchor`).
pub open spec fn touched_path(tool_name: Seq<char>, args: JsonValue) -> Option<Seq<char>> {
    if tool_name == "read_file"@ || tool_name == "extract_search_anchor"@ {
        get_str(args, "file"@)
    } else {
        None
    }
}

/// Remembers, once, the resolved path of a file a planner tool read.
pub fn record_planner_touched_file(
    context: &mut AgentContext,
    tool_name: &str,
    args: &JsonValue,
    workspace_root: &str,
)
    ensures
        final(context).input_prompt == old(context).input_prompt,
        final(context).accumulated_data == old(context).accumulated_data,
        final(context).is_finished == old(context).is_finished,
        final(context).agent_completed == old(context).agent_completed,
        match touched_path(tool_name@, *args) {
            None => final(context).touched_files == old(context).touched_files,
            Some(p) => {
                let resolved = crate::project::workspace_path_spec(workspace_root@, p);
                &&& string_views(old(context).touched_files@).contains(resolved)
                    ==> final(context).touched_files@ == old(context).touched_files@
                &&& !string_views(old(context).touched_files@).contains(resolved) ==> string_views(
                    final(context).touched_files@,
                ) == string_views(old(context).touched_files@).push(resolved)
            },
        },
{
    let path = if str_eq(tool_name, "read_file") || str_eq(tool_name, "extract_search_anchor") {
        get_str_exec(args, "file")
    } else {
        None
    };
    match path {
        None => {},
        Some(p) => {
            let resolved = crate::project::resolve_workspace_path(workspace_root, p);
            let ghost before = context.touched_files@;
            crate::order::push_unique(&mut context.touched_files, resolved);
            proof {
                if !string_views(before).contains(
                    crate::project::workspace_path_spec(workspace_root@, p@),
                ) {
                    assert(string_views(context.touched_files@) =~= string_views(before).push(
                        crate::project::workspace_path_spec(workspace_root@, p@),
                    ));
                }
            }
        },
    }
}

/// The two phases of the planner loop.
#[derive(Clone, Copy, PartialEq, Eq, Structural, Debug)]
pub enum PlannerLoopPhase {
    Scout,
    Emit,
}

/// The planner agent: a model client, the phase it runs, and that
/// phase's tools.
pub struct PlannerHybridAgent<C> {
    pub client: C,
    pub phase: PlannerLoopPhase,
    pub tools: crate::llm::LlmToolSet,
}

/// The nudge appended to the prompt before the next planner turn.
pub open spec fn planner_nudge(phase: PlannerLoopPhase, iterations: u32, max_iterations: u32) -> Seq<
    char,
> {
    let last = iterations >= (if max_iterations == 0 {
        0
    } else {
        max_iterations - 1
    });
    match phase {
        PlannerLoopPhase::Scout => if last {
            "\nFinal scout turn: read_file any unread target, then scouting ends."@
        } else {
            "\nContinue scouting. Call exactly one tool: detect_language, ripgrep, ast_calls, read_file, or extract_search_anchor."@
        },
        PlannerLoopPhase::Emit => if last {
            "\nFinal emit turn: blueprint_finalize if draft is ready (begin + patches + tests)."@
        } else {
            "\nContinue. Call exactly one tool: read_file, blueprint_begin, blueprint_add_patch, blueprint_add_create, blueprint_add_tests, or blueprint_finalize."@
        },
    }
}

impl<C> PlannerHybridAgent<C> {
    /// The scout-phase agent; `scout_tools` are the read-only tools it offers.
    pub fn scout(client: C, scout_tools: crate::llm::LlmToolSet) -> (a: Self)
        ensures
            a.phase == PlannerLoopPhase::Scout,
            a.tools == scout_tools,
            a.client == client,
    {
        PlannerHybridAgent { client, phase: PlannerLoopPhase::Scout, tools: scout_tools }
    }

    /// The emit-phase agent with the draft tools.
    pub fn emit(client: C, coordinator: CoordinatorConstraints, read_file: crate::llm::ToolDefinition) -> (a:
        Self)
        ensures
            a.phase == PlannerLoopPhase::Emit,
            a.client == client,
            a.tools.tools@.len() == 6,
            a.tools.tools@[0] == read_file,
            crate::llm::tool_names(a.tools).skip(1) == seq![
                "blueprint_begin"@,
                "blueprint_add_patch"@,
                "blueprint_add_create"@,
                "blueprint_add_tests"@,
                "blueprint_finalize"@,
            ],
    {
        let tools = crate::draft::draft_emit_tools(coordinator, read_file);
        PlannerHybridAgent { client, phase: PlannerLoopPhase::Emit, tools }
    }

    /// The emit-phase agent for a plan request.
    pub fn new(client: C, args: PlanBlueprintArgs, read_file: crate::llm::ToolDefinition) -> (a:
        Self)
        ensures
            a.phase == PlannerLoopPhase::Emit,
            a.client == client,
            a.tools.tools@.len() == 6,
            a.tools.tools@[0] == read_file,
    {
        Self::emit(client, CoordinatorConstraints::from_args(&args), read_file)
    }

    /// The system prompt of the agent's phase.
    pub fn system_prompt(&self) -> (s: &'static str)
        ensures
            self.phase == PlannerLoopPhase::Scout ==> s@ == PLANNER_SCOUT_SYSTEM_PROMPT@,
            self.phase == PlannerLoopPhase::Emit ==> s@ == PLANNER_EMIT_SYSTEM_PROMPT@,
    {
        match self.phase {
            PlannerLoopPhase::Scout => PLANNER_SCOUT_SYSTEM_PROMPT,
            PlannerLoopPhase::Emit => PLANNER_EMIT_SYSTEM_PROMPT,
        }
    }

    /// The agent's name in logs and evaluations.
    pub fn name(&self) -> (s: &'static str)
        ensures
            self.phase == PlannerLoopPhase::Scout ==> s@ == "planner_scout_agent"@,
            self.phase == PlannerLoopPhase::Emit ==> s@ == "planner_emit_agent"@,
    {
        match self.phase {
            PlannerLoopPhase::Scout => "planner_scout_agent",
            PlannerLoopPhase::Emit => "planner_emit_agent",
        }
    }

    /// Appends the next turn's nudge to the prompt.
    pub fn mutate_next_iteration(&self, context: &mut AgentContext)
        ensures
            final(context).input_prompt@ == old(context).input_prompt@ + planner_nudge(
                self.phase,
                old(context).iterations,
                old(context).max_iterations,
            ),
            final(context).accumulated_data == old(context).accumulated_data,
            final(context).iterations == old(context).iterations,
            final(context).max_iterations == old(context).max_iterations,
    {
        let last = context.iterations >= (if context.max_iterations == 0 {
            0
        } else {
            context.max_iterations - 1
        });
        let nudge = match self.phase {
            PlannerLoopPhase::Scout => if last {
                "\nFinal scout turn: read_file any unread target, then scouting ends."
            } else {
                "\nContinue scouting. Call exactly one tool: detect_language, ripgrep, ast_calls, read_file, or extract_search_anchor."
            },
            PlannerLoopPhase::Emit => if last {
                "\nFinal emit turn: blueprint_finalize if draft is ready (begin + patches + tests)."
            } else {
                "\nContinue. Call exactly one tool: read_file, blueprint_begin, blueprint_add_patch, blueprint_add_create, blueprint_add_tests, or blueprint_finalize."
            },
        };
        context.input_prompt.append(nudge);
    }
}

} // verus!
