//! The Blueprint draft the emit phase fills step by step through forced
//! tools; the library assembles and validates the Blueprint JSON.
use vstd::prelude::*;

use crate::blueprint::{
    blueprint_spec, coordinator_spec, count_nonempty_lines, goal_has_line_citation,
    goal_has_line_citation_spec, is_comment_sketch, is_comment_sketch_spec, is_kebab_case,
    is_kebab_case_spec, validate_blueprint_coordinator, validate_blueprint_value,
    WorkspaceFiles,
};
use crate::hunks::{HUNK_REPLACE_END, HUNK_SEARCH_START, HUNK_SEPARATOR, SURGICAL_MAX_NEW_LINES};
use crate::json::JsonValue;
use crate::llm::{LlmToolSet, ToolDefinition};
use crate::planner::CoordinatorConstraints;
use crate::text::{
    chars_of, contains, debug_quote, debug_str, decimal, fmt_usize, lines, replace, str_contains,
    str_replace, string_of, trim,
};

verus! {

/// A `create_file` step may hold at most this many lines.
pub const CREATE_FILE_MAX_LINES: usize = 15;

/// One queued pipeline step.
pub struct DraftStep {
    /// `patch_file`, `create_file` or `generate_tests`.
    pub action: &'static str,
    pub target_file: String,
    pub goal: String,
    pub patch_content: String,
}

/// The step as plain values: action, target, goal, content.
pub open spec fn step_view(s: DraftStep) -> (Seq<char>, Seq<char>, Seq<char>, Seq<char>) {
    (s.action@, s.target_file@, s.goal@, s.patch_content@)
}

pub open spec fn steps_view(ss: Seq<DraftStep>) -> Seq<(Seq<char>, Seq<char>, Seq<char>, Seq<char>)> {
    ss.map_values(|s: DraftStep| step_view(s))
}

/// A Blueprint being drafted: begun with a task id and summary, then
/// filled with steps in order.
pub struct BlueprintDraft {
    pub begun: bool,
    pub task_id: String,
    pub architecture_summary: String,
    pub steps: Vec<DraftStep>,
}

impl Default for BlueprintDraft {
    fn default() -> (d: Self)
        ensures
            !d.begun,
            d.task_id@.len() == 0,
            d.architecture_summary@.len() == 0,
            d.steps@.len() == 0,
    {
        BlueprintDraft {
            begun: false,
            task_id: String::new(),
            architecture_summary: String::new(),
            steps: Vec::new(),
        }
    }
}

/// A result of strings by its views.
pub open spec fn result_view(r: Result<String, String>) -> Result<Seq<char>, Seq<char>> {
    match r {
        Ok(s) => Ok(s@),
        Err(e) => Err(e@),
    }
}

/// `\r\n` line ends turned into `\n`.
pub open spec fn unix_newlines(s: Seq<char>) -> Seq<char> {
    replace(s, "\r\n"@, "\n"@)
}

/// A SEARCH/REPLACE hunk around the two bodies (trailing newlines dropped).
pub open spec fn wrap_hunk_spec(search: Seq<char>, replace: Seq<char>) -> Seq<char> {
    HUNK_SEARCH_START@ + "\n"@ + crate::git_janitor::trim_end_char(search, '\n') + "\n"@
        + HUNK_SEPARATOR@ + "\n"@ + crate::git_janitor::trim_end_char(replace, '\n') + "\n"@
        + HUNK_REPLACE_END@
}

fn trim_trailing_newlines(s: &str) -> (r: String)
    ensures
        r@ == crate::git_janitor::trim_end_char(s@, '\n'),
{
    let c = chars_of(s);
    let mut k: usize = c.len();
    assert(c@.subrange(0, k as int) =~= c@);
    while k > 0 && c[k - 1] == '\n'
        invariant
            k <= c@.len(),
            crate::git_janitor::trim_end_char(c@, '\n') == crate::git_janitor::trim_end_char(
                c@.subrange(0, k as int),
                '\n',
            ),
        decreases k,
    {
        assert(c@.subrange(0, k as int).drop_last() =~= c@.subrange(0, k - 1));
        k = k - 1;
    }
    proof {
        if k > 0 {
            assert(c@.subrange(0, k as int).last() == c@[k - 1]);
        }
    }
    string_of(crate::text::copy_range(c.as_slice(), 0, k).as_slice())
}

/// Wraps raw search/replace text in hunk markers.
pub fn wrap_hunk(search: &str, replace: &str) -> (r: String)
    ensures
        r@ == wrap_hunk_spec(search@, replace@),
{
    let s = trim_trailing_newlines(search);
    let p = trim_trailing_newlines(replace);
    let mut out = HUNK_SEARCH_START.to_owned();
    out.append("\n");
    out.append(s.as_str());
    out.append("\n");
    out.append(HUNK_SEPARATOR);
    out.append("\n");
    out.append(p.as_str());
    out.append("\n");
    out.append(HUNK_REPLACE_END);
    out
}

pub open spec fn not_begun_msg() -> Seq<char> {
    "call blueprint_begin first"@
}

pub open spec fn queued_msg(n: nat, action: Seq<char>, target: Seq<char>) -> Seq<char> {
    "queued step "@ + decimal(n) + ": "@ + action + " "@ + target + " ("@ + decimal(n)
        + " steps total)"@
}

fn queued(n: usize, action: &str, target: &str) -> (r: String)
    ensures
        r@ == queued_msg(n as nat, action@, target@),
{
    let mut m = "queued step ".to_owned();
    m.append(fmt_usize(n).as_str());
    m.append(": ");
    m.append(action);
    m.append(" ");
    m.append(target);
    m.append(" (");
    m.append(fmt_usize(n).as_str());
    m.append(" steps total)");
    m
}

/// Why a patch step is refused, checked in order; `None` when it is
/// accepted. `file` is the target's content (`Err`: why it could not be
/// read).
pub open spec fn patch_refusal(
    target: Seq<char>,
    goal: Seq<char>,
    search: Seq<char>,
    replace: Seq<char>,
    file: Result<Seq<char>, Seq<char>>,
) -> Option<Seq<char>> {
    let s = unix_newlines(search);
    let r = unix_newlines(replace);
    let sl = crate::blueprint::nonblank(lines(s)).len();
    let rl = crate::blueprint::nonblank(lines(r)).len();
    if !goal_has_line_citation_spec(goal) {
        Some("goal must cite path:line (e.g. src/foo.rs:42)"@)
    } else if trim(s).len() == 0 {
        Some("search must be non-empty verbatim file text"@)
    } else if sl < 2 {
        Some("search must have ≥2 non-empty lines for uniqueness — add surrounding context"@)
    } else if r == s {
        Some("replace identical to search — no-op edit"@)
    } else if rl > sl + SURGICAL_MAX_NEW_LINES {
        Some(
            "replace adds "@ + decimal((rl - sl) as nat) + " non-empty lines over "@ + decimal(sl)
                + "-line search (max +15)"@,
        )
    } else if is_comment_sketch_spec(r) || contains(r, "..."@) {
        Some("replace contains ellipsis/placeholder — paste real code"@)
    } else {
        match file {
            Err(e) => Some("cannot read "@ + target + " to ground search: "@ + e),
            Ok(body) => if !contains(unix_newlines(body), s) {
                Some(
                    "search not found in "@ + target
                        + " — copy verbatim from read_file/extract_search_anchor; got: "@
                        + debug_str(s.take(if s.len() < 60 {
                        s.len() as int
                    } else {
                        60
                    })),
                )
            } else {
                None
            },
        }
    }
}

/// Why a create step is refused, in order; `None` when accepted.
pub open spec fn create_refusal(
    target: Seq<char>,
    goal: Seq<char>,
    contents: Seq<char>,
    exists: bool,
) -> Option<Seq<char>> {
    let n = lines(contents).len();
    if !goal_has_line_citation_spec(goal) {
        Some("goal must cite path:line"@)
    } else if n == 0 || trim(contents).len() == 0 {
        Some("contents must be non-empty"@)
    } else if n > CREATE_FILE_MAX_LINES {
        Some(
            "create_file contents has "@ + decimal(n) + " lines (max 15) — use blueprint_add_patch on an existing file instead of dumping a full file"@,
        )
    } else if is_comment_sketch_spec(contents) || contains(contents, "..."@) {
        Some("contents contains ellipsis/placeholder"@)
    } else if exists {
        Some(target + " already exists — use blueprint_add_patch, not create"@)
    } else {
        None
    }
}

/// A string field of a JSON object at a position.
pub open spec fn field_is_str(fs: Seq<(String, JsonValue)>, k: int, key: Seq<char>, val: Seq<char>) -> bool {
    fs[k].0@ == key && match fs[k].1 {
        JsonValue::Str(s) => s@ == val,
        _ => false,
    }
}

/// The JSON of pipeline step `i` (0-based) of a draft.
pub open spec fn is_step_json(v: JsonValue, i: int, s: (Seq<char>, Seq<char>, Seq<char>, Seq<char>)) -> bool {
    match v {
        JsonValue::Object(fs) => {
            &&& fs@.len() == 6
            &&& fs@[0].0@ == "step"@
            &&& fs@[0].1 == JsonValue::Int((i + 1) as i64)
            &&& field_is_str(fs@, 1, "agent"@, "BuilderAgent"@)
            &&& field_is_str(fs@, 2, "action"@, s.0)
            &&& field_is_str(fs@, 3, "target_file"@, s.1)
            &&& field_is_str(fs@, 4, "goal"@, s.2)
            &&& field_is_str(fs@, 5, "patch_content"@, s.3)
        },
        _ => false,
    }
}

/// The Blueprint JSON a draft assembles: task id, summary and the
/// numbered pipeline, every step routed to the builder.
pub open spec fn is_draft_json(v: JsonValue, d: BlueprintDraft) -> bool {
    match v {
        JsonValue::Object(fs) => {
            &&& fs@.len() == 3
            &&& field_is_str(fs@, 0, "task_id"@, d.task_id@)
            &&& field_is_str(fs@, 1, "architecture_summary"@, d.architecture_summary@)
            &&& fs@[2].0@ == "pipeline"@
            &&& match fs@[2].1 {
                JsonValue::Array(items) => {
                    &&& items@.len() == d.steps@.len()
                    &&& forall|i: int|
                        0 <= i < items@.len() ==> #[trigger] is_step_json(
                            items@[i],
                            i,
                            step_view(d.steps@[i]),
                        )
                },
                _ => false,
            }
        },
        _ => false,
    }
}

/// The verdict on an assembled Blueprint: its validation errors are
/// prefixed with `Blueprint rejected: `.
pub open spec fn finalize_verdict(
    v: JsonValue,
    files: Seq<(String, String)>,
    c: CoordinatorConstraints,
) -> Result<(), Seq<char>> {
    match blueprint_spec(v, files) {
        Err(e) => Err("Blueprint rejected: "@ + e),
        Ok(()) => match coordinator_spec(v, c) {
            Err(e) => Err("Blueprint rejected: "@ + e),
            Ok(()) => Ok(()),
        },
    }
}

fn str_field(key: &str, val: &str) -> (r: (String, JsonValue))
    ensures
        r.0@ == key@,
        r.1 matches JsonValue::Str(s) && s@ == val@,
{
    (key.to_owned(), JsonValue::Str(val.to_owned()))
}

impl BlueprintDraft {
    /// Starts (or restarts) the draft: the task id must be kebab-case and
    /// the summary not blank; any queued steps are dropped.
    pub fn begin(&mut self, task_id: String, architecture_summary: String) -> (r: Result<(), String>)
        ensures
            !is_kebab_case_spec(task_id@) ==> (r matches Err(e) && e@
                == "task_id must be kebab-case (lowercase, hyphen-separated), got: "@ + debug_str(
                task_id@,
            ) && *final(self) == *old(self)),
            is_kebab_case_spec(task_id@) && trim(architecture_summary@).len() == 0 ==> (r matches Err(
                e,
            ) && e@ == "architecture_summary must not be empty"@ && *final(self) == *old(self)),
            is_kebab_case_spec(task_id@) && trim(architecture_summary@).len() > 0 ==> (r is Ok
                && final(self).begun && final(self).task_id@ == task_id@
                && final(self).architecture_summary@ == architecture_summary@
                && final(self).steps@.len() == 0),
    {
        if !is_kebab_case(task_id.as_str()) {
            let mut m = "task_id must be kebab-case (lowercase, hyphen-separated), got: ".to_owned();
            m.append(debug_quote(task_id.as_str()).as_str());
            return Err(m);
        }
        if crate::text::str_trim(architecture_summary.as_str()).as_str().is_empty() {
            return Err("architecture_summary must not be empty".to_owned());
        }
        self.begun = true;
        self.task_id = task_id;
        self.architecture_summary = architecture_summary;
        self.steps.clear();
        Ok(())
    }

    /// Queues a `patch_file` step after checking the goal's citation, the
    /// search and replace bodies, and that the search text occurs in the
    /// target file (`file_body`: its content, or why it could not be read).
    pub fn add_patch(
        &mut self,
        target_file: String,
        goal: String,
        search: String,
        replace: String,
        file_body: Result<String, String>,
    ) -> (r: Result<String, String>)
        ensures
            !old(self).begun ==> (r matches Err(e) && e@ == not_begun_msg() && *final(self)
                == *old(self)),
            old(self).begun ==> match patch_refusal(
                target_file@,
                goal@,
                search@,
                replace@,
                result_view(file_body),
            ) {
                Some(m) => r matches Err(e) && e@ == m && *final(self) == *old(self),
                None => r matches Ok(msg) && msg@ == queued_msg(
                    final(self).steps@.len(),
                    "patch_file"@,
                    target_file@,
                ) && final(self).begun == old(self).begun && final(self).task_id
                    == old(self).task_id && final(self).architecture_summary
                    == old(self).architecture_summary && steps_view(final(self).steps@)
                    == steps_view(old(self).steps@).push(
                    (
                        "patch_file"@,
                        target_file@,
                        goal@,
                        wrap_hunk_spec(unix_newlines(search@), unix_newlines(replace@)),
                    ),
                ),
            },
    {
        proof {
            reveal_strlit("\r\n");
        }
        if !self.begun {
            return Err("call blueprint_begin first".to_owned());
        }
        if !goal_has_line_citation(goal.as_str()) {
            return Err("goal must cite path:line (e.g. src/foo.rs:42)".to_owned());
        }
        let search = str_replace(search.as_str(), "\r\n", "\n");
        let replace = str_replace(replace.as_str(), "\r\n", "\n");
        if crate::text::str_trim(search.as_str()).as_str().is_empty() {
            return Err("search must be non-empty verbatim file text".to_owned());
        }
        let search_lines = count_nonempty_lines(search.as_str());
        if search_lines < 2 {
            return Err(
                "search must have ≥2 non-empty lines for uniqueness — add surrounding context".to_owned(),
            );
        }
        if crate::text::str_eq(replace.as_str(), search.as_str()) {
            return Err("replace identical to search — no-op edit".to_owned());
        }
        let replace_lines = count_nonempty_lines(replace.as_str());
        if replace_lines > search_lines && replace_lines - search_lines > SURGICAL_MAX_NEW_LINES {
            let mut m = "replace adds ".to_owned();
            m.append(fmt_usize(replace_lines - search_lines).as_str());
            m.append(" non-empty lines over ");
            m.append(fmt_usize(search_lines).as_str());
            m.append("-line search (max +15)");
            return Err(m);
        }
        if is_comment_sketch(replace.as_str()) || str_contains(replace.as_str(), "...") {
            return Err("replace contains ellipsis/placeholder — paste real code".to_owned());
        }
        let body = match file_body {
            Err(err) => {
                let mut m = "cannot read ".to_owned();
                m.append(target_file.as_str());
                m.append(" to ground search: ");
                m.append(err.as_str());
                return Err(m);
            },
            Ok(b) => b,
        };
        let file = str_replace(body.as_str(), "\r\n", "\n");
        if !str_contains(file.as_str(), search.as_str()) {
            let sc = chars_of(search.as_str());
            let k = if sc.len() < 60 {
                sc.len()
            } else {
                60
            };
            let preview = string_of(crate::text::copy_range(sc.as_slice(), 0, k).as_slice());
            assert(preview@ =~= search@.take(k as int));
            let mut m = "search not found in ".to_owned();
            m.append(target_file.as_str());
            m.append(" — copy verbatim from read_file/extract_search_anchor; got: ");
            m.append(debug_quote(preview.as_str()).as_str());
            return Err(m);
        }
        let patch_content = wrap_hunk(search.as_str(), replace.as_str());
        let ghost before = self.steps@;
        let msg_target = target_file.clone();
        self.steps.push(DraftStep { action: "patch_file", target_file, goal, patch_content });
        assert(steps_view(self.steps@) =~= steps_view(before).push(step_view(self.steps@.last())));
        Ok(queued(self.steps.len(), "patch_file", msg_target.as_str()))
    }

    /// Queues a small `create_file` step; `target_exists` tells whether the
    /// target file is already on disk.
    pub fn add_create(&mut self, target_file: String, goal: String, contents: String, target_exists: bool) -> (r:
        Result<String, String>)
        ensures
            !old(self).begun ==> (r matches Err(e) && e@ == not_begun_msg() && *final(self)
                == *old(self)),
            old(self).begun ==> match create_refusal(target_file@, goal@, contents@, target_exists) {
                Some(m) => r matches Err(e) && e@ == m && *final(self) == *old(self),
                None => r matches Ok(msg) && msg@ == queued_msg(
                    final(self).steps@.len(),
                    "create_file"@,
                    target_file@,
                ) && final(self).begun == old(self).begun && final(self).task_id
                    == old(self).task_id && final(self).architecture_summary
                    == old(self).architecture_summary && steps_view(final(self).steps@)
                    == steps_view(old(self).steps@).push(
                    ("create_file"@, target_file@, goal@, contents@),
                ),
            },
    {
        if !self.begun {
            return Err("call blueprint_begin first".to_owned());
        }
        if !goal_has_line_citation(goal.as_str()) {
            return Err("goal must cite path:line".to_owned());
        }
        let n = crate::text::lines_exec(chars_of(contents.as_str()).as_slice()).len();
        if n == 0 || crate::text::str_trim(contents.as_str()).as_str().is_empty() {
            return Err("contents must be non-empty".to_owned());
        }
        if n > CREATE_FILE_MAX_LINES {
            let mut m = "create_file contents has ".to_owned();
            m.append(fmt_usize(n).as_str());
            m.append(
                " lines (max 15) — use blueprint_add_patch on an existing file instead of dumping a full file",
            );
            return Err(m);
        }
        if is_comment_sketch(contents.as_str()) || str_contains(contents.as_str(), "...") {
            return Err("contents contains ellipsis/placeholder".to_owned());
        }
        if target_exists {
            let mut m = target_file.clone();
            m.append(" already exists — use blueprint_add_patch, not create");
            return Err(m);
        }
        let ghost before = self.steps@;
        let msg_target = target_file.clone();
        self.steps.push(
            DraftStep { action: "create_file", target_file, goal, patch_content: contents },
        );
        assert(steps_view(self.steps@) =~= steps_view(before).push(step_view(self.steps@.last())));
        Ok(queued(self.steps.len(), "create_file", msg_target.as_str()))
    }

    /// Queues a `generate_tests` step.
    pub fn add_tests(&mut self, target_file: String, goal: String) -> (r: Result<String, String>)
        ensures
            !old(self).begun ==> (r matches Err(e) && e@ == not_begun_msg() && *final(self)
                == *old(self)),
            old(self).begun && !goal_has_line_citation_spec(goal@) ==> (r matches Err(e) && e@
                == "goal must cite path:line (e.g. tests/foo_test.rs:1 or src/foo.rs:10)"@
                && *final(self) == *old(self)),
            old(self).begun && goal_has_line_citation_spec(goal@) ==> (r matches Ok(msg) && msg@
                == queued_msg(final(self).steps@.len(), "generate_tests"@, target_file@)
                && final(self).begun == old(self).begun && final(self).task_id
                == old(self).task_id && final(self).architecture_summary
                == old(self).architecture_summary && steps_view(final(self).steps@)
                == steps_view(old(self).steps@).push(
                ("generate_tests"@, target_file@, goal@, seq![]),
            )),
    {
        if !self.begun {
            return Err("call blueprint_begin first".to_owned());
        }
        if !goal_has_line_citation(goal.as_str()) {
            return Err(
                "goal must cite path:line (e.g. tests/foo_test.rs:1 or src/foo.rs:10)".to_owned(),
            );
        }
        let ghost before = self.steps@;
        let msg_target = target_file.clone();
        self.steps.push(
            DraftStep {
                action: "generate_tests",
                target_file,
                goal,
                patch_content: String::new(),
            },
        );
        assert(steps_view(self.steps@) =~= steps_view(before).push(step_view(self.steps@.last())));
        Ok(queued(self.steps.len(), "generate_tests", msg_target.as_str()))
    }

    /// Assembles the Blueprint JSON from the draft and validates it
    /// (`files`: the workspace files the patches are checked against).
    pub fn finalize(&self, coordinator: &CoordinatorConstraints, files: &WorkspaceFiles) -> (r:
        Result<JsonValue, String>)
        requires
            self.steps@.len() < i64::MAX,
        ensures
            !self.begun ==> (r matches Err(e) && e@ == not_begun_msg()),
            self.begun && self.steps@.len() == 0 ==> (r matches Err(e) && e@
                == "pipeline empty — call blueprint_add_patch / add_create / add_tests"@),
            self.begun && self.steps@.len() > 0 ==> exists|v: JsonValue|
                #![trigger is_draft_json(v, *self)]
                is_draft_json(v, *self) && match r {
                    Ok(w) => w == v && finalize_verdict(v, files.files@, *coordinator) is Ok,
                    Err(e) => finalize_verdict(v, files.files@, *coordinator) == Err::<
                        (),
                        Seq<char>,
                    >(e@),
                },
    {
        if !self.begun {
            return Err("call blueprint_begin first".to_owned());
        }
        if self.steps.len() == 0 {
            return Err("pipeline empty — call blueprint_add_patch / add_create / add_tests".to_owned());
        }
        let mut items: Vec<JsonValue> = Vec::new();
        let mut i: usize = 0;
        while i < self.steps.len()
            invariant
                i <= self.steps@.len(),
                self.steps@.len() < i64::MAX,
                items@.len() == i,
                forall|k: int|
                    0 <= k < i ==> #[trigger] is_step_json(items@[k], k, step_view(self.steps@[k])),
            decreases self.steps.len() - i,
        {
            let s = &self.steps[i];
            let mut fs: Vec<(String, JsonValue)> = Vec::new();
            fs.push(("step".to_owned(), JsonValue::Int((i + 1) as i64)));
            fs.push(str_field("agent", "BuilderAgent"));
            fs.push(str_field("action", s.action));
            fs.push(str_field("target_file", s.target_file.as_str()));
            fs.push(str_field("goal", s.goal.as_str()));
            fs.push(str_field("patch_content", s.patch_content.as_str()));
            let v = JsonValue::Object(fs);
            assert(is_step_json(v, i as int, step_view(self.steps@[i as int])));
            items.push(v);
            i = i + 1;
        }
        let mut top: Vec<(String, JsonValue)> = Vec::new();
        top.push(str_field("task_id", self.task_id.as_str()));
        top.push(str_field("architecture_summary", self.architecture_summary.as_str()));
        top.push(("pipeline".to_owned(), JsonValue::Array(items)));
        let bp = JsonValue::Object(top);
        assert(is_draft_json(bp, *self));
        match validate_blueprint_value(&bp, files) {
            Err(e) => {
                let mut m = "Blueprint rejected: ".to_owned();
                m.append(e.as_str());
                return Err(m);
            },
            Ok(()) => {},
        }
        match validate_blueprint_coordinator(&bp, coordinator) {
            Err(e) => {
                let mut m = "Blueprint rejected: ".to_owned();
                m.append(e.as_str());
                return Err(m);
            },
            Ok(()) => {},
        }
        Ok(bp)
    }
}

/// The emit phase's tools: `read_file` (given by the caller, whose
/// read-only tools live outside this library) and the draft tools.
pub fn draft_emit_tools(coordinator: CoordinatorConstraints, read_file: ToolDefinition) -> (s:
    LlmToolSet)
    ensures
        s.tools@.len() == 6,
        s.tools@[0] == read_file,
        crate::llm::tool_names(s).skip(1) == seq![
            "blueprint_begin"@,
            "blueprint_add_patch"@,
            "blueprint_add_create"@,
            "blueprint_add_tests"@,
            "blueprint_finalize"@,
        ],
        forall|i: int|
            1 <= i < 6 ==> (draft_terminal(#[trigger] crate::llm::tool_names(s)[i]) <==> i == 5),
{
    let s = LlmToolSet::new().register(read_file).register(
        ToolDefinition::new(
            "blueprint_begin",
            "Start a new Blueprint draft. Call once before add_* tools.",
        ).string_param("task_id", "kebab-case id (must contain a hyphen)", true).string_param(
            "architecture_summary",
            "Brief approach citing path:line claims from scout",
            true,
        ),
    ).register(
        ToolDefinition::new(
            "blueprint_add_patch",
            "Queue a patch_file step. Pass raw search/replace text only — Rust wraps SEARCH/REPLACE markers.",
        ).string_param("target_file", "Repo-relative existing file", true).string_param(
            "goal",
            "Directive with path:line citation",
            true,
        ).string_param(
            "search",
            "Verbatim ≥2-line SEARCH body (no <<<<<<< markers)",
            true,
        ).string_param(
            "replace",
            "REPLACE body (no markers); ≤15 extra non-empty lines over search",
            true,
        ),
    ).register(
        ToolDefinition::new(
            "blueprint_add_create",
            "Queue a tiny create_file step (≤15 lines). Prefer blueprint_add_patch for existing files.",
        ).string_param("target_file", "Repo-relative new file path", true).string_param(
            "goal",
            "Directive with path:line citation",
            true,
        ).string_param("contents", "Full new-file body (max 15 lines)", true),
    ).register(
        ToolDefinition::new(
            "blueprint_add_tests",
            "Queue generate_tests (usually final step). Builder writes the tests.",
        ).string_param("target_file", "Intended test file path", true).string_param(
            "goal",
            "Must cite path:line for source or test file",
            true,
        ),
    ).register(
        ToolDefinition::new(
            "blueprint_finalize",
            "Terminal: Rust assembles/validates Blueprint JSON from the draft.",
        ),
    );
    assert(crate::llm::tool_names(s).skip(1) =~= seq![
        "blueprint_begin"@,
        "blueprint_add_patch"@,
        "blueprint_add_create"@,
        "blueprint_add_tests"@,
        "blueprint_finalize"@,
    ]);
    proof {
        reveal_strlit("blueprint_begin");
        reveal_strlit("blueprint_add_patch");
        reveal_strlit("blueprint_add_create");
        reveal_strlit("blueprint_add_tests");
        reveal_strlit("blueprint_finalize");
        assert forall|i: int| 1 <= i < 6 implies (draft_terminal(#[trigger] crate::llm::tool_names(s)[i])
            <==> i == 5) by {
            assert(crate::llm::tool_names(s)[i] == crate::llm::tool_names(s).skip(1)[i - 1]);
            if i != 5 {
                assert(crate::llm::tool_names(s)[i][10] != "blueprint_finalize"@[10]);
            }
        }
    }
    s
}

/// The planner's emit tool set: `read_file` (given by the caller) and
/// `emit_blueprint`, which takes the whole Blueprint as a JSON string.
pub fn planner_emit_tool_set(coordinator: CoordinatorConstraints, read_file: ToolDefinition) -> (s:
    LlmToolSet)
    ensures
        s.tools@.len() == 2,
        s.tools@[0] == read_file,
        s.tools@[1].name@ == "emit_blueprint"@,
        crate::llm::param_names(s.tools@[1]) == seq!["blueprint"@],
{
    let emit = ToolDefinition::new(
        "emit_blueprint",
        "Emit the Blueprint as one JSON string; it is validated and a rejection comes back for a retry.",
    ).string_param("blueprint", "The Blueprint JSON", true);
    let s = LlmToolSet::new().register(read_file).register(emit);
    assert(crate::llm::param_names(s.tools@[1]) =~= seq!["blueprint"@]);
    s
}

/// The planner's scout tool set: the read-only tools it is given (they live
/// outside this library) and `extract_search_anchor`.
pub fn planner_scout_tool_set(read_only: LlmToolSet) -> (s: LlmToolSet)
    ensures
        crate::llm::tool_names(s) == crate::llm::tool_names(read_only).push("extract_search_anchor"@),
{
    let s = read_only.register(
        ToolDefinition::new(
            "extract_search_anchor",
            "Copies lines start..end of a file verbatim, as a SEARCH anchor for a patch hunk (at least 2 lines).",
        ).string_param("file", "Repo-relative file path", true).integer_param(
            "start",
            "First line (1-based)",
            true,
        ).integer_param("end", "Last line (inclusive)", true),
    );
    assert(crate::llm::tool_names(s) =~= crate::llm::tool_names(read_only).push("extract_search_anchor"@));
    s
}


// ---------------------------------------------------------------------------
// The draft tools
// ---------------------------------------------------------------------------

/// What a draft tool hands back: a note, or the finalized Blueprint.
pub enum DraftAnswer {
    Note(String),
    Blueprint(JsonValue),
}

/// `blueprint_finalize` is the draft tools' one terminal tool.
pub open spec fn draft_terminal(name: Seq<char>) -> bool {
    name == "blueprint_finalize"@
}

pub fn draft_tool_is_terminal(name: &str) -> (b: bool)
    ensures
        b == draft_terminal(name@),
{
    crate::text::str_eq(name, "blueprint_finalize")
}

/// The note of a draft call, as a result of texts (`None` for a Blueprint).
pub open spec fn note_result(r: Result<DraftAnswer, String>) -> Option<Result<Seq<char>, Seq<char>>> {
    match r {
        Ok(DraftAnswer::Note(n)) => Some(Ok(n@)),
        Ok(DraftAnswer::Blueprint(_)) => None,
        Err(e) => Some(Err(e@)),
    }
}

/// `blueprint_begin` with its two strings (see `BlueprintDraft::begin`).
pub open spec fn begin_effect(before: BlueprintDraft, after: BlueprintDraft, t: Seq<char>, a: Seq<char>, r: Option<
    Result<Seq<char>, Seq<char>>,
>) -> bool {
    if !is_kebab_case_spec(t) {
        r == Some(Err::<Seq<char>, Seq<char>>(
            "task_id must be kebab-case (lowercase, hyphen-separated), got: "@ + debug_str(t),
        )) && after == before
    } else if trim(a).len() == 0 {
        r == Some(Err::<Seq<char>, Seq<char>>("architecture_summary must not be empty"@)) && after == before
    } else {
        r == Some(Ok::<Seq<char>, Seq<char>>("draft begun task_id="@ + t)) && after.begun && after.task_id@ == t
            && after.architecture_summary@ == a && after.steps@.len() == 0
    }
}

/// `blueprint_add_patch` with its four strings and the target's content
/// (see `BlueprintDraft::add_patch`).
pub open spec fn patch_effect(
    before: BlueprintDraft,
    after: BlueprintDraft,
    tf: Seq<char>,
    g: Seq<char>,
    se: Seq<char>,
    re: Seq<char>,
    body: Result<Seq<char>, Seq<char>>,
    r: Option<Result<Seq<char>, Seq<char>>>,
) -> bool {
    if !before.begun {
        r == Some(Err::<Seq<char>, Seq<char>>(not_begun_msg())) && after == before
    } else {
        match patch_refusal(tf, g, se, re, body) {
            Some(m) => r == Some(Err::<Seq<char>, Seq<char>>(m)) && after == before,
            None => r == Some(Ok::<Seq<char>, Seq<char>>(queued_msg(after.steps@.len(), "patch_file"@, tf)))
                && after.begun == before.begun && after.task_id == before.task_id
                && after.architecture_summary == before.architecture_summary && steps_view(after.steps@)
                == steps_view(before.steps@).push(
                ("patch_file"@, tf, g, wrap_hunk_spec(unix_newlines(se), unix_newlines(re))),
            ),
        }
    }
}

/// `blueprint_add_create` with its three strings and whether the target
/// exists (see `BlueprintDraft::add_create`).
pub open spec fn create_effect(
    before: BlueprintDraft,
    after: BlueprintDraft,
    tf: Seq<char>,
    g: Seq<char>,
    c: Seq<char>,
    exists_now: bool,
    r: Option<Result<Seq<char>, Seq<char>>>,
) -> bool {
    if !before.begun {
        r == Some(Err::<Seq<char>, Seq<char>>(not_begun_msg())) && after == before
    } else {
        match create_refusal(tf, g, c, exists_now) {
            Some(m) => r == Some(Err::<Seq<char>, Seq<char>>(m)) && after == before,
            None => r == Some(Ok::<Seq<char>, Seq<char>>(queued_msg(after.steps@.len(), "create_file"@, tf)))
                && after.begun == before.begun && after.task_id == before.task_id
                && after.architecture_summary == before.architecture_summary && steps_view(after.steps@)
                == steps_view(before.steps@).push(("create_file"@, tf, g, c)),
        }
    }
}

/// `blueprint_add_tests` with its two strings (see `BlueprintDraft::add_tests`).
pub open spec fn tests_effect(
    before: BlueprintDraft,
    after: BlueprintDraft,
    tf: Seq<char>,
    g: Seq<char>,
    r: Option<Result<Seq<char>, Seq<char>>>,
) -> bool {
    if !before.begun {
        r == Some(Err::<Seq<char>, Seq<char>>(not_begun_msg())) && after == before
    } else if !goal_has_line_citation_spec(g) {
        r == Some(Err::<Seq<char>, Seq<char>>(
            "goal must cite path:line (e.g. tests/foo_test.rs:1 or src/foo.rs:10)"@,
        )) && after == before
    } else {
        r == Some(Ok::<Seq<char>, Seq<char>>(queued_msg(after.steps@.len(), "generate_tests"@, tf)))
            && after.begun == before.begun && after.task_id == before.task_id
            && after.architecture_summary == before.architecture_summary && steps_view(after.steps@)
            == steps_view(before.steps@).push(("generate_tests"@, tf, g, seq![]))
    }
}

/// `blueprint_finalize` (see `BlueprintDraft::finalize`): the draft's JSON,
/// validated.
pub open spec fn finalize_effect(
    d: BlueprintDraft,
    coordinator: CoordinatorConstraints,
    files: Seq<(String, String)>,
    r: Result<DraftAnswer, String>,
) -> bool {
    if !d.begun {
        r matches Err(e) && e@ == not_begun_msg()
    } else if d.steps@.len() == 0 {
        r matches Err(e) && e@ == "pipeline empty — call blueprint_add_patch / add_create / add_tests"@
    } else {
        exists|v: JsonValue|
            #![trigger is_draft_json(v, d)]
            is_draft_json(v, d) && match r {
                Ok(DraftAnswer::Blueprint(w)) => w == v && finalize_verdict(v, files, coordinator) is Ok,
                Ok(DraftAnswer::Note(_)) => false,
                Err(e) => finalize_verdict(v, files, coordinator) == Err::<(), Seq<char>>(e@),
            }
    }
}

pub open spec fn missing_arg(r: Option<Result<Seq<char>, Seq<char>>>, key: Seq<char>) -> bool {
    r == Some(Err::<Seq<char>, Seq<char>>(crate::json::not_a_string_msg(key)))
}

/// What a call of a draft tool does: its string arguments are read in order
/// (the first one missing is the error, and the draft is unchanged), then the
/// draft method runs on them. `body` is the content of the patched file (or
/// why it could not be read), `exists_now` whether a created file exists, and
/// `files` the workspace files the Blueprint is checked against.
pub open spec fn draft_tool_effect(
    before: BlueprintDraft,
    after: BlueprintDraft,
    coordinator: CoordinatorConstraints,
    files: Seq<(String, String)>,
    name: Seq<char>,
    args: JsonValue,
    body: Result<Seq<char>, Seq<char>>,
    exists_now: bool,
    r: Result<DraftAnswer, String>,
) -> bool {
    let nr = note_result(r);
    let arg = |k: Seq<char>| crate::json::get_str(args, k);
    if name == "blueprint_begin"@ {
        match (arg("task_id"@), arg("architecture_summary"@)) {
            (None, _) => missing_arg(nr, "task_id"@) && after == before,
            (Some(_), None) => missing_arg(nr, "architecture_summary"@) && after == before,
            (Some(t), Some(a)) => begin_effect(before, after, t, a, nr),
        }
    } else if name == "blueprint_add_patch"@ {
        match (arg("target_file"@), arg("goal"@), arg("search"@), arg("replace"@)) {
            (None, _, _, _) => missing_arg(nr, "target_file"@) && after == before,
            (Some(_), None, _, _) => missing_arg(nr, "goal"@) && after == before,
            (Some(_), Some(_), None, _) => missing_arg(nr, "search"@) && after == before,
            (Some(_), Some(_), Some(_), None) => missing_arg(nr, "replace"@) && after == before,
            (Some(tf), Some(g), Some(se), Some(re)) => patch_effect(before, after, tf, g, se, re, body, nr),
        }
    } else if name == "blueprint_add_create"@ {
        match (arg("target_file"@), arg("goal"@), arg("contents"@)) {
            (None, _, _) => missing_arg(nr, "target_file"@) && after == before,
            (Some(_), None, _) => missing_arg(nr, "goal"@) && after == before,
            (Some(_), Some(_), None) => missing_arg(nr, "contents"@) && after == before,
            (Some(tf), Some(g), Some(c)) => create_effect(before, after, tf, g, c, exists_now, nr),
        }
    } else if name == "blueprint_add_tests"@ {
        match (arg("target_file"@), arg("goal"@)) {
            (None, _) => missing_arg(nr, "target_file"@) && after == before,
            (Some(_), None) => missing_arg(nr, "goal"@) && after == before,
            (Some(tf), Some(g)) => tests_effect(before, after, tf, g, nr),
        }
    } else if name == "blueprint_finalize"@ {
        after == before && finalize_effect(before, coordinator, files, r)
    } else {
        nr == Some(Err::<Seq<char>, Seq<char>>("not a draft tool: "@ + name)) && after == before
    }
}

fn note(r: Result<String, String>) -> (a: Result<DraftAnswer, String>)
    ensures
        note_result(a) == Some(result_view(r)),
{
    match r {
        Ok(n) => Ok(DraftAnswer::Note(n)),
        Err(e) => Err(e),
    }
}

/// Runs a call of a draft tool on the draft (see `draft_tool_effect`).
pub fn draft_tool_invoke(
    draft: &mut BlueprintDraft,
    coordinator: &CoordinatorConstraints,
    files: &WorkspaceFiles,
    name: &str,
    args: &JsonValue,
    body: Result<String, String>,
    exists_now: bool,
) -> (r: Result<DraftAnswer, String>)
    requires
        old(draft).steps@.len() < i64::MAX,
    ensures
        draft_tool_effect(
            *old(draft),
            *final(draft),
            *coordinator,
            files.files@,
            name@,
            *args,
            result_view(body),
            exists_now,
            r,
        ),
{
    if crate::text::str_eq(name, "blueprint_begin") {
        let t = match crate::json::required_str(args, "task_id") {
            Ok(x) => x,
            Err(e) => {
                return Err(e);
            },
        };
        let a = match crate::json::required_str(args, "architecture_summary") {
            Ok(x) => x,
            Err(e) => {
                return Err(e);
            },
        };
        let shown = t.clone();
        match draft.begin(t, a) {
            Ok(()) => {
                let mut n = "draft begun task_id=".to_owned();
                n.append(shown.as_str());
                Ok(DraftAnswer::Note(n))
            },
            Err(e) => Err(e),
        }
    } else if crate::text::str_eq(name, "blueprint_add_patch") {
        let tf = match crate::json::required_str(args, "target_file") {
            Ok(x) => x,
            Err(e) => {
                return Err(e);
            },
        };
        let g = match crate::json::required_str(args, "goal") {
            Ok(x) => x,
            Err(e) => {
                return Err(e);
            },
        };
        let se = match crate::json::required_str(args, "search") {
            Ok(x) => x,
            Err(e) => {
                return Err(e);
            },
        };
        let re = match crate::json::required_str(args, "replace") {
            Ok(x) => x,
            Err(e) => {
                return Err(e);
            },
        };
        note(draft.add_patch(tf, g, se, re, body))
    } else if crate::text::str_eq(name, "blueprint_add_create") {
        let tf = match crate::json::required_str(args, "target_file") {
            Ok(x) => x,
            Err(e) => {
                return Err(e);
            },
        };
        let g = match crate::json::required_str(args, "goal") {
            Ok(x) => x,
            Err(e) => {
                return Err(e);
            },
        };
        let c = match crate::json::required_str(args, "contents") {
            Ok(x) => x,
            Err(e) => {
                return Err(e);
            },
        };
        note(draft.add_create(tf, g, c, exists_now))
    } else if crate::text::str_eq(name, "blueprint_add_tests") {
        let tf = match crate::json::required_str(args, "target_file") {
            Ok(x) => x,
            Err(e) => {
                return Err(e);
            },
        };
        let g = match crate::json::required_str(args, "goal") {
            Ok(x) => x,
            Err(e) => {
                return Err(e);
            },
        };
        note(draft.add_tests(tf, g))
    } else if crate::text::str_eq(name, "blueprint_finalize") {
        match draft.finalize(coordinator, files) {
            Ok(v) => Ok(DraftAnswer::Blueprint(v)),
            Err(e) => Err(e),
        }
    } else {
        let mut e = "not a draft tool: ".to_owned();
        e.append(name);
        Err(e)
    }
}

/// No line of `ls` is exactly `x`.
pub open spec fn no_line_equals(ls: Seq<Seq<char>>, x: Seq<char>) -> bool {
    forall|i: int| 0 <= i < ls.len() ==> ls[i] != x
}

proof fn lemma_first_eq_at(ls: Seq<Seq<char>>, x: Seq<char>, from: int, t: int)
    requires
        0 <= from <= t < ls.len(),
        ls[t] == x,
        forall|i: int| from <= i < t ==> ls[i] != x,
    ensures
        crate::hunks::first_eq(ls, x, from) == Some(t),
    decreases t - from,
{
    if from < t {
        lemma_first_eq_at(ls, x, from + 1, t);
    }
}

/// A wrapped hunk reads back as one hunk: the hunk `blueprint_add_patch` writes for
/// `search`/`replace` is the hunk the blueprint validator parses, its bodies being the
/// lines of each text (trailing newlines dropped, one restored), each followed by a
/// newline — provided no search line is the separator and no replace line the end marker.
pub proof fn lemma_wrapped_hunk_round_trip(search: Seq<char>, replace: Seq<char>)
    requires
        no_line_equals(
            crate::text::lines(crate::git_janitor::trim_end_char(search, '\n') + "\n"@),
            HUNK_SEPARATOR@,
        ),
        no_line_equals(
            crate::text::lines(crate::git_janitor::trim_end_char(replace, '\n') + "\n"@),
            HUNK_REPLACE_END@,
        ),
    ensures
        crate::hunks::parse_hunks_spec(wrap_hunk_spec(search, replace)) == Ok::<
            Seq<(Seq<char>, Seq<char>)>,
            Seq<char>,
        >(
            seq![
                (
                    crate::hunks::with_newlines(
                        crate::text::lines(crate::git_janitor::trim_end_char(search, '\n') + "\n"@),
                    ),
                    crate::hunks::with_newlines(
                        crate::text::lines(crate::git_janitor::trim_end_char(replace, '\n') + "\n"@),
                    ),
                ),
            ],
        ),
{
    reveal_strlit("<<<<<<< SEARCH");
    reveal_strlit("=======");
    reveal_strlit(">>>>>>> REPLACE");
    reveal_strlit("\n");
    let ts = crate::git_janitor::trim_end_char(search, '\n');
    let tr = crate::git_janitor::trim_end_char(replace, '\n');
    let st = HUNK_SEARCH_START@;
    let sep = HUNK_SEPARATOR@;
    let end = HUNK_REPLACE_END@;
    let nl = "\n"@;
    let a = st + nl;
    let b = ts + nl;
    let c = sep + nl;
    let d = tr + nl;
    let w = wrap_hunk_spec(search, replace);
    assert(w =~= a + (b + (c + (d + end))));
    crate::text::lemma_one_line(st);
    crate::text::lemma_one_line(sep);
    crate::text::lemma_newline_closes(ts);
    crate::text::lemma_newline_closes(tr);
    crate::text::lemma_lines_fold_no_newline(end);
    crate::text::lemma_lines_append(a, b + (c + (d + end)));
    crate::text::lemma_lines_append(b, c + (d + end));
    crate::text::lemma_lines_append(c, d + end);
    crate::text::lemma_lines_append(d, end);
    let lb = crate::text::lines(b);
    let ld = crate::text::lines(d);
    assert(crate::text::strip_cr(st) == st);
    assert(crate::text::strip_cr(sep) == sep);
    assert(crate::text::lines(end) == seq![end]);
    let ls = crate::text::lines(w);
    assert(ls =~= seq![st] + (lb + (seq![sep] + (ld + seq![end]))));
    let j: int = 1 + lb.len() as int;
    let k: int = j + 1 + ld.len() as int;
    assert(ls.len() == k + 1);
    assert(ls[0] == st);
    assert(ls[j] == sep);
    assert(ls[k] == end);
    assert forall|i: int| 1 <= i < j implies ls[i] != sep by {
        assert(ls[i] == lb[i - 1]);
    }
    assert forall|i: int| j + 1 <= i < k implies ls[i] != end by {
        assert(ls[i] == ld[i - j - 1]);
    }
    lemma_first_eq_at(ls, sep, 1, j);
    lemma_first_eq_at(ls, end, j + 1, k);
    assert(ls.subrange(1, j) =~= lb);
    assert(ls.subrange(j + 1, k) =~= ld);
    assert(crate::hunks::hunks_from(ls, k + 1) == Ok::<Seq<(Seq<char>, Seq<char>)>, Seq<char>>(
        seq![],
    ));
    assert(crate::hunks::is_start_line(ls[0]));
    assert(crate::hunks::hunks_from(ls, 0) == Ok::<Seq<(Seq<char>, Seq<char>)>, Seq<char>>(
        seq![(crate::hunks::with_newlines(lb), crate::hunks::with_newlines(ld))] + seq![],
    ));
    assert(seq![(crate::hunks::with_newlines(lb), crate::hunks::with_newlines(ld))] + seq![] =~= seq![
        (crate::hunks::with_newlines(lb), crate::hunks::with_newlines(ld)),
    ]);
}

} // verus!
