//! The test-builder agent's rules: where a test file may be written, what
//! counts as test source, the scout queries it sends, and its tool set.
use vstd::prelude::*;

use crate::json::{get, get_array, get_str, required_str, JsonValue};
use crate::llm::{LlmToolSet, ToolDefinition};
use crate::paths::{extension, extension_exec, file_name, file_name_exec, has_parent_dir, is_absolute, pieces};
use crate::text::{
    byte_len, chars_of, contains, decimal, fmt_usize, join, join_strings, lower_ascii,
    lower_ascii_exec, replace, split_once, split_once_exec, starts_with, starts_with_exec,
    str_contains, str_eq, str_replace, string_of, string_views, trim, trim_exec, utf8_len,
};
use crate::text::{is_ws, strip_cr, trim_end, trim_start};

verus! {

/// Consecutive turns without a tool call after which the builder gives up.
pub const EMPTY_TOOL_TURN_LIMIT: u32 = 3;

/// Largest test file, in bytes, that `write_test_suite` accepts.
pub const MAX_TEST_CONTENT_CHARS: usize = 24000;

// ---------------------------------------------------------------------------
// Output path
// ---------------------------------------------------------------------------

/// `PathBuf::join` of a relative path onto a root.
pub open spec fn join_path(root: Seq<char>, rel: Seq<char>) -> Seq<char> {
    if root.len() == 0 {
        rel
    } else if root.last() == '/' {
        root + rel
    } else {
        root + seq!['/'] + rel
    }
}

pub open spec fn escapes_root_msg() -> Seq<char> {
    "test output path must stay under project root"@
}

pub open spec fn shared_suite_msg() -> Seq<char> {
    "refusing to overwrite tests/cache_manager_tests.rs — write a new file under tests/"@
}

/// Where a generated test file goes: under the project root, never through
/// `..` or an absolute path, and never onto the shared cache-manager suite.
pub open spec fn test_output_path_spec(root: Seq<char>, path: Seq<char>) -> Result<
    Seq<char>,
    Seq<char>,
> {
    if is_absolute(path) || has_parent_dir(path) {
        Err(escapes_root_msg())
    } else if file_name(path) == Some("cache_manager_tests.rs"@) {
        Err(shared_suite_msg())
    } else {
        Ok(join_path(root, path))
    }
}

/// Does any piece equal `..`?
pub(crate) fn has_parent_dir_exec(p: &[char]) -> (b: bool)
    ensures
        b == has_parent_dir(p@),
{
    let ps = crate::text::split_char_exec(p, '/');
    let dd: Vec<char> = vec!['.', '.'];
    let mut i: usize = 0;
    while i < ps.len()
        invariant
            i <= ps@.len(),
            crate::text::views(ps@) == pieces(p@),
            dd@ == seq!['.', '.'],
            forall|j: int| 0 <= j < i ==> pieces(p@)[j] != seq!['.', '.'],
        decreases ps.len() - i,
    {
        assert(pieces(p@)[i as int] == ps@[i as int]@);
        if ps[i].len() == 2 && ps[i][0] == '.' && ps[i][1] == '.' {
            assert(ps@[i as int]@ =~= seq!['.', '.']);
            return true;
        }
        assert(ps@[i as int]@ != seq!['.', '.']) by {
            if ps@[i as int]@ == seq!['.', '.'] {
                assert(ps@[i as int]@.len() == 2);
            }
        }
        i = i + 1;
    }
    false
}

/// Resolves a model-chosen test path against the project root.
pub fn resolve_test_output_path(project_root: &str, path: &str) -> (r: Result<String, String>)
    ensures
        match r {
            Ok(p) => test_output_path_spec(project_root@, path@) == Ok::<Seq<char>, Seq<char>>(
                p@,
            ),
            Err(e) => test_output_path_spec(project_root@, path@) == Err::<Seq<char>, Seq<char>>(
                e@,
            ),
        },
{
    let p = chars_of(path);
    if (p.len() > 0 && p[0] == '/') || has_parent_dir_exec(p.as_slice()) {
        return Err("test output path must stay under project root".to_owned());
    }
    let shared = chars_of("cache_manager_tests.rs");
    match file_name_exec(p.as_slice()) {
        Some(name) => {
            if crate::text::matches_at_exec(name.as_slice(), shared.as_slice(), 0) && name.len()
                == shared.len() {
                assert(name@ =~= "cache_manager_tests.rs"@);
                return Err(
                    "refusing to overwrite tests/cache_manager_tests.rs — write a new file under tests/".to_owned(),
                );
            }
            assert(name@ != "cache_manager_tests.rs"@) by {
                if name@ == "cache_manager_tests.rs"@ {
                    assert(name@.subrange(0, shared@.len() as int) =~= name@);
                }
            }
        },
        None => {},
    }
    let root = chars_of(project_root);
    let mut out = project_root.to_owned();
    if root.len() > 0 && root[root.len() - 1] != '/' {
        crate::text::push_char(&mut out, '/');
    }
    out.append(path);
    proof {
        if root@.len() > 0 {
            assert(root@.last() == root@[root.len() - 1]);
        }
        if root@.len() > 0 && root@.last() != '/' {
            assert(project_root@.push('/') =~= project_root@ + seq!['/']);
        }
        assert(out@ =~= join_path(project_root@, path@));
    }
    Ok(out)
}

// ---------------------------------------------------------------------------
// Turns without a tool call
// ---------------------------------------------------------------------------

pub open spec fn empty_turn_note(thought: Seq<char>) -> Seq<char> {
    if thought.len() == 0 {
        "Observation:\n(model returned no tool call — call write_test_suite with path under tests/ and content)\n"@
    } else {
        "Thought:\n"@ + thought
            + "\nObservation:\n(model did not call a tool — call write_test_suite with path under tests/ and content)\n"@
    }
}

pub open spec fn builder_fail_evidence() -> Seq<char> {
    "\n[BUILDER FAIL EVIDENCE]\nno tool calls for 3 consecutive turns\nno GREEN\n"@
}

/// Records a model turn without a tool call: a nudge goes into the
/// observations and the counter grows; on the limit-th such turn the fail
/// evidence is appended too and `true` tells the caller to finish.
pub fn record_empty_tool_turn(accumulated: &mut String, thought: &str, consecutive_empty: &mut u32) -> (done:
    bool)
    requires
        *old(consecutive_empty) < u32::MAX,
    ensures
        *final(consecutive_empty) == *old(consecutive_empty) + 1,
        done == (*final(consecutive_empty) >= EMPTY_TOOL_TURN_LIMIT),
        final(accumulated)@ == old(accumulated)@ + empty_turn_note(thought@) + (if done {
            builder_fail_evidence()
        } else {
            seq![]
        }),
{
    if thought.is_empty() {
        accumulated.append(
            "Observation:\n(model returned no tool call — call write_test_suite with path under tests/ and content)\n",
        );
    } else {
        accumulated.append("Thought:\n");
        accumulated.append(thought);
        accumulated.append(
            "\nObservation:\n(model did not call a tool — call write_test_suite with path under tests/ and content)\n",
        );
    }
    *consecutive_empty = *consecutive_empty + 1;
    if *consecutive_empty < EMPTY_TOOL_TURN_LIMIT {
        return false;
    }
    accumulated.append("\n[BUILDER FAIL EVIDENCE]\nno tool calls for 3 consecutive turns\nno GREEN\n");
    true
}

// ---------------------------------------------------------------------------
// Test content
// ---------------------------------------------------------------------------

/// `s` starts with the literal `lit`.
fn starts_lit(s: &[char], lit: &str) -> (b: bool)
    ensures
        b == starts_with(s@, lit@),
{
    let p = chars_of(lit);
    starts_with_exec(s, p.as_slice())
}

/// `s` contains the literal `lit`.
fn contains_lit(s: &[char], lit: &str) -> (b: bool)
    ensures
        b == contains(s@, lit@),
{
    let p = chars_of(lit);
    crate::text::contains_exec(s, p.as_slice())
}

/// The path's extension, or nothing.
pub open spec fn ext_or_empty(path: Seq<char>) -> Seq<char> {
    match extension(path) {
        Some(e) => e,
        None => seq![],
    }
}

/// Narrative openings that mark prose rather than a test file (on the
/// ASCII-lowercased, trimmed text). `# ` is a Python comment, so it only
/// counts outside `.py` files.
pub open spec fn looks_like_markdown(lower: Seq<char>, ext: Seq<char>) -> bool {
    ||| starts_with(lower, "**"@)
    ||| starts_with(lower, "## "@)
    ||| (ext != "py"@ && starts_with(lower, "# "@))
    ||| starts_with(lower, "the triage results"@)
    ||| starts_with(lower, "i will now"@)
    ||| starts_with(lower, "thought:"@)
    ||| starts_with(lower, "rationale:"@)
    ||| starts_with(lower, "status: green"@)
    ||| starts_with(lower, "status: red"@)
    ||| starts_with(lower, "previous triage"@)
    ||| starts_with(lower, "the previous tdd"@)
    ||| starts_with(lower, "build & test command"@)
}

/// The markers a test file of a known language must show.
pub open spec fn looks_like_code(t: Seq<char>, ext: Seq<char>) -> bool {
    if ext == "ts"@ || ext == "tsx"@ || ext == "js"@ || ext == "jsx"@ {
        contains(t, "import "@) || contains(t, "describe("@) || contains(t, "it("@) || contains(
            t,
            "test("@,
        ) || contains(t, "export "@)
    } else if ext == "rs"@ {
        contains(t, "#[test]"@) || contains(t, "fn "@) || contains(t, "mod "@) || contains(
            t,
            "use "@,
        )
    } else if ext == "py"@ {
        contains(t, "def test"@) || contains(t, "import "@) || contains(t, "from "@)
    } else {
        true
    }
}

pub open spec fn oversize_msg(n: nat) -> Seq<char> {
    "write_test_suite content is "@ + decimal(n) + " chars (max 24000); shrink the file"@
}

pub open spec fn empty_content_msg() -> Seq<char> {
    "write_test_suite content is empty"@
}

pub open spec fn prose_msg() -> Seq<char> {
    "write_test_suite content must be source code only — no markdown/prose narrative"@
}

pub open spec fn not_code_msg(path: Seq<char>, ext: Seq<char>) -> Seq<char> {
    "write_test_suite content for `"@ + path + "` does not look like "@ + ext
        + " source (missing imports/tests)"@
}

/// What `write_test_suite` accepts as a test file: at most the byte limit,
/// not blank, not prose, and (for known languages) showing code markers.
pub open spec fn test_content_verdict(content: Seq<char>, path: Seq<char>) -> Result<(), Seq<char>> {
    let n = utf8_len(content);
    let t = trim(content);
    let ext = ext_or_empty(path);
    if n > MAX_TEST_CONTENT_CHARS {
        Err(oversize_msg(n))
    } else if t.len() == 0 {
        Err(empty_content_msg())
    } else if looks_like_markdown(lower_ascii(t), ext) {
        Err(prose_msg())
    } else if !looks_like_code(t, ext) {
        Err(not_code_msg(path, ext))
    } else {
        Ok(())
    }
}

fn markdown_exec(lower: &[char], ext_is_py: bool) -> (b: bool)
    ensures
        b == ({
            ||| starts_with(lower@, "**"@)
        ||| starts_with(lower@, "## "@)
        ||| (!ext_is_py && starts_with(lower@, "# "@))
        ||| starts_with(lower@, "the triage results"@)
        ||| starts_with(lower@, "i will now"@)
        ||| starts_with(lower@, "thought:"@)
        ||| starts_with(lower@, "rationale:"@)
        ||| starts_with(lower@, "status: green"@)
        ||| starts_with(lower@, "status: red"@)
        ||| starts_with(lower@, "previous triage"@)
        ||| starts_with(lower@, "the previous tdd"@)
        ||| starts_with(lower@, "build & test command"@)
        }),
{
    starts_lit(lower, "**") || starts_lit(lower, "## ") || (!ext_is_py && starts_lit(lower, "# "))
        || starts_lit(lower, "the triage results") || starts_lit(lower, "i will now")
        || starts_lit(lower, "thought:") || starts_lit(lower, "rationale:") || starts_lit(
        lower,
        "status: green",
    ) || starts_lit(lower, "status: red") || starts_lit(lower, "previous triage") || starts_lit(
        lower,
        "the previous tdd",
    ) || starts_lit(lower, "build & test command")
}

/// Checks a generated test file before it is written.
pub fn validate_test_content(content: &str, path: &str) -> (r: Result<(), String>)
    ensures
        match r {
            Ok(()) => test_content_verdict(content@, path@) is Ok,
            Err(e) => test_content_verdict(content@, path@) == Err::<(), Seq<char>>(e@),
        },
{
    let n = byte_len(content);
    if n > MAX_TEST_CONTENT_CHARS {
        let mut m = "write_test_suite content is ".to_owned();
        let d = fmt_usize(n);
        m.append(d.as_str());
        m.append(" chars (max 24000); shrink the file");
        return Err(m);
    }
    let c = chars_of(content);
    let t = trim_exec(c.as_slice());
    if t.len() == 0 {
        return Err("write_test_suite content is empty".to_owned());
    }
    let lower = lower_ascii_exec(t.as_slice());
    let p = chars_of(path);
    let ext: String = match extension_exec(p.as_slice()) {
        Some(e) => string_of(e.as_slice()),
        None => String::new(),
    };
    assert(ext@ == ext_or_empty(path@));
    let e = ext.as_str();
    if markdown_exec(lower.as_slice(), str_eq(e, "py")) {
        return Err(
            "write_test_suite content must be source code only — no markdown/prose narrative".to_owned(),
        );
    }
    let ts = t.as_slice();
    let code = if str_eq(e, "ts") || str_eq(e, "tsx") || str_eq(e, "js") || str_eq(e, "jsx") {
        contains_lit(ts, "import ") || contains_lit(ts, "describe(") || contains_lit(ts, "it(")
            || contains_lit(ts, "test(") || contains_lit(ts, "export ")
    } else if str_eq(e, "rs") {
        contains_lit(ts, "#[test]") || contains_lit(ts, "fn ") || contains_lit(ts, "mod ")
            || contains_lit(ts, "use ")
    } else if str_eq(e, "py") {
        contains_lit(ts, "def test") || contains_lit(ts, "import ") || contains_lit(ts, "from ")
    } else {
        true
    };
    if !code {
        let mut m = "write_test_suite content for `".to_owned();
        m.append(path);
        m.append("` does not look like ");
        m.append(e);
        m.append(" source (missing imports/tests)");
        return Err(m);
    }
    Ok(())
}

/// `str::trim_end_matches(pat)`: drops every trailing copy of `pat`.
pub open spec fn trim_end_matches(s: Seq<char>, pat: Seq<char>) -> Seq<char>
    decreases s.len(),
{
    if pat.len() > 0 && crate::text::ends_with(s, pat) {
        trim_end_matches(s.subrange(0, s.len() - pat.len()), pat)
    } else {
        s
    }
}

fn trim_end_matches_exec(s: &[char], pat: &[char]) -> (r: Vec<char>)
    ensures
        r@ == trim_end_matches(s@, pat@),
{
    let mut k: usize = s.len();
    assert(s@.subrange(0, k as int) =~= s@);
    while pat.len() > 0 && k >= pat.len() && crate::text::ends_with_exec(
        crate::text::copy_range(s, 0, k).as_slice(),
        pat,
    )
        invariant
            k <= s@.len(),
            trim_end_matches(s@, pat@) == trim_end_matches(s@.subrange(0, k as int), pat@),
        decreases k,
    {
        assert(s@.subrange(0, k as int).subrange(0, k - pat@.len()) =~= s@.subrange(
            0,
            k - pat@.len(),
        ));
        k = k - pat.len();
    }
    proof {
        if pat@.len() > 0 && k < pat@.len() {
            assert(!crate::text::ends_with(s@.subrange(0, k as int), pat@));
        }
    }
    crate::text::copy_range(s, 0, k)
}

/// What a test file body becomes when a code fence wraps it: the fence
/// lines are dropped, the body trimmed, and `\'` turned into `"`.
pub open spec fn strip_code_fences_spec(text: Seq<char>) -> Seq<char> {
    let t = trim(text);
    let body = if starts_with(t, "```"@) {
        let rest = t.subrange(3, t.len() as int);
        let after = match split_once(rest, seq!['\n']) {
            Some((_, b)) => b,
            None => rest,
        };
        trim(trim_end_matches(after, "```"@))
    } else {
        t
    };
    replace(body, "\\'"@, "\""@)
}

/// Removes a Markdown code fence around a test file body.
pub fn strip_code_fences(text: &str) -> (r: String)
    ensures
        r@ == strip_code_fences_spec(text@),
{
    proof {
        reveal_strlit("```");
        reveal_strlit("\\'");
    }
    let c = chars_of(text);
    let t = trim_exec(c.as_slice());
    let body: Vec<char> = if starts_lit(t.as_slice(), "```") {
        let rest = crate::text::copy_range(t.as_slice(), 3, t.len());
        assert(rest@ == t@.subrange(3, t@.len() as int));
        let mut nl: Vec<char> = Vec::new();
        nl.push('\n');
        assert(nl@ =~= seq!['\n']);
        let after = match split_once_exec(rest.as_slice(), nl.as_slice()) {
            Some((_, b)) => b,
            None => rest,
        };
        let fence = chars_of("```");
        let stripped = trim_end_matches_exec(after.as_slice(), fence.as_slice());
        assert(after@ == match split_once(rest@, seq!['\n']) {
            Some((_, b)) => b,
            None => rest@,
        });
        trim_exec(stripped.as_slice())
    } else {
        t
    };
    assert(body@ == (if starts_with(t@, "```"@) {
        let rest = t@.subrange(3, t@.len() as int);
        let after = match split_once(rest, seq!['\n']) {
            Some((_, b)) => b,
            None => rest,
        };
        trim(trim_end_matches(after, "```"@))
    } else {
        t@
    }));
    let b = string_of(body.as_slice());
    str_replace(b.as_str(), "\\'", "\"")
}

pub open spec fn missing_content_msg() -> Seq<char> {
    "write_test_suite requires non-empty tool argument 'content'"@
}

/// The test file body from `write_test_suite` arguments: the `content`
/// argument, trimmed and unfenced. The assistant's own message is never
/// used as the body.
pub fn extract_test_content(content: Option<&str>, arguments: &JsonValue) -> (r: Result<
    String,
    String,
>)
    ensures
        match get_str(*arguments, "content"@) {
            Some(t) => if trim(t).len() > 0 {
                r matches Ok(s) && s@ == strip_code_fences_spec(trim(t))
            } else {
                r matches Err(e) && e@ == missing_content_msg()
            },
            None => r matches Err(e) && e@ == missing_content_msg(),
        },
{
    match crate::json::get_str_exec(arguments, "content") {
        Some(text) => {
            let t = crate::text::str_trim(text);
            if !t.as_str().is_empty() {
                return Ok(strip_code_fences(t.as_str()));
            }
        },
        None => {},
    }
    Err("write_test_suite requires non-empty tool argument 'content'".to_owned())
}

// ---------------------------------------------------------------------------
// Scout queries and tools
// ---------------------------------------------------------------------------

pub open spec fn integration_query_spec(components: Seq<Seq<char>>) -> Seq<char> {
    "PHASE_1_SCOUT\n\nRead `tests/cache_manager_tests.rs` and `tests/common/mod.rs` first for integration-test setup patterns.\nThen explore integration tests covering components:\n"@
        + join(components, ", "@)
        + "\n\nUse ripgrep, ast_calls, and read_file to collect method signatures, file paths, dependencies, and call examples. Finish with a finalize report."@
}

/// The scout request that gathers context for an integration test.
pub fn build_scout_integration_query(components: &[String]) -> (q: String)
    ensures
        q@ == integration_query_spec(string_views(components@)),
{
    let mut q = "PHASE_1_SCOUT\n\nRead `tests/cache_manager_tests.rs` and `tests/common/mod.rs` first for integration-test setup patterns.\nThen explore integration tests covering components:\n".to_owned();
    let list = join_strings(components, ", ");
    q.append(list.as_str());
    q.append(
        "\n\nUse ripgrep, ast_calls, and read_file to collect method signatures, file paths, dependencies, and call examples. Finish with a finalize report.",
    );
    q
}

pub open spec fn factory_query_spec(target_struct: Seq<char>, target_file: Seq<char>) -> Seq<char> {
    "PHASE_1_SCOUT\n\nPrepare a factory/fixture/builder template for type `"@ + target_struct
        + "` based on file `"@ + target_file
        + "`.\n\nDetect the language (detect_language), read the type definition (read_file, ast_calls), and return an idiomatic test fixture pattern for that stack (fluent builder, object mother, factory method — depending on language conventions). Do not assume a specific language up front. Finish with a finalize report."@
}

/// The integration scout query is a scout request that names the components
/// (joined by `, `), points at the cache manager tests for setup patterns, and
/// asks for a finalize report.
pub proof fn integration_query_names_components(components: Seq<Seq<char>>)
    ensures
        starts_with(integration_query_spec(components), "PHASE_1_SCOUT\n\n"@),
        contains(integration_query_spec(components), join(components, ", "@)),
        contains(integration_query_spec(components), "tests/cache_manager_tests.rs"@),
        contains(integration_query_spec(components), "finalize"@),
{
    let a = "PHASE_1_SCOUT\n\nRead `tests/cache_manager_tests.rs` and `tests/common/mod.rs` first for integration-test setup patterns.\nThen explore integration tests covering components:\n"@;
    let b = "\n\nUse ripgrep, ast_calls, and read_file to collect method signatures, file paths, dependencies, and call examples. Finish with a finalize report."@;
    reveal_strlit("PHASE_1_SCOUT\n\nRead `tests/cache_manager_tests.rs` and `tests/common/mod.rs` first for integration-test setup patterns.\nThen explore integration tests covering components:\n");
    reveal_strlit("\n\nUse ripgrep, ast_calls, and read_file to collect method signatures, file paths, dependencies, and call examples. Finish with a finalize report.");
    reveal_strlit("PHASE_1_SCOUT\n\n");
    reveal_strlit("tests/cache_manager_tests.rs");
    reveal_strlit("finalize");
    let j = join(components, ", "@);
    let q = integration_query_spec(components);
    assert(q =~= a + j + b);
    assert(a.len() == 172);
    assert(b.len() == 145);
    assert(q.subrange(0, 15) =~= "PHASE_1_SCOUT\n\n"@);
    assert(q.subrange(172, 172int + j.len()) =~= j);
    assert(crate::text::matches_at(q, j, 172));
    assert(q.subrange(21, 49) =~= "tests/cache_manager_tests.rs"@);
    assert(crate::text::matches_at(q, "tests/cache_manager_tests.rs"@, 21));
    let f: int = 172int + j.len() + 129int;
    assert(q.subrange(f, f + 8) =~= "finalize"@);
    assert(crate::text::matches_at(q, "finalize"@, f));
}

/// The scout request that drafts a test factory for a type.
pub fn build_scout_factory_query(target_struct: &str, target_file: &str) -> (q: String)
    ensures
        q@ == factory_query_spec(target_struct@, target_file@),
{
    let mut q = "PHASE_1_SCOUT\n\nPrepare a factory/fixture/builder template for type `".to_owned();
    q.append(target_struct);
    q.append("` based on file `");
    q.append(target_file);
    q.append(
        "`.\n\nDetect the language (detect_language), read the type definition (read_file, ast_calls), and return an idiomatic test fixture pattern for that stack (fluent builder, object mother, factory method — depending on language conventions). Do not assume a specific language up front. Finish with a finalize report.",
    );
    q
}

/// The builder's tools, in the order the model sees them.
pub fn builder_tool_set() -> (s: LlmToolSet)
    ensures
        crate::llm::tool_names(s) == seq![
            "gather_integration_context"@,
            "generate_test_factory"@,
            "write_test_suite"@,
        ],
{
    let s = LlmToolSet::new().register(
        ToolDefinition::new(
            "gather_integration_context",
            "Runs a Scout sub-agent (ripgrep, AST, read_file) to collect signatures and files needed for an integration test. ALWAYS call this before writing an integration test.",
        ).string_array_param(
            "components",
            "Np. ['auth::middleware', 'db::UserRepository']",
            true,
        ),
    ).register(
        ToolDefinition::new(
            "generate_test_factory",
            "Runs a Scout sub-agent to produce an idiomatic factory/fixture pattern for a type from a source file (language agnostic).",
        ).string_param("target_struct", "Target struct name.", true).string_param(
            "target_file",
            "Source file path.",
            true,
        ),
    ).register(
        ToolDefinition::new(
            "write_test_suite",
            "Writes the generated test suite to disk. Pass ONLY valid source code in `content` (no markdown/prose). Prefer co-located `*.test.ts(x)` or a new file under `tests/`.",
        ).string_param("path", "Destination test file path.", true).string_param(
            "content",
            "Full test file contents to write.",
            true,
        ).enum_param(
            "tdd_phase",
            "red: test must compile but intentionally fail assertions. green: test must pass.",
            &["red", "green", "refactor"],
            true,
        ),
    );
    assert(crate::llm::tool_names(s) =~= seq![
        "gather_integration_context"@,
        "generate_test_factory"@,
        "write_test_suite"@,
    ]);
    s
}

pub open spec fn components_not_array_msg() -> Seq<char> {
    "tool argument 'components' must be an array of strings"@
}

pub open spec fn components_not_strings_msg() -> Seq<char> {
    "tool argument 'components' must contain only strings"@
}

/// Every item of the array is a string.
pub open spec fn all_strings(items: Seq<JsonValue>) -> bool {
    forall|i: int| 0 <= i < items.len() ==> #[trigger] items[i] is Str
}

/// The strings of an all-string array.
pub open spec fn str_items(items: Seq<JsonValue>) -> Seq<Seq<char>> {
    items.map_values(|v: JsonValue| match v {
        JsonValue::Str(s) => s@,
        _ => seq![],
    })
}

/// The `components` argument of `gather_integration_context`.
pub fn parse_components(arguments: &JsonValue) -> (r: Result<Vec<String>, String>)
    ensures
        match get_array(*arguments, "components"@) {
            None => r matches Err(e) && e@ == components_not_array_msg(),
            Some(items) => if all_strings(items) {
                r matches Ok(v) && string_views(v@) == str_items(items)
            } else {
                r matches Err(e) && e@ == components_not_strings_msg()
            },
        },
{
    let items = match crate::json::get_array_exec(arguments, "components") {
        Some(a) => a,
        None => {
            return Err("tool argument 'components' must be an array of strings".to_owned());
        },
    };
    let mut out: Vec<String> = Vec::new();
    let mut i: usize = 0;
    while i < items.len()
        invariant
            i <= items@.len(),
            get_array(*arguments, "components"@) == Some(items@),
            all_strings(items@.take(i as int)),
            string_views(out@) == str_items(items@.take(i as int)),
        decreases items.len() - i,
    {
        match &items[i] {
            JsonValue::Str(s) => {
                let ghost before = out@;
                out.push(s.clone());
                assert(str_items(items@.take(i + 1)) =~= str_items(items@.take(i as int)).push(
                    s@,
                ));
                assert(string_views(out@) =~= string_views(before).push(s@));
            },
            _ => {
                assert(!all_strings(items@)) by {
                    assert(!(items@[i as int] is Str));
                }
                return Err("tool argument 'components' must contain only strings".to_owned());
            },
        }
        i = i + 1;
    }
    assert(items@.take(items@.len() as int) =~= items@);
    Ok(out)
}

/// The `target_struct` and `target_file` arguments of `generate_test_factory`.
pub fn parse_factory_arguments(arguments: &JsonValue) -> (r: Result<(String, String), String>)
    ensures
        match (get_str(*arguments, "target_struct"@), get_str(*arguments, "target_file"@)) {
            (Some(a), Some(b)) => r matches Ok((x, y)) && x@ == a && y@ == b,
            (None, _) => r matches Err(e) && e@ == crate::json::not_a_string_msg(
                "target_struct"@,
            ),
            (Some(_), None) => r matches Err(e) && e@ == crate::json::not_a_string_msg(
                "target_file"@,
            ),
        },
{
    let target_struct = match required_str(arguments, "target_struct") {
        Ok(s) => s,
        Err(e) => {
            return Err(e);
        },
    };
    let target_file = match required_str(arguments, "target_file") {
        Ok(s) => s,
        Err(e) => {
            return Err(e);
        },
    };
    Ok((target_struct, target_file))
}

pub open spec fn bad_phase_msg() -> Seq<char> {
    "tool argument 'tdd_phase' must be one of: red, green, refactor"@
}

/// The `path` and `tdd_phase` arguments of `write_test_suite`.
pub fn parse_write_test_suite_arguments(arguments: &JsonValue) -> (r: Result<
    (String, String),
    String,
>)
    ensures
        match (get_str(*arguments, "path"@), get_str(*arguments, "tdd_phase"@)) {
            (Some(a), Some(b)) => if b == "red"@ || b == "green"@ || b == "refactor"@ {
                r matches Ok((x, y)) && x@ == a && y@ == b
            } else {
                r matches Err(e) && e@ == bad_phase_msg()
            },
            (None, _) => r matches Err(e) && e@ == crate::json::not_a_string_msg("path"@),
            (Some(_), None) => r matches Err(e) && e@ == crate::json::not_a_string_msg(
                "tdd_phase"@,
            ),
        },
{
    let path = match required_str(arguments, "path") {
        Ok(s) => s,
        Err(e) => {
            return Err(e);
        },
    };
    let phase = match required_str(arguments, "tdd_phase") {
        Ok(s) => s,
        Err(e) => {
            return Err(e);
        },
    };
    let p = phase.as_str();
    if !(str_eq(p, "red") || str_eq(p, "green") || str_eq(p, "refactor")) {
        return Err("tool argument 'tdd_phase' must be one of: red, green, refactor".to_owned());
    }
    Ok((path, phase))
}

// ---------------------------------------------------------------------------
// Source language of the file under test
// ---------------------------------------------------------------------------

/// The language of a source file, as language detection reports it.
#[derive(Clone, Copy, PartialEq, Eq, Structural, Debug)]
pub enum SourceLanguage {
    Rust,
    Tsx,
    TypeScript,
    Python,
    Java,
    Kotlin,
    C,
    Cpp,
    Sql,
    Unknown,
}

pub open spec fn language_name(l: SourceLanguage) -> Seq<char> {
    match l {
        SourceLanguage::Rust => "rust"@,
        SourceLanguage::Tsx => "tsx"@,
        SourceLanguage::TypeScript => "typescript"@,
        SourceLanguage::Python => "python"@,
        SourceLanguage::Java => "java"@,
        SourceLanguage::Kotlin => "kotlin"@,
        SourceLanguage::C => "c"@,
        SourceLanguage::Cpp => "cpp"@,
        SourceLanguage::Sql => "sql"@,
        SourceLanguage::Unknown => "unknown"@,
    }
}

impl SourceLanguage {
    /// The lowercase language name.
    pub fn as_str(self) -> (s: &'static str)
        ensures
            s@ == language_name(self),
    {
        match self {
            SourceLanguage::Rust => "rust",
            SourceLanguage::Tsx => "tsx",
            SourceLanguage::TypeScript => "typescript",
            SourceLanguage::Python => "python",
            SourceLanguage::Java => "java",
            SourceLanguage::Kotlin => "kotlin",
            SourceLanguage::C => "c",
            SourceLanguage::Cpp => "cpp",
            SourceLanguage::Sql => "sql",
            SourceLanguage::Unknown => "unknown",
        }
    }
}

/// The test-file extensions that fit a source language (SQL and unknown
/// sources accept any).
pub open spec fn ext_fits(l: SourceLanguage, ext: Seq<char>) -> bool {
    match l {
        SourceLanguage::Rust => ext == "rs"@,
        SourceLanguage::Tsx => ext == "tsx"@,
        SourceLanguage::TypeScript => ext == "ts"@ || ext == "tsx"@,
        SourceLanguage::Python => ext == "py"@,
        SourceLanguage::Java => ext == "java"@,
        SourceLanguage::Kotlin => ext == "kt"@ || ext == "kts"@,
        SourceLanguage::C | SourceLanguage::Cpp => ext == "c"@ || ext == "cc"@ || ext == "cpp"@,
        SourceLanguage::Sql | SourceLanguage::Unknown => true,
    }
}

pub open spec fn test_ext_mismatch_msg(test_path: Seq<char>, l: SourceLanguage) -> Seq<char> {
    "test path `"@ + test_path + "` extension does not match source language `"@ + language_name(l)
        + "`"@
}

/// A test file must use an extension of the source file's language.
pub fn validate_test_path_for_source(test_path: &str, language: SourceLanguage) -> (r: Result<
    (),
    String,
>)
    ensures
        ext_fits(language, ext_or_empty(test_path@)) ==> r is Ok,
        !ext_fits(language, ext_or_empty(test_path@)) ==> (r matches Err(e) && e@
            == test_ext_mismatch_msg(test_path@, language)),
{
    let p = chars_of(test_path);
    let ext: String = match extension_exec(p.as_slice()) {
        Some(e) => string_of(e.as_slice()),
        None => String::new(),
    };
    let e = ext.as_str();
    let ok = match language {
        SourceLanguage::Rust => str_eq(e, "rs"),
        SourceLanguage::Tsx => str_eq(e, "tsx"),
        SourceLanguage::TypeScript => str_eq(e, "ts") || str_eq(e, "tsx"),
        SourceLanguage::Python => str_eq(e, "py"),
        SourceLanguage::Java => str_eq(e, "java"),
        SourceLanguage::Kotlin => str_eq(e, "kt") || str_eq(e, "kts"),
        SourceLanguage::C | SourceLanguage::Cpp => str_eq(e, "c") || str_eq(e, "cc") || str_eq(
            e,
            "cpp",
        ),
        SourceLanguage::Sql | SourceLanguage::Unknown => true,
    };
    if ok {
        Ok(())
    } else {
        let mut m = "test path `".to_owned();
        m.append(test_path);
        m.append("` extension does not match source language `");
        m.append(language.as_str());
        m.append("`");
        Err(m)
    }
}

/// Index of the first line satisfying "contains `for file:`".
pub open spec fn first_line_with(ls: Seq<Seq<char>>, pat: Seq<char>) -> Option<int>
    decreases ls.len(),
{
    if ls.len() == 0 {
        None
    } else if contains(ls[0], pat) {
        Some(0)
    } else {
        match first_line_with(ls.drop_first(), pat) {
            Some(i) => Some(i + 1),
            None => None,
        }
    }
}

/// The second piece of `s.split(pat)`: the text after the first match, up
/// to the next match.
pub open spec fn second_piece(s: Seq<char>, pat: Seq<char>) -> Option<Seq<char>> {
    match crate::text::find_from(s, pat, 0) {
        Some(i) => {
            let after = s.subrange(i + pat.len(), s.len() as int);
            match crate::text::find_from(after, pat, 0) {
                Some(j) => Some(after.subrange(0, j)),
                None => Some(after),
            }
        },
        None => None,
    }
}

/// The source file a builder task names: the trimmed text after
/// `for file:` on the first line that has it, if not blank.
pub open spec fn source_file_spec(prompt: Seq<char>) -> Option<Seq<char>> {
    let ls = crate::text::lines(prompt);
    match first_line_with(ls, "for file:"@) {
        Some(i) => match second_piece(ls[i], "for file:"@) {
            Some(p) => if trim(p).len() > 0 {
                Some(trim(p))
            } else {
                None
            },
            None => None,
        },
        None => None,
    }
}

/// Reads the file under test out of a builder task prompt.
pub fn source_file_from_builder_prompt(prompt: &str) -> (r: Option<String>)
    ensures
        match r {
            Some(p) => source_file_spec(prompt@) == Some(p@),
            None => source_file_spec(prompt@) is None,
        },
{
    proof {
        reveal_strlit("for file:");
    }
    let pat = chars_of("for file:");
    let c = chars_of(prompt);
    let ls = crate::text::lines_exec(c.as_slice());
    let ghost lsv = crate::text::views(ls@);
    let mut i: usize = 0;
    assert(lsv.skip(0) =~= lsv);
    while i < ls.len()
        invariant
            i <= ls@.len(),
            lsv == crate::text::views(ls@),
            lsv == crate::text::lines(prompt@),
            pat@ == "for file:"@,
            first_line_with(lsv, pat@) == match first_line_with(lsv.skip(i as int), pat@) {
                Some(k) => Some(k + i),
                None => None,
            },
        decreases ls.len() - i,
    {
        assert(lsv.skip(i as int)[0] == ls@[i as int]@);
        if crate::text::contains_exec(ls[i].as_slice(), pat.as_slice()) {
            let line = &ls[i];
            let r = match crate::text::find_from_exec(line.as_slice(), pat.as_slice(), 0) {
                Some(k) => {
                    proof {
                        crate::text::lemma_find_from(line@, pat@, 0);
                        assert(crate::text::matches_at(line@, pat@, k as int));
                        assert(k + pat@.len() <= line@.len());
                        assert(line@.len() == line.len());
                    }
                    let after = crate::text::copy_range(line.as_slice(), k + pat.len(), line.len());
                    let seg = match crate::text::find_from_exec(after.as_slice(), pat.as_slice(), 0) {
                        Some(j) => {
                            proof {
                                crate::text::lemma_find_from(after@, pat@, 0);
                            }
                            crate::text::copy_range(after.as_slice(), 0, j)
                        },
                        None => after,
                    };
                    let t = trim_exec(seg.as_slice());
                    if t.len() > 0 {
                        Some(string_of(t.as_slice()))
                    } else {
                        None
                    }
                },
                None => None,
            };
            return r;
        }
        assert(lsv.skip(i as int).drop_first() =~= lsv.skip(i + 1));
        i = i + 1;
    }
    None
}


// ---------------------------------------------------------------------------
// Builder task prompts
// ---------------------------------------------------------------------------

/// The builder's task: its workflow instructions and a golden exemplar to copy.
pub struct BuilderPromptParts {
    pub workflow: String,
    pub exemplar: String,
}

/// `Path::parent` as text: the path without its last component (trailing separators
/// dropped); `None` for an empty path or a bare root.
pub open spec fn parent_text(p: Seq<char>) -> Option<Seq<char>> {
    let t = crate::git_janitor::trim_end_char(p, '/');
    if t.len() == 0 {
        None
    } else {
        match crate::text::rfind(t, "/"@) {
            None => Some(Seq::empty()),
            Some(k) => {
                let h = crate::git_janitor::trim_end_char(t.take(k), '/');
                if h.len() == 0 {
                    Some("/"@)
                } else {
                    Some(h)
                }
            },
        }
    }
}

fn trim_end_slashes(s: &[char]) -> (r: Vec<char>)
    ensures
        r@ == crate::git_janitor::trim_end_char(s@, '/'),
{
    let mut k: usize = s.len();
    assert(s@.take(k as int) =~= s@);
    while k > 0 && s[k - 1] == '/'
        invariant
            k <= s@.len(),
            crate::git_janitor::trim_end_char(s@, '/') == crate::git_janitor::trim_end_char(
                s@.take(k as int),
                '/',
            ),
        decreases k,
    {
        assert(s@.take(k as int).drop_last() =~= s@.take(k - 1));
        k = k - 1;
    }
    let r = crate::text::copy_range(s, 0, k);
    assert(r@ =~= s@.take(k as int));
    r
}

fn parent_text_exec(p: &[char]) -> (r: Option<Vec<char>>)
    ensures
        match r {
            Some(x) => parent_text(p@) == Some(x@),
            None => parent_text(p@) is None,
        },
{
    proof {
        reveal_strlit("/");
    }
    let t = trim_end_slashes(p);
    if t.len() == 0 {
        return None;
    }
    let slash = chars_of("/");
    let found = crate::text::rfind_exec(t.as_slice(), slash.as_slice());
    match found {
        None => Some(Vec::new()),
        Some(k) => {
            proof {
                crate::text::lemma_rfind_before(t@, "/"@, t@.len() + 1int);
            }
            let head = crate::text::copy_range(t.as_slice(), 0, k);
            assert(head@ =~= t@.take(k as int));
            let h = trim_end_slashes(head.as_slice());
            if h.len() == 0 {
                Some(chars_of("/"))
            } else {
                Some(h)
            }
        },
    }
}

/// `Generate a `{test_type}` test for file: {file}` and a blank line.
pub open spec fn workflow_head(test_type: Seq<char>, file: Seq<char>) -> Seq<char> {
    "Generate a `"@ + test_type + "` test for file: "@ + file + "\n\n"@
}

pub const RUST_WORKFLOW_MID: &'static str = "` — never overwrite `tests/cache_manager_tests.rs`.\nWorkflow: write_test_suite(tdd_phase=red) then write_test_suite(tdd_phase=green). Job succeeds only when GREEN passes.\nUse `mod common;` and helpers from `tests/common/mod.rs` — do not add new dev-dependencies.\nDirect SQLite checks use `project_root.join(\".adjutant/cache.db\")` — never `cache.sqlite`.\nIntegration test crates cannot use `crate::` — import via `mcp_adjutant::...`.\nVerify with `cargo test --test ";

pub const TS_WORKFLOW_MID: &'static str = "` (co-located vitest + @testing-library/react).\nWorkflow: write_test_suite(tdd_phase=red) then write_test_suite(tdd_phase=green). Job succeeds only when GREEN passes.\nImport the component under test from a relative path. Use `npm test` from the `frontend/` workspace.";

pub const GENERIC_WORKFLOW_TAIL: &'static str = "\nDetect idiomatic test layout (detect_language, read_file) and write to a **new** test file matching that stack.\nWorkflow: write_test_suite(tdd_phase=red) then write_test_suite(tdd_phase=green). Job succeeds only when GREEN passes.";

pub const TS_EXEMPLAR_FALLBACK: &'static str = "Write vitest + @testing-library/react tests; run `npm test` from frontend/.";

/// The stem of the source file, `module` when it has none.
pub open spec fn stem_or_module(file: Seq<char>) -> Seq<char> {
    match crate::paths::file_stem(file) {
        Some(s) => s,
        None => "module"@,
    }
}

/// The Rust exemplar: lines 7–47 of the golden integration test when it is longer than
/// 47 lines, else all of it.
pub open spec fn rust_exemplar_spec(golden: Option<Seq<char>>) -> Seq<char> {
    let content = match golden {
        Some(c) => c,
        None => Seq::empty(),
    };
    let ls = crate::text::lines(content);
    let excerpt = if ls.len() > 47 {
        join(ls.subrange(6, 47), "\n"@)
    } else {
        content
    };
    "Golden integration-test pattern (copy this setup — do not use tempfile):\n```rust\n"@ + excerpt
        + "\n```"@
}

/// The co-located test path of a TS/TSX source file.
pub open spec fn ts_test_path(file: Seq<char>) -> Seq<char> {
    let parent = match parent_text(file) {
        Some(p) => p,
        None => "frontend/src"@,
    };
    let ext = match extension(file) {
        Some(e) => if e == "ts"@ || e == "tsx"@ {
            e
        } else {
            "tsx"@
        },
        None => "tsx"@,
    };
    replace(parent, "\\"@, "/"@) + "/"@ + stem_or_module(file) + ".test."@ + ext
}

/// What `builder_task_parts` produces: (workflow, exemplar). `golden` is the exemplar
/// file of the language as read from the project (the Rust integration test or the
/// TSX component test), when it could be read.
pub open spec fn builder_parts_spec(
    language: SourceLanguage,
    test_type: Seq<char>,
    file: Seq<char>,
    golden: Option<Seq<char>>,
) -> (Seq<char>, Seq<char>) {
    let head = workflow_head(test_type, file);
    let stem = stem_or_module(file);
    match language {
        SourceLanguage::Rust => (
            head + "Source language: rust\nWrite ONE test function first to a **new** file `"@
                + "tests/"@ + stem + "_integration_test.rs"@ + RUST_WORKFLOW_MID@ + stem
                + "_integration_test`."@,
            rust_exemplar_spec(golden),
        ),
        SourceLanguage::Tsx | SourceLanguage::TypeScript => (
            head + "Source language: typescript/tsx — do NOT write Rust tests.\nWrite the test to `"@
                + ts_test_path(file) + TS_WORKFLOW_MID@,
            match golden {
                Some(body) => "Golden vitest pattern (copy structure):\n```tsx\n"@ + body + "\n```"@,
                None => TS_EXEMPLAR_FALLBACK@,
            },
        ),
        SourceLanguage::Python => (
            head + "Source language: python\nWrite to `tests/test_"@ + stem
                + ".py`. Workflow: write_test_suite(red) then write_test_suite(green).\nVerify with `pytest tests/test_"@
                + stem + ".py`."@,
            Seq::empty(),
        ),
        _ => (
            head + "Source language: "@ + language_name(language) + GENERIC_WORKFLOW_TAIL@,
            Seq::empty(),
        ),
    }
}

/// Trimming ignores one more trailing whitespace character.
proof fn lemma_trim_trailing_ws(g: Seq<char>, c: char)
    requires
        is_ws(c),
    ensures
        trim(g.push(c)) == trim(g),
    decreases g.len(),
{
    let gc = g.push(c);
    assert(gc.last() == c);
    assert(gc.drop_last() =~= g);
    if g.len() == 0 {
        assert(gc.drop_first() =~= Seq::<char>::empty());
        assert(trim_start(gc) == trim_start(Seq::<char>::empty()));
    } else if is_ws(g[0]) {
        assert(gc[0] == g[0]);
        assert(gc.drop_first() =~= g.drop_first().push(c));
        assert(trim_start(gc) == trim_start(g.drop_first().push(c)));
        assert(trim_start(g) == trim_start(g.drop_first()));
        lemma_trim_trailing_ws(g.drop_first(), c);
    } else {
        assert(gc[0] == g[0]);
        assert(trim_start(gc) == gc);
        assert(trim_start(g) == g);
        assert(trim_end(gc) == trim_end(g));
    }
}

/// No match of `pat` in `s` at or after `from`.
proof fn lemma_no_match_from(s: Seq<char>, pat: Seq<char>, from: int)
    requires
        0 <= from,
        forall|j: int| from <= j ==> !crate::text::matches_at(s, pat, j),
    ensures
        crate::text::find_from(s, pat, from) is None,
{
    crate::text::lemma_find_from(s, pat, from);
}

/// The first line of a builder workflow is its `Generate a ... for file: ...` line.
proof fn lemma_workflow_first_line(
    language: SourceLanguage,
    test_type: Seq<char>,
    file: Seq<char>,
    golden: Option<Seq<char>>,
)
    requires
        forall|i: int| 0 <= i < test_type.len() ==> test_type[i] != '\n',
        forall|i: int| 0 <= i < file.len() ==> file[i] != '\n',
    ensures
        crate::text::lines(builder_parts_spec(language, test_type, file, golden).0).len() > 0,
        crate::text::lines(builder_parts_spec(language, test_type, file, golden).0)[0] == strip_cr(
            "Generate a `"@ + test_type + "` test for file: "@ + file,
        ),
{
    reveal_strlit("Generate a `");
    reveal_strlit("` test for file: ");
    reveal_strlit("\n\n");
    reveal_strlit("\n");
    let a = "Generate a `"@;
    let b = "` test for file: "@;
    let line = a + test_type + b + file;
    let head = workflow_head(test_type, file);
    let w = builder_parts_spec(language, test_type, file, golden).0;
    assert(head =~= (line + "\n"@) + "\n"@);
    let x = w.subrange(head.len() as int, w.len() as int);
    assert(w.subrange(0, head.len() as int) =~= head);
    assert(w =~= head + x);
    assert forall|i: int| 0 <= i < line.len() implies line[i] != '\n' by {
        if i < 12 {
            assert(line[i] == a[i]);
        } else if i < 12 + test_type.len() {
            assert(line[i] == test_type[i - 12]);
        } else if i < 29 + test_type.len() {
            assert(line[i] == b[i - 12 - test_type.len()]);
        } else {
            assert(line[i] == file[i - 29 - test_type.len()]);
        }
    }
    crate::text::lemma_one_line(line);
    assert(w =~= (line + "\n"@) + ("\n"@ + x));
    crate::text::lemma_lines_append(line + "\n"@, "\n"@ + x);
}

/// On the `Generate a ... for file: ...` line, the first `for file:` is the one
/// before the path, and nothing after it repeats it.
proof fn lemma_file_line_piece(test_type: Seq<char>, f: Seq<char>)
    requires
        !contains(test_type, "for file:"@),
        !contains(f, "for file:"@),
    ensures
        contains("Generate a `"@ + test_type + "` test for file: "@ + f, "for file:"@),
        second_piece("Generate a `"@ + test_type + "` test for file: "@ + f, "for file:"@) == Some(
            seq![' '] + f,
        ),
{
    reveal_strlit("Generate a `");
    reveal_strlit("` test for file: ");
    reveal_strlit("for file:");
    let pat = "for file:"@;
    let a = "Generate a `"@;
    let b = "` test for file: "@;
    let l0 = a + test_type + b + f;
    let p0: int = 19int + test_type.len();
    assert(l0.subrange(p0, p0 + 9) =~= pat);
    assert(crate::text::matches_at(l0, pat, p0));
    assert forall|j: int| 0 <= j < p0 implies !crate::text::matches_at(l0, pat, j) by {
        if crate::text::matches_at(l0, pat, j) {
            let m = l0.subrange(j, j + 9);
            assert(m[0] == l0[j]);
            if j < 12 {
                assert(l0[j] == a[j]);
            } else if j + 9 <= 12 + test_type.len() {
                assert(test_type.subrange(j - 12, j - 12 + 9) =~= m);
                assert(crate::text::matches_at(test_type, pat, j - 12));
            } else if j < 12 + test_type.len() {
                let q: int = 12int + test_type.len();
                assert(l0[q] == '`');
                assert(m[q - j] == l0[q]);
            } else {
                assert(l0[j] == b[j - 12 - test_type.len()]);
            }
        }
    }
    crate::text::lemma_find_from(l0, pat, 0);
    assert(crate::text::find_from(l0, pat, 0) == Some(p0));
    let after = l0.subrange(p0 + 9, l0.len() as int);
    assert(after =~= seq![' '] + f);
    assert forall|j: int| 0 <= j implies !crate::text::matches_at(after, pat, j) by {
        if crate::text::matches_at(after, pat, j) {
            let m = after.subrange(j, j + 9);
            assert(m[0] == after[j]);
            if j >= 1 {
                assert(f.subrange(j - 1, j - 1 + 9) =~= m);
                assert(crate::text::matches_at(f, pat, j - 1));
            }
        }
    }
    lemma_no_match_from(after, pat, 0);
}

/// The workflow of a builder task names its file so that it reads back: the
/// file under test found in the workflow is the trimmed path it was built with
/// (the task type and the path on one line, neither holding `for file:`).
pub proof fn builder_prompt_names_source_file(
    language: SourceLanguage,
    test_type: Seq<char>,
    file: Seq<char>,
    golden: Option<Seq<char>>,
)
    requires
        forall|i: int| 0 <= i < test_type.len() ==> test_type[i] != '\n',
        forall|i: int| 0 <= i < file.len() ==> file[i] != '\n',
        !contains(test_type, "for file:"@),
        !contains(file, "for file:"@),
        trim(file).len() > 0,
    ensures
        source_file_spec(builder_parts_spec(language, test_type, file, golden).0) == Some(trim(file)),
{
    let pat = "for file:"@;
    let line = "Generate a `"@ + test_type + "` test for file: "@ + file;
    lemma_workflow_first_line(language, test_type, file, golden);
    let ls = crate::text::lines(builder_parts_spec(language, test_type, file, golden).0);
    let cr = file.len() > 0 && file.last() == '\r';
    let f2 = if cr {
        file.drop_last()
    } else {
        file
    };
    assert(strip_cr(line) =~= "Generate a `"@ + test_type + "` test for file: "@ + f2) by {
        reveal_strlit("` test for file: ");
        if !cr {
            if file.len() == 0 {
                assert(line.last() == ' ');
            } else {
                assert(line.last() == file.last());
            }
        }
    }
    assert(!contains(f2, pat)) by {
        if contains(f2, pat) {
            let j = choose|j: int| crate::text::matches_at(f2, pat, j);
            assert(file.subrange(j, j + pat.len()) =~= f2.subrange(j, j + pat.len()));
            assert(crate::text::matches_at(file, pat, j));
        }
    }
    lemma_file_line_piece(test_type, f2);
    assert(first_line_with(ls, pat) == Some(0int));
    assert(trim(seq![' '] + f2) == trim(f2)) by {
        assert((seq![' '] + f2).drop_first() =~= f2);
    }
    if cr {
        assert(file =~= f2.push('\r'));
        lemma_trim_trailing_ws(f2, '\r');
    }
}

fn stem_or_module_exec(file: &str) -> (r: String)
    ensures
        r@ == stem_or_module(file@),
{
    let v = chars_of(file);
    match crate::paths::file_stem_exec(v.as_slice()) {
        Some(s) => string_of(s.as_slice()),
        None => "module".to_owned(),
    }
}

fn rust_exemplar(golden: &Option<String>) -> (r: String)
    ensures
        r@ == rust_exemplar_spec(
            match golden {
                Some(c) => Some(c@),
                None => None,
            },
        ),
{
    let content: String = match golden {
        Some(c) => c.clone(),
        None => String::new(),
    };
    let cv = chars_of(content.as_str());
    let ls = crate::text::lines_exec(cv.as_slice());
    let excerpt: String = if ls.len() > 47 {
        let mut part: Vec<Vec<char>> = Vec::new();
        let mut i: usize = 6;
        while i < 47
            invariant
                6 <= i <= 47,
                47 < ls@.len(),
                crate::text::views(part@) == crate::text::views(ls@).subrange(6, i as int),
            decreases 47 - i,
        {
            let c = crate::text::copy_range(ls[i].as_slice(), 0, ls[i].len());
            assert(c@ =~= ls@[i as int]@);
            let ghost before = part@;
            part.push(c);
            assert(crate::text::views(part@) =~= crate::text::views(before).push(c@));
            assert(crate::text::views(part@) =~= crate::text::views(ls@).subrange(6, i + 1));
            i = i + 1;
        }
        let j = crate::text::join_exec(part.as_slice(), chars_of("\n").as_slice());
        string_of(j.as_slice())
    } else {
        content
    };
    let mut out = "Golden integration-test pattern (copy this setup — do not use tempfile):\n```rust\n".to_owned();
    out.append(excerpt.as_str());
    out.append("\n```");
    out
}

/// Builds the builder's task prompt for the language of the file under test.
pub fn builder_task_parts(
    language: SourceLanguage,
    test_type: &str,
    source_file_path: &str,
    golden: &Option<String>,
) -> (r: BuilderPromptParts)
    ensures
        (r.workflow@, r.exemplar@) == builder_parts_spec(
            language,
            test_type@,
            source_file_path@,
            match golden {
                Some(c) => Some(c@),
                None => None,
            },
        ),
{
    let mut workflow = "Generate a `".to_owned();
    workflow.append(test_type);
    workflow.append("` test for file: ");
    workflow.append(source_file_path);
    workflow.append("\n\n");
    let stem = stem_or_module_exec(source_file_path);
    match language {
        SourceLanguage::Rust => {
            workflow.append("Source language: rust\nWrite ONE test function first to a **new** file `");
            workflow.append("tests/");
            workflow.append(stem.as_str());
            workflow.append("_integration_test.rs");
            workflow.append(RUST_WORKFLOW_MID);
            workflow.append(stem.as_str());
            workflow.append("_integration_test`.");
            BuilderPromptParts { workflow, exemplar: rust_exemplar(golden) }
        },
        SourceLanguage::Tsx | SourceLanguage::TypeScript => {
            let fv = chars_of(source_file_path);
            let parent: Vec<char> = match parent_text_exec(fv.as_slice()) {
                Some(p) => p,
                None => chars_of("frontend/src"),
            };
            let ext: String = match crate::paths::extension_exec(fv.as_slice()) {
                Some(e) => {
                    let es = string_of(e.as_slice());
                    if str_eq(es.as_str(), "ts") || str_eq(es.as_str(), "tsx") {
                        es
                    } else {
                        "tsx".to_owned()
                    }
                },
                None => "tsx".to_owned(),
            };
            proof {
                reveal_strlit("\\");
            }
            let ps = string_of(parent.as_slice());
            let fixed = str_replace(ps.as_str(), "\\", "/");
            workflow.append("Source language: typescript/tsx — do NOT write Rust tests.\nWrite the test to `");
            workflow.append(fixed.as_str());
            workflow.append("/");
            workflow.append(stem.as_str());
            workflow.append(".test.");
            workflow.append(ext.as_str());
            workflow.append(TS_WORKFLOW_MID);
            let exemplar = match golden {
                Some(body) => {
                    let mut e = "Golden vitest pattern (copy structure):\n```tsx\n".to_owned();
                    e.append(body.as_str());
                    e.append("\n```");
                    e
                },
                None => TS_EXEMPLAR_FALLBACK.to_owned(),
            };
            BuilderPromptParts { workflow, exemplar }
        },
        SourceLanguage::Python => {
            workflow.append("Source language: python\nWrite to `tests/test_");
            workflow.append(stem.as_str());
            workflow.append(".py`. Workflow: write_test_suite(red) then write_test_suite(green).\nVerify with `pytest tests/test_");
            workflow.append(stem.as_str());
            workflow.append(".py`.");
            BuilderPromptParts { workflow, exemplar: String::new() }
        },
        _ => {
            workflow.append("Source language: ");
            workflow.append(language.as_str());
            workflow.append(GENERIC_WORKFLOW_TAIL);
            BuilderPromptParts { workflow, exemplar: String::new() }
        },
    }
}

} // verus!
