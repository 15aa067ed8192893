//! Blueprint quality gates: patch-body checks, path classification, hunk
//! grounding/minimality, and the schema/completeness rules of a blueprint.
use vstd::prelude::*;

use crate::json::{get, get_array, get_str, get_str_or_empty, get_str_exec, get_str_or_empty_exec, get_array_exec, JsonValue};
use crate::planner::{CoordinatorConstraints, PlanKind};
use crate::hunks::{hunk_views, lf, lf_exec, parse_hunks, parse_hunks_spec, Hunk, SURGICAL_MAX_NEW_LINES};
use crate::text::{
    all_digits, chars_of, contains, contains_exec, copy_range, debug_quote, debug_str, decimal,
    digits_value, ends_with, find_from, find_from_exec, is_digit, is_ws, is_ws_exec,
    lemma_find_from, lemma_rfind_before, lines, lines_exec, lower_ascii, lower_ascii_exec,
    parse_nat, parse_usize, replace, replace_exec, rfind, rfind_exec, split_char,
    split_char_exec, starts_with, str_contains, str_ends_with, str_eq, str_starts_with,
    string_of, trim, trim_exec, trim_start, trim_start_exec, views, fmt_usize,
};

verus! {

// ---------------------------------------------------------------------------
// Identifiers and patch bodies
// ---------------------------------------------------------------------------

pub open spec fn kebab_char(c: char) -> bool {
    ('a' <= c && c <= 'z') || ('0' <= c && c <= '9') || c == '-'
}

/// Lowercase ASCII letters, digits and single inner hyphens, with at least one hyphen.
pub open spec fn is_kebab_case_spec(id: Seq<char>) -> bool {
    &&& id.len() > 0
    &&& forall|i: int| 0 <= i < id.len() ==> kebab_char(#[trigger] id[i])
    &&& contains(id, "-"@)
    &&& !starts_with(id, "-"@)
    &&& !ends_with(id, "-"@)
    &&& !contains(id, "--"@)
}

/// Is `id` a kebab-case task id?
pub fn is_kebab_case(id: &str) -> (b: bool)
    ensures
        b == is_kebab_case_spec(id@),
{
    let v = chars_of(id);
    if v.len() == 0 {
        return false;
    }
    let mut i: usize = 0;
    while i < v.len()
        invariant
            i <= v@.len(),
            v@ == id@,
            forall|j: int| 0 <= j < i ==> kebab_char(#[trigger] v@[j]),
        decreases v.len() - i,
    {
        let c = v[i];
        if !(('a' <= c && c <= 'z') || ('0' <= c && c <= '9') || c == '-') {
            assert(!kebab_char(v@[i as int]));
            return false;
        }
        i = i + 1;
    }
    str_contains(id, "-") && !str_starts_with(id, "-") && !str_ends_with(id, "-") && !str_contains(
        id,
        "--",
    )
}

/// Lines that hold something other than whitespace.
pub open spec fn nonblank(ls: Seq<Seq<char>>) -> Seq<Seq<char>>
    decreases ls.len(),
{
    if ls.len() == 0 {
        seq![]
    } else if trim(ls.last()).len() > 0 {
        nonblank(ls.drop_last()).push(ls.last())
    } else {
        nonblank(ls.drop_last())
    }
}

pub open spec fn comment_line(l: Seq<char>) -> bool {
    let t = trim_start(l);
    starts_with(t, "//"@) || starts_with(t, "#"@) || starts_with(t, "/*"@)
}

/// How many lines are comments.
pub open spec fn count_comments(ls: Seq<Seq<char>>) -> nat
    decreases ls.len(),
{
    if ls.len() == 0 {
        0
    } else {
        count_comments(ls.drop_last()) + if comment_line(ls.last()) {
            1nat
        } else {
            0nat
        }
    }
}

/// More than half of the non-blank lines are comments (or there are none).
pub open spec fn is_comment_sketch_spec(patch: Seq<char>) -> bool {
    let ls = nonblank(lines(patch));
    ls.len() == 0 || 2 * count_comments(ls) > ls.len()
}

fn is_blank(l: &Vec<char>) -> (b: bool)
    ensures
        b == (trim(l@).len() == 0),
{
    let t = trim_exec(l.as_slice());
    t.len() == 0
}

fn is_comment_line(l: &Vec<char>) -> (b: bool)
    ensures
        b == comment_line(l@),
{
    let t = trim_start_exec(l.as_slice());
    let s = string_of(t.as_slice());
    str_starts_with(s.as_str(), "//") || str_starts_with(s.as_str(), "#") || str_starts_with(
        s.as_str(),
        "/*",
    )
}

/// Non-blank lines of a text and how many of them are comments.
fn nonblank_and_comments(text: &str) -> (r: (usize, usize))
    ensures
        r.0 == nonblank(lines(text@)).len(),
        r.1 == count_comments(nonblank(lines(text@))),
        r.1 <= r.0,
{
    let v = chars_of(text);
    let ls = lines_exec(v.as_slice());
    let mut n: usize = 0;
    let mut c: usize = 0;
    let mut i: usize = 0;
    let ghost lv = views(ls@);
    while i < ls.len()
        invariant
            i <= ls@.len(),
            lv == views(ls@),
            lv == lines(text@),
            n == nonblank(lv.take(i as int)).len(),
            c == count_comments(nonblank(lv.take(i as int))),
            c <= n <= i,
        decreases ls.len() - i,
    {
        assert(lv.take(i + 1).drop_last() =~= lv.take(i as int));
        assert(lv[i as int] == ls@[i as int]@);
        if !is_blank(&ls[i]) {
            let ghost prev = nonblank(lv.take(i as int));
            assert(nonblank(lv.take(i + 1)).drop_last() =~= prev);
            if is_comment_line(&ls[i]) {
                c = c + 1;
            }
            n = n + 1;
        }
        i = i + 1;
    }
    assert(lv.take(lv.len() as int) =~= lv);
    (n, c)
}

/// Is a patch body mostly comments — a sketch rather than code?
pub fn is_comment_sketch(patch: &str) -> (b: bool)
    ensures
        b == is_comment_sketch_spec(patch@),
{
    let (n, c) = nonblank_and_comments(patch);
    n == 0 || c > n - c
}

/// Number of non-blank lines.
pub fn count_nonempty_lines(text: &str) -> (n: usize)
    ensures
        n == nonblank(lines(text@)).len(),
{
    let (n, _) = nonblank_and_comments(text);
    n
}

/// Placeholder phrases that mark an unfinished patch body.
pub open spec fn contains_placeholder_spec(text: Seq<char>) -> bool {
    let l = lower_ascii(text);
    ||| contains(l, "implement logic here"@)
    ||| contains(l, "todo:"@)
    ||| contains(l, "// todo"@)
    ||| contains(l, "... implement ..."@)
    ||| contains(l, "<your code here>"@)
    ||| contains(l, "// in run()"@)
    ||| contains(l, "// ..."@)
    ||| contains(l, "etc."@)
    ||| contains(l, "<insert"@)
    ||| contains(l, "your code"@)
    ||| contains(l, "tbd"@)
}

pub fn contains_placeholder(text: &str) -> (b: bool)
    ensures
        b == contains_placeholder_spec(text@),
{
    let v = chars_of(text);
    let lower = string_of(lower_ascii_exec(v.as_slice()).as_slice());
    let l = lower.as_str();
    str_contains(l, "implement logic here") || str_contains(l, "todo:") || str_contains(
        l,
        "// todo",
    ) || str_contains(l, "... implement ...") || str_contains(l, "<your code here>")
        || str_contains(l, "// in run()") || str_contains(l, "// ...") || str_contains(l, "etc.")
        || str_contains(l, "<insert") || str_contains(l, "your code") || str_contains(l, "tbd")
}

/// A line that stands for elided code (`...`), but not spread syntax.
pub open spec fn is_ellipsis_sketch_line_spec(line: Seq<char>) -> bool {
    let t = trim(line);
    t == "..."@ || ends_with(t, " ..."@) || starts_with(t, "... "@) || contains(t, "{ ... }"@)
        || contains(t, "{...}"@)
}

pub fn is_ellipsis_sketch_line(line: &str) -> (b: bool)
    ensures
        b == is_ellipsis_sketch_line_spec(line@),
{
    let t = crate::text::str_trim(line);
    let s = t.as_str();
    str_eq(s, "...") || str_ends_with(s, " ...") || str_starts_with(s, "... ") || str_contains(
        s,
        "{ ... }",
    ) || str_contains(s, "{...}")
}

pub open spec fn any_ellipsis_line(ls: Seq<Seq<char>>) -> bool {
    exists|i: int| 0 <= i < ls.len() && is_ellipsis_sketch_line_spec(#[trigger] ls[i])
}

fn has_ellipsis_line(body: &str) -> (b: bool)
    ensures
        b == any_ellipsis_line(lines(body@)),
{
    let v = chars_of(body);
    let ls = lines_exec(v.as_slice());
    let ghost lv = views(ls@);
    let mut i: usize = 0;
    while i < ls.len()
        invariant
            i <= ls@.len(),
            lv == views(ls@),
            lv == lines(body@),
            forall|j: int| 0 <= j < i ==> !is_ellipsis_sketch_line_spec(#[trigger] lv[j]),
        decreases ls.len() - i,
    {
        let s = string_of(ls[i].as_slice());
        assert(lv[i as int] == ls@[i as int]@);
        if is_ellipsis_sketch_line(s.as_str()) {
            return true;
        }
        i = i + 1;
    }
    false
}

/// `pipeline[idx]: ` error prefix.
pub open spec fn at(idx: nat) -> Seq<char> {
    "pipeline["@ + decimal(idx) + "]: "@
}

fn at_exec(idx: usize) -> (s: String)
    ensures
        s@ == at(idx as nat),
{
    let mut s = "pipeline[".to_owned();
    let d = fmt_usize(idx);
    s.append(d.as_str());
    s.append("]: ");
    s
}

/// Quality checks on one patch body.
pub open spec fn body_quality_spec(idx: nat, body: Seq<char>) -> Result<(), Seq<char>> {
    if contains_placeholder_spec(body) {
        Err(at(idx) + "patch body contains a placeholder — write full production code"@)
    } else if is_comment_sketch_spec(body) {
        Err(at(idx) + "patch body is a comment sketch — write paste-ready production code"@)
    } else if any_ellipsis_line(lines(body)) {
        Err(at(idx) + "patch body contains ellipsis sketch ('...')"@)
    } else {
        Ok(())
    }
}

pub open spec fn err_view(r: Result<(), String>) -> Result<(), Seq<char>> {
    match r {
        Ok(()) => Ok(()),
        Err(e) => Err(e@),
    }
}

/// Rejects placeholder, comment-sketch and ellipsis patch bodies.
pub fn check_body_quality(idx: usize, body: &str) -> (r: Result<(), String>)
    ensures
        err_view(r) == body_quality_spec(idx as nat, body@),
{
    if contains_placeholder(body) {
        let mut e = at_exec(idx);
        e.append("patch body contains a placeholder — write full production code");
        return Err(e);
    }
    if is_comment_sketch(body) {
        let mut e = at_exec(idx);
        e.append("patch body is a comment sketch — write paste-ready production code");
        return Err(e);
    }
    if has_ellipsis_line(body) {
        let mut e = at_exec(idx);
        e.append("patch body contains ellipsis sketch ('...')");
        return Err(e);
    }
    Ok(())
}

/// Body quality of every hunk's REPLACE text, from hunk `i` on.
pub open spec fn replaces_quality_from(idx: nat, hs: Seq<(Seq<char>, Seq<char>)>, i: int) -> Result<
    (),
    Seq<char>,
>
    decreases hs.len() - i,
{
    if i < 0 || i >= hs.len() {
        Ok(())
    } else {
        match body_quality_spec(idx, hs[i].1) {
            Err(e) => Err(e),
            Ok(()) => replaces_quality_from(idx, hs, i + 1),
        }
    }
}

/// Quality checks on a step's patch: per REPLACE body for `patch_file`, whole text otherwise.
pub open spec fn patch_body_quality_spec(idx: nat, action: Seq<char>, patch: Seq<char>) -> Result<
    (),
    Seq<char>,
> {
    if action == "patch_file"@ {
        match parse_hunks_spec(patch) {
            Err(e) => Err(at(idx) + e + " — patch_file must use SEARCH/REPLACE hunks"@),
            Ok(hs) => replaces_quality_from(idx, hs, 0),
        }
    } else {
        body_quality_spec(idx, patch)
    }
}

pub fn validate_patch_body_quality(idx: usize, action: &str, patch: &str) -> (r: Result<(), String>)
    ensures
        err_view(r) == patch_body_quality_spec(idx as nat, action@, patch@),
{
    if str_eq(action, "patch_file") {
        let hunks = match parse_hunks(patch) {
            Ok(h) => h,
            Err(err) => {
                let mut e = at_exec(idx);
                e.append(err.as_str());
                e.append(" — patch_file must use SEARCH/REPLACE hunks");
                return Err(e);
            },
        };
        let ghost hv = hunk_views(hunks@);
        let mut i: usize = 0;
        while i < hunks.len()
            invariant
                i <= hunks@.len(),
                hv == hunk_views(hunks@),
                action@ == "patch_file"@,
                parse_hunks_spec(patch@) == Ok::<Seq<(Seq<char>, Seq<char>)>, Seq<char>>(hv),
                replaces_quality_from(idx as nat, hv, 0) == replaces_quality_from(
                    idx as nat,
                    hv,
                    i as int,
                ),
            decreases hunks.len() - i,
        {
            assert(hv[i as int].1 == hunks@[i as int].replace@);
            match check_body_quality(idx, hunks[i].replace.as_str()) {
                Ok(()) => {},
                Err(e) => {
                    return Err(e);
                },
            }
            i = i + 1;
        }
        return Ok(());
    }
    check_body_quality(idx, patch)
}

/// Which agent may perform which action.
pub open spec fn routing_ok(agent: Seq<char>, action: Seq<char>) -> bool {
    if action == "patch_file"@ || action == "create_file"@ || action == "generate_tests"@ {
        agent == "BuilderAgent"@
    } else if action == "sync_types"@ {
        agent == "TranspilerAgent"@
    } else {
        false
    }
}

pub open spec fn routing_spec(idx: nat, agent: Seq<char>, action: Seq<char>) -> Result<(), Seq<char>> {
    if routing_ok(agent, action) {
        Ok(())
    } else {
        Err(at(idx) + "agent '"@ + agent + "' cannot perform action '"@ + action
            + "' — use BuilderAgent for code/tests, TranspilerAgent for sync_types"@)
    }
}

/// Routing accepts a step that patches or creates a file or generates tests
/// exactly when its agent is `BuilderAgent`, and a type sync exactly when its
/// agent is `TranspilerAgent`; it refuses every other action.
pub proof fn routing_pairs_each_action_with_one_agent(idx: nat, agent: Seq<char>, action: Seq<char>)
    ensures
        action == "patch_file"@ || action == "create_file"@ || action == "generate_tests"@ ==> (
        routing_spec(idx, agent, action) is Ok <==> agent == "BuilderAgent"@),
        action == "sync_types"@ ==> (routing_spec(idx, agent, action) is Ok <==> agent
            == "TranspilerAgent"@),
        action != "patch_file"@ && action != "create_file"@ && action != "generate_tests"@ && action
            != "sync_types"@ ==> routing_spec(idx, agent, action) is Err,
{
    reveal_strlit("patch_file");
    reveal_strlit("create_file");
    reveal_strlit("generate_tests");
    reveal_strlit("sync_types");
    reveal_strlit("BuilderAgent");
    reveal_strlit("TranspilerAgent");
    assert("sync_types"@[0] != "patch_file"@[0]);
    assert("sync_types"@[0] != "create_file"@[0]);
    assert("sync_types"@[0] != "generate_tests"@[0]);
}

/// BuilderAgent writes code and tests; TranspilerAgent syncs types.
pub fn validate_agent_action_routing(idx: usize, agent: &str, action: &str) -> (r: Result<(), String>)
    ensures
        err_view(r) == routing_spec(idx as nat, agent@, action@),
{
    let ok = if str_eq(action, "patch_file") || str_eq(action, "create_file") || str_eq(
        action,
        "generate_tests",
    ) {
        str_eq(agent, "BuilderAgent")
    } else if str_eq(action, "sync_types") {
        str_eq(agent, "TranspilerAgent")
    } else {
        false
    };
    if ok {
        return Ok(());
    }
    let mut e = at_exec(idx);
    e.append("agent '");
    e.append(agent);
    e.append("' cannot perform action '");
    e.append(action);
    e.append("' — use BuilderAgent for code/tests, TranspilerAgent for sync_types");
    Err(e)
}

// ---------------------------------------------------------------------------
// Paths
// ---------------------------------------------------------------------------

/// The text after the last `/` (the whole path when there is none).
pub open spec fn last_segment(path: Seq<char>) -> Seq<char> {
    split_char(path, '/').last()
}

fn last_segment_exec(path: &str) -> (r: String)
    ensures
        r@ == last_segment(path@),
{
    let v = chars_of(path);
    let parts = split_char_exec(v.as_slice(), '/');
    let n = parts.len();
    assert(views(parts@).len() > 0);
    assert(views(parts@).last() == parts@[n - 1]@);
    string_of(parts[n - 1].as_slice())
}

pub open spec fn is_dependency_manifest_spec(path: Seq<char>) -> bool {
    let s = last_segment(path);
    s == "Cargo.toml"@ || s == "package.json"@ || s == "go.mod"@ || s == "pyproject.toml"@ || s
        == "Gemfile"@ || s == "pom.xml"@
}

pub fn is_dependency_manifest(path: &str) -> (b: bool)
    ensures
        b == is_dependency_manifest_spec(path@),
{
    let seg = last_segment_exec(path);
    let s = seg.as_str();
    str_eq(s, "Cargo.toml") || str_eq(s, "package.json") || str_eq(s, "go.mod") || str_eq(
        s,
        "pyproject.toml",
    ) || str_eq(s, "Gemfile") || str_eq(s, "pom.xml")
}

pub open spec fn is_module_entry_file_spec(path: Seq<char>) -> bool {
    let s = last_segment(path);
    s == "lib.rs"@ || s == "mod.rs"@ || s == "__init__.py"@ || s == "index.ts"@ || s
        == "index.tsx"@ || s == "index.js"@
}

pub fn is_module_entry_file(path: &str) -> (b: bool)
    ensures
        b == is_module_entry_file_spec(path@),
{
    let seg = last_segment_exec(path);
    let s = seg.as_str();
    str_eq(s, "lib.rs") || str_eq(s, "mod.rs") || str_eq(s, "__init__.py") || str_eq(
        s,
        "index.ts",
    ) || str_eq(s, "index.tsx") || str_eq(s, "index.js")
}

/// Backslashes turned into forward slashes.
pub open spec fn slashes(path: Seq<char>) -> Seq<char> {
    path.map_values(|c: char| if c == '\\' { '/' } else { c })
}

pub fn slashes_exec(path: &str) -> (r: String)
    ensures
        r@ == slashes(path@),
{
    let v = chars_of(path);
    let mut out: Vec<char> = Vec::new();
    let mut i: usize = 0;
    while i < v.len()
        invariant
            i <= v@.len(),
            out@ == slashes(v@.take(i as int)),
        decreases v.len() - i,
    {
        let c = v[i];
        out.push(if c == '\\' { '/' } else { c });
        i = i + 1;
        assert(out@ =~= slashes(v@.take(i as int)));
    }
    assert(v@.take(v@.len() as int) =~= v@);
    string_of(out.as_slice())
}

/// Test files live under a tests/test/__tests__/spec/specs directory.
pub open spec fn is_test_output_path_spec(path: Seq<char>) -> bool {
    let n = slashes(path);
    contains(n, "/tests/"@) || contains(n, "/test/"@) || contains(n, "/__tests__/"@) || contains(
        n,
        "/spec/"@,
    ) || contains(n, "/specs/"@) || starts_with(n, "tests/"@) || starts_with(n, "test/"@)
}

pub fn is_test_output_path(path: &str) -> (b: bool)
    ensures
        b == is_test_output_path_spec(path@),
{
    let norm = slashes_exec(path);
    let n = norm.as_str();
    str_contains(n, "/tests/") || str_contains(n, "/test/") || str_contains(n, "/__tests__/")
        || str_contains(n, "/spec/") || str_contains(n, "/specs/") || str_starts_with(n, "tests/")
        || str_starts_with(n, "test/")
}

/// A new source module: not a manifest, docs, JSON, test or package entry.
pub open spec fn is_new_source_module_spec(path: Seq<char>) -> bool {
    !is_dependency_manifest_spec(path) && contains(path, "."@) && !ends_with(path, ".md"@)
        && !ends_with(path, ".json"@) && !contains(path, "/tests/"@)
        && !is_module_entry_file_spec(path)
}

pub fn is_new_source_module(path: &str) -> (b: bool)
    ensures
        b == is_new_source_module_spec(path@),
{
    !is_dependency_manifest(path) && str_contains(path, ".") && !str_ends_with(path, ".md")
        && !str_ends_with(path, ".json") && !str_contains(path, "/tests/")
        && !is_module_entry_file(path)
}

// ---------------------------------------------------------------------------
// path:line citations in goals
// ---------------------------------------------------------------------------

pub open spec fn citation_sep(c: char) -> bool {
    is_ws(c) || c == '(' || c == ';'
}

/// Index of the last whitespace, `(` or `;` before `end`.
pub open spec fn last_sep_before(s: Seq<char>, end: int) -> Option<int>
    decreases end,
{
    if end <= 0 {
        None
    } else if citation_sep(s[end - 1]) {
        Some(end - 1)
    } else {
        last_sep_before(s, end - 1)
    }
}

/// The path token that ends where `before` ends.
pub open spec fn citation_path(before: Seq<char>) -> Seq<char> {
    match last_sep_before(before, before.len() as int) {
        Some(j) => before.skip(j + 1),
        None => before,
    }
}

/// The colon at `idx` starts a `path.ext:digit` citation.
pub open spec fn cites_at(goal: Seq<char>, idx: int) -> bool {
    &&& 0 <= idx < goal.len()
    &&& goal[idx] == ':'
    &&& idx + 1 < goal.len()
    &&& is_digit(goal[idx + 1])
    &&& contains(citation_path(goal.take(idx)), "."@)
}

/// The goal cites `path:line` evidence somewhere.
pub open spec fn goal_has_line_citation_spec(goal: Seq<char>) -> bool {
    exists|i: int| cites_at(goal, i)
}

fn citation_path_exec(v: &Vec<char>, idx: usize) -> (r: Vec<char>)
    requires
        idx <= v@.len(),
    ensures
        r@ == citation_path(v@.take(idx as int)),
{
    let ghost before = v@.take(idx as int);
    let mut end = idx;
    while end > 0
        invariant
            end <= idx <= v@.len(),
            before == v@.take(idx as int),
            last_sep_before(before, before.len() as int) == last_sep_before(before, end as int),
        decreases end,
    {
        let c = v[end - 1];
        assert(before[end - 1] == c);
        if is_ws_exec(c) || c == '(' || c == ';' {
            let r = copy_range(v.as_slice(), end, idx);
            assert(r@ =~= before.skip(end as int));
            return r;
        }
        end = end - 1;
    }
    let r = copy_range(v.as_slice(), 0, idx);
    assert(r@ =~= before);
    r
}

/// Does the goal cite `path:line` evidence (e.g. `config_server.rs:35`)?
pub fn goal_has_line_citation(goal: &str) -> (b: bool)
    ensures
        b == goal_has_line_citation_spec(goal@),
{
    let v = chars_of(goal);
    let dot = chars_of(".");
    let mut i: usize = 0;
    while i < v.len()
        invariant
            i <= v@.len(),
            v@ == goal@,
            dot@ == "."@,
            forall|j: int| 0 <= j < i ==> !cites_at(goal@, j),
        decreases v.len() - i,
    {
        if v[i] == ':' && i + 1 < v.len() && '0' <= v[i + 1] && v[i + 1] <= '9' {
            let p = citation_path_exec(&v, i);
            if contains_exec(p.as_slice(), dot.as_slice()) {
                assert(cites_at(goal@, i as int));
                return true;
            }
        }
        i = i + 1;
    }
    assert(forall|j: int| !cites_at(goal@, j)) by {
        assert forall|j: int| !cites_at(goal@, j) by {
            if 0 <= j < i {
            }
        }
    }
    false
}

/// Digits right after the first `:` of a goal, read as a line number (at least 1).
pub open spec fn goal_line_number_spec(goal: Seq<char>) -> Option<nat> {
    match find_from(goal, ":"@, 0) {
        None => None,
        Some(i) => {
            let after = goal.skip(i + 1);
            let k = leading_digits(after);
            match parse_nat(after.take(k)) {
                Some(n) => if n >= 1 && n <= usize::MAX {
                    Some(n)
                } else {
                    None
                },
                None => None,
            }
        },
    }
}

/// Number of leading ASCII digits.
pub open spec fn leading_digits(s: Seq<char>) -> int
    decreases s.len(),
{
    if s.len() > 0 && is_digit(s[0]) {
        1 + leading_digits(s.drop_first())
    } else {
        0
    }
}

proof fn lemma_leading_digits(s: Seq<char>, i: int)
    requires
        0 <= i <= s.len(),
        forall|j: int| 0 <= j < i ==> is_digit(#[trigger] s[j]),
        i == s.len() || !is_digit(s[i]),
    ensures
        leading_digits(s) == i,
    decreases i,
{
    if i > 0 {
        assert forall|j: int| 0 <= j < i - 1 implies is_digit(#[trigger] s.drop_first()[j]) by {
            assert(s.drop_first()[j] == s[j + 1]);
        }
        if i < s.len() {
            assert(s.drop_first()[i - 1] == s[i]);
        }
        lemma_leading_digits(s.drop_first(), i - 1);
    }
}

/// The line number a goal cites after its first `:`.
pub fn goal_line_number(goal: &str) -> (r: Option<usize>)
    ensures
        match r {
            Some(n) => goal_line_number_spec(goal@) == Some(n as nat),
            None => goal_line_number_spec(goal@) is None,
        },
{
    let v = chars_of(goal);
    let colon = chars_of(":");
    proof {
        reveal_strlit(":");
    }
    let idx = match find_from_exec(v.as_slice(), colon.as_slice(), 0) {
        Some(i) => i,
        None => {
            return None;
        },
    };
    proof {
        lemma_find_from(goal@, ":"@, 0);
    }
    let n = v.len();
    assert(idx + colon@.len() <= n);
    let after = copy_range(v.as_slice(), idx + 1, n);
    let mut k: usize = 0;
    while k < after.len() && '0' <= after[k] && after[k] <= '9'
        invariant
            k <= after@.len(),
            forall|j: int| 0 <= j < k ==> is_digit(#[trigger] after@[j]),
        decreases after.len() - k,
    {
        k = k + 1;
    }
    proof {
        lemma_leading_digits(after@, k as int);
        assert(after@ =~= goal@.skip(idx + 1));
    }
    let digits = copy_range(after.as_slice(), 0, k);
    assert(digits@ =~= after@.take(k as int));
    match parse_usize(digits.as_slice()) {
        Some(n) => if n >= 1 {
            Some(n)
        } else {
            None
        },
        None => None,
    }
}

// ---------------------------------------------------------------------------
// Hunk gates
// ---------------------------------------------------------------------------

/// The hint appended to a grounding failure.
pub open spec fn grounding_hint_spec(goal: Seq<char>, target: Seq<char>) -> Seq<char> {
    match goal_line_number_spec(goal) {
        Some(line) => " Fix: call extract_search_anchor(file="@ + debug_str(target) + ", start="@
            + decimal(line) + ", end="@ + decimal(line)
            + ") during scout and paste the returned SEARCH block."@,
        None => " Fix: call extract_search_anchor on "@ + target
            + " with the line range from your goal."@,
    }
}

pub fn grounding_fix_hint(goal: &str, target: &str) -> (r: String)
    ensures
        r@ == grounding_hint_spec(goal@, target@),
{
    match goal_line_number(goal) {
        Some(line) => {
            let mut r = " Fix: call extract_search_anchor(file=".to_owned();
            let q = debug_quote(target);
            r.append(q.as_str());
            r.append(", start=");
            let d = fmt_usize(line);
            r.append(d.as_str());
            r.append(", end=");
            r.append(d.as_str());
            r.append(") during scout and paste the returned SEARCH block.");
            r
        },
        None => {
            let mut r = " Fix: call extract_search_anchor on ".to_owned();
            r.append(target);
            r.append(" with the line range from your goal.");
            r
        },
    }
}

/// The first 60 characters (or fewer).
pub open spec fn preview(s: Seq<char>) -> Seq<char> {
    s.take(if s.len() < 60 {
        s.len() as int
    } else {
        60
    })
}

fn preview_exec(s: &str) -> (r: String)
    ensures
        r@ == preview(s@),
{
    let v = chars_of(s);
    let k = if v.len() < 60 {
        v.len()
    } else {
        60
    };
    let p = copy_range(v.as_slice(), 0, k);
    assert(p@ =~= preview(s@));
    string_of(p.as_slice())
}

/// Every SEARCH body, from hunk `i` on, is non-blank and occurs verbatim in the file.
pub open spec fn grounding_from(
    idx: nat,
    target: Seq<char>,
    hs: Seq<(Seq<char>, Seq<char>)>,
    file_body: Seq<char>,
    goal: Seq<char>,
    i: int,
) -> Result<(), Seq<char>>
    decreases hs.len() - i,
{
    if i < 0 || i >= hs.len() {
        Ok(())
    } else if trim(hs[i].0).len() == 0 {
        Err(at(idx) + "empty SEARCH block in "@ + target + " — call read_file or extract_search_anchor on "@
            + target + " and copy the anchor verbatim"@)
    } else if !contains(lf(file_body), lf(hs[i].0)) {
        Err(at(idx) + "SEARCH block not found in "@ + target
            + " — anchor must be copied verbatim from read_file; got: "@ + debug_str(
            preview(hs[i].0),
        ) + "."@ + grounding_hint_spec(goal, target))
    } else {
        grounding_from(idx, target, hs, file_body, goal, i + 1)
    }
}

/// Every SEARCH anchor must be a verbatim substring of the file (CRLF-insensitive).
pub fn validate_hunk_grounding(idx: usize, target: &str, hunks: &[Hunk], file_body: &str, goal: &str) -> (r:
    Result<(), String>)
    ensures
        err_view(r) == grounding_from(idx as nat, target@, hunk_views(hunks@), file_body@, goal@, 0),
{
    let ghost hv = hunk_views(hunks@);
    let fv = chars_of(file_body);
    let file = lf_exec(fv.as_slice());
    let mut i: usize = 0;
    while i < hunks.len()
        invariant
            i <= hunks@.len(),
            hv == hunk_views(hunks@),
            file@ == lf(file_body@),
            grounding_from(idx as nat, target@, hv, file_body@, goal@, 0) == grounding_from(
                idx as nat,
                target@,
                hv,
                file_body@,
                goal@,
                i as int,
            ),
        decreases hunks.len() - i,
    {
        assert(hv[i as int].0 == hunks@[i as int].search@);
        let sv = chars_of(hunks[i].search.as_str());
        let t = trim_exec(sv.as_slice());
        if t.len() == 0 {
            let mut e = at_exec(idx);
            e.append("empty SEARCH block in ");
            e.append(target);
            e.append(" — call read_file or extract_search_anchor on ");
            e.append(target);
            e.append(" and copy the anchor verbatim");
            return Err(e);
        }
        let search = lf_exec(sv.as_slice());
        if !contains_exec(file.as_slice(), search.as_slice()) {
            let p = preview_exec(hunks[i].search.as_str());
            let hint = grounding_fix_hint(goal, target);
            let mut e = at_exec(idx);
            e.append("SEARCH block not found in ");
            e.append(target);
            e.append(" — anchor must be copied verbatim from read_file; got: ");
            let q = debug_quote(p.as_str());
            e.append(q.as_str());
            e.append(".");
            e.append(hint.as_str());
            return Err(e);
        }
        i = i + 1;
    }
    Ok(())
}

/// Does some line of `rl`, trimmed, equal `t`?
pub open spec fn some_trimmed_eq(rl: Seq<Seq<char>>, t: Seq<char>) -> bool {
    exists|k: int| 0 <= k < rl.len() && trim(#[trigger] rl[k]) == t
}

/// Non-blank SEARCH lines kept (trimmed) somewhere in REPLACE.
pub open spec fn preserved(sl: Seq<Seq<char>>, rl: Seq<Seq<char>>) -> nat
    decreases sl.len(),
{
    if sl.len() == 0 {
        0
    } else {
        preserved(sl.drop_last(), rl) + if trim(sl.last()).len() > 0 && some_trimmed_eq(
            rl,
            trim(sl.last()),
        ) {
            1nat
        } else {
            0nat
        }
    }
}

fn some_trimmed_eq_exec(rl: &Vec<Vec<char>>, t: &Vec<char>) -> (b: bool)
    ensures
        b == some_trimmed_eq(views(rl@), t@),
{
    let mut k: usize = 0;
    while k < rl.len()
        invariant
            k <= rl@.len(),
            forall|j: int| 0 <= j < k ==> trim(#[trigger] views(rl@)[j]) != t@,
        decreases rl.len() - k,
    {
        let tr = trim_exec(rl[k].as_slice());
        assert(views(rl@)[k as int] == rl@[k as int]@);
        if tr.len() == t.len() && crate::text::matches_at_exec(tr.as_slice(), t.as_slice(), 0) {
            assert(tr@ =~= t@) by {
                assert(tr@.subrange(0, t@.len() as int) =~= tr@);
            }
            return true;
        }
        proof {
            if tr@ == t@ {
                assert(tr@.subrange(0, t@.len() as int) =~= tr@);
            }
        }
        k = k + 1;
    }
    false
}

/// Counts SEARCH lines that survive (trimmed) in REPLACE.
pub fn count_preserved_search_lines(search: &str, replace: &str) -> (n: usize)
    ensures
        n == preserved(lines(search@), lines(replace@)),
{
    let sv = chars_of(search);
    let rv = chars_of(replace);
    let sl = lines_exec(sv.as_slice());
    let rl = lines_exec(rv.as_slice());
    let ghost slv = views(sl@);
    let mut n: usize = 0;
    let mut i: usize = 0;
    while i < sl.len()
        invariant
            i <= sl@.len(),
            slv == views(sl@),
            slv == lines(search@),
            views(rl@) == lines(replace@),
            n == preserved(slv.take(i as int), views(rl@)),
            n <= i,
        decreases sl.len() - i,
    {
        assert(slv.take(i + 1).drop_last() =~= slv.take(i as int));
        assert(slv[i as int] == sl@[i as int]@);
        let t = trim_exec(sl[i].as_slice());
        if t.len() > 0 && some_trimmed_eq_exec(&rl, &t) {
            n = n + 1;
        }
        i = i + 1;
    }
    assert(slv.take(slv.len() as int) =~= slv);
    n
}

/// REPLACE must differ from SEARCH, add at most 15 non-blank lines, and (for
/// multi-line SEARCH of equal size) keep at least one SEARCH line — from hunk `i` on.
pub open spec fn minimality_from(idx: nat, target: Seq<char>, hs: Seq<(Seq<char>, Seq<char>)>, i: int) -> Result<
    (),
    Seq<char>,
>
    decreases hs.len() - i,
{
    if i < 0 || i >= hs.len() {
        Ok(())
    } else {
        let s = hs[i].0;
        let r = hs[i].1;
        let sl = nonblank(lines(s)).len();
        let rl = nonblank(lines(r)).len();
        if r == s {
            Err(at(idx) + "REPLACE identical to SEARCH in "@ + target + " — no-op edit"@)
        } else if rl > sl + 15 {
            Err(at(idx) + "REPLACE adds "@ + decimal((rl - sl) as nat) + " non-empty lines over "@
                + decimal(sl) + "-line SEARCH in "@ + target
                + " (max +15) — move the extra logic into a create_file step for a new module, keep patch_file as wiring-only hunks"@)
        } else if sl >= 2 && sl == rl && preserved(lines(s), lines(r)) == 0 {
            Err(at(idx) + "REPLACE rewrites every SEARCH line in "@ + target
                + " — keep at least one verbatim SEARCH line or use create_file for large changes"@)
        } else {
            minimality_from(idx, target, hs, i + 1)
        }
    }
}

/// Surgical-size gate on every hunk of a `patch_file` step.
pub fn validate_hunk_minimality(idx: usize, target: &str, hunks: &[Hunk]) -> (r: Result<(), String>)
    ensures
        err_view(r) == minimality_from(idx as nat, target@, hunk_views(hunks@), 0),
{
    let ghost hv = hunk_views(hunks@);
    let mut i: usize = 0;
    while i < hunks.len()
        invariant
            i <= hunks@.len(),
            hv == hunk_views(hunks@),
            minimality_from(idx as nat, target@, hv, 0) == minimality_from(
                idx as nat,
                target@,
                hv,
                i as int,
            ),
        decreases hunks.len() - i,
    {
        assert(hv[i as int] == (hunks@[i as int].search@, hunks@[i as int].replace@));
        let s = hunks[i].search.as_str();
        let r = hunks[i].replace.as_str();
        if str_eq(r, s) {
            let mut e = at_exec(idx);
            e.append("REPLACE identical to SEARCH in ");
            e.append(target);
            e.append(" — no-op edit");
            return Err(e);
        }
        let sl = count_nonempty_lines(s);
        let rl = count_nonempty_lines(r);
        if rl > sl && rl - sl > SURGICAL_MAX_NEW_LINES {
            let mut e = at_exec(idx);
            e.append("REPLACE adds ");
            let d = fmt_usize(rl - sl);
            e.append(d.as_str());
            e.append(" non-empty lines over ");
            let d2 = fmt_usize(sl);
            e.append(d2.as_str());
            e.append("-line SEARCH in ");
            e.append(target);
            e.append(
                " (max +15) — move the extra logic into a create_file step for a new module, keep patch_file as wiring-only hunks",
            );
            return Err(e);
        }
        if sl >= 2 && sl == rl && count_preserved_search_lines(s, r) == 0 {
            let mut e = at_exec(idx);
            e.append("REPLACE rewrites every SEARCH line in ");
            e.append(target);
            e.append(
                " — keep at least one verbatim SEARCH line or use create_file for large changes",
            );
            return Err(e);
        }
        i = i + 1;
    }
    Ok(())
}

/// The first `{`..`}` span: from the first `{` to the last `}`, when that comes later.
pub open spec fn extract_json_object_spec(text: Seq<char>) -> Option<Seq<char>> {
    match (find_from(text, "{"@, 0), rfind(text, "}"@)) {
        (Some(s), Some(e)) => if e > s {
            Some(text.subrange(s, e + 1))
        } else {
            None
        },
        _ => None,
    }
}

/// Naive brace slice used to recover a JSON object from model prose.
pub fn extract_json_object(text: &str) -> (r: Option<String>)
    ensures
        match r {
            Some(s) => extract_json_object_spec(text@) == Some(s@),
            None => extract_json_object_spec(text@) is None,
        },
{
    proof {
        reveal_strlit("}");
    }
    let v = chars_of(text);
    let open = chars_of("{");
    let close = chars_of("}");
    let start = match find_from_exec(v.as_slice(), open.as_slice(), 0) {
        Some(s) => s,
        None => {
            return None;
        },
    };
    let end = match rfind_exec(v.as_slice(), close.as_slice()) {
        Some(e) => e,
        None => {
            return None;
        },
    };
    if end > start {
        proof {
            lemma_rfind_before(text@, "}"@, text@.len() + 1int);
        }
        let n = v.len();
        assert(end + close@.len() <= n);
        let s = copy_range(v.as_slice(), start, end + 1);
        Some(string_of(s.as_slice()))
    } else {
        None
    }
}

// ---------------------------------------------------------------------------
// Blueprint schema
// ---------------------------------------------------------------------------

/// The workspace files a blueprint names, as read from disk: `(target_file, contents)`
/// for each target that is a readable regular file.
pub struct WorkspaceFiles {
    pub files: Vec<(String, String)>,
}

/// Contents of the first entry for `path`.
pub open spec fn file_at(files: Seq<(String, String)>, path: Seq<char>) -> Option<Seq<char>>
    decreases files.len(),
{
    if files.len() == 0 {
        None
    } else if files[0].0@ == path {
        Some(files[0].1@)
    } else {
        file_at(files.drop_first(), path)
    }
}

impl WorkspaceFiles {
    /// Contents of `path`, if it is one of the files.
    pub fn lookup(&self, path: &str) -> (r: Option<&String>)
        ensures
            match r {
                Some(c) => file_at(self.files@, path@) == Some(c@),
                None => file_at(self.files@, path@) is None,
            },
    {
        let mut i: usize = 0;
        assert(self.files@.skip(0) =~= self.files@);
        while i < self.files.len()
            invariant
                i <= self.files@.len(),
                file_at(self.files@, path@) == file_at(self.files@.skip(i as int), path@),
            decreases self.files.len() - i,
        {
            assert(self.files@.skip(i as int).drop_first() =~= self.files@.skip(i + 1));
            assert(self.files@.skip(i as int)[0] == self.files@[i as int]);
            if str_eq(self.files[i].0.as_str(), path) {
                return Some(&self.files[i].1);
            }
            i = i + 1;
        }
        None
    }
}

pub open spec fn plain_at(idx: nat) -> Seq<char> {
    "pipeline["@ + decimal(idx) + "]"@
}

pub open spec fn allowed_agent(a: Seq<char>) -> bool {
    a == "TranspilerAgent"@ || a == "BuilderAgent"@
}

pub open spec fn allowed_action(a: Seq<char>) -> bool {
    a == "patch_file"@ || a == "create_file"@ || a == "sync_types"@ || a == "generate_tests"@
}

/// Schema and content rules for one pipeline step.
pub open spec fn step_spec(idx: nat, step: JsonValue, files: Seq<(String, String)>) -> Result<
    (),
    Seq<char>,
> {
    if !(step is Object) {
        Err(plain_at(idx) + " must be a JSON object"@)
    } else {
        match get(step, "step"@) {
            Some(JsonValue::Int(n)) if n >= 1 => match get_str(step, "agent"@) {
                None => Err(at(idx) + "missing or non-string 'agent'"@),
                Some(agent) => if !allowed_agent(agent) {
                    Err(at(idx)
                        + "'agent' must be one of [\"TranspilerAgent\", \"BuilderAgent\"] (TriageAgent is not a blueprint step), got "@
                        + debug_str(agent))
                } else {
                    match get_str(step, "action"@) {
                        None => Err(at(idx) + "missing or non-string 'action'"@),
                        Some(action) => if !allowed_action(action) {
                            Err(at(idx)
                                + "'action' must be one of [\"patch_file\", \"create_file\", \"sync_types\", \"generate_tests\"], got "@
                                + debug_str(action))
                        } else if !routing_ok(agent, action) {
                            routing_spec(idx, agent, action)
                        } else {
                            step_target_spec(idx, step, action, files)
                        },
                    }
                },
            },
            Some(JsonValue::Int(n)) => Err(at(idx) + "'step' must be >= 1, got "@
                + crate::text::decimal_int(n as int)),
            _ => Err(at(idx) + "missing or non-integer 'step'"@),
        }
    }
}

/// Rules on `target_file`, `goal` and `patch_content` of a step whose agent and
/// action passed.
pub open spec fn step_target_spec(
    idx: nat,
    step: JsonValue,
    action: Seq<char>,
    files: Seq<(String, String)>,
) -> Result<(), Seq<char>> {
    match get_str(step, "target_file"@) {
        None => Err(at(idx) + "missing or non-string 'target_file'"@),
        Some(target) => if trim(target).len() == 0 {
            Err(at(idx) + "'target_file' must not be empty"@)
        } else if action == "generate_tests"@ && !is_test_output_path_spec(target) {
            Err(at(idx)
                + "generate_tests target_file must be under tests/, test/, __tests__/, or spec/ — got "@
                + debug_str(target))
        } else if !(action == "create_file"@ || action == "generate_tests"@) && file_at(
            files,
            target,
        ) is None {
            Err(at(idx) + "target_file not found: "@ + target)
        } else {
            match get_str(step, "goal"@) {
                None => Err(at(idx) + "missing or non-string 'goal'"@),
                Some(goal) => if trim(goal).len() == 0 {
                    Err(at(idx) + "'goal' must not be empty"@)
                } else {
                    step_patch_spec(idx, step, action)
                },
            }
        },
    }
}

/// Rules on `patch_content`.
pub open spec fn step_patch_spec(idx: nat, step: JsonValue, action: Seq<char>) -> Result<(), Seq<char>> {
    match get(step, "patch_content"@) {
        None => Err(at(idx)
            + "missing 'patch_content' (use empty string for sync_types/generate_tests)"@),
        Some(JsonValue::Str(p)) => {
            let patch = p@;
            if (action == "sync_types"@ || action == "generate_tests"@) && patch.len() > 0 {
                Err(at(idx) + "'patch_content' must be empty for action '"@ + action + "'"@)
            } else if action == "patch_file"@ || action == "create_file"@ {
                if trim(patch).len() == 0 {
                    Err(at(idx) + "'patch_content' required for action '"@ + action + "'"@)
                } else {
                    patch_body_quality_spec(idx, action, patch)
                }
            } else {
                Ok(())
            }
        },
        Some(_) => Err(at(idx) + "'patch_content' must be a string"@),
    }
}

fn err_at(idx: usize, msg: &str) -> (e: String)
    ensures
        e@ == at(idx as nat) + msg@,
{
    let mut e = at_exec(idx);
    e.append(msg);
    e
}

fn step_patch(idx: usize, step: &JsonValue, action: &str) -> (r: Result<(), String>)
    ensures
        err_view(r) == step_patch_spec(idx as nat, *step, action@),
{
    let pc = match step.get("patch_content") {
        None => {
            return Err(
                err_at(idx, "missing 'patch_content' (use empty string for sync_types/generate_tests)"),
            );
        },
        Some(v) => v,
    };
    let patch = match pc.as_str() {
        Some(p) => p,
        None => {
            return Err(err_at(idx, "'patch_content' must be a string"));
        },
    };
    let is_sync_or_tests = str_eq(action, "sync_types") || str_eq(action, "generate_tests");
    if is_sync_or_tests && !patch.is_empty() {
        let mut e = err_at(idx, "'patch_content' must be empty for action '");
        e.append(action);
        e.append("'");
        return Err(e);
    }
    if str_eq(action, "patch_file") || str_eq(action, "create_file") {
        let t = crate::text::str_trim(patch);
        if t.as_str().is_empty() {
            let mut e = err_at(idx, "'patch_content' required for action '");
            e.append(action);
            e.append("'");
            return Err(e);
        }
        return validate_patch_body_quality(idx, action, patch);
    }
    Ok(())
}

fn step_target(idx: usize, step: &JsonValue, action: &str, files: &WorkspaceFiles) -> (r: Result<
    (),
    String,
>)
    ensures
        err_view(r) == step_target_spec(idx as nat, *step, action@, files.files@),
{
    let target = match get_str_exec(step, "target_file") {
        None => {
            return Err(err_at(idx, "missing or non-string 'target_file'"));
        },
        Some(t) => t,
    };
    let tt = crate::text::str_trim(target);
    if tt.as_str().is_empty() {
        return Err(err_at(idx, "'target_file' must not be empty"));
    }
    if str_eq(action, "generate_tests") && !is_test_output_path(target) {
        let mut e = err_at(
            idx,
            "generate_tests target_file must be under tests/, test/, __tests__/, or spec/ — got ",
        );
        let q = debug_quote(target);
        e.append(q.as_str());
        return Err(e);
    }
    if !(str_eq(action, "create_file") || str_eq(action, "generate_tests")) && files.lookup(
        target,
    ).is_none() {
        let mut e = err_at(idx, "target_file not found: ");
        e.append(target);
        return Err(e);
    }
    let goal = match get_str_exec(step, "goal") {
        None => {
            return Err(err_at(idx, "missing or non-string 'goal'"));
        },
        Some(g) => g,
    };
    let gt = crate::text::str_trim(goal);
    if gt.as_str().is_empty() {
        return Err(err_at(idx, "'goal' must not be empty"));
    }
    step_patch(idx, step, action)
}

/// Schema and content rules for one pipeline step.
pub fn validate_step(idx: usize, step: &JsonValue, files: &WorkspaceFiles) -> (r: Result<(), String>)
    ensures
        err_view(r) == step_spec(idx as nat, *step, files.files@),
{
    if !step.is_object() {
        let mut e = "pipeline[".to_owned();
        let d = fmt_usize(idx);
        e.append(d.as_str());
        e.append("]");
        e.append(" must be a JSON object");
        return Err(e);
    }
    let n = match step.get("step") {
        Some(v) => match v.as_i64() {
            Some(n) => n,
            None => {
                return Err(err_at(idx, "missing or non-integer 'step'"));
            },
        },
        None => {
            return Err(err_at(idx, "missing or non-integer 'step'"));
        },
    };
    if n < 1 {
        let mut e = err_at(idx, "'step' must be >= 1, got ");
        let d = crate::text::fmt_i64(n);
        e.append(d.as_str());
        return Err(e);
    }
    let agent = match get_str_exec(step, "agent") {
        None => {
            return Err(err_at(idx, "missing or non-string 'agent'"));
        },
        Some(a) => a,
    };
    if !(str_eq(agent, "TranspilerAgent") || str_eq(agent, "BuilderAgent")) {
        let mut e = err_at(
            idx,
            "'agent' must be one of [\"TranspilerAgent\", \"BuilderAgent\"] (TriageAgent is not a blueprint step), got ",
        );
        let q = debug_quote(agent);
        e.append(q.as_str());
        return Err(e);
    }
    let action = match get_str_exec(step, "action") {
        None => {
            return Err(err_at(idx, "missing or non-string 'action'"));
        },
        Some(a) => a,
    };
    if !(str_eq(action, "patch_file") || str_eq(action, "create_file") || str_eq(
        action,
        "sync_types",
    ) || str_eq(action, "generate_tests")) {
        let mut e = err_at(
            idx,
            "'action' must be one of [\"patch_file\", \"create_file\", \"sync_types\", \"generate_tests\"], got ",
        );
        let q = debug_quote(action);
        e.append(q.as_str());
        return Err(e);
    }
    validate_agent_action_routing(idx, agent, action)?;
    step_target(idx, step, action, files)
}

/// Every step, from `i` on, passes `validate_step`.
pub open spec fn steps_from(p: Seq<JsonValue>, files: Seq<(String, String)>, i: int) -> Result<
    (),
    Seq<char>,
>
    decreases p.len() - i,
{
    if i < 0 || i >= p.len() {
        Ok(())
    } else {
        match step_spec(i as nat, p[i], files) {
            Err(e) => Err(e),
            Ok(()) => steps_from(p, files, i + 1),
        }
    }
}

/// Every step, from `i` on, cites `path:line` in its goal (a generate_tests goal
/// cites the test file).
pub open spec fn goals_cited_from(p: Seq<JsonValue>, i: int) -> Result<(), Seq<char>>
    decreases p.len() - i,
{
    if i < 0 || i >= p.len() {
        Ok(())
    } else if !goal_has_line_citation_spec(get_str_or_empty(p[i], "goal"@)) {
        Err(at(i as nat) + "goal must cite path:line evidence (e.g. config_server.rs:35)"@)
    } else {
        goals_cited_from(p, i + 1)
    }
}

pub open spec fn some_action(p: Seq<JsonValue>, a: Seq<char>) -> bool {
    exists|i: int| 0 <= i < p.len() && get_str(#[trigger] p[i], "action"@) == Some(a)
}

pub open spec fn creates_new_module(p: Seq<JsonValue>) -> bool {
    exists|i: int|
        0 <= i < p.len() && get_str(#[trigger] p[i], "action"@) == Some("create_file"@) && (get_str(
            p[i],
            "target_file"@,
        ) matches Some(t) && is_new_source_module_spec(t))
}

pub open spec fn patches_module_entry(p: Seq<JsonValue>) -> bool {
    exists|i: int|
        0 <= i < p.len() && get_str(#[trigger] p[i], "action"@) == Some("patch_file"@) && (get_str(
            p[i],
            "target_file"@,
        ) matches Some(t) && is_module_entry_file_spec(t))
}

/// Pipeline-wide quality gates: cited goals, tests for code changes, and package
/// entry wiring for new modules.
pub open spec fn completeness_spec(p: Seq<JsonValue>) -> Result<(), Seq<char>> {
    match goals_cited_from(p, 0) {
        Err(e) => Err(e),
        Ok(()) => if (some_action(p, "patch_file"@) || some_action(p, "create_file"@))
            && !some_action(p, "generate_tests"@) {
            Err(
                "pipeline must include a generate_tests step when patch_file or create_file are present"@,
            )
        } else if creates_new_module(p) && !patches_module_entry(p) {
            Err(
                "pipeline with create_file for a new source module must include patch_file on the package entry (lib.rs, mod.rs, __init__.py, index.ts, …)"@,
            )
        } else {
            Ok(())
        },
    }
}

fn action_is(step: &JsonValue, a: &str) -> (b: bool)
    ensures
        b == (get_str(*step, "action"@) == Some(a@)),
{
    match get_str_exec(step, "action") {
        Some(x) => str_eq(x, a),
        None => false,
    }
}

pub fn validate_blueprint_completeness(pipeline: &Vec<JsonValue>) -> (r: Result<(), String>)
    ensures
        err_view(r) == completeness_spec(pipeline@),
{
    let ghost p = pipeline@;
    let mut i: usize = 0;
    while i < pipeline.len()
        invariant
            i <= p.len(),
            p == pipeline@,
            goals_cited_from(p, 0) == goals_cited_from(p, i as int),
        decreases pipeline.len() - i,
    {
        let step = &pipeline[i];
        let goal = get_str_or_empty_exec(step, "goal");
        if !goal_has_line_citation(goal) {
            return Err(err_at(i, "goal must cite path:line evidence (e.g. config_server.rs:35)"));
        }
        i = i + 1;
    }
    let mut has_patch = false;
    let mut has_create = false;
    let mut has_tests = false;
    let mut creates = false;
    let mut entry = false;
    let mut j: usize = 0;
    while j < pipeline.len()
        invariant
            j <= p.len(),
            p == pipeline@,
            has_patch == exists|k: int|
                0 <= k < j && get_str(#[trigger] p[k], "action"@) == Some("patch_file"@),
            has_create == exists|k: int|
                0 <= k < j && get_str(#[trigger] p[k], "action"@) == Some("create_file"@),
            has_tests == exists|k: int|
                0 <= k < j && get_str(#[trigger] p[k], "action"@) == Some("generate_tests"@),
            creates == exists|k: int|
                0 <= k < j && get_str(#[trigger] p[k], "action"@) == Some("create_file"@) && (get_str(
                    p[k],
                    "target_file"@,
                ) matches Some(t) && is_new_source_module_spec(t)),
            entry == exists|k: int|
                0 <= k < j && get_str(#[trigger] p[k], "action"@) == Some("patch_file"@) && (get_str(
                    p[k],
                    "target_file"@,
                ) matches Some(t) && is_module_entry_file_spec(t)),
        decreases pipeline.len() - j,
    {
        let step = &pipeline[j];
        let is_patch = action_is(step, "patch_file");
        let is_create = action_is(step, "create_file");
        let is_tests = action_is(step, "generate_tests");
        let target = get_str_exec(step, "target_file");
        let new_module = match target {
            Some(t) => is_new_source_module(t),
            None => false,
        };
        let module_entry = match target {
            Some(t) => is_module_entry_file(t),
            None => false,
        };
        has_patch = has_patch || is_patch;
        has_create = has_create || is_create;
        has_tests = has_tests || is_tests;
        creates = creates || (is_create && new_module);
        entry = entry || (is_patch && module_entry);
        j = j + 1;
    }
    if (has_patch || has_create) && !has_tests {
        return Err(
            "pipeline must include a generate_tests step when patch_file or create_file are present".to_owned(),
        );
    }
    if creates && !entry {
        return Err(
            "pipeline with create_file for a new source module must include patch_file on the package entry (lib.rs, mod.rs, __init__.py, index.ts, …)".to_owned(),
        );
    }
    Ok(())
}

pub const READ_FAILURE: &'static str = "No such file or directory (os error 2)";

/// Hunk gates for every `patch_file` step from `i` on.
pub open spec fn patch_hunks_from(p: Seq<JsonValue>, files: Seq<(String, String)>, i: int) -> Result<
    (),
    Seq<char>,
>
    decreases p.len() - i,
{
    if i < 0 || i >= p.len() {
        Ok(())
    } else if get_str(p[i], "action"@) != Some("patch_file"@) {
        patch_hunks_from(p, files, i + 1)
    } else {
        match get_str(p[i], "target_file"@) {
            None => Err(at(i as nat) + "missing target_file"@),
            Some(t) => match parse_hunks_spec(get_str_or_empty(p[i], "patch_content"@)) {
                Err(e) => Err(at(i as nat) + e),
                Ok(hs) => match file_at(files, t) {
                    None => Err(at(i as nat) + "cannot read "@ + t + " for hunk gate: "@
                        + READ_FAILURE@),
                    Some(body) => match grounding_from(
                        i as nat,
                        t,
                        hs,
                        body,
                        get_str_or_empty(p[i], "goal"@),
                        0,
                    ) {
                        Err(e) => Err(e),
                        Ok(()) => match minimality_from(i as nat, t, hs, 0) {
                            Err(e) => Err(e),
                            Ok(()) => patch_hunks_from(p, files, i + 1),
                        },
                    },
                },
            },
        }
    }
}

/// Always-on: every `patch_file` step uses grounded, minimal SEARCH/REPLACE hunks.
pub fn validate_patch_hunks(pipeline: &Vec<JsonValue>, files: &WorkspaceFiles) -> (r: Result<
    (),
    String,
>)
    ensures
        err_view(r) == patch_hunks_from(pipeline@, files.files@, 0),
{
    let ghost p = pipeline@;
    let mut i: usize = 0;
    while i < pipeline.len()
        invariant
            i <= p.len(),
            p == pipeline@,
            patch_hunks_from(p, files.files@, 0) == patch_hunks_from(p, files.files@, i as int),
        decreases pipeline.len() - i,
    {
        let step = &pipeline[i];
        if action_is(step, "patch_file") {
            let target = match get_str_exec(step, "target_file") {
                None => {
                    return Err(err_at(i, "missing target_file"));
                },
                Some(t) => t,
            };
            let patch = get_str_or_empty_exec(step, "patch_content");
            let hunks = match parse_hunks(patch) {
                Ok(h) => h,
                Err(e) => {
                    let mut m = at_exec(i);
                    m.append(e.as_str());
                    return Err(m);
                },
            };
            let body = match files.lookup(target) {
                None => {
                    let mut m = err_at(i, "cannot read ");
                    m.append(target);
                    m.append(" for hunk gate: ");
                    m.append(READ_FAILURE);
                    return Err(m);
                },
                Some(b) => b,
            };
            let goal = get_str_or_empty_exec(step, "goal");
            validate_hunk_grounding(i, target, hunks.as_slice(), body.as_str(), goal)?;
            validate_hunk_minimality(i, target, hunks.as_slice())?;
        }
        i = i + 1;
    }
    Ok(())
}

/// What `validate_blueprint` decides for a parsed document.
pub open spec fn blueprint_spec(bp: JsonValue, files: Seq<(String, String)>) -> Result<(), Seq<char>> {
    if !(bp is Object) {
        Err("top-level value must be a JSON object"@)
    } else {
        match get_str(bp, "task_id"@) {
            None => Err("missing or non-string 'task_id'"@),
            Some(tid) => if !is_kebab_case_spec(tid) {
                Err("'task_id' must be kebab-case (lowercase, hyphen-separated), got: "@ + debug_str(
                    tid,
                ))
            } else {
                match get_str(bp, "architecture_summary"@) {
                    None => Err("missing or non-string 'architecture_summary'"@),
                    Some(sm) => if trim(sm).len() == 0 {
                        Err("'architecture_summary' must not be empty"@)
                    } else {
                        match get_array(bp, "pipeline"@) {
                            None => Err("missing or non-array 'pipeline'"@),
                            Some(p) => if p.len() == 0 {
                                Err("'pipeline' must contain at least one step"@)
                            } else {
                                match steps_from(p, files, 0) {
                                    Err(e) => Err(e),
                                    Ok(()) => match completeness_spec(p) {
                                        Err(e) => Err(e),
                                        Ok(()) => patch_hunks_from(p, files, 0),
                                    },
                                }
                            },
                        }
                    },
                }
            },
        }
    }
}

/// Validates a parsed Blueprint: top-level fields, every step, pipeline completeness
/// and hunk gates (against the workspace files it names).
pub fn validate_blueprint_value(bp: &JsonValue, files: &WorkspaceFiles) -> (r: Result<(), String>)
    ensures
        err_view(r) == blueprint_spec(*bp, files.files@),
{
    if !bp.is_object() {
        return Err("top-level value must be a JSON object".to_owned());
    }
    let tid = match get_str_exec(bp, "task_id") {
        None => {
            return Err("missing or non-string 'task_id'".to_owned());
        },
        Some(t) => t,
    };
    if !is_kebab_case(tid) {
        let mut e = "'task_id' must be kebab-case (lowercase, hyphen-separated), got: ".to_owned();
        let q = debug_quote(tid);
        e.append(q.as_str());
        return Err(e);
    }
    let summary = match get_str_exec(bp, "architecture_summary") {
        None => {
            return Err("missing or non-string 'architecture_summary'".to_owned());
        },
        Some(s) => s,
    };
    let st = crate::text::str_trim(summary);
    if st.as_str().is_empty() {
        return Err("'architecture_summary' must not be empty".to_owned());
    }
    let pipeline = match get_array_exec(bp, "pipeline") {
        None => {
            return Err("missing or non-array 'pipeline'".to_owned());
        },
        Some(p) => p,
    };
    if pipeline.len() == 0 {
        return Err("'pipeline' must contain at least one step".to_owned());
    }
    let ghost p = pipeline@;
    let ghost rest = match steps_from(p, files.files@, 0) {
        Err(e) => Err(e),
        Ok(()) => match completeness_spec(p) {
            Err(e) => Err(e),
            Ok(()) => patch_hunks_from(p, files.files@, 0),
        },
    };
    assert(blueprint_spec(*bp, files.files@) == rest);
    let mut i: usize = 0;
    while i < pipeline.len()
        invariant
            i <= p.len(),
            p == pipeline@,
            blueprint_spec(*bp, files.files@) == rest,
            rest == match steps_from(p, files.files@, 0) {
                Err(e) => Err(e),
                Ok(()) => match completeness_spec(p) {
                    Err(e) => Err(e),
                    Ok(()) => patch_hunks_from(p, files.files@, 0),
                },
            },
            steps_from(p, files.files@, 0) == steps_from(p, files.files@, i as int),
        decreases pipeline.len() - i,
    {
        match validate_step(i, &pipeline[i], files) {
            Ok(()) => {},
            Err(e) => {
                return Err(e);
            },
        }
        i = i + 1;
    }
    validate_blueprint_completeness(pipeline)?;
    validate_patch_hunks(pipeline, files)
}

// ---------------------------------------------------------------------------
// Coordinator gates
// ---------------------------------------------------------------------------

/// First step, from `i` on, that is not TranspilerAgent + sync_types.
pub open spec fn first_not_sync(p: Seq<JsonValue>, i: int) -> Option<int>
    decreases p.len() - i,
{
    if i < 0 || i >= p.len() {
        None
    } else if !(get_str_or_empty(p[i], "agent"@) == "TranspilerAgent"@ && get_str_or_empty(
        p[i],
        "action"@,
    ) == "sync_types"@) {
        Some(i)
    } else {
        first_not_sync(p, i + 1)
    }
}

/// First `create_file` step from `i` on.
pub open spec fn first_create(p: Seq<JsonValue>, i: int) -> Option<int>
    decreases p.len() - i,
{
    if i < 0 || i >= p.len() {
        None
    } else if get_str(p[i], "action"@) == Some("create_file"@) {
        Some(i)
    } else {
        first_create(p, i + 1)
    }
}

/// First step from `i` on that creates a new source module.
pub open spec fn first_new_module(p: Seq<JsonValue>, i: int) -> Option<int>
    decreases p.len() - i,
{
    if i < 0 || i >= p.len() {
        None
    } else if get_str_or_empty(p[i], "action"@) == "create_file"@ && is_new_source_module_spec(
        get_str_or_empty(p[i], "target_file"@),
    ) {
        Some(i)
    } else {
        first_new_module(p, i + 1)
    }
}

/// Number of `patch_file`/`create_file` steps.
pub open spec fn code_steps(p: Seq<JsonValue>) -> nat
    decreases p.len(),
{
    if p.len() == 0 {
        0
    } else {
        code_steps(p.drop_last()) + if get_str(p.last(), "action"@) == Some("patch_file"@)
            || get_str(p.last(), "action"@) == Some("create_file"@) {
            1nat
        } else {
            0nat
        }
    }
}

/// The plan-kind rules on a pipeline.
pub open spec fn gates_spec(kind: PlanKind, p: Seq<JsonValue>, surgical: bool) -> Result<(), Seq<char>> {
    match kind {
        PlanKind::SyncTypes => match first_not_sync(p, 0) {
            Some(i) => Err("plan_kind sync_types: "@ + plain_at(i as nat)
                + " must be TranspilerAgent + sync_types only"@),
            None => Ok(()),
        },
        PlanKind::Bugfix => if p.len() > 3 {
            Err("plan_kind bugfix: pipeline has "@ + decimal(p.len()) + " steps (max 3)"@)
        } else {
            match first_create(p, 0) {
                Some(i) => Err("plan_kind bugfix: "@ + plain_at(i as nat)
                    + " must not use create_file"@),
                None => Ok(()),
            }
        },
        PlanKind::Refactor => match first_new_module(p, 0) {
            Some(i) => Err("plan_kind refactor: "@ + plain_at(i as nat)
                + " must not create_file a new source module"@),
            None => Ok(()),
        },
        PlanKind::Feature => if surgical && code_steps(p) < 2 {
            Err(
                "plan_kind feature with surgical expectation: need at least 2 patch_file/create_file steps"@,
            )
        } else {
            Ok(())
        },
    }
}

fn plain_at_exec(prefix: &str, idx: usize, suffix: &str) -> (e: String)
    ensures
        e@ == prefix@ + plain_at(idx as nat) + suffix@,
{
    let mut e = prefix.to_owned();
    e.append("pipeline[");
    let d = fmt_usize(idx);
    e.append(d.as_str());
    e.append("]");
    e.append(suffix);
    e
}

pub fn validate_plan_kind_gates(kind: PlanKind, pipeline: &Vec<JsonValue>, constraints: &CoordinatorConstraints) -> (r:
    Result<(), String>)
    ensures
        err_view(r) == gates_spec(kind, pipeline@, constraints.surgical_patches),
{
    let ghost p = pipeline@;
    match kind {
        PlanKind::SyncTypes => {
            let mut i: usize = 0;
            while i < pipeline.len()
                invariant
                    i <= p.len(),
                    p == pipeline@,
                    kind == PlanKind::SyncTypes,
                    first_not_sync(p, 0) == first_not_sync(p, i as int),
                decreases pipeline.len() - i,
            {
                let agent = get_str_or_empty_exec(&pipeline[i], "agent");
                let action = get_str_or_empty_exec(&pipeline[i], "action");
                if !(str_eq(agent, "TranspilerAgent") && str_eq(action, "sync_types")) {
                    return Err(
                        plain_at_exec(
                            "plan_kind sync_types: ",
                            i,
                            " must be TranspilerAgent + sync_types only",
                        ),
                    );
                }
                i = i + 1;
            }
            Ok(())
        },
        PlanKind::Bugfix => {
            if pipeline.len() > 3 {
                let mut e = "plan_kind bugfix: pipeline has ".to_owned();
                let d = fmt_usize(pipeline.len());
                e.append(d.as_str());
                e.append(" steps (max 3)");
                return Err(e);
            }
            let mut i: usize = 0;
            while i < pipeline.len()
                invariant
                    i <= p.len(),
                    p == pipeline@,
                    p.len() <= 3,
                    kind == PlanKind::Bugfix,
                    first_create(p, 0) == first_create(p, i as int),
                decreases pipeline.len() - i,
            {
                if action_is(&pipeline[i], "create_file") {
                    return Err(
                        plain_at_exec("plan_kind bugfix: ", i, " must not use create_file"),
                    );
                }
                i = i + 1;
            }
            Ok(())
        },
        PlanKind::Refactor => {
            let mut i: usize = 0;
            while i < pipeline.len()
                invariant
                    i <= p.len(),
                    p == pipeline@,
                    kind == PlanKind::Refactor,
                    first_new_module(p, 0) == first_new_module(p, i as int),
                decreases pipeline.len() - i,
            {
                let action = get_str_or_empty_exec(&pipeline[i], "action");
                let target = get_str_or_empty_exec(&pipeline[i], "target_file");
                if str_eq(action, "create_file") && is_new_source_module(target) {
                    return Err(
                        plain_at_exec(
                            "plan_kind refactor: ",
                            i,
                            " must not create_file a new source module",
                        ),
                    );
                }
                i = i + 1;
            }
            Ok(())
        },
        PlanKind::Feature => {
            if constraints.surgical_patches {
                let mut n: usize = 0;
                let mut i: usize = 0;
                while i < pipeline.len()
                    invariant
                        i <= p.len(),
                        p == pipeline@,
                        n == code_steps(p.take(i as int)),
                        n <= i,
                    decreases pipeline.len() - i,
                {
                    assert(p.take(i + 1).drop_last() =~= p.take(i as int));
                    if action_is(&pipeline[i], "patch_file") || action_is(
                        &pipeline[i],
                        "create_file",
                    ) {
                        n = n + 1;
                    }
                    i = i + 1;
                }
                assert(p.take(p.len() as int) =~= p);
                if n < 2 {
                    return Err(
                        "plan_kind feature with surgical expectation: need at least 2 patch_file/create_file steps".to_owned(),
                    );
                }
            }
            Ok(())
        },
    }
}

/// The coordinator gates (nothing is checked without coordinator fields).
pub open spec fn coordinator_spec(bp: JsonValue, c: CoordinatorConstraints) -> Result<(), Seq<char>> {
    if c.plan_kind is None && c.expectation is None {
        Ok(())
    } else {
        match get_array(bp, "pipeline"@) {
            None => Err("missing pipeline"@),
            Some(p) => match c.plan_kind {
                None => Ok(()),
                Some(k) => gates_spec(k, p, c.surgical_patches),
            },
        }
    }
}

/// Coordinator plan_kind / expectation gates (skipped when no coordinator fields were set).
pub fn validate_blueprint_coordinator(blueprint: &JsonValue, constraints: &CoordinatorConstraints) -> (r:
    Result<(), String>)
    ensures
        err_view(r) == coordinator_spec(*blueprint, *constraints),
{
    if constraints.is_default() {
        return Ok(());
    }
    let pipeline = match get_array_exec(blueprint, "pipeline") {
        None => {
            return Err("missing pipeline".to_owned());
        },
        Some(p) => p,
    };
    match constraints.plan_kind {
        Some(kind) => validate_plan_kind_gates(kind, pipeline, constraints),
        None => Ok(()),
    }
}

// ---------------------------------------------------------------------------
// Scouting grounding
// ---------------------------------------------------------------------------

/// `target`, resolved against the workspace root, names the same path as `touched`.
pub open spec fn target_matches_spec(root: Seq<char>, touched: Seq<char>, target: Seq<char>) -> bool {
    crate::paths::path_eq(crate::project::workspace_path_spec(root, target), touched)
}

/// Whether `touched` (a path read while scouting) is the workspace path of `target`.
pub fn path_matches_target(workspace_root: &str, touched: &str, target: &str) -> (b: bool)
    ensures
        b == target_matches_spec(workspace_root@, touched@, target@),
{
    let resolved = crate::project::resolve_workspace_path(workspace_root, target);
    crate::paths::path_eq_exec(resolved.as_str(), touched)
}

/// Some scouted path is the workspace path of `target`.
pub open spec fn was_scouted(root: Seq<char>, touched: Seq<String>, target: Seq<char>) -> bool {
    exists|j: int| 0 <= j < touched.len() && target_matches_spec(root, #[trigger] touched[j]@, target)
}

/// Every step from `i` on that edits an existing file names a scouted target.
pub open spec fn scouted_from(p: Seq<JsonValue>, touched: Seq<String>, root: Seq<char>, i: int) -> Result<
    (),
    Seq<char>,
>
    decreases p.len() - i,
{
    if i < 0 || i >= p.len() {
        Ok(())
    } else {
        let action = get_str_or_empty(p[i], "action"@);
        if action == "create_file"@ || action == "generate_tests"@ {
            scouted_from(p, touched, root, i + 1)
        } else {
            match get_str(p[i], "target_file"@) {
                None => Err(at(i as nat) + "missing target_file"@),
                Some(t) => if was_scouted(root, touched, t) {
                    scouted_from(p, touched, root, i + 1)
                } else {
                    Err(at(i as nat) + "target_file "@ + debug_str(t)
                        + " was not read — call read_file on it before emit_blueprint"@)
                },
            }
        }
    }
}

/// What `validate_blueprint_grounding` decides.
pub open spec fn blueprint_grounding_spec(bp: JsonValue, touched: Seq<String>, root: Seq<char>) -> Result<
    (),
    Seq<char>,
> {
    match get_array(bp, "pipeline"@) {
        None => Err("missing pipeline"@),
        Some(p) => if touched.len() == 0 {
            Err("no files scouted — read_file every target_file before emit_blueprint"@)
        } else {
            scouted_from(p, touched, root, 0)
        },
    }
}

fn any_scouted(workspace_root: &str, touched: &[String], target: &str) -> (b: bool)
    ensures
        b == was_scouted(workspace_root@, touched@, target@),
{
    let mut j: usize = 0;
    while j < touched.len()
        invariant
            j <= touched@.len(),
            forall|k: int| 0 <= k < j ==> !target_matches_spec(workspace_root@, #[trigger] touched@[k]@, target@),
        decreases touched.len() - j,
    {
        if path_matches_target(workspace_root, touched[j].as_str(), target) {
            return true;
        }
        j = j + 1;
    }
    false
}

/// Every `target_file` of a step that edits an existing file must be a path the
/// planner read during scouting (`touched`, absolute paths under `workspace_root`).
pub fn validate_blueprint_grounding(blueprint: &JsonValue, touched: &[String], workspace_root: &str) -> (r:
    Result<(), String>)
    ensures
        err_view(r) == blueprint_grounding_spec(*blueprint, touched@, workspace_root@),
{
    let pipeline = match get_array_exec(blueprint, "pipeline") {
        None => {
            return Err("missing pipeline".to_owned());
        },
        Some(p) => p,
    };
    if touched.len() == 0 {
        return Err("no files scouted — read_file every target_file before emit_blueprint".to_owned());
    }
    let ghost p = pipeline@;
    let mut i: usize = 0;
    while i < pipeline.len()
        invariant
            i <= p.len(),
            p == pipeline@,
            get_array(*blueprint, "pipeline"@) == Some(p),
            touched@.len() > 0,
            scouted_from(p, touched@, workspace_root@, 0) == scouted_from(p, touched@, workspace_root@, i as int),
        decreases pipeline.len() - i,
    {
        let step = &pipeline[i];
        let action = get_str_or_empty_exec(step, "action");
        if str_eq(action, "create_file") || str_eq(action, "generate_tests") {
            i = i + 1;
            continue;
        }
        let target = match get_str_exec(step, "target_file") {
            None => {
                return Err(err_at(i, "missing target_file"));
            },
            Some(t) => t,
        };
        if !any_scouted(workspace_root, touched, target) {
            let mut e = err_at(i, "target_file ");
            let q = debug_quote(target);
            e.append(q.as_str());
            e.append(" was not read — call read_file on it before emit_blueprint");
            return Err(e);
        }
        i = i + 1;
    }
    Ok(())
}


// ---------------------------------------------------------------------------
// What an accepted blueprint guarantees
// ---------------------------------------------------------------------------

proof fn lemma_goals_cited(p: Seq<JsonValue>, i: int)
    requires
        0 <= i,
        goals_cited_from(p, i) is Ok,
    ensures
        forall|k: int| i <= k < p.len() ==> goal_has_line_citation_spec(
            #[trigger] get_str_or_empty(p[k], "goal"@),
        ),
    decreases p.len() - i,
{
    if i < p.len() {
        lemma_goals_cited(p, i + 1);
        assert forall|k: int| i <= k < p.len() implies goal_has_line_citation_spec(
            #[trigger] get_str_or_empty(p[k], "goal"@),
        ) by {
            if k == i {
            } else {
            }
        }
    }
}

proof fn lemma_patches_grounded(p: Seq<JsonValue>, files: Seq<(String, String)>, i: int)
    requires
        0 <= i,
        patch_hunks_from(p, files, i) is Ok,
    ensures
        forall|k: int|
            i <= k < p.len() && get_str(#[trigger] p[k], "action"@) == Some("patch_file"@) ==> (get_str(
                p[k],
                "target_file"@,
            ) matches Some(t) && file_at(files, t) is Some && parse_hunks_spec(
                get_str_or_empty(p[k], "patch_content"@),
            ) is Ok),
    decreases p.len() - i,
{
    if i < p.len() {
        if get_str(p[i], "action"@) == Some("patch_file"@) {
            match get_str(p[i], "target_file"@) {
                Some(t) => match parse_hunks_spec(get_str_or_empty(p[i], "patch_content"@)) {
                    Ok(hs) => match file_at(files, t) {
                        Some(body) => {
                            match grounding_from(
                                i as nat,
                                t,
                                hs,
                                body,
                                get_str_or_empty(p[i], "goal"@),
                                0,
                            ) {
                                Ok(()) => match minimality_from(i as nat, t, hs, 0) {
                                    Ok(()) => {
                                        lemma_patches_grounded(p, files, i + 1);
                                    },
                                    Err(_) => {},
                                },
                                Err(_) => {},
                            }
                        },
                        None => {},
                    },
                    Err(_) => {},
                },
                None => {},
            }
        } else {
            lemma_patches_grounded(p, files, i + 1);
        }
    }
}

/// Every blueprint the validator accepts has a kebab-case task id and a non-empty
/// pipeline in which every goal cites `path:line`, code changes come with a
/// generate_tests step, a new source module is wired into its package entry, and every
/// patch_file step edits a workspace file with well-formed SEARCH/REPLACE hunks.
pub proof fn lemma_accepted_blueprint_is_complete(bp: JsonValue, files: Seq<(String, String)>)
    requires
        blueprint_spec(bp, files) is Ok,
    ensures
        get_str(bp, "task_id"@) matches Some(tid) && is_kebab_case_spec(tid),
        get_array(bp, "pipeline"@) matches Some(p) && {
            &&& p.len() > 0
            &&& forall|k: int| 0 <= k < p.len() ==> goal_has_line_citation_spec(
                #[trigger] get_str_or_empty(p[k], "goal"@),
            )
            &&& (some_action(p, "patch_file"@) || some_action(p, "create_file"@)) ==> some_action(
                p,
                "generate_tests"@,
            )
            &&& creates_new_module(p) ==> patches_module_entry(p)
            &&& forall|k: int|
                0 <= k < p.len() && get_str(#[trigger] p[k], "action"@) == Some("patch_file"@) ==> (
                get_str(p[k], "target_file"@) matches Some(t) && file_at(files, t) is Some
                    && parse_hunks_spec(get_str_or_empty(p[k], "patch_content"@)) is Ok)
        },
{
    let p = get_array(bp, "pipeline"@)->0;
    lemma_goals_cited(p, 0);
    lemma_patches_grounded(p, files, 0);
}

} // verus!
