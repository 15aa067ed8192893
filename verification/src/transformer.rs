//! The refactoring agent's rules: refactor targets and their scope, the
//! scout query, how a context window is cut around a line, and which files
//! count as production sources.
use vstd::prelude::*;

use crate::json::{get, get_array, get_str, JsonValue};
use crate::llm::{LlmToolSet, ToolDefinition};
use crate::text::{
    chars_of, contains, ends_with, lines, starts_with, str_contains, str_ends_with,
    str_starts_with, string_of, string_views, trim, trim_exec,
};

verus! {

pub const TRANSFORMER_MAX_ITERATIONS: u32 = 4;

/// The characters of an optional character vector.
pub open spec fn opt_chars_view(o: &Option<Vec<char>>) -> Option<Seq<char>> {
    match o {
        Some(v) => Some(v@),
        None => None,
    }
}

// ---------------------------------------------------------------------------
// Context window
// ---------------------------------------------------------------------------

/// The 1-based line window `[start, end]` around `line`, `margin` lines to
/// each side, clamped to the file (an empty file counts as one line).
pub open spec fn line_window_spec(line: int, margin: int, file_len: int) -> (int, int) {
    let len = if file_len < 1 {
        1
    } else {
        file_len
    };
    let start = if line - margin < 1 {
        1
    } else {
        line - margin
    };
    let end = if line + margin < len {
        line + margin
    } else {
        len
    };
    (start, end)
}

/// The lines shown to the model around a target line.
pub fn line_window(line: usize, margin: usize, file_len: usize) -> (r: (usize, usize))
    requires
        line + margin <= usize::MAX,
    ensures
        (r.0 as int, r.1 as int) == line_window_spec(line as int, margin as int, file_len as int),
{
    let len = if file_len < 1 {
        1
    } else {
        file_len
    };
    let low = if line >= margin {
        line - margin
    } else {
        0
    };
    let start = if low < 1 {
        1
    } else {
        low
    };
    let end = if line + margin < len {
        line + margin
    } else {
        len
    };
    (start, end)
}

// ---------------------------------------------------------------------------
// Instruction and scout query
// ---------------------------------------------------------------------------

/// A line's labelled instruction: after `Refactor instruction:` or
/// `Instruction:` (on the trimmed line), trimmed and non-empty.
pub open spec fn labelled_value(line: Seq<char>) -> Option<Seq<char>> {
    let t = trim(line);
    let rest = if starts_with(t, "Refactor instruction:"@) {
        Some(t.skip(21))
    } else if starts_with(t, "Instruction:"@) {
        Some(t.skip(12))
    } else {
        None
    };
    match rest {
        Some(r) => if trim(r).len() > 0 {
            Some(trim(r))
        } else {
            None
        },
        None => None,
    }
}

/// The first labelled instruction among the lines, from index `i`.
pub open spec fn first_labelled(ls: Seq<Seq<char>>, i: int) -> Option<Seq<char>>
    decreases ls.len() - i,
{
    if i < 0 || i >= ls.len() {
        None
    } else {
        match labelled_value(ls[i]) {
            Some(v) => Some(v),
            None => first_labelled(ls, i + 1),
        }
    }
}

/// The refactor instruction of a task prompt: its first labelled line, or
/// the whole prompt when no line is labelled.
pub open spec fn refactor_instruction_spec(prompt: Seq<char>) -> Seq<char> {
    match first_labelled(lines(prompt), 0) {
        Some(v) => v,
        None => prompt,
    }
}

fn labelled_value_exec(line: &[char]) -> (r: Option<Vec<char>>)
    ensures
        match r {
            Some(v) => labelled_value(line@) == Some(v@),
            None => labelled_value(line@) is None,
        },
{
    proof {
        reveal_strlit("Refactor instruction:");
        reveal_strlit("Instruction:");
    }
    let t = trim_exec(line);
    let a = chars_of("Refactor instruction:");
    let b = chars_of("Instruction:");
    let rest: Option<Vec<char>> = if crate::text::starts_with_exec(t.as_slice(), a.as_slice()) {
        let r = crate::text::copy_range(t.as_slice(), 21, t.len());
        assert(r@ =~= t@.skip(21));
        Some(r)
    } else if crate::text::starts_with_exec(t.as_slice(), b.as_slice()) {
        let r = crate::text::copy_range(t.as_slice(), 12, t.len());
        assert(r@ =~= t@.skip(12));
        Some(r)
    } else {
        None
    };
    match rest {
        Some(r) => {
            let v = trim_exec(r.as_slice());
            if v.len() > 0 {
                Some(v)
            } else {
                None
            }
        },
        None => None,
    }
}

/// Reads the refactor instruction out of a task prompt.
pub fn extract_refactor_instruction(prompt: &str) -> (r: String)
    ensures
        r@ == refactor_instruction_spec(prompt@),
{
    let c = chars_of(prompt);
    let ls = crate::text::lines_exec(c.as_slice());
    let ghost lsv = crate::text::views(ls@);
    let mut i: usize = 0;
    while i < ls.len()
        invariant
            i <= ls@.len(),
            lsv == crate::text::views(ls@),
            lsv == lines(prompt@),
            first_labelled(lsv, 0) == first_labelled(lsv, i as int),
        decreases ls.len() - i,
    {
        assert(lsv[i as int] == ls@[i as int]@);
        match labelled_value_exec(ls[i].as_slice()) {
            Some(v) => {
                return string_of(v.as_slice());
            },
            None => {},
        }
        i = i + 1;
    }
    prompt.to_owned()
}

pub open spec fn refactor_query_spec(method_name: Seq<char>) -> Seq<char> {
    "PHASE_1_SCOUT\n\nFind all call sites for `"@ + method_name
        + "` across the repository.\n\nUse ripgrep to locate candidate files, then ast_calls for function/method calls and ast_constructions for struct/type construction literals. read_file small slices when needed. Finish with a finalize report listing each file_path and line numbers or ranges in a machine-readable block:\n```refactor_targets\n[{\"file_path\":\"...\",\"lines\":[...]}]\n```\nor for multi-line struct literals:\n```refactor_targets\n[{\"file_path\":\"...\",\"ranges\":[{\"start\":25,\"end\":32}]}]\n```"@
}

/// The scout request that locates every call site to refactor.
pub fn build_scout_refactor_query(method_name: &str) -> (q: String)
    ensures
        q@ == refactor_query_spec(method_name@),
{
    let mut q = "PHASE_1_SCOUT\n\nFind all call sites for `".to_owned();
    q.append(method_name);
    q.append(
        "` across the repository.\n\nUse ripgrep to locate candidate files, then ast_calls for function/method calls and ast_constructions for struct/type construction literals. read_file small slices when needed. Finish with a finalize report listing each file_path and line numbers or ranges in a machine-readable block:\n```refactor_targets\n[{\"file_path\":\"...\",\"lines\":[...]}]\n```\nor for multi-line struct literals:\n```refactor_targets\n[{\"file_path\":\"...\",\"ranges\":[{\"start\":25,\"end\":32}]}]\n```",
    );
    q
}

/// The refactoring agent's tools, in the order the model sees them.
pub fn transformer_tool_set() -> (s: LlmToolSet)
    ensures
        crate::llm::tool_names(s) == seq!["gather_refactor_targets"@, "apply_structural_codemod"@],
{
    let s = LlmToolSet::new().register(
        ToolDefinition::new(
            "gather_refactor_targets",
            "Runs a Scout sub-agent (ripgrep, ast_calls, ast_constructions) to collect call sites for a method or struct before refactoring.",
        ).string_param(
            "method_name",
            "Method or struct name whose call sites to locate.",
            true,
        ),
    ).register(
        ToolDefinition::new(
            "apply_structural_codemod",
            "Applies a structural code change to specific files and lines from Scout (e.g. add a parameter to method calls).",
        ).string_param(
            "transformation_rule",
            "Transformation instruction, e.g. 'Add context as the first argument to this method call'.",
            true,
        ).string_param(
            "refactor_targets_json",
            "JSON array: [{\"file_path\":\"src/foo.rs\",\"lines\":[3]}] or {\"ranges\":[{\"start\":25,\"end\":32}]}",
            true,
        ),
    );
    assert(crate::llm::tool_names(s) =~= seq![
        "gather_refactor_targets"@,
        "apply_structural_codemod"@,
    ]);
    s
}

// ---------------------------------------------------------------------------
// Targets
// ---------------------------------------------------------------------------

/// An inclusive, 1-based range of lines.
#[derive(Clone, Copy, PartialEq, Eq, Structural, Debug)]
pub struct TargetLineRange {
    pub start: usize,
    pub end: usize,
}

/// The lines of one file that a codemod should rewrite.
pub struct RefactorTarget {
    pub file_path: String,
    pub lines: Vec<usize>,
    pub ranges: Vec<TargetLineRange>,
}

/// `\` turned into `/`.
pub open spec fn slashes(s: Seq<char>) -> Seq<char> {
    s.map_values(|c: char| if c == '\\' {
        '/'
    } else {
        c
    })
}

fn slashes_exec(s: &[char]) -> (r: Vec<char>)
    ensures
        r@ == slashes(s@),
{
    let mut r: Vec<char> = Vec::new();
    let mut i: usize = 0;
    while i < s.len()
        invariant
            i <= s@.len(),
            r@ == slashes(s@.take(i as int)),
        decreases s.len() - i,
    {
        let c = s[i];
        r.push(
            if c == '\\' {
                '/'
            } else {
                c
            },
        );
        i = i + 1;
        assert(r@ =~= slashes(s@.take(i as int)));
    }
    assert(s@.take(s@.len() as int) =~= s@);
    r
}

/// `file` is the scope directory or lies inside it, compared as text with
/// `/` separators (a trailing `/` of the scope is ignored).
pub open spec fn under_scope_spec(file: Seq<char>, scope: Seq<char>) -> bool {
    let f = slashes(file);
    let s = crate::git_janitor::trim_end_char(slashes(scope), '/');
    f == s || starts_with(f, s + seq!['/'])
}

/// Is the file inside the scope directory?
pub fn path_under_scope(file: &str, scope: &str) -> (b: bool)
    ensures
        b == under_scope_spec(file@, scope@),
{
    let f = slashes_exec(chars_of(file).as_slice());
    let s0 = slashes_exec(chars_of(scope).as_slice());
    let mut k: usize = s0.len();
    assert(s0@.subrange(0, k as int) =~= s0@);
    while k > 0 && s0[k - 1] == '/'
        invariant
            k <= s0@.len(),
            crate::git_janitor::trim_end_char(s0@, '/') == crate::git_janitor::trim_end_char(
                s0@.subrange(0, k as int),
                '/',
            ),
        decreases k,
    {
        assert(s0@.subrange(0, k as int).drop_last() =~= s0@.subrange(0, k - 1));
        k = k - 1;
    }
    let mut s = crate::text::copy_range(s0.as_slice(), 0, k);
    proof {
        if k > 0 {
            assert(s0@.subrange(0, k as int).last() == s0@[k - 1]);
        }
        assert(crate::git_janitor::trim_end_char(s0@.subrange(0, k as int), '/') == s0@.subrange(
            0,
            k as int,
        ));
    }
    if crate::paths::chars_eq(f.as_slice(), s.as_slice()) {
        return true;
    }
    let ghost trimmed = s@;
    s.push('/');
    assert(s@ =~= trimmed + seq!['/']);
    crate::text::starts_with_exec(f.as_slice(), s.as_slice())
}

/// Keeps the targets whose file lies inside the scope, in order.
pub open spec fn scoped_targets(targets: Seq<RefactorTarget>, scope: Seq<char>) -> Seq<
    RefactorTarget,
> {
    targets.filter(|t: RefactorTarget| under_scope_spec(t.file_path@, scope))
}

/// Drops the targets outside the scope directory.
pub fn filter_targets_by_scope(targets: Vec<RefactorTarget>, scope: &str) -> (r: Vec<
    RefactorTarget,
>)
    ensures
        r@ == scoped_targets(targets@, scope@),
{
    let mut r: Vec<RefactorTarget> = Vec::new();
    let mut rest = targets;
    let ghost all = rest@;
    let n = rest.len();
    let mut i: usize = 0;
    while i < n
        invariant
            n == all.len(),
            i <= n,
            rest@ == all.skip(i as int),
            r@ == scoped_targets(all.take(i as int), scope@),
        decreases n - i,
    {
        let t = rest.remove(0);
        assert(t == all[i as int]);
        assert(rest@ =~= all.skip(i + 1));
        reveal(Seq::filter);
        assert(all.take(i + 1).drop_last() =~= all.take(i as int));
        assert(all.take(i + 1).last() == t);
        if path_under_scope(t.file_path.as_str(), scope) {
            r.push(t);
        }
        i = i + 1;
    }
    assert(all.take(n as int) =~= all);
    r
}

// ---------------------------------------------------------------------------
// Target arguments
// ---------------------------------------------------------------------------

/// The `method_name` argument of `gather_refactor_targets`.
pub fn parse_method_name(arguments: &JsonValue) -> (r: Result<String, String>)
    ensures
        match r {
            Ok(s) => get_str(*arguments, "method_name"@) == Some(s@),
            Err(e) => get_str(*arguments, "method_name"@) is None && e@
                == crate::json::not_a_string_msg("method_name"@),
        },
{
    crate::json::required_str(arguments, "method_name")
}

/// The value of a non-negative integer.
pub open spec fn json_uint(v: JsonValue) -> Option<nat> {
    match v {
        JsonValue::Int(n) => if n >= 0 {
            Some(n as nat)
        } else {
            None
        },
        JsonValue::BigUInt(n) => Some(n as nat),
        _ => None,
    }
}

/// A line number: a positive integer (that fits `usize`, which on 64-bit
/// targets every JSON integer does).
pub open spec fn line_number_spec(v: JsonValue) -> Result<nat, Seq<char>> {
    match json_uint(v) {
        None => Err("lines must contain only integers"@),
        Some(n) => if n == 0 {
            Err("line numbers must be >= 1"@)
        } else if n > usize::MAX {
            Err("line number does not fit this machine's usize"@)
        } else {
            Ok(n)
        },
    }
}

/// Reads one line number.
pub fn parse_line_number(line: &JsonValue) -> (r: Result<usize, String>)
    ensures
        match r {
            Ok(n) => line_number_spec(*line) == Ok::<nat, Seq<char>>(n as nat),
            Err(e) => line_number_spec(*line) == Err::<nat, Seq<char>>(e@),
        },
{
    match line.as_u64() {
        None => Err("lines must contain only integers".to_owned()),
        Some(n) => {
            if n == 0 {
                return Err("line numbers must be >= 1".to_owned());
            }
            if n > usize::MAX as u64 {
                return Err("line number does not fit this machine's usize".to_owned());
            }
            Ok(n as usize)
        },
    }
}

/// A `{ "start": .., "end": .. }` range: both bounds present, valid line
/// numbers, and `start <= end`.
pub open spec fn target_range_spec(range: JsonValue) -> Result<(nat, nat), Seq<char>> {
    match get(range, "start"@) {
        None => Err("each range must have start"@),
        Some(a) => match line_number_spec(a) {
            Err(e) => Err(e),
            Ok(start) => match get(range, "end"@) {
                None => Err("each range must have end"@),
                Some(b) => match line_number_spec(b) {
                    Err(e) => Err(e),
                    Ok(end) => if end < start {
                        Err(
                            "range end "@ + crate::text::decimal(end) + " must be >= start "@
                                + crate::text::decimal(start),
                        )
                    } else {
                        Ok((start, end))
                    },
                },
            },
        },
    }
}

/// Reads one `{ "start": .., "end": .. }` range.
pub fn parse_target_range(range: &JsonValue) -> (r: Result<TargetLineRange, String>)
    ensures
        match r {
            Ok(t) => target_range_spec(*range) == Ok::<(nat, nat), Seq<char>>(
                (t.start as nat, t.end as nat),
            ),
            Err(e) => target_range_spec(*range) == Err::<(nat, nat), Seq<char>>(e@),
        },
{
    let start = match range.get("start") {
        None => {
            return Err("each range must have start".to_owned());
        },
        Some(v) => match parse_line_number(v) {
            Ok(n) => n,
            Err(e) => {
                return Err(e);
            },
        },
    };
    let end = match range.get("end") {
        None => {
            return Err("each range must have end".to_owned());
        },
        Some(v) => match parse_line_number(v) {
            Ok(n) => n,
            Err(e) => {
                return Err(e);
            },
        },
    };
    if end < start {
        let mut m = "range end ".to_owned();
        m.append(crate::text::fmt_usize(end).as_str());
        m.append(" must be >= start ");
        m.append(crate::text::fmt_usize(start).as_str());
        return Err(m);
    }
    Ok(TargetLineRange { start, end })
}

// ---------------------------------------------------------------------------
// Source-file classification
// ---------------------------------------------------------------------------

fn holds(s: &[char], lit: &str) -> (b: bool)
    ensures
        b == contains(s@, lit@),
{
    crate::text::contains_exec(s, chars_of(lit).as_slice())
}

fn ends(s: &[char], lit: &str) -> (b: bool)
    ensures
        b == ends_with(s@, lit@),
{
    crate::text::ends_with_exec(s, chars_of(lit).as_slice())
}

fn begins(s: &[char], lit: &str) -> (b: bool)
    ensures
        b == starts_with(s@, lit@),
{
    crate::text::starts_with_exec(s, chars_of(lit).as_slice())
}

/// Extensions of script sources under `scripts/`.
pub open spec fn script_ext(e: Seq<char>) -> bool {
    let l = crate::text::lower_ascii(e);
    ||| l == "py"@
    ||| l == "pyw"@
    ||| l == "java"@
    ||| l == "kt"@
    ||| l == "kts"@
    ||| l == "cpp"@
    ||| l == "cc"@
    ||| l == "cxx"@
    ||| l == "c"@
    ||| l == "h"@
    ||| l == "hpp"@
    ||| l == "zig"@
}

/// Production sources that refactors may touch (paths compared with `/`):
/// not tests or fixtures; Rust under `src/` (outside JVM source trees);
/// TS/TSX under `frontend/src/`; Java/Kotlin under `src/main/`; and
/// script sources under `scripts/`.
pub open spec fn production_src_spec(path: Seq<char>) -> bool {
    let n = slashes(path);
    if contains(n, "/tests/"@) || contains(n, "/fixtures/"@) {
        false
    } else if ends_with(n, ".d.ts"@) {
        false
    } else if ends_with(n, ".rs"@) && !contains(n, "/src/main/java/"@) && !contains(
        n,
        "/src/main/kotlin/"@,
    ) && (contains(n, "/src/"@) || starts_with(n, "src/"@)) {
        true
    } else if (contains(n, "/frontend/src/"@) || starts_with(n, "frontend/src/"@)) && (ends_with(
        n,
        ".ts"@,
    ) || ends_with(n, ".tsx"@)) {
        true
    } else if (contains(n, "/src/main/java/"@) && ends_with(n, ".java"@)) || (contains(
        n,
        "/src/main/kotlin/"@,
    ) && ends_with(n, ".kt"@)) {
        true
    } else if contains(n, "/scripts/"@) || starts_with(n, "scripts/"@) {
        match crate::paths::extension(path) {
            Some(e) => script_ext(e),
            None => false,
        }
    } else {
        false
    }
}

fn script_ext_exec(e: &[char]) -> (b: bool)
    ensures
        b == script_ext(e@),
{
    let l = crate::text::lower_ascii_exec(e);
    let s = string_of(l.as_slice());
    let x = s.as_str();
    crate::text::str_eq(x, "py") || crate::text::str_eq(x, "pyw") || crate::text::str_eq(x, "java")
        || crate::text::str_eq(x, "kt") || crate::text::str_eq(x, "kts") || crate::text::str_eq(
        x,
        "cpp",
    ) || crate::text::str_eq(x, "cc") || crate::text::str_eq(x, "cxx") || crate::text::str_eq(
        x,
        "c",
    ) || crate::text::str_eq(x, "h") || crate::text::str_eq(x, "hpp") || crate::text::str_eq(
        x,
        "zig",
    )
}

/// Is the file a production source that refactors may touch?
pub fn is_production_src_file(path: &str) -> (b: bool)
    ensures
        b == production_src_spec(path@),
{
    let p = chars_of(path);
    let n = slashes_exec(p.as_slice());
    let ns = n.as_slice();
    if holds(ns, "/tests/") || holds(ns, "/fixtures/") {
        return false;
    }
    if ends(ns, ".d.ts") {
        return false;
    }
    if ends(ns, ".rs") && !holds(ns, "/src/main/java/") && !holds(ns, "/src/main/kotlin/") && (holds(
        ns,
        "/src/",
    ) || begins(ns, "src/")) {
        return true;
    }
    if (holds(ns, "/frontend/src/") || begins(ns, "frontend/src/")) && (ends(ns, ".ts") || ends(
        ns,
        ".tsx",
    )) {
        return true;
    }
    if (holds(ns, "/src/main/java/") && ends(ns, ".java")) || (holds(ns, "/src/main/kotlin/") && ends(
        ns,
        ".kt",
    )) {
        return true;
    }
    if holds(ns, "/scripts/") || begins(ns, "scripts/") {
        return match crate::paths::extension_exec(p.as_slice()) {
            Some(e) => script_ext_exec(e.as_slice()),
            None => false,
        };
    }
    false
}

/// Paths a refactor never rewrites.
pub open spec fn skipped_refactor_spec(path: Seq<char>) -> bool {
    let n = slashes(path);
    ||| contains(n, "/tests/"@)
    ||| contains(n, "/tests/fixtures/"@)
    ||| contains(n, "/fixtures/"@)
    ||| contains(n, "/frontend/dist/"@)
    ||| contains(n, "/node_modules/"@)
}

/// Is the file excluded from refactors (tests, fixtures, build output)?
pub fn is_skipped_refactor_file(path: &str) -> (b: bool)
    ensures
        b == skipped_refactor_spec(path@),
{
    let n = slashes_exec(chars_of(path).as_slice());
    let ns = n.as_slice();
    holds(ns, "/tests/") || holds(ns, "/tests/fixtures/") || holds(ns, "/fixtures/") || holds(
        ns,
        "/frontend/dist/",
    ) || holds(ns, "/node_modules/")
}

/// The declaration openings that mark a file as defining `name`.
pub open spec fn definition_markers(name: Seq<char>) -> Seq<Seq<char>> {
    seq![
        "struct "@ + name,
        "enum "@ + name,
        "class "@ + name,
        "interface "@ + name,
        "export interface "@ + name,
        "function "@ + name,
        "export function "@ + name,
        "def "@ + name,
        "void "@ + name + "("@,
        "static void "@ + name + "("@,
        "fun "@ + name + "("@,
        "pub fn "@ + name + "("@,
    ]
}

/// The file content declares the type or function itself.
pub open spec fn defines_spec(content: Seq<char>, name: Seq<char>) -> bool {
    exists|i: int|
        0 <= i < definition_markers(name).len() && contains(
            content,
            #[trigger] definition_markers(name)[i],
        )
}

fn marker(prefix: &str, name: &str, suffix: &str) -> (r: Vec<char>)
    ensures
        r@ == prefix@ + name@ + suffix@,
{
    let mut s = prefix.to_owned();
    s.append(name);
    s.append(suffix);
    chars_of(s.as_str())
}

/// Does the content declare `ident` (so it is the definition file)?
pub fn is_type_definition_file(content: &str, ident: &str) -> (b: bool)
    ensures
        b == defines_spec(content@, ident@),
{
    proof {
        reveal_strlit("");
    }
    let c = chars_of(content);
    let mut ms: Vec<Vec<char>> = Vec::new();
    ms.push(marker("struct ", ident, ""));
    ms.push(marker("enum ", ident, ""));
    ms.push(marker("class ", ident, ""));
    ms.push(marker("interface ", ident, ""));
    ms.push(marker("export interface ", ident, ""));
    ms.push(marker("function ", ident, ""));
    ms.push(marker("export function ", ident, ""));
    ms.push(marker("def ", ident, ""));
    ms.push(marker("void ", ident, "("));
    ms.push(marker("static void ", ident, "("));
    ms.push(marker("fun ", ident, "("));
    ms.push(marker("pub fn ", ident, "("));
    let ghost want = definition_markers(ident@);
    assert(crate::text::views(ms@) =~= want);
    let mut i: usize = 0;
    while i < ms.len()
        invariant
            i <= ms@.len(),
            crate::text::views(ms@) == want,
            want == definition_markers(ident@),
            c@ == content@,
            forall|j: int| 0 <= j < i ==> !contains(content@, #[trigger] want[j]),
        decreases ms.len() - i,
    {
        assert(want[i as int] == ms@[i as int]@);
        if crate::text::contains_exec(c.as_slice(), ms[i].as_slice()) {
            return true;
        }
        i = i + 1;
    }
    false
}

// ---------------------------------------------------------------------------
// Finding call sites in plain text
// ---------------------------------------------------------------------------

pub open spec fn is_word_char(c: char) -> bool {
    crate::git_janitor::is_ascii_alnum(c) || c == '_'
}

/// `ident` occurs as a whole word: a maximal run of `[A-Za-z0-9_]`.
pub open spec fn has_identifier_spec(line: Seq<char>, ident: Seq<char>) -> bool {
    exists|i: int|
        #![trigger crate::text::matches_at(line, ident, i)]
        ident.len() > 0 && crate::text::matches_at(line, ident, i) && (forall|t: int|
            i <= t < i + ident.len() ==> is_word_char(#[trigger] line[t])) && (i == 0
            || !is_word_char(line[i - 1])) && (i + ident.len() == line.len() || !is_word_char(
            line[i + ident.len()],
        ))
}

fn is_word_char_exec(c: char) -> (b: bool)
    ensures
        b == is_word_char(c),
{
    ('a' <= c && c <= 'z') || ('A' <= c && c <= 'Z') || ('0' <= c && c <= '9') || c == '_'
}

/// Does the line mention `ident` as a whole identifier?
pub fn line_has_identifier(line: &str, ident: &str) -> (b: bool)
    ensures
        b == has_identifier_spec(line@, ident@),
{
    let l = chars_of(line);
    let w = chars_of(ident);
    if w.len() == 0 {
        return false;
    }
    let n = l.len();
    let mut i: usize = 0;
    while i < n
        invariant
            n == l@.len(),
            l@ == line@,
            w@ == ident@,
            w@.len() > 0,
            i <= n,
            i < n ==> (i == 0 || !is_word_char(l@[i - 1]) || !is_word_char(l@[i as int])),
            forall|a: int|
                #![trigger crate::text::matches_at(l@, w@, a)]
                0 <= a < i ==> !(crate::text::matches_at(l@, w@, a) && (forall|t: int|
                    a <= t < a + w@.len() ==> is_word_char(#[trigger] l@[t])) && (a == 0
                    || !is_word_char(l@[a - 1])) && (a + w@.len() == l@.len() || !is_word_char(
                    l@[a + w@.len()],
                ))),
        decreases n - i,
    {
        if !is_word_char_exec(l[i]) {
            i = i + 1;
        } else {
            let start = i;
            let mut j = i;
            while j < n && is_word_char_exec(l[j])
                invariant
                    start <= j <= n,
                    n == l@.len(),
                    forall|t: int| start <= t < j ==> is_word_char(#[trigger] l@[t]),
                decreases n - j,
            {
                j = j + 1;
            }
            if j - start == w.len() && crate::text::matches_at_exec(l.as_slice(), w.as_slice(), start) {
                return true;
            }
            proof {
                assert forall|a: int|
                    #![trigger crate::text::matches_at(l@, w@, a)]
                    0 <= a < j implies !(crate::text::matches_at(l@, w@, a) && (forall|t: int|
                        a <= t < a + w@.len() ==> is_word_char(#[trigger] l@[t])) && (a == 0
                        || !is_word_char(l@[a - 1])) && (a + w@.len() == l@.len()
                        || !is_word_char(l@[a + w@.len()]))) by {
                    if a >= start && crate::text::matches_at(l@, w@, a) && (a == 0
                        || !is_word_char(l@[a - 1])) {
                        if a > start {
                            assert(is_word_char(l@[a - 1]));
                        }
                        if a == start && a + w@.len() < j {
                            assert(is_word_char(l@[a + w@.len()]));
                        }
                        if a == start && a + w@.len() > j {
                            if j < n {
                                assert(!is_word_char(l@[j as int]));
                            }
                        }
                    }
                }
            }
            i = j;
        }
    }
    false
}

/// Number of `c` in `s`.
pub open spec fn count_char(s: Seq<char>, c: char) -> int
    decreases s.len(),
{
    if s.len() == 0 {
        0
    } else {
        count_char(s.drop_last(), c) + if s.last() == c {
            1int
        } else {
            0int
        }
    }
}

/// Net brace depth of lines `start ..= idx`.
pub open spec fn depth_to(ls: Seq<Seq<char>>, start: int, idx: int) -> int
    decreases idx - start + 1,
{
    if idx < start {
        0
    } else {
        depth_to(ls, start, idx - 1) + count_char(ls[idx], '{') - count_char(ls[idx], '}')
    }
}

/// Some line of `start ..= idx` opens a brace.
pub open spec fn opened_to(ls: Seq<Seq<char>>, start: int, idx: int) -> bool {
    exists|k: int| start <= k <= idx && count_char(#[trigger] ls[k], '{') > 0
}

/// The first line from `i` at whose end the braces opened since `start`
/// are balanced again.
pub open spec fn closing_line(ls: Seq<Seq<char>>, start: int, i: int) -> Option<int>
    decreases ls.len() - i,
{
    if i < 0 || i >= ls.len() {
        None
    } else if opened_to(ls, start, i) && depth_to(ls, start, i) <= 0 {
        Some(i)
    } else {
        closing_line(ls, start, i + 1)
    }
}

/// The 1-based line range of a brace-delimited construct that starts on
/// line `start_idx` (0-based): up to the line where its braces close, or
/// to the end of the file.
pub open spec fn brace_range_spec(ls: Seq<Seq<char>>, start_idx: int) -> (int, int) {
    (start_idx + 1, match closing_line(ls, start_idx, start_idx) {
        Some(i) => i + 1,
        None => ls.len() as int,
    })
}

/// Total characters of the lines.
pub open spec fn total_chars(ls: Seq<Seq<char>>) -> int
    decreases ls.len(),
{
    if ls.len() == 0 {
        0
    } else {
        total_chars(ls.drop_last()) + ls.last().len()
    }
}

proof fn lemma_count_char_bound(s: Seq<char>, c: char)
    ensures
        0 <= count_char(s, c) <= s.len(),
    decreases s.len(),
{
    if s.len() > 0 {
        lemma_count_char_bound(s.drop_last(), c);
    }
}

proof fn lemma_total_chars_take(ls: Seq<Seq<char>>, k: int)
    requires
        0 <= k < ls.len(),
    ensures
        total_chars(ls.take(k + 1)) == total_chars(ls.take(k)) + ls[k].len(),
        total_chars(ls.take(k)) <= total_chars(ls),
{
    assert(ls.take(k + 1).drop_last() =~= ls.take(k));
    lemma_total_chars_mono(ls, k);
}

proof fn lemma_total_chars_mono(ls: Seq<Seq<char>>, k: int)
    requires
        0 <= k <= ls.len(),
    ensures
        0 <= total_chars(ls.take(k)) <= total_chars(ls),
    decreases ls.len(),
{
    if ls.len() > 0 {
        if k == ls.len() {
            assert(ls.take(k) =~= ls);
            lemma_total_chars_mono(ls.drop_last(), k - 1);
        } else {
            assert(ls.drop_last().take(k) =~= ls.take(k));
            lemma_total_chars_mono(ls.drop_last(), k);
        }
    } else {
        assert(ls.take(k) =~= ls);
    }
}

/// The range of a brace-delimited construct starting at a line.
pub fn expand_brace_range(lines: &[String], start_idx: usize) -> (r: TargetLineRange)
    requires
        start_idx < usize::MAX,
        total_chars(string_views(lines@)) <= i64::MAX,
    ensures
        (r.start as int, r.end as int) == brace_range_spec(string_views(lines@), start_idx as int),
{
    let ghost ls = string_views(lines@);
    let mut depth: i64 = 0;
    let mut started = false;
    let mut idx = start_idx;
    proof {
        lemma_total_chars_mono(ls, 0);
    }
    while idx < lines.len()
        invariant
            ls == string_views(lines@),
            start_idx <= idx,
            idx <= lines@.len() || idx == start_idx,
            total_chars(ls) <= i64::MAX,
            depth == depth_to(ls, start_idx as int, idx - 1),
            started == opened_to(ls, start_idx as int, idx - 1),
            -total_chars(ls.take(idx as int)) <= depth <= total_chars(ls.take(idx as int)) || idx
                == start_idx,
            closing_line(ls, start_idx as int, start_idx as int) == closing_line(
                ls,
                start_idx as int,
                idx as int,
            ),
        decreases lines.len() - idx,
    {
        let line = chars_of(lines[idx].as_str());
        assert(line@ == ls[idx as int]);
        proof {
            lemma_total_chars_take(ls, idx as int);
            lemma_total_chars_mono(ls, idx + 1);
            lemma_total_chars_mono(ls, idx as int);
            lemma_count_char_bound(ls[idx as int], '{');
            lemma_count_char_bound(ls[idx as int], '}');
            if idx == start_idx {
                assert(depth_to(ls, start_idx as int, idx - 1) == 0);
            }
            assert(-total_chars(ls.take(idx as int)) <= depth <= total_chars(ls.take(idx as int)));
            assert(line@.len() <= total_chars(ls.take(idx + 1)));
        }
        let ghost d0 = depth;
        let mut opens: i64 = 0;
        let mut closes: i64 = 0;
        let mut k: usize = 0;
        while k < line.len()
            invariant
                k <= line@.len(),
                line@.len() <= i64::MAX,
                opens == count_char(line@.take(k as int), '{'),
                closes == count_char(line@.take(k as int), '}'),
                0 <= opens <= k,
                0 <= closes <= k,
            decreases line.len() - k,
        {
            assert(line@.take(k + 1).drop_last() =~= line@.take(k as int));
            if line[k] == '{' {
                opens = opens + 1;
            } else if line[k] == '}' {
                closes = closes + 1;
            }
            k = k + 1;
        }
        assert(line@.take(line@.len() as int) =~= line@);
        assert(-total_chars(ls.take(idx + 1)) <= depth + opens - closes <= total_chars(
            ls.take(idx + 1),
        ));
        depth = depth + opens - closes;
        if opens > 0 {
            started = true;
        }
        proof {
            assert(started == opened_to(ls, start_idx as int, idx as int)) by {
                if opens > 0 {
                    assert(count_char(ls[idx as int], '{') > 0);
                }
                if opened_to(ls, start_idx as int, idx as int) && !opened_to(
                    ls,
                    start_idx as int,
                    idx - 1,
                ) {
                    let k = choose|k: int|
                        start_idx <= k <= idx && count_char(#[trigger] ls[k], '{') > 0;
                    assert(k == idx);
                }
            }
        }
        if started && depth <= 0 {
            return TargetLineRange { start: start_idx + 1, end: idx + 1 };
        }
        idx = idx + 1;
    }
    TargetLineRange { start: start_idx + 1, end: lines.len() }
}


// ---------------------------------------------------------------------------
// Refactor target discovery
// ---------------------------------------------------------------------------

pub open spec fn range_view(r: TargetLineRange) -> (int, int) {
    (r.start as int, r.end as int)
}

pub open spec fn ranges_view(rs: Seq<TargetLineRange>) -> Seq<(int, int)> {
    rs.map_values(|r: TargetLineRange| range_view(r))
}

/// `big` covers `small` and is larger.
pub open spec fn strictly_covers(big: (int, int), small: (int, int)) -> bool {
    big.0 <= small.0 && big.1 >= small.1 && (big.0 < small.0 || big.1 > small.1)
}

/// Some range of `all` strictly covers `r`.
pub open spec fn covered_in(all: Seq<(int, int)>, r: (int, int)) -> bool {
    exists|j: int| 0 <= j < all.len() && strictly_covers(#[trigger] all[j], r)
}

/// The ranges of `rs` (in order) that no range of `all` strictly covers.
pub open spec fn keep_uncovered(rs: Seq<(int, int)>, all: Seq<(int, int)>) -> Seq<(int, int)>
    decreases rs.len(),
{
    if rs.len() == 0 {
        rs
    } else if covered_in(all, rs.last()) {
        keep_uncovered(rs.drop_last(), all)
    } else {
        keep_uncovered(rs.drop_last(), all).push(rs.last())
    }
}

fn covered_exec(all: &Vec<TargetLineRange>, r: TargetLineRange) -> (b: bool)
    ensures
        b == covered_in(ranges_view(all@), range_view(r)),
{
    let mut j: usize = 0;
    while j < all.len()
        invariant
            j <= all@.len(),
            forall|k: int| 0 <= k < j ==> !strictly_covers(#[trigger] ranges_view(all@)[k], range_view(r)),
        decreases all.len() - j,
    {
        let big = all[j];
        if big.start <= r.start && big.end >= r.end && (big.start < r.start || big.end > r.end) {
            assert(strictly_covers(ranges_view(all@)[j as int], range_view(r)));
            return true;
        }
        j = j + 1;
    }
    false
}

/// Keeps only ranges that no other range strictly contains (a call line inside a
/// construction site's range is dropped in favour of the site).
pub fn drop_subset_ranges(ranges: Vec<TargetLineRange>) -> (r: Vec<TargetLineRange>)
    ensures
        ranges_view(r@) == keep_uncovered(ranges_view(ranges@), ranges_view(ranges@)),
{
    let mut out: Vec<TargetLineRange> = Vec::new();
    let mut i: usize = 0;
    while i < ranges.len()
        invariant
            i <= ranges@.len(),
            ranges_view(out@) == keep_uncovered(
                ranges_view(ranges@).take(i as int),
                ranges_view(ranges@),
            ),
        decreases ranges.len() - i,
    {
        let r = ranges[i];
        assert(ranges_view(ranges@).take(i + 1).drop_last() =~= ranges_view(ranges@).take(i as int));
        assert(ranges_view(ranges@).take(i + 1).last() == range_view(r));
        if !covered_exec(&ranges, r) {
            let ghost before = out@;
            out.push(r);
            assert(ranges_view(out@) =~= ranges_view(before).push(range_view(r)));
        }
        i = i + 1;
    }
    assert(ranges_view(ranges@).take(ranges@.len() as int) =~= ranges_view(ranges@));
    out
}

/// The ranges with each range added unless an equal one is already there.
pub open spec fn add_distinct(acc: Seq<(int, int)>, rs: Seq<(int, int)>) -> Seq<(int, int)>
    decreases rs.len(),
{
    if rs.len() == 0 {
        acc
    } else {
        let a = add_distinct(acc, rs.drop_last());
        if a.contains(rs.last()) {
            a
        } else {
            a.push(rs.last())
        }
    }
}

fn contains_range(v: &Vec<TargetLineRange>, r: TargetLineRange) -> (b: bool)
    ensures
        b == ranges_view(v@).contains(range_view(r)),
{
    let mut j: usize = 0;
    while j < v.len()
        invariant
            j <= v@.len(),
            forall|k: int| 0 <= k < j ==> #[trigger] ranges_view(v@)[k] != range_view(r),
        decreases v.len() - j,
    {
        if v[j].start == r.start && v[j].end == r.end {
            assert(ranges_view(v@)[j as int] == range_view(r));
            return true;
        }
        j = j + 1;
    }
    false
}

/// Adds ranges to a target's list, skipping ones it already has.
pub fn merge_target_ranges(existing: &mut Vec<TargetLineRange>, new: &[TargetLineRange])
    ensures
        ranges_view(final(existing)@) == add_distinct(ranges_view(old(existing)@), ranges_view(new@)),
{
    let ghost start = ranges_view(existing@);
    let mut i: usize = 0;
    while i < new.len()
        invariant
            i <= new@.len(),
            start == ranges_view(old(existing)@),
            ranges_view(existing@) == add_distinct(start, ranges_view(new@).take(i as int)),
        decreases new.len() - i,
    {
        let r = new[i];
        assert(ranges_view(new@).take(i + 1).drop_last() =~= ranges_view(new@).take(i as int));
        assert(ranges_view(new@).take(i + 1).last() == range_view(r));
        if !contains_range(existing, r) {
            let ghost before = existing@;
            existing.push(r);
            assert(ranges_view(existing@) =~= ranges_view(before).push(range_view(r)));
        }
        i = i + 1;
    }
    assert(ranges_view(new@).take(new@.len() as int) =~= ranges_view(new@));
}

/// Some range of `rs` contains line `l`.
pub open spec fn line_in_some(rs: Seq<(int, int)>, l: int) -> bool {
    exists|j: int| 0 <= j < rs.len() && (#[trigger] rs[j]).0 <= l && l <= rs[j].1
}

/// Call lines become one-line ranges unless an earlier range already holds them.
pub open spec fn add_call_lines(acc: Seq<(int, int)>, ls: Seq<int>) -> Seq<(int, int)>
    decreases ls.len(),
{
    if ls.len() == 0 {
        acc
    } else {
        let a = add_call_lines(acc, ls.drop_last());
        if line_in_some(a, ls.last()) {
            a
        } else {
            a.push((ls.last(), ls.last()))
        }
    }
}

/// The text scan used when the AST finds nothing in a file of unknown language: every
/// line holding the identifier, as the brace-delimited construct it opens or as itself.
pub open spec fn text_scan(ls: Seq<Seq<char>>, ident: Seq<char>, n: int) -> Seq<(int, int)>
    decreases n,
{
    if n <= 0 || n > ls.len() {
        Seq::empty()
    } else {
        let before = text_scan(ls, ident, n - 1);
        let idx = n - 1;
        if has_identifier_spec(ls[idx], ident) {
            before.push(
                if contains(ls[idx], "{"@) {
                    brace_range_spec(ls, idx)
                } else {
                    (idx + 1, idx + 1)
                },
            )
        } else {
            before
        }
    }
}

/// The line ranges of one file to refactor, from what the AST finder reported
/// (construction sites, call expression ranges, call lines) and, when that is nothing
/// and the file's language is unknown, from a text scan of its lines.
pub open spec fn file_ranges_spec(
    sites: Seq<(int, int)>,
    call_ranges: Seq<(int, int)>,
    call_lines: Seq<int>,
    scan_lines: Option<Seq<Seq<char>>>,
    type_ident: Seq<char>,
) -> Seq<(int, int)> {
    let r0 = add_call_lines(add_distinct(sites, call_ranges), call_lines);
    let r1 = if r0.len() == 0 {
        match scan_lines {
            Some(ls) => text_scan(ls, type_ident, ls.len() as int),
            None => r0,
        }
    } else {
        r0
    };
    add_distinct(Seq::empty(), keep_uncovered(r1, r1))
}


pub open spec fn lines_view(v: Seq<usize>) -> Seq<int> {
    v.map_values(|x: usize| x as int)
}

/// The ranges of one refactor target file (see `file_ranges_spec`); `scan_lines` are the
/// file's lines when the AST found nothing and its language is unknown.
pub fn file_refactor_ranges(
    sites: &[TargetLineRange],
    call_ranges: &[TargetLineRange],
    call_lines: &[usize],
    scan_lines: &Option<Vec<String>>,
    type_ident: &str,
) -> (r: Vec<TargetLineRange>)
    requires
        match scan_lines {
            Some(ls) => ls@.len() < usize::MAX && total_chars(string_views(ls@)) <= i64::MAX,
            None => true,
        },
    ensures
        ranges_view(r@) == file_ranges_spec(
            ranges_view(sites@),
            ranges_view(call_ranges@),
            lines_view(call_lines@),
            match scan_lines {
                Some(ls) => Some(string_views(ls@)),
                None => None,
            },
            type_ident@,
        ),
{
    let mut ranges: Vec<TargetLineRange> = Vec::new();
    let mut s0: usize = 0;
    while s0 < sites.len()
        invariant
            s0 <= sites@.len(),
            ranges_view(ranges@) == ranges_view(sites@).take(s0 as int),
        decreases sites.len() - s0,
    {
        let ghost before = ranges@;
        ranges.push(sites[s0]);
        assert(ranges_view(ranges@) =~= ranges_view(before).push(range_view(sites@[s0 as int])));
        assert(ranges_view(sites@).take(s0 + 1) =~= ranges_view(sites@).take(s0 as int).push(
            range_view(sites@[s0 as int]),
        ));
        s0 = s0 + 1;
    }
    assert(ranges_view(sites@).take(sites@.len() as int) =~= ranges_view(sites@));
    merge_target_ranges(&mut ranges, call_ranges);
    let ghost r_mid = ranges_view(ranges@);
    let mut i: usize = 0;
    while i < call_lines.len()
        invariant
            i <= call_lines@.len(),
            ranges_view(ranges@) == add_call_lines(r_mid, lines_view(call_lines@).take(i as int)),
        decreases call_lines.len() - i,
    {
        let line = call_lines[i];
        assert(lines_view(call_lines@).take(i + 1).drop_last() =~= lines_view(call_lines@).take(
            i as int,
        ));
        assert(lines_view(call_lines@).take(i + 1).last() == line as int);
        let mut found = false;
        let mut j: usize = 0;
        while j < ranges.len()
            invariant
                j <= ranges@.len(),
                found == exists|k: int|
                    0 <= k < j && (#[trigger] ranges_view(ranges@)[k]).0 <= line && line
                        <= ranges_view(ranges@)[k].1,
            decreases ranges.len() - j,
        {
            if line >= ranges[j].start && line <= ranges[j].end {
                assert(ranges_view(ranges@)[j as int].0 <= line);
                found = true;
            }
            j = j + 1;
        }
        if !found {
            let ghost before = ranges@;
            ranges.push(TargetLineRange { start: line, end: line });
            assert(ranges_view(ranges@) =~= ranges_view(before).push((line as int, line as int)));
        }
        i = i + 1;
    }
    assert(lines_view(call_lines@).take(call_lines@.len() as int) =~= lines_view(call_lines@));
    let ghost r0 = ranges_view(ranges@);
    if ranges.len() == 0 {
        match scan_lines {
            Some(ls) => {
                let ghost lv = string_views(ls@);
                let mut k: usize = 0;
                while k < ls.len()
                    invariant
                        k <= ls@.len(),
                        lv == string_views(ls@),
                        ls@.len() < usize::MAX,
                        total_chars(lv) <= i64::MAX,
                        ranges_view(ranges@) == text_scan(lv, type_ident@, k as int),
                    decreases ls.len() - k,
                {
                    let line = ls[k].as_str();
                    if line_has_identifier(line, type_ident) {
                        let rg = if str_contains(line, "{") {
                            expand_brace_range(ls.as_slice(), k)
                        } else {
                            TargetLineRange { start: k + 1, end: k + 1 }
                        };
                        let ghost before = ranges@;
                        ranges.push(rg);
                        assert(ranges_view(ranges@) =~= ranges_view(before).push(range_view(rg)));
                    }
                    k = k + 1;
                }
            },
            None => {},
        }
    }
    proof {
        if r0.len() == 0 {
            match scan_lines {
                Some(ls) => {
                    assert(ranges_view(ranges@) == text_scan(
                        string_views(ls@),
                        type_ident@,
                        ls@.len() as int,
                    ));
                },
                None => {},
            }
        }
    }
    let ghost r1 = ranges_view(ranges@);
    assert(r0 == add_call_lines(
        add_distinct(ranges_view(sites@), ranges_view(call_ranges@)),
        lines_view(call_lines@),
    ));
    assert(r1 == (if r0.len() == 0 {
        match scan_lines {
            Some(ls) => text_scan(string_views(ls@), type_ident@, ls@.len() as int),
            None => r0,
        }
    } else {
        r0
    }));
    let kept = drop_subset_ranges(ranges);
    let mut out: Vec<TargetLineRange> = Vec::new();
    assert(ranges_view(out@) =~= Seq::<(int, int)>::empty());
    merge_target_ranges(&mut out, kept.as_slice());
    out
}

/// `regex_escape`: letters, digits and `_` kept, every other character escaped.
pub open spec fn regex_escape_spec(s: Seq<char>) -> Seq<char>
    decreases s.len(),
{
    if s.len() == 0 {
        s
    } else {
        let c = s.last();
        regex_escape_spec(s.drop_last()) + if ('a' <= c && c <= 'z') || ('A' <= c && c <= 'Z') || (
        '0' <= c && c <= '9') || c == '_' {
            seq![c]
        } else {
            seq!['\\', c]
        }
    }
}

/// Escapes a type name for a ripgrep regex.
pub fn regex_escape(input: &str) -> (r: String)
    ensures
        r@ == regex_escape_spec(input@),
{
    let v = chars_of(input);
    let mut out: Vec<char> = Vec::new();
    let mut i: usize = 0;
    while i < v.len()
        invariant
            i <= v@.len(),
            out@ == regex_escape_spec(v@.take(i as int)),
        decreases v.len() - i,
    {
        let c = v[i];
        assert(v@.take(i + 1).drop_last() =~= v@.take(i as int));
        if !(('a' <= c && c <= 'z') || ('A' <= c && c <= 'Z') || ('0' <= c && c <= '9') || c == '_') {
            out.push('\\');
        }
        out.push(c);
        i = i + 1;
    }
    assert(v@.take(v@.len() as int) =~= v@);
    string_of(out.as_slice())
}

/// The word-boundary pattern ripgrep searches for a type name.
pub fn refactor_search_pattern(type_ident: &str) -> (r: String)
    ensures
        r@ == "\\b"@ + regex_escape_spec(type_ident@) + "\\b"@,
{
    let mut out = "\\b".to_owned();
    let e = regex_escape(type_ident);
    out.append(e.as_str());
    out.append("\\b");
    out
}

/// A refactor target read from a JSON item: its file (resolved under the workspace),
/// line numbers and ranges; at least one of the two.
pub open spec fn target_item_spec(item: JsonValue, root: Seq<char>) -> Result<
    (Seq<char>, Seq<nat>, Seq<(nat, nat)>),
    Seq<char>,
> {
    match get_str(item, "file_path"@) {
        None => Err("each target must have file_path (string)"@),
        Some(fp) => match (match get_array(item, "lines"@) {
            Some(ls) => line_numbers_from(ls, 0),
            None => Ok(Seq::empty()),
        }) {
            Err(e) => Err(e),
            Ok(lines) => match (match get_array(item, "ranges"@) {
                Some(rs) => ranges_from(rs, 0),
                None => Ok(Seq::empty()),
            }) {
                Err(e) => Err(e),
                Ok(ranges) => if lines.len() == 0 && ranges.len() == 0 {
                    Err("each target must list lines and/or ranges"@)
                } else {
                    Ok((crate::project::workspace_path_spec(root, fp), lines, ranges))
                },
            },
        },
    }
}

/// The line numbers of items `i..`, or the first error.
pub open spec fn line_numbers_from(items: Seq<JsonValue>, i: int) -> Result<Seq<nat>, Seq<char>>
    decreases items.len() - i,
{
    if i < 0 || i >= items.len() {
        Ok(Seq::empty())
    } else {
        match line_number_spec(items[i]) {
            Err(e) => Err(e),
            Ok(n) => match line_numbers_from(items, i + 1) {
                Ok(rest) => Ok(seq![n] + rest),
                Err(e) => Err(e),
            },
        }
    }
}

/// The ranges of items `i..`, or the first error.
pub open spec fn ranges_from(items: Seq<JsonValue>, i: int) -> Result<Seq<(nat, nat)>, Seq<char>>
    decreases items.len() - i,
{
    if i < 0 || i >= items.len() {
        Ok(Seq::empty())
    } else {
        match target_range_spec(items[i]) {
            Err(e) => Err(e),
            Ok(r) => match ranges_from(items, i + 1) {
                Ok(rest) => Ok(seq![r] + rest),
                Err(e) => Err(e),
            },
        }
    }
}

pub open spec fn target_view(t: RefactorTarget) -> (Seq<char>, Seq<nat>, Seq<(nat, nat)>) {
    (
        t.file_path@,
        t.lines@.map_values(|x: usize| x as nat),
        t.ranges@.map_values(|r: TargetLineRange| (r.start as nat, r.end as nat)),
    )
}

/// Reads one refactor target item.
pub fn parse_refactor_target_item(item: &JsonValue, workspace_root: &str) -> (r: Result<
    RefactorTarget,
    String,
>)
    ensures
        match target_item_spec(*item, workspace_root@) {
            Ok(v) => r matches Ok(t) && target_view(t) == v,
            Err(e) => r matches Err(m) && m@ == e,
        },
{
    let fp = match crate::json::get_str_exec(item, "file_path") {
        Some(f) => f,
        None => {
            return Err("each target must have file_path (string)".to_owned());
        },
    };
    let mut lines: Vec<usize> = Vec::new();
    match crate::json::get_array_exec(item, "lines") {
        Some(ls) => {
            let mut i: usize = 0;
            while i < ls.len()
                invariant
                    i <= ls@.len(),
                    crate::json::get_str(*item, "file_path"@) == Some(fp@),
                    crate::json::get_array(*item, "lines"@) == Some(ls@),
                    line_numbers_from(ls@, 0) == match line_numbers_from(ls@, i as int) {
                        Ok(rest) => Ok(lines@.map_values(|x: usize| x as nat) + rest),
                        Err(e) => Err(e),
                    },
                decreases ls.len() - i,
            {
                match parse_line_number(&ls[i]) {
                    Ok(n) => {
                        let ghost before = lines@;
                        lines.push(n);
                        proof {
                            assert(lines@.map_values(|x: usize| x as nat) =~= before.map_values(
                                |x: usize| x as nat,
                            ).push(n as nat));
                            match line_numbers_from(ls@, i + 1) {
                                Ok(rest) => {
                                    assert(before.map_values(|x: usize| x as nat) + (seq![n as nat]
                                        + rest) =~= lines@.map_values(|x: usize| x as nat) + rest);
                                },
                                Err(_) => {},
                            }
                        }
                    },
                    Err(e) => {
                        return Err(e);
                    },
                }
                i = i + 1;
            }
            assert(lines@.map_values(|x: usize| x as nat) + Seq::<nat>::empty() =~= lines@.map_values(
                |x: usize| x as nat,
            ));
        },
        None => {},
    }
    let mut ranges: Vec<TargetLineRange> = Vec::new();
    match crate::json::get_array_exec(item, "ranges") {
        Some(rs) => {
            let mut i: usize = 0;
            while i < rs.len()
                invariant
                    i <= rs@.len(),
                    crate::json::get_str(*item, "file_path"@) == Some(fp@),
                    crate::json::get_array(*item, "ranges"@) == Some(rs@),
                    match crate::json::get_array(*item, "lines"@) {
                        Some(ls) => line_numbers_from(ls, 0) == Ok::<Seq<nat>, Seq<char>>(
                            lines@.map_values(|x: usize| x as nat),
                        ),
                        None => lines@.len() == 0,
                    },
                    ranges_from(rs@, 0) == match ranges_from(rs@, i as int) {
                        Ok(rest) => Ok(
                            ranges@.map_values(|r: TargetLineRange| (r.start as nat, r.end as nat))
                                + rest,
                        ),
                        Err(e) => Err(e),
                    },
                decreases rs.len() - i,
            {
                match parse_target_range(&rs[i]) {
                    Ok(t) => {
                        let ghost before = ranges@;
                        ranges.push(t);
                        proof {
                            assert(ranges@.map_values(
                                |r: TargetLineRange| (r.start as nat, r.end as nat),
                            ) =~= before.map_values(
                                |r: TargetLineRange| (r.start as nat, r.end as nat),
                            ).push((t.start as nat, t.end as nat)));
                            match ranges_from(rs@, i + 1) {
                                Ok(rest) => {
                                    assert(before.map_values(
                                        |r: TargetLineRange| (r.start as nat, r.end as nat),
                                    ) + (seq![(t.start as nat, t.end as nat)] + rest)
                                        =~= ranges@.map_values(
                                        |r: TargetLineRange| (r.start as nat, r.end as nat),
                                    ) + rest);
                                },
                                Err(_) => {},
                            }
                        }
                    },
                    Err(e) => {
                        return Err(e);
                    },
                }
                i = i + 1;
            }
            assert(ranges@.map_values(|r: TargetLineRange| (r.start as nat, r.end as nat))
                + Seq::<(nat, nat)>::empty() =~= ranges@.map_values(
                |r: TargetLineRange| (r.start as nat, r.end as nat),
            ));
        },
        None => {},
    }
    if lines.len() == 0 && ranges.len() == 0 {
        return Err("each target must list lines and/or ranges".to_owned());
    }
    let file_path = crate::project::resolve_workspace_path(workspace_root, fp);
    Ok(RefactorTarget { file_path, lines, ranges })
}

/// Reads every item of a `refactor_targets_json` array.
pub fn parse_refactor_targets(items: &Vec<JsonValue>, workspace_root: &str) -> (r: Result<
    Vec<RefactorTarget>,
    String,
>)
    ensures
        r is Ok ==> (r matches Ok(ts) && ts@.len() == items@.len() && forall|i: int|
            0 <= i < items@.len() ==> target_item_spec(items@[i], workspace_root@) == Ok::<
                (Seq<char>, Seq<nat>, Seq<(nat, nat)>),
                Seq<char>,
            >(target_view(#[trigger] ts@[i]))),
        r is Err ==> (r matches Err(m) && exists|i: int|
            0 <= i < items@.len() && target_item_spec(#[trigger] items@[i], workspace_root@)
                == Err::<(Seq<char>, Seq<nat>, Seq<(nat, nat)>), Seq<char>>(m@) && forall|k: int|
                0 <= k < i ==> target_item_spec(#[trigger] items@[k], workspace_root@) is Ok),
{
    let mut out: Vec<RefactorTarget> = Vec::new();
    let mut i: usize = 0;
    while i < items.len()
        invariant
            i <= items@.len(),
            out@.len() == i,
            forall|k: int|
                0 <= k < i ==> target_item_spec(items@[k], workspace_root@) == Ok::<
                    (Seq<char>, Seq<nat>, Seq<(nat, nat)>),
                    Seq<char>,
                >(target_view(#[trigger] out@[k])),
        decreases items.len() - i,
    {
        match parse_refactor_target_item(&items[i], workspace_root) {
            Ok(t) => {
                out.push(t);
            },
            Err(e) => {
                assert(forall|k: int| 0 <= k < i ==> target_item_spec(items@[k], workspace_root@) == Ok::<
                    (Seq<char>, Seq<nat>, Seq<(nat, nat)>),
                    Seq<char>,
                >(target_view(out@[k])));
                return Err(e);
            },
        }
        i = i + 1;
    }
    Ok(out)
}

/// The fenced block the transformer hands on: `payload` is the targets as JSON.
pub fn refactor_targets_block(payload: &str) -> (r: String)
    ensures
        r@ == "```refactor_targets\n"@ + payload@ + "\n```"@,
{
    let mut out = "```refactor_targets\n".to_owned();
    out.append(payload);
    out.append("\n```");
    out
}

} // verus!
