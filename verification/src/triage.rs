//! The triage agent's rules: which files it may edit, how a model-chosen
//! path is resolved, how the test command is narrowed to one test file,
//! and how a failing test run is classified.
use vstd::prelude::*;

use crate::paths::{
    components, components_exec, extension, extension_exec, file_stem, file_stem_exec,
    has_parent_dir, is_absolute, path_ends_with, path_ends_with_exec, path_eq, path_eq_exec,
    path_starts_with, path_starts_with_exec,
};
use crate::text::{
    chars_of, contains, join, join_strings, replace, split_once, starts_with, str_contains,
    str_replace, str_starts_with, string_views, to_lowercase, unicode_lower,
};

verus! {

// ---------------------------------------------------------------------------
// Commands
// ---------------------------------------------------------------------------

/// The check command and the test command derived from one build command.
pub open spec fn split_commands_spec(command: Seq<char>) -> (Seq<char>, Seq<char>) {
    if starts_with(command, "cargo check"@) {
        ("cargo check"@, "cargo test"@)
    } else if contains(command, "typecheck"@) {
        (command, replace(command, "typecheck"@, "test"@))
    } else {
        (command, command)
    }
}

/// Splits a discovered build command into a check step and a test step.
pub fn split_check_and_test_commands(command: &str) -> (r: (String, String))
    ensures
        (r.0@, r.1@) == split_commands_spec(command@),
{
    proof {
        reveal_strlit("typecheck");
    }
    if str_starts_with(command, "cargo check") {
        ("cargo check".to_owned(), "cargo test".to_owned())
    } else if str_contains(command, "typecheck") {
        (command.to_owned(), str_replace(command, "typecheck", "test"))
    } else {
        (command.to_owned(), command.to_owned())
    }
}

/// Adds `--test <stem>` to a `cargo test` command, before any ` -- `
/// argument separator, unless a `--test ` filter is already there.
pub open spec fn cargo_filter_spec(cmd: Seq<char>, stem: Seq<char>) -> Seq<char> {
    let (head, tail) = match split_once(cmd, " -- "@) {
        Some((h, t)) => (h, t),
        None => (cmd, seq![]),
    };
    if contains(head, "--test "@) {
        cmd
    } else if tail.len() == 0 {
        head + " --test "@ + stem
    } else {
        head + " --test "@ + stem + " -- "@ + tail
    }
}

/// Narrows `cargo test` to one integration-test target.
pub fn insert_cargo_test_filter(test_cmd: &str, stem: &str) -> (r: String)
    ensures
        r@ == cargo_filter_spec(test_cmd@, stem@),
{
    let c = chars_of(test_cmd);
    let sep = chars_of(" -- ");
    let (head, tail): (Vec<char>, Vec<char>) = match crate::text::split_once_exec(
        c.as_slice(),
        sep.as_slice(),
    ) {
        Some((h, t)) => (h, t),
        None => (c, Vec::new()),
    };
    let head_s = crate::text::string_of(head.as_slice());
    if str_contains(head_s.as_str(), "--test ") {
        return test_cmd.to_owned();
    }
    let mut out = head_s;
    out.append(" --test ");
    out.append(stem);
    if tail.len() > 0 {
        out.append(" -- ");
        let tail_s = crate::text::string_of(tail.as_slice());
        out.append(tail_s.as_str());
    }
    out
}

/// The test command narrowed to a single Rust integration test, when the
/// command is `cargo test` and exactly one `.rs` file under a `tests`
/// directory is being worked on.
pub open spec fn scope_command_spec(cmd: Seq<char>, paths: Seq<Seq<char>>) -> Seq<char> {
    if !starts_with(cmd, "cargo test"@) || paths.len() != 1 {
        cmd
    } else {
        let p = paths[0];
        match file_stem(p) {
            None => cmd,
            Some(stem) => if components(p).contains("tests"@) && extension(p) == Some("rs"@) {
                cargo_filter_spec(cmd, stem)
            } else {
                cmd
            },
        }
    }
}

/// Narrows the test command to the test file under repair.
pub fn scope_test_command_for_paths(test_cmd: &str, test_paths: &[String]) -> (r: String)
    ensures
        r@ == scope_command_spec(test_cmd@, string_views(test_paths@)),
{
    if !str_starts_with(test_cmd, "cargo test") || test_paths.len() != 1 {
        return test_cmd.to_owned();
    }
    let p = chars_of(test_paths[0].as_str());
    let comps = components_exec(p.as_slice());
    let tests = chars_of("tests");
    let mut in_tests = false;
    let mut i: usize = 0;
    while i < comps.len()
        invariant
            i <= comps@.len(),
            crate::text::views(comps@) == components(p@),
            tests@ == "tests"@,
            in_tests == crate::text::views(comps@).take(i as int).contains("tests"@),
        decreases comps.len() - i,
    {
        proof {
            crate::order::lemma_contains_push(
                crate::text::views(comps@).take(i as int),
                comps@[i as int]@,
                "tests"@,
            );
            assert(crate::text::views(comps@).take(i + 1) =~= crate::text::views(comps@).take(
                i as int,
            ).push(comps@[i as int]@));
        }
        if crate::paths::chars_eq(comps[i].as_slice(), tests.as_slice()) {
            in_tests = true;
        }
        i = i + 1;
    }
    assert(crate::text::views(comps@).take(comps@.len() as int) =~= crate::text::views(comps@));
    match file_stem_exec(p.as_slice()) {
        None => test_cmd.to_owned(),
        Some(stem) => {
            let rs = match extension_exec(p.as_slice()) {
                Some(e) => {
                    let es = crate::text::string_of(e.as_slice());
                    crate::text::str_eq(es.as_str(), "rs")
                },
                None => false,
            };
            if in_tests && rs {
                let stem_s = crate::text::string_of(stem.as_slice());
                insert_cargo_test_filter(test_cmd, stem_s.as_str())
            } else {
                test_cmd.to_owned()
            }
        },
    }
}

// ---------------------------------------------------------------------------
// Failure classification
// ---------------------------------------------------------------------------

/// Output of a test run that failed before any assertion could run
/// (missing files, unresolved imports, compile errors), on the lowercased
/// output.
pub open spec fn setup_failure_spec(lower: Seq<char>) -> bool {
    ||| contains(lower, "no such file or directory"@)
    ||| contains(lower, "failed to canonicalize"@)
    ||| contains(lower, "e0433:"@)
    ||| contains(lower, "e0061:"@)
    ||| contains(lower, "e0599:"@)
    ||| contains(lower, "unresolved import"@)
    ||| contains(lower, "tempfile::"@)
}

/// Does the test output show a setup failure rather than a test failing?
pub fn is_setup_test_failure(output: &str) -> (b: bool)
    ensures
        b == setup_failure_spec(unicode_lower(output@)),
{
    let lower = to_lowercase(output);
    let l = lower.as_str();
    str_contains(l, "no such file or directory") || str_contains(l, "failed to canonicalize")
        || str_contains(l, "e0433:") || str_contains(l, "e0061:") || str_contains(l, "e0599:")
        || str_contains(l, "unresolved import") || str_contains(l, "tempfile::")
}

/// The lowercased output shows a failed assertion.
pub open spec fn assertion_signal(lower: Seq<char>) -> bool {
    ||| contains(lower, "assertion `"@)
    ||| contains(lower, "assert_eq!"@)
    ||| contains(lower, "assertion failed"@)
    ||| (contains(lower, "panicked at"@) && contains(lower, "assert"@))
}

/// The file's stem appears (lowercased) in the lowercased output.
pub open spec fn stem_named(lower: Seq<char>, path: Seq<char>) -> bool {
    match file_stem(path) {
        Some(stem) => contains(lower, unicode_lower(stem)),
        None => false,
    }
}

/// Some test file's stem appears in the lowercased output.
pub open spec fn names_a_test_file(lower: Seq<char>, paths: Seq<Seq<char>>) -> bool {
    exists|i: int| 0 <= i < paths.len() && #[trigger] stem_named(lower, paths[i])
}

/// A genuine failing assertion (the TDD red state) in the test files under
/// work: not a setup failure, an assertion signal, and either the command
/// was scoped to those files, there are none, or one is named in the output.
pub open spec fn assertion_failure_spec(
    output: Seq<char>,
    paths: Seq<Seq<char>>,
    command_scoped: bool,
) -> bool {
    let lower = unicode_lower(output);
    &&& !setup_failure_spec(lower)
    &&& assertion_signal(lower)
    &&& (command_scoped || paths.len() == 0 || names_a_test_file(lower, paths))
}

/// Classifies a failing test run as a genuine assertion failure.
pub fn is_assertion_test_failure(output: &str, test_paths: &[String], command_scoped: bool) -> (b:
    bool)
    ensures
        b == assertion_failure_spec(output@, string_views(test_paths@), command_scoped),
{
    if is_setup_test_failure(output) {
        return false;
    }
    let lower = to_lowercase(output);
    let l = lower.as_str();
    let signal = str_contains(l, "assertion `") || str_contains(l, "assert_eq!") || str_contains(
        l,
        "assertion failed",
    ) || (str_contains(l, "panicked at") && str_contains(l, "assert"));
    if !signal {
        return false;
    }
    if command_scoped || test_paths.len() == 0 {
        return true;
    }
    let ghost paths = string_views(test_paths@);
    let mut i: usize = 0;
    while i < test_paths.len()
        invariant
            i <= test_paths@.len(),
            paths == string_views(test_paths@),
            lower@ == unicode_lower(output@),
            l@ == lower@,
            !setup_failure_spec(unicode_lower(output@)),
            assertion_signal(unicode_lower(output@)),
            forall|j: int| 0 <= j < i ==> !#[trigger] stem_named(lower@, paths[j]),
        decreases test_paths.len() - i,
    {
        let p = chars_of(test_paths[i].as_str());
        assert(paths[i as int] == p@);
        match file_stem_exec(p.as_slice()) {
            Some(stem) => {
                let stem_s = crate::text::string_of(stem.as_slice());
                let stem_lower = to_lowercase(stem_s.as_str());
                if str_contains(l, stem_lower.as_str()) {
                    assert(stem_named(lower@, paths[i as int]));
                    return true;
                }
            },
            None => {},
        }
        i = i + 1;
    }
    false
}

// ---------------------------------------------------------------------------
// Edit scope
// ---------------------------------------------------------------------------

/// Shared test helpers that triage must never edit.
pub open spec fn protected_spec(path: Seq<char>) -> bool {
    path_ends_with(path, "tests/common/mod.rs"@) || path_ends_with(
        path,
        "tests/cache_manager_tests.rs"@,
    )
}

/// Is the path shared test infrastructure?
pub fn is_protected_test_infra(path: &str) -> (b: bool)
    ensures
        b == protected_spec(path@),
{
    path_ends_with_exec(path, "tests/common/mod.rs") || path_ends_with_exec(
        path,
        "tests/cache_manager_tests.rs",
    )
}

pub open spec fn canon_view(o: Option<String>) -> Option<Seq<char>> {
    match o {
        Some(s) => Some(s@),
        None => None,
    }
}

/// Two paths name the same file: equal as paths, or equal once both were
/// canonicalized (`None`: canonicalizing failed).
pub open spec fn equivalent_spec(
    left: Seq<char>,
    right: Seq<char>,
    left_canonical: Option<Seq<char>>,
    right_canonical: Option<Seq<char>>,
) -> bool {
    path_eq(left, right) || match (left_canonical, right_canonical) {
        (Some(a), Some(b)) => path_eq(a, b),
        _ => false,
    }
}

/// Do the two paths name the same file, given their canonical forms?
pub fn paths_equivalent(
    left: &str,
    right: &str,
    left_canonical: &Option<String>,
    right_canonical: &Option<String>,
) -> (b: bool)
    ensures
        b == equivalent_spec(left@, right@, canon_view(*left_canonical), canon_view(*right_canonical)),
{
    if path_eq_exec(left, right) {
        return true;
    }
    match (left_canonical, right_canonical) {
        (Some(a), Some(b)) => path_eq_exec(a.as_str(), b.as_str()),
        _ => false,
    }
}

pub open spec fn shared_infra_msg(path: Seq<char>) -> Seq<char> {
    path + " is shared test infrastructure — edit the generated test file instead"@
}

pub open spec fn out_of_scope_msg(path: Seq<char>, editable: Seq<Seq<char>>) -> Seq<char> {
    path + " is outside builder triage scope (editable: "@ + join(editable, ", "@) + ")"@
}

/// May triage edit `resolved`? Never shared test infrastructure; anything
/// else when no scope is set; otherwise only a file of the scope.
/// `canonical_resolved` and `canonical_editable` are the canonicalized
/// paths (`None` where the file could not be resolved on disk).
pub fn assert_edit_allowed(
    resolved: &str,
    editable_paths: &[String],
    canonical_resolved: &Option<String>,
    canonical_editable: &[Option<String>],
) -> (r: Result<(), String>)
    requires
        canonical_editable@.len() == editable_paths@.len(),
    ensures
        protected_spec(resolved@) ==> (r matches Err(e) && e@ == shared_infra_msg(resolved@)),
        !protected_spec(resolved@) && editable_paths@.len() == 0 ==> r is Ok,
        !protected_spec(resolved@) && editable_paths@.len() > 0 ==> ((exists|i: int|
            0 <= i < editable_paths@.len() && #[trigger] equivalent_spec(
                resolved@,
                editable_paths@[i]@,
                canon_view(*canonical_resolved),
                canon_view(canonical_editable@[i]),
            )) ==> r is Ok),
        !protected_spec(resolved@) && editable_paths@.len() > 0 ==> (!(exists|i: int|
            0 <= i < editable_paths@.len() && #[trigger] equivalent_spec(
                resolved@,
                editable_paths@[i]@,
                canon_view(*canonical_resolved),
                canon_view(canonical_editable@[i]),
            )) ==> (r matches Err(e) && e@ == out_of_scope_msg(
            resolved@,
            string_views(editable_paths@),
        ))),
{
    if is_protected_test_infra(resolved) {
        let mut m = resolved.to_owned();
        m.append(" is shared test infrastructure — edit the generated test file instead");
        return Err(m);
    }
    if editable_paths.len() == 0 {
        return Ok(());
    }
    let mut i: usize = 0;
    while i < editable_paths.len()
        invariant
            i <= editable_paths@.len(),
            canonical_editable@.len() == editable_paths@.len(),
            !protected_spec(resolved@),
            forall|j: int|
                0 <= j < i ==> !#[trigger] equivalent_spec(
                    resolved@,
                    editable_paths@[j]@,
                    canon_view(*canonical_resolved),
                    canon_view(canonical_editable@[j]),
                ),
        decreases editable_paths.len() - i,
    {
        if paths_equivalent(
            resolved,
            editable_paths[i].as_str(),
            canonical_resolved,
            &canonical_editable[i],
        ) {
            return Ok(());
        }
        i = i + 1;
    }
    let mut m = resolved.to_owned();
    m.append(" is outside builder triage scope (editable: ");
    let list = join_strings(editable_paths, ", ");
    m.append(list.as_str());
    m.append(")");
    Err(m)
}

/// `PathBuf::join` of a relative path onto a root.
pub open spec fn join_rel(root: Seq<char>, rel: Seq<char>) -> Seq<char> {
    crate::builder::join_path(root, rel)
}

/// Some non-empty root has the path under it.
pub open spec fn first_root_over(roots: Seq<Seq<char>>, path: Seq<char>) -> bool {
    exists|i: int| 0 <= i < roots.len() && roots[i].len() > 0 && #[trigger] path_starts_with(path, roots[i])
}

/// The first non-empty root whose join with a relative path stays under it.
pub open spec fn first_joining_root(roots: Seq<Seq<char>>, rel: Seq<char>) -> Option<Seq<char>>
    decreases roots.len(),
{
    if roots.len() == 0 {
        None
    } else if roots[0].len() > 0 && path_starts_with(join_rel(roots[0], rel), roots[0]) {
        Some(roots[0])
    } else {
        first_joining_root(roots.drop_first(), rel)
    }
}

pub open spec fn not_relative_msg(path: Seq<char>) -> Seq<char> {
    "edit path must be relative to a triage module root: "@ + path
}

pub open spec fn traversal_msg(path: Seq<char>) -> Seq<char> {
    "edit path must not contain ..: "@ + path
}

pub open spec fn outside_roots_msg(path: Seq<char>) -> Seq<char> {
    "edit path must be inside a triage module root: "@ + path
}

/// Where a model-chosen edit path points: an absolute path must lie under
/// a (non-empty) module root; a relative one must not use `..` and is
/// joined onto the first root it stays under.
pub open spec fn resolve_edit_spec(path: Seq<char>, roots: Seq<Seq<char>>) -> Result<
    Seq<char>,
    Seq<char>,
> {
    if is_absolute(path) {
        if first_root_over(roots, path) {
            Ok(path)
        } else {
            Err(not_relative_msg(path))
        }
    } else if has_parent_dir(path) {
        Err(traversal_msg(path))
    } else {
        match first_joining_root(roots, path) {
            Some(root) => Ok(join_rel(root, path)),
            None => Err(outside_roots_msg(path)),
        }
    }
}

proof fn lemma_first_joining_root(roots: Seq<Seq<char>>, rel: Seq<char>)
    ensures
        first_joining_root(roots, rel) matches Some(r) ==> exists|i: int|
            0 <= i < roots.len() && #[trigger] roots[i] == r && r.len() > 0 && path_starts_with(
                join_rel(r, rel),
                r,
            ),
    decreases roots.len(),
{
    if roots.len() > 0 && !(roots[0].len() > 0 && path_starts_with(join_rel(roots[0], rel), roots[0])) {
        lemma_first_joining_root(roots.drop_first(), rel);
        if first_joining_root(roots, rel) is Some {
            let r = first_joining_root(roots, rel)->0;
            let i = choose|i: int|
                0 <= i < roots.drop_first().len() && #[trigger] roots.drop_first()[i] == r && r.len() > 0
                    && path_starts_with(join_rel(r, rel), r);
            assert(roots[i + 1] == r);
        }
    } else if roots.len() > 0 {
        assert(roots[0] == roots[0]);
    }
}

/// An edit path the triage accepts always lands under one of its non-empty
/// module roots (component-wise, as `Path::starts_with`).
pub proof fn accepted_edit_path_is_under_a_root(path: Seq<char>, roots: Seq<Seq<char>>)
    ensures
        resolve_edit_spec(path, roots) matches Ok(p) ==> first_root_over(roots, p),
{
    lemma_first_joining_root(roots, path);
    if is_absolute(path) && first_root_over(roots, path) {
        let i = choose|i: int|
            0 <= i < roots.len() && roots[i].len() > 0 && #[trigger] path_starts_with(path, roots[i]);
        assert(resolve_edit_spec(path, roots) == Ok::<Seq<char>, Seq<char>>(path));
        assert(path_starts_with(path, roots[i]));
        assert(first_root_over(roots, path));
    }
    if !is_absolute(path) && !has_parent_dir(path) {
        if first_joining_root(roots, path) is Some {
            let r = first_joining_root(roots, path)->0;
            let i = choose|i: int|
                0 <= i < roots.len() && #[trigger] roots[i] == r && r.len() > 0 && path_starts_with(
                    join_rel(r, path),
                    r,
                );
            assert(resolve_edit_spec(path, roots) == Ok::<Seq<char>, Seq<char>>(join_rel(r, path)));
            assert(path_starts_with(join_rel(r, path), roots[i]));
            assert(roots[i].len() > 0);
            assert(first_root_over(roots, join_rel(r, path)));
        }
    }
}

fn join_rel_exec(root: &str, rel: &str) -> (r: String)
    ensures
        r@ == join_rel(root@, rel@),
{
    let rc = chars_of(root);
    let mut out = root.to_owned();
    if rc.len() > 0 && rc[rc.len() - 1] != '/' {
        crate::text::push_char(&mut out, '/');
    }
    out.append(rel);
    proof {
        if rc@.len() > 0 {
            assert(rc@.last() == rc@[rc.len() - 1]);
        }
        if rc@.len() > 0 && rc@.last() != '/' {
            assert(root@.push('/') =~= root@ + seq!['/']);
        }
        assert(out@ =~= join_rel(root@, rel@));
    }
    out
}

/// Resolves a path the model wants to edit against the module roots.
pub fn resolve_edit_path(path: &str, module_roots: &[String]) -> (r: Result<String, String>)
    ensures
        match r {
            Ok(p) => resolve_edit_spec(path@, string_views(module_roots@)) == Ok::<
                Seq<char>,
                Seq<char>,
            >(p@),
            Err(e) => resolve_edit_spec(path@, string_views(module_roots@)) == Err::<
                Seq<char>,
                Seq<char>,
            >(e@),
        },
{
    let ghost roots = string_views(module_roots@);
    let p = chars_of(path);
    if p.len() > 0 && p[0] == '/' {
        let mut i: usize = 0;
        while i < module_roots.len()
            invariant
                i <= module_roots@.len(),
                roots == string_views(module_roots@),
                is_absolute(path@),
                forall|j: int|
                    0 <= j < i ==> !(roots[j].len() > 0 && #[trigger] path_starts_with(
                        path@,
                        roots[j],
                    )),
            decreases module_roots.len() - i,
        {
            let root = module_roots[i].as_str();
            assert(roots[i as int] == root@);
            if !root.is_empty() && path_starts_with_exec(path, root) {
                assert(first_root_over(roots, path@)) by {
                    assert(path_starts_with(path@, roots[i as int]));
                }
                return Ok(path.to_owned());
            }
            i = i + 1;
        }
        let mut m = "edit path must be relative to a triage module root: ".to_owned();
        m.append(path);
        return Err(m);
    }
    if crate::builder::has_parent_dir_exec(p.as_slice()) {
        let mut m = "edit path must not contain ..: ".to_owned();
        m.append(path);
        return Err(m);
    }
    let mut i: usize = 0;
    assert(roots.skip(0) =~= roots);
    while i < module_roots.len()
        invariant
            i <= module_roots@.len(),
            roots == string_views(module_roots@),
            !is_absolute(path@),
            !has_parent_dir(path@),
            first_joining_root(roots, path@) == first_joining_root(roots.skip(i as int), path@),
        decreases module_roots.len() - i,
    {
        let root = module_roots[i].as_str();
        assert(roots.skip(i as int)[0] == root@);
        if !root.is_empty() {
            let candidate = join_rel_exec(root, path);
            if path_starts_with_exec(candidate.as_str(), root) {
                return Ok(candidate);
            }
        }
        assert(roots.skip(i as int).drop_first() =~= roots.skip(i + 1));
        i = i + 1;
    }
    let mut m = "edit path must be inside a triage module root: ".to_owned();
    m.append(path);
    Err(m)
}

// ---------------------------------------------------------------------------
// Triage tools
// ---------------------------------------------------------------------------

/// The triage agent's tools: `edit_file` and the terminal `report_architectural_error`.
pub fn triage_tool_set() -> (s: crate::llm::LlmToolSet)
    ensures
        crate::llm::tool_names(s) == seq!["edit_file"@, "report_architectural_error"@],
{
    let s = crate::llm::LlmToolSet::new().register(
        crate::llm::ToolDefinition::new(
            "edit_file",
            "Replaces one file line (1-based numbering). Use only for trivial fixes.",
        ).string_param("path", "File path (relative to module or absolute).", true).integer_param(
            "line",
            "Line number to replace (>= 1).",
            true,
        ).string_param("content", "New line contents.", true),
    ).register(
        crate::llm::ToolDefinition::new(
            "report_architectural_error",
            "Escalates a complex compile error to an architect when a local edit is not enough.",
        ).string_param("msg", "Problem description for the architect.", true),
    );
    assert(crate::llm::tool_names(s) =~= seq!["edit_file"@, "report_architectural_error"@]);
    s
}

/// A non-negative integer argument that fits `usize`.
pub open spec fn required_usize_spec(arguments: crate::json::JsonValue, key: Seq<char>) -> Result<
    nat,
    Seq<char>,
> {
    match crate::json::get(arguments, key) {
        Some(v) => match crate::transformer::json_uint(v) {
            Some(n) => if n <= usize::MAX {
                Ok(n)
            } else {
                Err("tool argument '"@ + key + "' must be a positive integer"@)
            },
            None => Err("tool argument '"@ + key + "' must be a positive integer"@),
        },
        None => Err("tool argument '"@ + key + "' must be a positive integer"@),
    }
}

/// Reads a non-negative integer tool argument.
pub fn required_usize(arguments: &crate::json::JsonValue, key: &str) -> (r: Result<usize, String>)
    ensures
        match required_usize_spec(*arguments, key@) {
            Ok(n) => r == Ok::<usize, String>(n as usize),
            Err(e) => r matches Err(m) && m@ == e,
        },
{
    let n: Option<u64> = match arguments.get(key) {
        Some(v) => v.as_u64(),
        None => None,
    };
    match n {
        Some(n) => if n <= usize::MAX as u64 {
            return Ok(n as usize);
        },
        None => {},
    }
    let mut m = "tool argument '".to_owned();
    m.append(key);
    m.append("' must be a positive integer");
    Err(m)
}

/// The `path`, `line` and `content` of an edit_file call.
pub fn parse_edit_file_arguments(arguments: &crate::json::JsonValue) -> (r: Result<
    (String, usize, String),
    String,
>)
    ensures
        match (
            crate::json::get_str(*arguments, "path"@),
            required_usize_spec(*arguments, "line"@),
            crate::json::get_str(*arguments, "content"@),
        ) {
            (None, _, _) => r matches Err(e) && e@ == crate::json::not_a_string_msg("path"@),
            (Some(_), Err(m), _) => r matches Err(e) && e@ == m,
            (Some(_), Ok(_), None) => r matches Err(e) && e@ == crate::json::not_a_string_msg(
                "content"@,
            ),
            (Some(p), Ok(n), Some(c)) => r matches Ok((a, b, d)) && a@ == p && b == n && d@ == c,
        },
{
    let path = match crate::json::required_str(arguments, "path") {
        Ok(p) => p,
        Err(e) => {
            return Err(e);
        },
    };
    let line = match required_usize(arguments, "line") {
        Ok(n) => n,
        Err(e) => {
            return Err(e);
        },
    };
    let content = match crate::json::required_str(arguments, "content") {
        Ok(c) => c,
        Err(e) => {
            return Err(e);
        },
    };
    Ok((path, line, content))
}

/// The `msg` of report_architectural_error.
pub fn parse_report_error_arguments(arguments: &crate::json::JsonValue) -> (r: Result<String, String>)
    ensures
        match crate::json::get_str(*arguments, "msg"@) {
            Some(s) => r matches Ok(x) && x@ == s,
            None => r matches Err(e) && e@ == crate::json::not_a_string_msg("msg"@),
        },
{
    crate::json::required_str(arguments, "msg")
}

} // verus!
