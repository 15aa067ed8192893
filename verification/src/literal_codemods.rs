//! Line-based codemods for the LogEvent field migration (headline → subject,
//! message → summary, tags removed, source_module added) in Rust, TypeScript,
//! Java, C/C++ call sites and JVM builder types.
use vstd::prelude::*;

use crate::migration::{migration_words, source_module_spec, ModuleIdStyle};
use crate::text::{
    chars_of, contains, contains_exec, copy_range, find_from, find_from_exec, join, join_exec,
    leading_ws, lines, lines_exec, matches_at, matches_at_exec, replace, replace_exec, starts_with,
    starts_with_exec, string_of, trim, trim_exec, trim_start, unicode_lower, views,
};

verus! {

// ---------------------------------------------------------------------------
// Line helpers
// ---------------------------------------------------------------------------

/// The leading whitespace of a line.
pub open spec fn indent_of(l: Seq<char>) -> Seq<char> {
    l.take(l.len() - trim_start(l).len())
}

fn indent_exec(l: &[char]) -> (r: Vec<char>)
    ensures
        r@ == indent_of(l@),
{
    let k = leading_ws(l);
    let r = copy_range(l, 0, k);
    assert(r@ =~= l@.take(k as int));
    r
}

/// `str::trim_start_matches` with a string pattern: every leading copy of `p` removed.
pub open spec fn trim_start_str(s: Seq<char>, p: Seq<char>) -> Seq<char>
    decreases s.len(),
{
    if p.len() > 0 && starts_with(s, p) {
        trim_start_str(s.skip(p.len() as int), p)
    } else {
        s
    }
}

fn trim_start_str_exec(s: &[char], p: &[char]) -> (r: Vec<char>)
    ensures
        r@ == trim_start_str(s@, p@),
{
    let mut k: usize = 0;
    assert(s@.skip(0) =~= s@);
    while p.len() > 0 && matches_at_exec(s, p, k)
        invariant
            k <= s@.len(),
            trim_start_str(s@, p@) == trim_start_str(s@.skip(k as int), p@),
        decreases s@.len() - k,
    {
        assert(s@.skip(k as int).subrange(0, p@.len() as int) =~= s@.subrange(
            k as int,
            k + p@.len(),
        ));
        assert(s@.skip(k as int).skip(p@.len() as int) =~= s@.skip(k + p@.len()));
        let pl = p.len();
        let sl = s.len();
        assert(k + pl <= sl);
        k = k + pl;
    }
    if p.len() > 0 && p.len() <= s.len() - k {
        assert(s@.skip(k as int).subrange(0, p@.len() as int) =~= s@.subrange(
            k as int,
            k + p@.len(),
        ));
    }
    let r = copy_range(s, k, s.len());
    assert(r@ =~= s@.skip(k as int));
    r
}

/// What follows a field name and its colons: `trim_start_matches(name).trim_start_matches(':')`.
pub open spec fn after_field(t: Seq<char>, name: Seq<char>) -> Seq<char> {
    trim_start_str(trim_start_str(t, name), ":"@)
}

fn after_field_exec(t: &[char], name: &str) -> (r: Vec<char>)
    ensures
        r@ == after_field(t@, name@),
{
    let n = chars_of(name);
    let colon = chars_of(":");
    let a = trim_start_str_exec(t, n.as_slice());
    trim_start_str_exec(a.as_slice(), colon.as_slice())
}

fn starts(t: &[char], p: &str) -> (b: bool)
    ensures
        b == starts_with(t@, p@),
{
    let pv = chars_of(p);
    starts_with_exec(t, pv.as_slice())
}

fn holds(t: &[char], p: &str) -> (b: bool)
    ensures
        b == contains(t@, p@),
{
    let pv = chars_of(p);
    contains_exec(t, pv.as_slice())
}


/// The inference of a file's `source_module` is defined for it (see `infer_source_module`).
pub open spec fn module_inference_defined(root: Seq<char>, file: Seq<char>, style: ModuleIdStyle) -> bool {
    let rel = crate::migration::relative_components(
        crate::project::workspace_path_spec(root, file),
        root,
    );
    !crate::migration::marker_is_file(
        crate::migration::names(rel),
        crate::migration::stem_of(rel),
        style,
    )
}

/// Whether a codemod applies: the instruction names the field migration.
pub open spec fn applies(instruction: Seq<char>) -> bool {
    migration_words(unicode_lower(instruction))
}

/// The outcome of a line codemod: the joined lines when something changed.
pub open spec fn joined_if_changed(out: Seq<Seq<char>>, changed: bool) -> Option<Seq<char>> {
    if changed {
        Some(join(out, "\n"@))
    } else {
        None
    }
}

pub open spec fn opt_string_view(o: Option<String>) -> Option<Seq<char>> {
    match o {
        Some(s) => Some(s@),
        None => None,
    }
}

// ---------------------------------------------------------------------------
// Rust struct literals
// ---------------------------------------------------------------------------

/// One line of a Rust struct literal: drop `tags:`, rename `headline:`/`message:`,
/// rewrite `source_module:`, and add `source_module` before `correlation_id:` when the
/// snippet has none.
pub open spec fn rust_step(acc: (Seq<Seq<char>>, bool), l: Seq<char>, sm: Seq<char>, has_sm: bool) -> (
    Seq<Seq<char>>,
    bool,
) {
    let out = acc.0;
    let changed = acc.1;
    let t = trim(l);
    if starts_with(t, "tags:"@) || starts_with(t, "tags :"@) {
        (out, true)
    } else {
        let ind = indent_of(l);
        let sm_line = ind + "source_module: \""@ + sm + "\".into(),"@;
        let rw = if starts_with(t, "headline:"@) || starts_with(t, "headline :"@) {
            ind + "subject:"@ + after_field(t, "headline"@)
        } else if starts_with(t, "message:"@) || starts_with(t, "message :"@) {
            ind + "summary:"@ + after_field(t, "message"@)
        } else if starts_with(t, "source_module:"@) || starts_with(t, "source_module :"@) {
            sm_line
        } else {
            l
        };
        let hit = starts_with(t, "headline:"@) || starts_with(t, "headline :"@) || starts_with(
            t,
            "message:"@,
        ) || starts_with(t, "message :"@) || starts_with(t, "source_module:"@) || starts_with(
            t,
            "source_module :"@,
        );
        if !has_sm && (starts_with(t, "correlation_id:"@) || starts_with(t, "correlation_id :"@)) {
            (out.push(sm_line).push(rw), true)
        } else {
            (out.push(rw), changed || hit)
        }
    }
}

pub open spec fn rust_fold(ls: Seq<Seq<char>>, sm: Seq<char>, has_sm: bool) -> (Seq<Seq<char>>, bool)
    decreases ls.len(),
{
    if ls.len() == 0 {
        (Seq::empty(), false)
    } else {
        rust_step(rust_fold(ls.drop_last(), sm, has_sm), ls.last(), sm, has_sm)
    }
}

/// What the Rust struct-literal codemod makes of a snippet.
pub open spec fn rust_codemod_spec(snippet: Seq<char>, instruction: Seq<char>, root: Seq<char>, file: Seq<char>) -> Option<
    Seq<char>,
> {
    if !applies(instruction) {
        None
    } else {
        match source_module_spec(root, file, instruction, ModuleIdStyle::RustPath) {
            None => None,
            Some(sm) => {
                let r = rust_fold(lines(snippet), sm, contains(snippet, "source_module:"@));
                joined_if_changed(r.0, r.1)
            },
        }
    }
}

/// A `tags:` field line, which the Rust codemod drops.
pub open spec fn is_tags_field(l: Seq<char>) -> bool {
    starts_with(trim(l), "tags:"@) || starts_with(trim(l), "tags :"@)
}

/// The lines that are not `tags:` field lines, in their order.
pub open spec fn kept_lines(ls: Seq<Seq<char>>) -> Seq<Seq<char>>
    decreases ls.len(),
{
    if ls.len() == 0 {
        Seq::empty()
    } else if is_tags_field(ls.last()) {
        kept_lines(ls.drop_last())
    } else {
        kept_lines(ls.drop_last()).push(ls.last())
    }
}

/// One struct-literal line with `headline`/`message` renamed to
/// `subject`/`summary` and a `source_module` field set to `sm`; any other
/// line as it is.
pub open spec fn rust_line_rewrite(l: Seq<char>, sm: Seq<char>) -> Seq<char> {
    let t = trim(l);
    let ind = indent_of(l);
    if starts_with(t, "headline:"@) || starts_with(t, "headline :"@) {
        ind + "subject:"@ + after_field(t, "headline"@)
    } else if starts_with(t, "message:"@) || starts_with(t, "message :"@) {
        ind + "summary:"@ + after_field(t, "message"@)
    } else if starts_with(t, "source_module:"@) || starts_with(t, "source_module :"@) {
        ind + "source_module: \""@ + sm + "\".into(),"@
    } else {
        l
    }
}

proof fn lemma_rust_fold_with_module_maps_lines(ls: Seq<Seq<char>>, sm: Seq<char>)
    ensures
        rust_fold(ls, sm, true).0 == kept_lines(ls).map_values(|l: Seq<char>| rust_line_rewrite(l, sm)),
    decreases ls.len(),
{
    if ls.len() > 0 {
        lemma_rust_fold_with_module_maps_lines(ls.drop_last(), sm);
        let prev = kept_lines(ls.drop_last());
        assert(prev.push(ls.last()).map_values(|l: Seq<char>| rust_line_rewrite(l, sm)) =~= prev.map_values(
            |l: Seq<char>| rust_line_rewrite(l, sm),
        ).push(rust_line_rewrite(ls.last(), sm)));
    } else {
        assert(kept_lines(ls).map_values(|l: Seq<char>| rust_line_rewrite(l, sm)) =~= Seq::<Seq<char>>::empty());
    }
}

/// When a snippet already sets `source_module:`, the Rust codemod inserts no
/// line: its output is the snippet's lines without the `tags:` lines, one
/// output line for each, renamed or rewritten in place, in their order.
pub proof fn rust_codemod_inserts_nothing_when_module_is_set(
    snippet: Seq<char>,
    instruction: Seq<char>,
    root: Seq<char>,
    file: Seq<char>,
)
    requires
        contains(snippet, "source_module:"@),
    ensures
        rust_codemod_spec(snippet, instruction, root, file) matches Some(out) ==> (source_module_spec(
            root,
            file,
            instruction,
            ModuleIdStyle::RustPath,
        ) matches Some(sm) && out == join(
            kept_lines(lines(snippet)).map_values(|l: Seq<char>| rust_line_rewrite(l, sm)),
            "\n"@,
        )),
{
    match source_module_spec(root, file, instruction, ModuleIdStyle::RustPath) {
        Some(sm) => lemma_rust_fold_with_module_maps_lines(lines(snippet), sm),
        None => {},
    }
}

/// A `correlation_id:` field line.
pub open spec fn is_correlation_field(l: Seq<char>) -> bool {
    starts_with(trim(l), "correlation_id:"@) || starts_with(trim(l), "correlation_id :"@)
}

/// The `source_module` field line, indented like `l`.
pub open spec fn module_line(l: Seq<char>, sm: Seq<char>) -> Seq<char> {
    indent_of(l) + "source_module: \""@ + sm + "\".into(),"@
}

/// Rewritten lines, each `correlation_id:` line preceded by a new
/// `source_module` line.
pub open spec fn lines_with_module(ks: Seq<Seq<char>>, sm: Seq<char>) -> Seq<Seq<char>>
    decreases ks.len(),
{
    if ks.len() == 0 {
        Seq::empty()
    } else {
        let prev = lines_with_module(ks.drop_last(), sm);
        let l = ks.last();
        if is_correlation_field(l) {
            prev.push(module_line(l, sm)).push(rust_line_rewrite(l, sm))
        } else {
            prev.push(rust_line_rewrite(l, sm))
        }
    }
}

proof fn lemma_rust_fold_without_module_inserts(ls: Seq<Seq<char>>, sm: Seq<char>)
    ensures
        rust_fold(ls, sm, false).0 == lines_with_module(kept_lines(ls), sm),
    decreases ls.len(),
{
    if ls.len() > 0 {
        lemma_rust_fold_without_module_inserts(ls.drop_last(), sm);
        let prev = kept_lines(ls.drop_last());
        if !is_tags_field(ls.last()) {
            let ks = prev.push(ls.last());
            assert(ks.drop_last() =~= prev);
        }
    }
}

/// When a snippet sets no `source_module:`, the Rust codemod adds one
/// `source_module` line, set to the inferred module, right before each
/// `correlation_id:` line, drops the `tags:` lines and renames the others in
/// place, in their order.
pub proof fn rust_codemod_adds_module_before_correlation_id(
    snippet: Seq<char>,
    instruction: Seq<char>,
    root: Seq<char>,
    file: Seq<char>,
)
    requires
        !contains(snippet, "source_module:"@),
    ensures
        rust_codemod_spec(snippet, instruction, root, file) matches Some(out) ==> (source_module_spec(
            root,
            file,
            instruction,
            ModuleIdStyle::RustPath,
        ) matches Some(sm) && out == join(lines_with_module(kept_lines(lines(snippet)), sm), "\n"@)),
{
    match source_module_spec(root, file, instruction, ModuleIdStyle::RustPath) {
        Some(sm) => lemma_rust_fold_without_module_inserts(lines(snippet), sm),
        None => {},
    }
}

fn push_line(out: &mut Vec<Vec<char>>, l: Vec<char>)
    ensures
        views(final(out)@) == views(old(out)@).push(l@),
{
    let ghost before = out@;
    out.push(l);
    assert(views(out@) =~= views(before).push(l@));
}

fn concat3(a: &[char], b: &str, c: &[char]) -> (r: Vec<char>)
    ensures
        r@ == a@ + b@ + c@,
{
    let mut r = copy_range(a, 0, a.len());
    assert(r@ =~= a@);
    let bv = chars_of(b);
    crate::text::append_chars(&mut r, bv.as_slice());
    crate::text::append_chars(&mut r, c);
    r
}

fn concat4(a: &[char], b: &str, c: &[char], d: &str) -> (r: Vec<char>)
    ensures
        r@ == a@ + b@ + c@ + d@,
{
    let mut r = concat3(a, b, c);
    let dv = chars_of(d);
    crate::text::append_chars(&mut r, dv.as_slice());
    r
}

/// Rewrites a Rust struct literal for the field migration named by `instruction`;
/// `None` when the instruction is unrelated, no module can be inferred, or nothing changed.
pub fn try_rust_struct_literal_codemod(
    snippet: &str,
    instruction: &str,
    workspace_root: &str,
    file_path: &str,
) -> (r: Option<String>)
    requires
        applies(instruction@) && crate::migration::first_arrow_module(
            crate::text::lines(instruction@),
            0,
        ) is None ==> module_inference_defined(
            workspace_root@,
            file_path@,
            ModuleIdStyle::RustPath,
        ),
    ensures
        opt_string_view(r) == rust_codemod_spec(snippet@, instruction@, workspace_root@, file_path@),
{
    if !crate::migration::instruction_contains_field_migration(instruction) {
        return None;
    }
    let sm = match crate::migration::infer_source_module(
        workspace_root,
        file_path,
        instruction,
        ModuleIdStyle::RustPath,
    ) {
        Some(m) => m,
        None => {
            return None;
        },
    };
    let smv = chars_of(sm.as_str());
    let has_sm = crate::text::str_contains(snippet, "source_module:");
    let sv = chars_of(snippet);
    let ls = lines_exec(sv.as_slice());
    let ghost lsv = views(ls@);
    let mut out: Vec<Vec<char>> = Vec::new();
    let mut changed = false;
    let mut i: usize = 0;
    while i < ls.len()
        invariant
            i <= ls@.len(),
            lsv == views(ls@),
            (views(out@), changed) == rust_fold(lsv.take(i as int), smv@, has_sm),
        decreases ls.len() - i,
    {
        let l = &ls[i];
        assert(lsv.take(i + 1).drop_last() =~= lsv.take(i as int));
        assert(lsv.take(i + 1).last() == l@);
        let t = trim_exec(l.as_slice());
        let ts = t.as_slice();
        if starts(ts, "tags:") || starts(ts, "tags :") {
            changed = true;
        } else {
            let ind = indent_exec(l.as_slice());
            let sm_line = concat4(ind.as_slice(), "source_module: \"", smv.as_slice(), "\".into(),");
            let is_head = starts(ts, "headline:") || starts(ts, "headline :");
            let is_msg = starts(ts, "message:") || starts(ts, "message :");
            let is_sm = starts(ts, "source_module:") || starts(ts, "source_module :");
            let rw: Vec<char> = if is_head {
                let rest = after_field_exec(ts, "headline");
                concat3(ind.as_slice(), "subject:", rest.as_slice())
            } else if is_msg {
                let rest = after_field_exec(ts, "message");
                concat3(ind.as_slice(), "summary:", rest.as_slice())
            } else if is_sm {
                copy_range(sm_line.as_slice(), 0, sm_line.len())
            } else {
                copy_range(l.as_slice(), 0, l.len())
            };
            proof {
                if !is_head && !is_msg && is_sm {
                    assert(rw@ =~= sm_line@);
                } else if !is_head && !is_msg && !is_sm {
                    assert(rw@ =~= l@);
                }
            }
            if !has_sm && (starts(ts, "correlation_id:") || starts(ts, "correlation_id :")) {
                push_line(&mut out, sm_line);
                push_line(&mut out, rw);
                changed = true;
            } else {
                push_line(&mut out, rw);
                changed = changed || is_head || is_msg || is_sm;
            }
        }
        i = i + 1;
    }
    assert(lsv.take(ls@.len() as int) =~= lsv);
    if !changed {
        return None;
    }
    let joined = join_exec(out.as_slice(), chars_of("\n").as_slice());
    Some(string_of(joined.as_slice()))
}


// ---------------------------------------------------------------------------
// TypeScript object literals
// ---------------------------------------------------------------------------

/// One line of a TS object literal; the state is (lines, changed, has sourceModule).
pub open spec fn ts_step(acc: (Seq<Seq<char>>, bool, bool), l: Seq<char>, sm: Seq<char>) -> (
    Seq<Seq<char>>,
    bool,
    bool,
) {
    let out = acc.0;
    let changed = acc.1;
    let has = acc.2;
    let t = trim(l);
    if starts_with(t, "tags:"@) || starts_with(t, "tags :"@) {
        (out, true, has)
    } else {
        let ind = indent_of(l);
        let fi = ind + "  "@;
        let sm_line = fi + "sourceModule: '"@ + sm + "',"@;
        let is_head = starts_with(t, "headline:"@) || starts_with(t, "headline :"@);
        let is_msg = starts_with(t, "message:"@) || starts_with(t, "message :"@);
        let is_sm = starts_with(t, "sourceModule:"@) || starts_with(t, "sourceModule :"@);
        let rw = if is_head {
            ind + "subject:"@ + after_field(t, "headline"@)
        } else if is_msg {
            ind + "summary:"@ + after_field(t, "message"@)
        } else if is_sm {
            sm_line
        } else {
            l
        };
        let ch1 = changed || is_head || is_msg || is_sm;
        let has1 = has || (!is_head && !is_msg && is_sm);
        if !has1 && (starts_with(t, "meta:"@) || starts_with(t, "meta :"@)) && contains(t, "{"@) {
            (out.push(l).push(sm_line), true, true)
        } else if !has1 && (starts_with(t, "correlationId:"@) || starts_with(t, "correlationId :"@)
            || starts_with(t, "correlationId,"@)) {
            (out.push(sm_line).push(rw), true, true)
        } else {
            (out.push(rw), ch1, has1)
        }
    }
}

pub open spec fn ts_fold(ls: Seq<Seq<char>>, sm: Seq<char>, has: bool) -> (Seq<Seq<char>>, bool, bool)
    decreases ls.len(),
{
    if ls.len() == 0 {
        (Seq::empty(), false, has)
    } else {
        ts_step(ts_fold(ls.drop_last(), sm, has), ls.last(), sm)
    }
}

/// What the TS object-literal codemod makes of a snippet.
pub open spec fn ts_codemod_spec(snippet: Seq<char>, instruction: Seq<char>, root: Seq<char>, file: Seq<char>) -> Option<
    Seq<char>,
> {
    if !applies(instruction) {
        None
    } else {
        match source_module_spec(root, file, instruction, ModuleIdStyle::TsSlash) {
            None => None,
            Some(sm) => {
                let r = ts_fold(lines(snippet), sm, contains(snippet, "sourceModule:"@));
                joined_if_changed(r.0, r.1)
            },
        }
    }
}

/// Rewrites a TS/TSX object literal for the field migration named by `instruction`.
pub fn try_ts_object_literal_codemod(
    snippet: &str,
    instruction: &str,
    workspace_root: &str,
    file_path: &str,
) -> (r: Option<String>)
    requires
        applies(instruction@) && crate::migration::first_arrow_module(
            crate::text::lines(instruction@),
            0,
        ) is None ==> module_inference_defined(
            workspace_root@,
            file_path@,
            ModuleIdStyle::TsSlash,
        ),
    ensures
        opt_string_view(r) == ts_codemod_spec(snippet@, instruction@, workspace_root@, file_path@),
{
    if !crate::migration::instruction_contains_field_migration(instruction) {
        return None;
    }
    let sm = match crate::migration::infer_source_module(
        workspace_root,
        file_path,
        instruction,
        ModuleIdStyle::TsSlash,
    ) {
        Some(m) => m,
        None => {
            return None;
        },
    };
    let smv = chars_of(sm.as_str());
    let has0 = crate::text::str_contains(snippet, "sourceModule:");
    let sv = chars_of(snippet);
    let ls = lines_exec(sv.as_slice());
    let ghost lsv = views(ls@);
    let mut out: Vec<Vec<char>> = Vec::new();
    let mut changed = false;
    let mut has = has0;
    let mut i: usize = 0;
    while i < ls.len()
        invariant
            i <= ls@.len(),
            lsv == views(ls@),
            (views(out@), changed, has) == ts_fold(lsv.take(i as int), smv@, has0),
        decreases ls.len() - i,
    {
        let l = &ls[i];
        assert(lsv.take(i + 1).drop_last() =~= lsv.take(i as int));
        assert(lsv.take(i + 1).last() == l@);
        let t = trim_exec(l.as_slice());
        let ts = t.as_slice();
        if starts(ts, "tags:") || starts(ts, "tags :") {
            changed = true;
        } else {
            let ind = indent_exec(l.as_slice());
            let fi = concat3(ind.as_slice(), "  ", &[]);
            assert(fi@ =~= ind@ + "  "@);
            let sm_line = concat4(fi.as_slice(), "sourceModule: '", smv.as_slice(), "',");
            let is_head = starts(ts, "headline:") || starts(ts, "headline :");
            let is_msg = starts(ts, "message:") || starts(ts, "message :");
            let is_sm = starts(ts, "sourceModule:") || starts(ts, "sourceModule :");
            let rw: Vec<char> = if is_head {
                let rest = after_field_exec(ts, "headline");
                concat3(ind.as_slice(), "subject:", rest.as_slice())
            } else if is_msg {
                let rest = after_field_exec(ts, "message");
                concat3(ind.as_slice(), "summary:", rest.as_slice())
            } else if is_sm {
                copy_range(sm_line.as_slice(), 0, sm_line.len())
            } else {
                copy_range(l.as_slice(), 0, l.len())
            };
            proof {
                if !is_head && !is_msg && is_sm {
                    assert(rw@ =~= sm_line@);
                } else if !is_head && !is_msg && !is_sm {
                    assert(rw@ =~= l@);
                }
            }
            let ch1 = changed || is_head || is_msg || is_sm;
            let has1 = has || (!is_head && !is_msg && is_sm);
            if !has1 && (starts(ts, "meta:") || starts(ts, "meta :")) && holds(ts, "{") {
                let lc = copy_range(l.as_slice(), 0, l.len());
                assert(lc@ =~= l@);
                push_line(&mut out, lc);
                push_line(&mut out, sm_line);
                changed = true;
                has = true;
            } else if !has1 && (starts(ts, "correlationId:") || starts(ts, "correlationId :")
                || starts(ts, "correlationId,")) {
                push_line(&mut out, sm_line);
                push_line(&mut out, rw);
                changed = true;
                has = true;
            } else {
                push_line(&mut out, rw);
                changed = ch1;
                has = has1;
            }
        }
        i = i + 1;
    }
    assert(lsv.take(ls@.len() as int) =~= lsv);
    if !changed {
        return None;
    }
    let joined = join_exec(out.as_slice(), chars_of("\n").as_slice());
    Some(string_of(joined.as_slice()))
}


// ---------------------------------------------------------------------------
// Java builder calls
// ---------------------------------------------------------------------------

/// One line of a Java builder chain; the state is (lines, changed, has sourceModule).
pub open spec fn java_step(acc: (Seq<Seq<char>>, bool, bool), l: Seq<char>, sm: Seq<char>) -> (
    Seq<Seq<char>>,
    bool,
    bool,
) {
    let out = acc.0;
    let changed = acc.1;
    let has = acc.2;
    let t = trim(l);
    if starts_with(t, ".tags("@) {
        (out, true, has)
    } else {
        let fi = indent_of(l) + "    "@;
        let sm_line = fi + ".sourceModule(\""@ + sm + "\")"@;
        let is_head = starts_with(t, ".headline("@);
        let is_msg = starts_with(t, ".message("@);
        let is_sm = starts_with(t, ".sourceModule("@);
        let rw = if is_head {
            crate::hunks::replace_first(l, ".headline("@, ".subject("@)
        } else if is_msg {
            crate::hunks::replace_first(l, ".message("@, ".summary("@)
        } else if is_sm {
            sm_line
        } else {
            l
        };
        let ch1 = changed || is_head || is_msg || is_sm;
        let has1 = has || (!is_head && !is_msg && is_sm);
        if !has1 && (starts_with(t, ".meta("@) || contains(t, "SortMeta.builder()"@)) {
            (out.push(l), ch1, has1)
        } else if !has1 && starts_with(t, ".correlationId("@) {
            (out.push(sm_line).push(rw), true, true)
        } else {
            (out.push(rw), ch1, has1)
        }
    }
}

pub open spec fn java_fold(ls: Seq<Seq<char>>, sm: Seq<char>, has: bool) -> (Seq<Seq<char>>, bool, bool)
    decreases ls.len(),
{
    if ls.len() == 0 {
        (Seq::empty(), false, has)
    } else {
        java_step(java_fold(ls.drop_last(), sm, has), ls.last(), sm)
    }
}

/// What the Java builder codemod makes of a snippet.
pub open spec fn java_codemod_spec(snippet: Seq<char>, instruction: Seq<char>, root: Seq<char>, file: Seq<char>) -> Option<
    Seq<char>,
> {
    if !applies(instruction) {
        None
    } else {
        match source_module_spec(root, file, instruction, ModuleIdStyle::JavaPackage) {
            None => None,
            Some(sm) => {
                let r = java_fold(lines(snippet), sm, contains(snippet, ".sourceModule("@));
                joined_if_changed(r.0, r.1)
            },
        }
    }
}

fn replace_first_str(l: &[char], from: &str, to: &str) -> (r: Vec<char>)
    ensures
        r@ == crate::hunks::replace_first(l@, from@, to@),
{
    let f = chars_of(from);
    let t = chars_of(to);
    crate::hunks::replace_first_exec(l, f.as_slice(), t.as_slice())
}

/// Rewrites a Java builder call chain for the field migration named by `instruction`.
pub fn try_java_call_codemod(
    snippet: &str,
    instruction: &str,
    workspace_root: &str,
    file_path: &str,
) -> (r: Option<String>)
    requires
        applies(instruction@) && crate::migration::first_arrow_module(
            crate::text::lines(instruction@),
            0,
        ) is None ==> module_inference_defined(
            workspace_root@,
            file_path@,
            ModuleIdStyle::JavaPackage,
        ),
    ensures
        opt_string_view(r) == java_codemod_spec(snippet@, instruction@, workspace_root@, file_path@),
{
    if !crate::migration::instruction_contains_field_migration(instruction) {
        return None;
    }
    let sm = match crate::migration::infer_source_module(
        workspace_root,
        file_path,
        instruction,
        ModuleIdStyle::JavaPackage,
    ) {
        Some(m) => m,
        None => {
            return None;
        },
    };
    let smv = chars_of(sm.as_str());
    let has0 = crate::text::str_contains(snippet, ".sourceModule(");
    let sv = chars_of(snippet);
    let ls = lines_exec(sv.as_slice());
    let ghost lsv = views(ls@);
    let mut out: Vec<Vec<char>> = Vec::new();
    let mut changed = false;
    let mut has = has0;
    let mut i: usize = 0;
    while i < ls.len()
        invariant
            i <= ls@.len(),
            lsv == views(ls@),
            (views(out@), changed, has) == java_fold(lsv.take(i as int), smv@, has0),
        decreases ls.len() - i,
    {
        let l = &ls[i];
        assert(lsv.take(i + 1).drop_last() =~= lsv.take(i as int));
        assert(lsv.take(i + 1).last() == l@);
        let t = trim_exec(l.as_slice());
        let ts = t.as_slice();
        if starts(ts, ".tags(") {
            changed = true;
        } else {
            let ind = indent_exec(l.as_slice());
            let fi = concat3(ind.as_slice(), "    ", &[]);
            assert(fi@ =~= ind@ + "    "@);
            let sm_line = concat4(fi.as_slice(), ".sourceModule(\"", smv.as_slice(), "\")");
            let is_head = starts(ts, ".headline(");
            let is_msg = starts(ts, ".message(");
            let is_sm = starts(ts, ".sourceModule(");
            let rw: Vec<char> = if is_head {
                replace_first_str(l.as_slice(), ".headline(", ".subject(")
            } else if is_msg {
                replace_first_str(l.as_slice(), ".message(", ".summary(")
            } else if is_sm {
                copy_range(sm_line.as_slice(), 0, sm_line.len())
            } else {
                copy_range(l.as_slice(), 0, l.len())
            };
            proof {
                if !is_head && !is_msg && is_sm {
                    assert(rw@ =~= sm_line@);
                } else if !is_head && !is_msg && !is_sm {
                    assert(rw@ =~= l@);
                }
            }
            let ch1 = changed || is_head || is_msg || is_sm;
            let has1 = has || (!is_head && !is_msg && is_sm);
            if !has1 && (starts(ts, ".meta(") || holds(ts, "SortMeta.builder()")) {
                let lc = copy_range(l.as_slice(), 0, l.len());
                assert(lc@ =~= l@);
                push_line(&mut out, lc);
                changed = ch1;
                has = has1;
            } else if !has1 && starts(ts, ".correlationId(") {
                push_line(&mut out, sm_line);
                push_line(&mut out, rw);
                changed = true;
                has = true;
            } else {
                push_line(&mut out, rw);
                changed = ch1;
                has = has1;
            }
        }
        i = i + 1;
    }
    assert(lsv.take(ls@.len() as int) =~= lsv);
    if !changed {
        return None;
    }
    let joined = join_exec(out.as_slice(), chars_of("\n").as_slice());
    Some(string_of(joined.as_slice()))
}

// ---------------------------------------------------------------------------
// JVM builder types
// ---------------------------------------------------------------------------

/// The text declares a builder method `name` (Java `Builder name(` or Kotlin `fun name(`).
pub open spec fn declares_builder_method(text: Seq<char>, name: Seq<char>) -> bool {
    contains(text, "Builder "@ + name + "("@) || contains(text, "fun "@ + name + "("@)
}

fn declares_builder_method_exec(text: &[char], name: &str) -> (b: bool)
    ensures
        b == declares_builder_method(text@, name@),
{
    let nv = chars_of(name);
    let a = concat4(&[], "Builder ", nv.as_slice(), "(");
    let b = concat4(&[], "fun ", nv.as_slice(), "(");
    assert(a@ =~= "Builder "@ + name@ + "("@);
    assert(b@ =~= "fun "@ + name@ + "("@);
    contains_exec(text, a.as_slice()) || contains_exec(text, b.as_slice())
}

/// One line of a JVM log type: drop legacy builder methods whose new names exist,
/// otherwise rename them; the state is (lines, changed).
pub open spec fn jvm_step(
    acc: (Seq<Seq<char>>, bool),
    l: Seq<char>,
    has_subject: bool,
    has_summary: bool,
    has_sm: bool,
) -> (Seq<Seq<char>>, bool) {
    let out = acc.0;
    let changed = acc.1;
    let t = trim(l);
    if has_subject && declares_builder_method(t, "headline"@) {
        (out, true)
    } else if has_summary && declares_builder_method(t, "message"@) {
        (out, true)
    } else if has_sm && declares_builder_method(t, "tags"@) {
        (out, true)
    } else if declares_builder_method(t, "headline"@) {
        (out.push(replace(l, "headline("@, "subject("@)), true)
    } else if declares_builder_method(t, "message"@) {
        (out.push(replace(l, "message("@, "summary("@)), true)
    } else if declares_builder_method(t, "tags"@) {
        (out.push(replace(l, "tags("@, "sourceModule("@)), true)
    } else {
        (out.push(l), changed)
    }
}

pub open spec fn jvm_fold(ls: Seq<Seq<char>>, has_subject: bool, has_summary: bool, has_sm: bool) -> (
    Seq<Seq<char>>,
    bool,
)
    decreases ls.len(),
{
    if ls.len() == 0 {
        (Seq::empty(), false)
    } else {
        jvm_step(
            jvm_fold(ls.drop_last(), has_subject, has_summary, has_sm),
            ls.last(),
            has_subject,
            has_summary,
            has_sm,
        )
    }
}

/// What the JVM log-type codemod makes of a file.
pub open spec fn jvm_codemod_spec(content: Seq<char>, instruction: Seq<char>) -> Option<Seq<char>> {
    if !applies(instruction) {
        None
    } else {
        let r = jvm_fold(
            lines(content),
            declares_builder_method(content, "subject"@),
            declares_builder_method(content, "summary"@),
            declares_builder_method(content, "sourceModule"@),
        );
        joined_if_changed(r.0, r.1)
    }
}

fn replace_str(l: &[char], from: &str, to: &str) -> (r: Vec<char>)
    requires
        from@.len() > 0,
    ensures
        r@ == replace(l@, from@, to@),
{
    let f = chars_of(from);
    let t = chars_of(to);
    replace_exec(l, f.as_slice(), t.as_slice())
}

/// Migrates a JVM log type's builder methods (drops legacy aliases when the new names exist).
pub fn try_jvm_type_codemod(content: &str, instruction: &str) -> (r: Option<String>)
    ensures
        opt_string_view(r) == jvm_codemod_spec(content@, instruction@),
{
    if !crate::migration::instruction_contains_field_migration(instruction) {
        return None;
    }
    let cv = chars_of(content);
    let has_subject = declares_builder_method_exec(cv.as_slice(), "subject");
    let has_summary = declares_builder_method_exec(cv.as_slice(), "summary");
    let has_sm = declares_builder_method_exec(cv.as_slice(), "sourceModule");
    let ls = lines_exec(cv.as_slice());
    let ghost lsv = views(ls@);
    let mut out: Vec<Vec<char>> = Vec::new();
    let mut changed = false;
    let mut i: usize = 0;
    while i < ls.len()
        invariant
            i <= ls@.len(),
            lsv == views(ls@),
            (views(out@), changed) == jvm_fold(lsv.take(i as int), has_subject, has_summary, has_sm),
        decreases ls.len() - i,
    {
        let l = &ls[i];
        assert(lsv.take(i + 1).drop_last() =~= lsv.take(i as int));
        assert(lsv.take(i + 1).last() == l@);
        let t = trim_exec(l.as_slice());
        let ts = t.as_slice();
        let head = declares_builder_method_exec(ts, "headline");
        let msg = declares_builder_method_exec(ts, "message");
        let tags = declares_builder_method_exec(ts, "tags");
        if (has_subject && head) || (has_summary && msg) || (has_sm && tags) {
            changed = true;
        } else if head {
            proof {
                reveal_strlit("headline(");
            }
            push_line(&mut out, replace_str(l.as_slice(), "headline(", "subject("));
            changed = true;
        } else if msg {
            proof {
                reveal_strlit("message(");
            }
            push_line(&mut out, replace_str(l.as_slice(), "message(", "summary("));
            changed = true;
        } else if tags {
            proof {
                reveal_strlit("tags(");
            }
            push_line(&mut out, replace_str(l.as_slice(), "tags(", "sourceModule("));
            changed = true;
        } else {
            let lc = copy_range(l.as_slice(), 0, l.len());
            assert(lc@ =~= l@);
            push_line(&mut out, lc);
        }
        i = i + 1;
    }
    assert(lsv.take(ls@.len() as int) =~= lsv);
    if !changed {
        return None;
    }
    let joined = join_exec(out.as_slice(), chars_of("\n").as_slice());
    Some(string_of(joined.as_slice()))
}


// ---------------------------------------------------------------------------
// C / C++ designated initializers
// ---------------------------------------------------------------------------

/// Each run of spaces shortened to a single space.
pub open spec fn squeeze_spaces(s: Seq<char>) -> Seq<char>
    decreases s.len(),
{
    if s.len() == 0 {
        s
    } else {
        let r = squeeze_spaces(s.drop_last());
        if s.last() == ' ' && s.len() >= 2 && s[s.len() - 2] == ' ' {
            r
        } else {
            r.push(s.last())
        }
    }
}

fn squeeze_spaces_exec(s: &[char]) -> (r: Vec<char>)
    ensures
        r@ == squeeze_spaces(s@),
{
    let mut r: Vec<char> = Vec::new();
    let mut i: usize = 0;
    while i < s.len()
        invariant
            i <= s@.len(),
            r@ == squeeze_spaces(s@.take(i as int)),
        decreases s.len() - i,
    {
        assert(s@.take(i + 1).drop_last() =~= s@.take(i as int));
        let c = s[i];
        if !(c == ' ' && i > 0 && s[i - 1] == ' ') {
            r.push(c);
        }
        i = i + 1;
    }
    assert(s@.take(s@.len() as int) =~= s@);
    r
}

/// Removes an inline `.tags = …,` assignment (through its comma), then tidies spaces
/// and the `{ ,` it may leave.
pub open spec fn strip_tags_spec(line: Seq<char>) -> Seq<char> {
    let start = match find_from(line, ".tags ="@, 0) {
        Some(st) => Some(st),
        None => find_from(line, ".tags="@, 0),
    };
    match start {
        None => line,
        Some(st) => {
            let comma = match find_from(line, ","@, st) {
                Some(c) => c + 1,
                None => st,
            };
            let cut = line.take(st) + line.skip(comma);
            replace(replace(squeeze_spaces(cut), " { ,"@, " {"@), "{ ,"@, "{"@)
        },
    }
}

fn strip_tags_exec(line: &[char]) -> (r: Vec<char>)
    ensures
        r@ == strip_tags_spec(line@),
{
    proof {
        reveal_strlit(" { ,");
        reveal_strlit("{ ,");
        reveal_strlit(",");
    }
    let a = chars_of(".tags =");
    let b = chars_of(".tags=");
    let comma_pat = chars_of(",");
    let fa = find_from_exec(line, a.as_slice(), 0);
    let start = match fa {
        Some(st) => Some(st),
        None => find_from_exec(line, b.as_slice(), 0),
    };
    match start {
        None => copy_range(line, 0, line.len()),
        Some(st) => {
            proof {
                crate::text::lemma_find_from(line@, ".tags ="@, 0);
                crate::text::lemma_find_from(line@, ".tags="@, 0);
            }
            let found = find_from_exec(line, comma_pat.as_slice(), st);
            proof {
                crate::text::lemma_find_from(line@, ","@, st as int);
            }
            let n = line.len();
            let comma = match found {
                Some(c) => {
                    assert(c + 1 <= n);
                    c + 1
                },
                None => st,
            };
            let mut cut = copy_range(line, 0, st);
            let tail = copy_range(line, comma, line.len());
            crate::text::append_chars(&mut cut, tail.as_slice());
            assert(cut@ =~= line@.take(st as int) + line@.skip(comma as int));
            let sq = squeeze_spaces_exec(cut.as_slice());
            let r1 = replace_str(sq.as_slice(), " { ,", " {");
            replace_str(r1.as_slice(), "{ ,", "{")
        },
    }
}

/// One line of a C/C++ designated-initializer call; the state is (lines, changed,
/// has source_module).
pub open spec fn cpp_step(acc: (Seq<Seq<char>>, bool, bool), l: Seq<char>, sm: Seq<char>) -> (
    Seq<Seq<char>>,
    bool,
    bool,
) {
    let out = acc.0;
    let changed = acc.1;
    let has = acc.2;
    let t = trim(l);
    if starts_with(t, ".tags ="@) || starts_with(t, ".tags="@) {
        (out, true, has)
    } else {
        let fi = indent_of(l) + "    "@;
        let sm_line = fi + ".source_module = \""@ + sm + "\","@;
        let h = contains(t, ".headline ="@) || contains(t, ".headline="@);
        let r1 = if h {
            replace(replace(l, ".headline ="@, ".subject ="@), ".headline="@, ".subject="@)
        } else {
            l
        };
        let m = contains(t, ".message ="@) || contains(t, ".message="@);
        let r2 = if m {
            replace(replace(r1, ".message ="@, ".summary ="@), ".message="@, ".summary="@)
        } else {
            r1
        };
        let sm_hit = contains(t, ".source_module ="@) || contains(t, ".source_module="@);
        let r3 = if sm_hit {
            sm_line
        } else {
            r2
        };
        let has3 = has || sm_hit;
        let g = contains(t, ".tags ="@) || contains(t, ".tags="@);
        let r4 = if g {
            strip_tags_spec(r3)
        } else {
            r3
        };
        let c4 = changed || h || m || sm_hit || g;
        let meta = starts_with(t, ".meta ="@) || starts_with(t, ".meta="@);
        let step5 = if !has3 && meta && contains(r4, "correlation_id"@) {
            match find_from(r4, ".correlation_id"@, 0) {
                Some(idx) => (
                    r4.take(idx) + fi + ".source_module = \""@ + sm + "\", "@ + r4.skip(idx),
                    true,
                    true,
                ),
                None => (r4, c4, has3),
            }
        } else {
            (r4, c4, has3)
        };
        if !step5.2 && (starts_with(t, ".correlation_id ="@) || starts_with(
            t,
            ".correlation_id="@,
        )) {
            (out.push(sm_line).push(step5.0), true, true)
        } else {
            (out.push(step5.0), step5.1, step5.2)
        }
    }
}

pub open spec fn cpp_fold(ls: Seq<Seq<char>>, sm: Seq<char>, has: bool) -> (Seq<Seq<char>>, bool, bool)
    decreases ls.len(),
{
    if ls.len() == 0 {
        (Seq::empty(), false, has)
    } else {
        cpp_step(cpp_fold(ls.drop_last(), sm, has), ls.last(), sm)
    }
}

/// What the C/C++ call codemod makes of a snippet.
pub open spec fn cpp_codemod_spec(snippet: Seq<char>, instruction: Seq<char>, root: Seq<char>, file: Seq<char>) -> Option<
    Seq<char>,
> {
    if !applies(instruction) {
        None
    } else {
        match source_module_spec(root, file, instruction, ModuleIdStyle::Snake) {
            None => None,
            Some(sm) => {
                let r = cpp_fold(
                    lines(snippet),
                    sm,
                    contains(snippet, "source_module ="@) || contains(snippet, "source_module="@),
                );
                joined_if_changed(r.0, r.1)
            },
        }
    }
}

fn cpp_line(l: &[char], t: &[char], smv: &[char], has: bool, changed: bool) -> (r: (
    Vec<char>,
    Vec<char>,
    bool,
    bool,
    bool,
))
    requires
        t@ == trim(l@),
        !(starts_with(t@, ".tags ="@) || starts_with(t@, ".tags="@)),
    ensures
        forall|out: Seq<Seq<char>>|
            #[trigger] cpp_step((out, changed, has), l@, smv@) == (
                if r.4 {
                    out.push(r.0@).push(r.1@)
                } else {
                    out.push(r.1@)
                },
                r.2,
                r.3,
            ),
{
    proof {
        reveal_strlit(".headline =");
        reveal_strlit(".headline=");
        reveal_strlit(".message =");
        reveal_strlit(".message=");
    }
    let ind = indent_exec(l);
    let fi = concat3(ind.as_slice(), "    ", &[]);
    assert(fi@ =~= ind@ + "    "@);
    let sm_line = concat4(fi.as_slice(), ".source_module = \"", smv, "\",");
    let h = holds(t, ".headline =") || holds(t, ".headline=");
    let r1: Vec<char> = if h {
        let a = replace_str(l, ".headline =", ".subject =");
        replace_str(a.as_slice(), ".headline=", ".subject=")
    } else {
        copy_range(l, 0, l.len())
    };
    assert(!h ==> r1@ =~= l@);
    let m = holds(t, ".message =") || holds(t, ".message=");
    let r2: Vec<char> = if m {
        let a = replace_str(r1.as_slice(), ".message =", ".summary =");
        replace_str(a.as_slice(), ".message=", ".summary=")
    } else {
        r1
    };
    let sm_hit = holds(t, ".source_module =") || holds(t, ".source_module=");
    let r3: Vec<char> = if sm_hit {
        copy_range(sm_line.as_slice(), 0, sm_line.len())
    } else {
        r2
    };
    assert(sm_hit ==> r3@ =~= sm_line@);
    let has3 = has || sm_hit;
    let g = holds(t, ".tags =") || holds(t, ".tags=");
    let r4: Vec<char> = if g {
        strip_tags_exec(r3.as_slice())
    } else {
        r3
    };
    let c4 = changed || h || m || sm_hit || g;
    let meta = starts(t, ".meta =") || starts(t, ".meta=");
    let mut r5 = r4;
    let mut c5 = c4;
    let mut has5 = has3;
    if !has3 && meta && holds(r5.as_slice(), "correlation_id") {
        let pat = chars_of(".correlation_id");
        let found = find_from_exec(r5.as_slice(), pat.as_slice(), 0);
        proof {
            crate::text::lemma_find_from(r5@, ".correlation_id"@, 0);
        }
        match found {
            Some(idx) => {
                let head = copy_range(r5.as_slice(), 0, idx);
                let tail = copy_range(r5.as_slice(), idx, r5.len());
                let mut n = concat4(head.as_slice(), "", fi.as_slice(), ".source_module = \"");
                crate::text::append_chars(&mut n, smv);
                let q = chars_of("\", ");
                crate::text::append_chars(&mut n, q.as_slice());
                crate::text::append_chars(&mut n, tail.as_slice());
                proof {
                    reveal_strlit("");
                    assert(n@ =~= r4@.take(idx as int) + fi@ + ".source_module = \""@ + smv@
                        + "\", "@ + r4@.skip(idx as int));
                }
                r5 = n;
                c5 = true;
                has5 = true;
            },
            None => {},
        }
    }
    let corr = starts(t, ".correlation_id =") || starts(t, ".correlation_id=");
    if !has5 && corr {
        (sm_line, r5, true, true, true)
    } else {
        (sm_line, r5, c5, has5, false)
    }
}

/// Rewrites a C/C++ designated-initializer call for the field migration named by `instruction`.
pub fn try_cpp_call_codemod(
    snippet: &str,
    instruction: &str,
    workspace_root: &str,
    file_path: &str,
) -> (r: Option<String>)
    requires
        applies(instruction@) && crate::migration::first_arrow_module(
            crate::text::lines(instruction@),
            0,
        ) is None ==> module_inference_defined(
            workspace_root@,
            file_path@,
            ModuleIdStyle::Snake,
        ),
    ensures
        opt_string_view(r) == cpp_codemod_spec(snippet@, instruction@, workspace_root@, file_path@),
{
    if !crate::migration::instruction_contains_field_migration(instruction) {
        return None;
    }
    let sm = match crate::migration::infer_source_module(
        workspace_root,
        file_path,
        instruction,
        ModuleIdStyle::Snake,
    ) {
        Some(m) => m,
        None => {
            return None;
        },
    };
    let smv = chars_of(sm.as_str());
    let has0 = crate::text::str_contains(snippet, "source_module =") || crate::text::str_contains(
        snippet,
        "source_module=",
    );
    let sv = chars_of(snippet);
    let ls = lines_exec(sv.as_slice());
    let ghost lsv = views(ls@);
    let mut out: Vec<Vec<char>> = Vec::new();
    let mut changed = false;
    let mut has = has0;
    let mut i: usize = 0;
    while i < ls.len()
        invariant
            i <= ls@.len(),
            lsv == views(ls@),
            (views(out@), changed, has) == cpp_fold(lsv.take(i as int), smv@, has0),
        decreases ls.len() - i,
    {
        let l = &ls[i];
        assert(lsv.take(i + 1).drop_last() =~= lsv.take(i as int));
        assert(lsv.take(i + 1).last() == l@);
        let t = trim_exec(l.as_slice());
        let ts = t.as_slice();
        if starts(ts, ".tags =") || starts(ts, ".tags=") {
            changed = true;
        } else {
            let ghost before = views(out@);
            let (sm_line, rw, c, h, insert) = cpp_line(l.as_slice(), ts, smv.as_slice(), has, changed);
            assert(cpp_step((before, changed, has), l@, smv@) == (
                if insert {
                    before.push(sm_line@).push(rw@)
                } else {
                    before.push(rw@)
                },
                c,
                h,
            ));
            if insert {
                push_line(&mut out, sm_line);
            }
            push_line(&mut out, rw);
            changed = c;
            has = h;
        }
        i = i + 1;
    }
    assert(lsv.take(ls@.len() as int) =~= lsv);
    if !changed {
        return None;
    }
    let joined = join_exec(out.as_slice(), chars_of("\n").as_slice());
    Some(string_of(joined.as_slice()))
}

} // verus!
