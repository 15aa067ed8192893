//! Field migrations: recognising a migration instruction and inferring
//! the module id (`source_module`) of a source file from its path.
use vstd::prelude::*;

use crate::paths::{components, components_exec, ext_dot, ext_dot_exec};
use crate::text::{
    chars_of, contains, copy_range, join, lines, split_once, string_of, trim, trim_exec,
    unicode_lower, views,
};

verus! {

// ---------------------------------------------------------------------------
// Instructions
// ---------------------------------------------------------------------------

/// The instruction (lowercased) mentions a field that a log-event
/// migration renames or adds.
pub open spec fn migration_words(lower: Seq<char>) -> bool {
    ||| contains(lower, "headline"@)
    ||| contains(lower, "subject"@)
    ||| contains(lower, "source_module"@)
    ||| contains(lower, "sourcemodule"@)
    ||| contains(lower, "tags"@)
    ||| contains(lower, "message"@)
    ||| contains(lower, "summary"@)
}

/// Is the instruction a field migration?
pub fn instruction_contains_field_migration(instruction: &str) -> (b: bool)
    ensures
        b == migration_words(unicode_lower(instruction@)),
{
    let lower = crate::text::to_lowercase(instruction);
    let l = lower.as_str();
    crate::text::str_contains(l, "headline") || crate::text::str_contains(l, "subject")
        || crate::text::str_contains(l, "source_module") || crate::text::str_contains(
        l,
        "sourcemodule",
    ) || crate::text::str_contains(l, "tags") || crate::text::str_contains(l, "message")
        || crate::text::str_contains(l, "summary")
}

/// Drops the quote characters `"` and `'` from both ends.
pub open spec fn trim_quotes(s: Seq<char>) -> Seq<char>
    decreases s.len(),
{
    if s.len() > 0 && (s[0] == '"' || s[0] == '\'') {
        trim_quotes(s.drop_first())
    } else if s.len() > 0 && (s.last() == '"' || s.last() == '\'') {
        trim_quotes(s.drop_last())
    } else {
        s
    }
}

fn trim_quotes_exec(s: &[char]) -> (r: Vec<char>)
    ensures
        r@ == trim_quotes(s@),
{
    let mut a: usize = 0;
    let mut b: usize = s.len();
    assert(s@.subrange(0, b as int) =~= s@);
    while a < b
        invariant
            a <= b <= s@.len(),
            trim_quotes(s@) == trim_quotes(s@.subrange(a as int, b as int)),
        ensures
            a <= b <= s@.len(),
            trim_quotes(s@) == s@.subrange(a as int, b as int),
        decreases b - a,
    {
        let ghost cur = s@.subrange(a as int, b as int);
        if s[a] == '"' || s[a] == '\'' {
            assert(cur[0] == s@[a as int]);
            assert(cur.drop_first() =~= s@.subrange(a + 1, b as int));
            a = a + 1;
        } else if s[b - 1] == '"' || s[b - 1] == '\'' {
            assert(cur[0] == s@[a as int]);
            assert(cur.last() == s@[b - 1]);
            assert(cur.drop_last() =~= s@.subrange(a as int, b - 1));
            b = b - 1;
        } else {
            assert(cur[0] == s@[a as int]);
            assert(cur.last() == s@[b - 1]);
            assert(trim_quotes(cur) == cur);
            break;
        }
    }
    copy_range(s, a, b)
}

/// The module id a line names after `→` (or `->`), if the line talks
/// about a module and the id looks like one (has `.` or `/`).
pub open spec fn arrow_module(line: Seq<char>) -> Option<Seq<char>> {
    let lower = unicode_lower(line);
    if !(contains(lower, "source_module"@) || contains(lower, "sourcemodule"@) || contains(
        lower,
        "module"@,
    )) {
        None
    } else {
        let after = match split_once(line, seq!['→']) {
            Some((_, m)) => Some(m),
            None => match split_once(line, "->"@) {
                Some((_, m)) => Some(m),
                None => None,
            },
        };
        match after {
            Some(m) => {
                let module = trim_quotes(trim(m));
                if module.len() > 0 && (module.contains('.') || module.contains('/')) {
                    Some(module)
                } else {
                    None
                }
            },
            None => None,
        }
    }
}

/// The first line, from `i`, that names a module explicitly.
pub open spec fn first_arrow_module(ls: Seq<Seq<char>>, i: int) -> Option<Seq<char>>
    decreases ls.len() - i,
{
    if i < 0 || i >= ls.len() {
        None
    } else {
        match arrow_module(ls[i]) {
            Some(m) => Some(m),
            None => first_arrow_module(ls, i + 1),
        }
    }
}

fn char_in(s: &[char], c: char) -> (b: bool)
    ensures
        b == s@.contains(c),
{
    let mut i: usize = 0;
    while i < s.len()
        invariant
            i <= s@.len(),
            forall|j: int| 0 <= j < i ==> s@[j] != c,
        decreases s.len() - i,
    {
        if s[i] == c {
            return true;
        }
        i = i + 1;
    }
    false
}

fn arrow_module_exec(line: &Vec<char>) -> (r: Option<Vec<char>>)
    ensures
        match r {
            Some(m) => arrow_module(line@) == Some(m@),
            None => arrow_module(line@) is None,
        },
{
    let ls = string_of(line.as_slice());
    let lower = crate::text::to_lowercase(ls.as_str());
    let l = lower.as_str();
    if !(crate::text::str_contains(l, "source_module") || crate::text::str_contains(
        l,
        "sourcemodule",
    ) || crate::text::str_contains(l, "module")) {
        return None;
    }
    let mut arrow: Vec<char> = Vec::new();
    arrow.push('→');
    assert(arrow@ =~= seq!['→']);
    let dash = chars_of("->");
    let after: Option<Vec<char>> = match crate::text::split_once_exec(
        line.as_slice(),
        arrow.as_slice(),
    ) {
        Some((_, m)) => Some(m),
        None => match crate::text::split_once_exec(line.as_slice(), dash.as_slice()) {
            Some((_, m)) => Some(m),
            None => None,
        },
    };
    match after {
        Some(m) => {
            let t = trim_exec(m.as_slice());
            let module = trim_quotes_exec(t.as_slice());
            if module.len() > 0 && (char_in(module.as_slice(), '.') || char_in(
                module.as_slice(),
                '/',
            )) {
                Some(module)
            } else {
                None
            }
        },
        None => None,
    }
}

/// A module id stated in the instruction (`source_module -> pkg.mod`).
pub fn explicit_module_from_instruction(instruction: &str) -> (r: Option<String>)
    ensures
        match r {
            Some(m) => first_arrow_module(lines(instruction@), 0) == Some(m@),
            None => first_arrow_module(lines(instruction@), 0) is None,
        },
{
    let c = chars_of(instruction);
    let ls = crate::text::lines_exec(c.as_slice());
    let ghost lsv = views(ls@);
    let mut i: usize = 0;
    while i < ls.len()
        invariant
            i <= ls@.len(),
            lsv == views(ls@),
            lsv == lines(instruction@),
            first_arrow_module(lsv, 0) == first_arrow_module(lsv, i as int),
        decreases ls.len() - i,
    {
        assert(lsv[i as int] == ls@[i as int]@);
        match arrow_module_exec(&ls[i]) {
            Some(m) => {
                return Some(string_of(m.as_slice()));
            },
            None => {},
        }
        i = i + 1;
    }
    None
}

// ---------------------------------------------------------------------------
// Module ids from paths
// ---------------------------------------------------------------------------

/// How a language spells a module id.
#[derive(Clone, Copy, PartialEq, Eq, Structural, Debug)]
pub enum ModuleIdStyle {
    /// `pkg.sub.module`: Python, C, C++, Zig.
    Snake,
    /// `mod::file`: Rust `source_module` strings.
    RustPath,
    /// `com.example.Foo`: Java and Kotlin.
    JavaPackage,
    /// `config-ui/ConfigApp`: TypeScript under `src/`.
    TsSlash,
}

/// A component that names a directory or file (not the root, `.` or `..`).
pub open spec fn is_name(c: Seq<char>) -> bool {
    c != seq!['/'] && c != seq!['.'] && c != seq!['.', '.']
}

/// The named components, in order.
pub open spec fn names(cs: Seq<Seq<char>>) -> Seq<Seq<char>>
    decreases cs.len(),
{
    if cs.len() == 0 {
        seq![]
    } else if is_name(cs.last()) {
        names(cs.drop_last()).push(cs.last())
    } else {
        names(cs.drop_last())
    }
}

/// `Path::file_stem` of a path given by its components.
pub open spec fn stem_of(cs: Seq<Seq<char>>) -> Option<Seq<char>> {
    if cs.len() > 0 && is_name(cs.last()) {
        let n = cs.last();
        match ext_dot(n) {
            Some(i) => Some(n.subrange(0, i)),
            None => Some(n),
        }
    } else {
        None
    }
}

/// The components of a path relative to the workspace root: what follows
/// the root's components when the path lies under it, else all of them.
pub open spec fn relative_components(abs: Seq<char>, root: Seq<char>) -> Seq<Seq<char>> {
    let a = components(abs);
    let r = components(root);
    if crate::paths::seq_prefix(r, a) {
        a.skip(r.len() as int)
    } else {
        a
    }
}

/// First index of `x`.
pub open spec fn first_index(parts: Seq<Seq<char>>, x: Seq<char>, i: int) -> Option<int>
    decreases parts.len() - i,
{
    if i < 0 || i >= parts.len() {
        None
    } else if parts[i] == x {
        Some(i)
    } else {
        first_index(parts, x, i + 1)
    }
}

/// First index of `java` or `kotlin`.
pub open spec fn first_jvm_index(parts: Seq<Seq<char>>, i: int) -> Option<int>
    decreases parts.len() - i,
{
    if i < 0 || i >= parts.len() {
        None
    } else if parts[i] == "java"@ || parts[i] == "kotlin"@ {
        Some(i)
    } else {
        first_jvm_index(parts, i + 1)
    }
}

/// The directories between index `idx` and the file name.
pub open spec fn between(parts: Seq<Seq<char>>, idx: int) -> Seq<Seq<char>> {
    parts.subrange(idx + 1, parts.len() - 1)
}

/// `parents` joined with `sep`, then `sep` and `leaf`; just `leaf` when
/// there are no parents.
pub open spec fn join_sep(parents: Seq<Seq<char>>, leaf: Seq<char>, sep: Seq<char>) -> Seq<char> {
    if parents.len() == 0 {
        leaf
    } else {
        join(parents, sep) + sep + leaf
    }
}

/// Parents under `src`, or the directory holding `src` when none.
pub open spec fn src_parents(parts: Seq<Seq<char>>, idx: int) -> Seq<Seq<char>> {
    if between(parts, idx).len() == 0 && idx > 0 {
        seq![parts[idx - 1]]
    } else {
        between(parts, idx)
    }
}

/// Leading directories skipped for Python-style ids outside `src` and
/// `scripts`.
pub open spec fn skip_dir(p: Seq<char>) -> bool {
    p == "scripts"@ || p == "test"@ || p == "tests"@ || p == "benches"@ || p == "examples"@
}

/// Index of the first directory that is not skipped (the file name itself
/// is never skipped).
pub open spec fn skip_start(parts: Seq<Seq<char>>, k: int) -> int
    decreases parts.len() - k,
{
    if 0 <= k && k < parts.len() - 1 && skip_dir(parts[k]) {
        skip_start(parts, k + 1)
    } else {
        k
    }
}

/// The module id of a file, from its workspace-relative components.
pub open spec fn module_from_parts(
    parts: Seq<Seq<char>>,
    stem: Option<Seq<char>>,
    style: ModuleIdStyle,
) -> Option<Seq<char>> {
    match style {
        ModuleIdStyle::RustPath => match stem {
            None => None,
            Some(s) => match first_index(parts, "src"@, 0) {
                Some(idx) => Some(join_sep(src_parents(parts, idx), s, "::"@)),
                None => Some(s),
            },
        },
        ModuleIdStyle::Snake => match stem {
            None => None,
            Some(s) => match first_index(parts, "src"@, 0) {
                Some(idx) => Some(join_sep(src_parents(parts, idx), s, "."@)),
                None => match first_index(parts, "scripts"@, 0) {
                    Some(idx) => Some(join_sep(between(parts, idx), s, "."@)),
                    None => {
                        let end = if parts.len() == 0 {
                            0
                        } else {
                            parts.len() - 1
                        };
                        Some(join_sep(parts.subrange(skip_start(parts, 0), end), s, "."@))
                    },
                },
            },
        },
        ModuleIdStyle::JavaPackage => match first_jvm_index(parts, 0) {
            None => None,
            Some(idx) => match stem {
                None => None,
                Some(s) => Some(join_sep(between(parts, idx), s, "."@)),
            },
        },
        ModuleIdStyle::TsSlash => match first_index(parts, "src"@, 0) {
            None => None,
            Some(idx) => {
                let segs0 = between(parts, idx);
                let segs = if segs0.len() > 0 && segs0[0] == "modules"@ {
                    segs0.drop_first()
                } else {
                    segs0
                };
                match stem {
                    None => None,
                    Some(s) => Some(join_sep(segs, s, "/"@)),
                }
            },
        },
    }
}

/// The inference would slice past the file name: the style's marker
/// directory is the file itself. (This is where the inference is not
/// defined.)
pub open spec fn marker_is_file(
    parts: Seq<Seq<char>>,
    stem: Option<Seq<char>>,
    style: ModuleIdStyle,
) -> bool {
    match style {
        ModuleIdStyle::RustPath => stem is Some && first_index(parts, "src"@, 0) == Some(
            parts.len() - 1,
        ),
        ModuleIdStyle::Snake => stem is Some && (first_index(parts, "src"@, 0) == Some(
            parts.len() - 1,
        ) || (first_index(parts, "src"@, 0) is None && first_index(parts, "scripts"@, 0) == Some(
            parts.len() - 1,
        ))),
        ModuleIdStyle::JavaPackage => first_jvm_index(parts, 0) == Some(parts.len() - 1),
        ModuleIdStyle::TsSlash => first_index(parts, "src"@, 0) == Some(parts.len() - 1),
    }
}

/// The `source_module` of a file: the id the instruction states, else one
/// inferred from the workspace-relative path in the style's convention.
pub open spec fn source_module_spec(
    workspace_root: Seq<char>,
    file_path: Seq<char>,
    instruction: Seq<char>,
    style: ModuleIdStyle,
) -> Option<Seq<char>> {
    match first_arrow_module(lines(instruction), 0) {
        Some(m) => Some(m),
        None => {
            let rel = relative_components(
                crate::project::workspace_path_spec(workspace_root, file_path),
                workspace_root,
            );
            module_from_parts(names(rel), stem_of(rel), style)
        },
    }
}

proof fn lemma_first_index(parts: Seq<Seq<char>>, x: Seq<char>, i: int)
    requires
        0 <= i,
    ensures
        first_index(parts, x, i) matches Some(k) ==> i <= k < parts.len() && parts[k] == x,
    decreases parts.len() - i,
{
    if i < parts.len() && parts[i] != x {
        lemma_first_index(parts, x, i + 1);
    }
}

proof fn lemma_first_jvm_index(parts: Seq<Seq<char>>, i: int)
    requires
        0 <= i,
    ensures
        first_jvm_index(parts, i) matches Some(k) ==> i <= k < parts.len(),
    decreases parts.len() - i,
{
    if i < parts.len() && !(parts[i] == "java"@ || parts[i] == "kotlin"@) {
        lemma_first_jvm_index(parts, i + 1);
    }
}

fn first_index_exec(parts: &Vec<Vec<char>>, x: &str) -> (r: Option<usize>)
    ensures
        match r {
            Some(k) => first_index(views(parts@), x@, 0) == Some(k as int),
            None => first_index(views(parts@), x@, 0) is None,
        },
{
    let xc = chars_of(x);
    let mut i: usize = 0;
    while i < parts.len()
        invariant
            i <= parts@.len(),
            xc@ == x@,
            first_index(views(parts@), x@, 0) == first_index(views(parts@), x@, i as int),
        decreases parts.len() - i,
    {
        assert(views(parts@)[i as int] == parts@[i as int]@);
        if crate::paths::chars_eq(parts[i].as_slice(), xc.as_slice()) {
            return Some(i);
        }
        i = i + 1;
    }
    None
}

fn first_jvm_index_exec(parts: &Vec<Vec<char>>) -> (r: Option<usize>)
    ensures
        match r {
            Some(k) => first_jvm_index(views(parts@), 0) == Some(k as int),
            None => first_jvm_index(views(parts@), 0) is None,
        },
{
    let java = chars_of("java");
    let kotlin = chars_of("kotlin");
    let mut i: usize = 0;
    while i < parts.len()
        invariant
            i <= parts@.len(),
            java@ == "java"@,
            kotlin@ == "kotlin"@,
            first_jvm_index(views(parts@), 0) == first_jvm_index(views(parts@), i as int),
        decreases parts.len() - i,
    {
        assert(views(parts@)[i as int] == parts@[i as int]@);
        if crate::paths::chars_eq(parts[i].as_slice(), java.as_slice()) || crate::paths::chars_eq(
            parts[i].as_slice(),
            kotlin.as_slice(),
        ) {
            return Some(i);
        }
        i = i + 1;
    }
    None
}

/// Copies `parts[lo..hi]`.
fn slice_parts(parts: &Vec<Vec<char>>, lo: usize, hi: usize) -> (r: Vec<Vec<char>>)
    requires
        lo <= hi <= parts@.len(),
    ensures
        views(r@) == views(parts@).subrange(lo as int, hi as int),
{
    let mut r: Vec<Vec<char>> = Vec::new();
    let mut i = lo;
    while i < hi
        invariant
            lo <= i <= hi <= parts@.len(),
            views(r@) == views(parts@).subrange(lo as int, i as int),
        decreases hi - i,
    {
        let c = parts[i].clone();
        assert(c@ =~= parts@[i as int]@);
        let ghost before = r@;
        r.push(c);
        assert(views(r@) =~= views(before).push(parts@[i as int]@));
        assert(views(r@) =~= views(parts@).subrange(lo as int, i + 1));
        i = i + 1;
    }
    r
}

fn join_sep_exec(parents: &Vec<Vec<char>>, leaf: &[char], sep: &str) -> (r: Vec<char>)
    ensures
        r@ == join_sep(views(parents@), leaf@, sep@),
{
    if parents.len() == 0 {
        return crate::text::copy_range(leaf, 0, leaf.len());
    }
    let sc = chars_of(sep);
    let mut r = crate::text::join_exec(parents.as_slice(), sc.as_slice());
    crate::text::append_chars(&mut r, sc.as_slice());
    crate::text::append_chars(&mut r, leaf);
    r
}

/// Infers the `source_module` id of a file for a field migration. The file
/// path is resolved against the workspace root and taken relative to it.
#[verifier::rlimit(60)]
pub fn infer_source_module(
    workspace_root: &str,
    file_path: &str,
    instruction: &str,
    style: ModuleIdStyle,
) -> (r: Option<String>)
    requires
        first_arrow_module(lines(instruction@), 0) is None ==> ({
            let rel = relative_components(
                crate::project::workspace_path_spec(workspace_root@, file_path@),
                workspace_root@,
            );
            !marker_is_file(names(rel), stem_of(rel), style)
        }),
    ensures
        match r {
            Some(m) => source_module_spec(workspace_root@, file_path@, instruction@, style) == Some(
                m@,
            ),
            None => source_module_spec(workspace_root@, file_path@, instruction@, style) is None,
        },
{
    match explicit_module_from_instruction(instruction) {
        Some(m) => {
            return Some(m);
        },
        None => {},
    }
    assert(first_arrow_module(lines(instruction@), 0) is None);
    assert({
        let rel = relative_components(
            crate::project::workspace_path_spec(workspace_root@, file_path@),
            workspace_root@,
        );
        !marker_is_file(names(rel), stem_of(rel), style)
    });
    let abs = crate::project::resolve_workspace_path(workspace_root, file_path);
    let ac = components_exec(chars_of(abs.as_str()).as_slice());
    let rc = components_exec(chars_of(workspace_root).as_slice());
    let under = rc.len() <= ac.len() && crate::paths::path_starts_with_exec(abs.as_str(), workspace_root);
    let rel: Vec<Vec<char>> = if under {
        slice_parts(&ac, rc.len(), ac.len())
    } else {
        slice_parts(&ac, 0, ac.len())
    };
    proof {
        assert(views(ac@).subrange(0, ac@.len() as int) =~= views(ac@));
        assert(views(ac@).subrange(rc@.len() as int, ac@.len() as int) =~= views(ac@).skip(
            rc@.len() as int,
        ));
    }
    let ghost relv = views(rel@);
    assert(relv == relative_components(abs@, workspace_root@));
    // The named components.
    let mut parts: Vec<Vec<char>> = Vec::new();
    let mut i: usize = 0;
    while i < rel.len()
        invariant
            i <= rel@.len(),
            relv == views(rel@),
            views(parts@) == names(relv.take(i as int)),
        decreases rel.len() - i,
    {
        assert(relv.take(i + 1).drop_last() =~= relv.take(i as int));
        assert(relv.take(i + 1).last() == rel@[i as int]@);
        let c = &rel[i];
        let special = (c.len() == 1 && (c[0] == '/' || c[0] == '.')) || (c.len() == 2 && c[0]
            == '.' && c[1] == '.');
        proof {
            if c@.len() == 1 {
                assert(c@ == seq!['/'] <==> c@[0] == '/') by {
                    if c@[0] == '/' {
                        assert(c@ =~= seq!['/']);
                    }
                }
                assert(c@ == seq!['.'] <==> c@[0] == '.') by {
                    if c@[0] == '.' {
                        assert(c@ =~= seq!['.']);
                    }
                }
            }
            if c@.len() == 2 {
                assert(c@ == seq!['.', '.'] <==> (c@[0] == '.' && c@[1] == '.')) by {
                    if c@[0] == '.' && c@[1] == '.' {
                        assert(c@ =~= seq!['.', '.']);
                    }
                }
            }
            assert(special == !is_name(c@));
        }
        if !special {
            let ghost before = views(parts@);
            parts.push(c.clone());
            assert(views(parts@) =~= before.push(c@));
        }
        i = i + 1;
    }
    assert(relv.take(relv.len() as int) =~= relv);
    // The file stem.
    let stem: Option<Vec<char>> = if rel.len() > 0 {
        let last = &rel[rel.len() - 1];
        assert(relv.last() == last@);
        let special = (last.len() == 1 && (last[0] == '/' || last[0] == '.')) || (last.len() == 2
            && last[0] == '.' && last[1] == '.');
        proof {
            if last@.len() == 1 {
                if last@[0] == '/' {
                    assert(last@ =~= seq!['/']);
                }
                if last@[0] == '.' {
                    assert(last@ =~= seq!['.']);
                }
            }
            if last@.len() == 2 && last@[0] == '.' && last@[1] == '.' {
                assert(last@ =~= seq!['.', '.']);
            }
            assert(special == !is_name(last@));
        }
        if special {
            None
        } else {
            match ext_dot_exec(last.as_slice()) {
                Some(k) => {
                    proof {
                        crate::text::lemma_rfind_before(last@, seq!['.'], last@.len() + 1int);
                    }
                    Some(crate::text::copy_range(last.as_slice(), 0, k))
                },
                None => Some(crate::text::copy_range(last.as_slice(), 0, last.len())),
            }
        }
    } else {
        None
    };
    proof {
        if rel@.len() > 0 {
            let last = relv.last();
            if is_name(last) {
                match ext_dot(last) {
                    Some(k) => {
                        crate::text::lemma_rfind_before(last, seq!['.'], last.len() + 1int);
                    },
                    None => {
                        assert(last.subrange(0, last.len() as int) =~= last);
                    },
                }
            }
        }
    }
    let ghost pv = views(parts@);
    let ghost sv: Option<Seq<char>> = crate::transformer::opt_chars_view(&stem);
    assert(sv == stem_of(relv));
    assert(!marker_is_file(pv, sv, style));
    let out = module_from_parts_exec(&parts, &stem, style);
    match out {
        Some(v) => Some(string_of(v.as_slice())),
        None => None,
    }
}

/// The module id of a file from its named path components and stem, in the
/// style's convention (see `module_from_parts`).
#[verifier::rlimit(40)]
fn module_from_parts_exec(parts: &Vec<Vec<char>>, stem: &Option<Vec<char>>, style: ModuleIdStyle) -> (out: Option<Vec<char>>)
    requires
        !marker_is_file(views(parts@), crate::transformer::opt_chars_view(stem), style),
    ensures
        crate::transformer::opt_chars_view(&out) == module_from_parts(
            views(parts@),
            crate::transformer::opt_chars_view(stem),
            style,
        ),
{
    let ghost pv = views(parts@);
    let n_parts = parts.len();
    assert(pv.len() == n_parts);
    match style {
        ModuleIdStyle::RustPath => match &stem {
            None => None,
            Some(s) => match first_index_exec(&parts, "src") {
                Some(idx) => {
                    proof {
                        lemma_first_index(pv, "src"@, 0);
                    }
                    let mut parents = slice_parts(&parts, idx + 1, parts.len() - 1);
                    if parents.len() == 0 && idx > 0 {
                        parents.push(parts[idx - 1].clone());
                        assert(views(parents@) =~= seq![pv[idx - 1]]);
                    }
                    Some(join_sep_exec(&parents, s.as_slice(), "::"))
                },
                None => Some(crate::text::copy_range(s.as_slice(), 0, s.len())),
            },
        },
        ModuleIdStyle::Snake => match &stem {
            None => None,
            Some(s) => match first_index_exec(&parts, "src") {
                Some(idx) => {
                    proof {
                        lemma_first_index(pv, "src"@, 0);
                    }
                    let mut parents = slice_parts(&parts, idx + 1, parts.len() - 1);
                    if parents.len() == 0 && idx > 0 {
                        parents.push(parts[idx - 1].clone());
                        assert(views(parents@) =~= seq![pv[idx - 1]]);
                    }
                    Some(join_sep_exec(&parents, s.as_slice(), "."))
                },
                None => match first_index_exec(&parts, "scripts") {
                    Some(idx) => {
                        proof {
                            lemma_first_index(pv, "scripts"@, 0);
                        }
                        let parents = slice_parts(&parts, idx + 1, parts.len() - 1);
                        Some(join_sep_exec(&parents, s.as_slice(), "."))
                    },
                    None => {
                        let end = if parts.len() == 0 {
                            0
                        } else {
                            parts.len() - 1
                        };
                        let mut k: usize = 0;
                        while k < end && is_skip_dir_exec(&parts[k])
                            invariant
                                k <= end,
                                end == (if pv.len() == 0 {
                                    0
                                } else {
                                    pv.len() - 1
                                }),
                                pv == views(parts@),
                                skip_start(pv, 0) == skip_start(pv, k as int),
                            decreases end - k,
                        {
                            assert(pv[k as int] == parts@[k as int]@);
                            k = k + 1;
                        }
                        proof {
                            if k < end {
                                assert(pv[k as int] == parts@[k as int]@);
                            }
                        }
                        let parents = slice_parts(&parts, k, end);
                        Some(join_sep_exec(&parents, s.as_slice(), "."))
                    },
                },
            },
        },
        ModuleIdStyle::JavaPackage => match first_jvm_index_exec(&parts) {
            None => None,
            Some(idx) => {
                proof {
                    lemma_first_jvm_index(pv, 0);
                }
                let package = slice_parts(&parts, idx + 1, parts.len() - 1);
                match &stem {
                    None => None,
                    Some(s) => Some(join_sep_exec(&package, s.as_slice(), ".")),
                }
            },
        },
        ModuleIdStyle::TsSlash => match first_index_exec(&parts, "src") {
            None => None,
            Some(idx) => {
                proof {
                    lemma_first_index(pv, "src"@, 0);
                }
                let segs0 = slice_parts(&parts, idx + 1, parts.len() - 1);
                let modules = chars_of("modules");
                let segs = if segs0.len() > 0 && crate::paths::chars_eq(
                    segs0[0].as_slice(),
                    modules.as_slice(),
                ) {
                    assert(views(segs0@)[0] == segs0@[0]@);
                    slice_parts(&segs0, 1, segs0.len())
                } else {
                    proof {
                        if segs0@.len() > 0 {
                            assert(views(segs0@)[0] == segs0@[0]@);
                        }
                    }
                    slice_parts(&segs0, 0, segs0.len())
                };
                proof {
                    assert(views(segs0@).subrange(1, segs0@.len() as int) =~= views(
                        segs0@,
                    ).drop_first());
                    assert(views(segs0@).subrange(0, segs0@.len() as int) =~= views(segs0@));
                }
                match &stem {
                    None => None,
                    Some(s) => Some(join_sep_exec(&segs, s.as_slice(), "/")),
                }
            },
        },
    }
}

fn is_skip_dir_exec(p: &Vec<char>) -> (b: bool)
    ensures
        b == skip_dir(p@),
{
    let s = string_of(p.as_slice());
    let x = s.as_str();
    crate::text::str_eq(x, "scripts") || crate::text::str_eq(x, "test") || crate::text::str_eq(
        x,
        "tests",
    ) || crate::text::str_eq(x, "benches") || crate::text::str_eq(x, "examples")
}

} // verus!
