//! The refactor target scan across files: which candidate files count, and how
//! their line ranges are gathered into one target per file, ordered by path.
use vstd::prelude::*;

use crate::text::{chars_of, str_eq};
use crate::transformer::{
    add_distinct, defines_spec, is_production_src_file, is_skipped_refactor_file,
    is_type_definition_file, merge_target_ranges, production_src_spec, ranges_view,
    skipped_refactor_spec, RefactorTarget, TargetLineRange,
};

verus! {

/// What the scan found in one candidate file (a file whose text names the type).
pub struct FileScan {
    /// The file, resolved against the workspace root.
    pub path: String,
    /// The file exists.
    pub exists: bool,
    /// The file's text, when it could be read.
    pub content: Option<String>,
    /// The file's refactor ranges (see `file_refactor_ranges`).
    pub ranges: Vec<TargetLineRange>,
}

/// A scanned file becomes a target: a production source that refactors may
/// touch, present, not the file that defines the type, and with some range.
pub open spec fn scan_kept(s: FileScan, ident: Seq<char>) -> bool {
    &&& production_src_spec(s.path@)
    &&& !skipped_refactor_spec(s.path@)
    &&& s.exists
    &&& !(match s.content {
        Some(c) => defines_spec(c@, ident),
        None => false,
    })
    &&& s.ranges@.len() > 0
}

/// Some kept scan is of `path`.
pub open spec fn kept_path(scans: Seq<FileScan>, ident: Seq<char>, path: Seq<char>) -> bool {
    exists|i: int| 0 <= i < scans.len() && #[trigger] scan_kept(scans[i], ident) && scans[i].path@ == path
}

/// The ranges of `path`: those of each kept scan of it, in scan order, each added once.
pub open spec fn ranges_for(scans: Seq<FileScan>, ident: Seq<char>, path: Seq<char>) -> Seq<(int, int)>
    decreases scans.len(),
{
    if scans.len() == 0 {
        Seq::empty()
    } else {
        let prev = ranges_for(scans.drop_last(), ident, path);
        if scan_kept(scans.last(), ident) && scans.last().path@ == path {
            add_distinct(prev, ranges_view(scans.last().ranges@))
        } else {
            prev
        }
    }
}

/// The order of characters in a path: `/` before every other character, the
/// others by code point.
pub open spec fn path_char_less(x: char, y: char) -> bool {
    if x == '/' {
        y != '/'
    } else if y == '/' {
        false
    } else {
        x < y
    }
}

/// Paths in component order: compared component by component, which for paths
/// without empty or `.` components is the character order with `/` lowest.
pub open spec fn path_less(a: Seq<char>, b: Seq<char>) -> bool
    decreases a.len(),
{
    if a.len() == 0 {
        b.len() > 0
    } else if b.len() == 0 {
        false
    } else if a[0] == b[0] {
        path_less(a.drop_first(), b.drop_first())
    } else {
        path_char_less(a[0], b[0])
    }
}

proof fn lemma_path_less_irreflexive(a: Seq<char>)
    ensures
        !path_less(a, a),
    decreases a.len(),
{
    if a.len() > 0 {
        lemma_path_less_irreflexive(a.drop_first());
    }
}

proof fn lemma_path_less_transitive(a: Seq<char>, b: Seq<char>, c: Seq<char>)
    requires
        path_less(a, b),
        path_less(b, c),
    ensures
        path_less(a, c),
    decreases a.len(),
{
    if a.len() > 0 && b.len() > 0 && c.len() > 0 {
        if a[0] == b[0] && b[0] == c[0] {
            lemma_path_less_transitive(a.drop_first(), b.drop_first(), c.drop_first());
        }
    }
}

proof fn lemma_path_less_total(a: Seq<char>, b: Seq<char>)
    requires
        a != b,
    ensures
        path_less(a, b) || path_less(b, a),
    decreases a.len(),
{
    if a.len() > 0 && b.len() > 0 {
        if a[0] == b[0] {
            if a.drop_first() == b.drop_first() {
                assert(a =~= seq![a[0]] + a.drop_first());
                assert(b =~= seq![b[0]] + b.drop_first());
            }
            lemma_path_less_total(a.drop_first(), b.drop_first());
        }
    } else if a.len() == 0 && b.len() == 0 {
        assert(a =~= b);
    }
}

/// Compares two paths in component order.
pub fn path_less_exec(a: &[char], b: &[char]) -> (r: bool)
    ensures
        r == path_less(a@, b@),
{
    let mut i: usize = 0;
    assert(a@.skip(0) =~= a@);
    assert(b@.skip(0) =~= b@);
    while i < a.len() && i < b.len()
        invariant
            i <= a@.len(),
            i <= b@.len(),
            path_less(a@, b@) == path_less(a@.skip(i as int), b@.skip(i as int)),
        decreases a.len() - i,
    {
        let x: char = a[i];
        let y: char = b[i];
        assert(a@.skip(i as int)[0] == x);
        assert(b@.skip(i as int)[0] == y);
        if x != y {
            if x == '/' {
                return true;
            }
            if y == '/' {
                return false;
            }
            return x < y;
        }
        assert(a@.skip(i as int).drop_first() =~= a@.skip(i + 1));
        assert(b@.skip(i as int).drop_first() =~= b@.skip(i + 1));
        i = i + 1;
    }
    i < b.len()
}

proof fn lemma_absent_path_has_no_ranges(scans: Seq<FileScan>, ident: Seq<char>, path: Seq<char>)
    requires
        !kept_path(scans, ident, path),
    ensures
        ranges_for(scans, ident, path) == Seq::<(int, int)>::empty(),
    decreases scans.len(),
{
    if scans.len() > 0 {
        let d = scans.drop_last();
        assert forall|i: int| 0 <= i < d.len() && #[trigger] scan_kept(d[i], ident) implies d[i].path@
            != path by {
            assert(scans[i] == d[i]);
        }
        lemma_absent_path_has_no_ranges(d, ident, path);
        assert(!(scan_kept(scans[scans.len() - 1], ident) && scans[scans.len() - 1].path@ == path));
    }
}

fn scan_is_kept(s: &FileScan, ident: &str) -> (b: bool)
    ensures
        b == scan_kept(*s, ident@),
{
    if !is_production_src_file(s.path.as_str()) || is_skipped_refactor_file(s.path.as_str()) || !s.exists {
        return false;
    }
    let defines = match &s.content {
        Some(c) => is_type_definition_file(c.as_str(), ident),
        None => false,
    };
    !defines && s.ranges.len() > 0
}

fn find_target(r: &Vec<RefactorTarget>, path: &str) -> (o: Option<usize>)
    ensures
        match o {
            Some(j) => j < r@.len() && r@[j as int].file_path@ == path@,
            None => forall|m: int| 0 <= m < r@.len() ==> (#[trigger] r@[m]).file_path@ != path@,
        },
{
    let mut m: usize = 0;
    while m < r.len()
        invariant
            m <= r@.len(),
            forall|k: int| 0 <= k < m ==> (#[trigger] r@[k]).file_path@ != path@,
        decreases r.len() - m,
    {
        if str_eq(r[m].file_path.as_str(), path) {
            return Some(m);
        }
        m = m + 1;
    }
    None
}

fn insert_position(r: &Vec<RefactorTarget>, q: &[char]) -> (pos: usize)
    ensures
        pos <= r@.len(),
        forall|m: int| 0 <= m < pos ==> !path_less(q@, (#[trigger] r@[m]).file_path@),
        pos < r@.len() ==> path_less(q@, r@[pos as int].file_path@),
{
    let mut m: usize = 0;
    while m < r.len()
        invariant
            m <= r@.len(),
            forall|k: int| 0 <= k < m ==> !path_less(q@, (#[trigger] r@[k]).file_path@),
        decreases r.len() - m,
    {
        let p = chars_of(r[m].file_path.as_str());
        if path_less_exec(q, p.as_slice()) {
            return m;
        }
        m = m + 1;
    }
    m
}

/// The targets paths are in strict component order.
pub open spec fn targets_sorted(r: Seq<RefactorTarget>) -> bool {
    forall|i: int, j: int|
        0 <= i < j < r.len() ==> path_less(#[trigger] r[i].file_path@, #[trigger] r[j].file_path@)
}

/// Each target is a kept file with the ranges gathered for it, and no lines.
pub open spec fn targets_gathered(r: Seq<RefactorTarget>, scans: Seq<FileScan>, ident: Seq<char>) -> bool {
    forall|i: int|
        0 <= i < r.len() ==> {
            &&& kept_path(scans, ident, (#[trigger] r[i]).file_path@)
            &&& r[i].lines@.len() == 0
            &&& ranges_view(r[i].ranges@) == ranges_for(scans, ident, r[i].file_path@)
        }
}

/// Every kept file has a target.
pub open spec fn targets_cover(r: Seq<RefactorTarget>, scans: Seq<FileScan>, ident: Seq<char>) -> bool {
    forall|k: int|
        0 <= k < scans.len() && #[trigger] scan_kept(scans[k], ident) ==> exists|i: int|
            0 <= i < r.len() && (#[trigger] r[i]).file_path@ == scans[k].path@
}

/// One target per kept file, in path order, holding every range found for the
/// file (each once, in the order found); files that are not production
/// sources, are skipped, are gone, define the type or have no range are left out.
pub fn collect_refactor_targets(scans: &Vec<FileScan>, type_ident: &str) -> (r: Vec<RefactorTarget>)
    ensures
        targets_sorted(r@),
        targets_gathered(r@, scans@, type_ident@),
        targets_cover(r@, scans@, type_ident@),
{
    let ghost ident = type_ident@;
    let mut r: Vec<RefactorTarget> = Vec::new();
    let mut k: usize = 0;
    while k < scans.len()
        invariant
            k <= scans@.len(),
            ident == type_ident@,
            targets_sorted(r@),
            targets_gathered(r@, scans@.take(k as int), ident),
            targets_cover(r@, scans@.take(k as int), ident),
        decreases scans.len() - k,
    {
        let ghost s0 = scans@.take(k as int);
        let ghost s1 = scans@.take(k + 1);
        let ghost r0 = r@;
        let s = &scans[k];
        proof {
            assert(s1.drop_last() =~= s0);
            assert(s1.last() == *s);
            assert forall|p: Seq<char>| kept_path(s0, ident, p) implies kept_path(s1, ident, p) by {
                let i = choose|i: int| 0 <= i < s0.len() && #[trigger] scan_kept(s0[i], ident) && s0[i].path@ == p;
                assert(s1[i] == s0[i]);
            }
        }
        if scan_is_kept(s, type_ident) {
            match find_target(&r, s.path.as_str()) {
                Some(j) => {
                    let mut t = r.remove(j);
                    merge_target_ranges(&mut t.ranges, s.ranges.as_slice());
                    r.insert(j, t);
                    proof {
                        assert(r@ =~= r0.update(j as int, t));
                        assert forall|i: int| 0 <= i < r@.len() implies {
                            &&& kept_path(s1, ident, (#[trigger] r@[i]).file_path@)
                            &&& r@[i].lines@.len() == 0
                            &&& ranges_view(r@[i].ranges@) == ranges_for(s1, ident, r@[i].file_path@)
                        } by {
                            assert(r0[i].file_path@ == r@[i].file_path@);
                            assert(kept_path(s0, ident, r0[i].file_path@));
                            if i < j {
                                lemma_path_less_irreflexive(r0[i].file_path@);
                                assert(path_less(r0[i].file_path@, r0[j as int].file_path@));
                            } else if i > j {
                                lemma_path_less_irreflexive(r0[i].file_path@);
                                assert(path_less(r0[j as int].file_path@, r0[i].file_path@));
                            }
                        }
                        assert forall|m: int| 0 <= m < s1.len() && #[trigger] scan_kept(s1[m], ident) implies exists|i: int|
                            0 <= i < r@.len() && (#[trigger] r@[i]).file_path@ == s1[m].path@ by {
                            if m < k {
                                assert(s0[m] == s1[m]);
                                let i = choose|i: int| 0 <= i < r0.len() && (#[trigger] r0[i]).file_path@ == s0[m].path@;
                                assert(r@[i].file_path@ == r0[i].file_path@);
                            } else {
                                assert(r@[j as int].file_path@ == s1[m].path@);
                            }
                        }
                        assert forall|i: int, jj: int| 0 <= i < jj < r@.len() implies path_less(
                            #[trigger] r@[i].file_path@,
                            #[trigger] r@[jj].file_path@,
                        ) by {
                            assert(r@[i].file_path@ == r0[i].file_path@);
                            assert(r@[jj].file_path@ == r0[jj].file_path@);
                        }
                    }
                },
                None => {
                    let q = chars_of(s.path.as_str());
                    let pos = insert_position(&r, q.as_slice());
                    let mut rs: Vec<TargetLineRange> = Vec::new();
                    assert(ranges_view(rs@) =~= Seq::<(int, int)>::empty());
                    merge_target_ranges(&mut rs, s.ranges.as_slice());
                    let t = RefactorTarget { file_path: s.path.as_str().to_owned(), lines: Vec::new(), ranges: rs };
                    r.insert(pos, t);
                    proof {
                        let p = s.path@;
                        assert(!kept_path(s0, ident, p)) by {
                            if kept_path(s0, ident, p) {
                                let m = choose|m: int| 0 <= m < s0.len() && #[trigger] scan_kept(s0[m], ident) && s0[m].path@ == p;
                                let i = choose|i: int| 0 <= i < r0.len() && (#[trigger] r0[i]).file_path@ == s0[m].path@;
                                assert(r0[i].file_path@ != p);
                            }
                        }
                        lemma_absent_path_has_no_ranges(s0, ident, p);
                        assert(r@ =~= r0.insert(pos as int, t));
                        assert(kept_path(s1, ident, p)) by {
                            assert(scan_kept(s1[k as int], ident));
                        }
                        assert forall|i: int| 0 <= i < pos implies path_less(
                            (#[trigger] r0[i]).file_path@,
                            p,
                        ) by {
                            assert(!path_less(p, r0[i].file_path@));
                            assert(r0[i].file_path@ != p);
                            lemma_path_less_total(r0[i].file_path@, p);
                        }
                        assert forall|i: int| pos <= i < r0.len() implies path_less(
                            p,
                            (#[trigger] r0[i]).file_path@,
                        ) by {
                            if i > pos {
                                lemma_path_less_transitive(p, r0[pos as int].file_path@, r0[i].file_path@);
                            }
                        }
                        assert forall|i: int, jj: int| 0 <= i < jj < r@.len() implies path_less(
                            #[trigger] r@[i].file_path@,
                            #[trigger] r@[jj].file_path@,
                        ) by {
                            if jj < pos {
                                assert(r@[i] == r0[i] && r@[jj] == r0[jj]);
                            } else if jj == pos {
                                assert(r@[i] == r0[i]);
                            } else if i < pos {
                                assert(r@[i] == r0[i] && r@[jj] == r0[jj - 1]);
                                lemma_path_less_transitive(r0[i].file_path@, p, r0[jj - 1].file_path@);
                            } else if i == pos {
                                assert(r@[jj] == r0[jj - 1]);
                            } else {
                                assert(r@[i] == r0[i - 1] && r@[jj] == r0[jj - 1]);
                            }
                        }
                        assert forall|i: int| 0 <= i < r@.len() implies {
                            &&& kept_path(s1, ident, (#[trigger] r@[i]).file_path@)
                            &&& r@[i].lines@.len() == 0
                            &&& ranges_view(r@[i].ranges@) == ranges_for(s1, ident, r@[i].file_path@)
                        } by {
                            if i < pos {
                                assert(r@[i] == r0[i]);
                                assert(kept_path(s0, ident, r0[i].file_path@));
                                assert(r0[i].file_path@ != p);
                            } else if i > pos {
                                assert(r@[i] == r0[i - 1]);
                                assert(kept_path(s0, ident, r0[i - 1].file_path@));
                                assert(r0[i - 1].file_path@ != p);
                            } else {
                                assert(r@[i] == t);
                                assert(ranges_for(s1, ident, p) == add_distinct(
                                    ranges_for(s0, ident, p),
                                    ranges_view(s.ranges@),
                                ));
                            }
                        }
                        assert forall|m: int| 0 <= m < s1.len() && #[trigger] scan_kept(s1[m], ident) implies exists|i: int|
                            0 <= i < r@.len() && (#[trigger] r@[i]).file_path@ == s1[m].path@ by {
                            if m < k {
                                assert(s0[m] == s1[m]);
                                let i = choose|i: int| 0 <= i < r0.len() && (#[trigger] r0[i]).file_path@ == s0[m].path@;
                                if i < pos {
                                    assert(r@[i] == r0[i]);
                                } else {
                                    assert(r@[i + 1] == r0[i]);
                                }
                            } else {
                                assert(r@[pos as int] == t);
                            }
                        }
                    }
                },
            }
        } else {
            proof {
                assert forall|i: int| 0 <= i < r@.len() implies {
                    &&& kept_path(s1, ident, (#[trigger] r@[i]).file_path@)
                    &&& r@[i].lines@.len() == 0
                    &&& ranges_view(r@[i].ranges@) == ranges_for(s1, ident, r@[i].file_path@)
                } by {
                    assert(kept_path(s0, ident, r@[i].file_path@));
                }
                assert forall|m: int| 0 <= m < s1.len() && #[trigger] scan_kept(s1[m], ident) implies exists|i: int|
                    0 <= i < r@.len() && (#[trigger] r@[i]).file_path@ == s1[m].path@ by {
                    assert(m < k);
                    assert(s0[m] == s1[m]);
                }
            }
        }
        k = k + 1;
    }
    assert(scans@.take(scans@.len() as int) =~= scans@);
    r
}

} // verus!
