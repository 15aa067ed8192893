//! `/`-separated path strings, and what `std::path::Path` reports of them.
use vstd::prelude::*;

use crate::text::{
    copy_range, lemma_rfind_before, rfind, rfind_before, rfind_exec, split_char, split_char_exec, views,
};

verus! {

/// The pieces of a path between `/` separators.
pub open spec fn pieces(p: Seq<char>) -> Seq<Seq<char>> {
    split_char(p, '/')
}

/// A piece that `Path::components` reports as `Component::Normal`.
pub open spec fn is_normal_piece(x: Seq<char>) -> bool {
    x.len() > 0 && x != seq!['.'] && x != seq!['.', '.']
}

/// The `Component::Normal` pieces, in order.
pub open spec fn keep_normal(xs: Seq<Seq<char>>) -> Seq<Seq<char>>
    decreases xs.len(),
{
    if xs.len() == 0 {
        seq![]
    } else if is_normal_piece(xs.last()) {
        keep_normal(xs.drop_last()).push(xs.last())
    } else {
        keep_normal(xs.drop_last())
    }
}

/// Normal components of a path (root, `.` and `..` dropped).
pub open spec fn normal_components(p: Seq<char>) -> Seq<Seq<char>> {
    keep_normal(pieces(p))
}

/// `Path::is_absolute` on Unix.
pub open spec fn is_absolute(p: Seq<char>) -> bool {
    p.len() > 0 && p[0] == '/'
}

/// The path mentions a `..` component.
pub open spec fn has_parent_dir(p: Seq<char>) -> bool {
    exists|i: int| 0 <= i < pieces(p).len() && #[trigger] pieces(p)[i] == seq!['.', '.']
}

/// Last named piece, or `None` when the path ends in `..` or has none.
pub open spec fn last_named(xs: Seq<Seq<char>>) -> Option<Seq<char>>
    decreases xs.len(),
{
    if xs.len() == 0 {
        None
    } else if xs.last().len() == 0 || xs.last() == seq!['.'] {
        last_named(xs.drop_last())
    } else if xs.last() == seq!['.', '.'] {
        None
    } else {
        Some(xs.last())
    }
}

/// `Path::file_name`.
pub open spec fn file_name(p: Seq<char>) -> Option<Seq<char>> {
    last_named(pieces(p))
}

/// Where a file name splits into stem and extension (`None`: no extension).
pub open spec fn ext_dot(name: Seq<char>) -> Option<int> {
    match rfind(name, seq!['.']) {
        Some(i) => if i == 0 {
            None
        } else {
            Some(i)
        },
        None => None,
    }
}

/// `Path::file_stem`.
pub open spec fn file_stem(p: Seq<char>) -> Option<Seq<char>> {
    match file_name(p) {
        Some(name) => match ext_dot(name) {
            Some(i) => Some(name.subrange(0, i)),
            None => Some(name),
        },
        None => None,
    }
}

/// `Path::extension`.
pub open spec fn extension(p: Seq<char>) -> Option<Seq<char>> {
    match file_name(p) {
        Some(name) => match ext_dot(name) {
            Some(i) => Some(name.subrange(i + 1, name.len() as int)),
            None => None,
        },
        None => None,
    }
}

/// The normal components of `p`.
pub fn normal_components_exec(p: &[char]) -> (r: Vec<Vec<char>>)
    ensures
        views(r@) == normal_components(p@),
{
    let ps = split_char_exec(p, '/');
    let mut r: Vec<Vec<char>> = Vec::new();
    let mut i: usize = 0;
    while i < ps.len()
        invariant
            i <= ps@.len(),
            views(ps@) == pieces(p@),
            views(r@) == keep_normal(views(ps@).take(i as int)),
        decreases ps.len() - i,
    {
        assert(views(ps@).take(i + 1).drop_last() =~= views(ps@).take(i as int));
        let x = &ps[i];
        let dot = x.len() == 1 && x[0] == '.';
        let dotdot = x.len() == 2 && x[0] == '.' && x[1] == '.';
        proof {
            let xv = views(ps@)[i as int];
            assert(xv == x@);
            if x@.len() == 1 {
                assert(dot == (x@ == seq!['.'])) by {
                    if x@ == seq!['.'] {
                        assert(x@[0] == '.');
                    }
                    if dot {
                        assert(x@ =~= seq!['.']);
                    }
                }
            }
            if x@.len() == 2 {
                assert(dotdot == (x@ == seq!['.', '.'])) by {
                    if x@ == seq!['.', '.'] {
                        assert(x@[0] == '.' && x@[1] == '.');
                    }
                    if dotdot {
                        assert(x@ =~= seq!['.', '.']);
                    }
                }
            }
        }
        if x.len() > 0 && !dot && !dotdot {
            let ghost before = r@;
            r.push(ps[i].clone());
            assert(views(r@) =~= views(before).push(x@));
        }
        i = i + 1;
    }
    assert(views(ps@).take(ps@.len() as int) =~= views(ps@));
    r
}

/// `Path::file_name`.
pub fn file_name_exec(p: &[char]) -> (r: Option<Vec<char>>)
    ensures
        match r {
            Some(n) => file_name(p@) == Some(n@),
            None => file_name(p@) is None,
        },
{
    let ps = split_char_exec(p, '/');
    let mut i: usize = ps.len();
    assert(views(ps@).take(i as int) =~= views(ps@));
    while i > 0
        invariant
            i <= ps@.len(),
            views(ps@) == pieces(p@),
            file_name(p@) == last_named(views(ps@).take(i as int)),
        decreases i,
    {
        let x = &ps[i - 1];
        let ghost xs = views(ps@).take(i as int);
        assert(xs.last() == x@);
        assert(xs.drop_last() =~= views(ps@).take(i - 1));
        let dot = x.len() == 1 && x[0] == '.';
        let dotdot = x.len() == 2 && x[0] == '.' && x[1] == '.';
        if x.len() == 0 || dot {
            if dot {
                assert(x@ =~= seq!['.']);
            }
            i = i - 1;
        } else if dotdot {
            assert(x@ =~= seq!['.', '.']);
            return None;
        } else {
            proof {
                if x@ == seq!['.'] {
                    assert(x@[0] == '.');
                }
                if x@ == seq!['.', '.'] {
                    assert(x@[0] == '.' && x@[1] == '.');
                }
            }
            return Some(x.clone());
        }
    }
    None
}

/// Splits a file name at its extension dot.
pub fn ext_dot_exec(name: &[char]) -> (r: Option<usize>)
    ensures
        match r {
            Some(i) => ext_dot(name@) == Some(i as int),
            None => ext_dot(name@) is None,
        },
{
    let dot: [char; 1] = ['.'];
    let d = dot.as_slice();
    assert(d@ =~= seq!['.']);
    match rfind_exec(name, d) {
        Some(i) => if i == 0 {
            None
        } else {
            Some(i)
        },
        None => None,
    }
}

/// `Path::file_stem`.
pub fn file_stem_exec(p: &[char]) -> (r: Option<Vec<char>>)
    ensures
        match r {
            Some(n) => file_stem(p@) == Some(n@),
            None => file_stem(p@) is None,
        },
{
    match file_name_exec(p) {
        Some(name) => match ext_dot_exec(name.as_slice()) {
            Some(i) => {
                proof {
                    lemma_rfind_before(name@, seq!['.'], name@.len() + 1int);
                }
                Some(copy_range(name.as_slice(), 0, i))
            },
            None => Some(name),
        },
        None => None,
    }
}

/// `Path::extension`.
pub fn extension_exec(p: &[char]) -> (r: Option<Vec<char>>)
    ensures
        match r {
            Some(n) => extension(p@) == Some(n@),
            None => extension(p@) is None,
        },
{
    match file_name_exec(p) {
        Some(name) => match ext_dot_exec(name.as_slice()) {
            Some(i) => {
                proof {
                    lemma_rfind_before(name@, seq!['.'], name@.len() + 1int);
                }
                let n = name.len();
                assert(i < n);
                Some(copy_range(name.as_slice(), i + 1, n))
            },
            None => None,
        },
        None => None,
    }
}

/// The pieces that `Path::components` keeps after the first one: empty
/// pieces and `.` are dropped, `..` and names are kept.
pub open spec fn keep_named(xs: Seq<Seq<char>>) -> Seq<Seq<char>>
    decreases xs.len(),
{
    if xs.len() == 0 {
        seq![]
    } else if xs.last().len() > 0 && xs.last() != seq!['.'] {
        keep_named(xs.drop_last()).push(xs.last())
    } else {
        keep_named(xs.drop_last())
    }
}

/// `Path::components` on Unix, each component by its text: `/` for the
/// root, `.` for a leading current directory, `..` for a parent, else the
/// name.
pub open spec fn components(p: Seq<char>) -> Seq<Seq<char>> {
    let ps = pieces(p);
    let head: Seq<Seq<char>> = if is_absolute(p) {
        seq![seq!['/']]
    } else if ps[0] == seq!['.'] {
        seq![seq!['.']]
    } else {
        seq![]
    };
    head + keep_named(ps)
}

/// Are the two character vectors equal?
pub fn chars_eq(a: &[char], b: &[char]) -> (r: bool)
    ensures
        r == (a@ == b@),
{
    if a.len() != b.len() {
        return false;
    }
    let r = crate::text::matches_at_exec(a, b, 0);
    assert(a@.subrange(0, b@.len() as int) =~= a@);
    r
}

/// The components of a path.
pub fn components_exec(p: &[char]) -> (r: Vec<Vec<char>>)
    ensures
        views(r@) == components(p@),
{
    let ps = split_char_exec(p, '/');
    assert(views(ps@).len() > 0);
    let mut r: Vec<Vec<char>> = Vec::new();
    let dot: Vec<char> = vec!['.'];
    assert(dot@ =~= seq!['.']);
    if p.len() > 0 && p[0] == '/' {
        let mut root: Vec<char> = Vec::new();
        root.push('/');
        r.push(root);
        assert(views(r@) =~= seq![seq!['/']]);
    } else if chars_eq(ps[0].as_slice(), dot.as_slice()) {
        r.push(dot.clone());
        assert(views(r@) =~= seq![seq!['.']]);
    } else {
        assert(views(r@) =~= seq![]);
    }
    let ghost head = views(r@);
    let mut i: usize = 0;
    while i < ps.len()
        invariant
            i <= ps@.len(),
            views(ps@) == pieces(p@),
            dot@ == seq!['.'],
            views(r@) == head + keep_named(views(ps@).take(i as int)),
        decreases ps.len() - i,
    {
        assert(views(ps@).take(i + 1).drop_last() =~= views(ps@).take(i as int));
        assert(views(ps@).take(i + 1).last() == ps@[i as int]@);
        let x = &ps[i];
        if x.len() > 0 && !chars_eq(x.as_slice(), dot.as_slice()) {
            let ghost before = views(r@);
            r.push(x.clone());
            assert(views(r@) =~= before.push(x@));
        }
        i = i + 1;
    }
    assert(views(ps@).take(ps@.len() as int) =~= views(ps@));
    r
}

/// `a` is a prefix of `b`.
pub open spec fn seq_prefix(a: Seq<Seq<char>>, b: Seq<Seq<char>>) -> bool {
    a.len() <= b.len() && b.take(a.len() as int) == a
}

/// `a` is a suffix of `b`.
pub open spec fn seq_suffix(a: Seq<Seq<char>>, b: Seq<Seq<char>>) -> bool {
    a.len() <= b.len() && b.skip(b.len() - a.len()) == a
}

/// `Path::starts_with`: the base's components begin the path's.
pub open spec fn path_starts_with(p: Seq<char>, base: Seq<char>) -> bool {
    seq_prefix(components(base), components(p))
}

/// `Path::ends_with`: the child's components end the path's.
pub open spec fn path_ends_with(p: Seq<char>, child: Seq<char>) -> bool {
    seq_suffix(components(child), components(p))
}

/// `Path == Path`: equal components.
pub open spec fn path_eq(a: Seq<char>, b: Seq<char>) -> bool {
    components(a) == components(b)
}

/// Compares two component lists element by element from `off_a`/`off_b`.
fn runs_equal(a: &Vec<Vec<char>>, off_a: usize, b: &Vec<Vec<char>>, off_b: usize, n: usize) -> (r:
    bool)
    requires
        off_a + n <= a@.len(),
        off_b + n <= b@.len(),
    ensures
        r == (views(a@).subrange(off_a as int, off_a + n) == views(b@).subrange(
            off_b as int,
            off_b + n,
        )),
{
    let la = a.len();
    let lb = b.len();
    let mut k: usize = 0;
    assert(views(a@).subrange(off_a as int, off_a as int) =~= views(b@).subrange(
        off_b as int,
        off_b as int,
    ));
    while k < n
        invariant
            k <= n,
            off_a + n <= a@.len(),
            off_b + n <= b@.len(),
            la == a@.len(),
            lb == b@.len(),
            views(a@).subrange(off_a as int, off_a + k) == views(b@).subrange(
                off_b as int,
                off_b + k,
            ),
        decreases n - k,
    {
        if !chars_eq(a[off_a + k].as_slice(), b[off_b + k].as_slice()) {
            assert(views(a@).subrange(off_a as int, off_a + n)[k as int] != views(b@).subrange(
                off_b as int,
                off_b + n,
            )[k as int]);
            return false;
        }
        assert(views(a@).subrange(off_a as int, off_a + k + 1) =~= views(a@).subrange(
            off_a as int,
            off_a + k,
        ).push(a@[off_a + k]@));
        assert(views(b@).subrange(off_b as int, off_b + k + 1) =~= views(b@).subrange(
            off_b as int,
            off_b + k,
        ).push(b@[off_b + k]@));
        k = k + 1;
    }
    true
}

/// `Path::starts_with`.
pub fn path_starts_with_exec(p: &str, base: &str) -> (r: bool)
    ensures
        r == path_starts_with(p@, base@),
{
    let pc = components_exec(crate::text::chars_of(p).as_slice());
    let bc = components_exec(crate::text::chars_of(base).as_slice());
    if bc.len() > pc.len() {
        return false;
    }
    let r = runs_equal(&pc, 0, &bc, 0, bc.len());
    assert(views(pc@).subrange(0, bc@.len() as int) =~= views(pc@).take(bc@.len() as int));
    assert(views(bc@).subrange(0, bc@.len() as int) =~= views(bc@));
    r
}

/// `Path::ends_with`.
pub fn path_ends_with_exec(p: &str, child: &str) -> (r: bool)
    ensures
        r == path_ends_with(p@, child@),
{
    let pc = components_exec(crate::text::chars_of(p).as_slice());
    let cc = components_exec(crate::text::chars_of(child).as_slice());
    if cc.len() > pc.len() {
        return false;
    }
    let off = pc.len() - cc.len();
    let r = runs_equal(&pc, off, &cc, 0, cc.len());
    assert(views(pc@).subrange(off as int, off + cc@.len()) =~= views(pc@).skip(off as int));
    assert(views(cc@).subrange(0, cc@.len() as int) =~= views(cc@));
    r
}

/// `Path == Path`.
pub fn path_eq_exec(a: &str, b: &str) -> (r: bool)
    ensures
        r == path_eq(a@, b@),
{
    let ac = components_exec(crate::text::chars_of(a).as_slice());
    let bc = components_exec(crate::text::chars_of(b).as_slice());
    if ac.len() != bc.len() {
        return false;
    }
    let r = runs_equal(&ac, 0, &bc, 0, bc.len());
    assert(views(ac@).subrange(0, bc@.len() as int) =~= views(ac@));
    assert(views(bc@).subrange(0, bc@.len() as int) =~= views(bc@));
    r
}

} // verus!
