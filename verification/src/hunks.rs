//! SEARCH/REPLACE hunks in `patch_file` contents: parsing, gating and applying.
use vstd::prelude::*;

use crate::text::{
    append_chars, chars_of, contains, copy_range, debug_quote, debug_str, find_from,
    find_from_exec, lemma_find_from, lines, lines_exec, matches_at, replace, replace_exec,
    str_trim, string_of, trim, trim_exec, trim_start, trim_start_exec, views,
};

verus! {

/// Marker that opens a hunk.
pub const HUNK_SEARCH_START: &'static str = "<<<<<<< SEARCH";

/// Marker between the SEARCH and REPLACE bodies.
pub const HUNK_SEPARATOR: &'static str = "=======";

/// Marker that closes a hunk.
pub const HUNK_REPLACE_END: &'static str = ">>>>>>> REPLACE";

/// REPLACE may add at most this many non-empty lines over SEARCH.
pub const SURGICAL_MAX_NEW_LINES: usize = 15;

/// A single SEARCH/REPLACE hunk; each body is its lines, each followed by `\n`.
#[derive(Debug)]
pub struct Hunk {
    pub search: String,
    pub replace: String,
}

/// First index `>= from` whose line equals `x`.
pub open spec fn first_eq(ls: Seq<Seq<char>>, x: Seq<char>, from: int) -> Option<int>
    decreases ls.len() - from,
{
    if from < 0 || from >= ls.len() {
        None
    } else if ls[from] == x {
        Some(from)
    } else {
        first_eq(ls, x, from + 1)
    }
}

pub proof fn lemma_first_eq(ls: Seq<Seq<char>>, x: Seq<char>, from: int)
    requires
        0 <= from,
    ensures
        first_eq(ls, x, from) matches Some(j) ==> from <= j < ls.len() && ls[j] == x,
    decreases ls.len() - from,
{
    if from < ls.len() && ls[from] != x {
        lemma_first_eq(ls, x, from + 1);
    }
}

/// Lines joined back, each followed by `\n`.
pub open spec fn with_newlines(ls: Seq<Seq<char>>) -> Seq<char>
    decreases ls.len(),
{
    if ls.len() == 0 {
        seq![]
    } else {
        with_newlines(ls.drop_last()) + ls.last() + "\n"@
    }
}

pub open spec fn stray_error(line: Seq<char>) -> Seq<char> {
    "stray marker outside a SEARCH/REPLACE block: "@ + line
}

pub open spec fn outside_error(line: Seq<char>) -> Seq<char> {
    "patch_file content outside a SEARCH/REPLACE hunk: "@ + debug_str(line)
        + " — wrap all edits in <<<<<<< SEARCH / ======= / >>>>>>> REPLACE hunks"@
}

pub open spec fn missing_separator_error() -> Seq<char> {
    "SEARCH block missing '=======' separator"@
}

pub open spec fn missing_end_error() -> Seq<char> {
    "REPLACE block missing '>>>>>>> REPLACE' terminator"@
}

pub open spec fn no_hunks_error() -> Seq<char> {
    "patch_file content has no SEARCH/REPLACE hunks — wrap edits in <<<<<<< SEARCH / ======= / >>>>>>> REPLACE"@
}

/// A line that opens a hunk.
pub open spec fn is_start_line(line: Seq<char>) -> bool {
    trim_start(line) == HUNK_SEARCH_START@ || line == HUNK_SEARCH_START@
}

/// Hunks (as `(search, replace)`) read from line `i` on.
pub open spec fn hunks_from(ls: Seq<Seq<char>>, i: int) -> Result<Seq<(Seq<char>, Seq<char>)>, Seq<char>>
    decreases ls.len() - i,
{
    if i < 0 || i >= ls.len() {
        Ok(seq![])
    } else {
        let line = ls[i];
        if is_start_line(line) {
            match first_eq(ls, HUNK_SEPARATOR@, i + 1) {
                None => Err(missing_separator_error()),
                Some(j) => match first_eq(ls, HUNK_REPLACE_END@, j + 1) {
                    None => Err(missing_end_error()),
                    Some(k) => {
                        proof {
                            lemma_first_eq(ls, HUNK_SEPARATOR@, i + 1);
                            lemma_first_eq(ls, HUNK_REPLACE_END@, j + 1);
                        }
                        match hunks_from(ls, k + 1) {
                            Ok(rest) => Ok(
                                seq![
                                    (
                                        with_newlines(ls.subrange(i + 1, j)),
                                        with_newlines(ls.subrange(j + 1, k)),
                                    ),
                                ] + rest,
                            ),
                            Err(e) => Err(e),
                        }
                    },
                },
            }
        } else if trim(line).len() == 0 {
            hunks_from(ls, i + 1)
        } else if line == HUNK_SEPARATOR@ || line == HUNK_REPLACE_END@ {
            Err(stray_error(line))
        } else {
            Err(outside_error(line))
        }
    }
}

/// What `parse_hunks` returns for a patch.
pub open spec fn parse_hunks_spec(patch: Seq<char>) -> Result<Seq<(Seq<char>, Seq<char>)>, Seq<char>> {
    match hunks_from(lines(patch), 0) {
        Ok(h) => if h.len() == 0 {
            Err(no_hunks_error())
        } else {
            Ok(h)
        },
        Err(e) => Err(e),
    }
}

/// The `(search, replace)` views of hunks.
pub open spec fn hunk_views(hs: Seq<Hunk>) -> Seq<(Seq<char>, Seq<char>)> {
    hs.map_values(|h: Hunk| (h.search@, h.replace@))
}

fn line_is(line: &Vec<char>, lit: &str) -> (b: bool)
    ensures
        b == (line@ == lit@),
{
    let s = string_of(line.as_slice());
    crate::text::str_eq(s.as_str(), lit)
}

/// Appends `line` and a newline.
fn push_line(out: &mut String, line: &Vec<char>)
    ensures
        final(out)@ == old(out)@ + line@ + "\n"@,
{
    let s = string_of(line.as_slice());
    out.append(s.as_str());
    out.append("\n");
}

/// Collects lines from `from` up to the first line equal to `marker`.
fn collect_until(ls: &Vec<Vec<char>>, from: usize, marker: &str) -> (r: Option<(String, usize)>)
    requires
        from <= ls@.len(),
    ensures
        match r {
            Some((body, j)) => first_eq(views(ls@), marker@, from as int) == Some(j as int)
                && body@ == with_newlines(views(ls@).subrange(from as int, j as int)),
            None => first_eq(views(ls@), marker@, from as int) is None,
        },
{
    let mut body = String::new();
    let mut j = from;
    assert(views(ls@).subrange(from as int, from as int) =~= Seq::<Seq<char>>::empty());
    while j < ls.len()
        invariant
            from <= j <= ls@.len(),
            first_eq(views(ls@), marker@, from as int) == first_eq(views(ls@), marker@, j as int),
            body@ == with_newlines(views(ls@).subrange(from as int, j as int)),
        decreases ls.len() - j,
    {
        assert(views(ls@)[j as int] == ls@[j as int]@);
        if line_is(&ls[j], marker) {
            return Some((body, j));
        }
        push_line(&mut body, &ls[j]);
        assert(views(ls@).subrange(from as int, j + 1).drop_last() =~= views(ls@).subrange(
            from as int,
            j as int,
        ));
        j = j + 1;
    }
    None
}

/// Splits `patch_file` contents into SEARCH/REPLACE hunks. Markers must stand on
/// their own lines; blank lines between hunks are ignored; anything else outside a
/// hunk is an error, as is a patch with no hunk.
pub fn parse_hunks(patch: &str) -> (r: Result<Vec<Hunk>, String>)
    ensures
        match (r, parse_hunks_spec(patch@)) {
            (Ok(h), Ok(s)) => hunk_views(h@) == s,
            (Err(e), Err(s)) => e@ == s,
            _ => false,
        },
{
    let pv = chars_of(patch);
    let ls = lines_exec(pv.as_slice());
    let ghost lv = views(ls@);
    let mut hunks: Vec<Hunk> = Vec::new();
    let mut i: usize = 0;
    while i < ls.len()
        invariant
            i <= ls@.len(),
            lv == views(ls@),
            lv == lines(patch@),
            match hunks_from(lv, i as int) {
                Ok(rest) => hunks_from(lv, 0) == Ok::<Seq<(Seq<char>, Seq<char>)>, Seq<char>>(
                    hunk_views(hunks@) + rest,
                ),
                Err(e) => hunks_from(lv, 0) == Err::<Seq<(Seq<char>, Seq<char>)>, Seq<char>>(e),
            },
        decreases ls.len() - i,
    {
        let line = &ls[i];
        assert(lv[i as int] == line@);
        let ts = trim_start_exec(line.as_slice());
        let is_start = line_is(&ts, HUNK_SEARCH_START) || line_is(line, HUNK_SEARCH_START);
        if is_start {
            let (search, j) = match collect_until(&ls, i + 1, HUNK_SEPARATOR) {
                Some(x) => x,
                None => {
                    return Err("SEARCH block missing '=======' separator".to_owned());
                },
            };
            proof {
                lemma_first_eq(lv, HUNK_SEPARATOR@, i + 1);
            }
            let (replace, k) = match collect_until(&ls, j + 1, HUNK_REPLACE_END) {
                Some(x) => x,
                None => {
                    return Err("REPLACE block missing '>>>>>>> REPLACE' terminator".to_owned());
                },
            };
            proof {
                lemma_first_eq(lv, HUNK_REPLACE_END@, j + 1);
            }
            let ghost before = hunks@;
            hunks.push(Hunk { search, replace });
            proof {
                assert(hunk_views(hunks@) =~= hunk_views(before).push(
                    (
                        with_newlines(lv.subrange(i + 1, j as int)),
                        with_newlines(lv.subrange(j + 1, k as int)),
                    ),
                ));
                match hunks_from(lv, k + 1) {
                    Ok(rest) => {
                        assert(hunk_views(hunks@) + rest =~= hunk_views(before) + (seq![
                            (
                                with_newlines(lv.subrange(i + 1, j as int)),
                                with_newlines(lv.subrange(j + 1, k as int)),
                            ),
                        ] + rest));
                    },
                    Err(_) => {},
                }
            }
            i = k + 1;
        } else {
            let t = trim_exec(line.as_slice());
            if t.len() == 0 {
                i = i + 1;
            } else if line_is(line, HUNK_SEPARATOR) || line_is(line, HUNK_REPLACE_END) {
                let mut e = "stray marker outside a SEARCH/REPLACE block: ".to_owned();
                let s = string_of(line.as_slice());
                e.append(s.as_str());
                return Err(e);
            } else {
                let mut e = "patch_file content outside a SEARCH/REPLACE hunk: ".to_owned();
                let s = string_of(line.as_slice());
                let q = debug_quote(s.as_str());
                e.append(q.as_str());
                e.append(" — wrap all edits in <<<<<<< SEARCH / ======= / >>>>>>> REPLACE hunks");
                return Err(e);
            }
        }
    }
    assert(hunks_from(lv, i as int) == Ok::<Seq<(Seq<char>, Seq<char>)>, Seq<char>>(seq![]));
    assert(hunk_views(hunks@) + Seq::<(Seq<char>, Seq<char>)>::empty() =~= hunk_views(hunks@));
    if hunks.len() == 0 {
        return Err(
            "patch_file content has no SEARCH/REPLACE hunks — wrap edits in <<<<<<< SEARCH / ======= / >>>>>>> REPLACE".to_owned(),
        );
    }
    Ok(hunks)
}

/// Non-overlapping occurrences of `needle` in `hay[pos..]`, found left to right.
pub open spec fn count_from(hay: Seq<char>, needle: Seq<char>, pos: int) -> nat
    decreases hay.len() - pos,
{
    if pos < 0 || pos > hay.len() || needle.len() == 0 {
        0
    } else {
        match find_from(hay, needle, pos) {
            None => 0,
            Some(m) => {
                proof {
                    lemma_find_from(hay, needle, pos);
                }
                1 + count_from(hay, needle, m + needle.len())
            },
        }
    }
}

/// Counts non-overlapping occurrences of a non-empty `needle`.
pub fn count_nonoverlapping(haystack: &[char], needle: &[char]) -> (n: usize)
    requires
        needle@.len() > 0,
    ensures
        n == count_from(haystack@, needle@, 0),
{
    let mut count: usize = 0;
    let mut start: usize = 0;
    loop
        invariant
            start <= haystack@.len(),
            needle@.len() > 0,
            count + count_from(haystack@, needle@, start as int) == count_from(
                haystack@,
                needle@,
                0,
            ),
            count <= start,
        decreases haystack@.len() + 1 - start,
    {
        match find_from_exec(haystack, needle, start) {
            None => {
                return count;
            },
            Some(m) => {
                proof {
                    lemma_find_from(haystack@, needle@, start as int);
                }
                let n = haystack.len();
                assert(m + needle@.len() <= n);
                count = count + 1;
                start = m + needle.len();
            },
        }
    }
}

/// `str::replacen(from, to, 1)`: replaces the first occurrence only.
pub open spec fn replace_first(h: Seq<char>, from: Seq<char>, to: Seq<char>) -> Seq<char> {
    match find_from(h, from, 0) {
        None => h,
        Some(m) => h.take(m) + to + h.skip(m + from.len()),
    }
}

pub fn replace_first_exec(h: &[char], from: &[char], to: &[char]) -> (r: Vec<char>)
    ensures
        r@ == replace_first(h@, from@, to@),
{
    match find_from_exec(h, from, 0) {
        None => copy_range(h, 0, h.len()),
        Some(m) => {
            proof {
                lemma_find_from(h@, from@, 0);
            }
            let n = h.len();
            assert(m + from@.len() <= n);
            let mut r = copy_range(h, 0, m);
            append_chars(&mut r, to);
            let tail = copy_range(h, m + from.len(), n);
            append_chars(&mut r, tail.as_slice());
            assert(r@ =~= h@.take(m as int) + to@ + h@.skip(m + from@.len()));
            r
        },
    }
}

/// CRLF line endings turned into LF.
pub open spec fn lf(s: Seq<char>) -> Seq<char> {
    replace(s, "\r\n"@, "\n"@)
}

pub fn lf_exec(s: &[char]) -> (r: Vec<char>)
    ensures
        r@ == lf(s@),
{
    let a = chars_of("\r\n");
    let b = chars_of("\n");
    proof {
        reveal_strlit("\r\n");
    }
    replace_exec(s, a.as_slice(), b.as_slice())
}

/// One hunk applied to `out` (hunk number `i`).
pub open spec fn apply_step(out: Seq<char>, h: (Seq<char>, Seq<char>), i: nat) -> Result<
    Seq<char>,
    Seq<char>,
> {
    let search = lf(h.0);
    let repl = lf(h.1);
    if trim(search).len() == 0 {
        Err("hunk["@ + crate::text::decimal(i) + "]: empty SEARCH"@)
    } else if count_from(out, search, 0) == 0 {
        Err("hunk["@ + crate::text::decimal(i) + "]: SEARCH not found: "@ + debug_str(
            search.take(if search.len() < 60 {
                search.len() as int
            } else {
                60
            }),
        ))
    } else if count_from(out, search, 0) > 1 {
        Err("hunk["@ + crate::text::decimal(i) + "]: SEARCH matches "@ + crate::text::decimal(
            count_from(out, search, 0),
        ) + " times (ambiguous) — narrow the anchor"@)
    } else {
        Ok(replace_first(out, search, repl))
    }
}

/// Hunks applied left to right to a body (CRLF normalised first).
pub open spec fn apply_hunks_spec(body: Seq<char>, hs: Seq<(Seq<char>, Seq<char>)>) -> Result<
    Seq<char>,
    Seq<char>,
>
    decreases hs.len(),
{
    if hs.len() == 0 {
        Ok(lf(body))
    } else {
        match apply_hunks_spec(body, hs.drop_last()) {
            Err(e) => Err(e),
            Ok(out) => apply_step(out, hs.last(), (hs.len() - 1) as nat),
        }
    }
}

pub proof fn lemma_apply_err(body: Seq<char>, hs: Seq<(Seq<char>, Seq<char>)>, k: int, e: Seq<char>)
    requires
        0 <= k <= hs.len(),
        apply_hunks_spec(body, hs.take(k)) == Err::<Seq<char>, Seq<char>>(e),
    ensures
        apply_hunks_spec(body, hs) == Err::<Seq<char>, Seq<char>>(e),
    decreases hs.len() - k,
{
    if k == hs.len() {
        assert(hs.take(k) =~= hs);
    } else {
        assert(hs.take(k + 1).drop_last() =~= hs.take(k));
        lemma_apply_err(body, hs, k + 1, e);
    }
}

/// Applies SEARCH/REPLACE hunks left to right; each SEARCH must occur exactly once
/// in the body as edited so far.
pub fn apply_hunks_to_body(body: &str, hunks: &[Hunk]) -> (r: Result<String, String>)
    ensures
        match (r, apply_hunks_spec(body@, hunk_views(hunks@))) {
            (Ok(a), Ok(b)) => a@ == b,
            (Err(a), Err(b)) => a@ == b,
            _ => false,
        },
{
    let bv = chars_of(body);
    let mut out = lf_exec(bv.as_slice());
    let mut i: usize = 0;
    while i < hunks.len()
        invariant
            i <= hunks@.len(),
            apply_hunks_spec(body@, hunk_views(hunks@).take(i as int)) == Ok::<
                Seq<char>,
                Seq<char>,
            >(out@),
        decreases hunks.len() - i,
    {
        let ghost hv = hunk_views(hunks@);
        assert(hv.take(i + 1).drop_last() =~= hv.take(i as int));
        assert(hv.take(i + 1).last() == hv[i as int]);
        assert(hv[i as int] == (hunks@[i as int].search@, hunks@[i as int].replace@));
        let sv = chars_of(hunks[i].search.as_str());
        let rv = chars_of(hunks[i].replace.as_str());
        let search = lf_exec(sv.as_slice());
        let repl = lf_exec(rv.as_slice());
        let t = trim_exec(search.as_slice());
        if t.len() == 0 {
            let mut e = "hunk[".to_owned();
            let d = crate::text::fmt_usize(i);
            e.append(d.as_str());
            e.append("]: empty SEARCH");
            proof {
                lemma_apply_err(body@, hv, i + 1, e@);
            }
            return Err(e);
        }
        let n = count_nonoverlapping(out.as_slice(), search.as_slice());
        if n == 0 {
            let keep = if search.len() < 60 {
                search.len()
            } else {
                60
            };
            let pre = copy_range(search.as_slice(), 0, keep);
            assert(pre@ =~= search@.take(keep as int));
            let ps = string_of(pre.as_slice());
            let mut e = "hunk[".to_owned();
            let d = crate::text::fmt_usize(i);
            e.append(d.as_str());
            e.append("]: SEARCH not found: ");
            let q = debug_quote(ps.as_str());
            e.append(q.as_str());
            proof {
                lemma_apply_err(body@, hv, i + 1, e@);
            }
            return Err(e);
        }
        if n > 1 {
            let mut e = "hunk[".to_owned();
            let d = crate::text::fmt_usize(i);
            e.append(d.as_str());
            e.append("]: SEARCH matches ");
            let c = crate::text::fmt_usize(n);
            e.append(c.as_str());
            e.append(" times (ambiguous) — narrow the anchor");
            proof {
                lemma_apply_err(body@, hv, i + 1, e@);
            }
            return Err(e);
        }
        out = replace_first_exec(out.as_slice(), search.as_slice(), repl.as_slice());
        i = i + 1;
    }
    assert(hunk_views(hunks@).take(hunks@.len() as int) =~= hunk_views(hunks@));
    Ok(string_of(out.as_slice()))
}

} // verus!
