//! Character-sequence model of the string operations the agents rely on.
//!
//! Every string is viewed as the sequence of its Unicode scalar values
//! (`s@: Seq<char>`); the spec functions here state what the familiar
//! `str` operations compute on that view, and the exec functions implement
//! them with loops whose results are proved equal to the specs.
use vstd::prelude::*;

verus! {

// ---------------------------------------------------------------------------
// Matching
// ---------------------------------------------------------------------------

/// `needle` occurs in `hay` starting at index `i`.
pub open spec fn matches_at(hay: Seq<char>, needle: Seq<char>, i: int) -> bool {
    0 <= i && i + needle.len() <= hay.len() && hay.subrange(i, i + needle.len()) == needle
}

/// Substring containment.
pub open spec fn contains(hay: Seq<char>, needle: Seq<char>) -> bool {
    exists|i: int| matches_at(hay, needle, i)
}

/// Prefix test.
pub open spec fn starts_with(s: Seq<char>, p: Seq<char>) -> bool {
    p.len() <= s.len() && s.subrange(0, p.len() as int) == p
}

/// Suffix test.
pub open spec fn ends_with(s: Seq<char>, p: Seq<char>) -> bool {
    p.len() <= s.len() && s.subrange(s.len() - p.len(), s.len() as int) == p
}

/// The first index `>= start` at which `needle` occurs in `hay`.
pub open spec fn find_from(hay: Seq<char>, needle: Seq<char>, start: int) -> Option<int>
    decreases hay.len() + 1 - start,
{
    if start < 0 || start + needle.len() > hay.len() {
        None
    } else if matches_at(hay, needle, start) {
        Some(start)
    } else {
        find_from(hay, needle, start + 1)
    }
}

/// The last index at which `needle` occurs in `hay`, looking at indices `< end`.
pub open spec fn rfind_before(hay: Seq<char>, needle: Seq<char>, end: int) -> Option<int>
    decreases end,
{
    if end <= 0 {
        None
    } else if matches_at(hay, needle, end - 1) {
        Some(end - 1)
    } else {
        rfind_before(hay, needle, end - 1)
    }
}

/// Last occurrence of `needle` in `hay`.
pub open spec fn rfind(hay: Seq<char>, needle: Seq<char>) -> Option<int> {
    rfind_before(hay, needle, hay.len() + 1int)
}

pub proof fn lemma_find_from(hay: Seq<char>, needle: Seq<char>, start: int)
    requires
        0 <= start,
    ensures
        find_from(hay, needle, start) matches Some(i) ==> start <= i && matches_at(hay, needle, i)
            && forall|j: int| start <= j < i ==> !matches_at(hay, needle, j),
        find_from(hay, needle, start) is None ==> forall|j: int|
            start <= j ==> !matches_at(hay, needle, j),
    decreases hay.len() + 1 - start,
{
    if start + needle.len() > hay.len() {
    } else if matches_at(hay, needle, start) {
    } else {
        lemma_find_from(hay, needle, start + 1);
    }
}

pub proof fn lemma_rfind_before(hay: Seq<char>, needle: Seq<char>, end: int)
    ensures
        rfind_before(hay, needle, end) matches Some(i) ==> 0 <= i < end && matches_at(
            hay,
            needle,
            i,
        ) && forall|j: int| i < j < end ==> !matches_at(hay, needle, j),
        rfind_before(hay, needle, end) is None ==> forall|j: int|
            j < end ==> !matches_at(hay, needle, j),
    decreases end,
{
    if end > 0 && !matches_at(hay, needle, end - 1) {
        lemma_rfind_before(hay, needle, end - 1);
    }
}

/// `contains` is the same as finding a first match.
pub proof fn lemma_contains_find(hay: Seq<char>, needle: Seq<char>)
    ensures
        contains(hay, needle) <==> find_from(hay, needle, 0) is Some,
{
    lemma_find_from(hay, needle, 0);
}

/// Does `needle` occur at `i` in `hay`?
pub fn matches_at_exec(hay: &[char], needle: &[char], i: usize) -> (b: bool)
    ensures
        b == matches_at(hay@, needle@, i as int),
{
    if i > hay.len() || needle.len() > hay.len() - i {
        return false;
    }
    let mut k: usize = 0;
    while k < needle.len()
        invariant
            i + needle@.len() <= hay.len(),
            k <= needle@.len(),
            forall|j: int| 0 <= j < k ==> hay@[i + j] == needle@[j],
        decreases needle.len() - k,
    {
        assert(i + k < hay@.len());
        if hay[i + k] != needle[k] {
            assert(hay@.subrange(i as int, i + needle@.len())[k as int] != needle@[k as int]);
            return false;
        }
        k = k + 1;
    }
    assert(hay@.subrange(i as int, i + needle@.len()) =~= needle@);
    true
}

/// First occurrence of `needle` at or after `start`.
pub fn find_from_exec(hay: &[char], needle: &[char], start: usize) -> (r: Option<usize>)
    ensures
        match r {
            Some(i) => find_from(hay@, needle@, start as int) == Some(i as int),
            None => find_from(hay@, needle@, start as int) is None,
        },
{
    if needle.len() > hay.len() {
        return None;
    }
    let last = hay.len() - needle.len();
    let mut i = start;
    while i <= last
        invariant
            last + needle@.len() == hay@.len(),
            start <= i,
            find_from(hay@, needle@, start as int) == find_from(hay@, needle@, i as int),
        decreases last + 1 - i,
    {
        if matches_at_exec(hay, needle, i) {
            return Some(i);
        }
        if i == last {
            assert(find_from(hay@, needle@, i + 1) is None);
            return None;
        }
        i = i + 1;
    }
    None
}

/// Last occurrence of `needle` in `hay`.
pub fn rfind_exec(hay: &[char], needle: &[char]) -> (r: Option<usize>)
    ensures
        match r {
            Some(i) => rfind(hay@, needle@) == Some(i as int),
            None => rfind(hay@, needle@) is None,
        },
{
    if matches_at_exec(hay, needle, hay.len()) {
        return Some(hay.len());
    }
    let mut end = hay.len();
    assert(rfind(hay@, needle@) == rfind_before(hay@, needle@, end as int));
    while end > 0
        invariant
            end <= hay@.len() + 1,
            rfind(hay@, needle@) == rfind_before(hay@, needle@, end as int),
        decreases end,
    {
        if matches_at_exec(hay, needle, end - 1) {
            return Some(end - 1);
        }
        end = end - 1;
    }
    None
}

/// Substring test.
pub fn contains_exec(hay: &[char], needle: &[char]) -> (b: bool)
    ensures
        b == contains(hay@, needle@),
{
    proof {
        lemma_contains_find(hay@, needle@);
    }
    find_from_exec(hay, needle, 0).is_some()
}

/// Prefix test.
pub fn starts_with_exec(s: &[char], p: &[char]) -> (b: bool)
    ensures
        b == starts_with(s@, p@),
{
    matches_at_exec(s, p, 0)
}

/// Suffix test.
pub fn ends_with_exec(s: &[char], p: &[char]) -> (b: bool)
    ensures
        b == ends_with(s@, p@),
{
    if p.len() > s.len() {
        false
    } else {
        matches_at_exec(s, p, s.len() - p.len())
    }
}

// ---------------------------------------------------------------------------
// Conversion between `str`/`String` and character vectors
// ---------------------------------------------------------------------------

/// The characters of a string slice, in order.
pub fn chars_of(s: &str) -> (v: Vec<char>)
    ensures
        v@ == s@,
{
    let mut v: Vec<char> = Vec::new();
    for c in it: s.chars()
        invariant
            v@ == it.seq().take(it.index()),
    {
        v.push(c);
    }
    v
}

/// `String::push`: appends one character.
#[verifier::external_body]
pub fn push_char(s: &mut String, c: char)
    ensures
        final(s)@ == old(s)@.push(c),
{
    s.push(c);
}

/// A string holding exactly the given characters.
pub fn string_of(v: &[char]) -> (s: String)
    ensures
        s@ == v@,
{
    let mut s = String::new();
    let mut i: usize = 0;
    while i < v.len()
        invariant
            i <= v@.len(),
            s@ == v@.take(i as int),
        decreases v.len() - i,
    {
        push_char(&mut s, v[i]);
        i = i + 1;
        assert(s@ =~= v@.take(i as int));
    }
    assert(v@.take(v@.len() as int) =~= v@);
    s
}

/// Equality of two strings' characters.
pub fn str_eq(a: &str, b: &str) -> (r: bool)
    ensures
        r == (a@ == b@),
{
    let x = chars_of(a);
    let y = chars_of(b);
    if x.len() != y.len() {
        return false;
    }
    let r = matches_at_exec(x.as_slice(), y.as_slice(), 0);
    assert(x@.subrange(0, y@.len() as int) =~= x@);
    r
}

/// `s` contains `needle` (both as strings).
pub fn str_contains(s: &str, needle: &str) -> (b: bool)
    ensures
        b == contains(s@, needle@),
{
    let h = chars_of(s);
    let n = chars_of(needle);
    contains_exec(h.as_slice(), n.as_slice())
}

/// `s` starts with `p` (both as strings).
pub fn str_starts_with(s: &str, p: &str) -> (b: bool)
    ensures
        b == starts_with(s@, p@),
{
    let h = chars_of(s);
    let n = chars_of(p);
    starts_with_exec(h.as_slice(), n.as_slice())
}

/// `s` ends with `p` (both as strings).
pub fn str_ends_with(s: &str, p: &str) -> (b: bool)
    ensures
        b == ends_with(s@, p@),
{
    let h = chars_of(s);
    let n = chars_of(p);
    ends_with_exec(h.as_slice(), n.as_slice())
}

// ---------------------------------------------------------------------------
// Copying, case, whitespace
// ---------------------------------------------------------------------------

/// A copy of `s[lo..hi]`.
pub fn copy_range(s: &[char], lo: usize, hi: usize) -> (r: Vec<char>)
    requires
        lo <= hi <= s@.len(),
    ensures
        r@ == s@.subrange(lo as int, hi as int),
{
    let mut r: Vec<char> = Vec::new();
    let mut i = lo;
    while i < hi
        invariant
            lo <= i <= hi,
            hi <= s@.len(),
            r@ == s@.subrange(lo as int, i as int),
        decreases hi - i,
    {
        r.push(s[i]);
        i = i + 1;
        assert(r@ =~= s@.subrange(lo as int, i as int));
    }
    r
}

/// Appends `t` to `v`.
pub fn append_chars(v: &mut Vec<char>, t: &[char])
    ensures
        final(v)@ == old(v)@ + t@,
{
    let mut i: usize = 0;
    while i < t.len()
        invariant
            i <= t@.len(),
            v@ == old(v)@ + t@.take(i as int),
        decreases t.len() - i,
    {
        v.push(t[i]);
        i = i + 1;
        assert(v@ =~= old(v)@ + t@.take(i as int));
    }
    assert(t@.take(t@.len() as int) =~= t@);
}

/// ASCII lowercase of one character (`char::to_ascii_lowercase`).
pub open spec fn lower_ascii_char(c: char) -> char {
    if 'A' <= c && c <= 'Z' {
        ((c as u32) + 32) as char
    } else {
        c
    }
}

/// ASCII lowercase of a string (`str::to_ascii_lowercase`).
pub open spec fn lower_ascii(s: Seq<char>) -> Seq<char> {
    s.map_values(|c: char| lower_ascii_char(c))
}

pub fn lower_ascii_char_exec(c: char) -> (r: char)
    ensures
        r == lower_ascii_char(c),
{
    if 'A' <= c && c <= 'Z' {
        let b: u8 = (c as u8) + 32;
        b as char
    } else {
        c
    }
}

/// ASCII-lowercased copy.
pub fn lower_ascii_exec(s: &[char]) -> (r: Vec<char>)
    ensures
        r@ == lower_ascii(s@),
{
    let mut r: Vec<char> = Vec::new();
    let mut i: usize = 0;
    while i < s.len()
        invariant
            i <= s@.len(),
            r@ == lower_ascii(s@.take(i as int)),
        decreases s.len() - i,
    {
        let c = lower_ascii_char_exec(s[i]);
        r.push(c);
        i = i + 1;
        assert(r@ =~= lower_ascii(s@.take(i as int)));
    }
    assert(s@.take(s@.len() as int) =~= s@);
    r
}

/// Unicode lowercase mapping of `str::to_lowercase`.
pub uninterp spec fn unicode_lower(s: Seq<char>) -> Seq<char>;

/// `str::to_lowercase`: the Unicode lowercase of `s`.
#[verifier::external_body]
pub fn to_lowercase(s: &str) -> (r: String)
    ensures
        r@ == unicode_lower(s@),
{
    s.to_lowercase()
}

/// What `{:?}` prints for a string: the quoted, escaped text.
pub uninterp spec fn debug_str(s: Seq<char>) -> Seq<char>;

/// `format!("{s:?}")`: the `Debug` rendering of a string.
#[verifier::external_body]
pub fn debug_quote(s: &str) -> (r: String)
    ensures
        r@ == debug_str(s@),
{
    format!("{s:?}")
}

/// `char::is_whitespace`: the Unicode `White_Space` characters.
pub open spec fn is_ws(c: char) -> bool {
    ||| c == ' '
    ||| ('\t' <= c && c <= '\r')
    ||| c == '\u{85}'
    ||| c == '\u{a0}'
    ||| c == '\u{1680}'
    ||| ('\u{2000}' <= c && c <= '\u{200a}')
    ||| c == '\u{2028}'
    ||| c == '\u{2029}'
    ||| c == '\u{202f}'
    ||| c == '\u{205f}'
    ||| c == '\u{3000}'
}

pub fn is_ws_exec(c: char) -> (b: bool)
    ensures
        b == is_ws(c),
{
    c == ' ' || ('\t' <= c && c <= '\r') || c == '\u{85}' || c == '\u{a0}' || c == '\u{1680}'
        || ('\u{2000}' <= c && c <= '\u{200a}') || c == '\u{2028}' || c == '\u{2029}' || c
        == '\u{202f}' || c == '\u{205f}' || c == '\u{3000}'
}

/// `str::trim_start`.
pub open spec fn trim_start(s: Seq<char>) -> Seq<char>
    decreases s.len(),
{
    if s.len() > 0 && is_ws(s[0]) {
        trim_start(s.drop_first())
    } else {
        s
    }
}

/// `str::trim_end`.
pub open spec fn trim_end(s: Seq<char>) -> Seq<char>
    decreases s.len(),
{
    if s.len() > 0 && is_ws(s.last()) {
        trim_end(s.drop_last())
    } else {
        s
    }
}

/// `str::trim`.
pub open spec fn trim(s: Seq<char>) -> Seq<char> {
    trim_end(trim_start(s))
}

/// Number of leading whitespace characters.
pub fn leading_ws(s: &[char]) -> (k: usize)
    ensures
        k <= s@.len(),
        s@.skip(k as int) == trim_start(s@),
        forall|j: int| 0 <= j < k ==> is_ws(#[trigger] s@[j]),
{
    let mut i: usize = 0;
    assert(s@.skip(0) =~= s@);
    while i < s.len() && is_ws_exec(s[i])
        invariant
            i <= s@.len(),
            trim_start(s@) == trim_start(s@.skip(i as int)),
            forall|j: int| 0 <= j < i ==> is_ws(#[trigger] s@[j]),
        decreases s.len() - i,
    {
        assert(s@.skip(i as int).drop_first() =~= s@.skip(i + 1));
        i = i + 1;
    }
    i
}

/// Length of `s` once trailing whitespace is dropped.
pub fn trimmed_end_len(s: &[char]) -> (k: usize)
    ensures
        k <= s@.len(),
        s@.take(k as int) == trim_end(s@),
{
    let mut i: usize = s.len();
    assert(s@.take(i as int) =~= s@);
    while i > 0 && is_ws_exec(s[i - 1])
        invariant
            i <= s@.len(),
            trim_end(s@) == trim_end(s@.take(i as int)),
        decreases i,
    {
        assert(s@.take(i as int).drop_last() =~= s@.take(i - 1));
        i = i - 1;
    }
    i
}

/// `str::trim_start` on characters.
pub fn trim_start_exec(s: &[char]) -> (r: Vec<char>)
    ensures
        r@ == trim_start(s@),
{
    let k = leading_ws(s);
    copy_range(s, k, s.len())
}

/// `str::trim_end` on characters.
pub fn trim_end_exec(s: &[char]) -> (r: Vec<char>)
    ensures
        r@ == trim_end(s@),
{
    let k = trimmed_end_len(s);
    copy_range(s, 0, k)
}

/// `str::trim` on characters.
pub fn trim_exec(s: &[char]) -> (r: Vec<char>)
    ensures
        r@ == trim(s@),
{
    let a = trim_start_exec(s);
    trim_end_exec(a.as_slice())
}

/// `str::trim` on a string.
pub fn str_trim(s: &str) -> (r: String)
    ensures
        r@ == trim(s@),
{
    let v = chars_of(s);
    let t = trim_exec(v.as_slice());
    string_of(t.as_slice())
}

// ---------------------------------------------------------------------------
// Lines, splitting, joining
// ---------------------------------------------------------------------------

/// The character views of a vector of character vectors.
pub open spec fn views(v: Seq<Vec<char>>) -> Seq<Seq<char>> {
    v.map_values(|x: Vec<char>| x@)
}

/// The character views of a vector of strings.
pub open spec fn string_views(v: Seq<String>) -> Seq<Seq<char>> {
    v.map_values(|x: String| x@)
}

/// Drops one trailing `'\r'`.
pub open spec fn strip_cr(l: Seq<char>) -> Seq<char> {
    if l.len() > 0 && l.last() == '\r' {
        l.drop_last()
    } else {
        l
    }
}

/// Left fold of `str::lines` over a prefix: the finished lines and the pending one.
pub open spec fn lines_fold(s: Seq<char>) -> (Seq<Seq<char>>, Seq<char>)
    decreases s.len(),
{
    if s.len() == 0 {
        (seq![], seq![])
    } else {
        let (done, cur) = lines_fold(s.drop_last());
        if s.last() == '\n' {
            (done.push(strip_cr(cur)), seq![])
        } else {
            (done, cur.push(s.last()))
        }
    }
}

/// `str::lines`: pieces split at `'\n'` (a `'\r'` before it is dropped);
/// a final empty piece is not a line.
pub open spec fn lines(s: Seq<char>) -> Seq<Seq<char>> {
    let (done, cur) = lines_fold(s);
    if cur.len() == 0 {
        done
    } else {
        done.push(cur)
    }
}

/// `str::lines` on characters.
pub fn lines_exec(s: &[char]) -> (r: Vec<Vec<char>>)
    ensures
        views(r@) == lines(s@),
{
    let mut done: Vec<Vec<char>> = Vec::new();
    let mut cur: Vec<char> = Vec::new();
    let mut i: usize = 0;
    while i < s.len()
        invariant
            i <= s@.len(),
            (views(done@), cur@) == lines_fold(s@.take(i as int)),
        decreases s.len() - i,
    {
        assert(s@.take(i + 1).drop_last() =~= s@.take(i as int));
        let c = s[i];
        if c == '\n' {
            let mut line = cur;
            if line.len() > 0 && line[line.len() - 1] == '\r' {
                line.pop();
            }
            let ghost old_done = done@;
            done.push(line);
            assert(views(done@) =~= views(old_done).push(line@));
            cur = Vec::new();
        } else {
            cur.push(c);
        }
        i = i + 1;
    }
    assert(s@.take(s@.len() as int) =~= s@);
    if cur.len() > 0 {
        let ghost old_done = done@;
        done.push(cur);
        assert(views(done@) =~= views(old_done).push(cur@));
    }
    done
}

/// Left fold of `str::split(sep)` for a single-character separator.
pub open spec fn split_fold(s: Seq<char>, sep: char) -> (Seq<Seq<char>>, Seq<char>)
    decreases s.len(),
{
    if s.len() == 0 {
        (seq![], seq![])
    } else {
        let (done, cur) = split_fold(s.drop_last(), sep);
        if s.last() == sep {
            (done.push(cur), seq![])
        } else {
            (done, cur.push(s.last()))
        }
    }
}

/// `str::split(sep)`: every piece, including empty ones; never empty.
pub open spec fn split_char(s: Seq<char>, sep: char) -> Seq<Seq<char>> {
    let (done, cur) = split_fold(s, sep);
    done.push(cur)
}

/// `str::split(sep)` on characters.
pub fn split_char_exec(s: &[char], sep: char) -> (r: Vec<Vec<char>>)
    ensures
        views(r@) == split_char(s@, sep),
{
    let mut done: Vec<Vec<char>> = Vec::new();
    let mut cur: Vec<char> = Vec::new();
    let mut i: usize = 0;
    while i < s.len()
        invariant
            i <= s@.len(),
            (views(done@), cur@) == split_fold(s@.take(i as int), sep),
        decreases s.len() - i,
    {
        assert(s@.take(i + 1).drop_last() =~= s@.take(i as int));
        let c = s[i];
        if c == sep {
            let ghost old_done = done@;
            done.push(cur);
            assert(views(done@) =~= views(old_done).push(cur@));
            cur = Vec::new();
        } else {
            cur.push(c);
        }
        i = i + 1;
    }
    assert(s@.take(s@.len() as int) =~= s@);
    let ghost old_done = done@;
    done.push(cur);
    assert(views(done@) =~= views(old_done).push(cur@));
    done
}

/// `parts.join(sep)`.
pub open spec fn join(parts: Seq<Seq<char>>, sep: Seq<char>) -> Seq<char>
    decreases parts.len(),
{
    if parts.len() == 0 {
        seq![]
    } else if parts.len() == 1 {
        parts[0]
    } else {
        join(parts.drop_last(), sep) + sep + parts.last()
    }
}

/// `parts.join(sep)` on character vectors.
pub fn join_exec(parts: &[Vec<char>], sep: &[char]) -> (r: Vec<char>)
    ensures
        r@ == join(views(parts@), sep@),
{
    let mut r: Vec<char> = Vec::new();
    let mut i: usize = 0;
    while i < parts.len()
        invariant
            i <= parts@.len(),
            r@ == join(views(parts@.take(i as int)), sep@),
        decreases parts.len() - i,
    {
        assert(views(parts@.take(i + 1)).drop_last() =~= views(parts@.take(i as int)));
        if i > 0 {
            append_chars(&mut r, sep);
        }
        append_chars(&mut r, parts[i].as_slice());
        i = i + 1;
    }
    assert(parts@.take(parts@.len() as int) =~= parts@);
    r
}

/// `parts.join(sep)` on strings.
pub fn join_strings(parts: &[String], sep: &str) -> (r: String)
    ensures
        r@ == join(string_views(parts@), sep@),
{
    let mut r = String::new();
    let mut i: usize = 0;
    while i < parts.len()
        invariant
            i <= parts@.len(),
            r@ == join(string_views(parts@.take(i as int)), sep@),
        decreases parts.len() - i,
    {
        assert(string_views(parts@.take(i + 1)).drop_last() =~= string_views(
            parts@.take(i as int),
        ));
        if i > 0 {
            r.append(sep);
        }
        r.append(parts[i].as_str());
        i = i + 1;
    }
    assert(parts@.take(parts@.len() as int) =~= parts@);
    r
}

/// `str::split_once(pat)`: the parts before and after the first match.
pub open spec fn split_once(s: Seq<char>, pat: Seq<char>) -> Option<(Seq<char>, Seq<char>)> {
    match find_from(s, pat, 0) {
        Some(i) => Some((s.subrange(0, i), s.subrange(i + pat.len(), s.len() as int))),
        None => None,
    }
}

pub fn split_once_exec(s: &[char], pat: &[char]) -> (r: Option<(Vec<char>, Vec<char>)>)
    ensures
        match r {
            Some((a, b)) => split_once(s@, pat@) == Some((a@, b@)),
            None => split_once(s@, pat@) is None,
        },
{
    match find_from_exec(s, pat, 0) {
        Some(i) => {
            proof {
                lemma_find_from(s@, pat@, 0);
            }
            let n = s.len();
            assert(matches_at(s@, pat@, i as int));
            assert(i + pat@.len() <= n);
            let a = copy_range(s, 0, i);
            let b = copy_range(s, i + pat.len(), s.len());
            Some((a, b))
        },
        None => None,
    }
}

// ---------------------------------------------------------------------------
// Replacement
// ---------------------------------------------------------------------------

/// `str::replace(from, to)` applied to `s[pos..]` (matches found left to right,
/// never overlapping).
pub open spec fn replace_from(s: Seq<char>, from: Seq<char>, to: Seq<char>, pos: int) -> Seq<char>
    decreases s.len() - pos,
{
    if pos < 0 || pos > s.len() || from.len() == 0 {
        s.subrange(if 0 <= pos <= s.len() { pos } else { s.len() as int }, s.len() as int)
    } else {
        match find_from(s, from, pos) {
            None => s.subrange(pos, s.len() as int),
            Some(m) => {
                proof {
                    lemma_find_from(s, from, pos);
                }
                s.subrange(pos, m) + to + replace_from(s, from, to, m + from.len())
            },
        }
    }
}

/// `str::replace(from, to)` for a non-empty pattern.
pub open spec fn replace(s: Seq<char>, from: Seq<char>, to: Seq<char>) -> Seq<char> {
    replace_from(s, from, to, 0)
}

pub fn replace_exec(s: &[char], from: &[char], to: &[char]) -> (r: Vec<char>)
    requires
        from@.len() > 0,
    ensures
        r@ == replace(s@, from@, to@),
{
    let mut out: Vec<char> = Vec::new();
    let mut pos: usize = 0;
    assert(out@ + replace_from(s@, from@, to@, 0) =~= replace(s@, from@, to@));
    loop
        invariant
            pos <= s@.len(),
            from@.len() > 0,
            out@ + replace_from(s@, from@, to@, pos as int) == replace(s@, from@, to@),
        decreases s@.len() + 1 - pos,
    {
        match find_from_exec(s, from, pos) {
            None => {
                let tail = copy_range(s, pos, s.len());
                append_chars(&mut out, tail.as_slice());
                assert(out@ =~= replace(s@, from@, to@));
                return out;
            },
            Some(m) => {
                proof {
                    lemma_find_from(s@, from@, pos as int);
                }
                let n = s.len();
                assert(m + from@.len() <= n);
                let mid = copy_range(s, pos, m);
                let ghost before = out@;
                append_chars(&mut out, mid.as_slice());
                append_chars(&mut out, to);
                assert(out@ + replace_from(s@, from@, to@, m + from@.len()) =~= before
                    + replace_from(s@, from@, to@, pos as int));
                pos = m + from.len();
            },
        }
    }
}

/// `str::replace` on strings, for a non-empty pattern.
pub fn str_replace(s: &str, from: &str, to: &str) -> (r: String)
    requires
        from@.len() > 0,
    ensures
        r@ == replace(s@, from@, to@),
{
    let a = chars_of(s);
    let b = chars_of(from);
    let c = chars_of(to);
    let r = replace_exec(a.as_slice(), b.as_slice(), c.as_slice());
    string_of(r.as_slice())
}

// ---------------------------------------------------------------------------
// Decimal numbers
// ---------------------------------------------------------------------------

/// The ASCII digit for `d < 10`.
pub open spec fn digit_char(d: nat) -> char {
    if d == 0 {
        '0'
    } else if d == 1 {
        '1'
    } else if d == 2 {
        '2'
    } else if d == 3 {
        '3'
    } else if d == 4 {
        '4'
    } else if d == 5 {
        '5'
    } else if d == 6 {
        '6'
    } else if d == 7 {
        '7'
    } else if d == 8 {
        '8'
    } else {
        '9'
    }
}

/// Decimal rendering of a natural number (what `{}` prints).
pub open spec fn decimal(n: nat) -> Seq<char>
    decreases n,
{
    if n < 10 {
        seq![digit_char(n)]
    } else {
        decimal(n / 10).push(digit_char(n % 10))
    }
}

/// Decimal rendering of an integer, with a leading `-` when negative.
pub open spec fn decimal_int(n: int) -> Seq<char> {
    if n < 0 {
        seq!['-'] + decimal((-n) as nat)
    } else {
        decimal(n as nat)
    }
}

fn digit_exec(d: u64) -> (c: char)
    requires
        d < 10,
    ensures
        c == digit_char(d as nat),
{
    if d == 0 {
        '0'
    } else if d == 1 {
        '1'
    } else if d == 2 {
        '2'
    } else if d == 3 {
        '3'
    } else if d == 4 {
        '4'
    } else if d == 5 {
        '5'
    } else if d == 6 {
        '6'
    } else if d == 7 {
        '7'
    } else if d == 8 {
        '8'
    } else {
        '9'
    }
}

/// Decimal rendering of `n`.
pub fn fmt_u64(n: u64) -> (s: String)
    ensures
        s@ == decimal(n as nat),
    decreases n,
{
    if n < 10 {
        let mut s = String::new();
        push_char(&mut s, digit_exec(n));
        s
    } else {
        let mut s = fmt_u64(n / 10);
        push_char(&mut s, digit_exec(n % 10));
        s
    }
}

/// Decimal rendering of `n`, signed.
pub fn fmt_i64(n: i64) -> (s: String)
    ensures
        s@ == decimal_int(n as int),
{
    if n < 0 {
        let m: u64 = ((-(n + 1)) as u64) + 1;
        let mut s = String::new();
        push_char(&mut s, '-');
        let d = fmt_u64(m);
        s.append(d.as_str());
        s
    } else {
        fmt_u64(n as u64)
    }
}

/// Decimal rendering of a `usize`.
pub fn fmt_usize(n: usize) -> (s: String)
    ensures
        s@ == decimal(n as nat),
{
    fmt_u64(n as u64)
}

/// ASCII decimal digit.
pub open spec fn is_digit(c: char) -> bool {
    '0' <= c && c <= '9'
}

/// Value of an ASCII digit.
pub open spec fn digit_value(c: char) -> nat {
    ((c as u32) - 48) as nat
}

/// Value of a string of decimal digits.
pub open spec fn digits_value(s: Seq<char>) -> nat
    decreases s.len(),
{
    if s.len() == 0 {
        0
    } else {
        digits_value(s.drop_last()) * 10 + digit_value(s.last())
    }
}

/// Every character is an ASCII digit.
pub open spec fn all_digits(s: Seq<char>) -> bool {
    forall|i: int| 0 <= i < s.len() ==> is_digit(#[trigger] s[i])
}

/// What `str::parse` reads as an unsigned integer: an optional `+` and at least one digit.
pub open spec fn parse_nat(s: Seq<char>) -> Option<nat> {
    let body = if s.len() > 0 && s[0] == '+' {
        s.drop_first()
    } else {
        s
    };
    if body.len() > 0 && all_digits(body) {
        Some(digits_value(body))
    } else {
        None
    }
}

/// What `str::parse` reads as a signed integer: an optional sign and at least one digit.
pub open spec fn parse_int(s: Seq<char>) -> Option<int> {
    if s.len() > 0 && s[0] == '-' {
        let body = s.drop_first();
        if body.len() > 0 && all_digits(body) {
            Some(-(digits_value(body) as int))
        } else {
            None
        }
    } else {
        match parse_nat(s) {
            Some(v) => Some(v as int),
            None => None,
        }
    }
}

proof fn lemma_digits_value_mono(s: Seq<char>, i: int)
    requires
        0 <= i <= s.len(),
    ensures
        digits_value(s.take(i)) <= digits_value(s),
    decreases s.len() - i,
{
    if i < s.len() {
        lemma_digits_value_mono(s, i + 1);
        assert(s.take(i + 1).drop_last() =~= s.take(i));
    } else {
        assert(s.take(i) =~= s);
    }
}

/// Value of the digit run `s[lo..]`, if every character is a digit, it is non-empty,
/// and the value is at most `limit`.
fn digits_upto(s: &[char], lo: usize, limit: u64) -> (r: Option<u64>)
    requires
        lo <= s@.len(),
    ensures
        match r {
            Some(v) => s@.len() > lo && all_digits(s@.skip(lo as int)) && v == digits_value(
                s@.skip(lo as int),
            ) && v <= limit,
            None => !(s@.len() > lo && all_digits(s@.skip(lo as int)) && digits_value(
                s@.skip(lo as int),
            ) <= limit),
        },
{
    if lo >= s.len() {
        return None;
    }
    let ghost body = s@.skip(lo as int);
    let mut v: u64 = 0;
    let mut i = lo;
    assert(body.take(0) =~= seq![]);
    while i < s.len()
        invariant
            lo <= i <= s@.len(),
            body == s@.skip(lo as int),
            all_digits(body.take(i - lo)),
            v == digits_value(body.take(i - lo)),
            v <= limit,
        decreases s.len() - i,
    {
        let c = s[i];
        assert(body[i - lo] == c);
        if !('0' <= c && c <= '9') {
            assert(!is_digit(body[i - lo]));
            return None;
        }
        let d: u64 = ((c as u32) - 48) as u64;
        assert(body.take(i - lo + 1).drop_last() =~= body.take(i - lo));
        if d > limit || v > (limit - d) / 10 {
            proof {
                lemma_digits_value_mono(body, i - lo + 1);
            }
            return None;
        }
        v = v * 10 + d;
        i = i + 1;
        assert forall|j: int| 0 <= j < i - lo implies is_digit(#[trigger] body.take(i - lo)[j]) by {
            if j < i - lo - 1 {
                assert(body.take(i - lo - 1)[j] == body.take(i - lo)[j]);
            }
        }
    }
    assert(body.take(s@.len() - lo) =~= body);
    Some(v)
}

/// `str::parse::<usize>()`.
pub fn parse_usize(s: &[char]) -> (r: Option<usize>)
    ensures
        match r {
            Some(v) => parse_nat(s@) == Some(v as nat),
            None => parse_nat(s@) matches Some(v) ==> v > usize::MAX,
        },
{
    let lo: usize = if s.len() > 0 && s[0] == '+' {
        1
    } else {
        0
    };
    assert(s@.len() > 0 && s@[0] == '+' ==> s@.skip(1) =~= s@.drop_first());
    assert(s@.skip(0) =~= s@);
    match digits_upto(s, lo, usize::MAX as u64) {
        Some(v) => Some(v as usize),
        None => None,
    }
}

/// `str::parse::<i32>()`.
pub fn parse_i32(s: &[char]) -> (r: Option<i32>)
    ensures
        match r {
            Some(v) => parse_int(s@) == Some(v as int),
            None => parse_int(s@) matches Some(v) ==> (v < i32::MIN || v > i32::MAX),
        },
{
    assert(s@.len() > 0 ==> s@.skip(1) =~= s@.drop_first());
    assert(s@.skip(0) =~= s@);
    if s.len() > 0 && s[0] == '-' {
        match digits_upto(s, 1, 2147483648) {
            Some(v) => Some((-(v as i64)) as i32),
            None => None,
        }
    } else {
        let lo: usize = if s.len() > 0 && s[0] == '+' {
            1
        } else {
            0
        };
        match digits_upto(s, lo, 2147483647) {
            Some(v) => Some(v as i32),
            None => None,
        }
    }
}

// ---------------------------------------------------------------------------
// UTF-8 byte lengths
// ---------------------------------------------------------------------------

/// Bytes in the UTF-8 encoding of one character.
pub open spec fn char_len8(c: char) -> nat {
    let v = c as u32;
    if v <= 0x7F {
        1
    } else if v <= 0x7FF {
        2
    } else if v <= 0xFFFF {
        3
    } else {
        4
    }
}

/// Bytes in the UTF-8 encoding of a character sequence (what `str::len` returns).
pub open spec fn utf8_len(s: Seq<char>) -> nat
    decreases s.len(),
{
    if s.len() == 0 {
        0
    } else {
        char_len8(s[0]) + utf8_len(s.drop_first())
    }
}

pub proof fn lemma_utf8_len_encode(s: Seq<char>)
    ensures
        vstd::utf8::encode_utf8(s).len() == utf8_len(s),
    decreases s.len(),
{
    if s.len() > 0 {
        vstd::utf8::char_is_scalar(s[0]);
        lemma_utf8_len_encode(s.drop_first());
    }
}

pub proof fn lemma_utf8_len_append(a: Seq<char>, b: Seq<char>)
    ensures
        utf8_len(a + b) == utf8_len(a) + utf8_len(b),
    decreases a.len(),
{
    if a.len() > 0 {
        assert((a + b).drop_first() =~= a.drop_first() + b);
        lemma_utf8_len_append(a.drop_first(), b);
    } else {
        assert(a + b =~= b);
    }
}

pub proof fn lemma_utf8_len_take_step(s: Seq<char>, i: int)
    requires
        0 <= i < s.len(),
    ensures
        utf8_len(s.take(i + 1)) == utf8_len(s.take(i)) + char_len8(s[i]),
{
    assert(s.take(i + 1) =~= s.take(i) + seq![s[i]]);
    lemma_utf8_len_append(s.take(i), seq![s[i]]);
    assert(seq![s[i]].drop_first() =~= Seq::<char>::empty());
    assert(utf8_len(Seq::<char>::empty()) == 0);
    assert(utf8_len(seq![s[i]]) == char_len8(s[i]));
}

pub proof fn lemma_utf8_len_skip_step(s: Seq<char>, i: int)
    requires
        0 < i <= s.len(),
    ensures
        utf8_len(s.skip(i - 1)) == char_len8(s[i - 1]) + utf8_len(s.skip(i)),
{
    assert(s.skip(i - 1).drop_first() =~= s.skip(i));
}

pub proof fn lemma_utf8_len_take_mono(s: Seq<char>, i: int, j: int)
    requires
        0 <= i <= j <= s.len(),
    ensures
        utf8_len(s.take(i)) <= utf8_len(s.take(j)),
    decreases j - i,
{
    if i < j {
        lemma_utf8_len_take_mono(s, i, j - 1);
        lemma_utf8_len_take_step(s, j - 1);
    }
}

pub proof fn lemma_utf8_len_skip_mono(s: Seq<char>, i: int, j: int)
    requires
        0 <= i <= j <= s.len(),
    ensures
        utf8_len(s.skip(j)) <= utf8_len(s.skip(i)),
    decreases j - i,
{
    if i < j {
        lemma_utf8_len_skip_mono(s, i + 1, j);
        lemma_utf8_len_skip_step(s, i + 1);
    }
}

pub fn char_len8_exec(c: char) -> (n: usize)
    ensures
        n == char_len8(c),
{
    if c <= '\u{7f}' {
        1
    } else if c <= '\u{7ff}' {
        2
    } else if c <= '\u{ffff}' {
        3
    } else {
        4
    }
}

/// Byte length of a string.
pub fn byte_len(s: &str) -> (n: usize)
    ensures
        n == utf8_len(s@),
{
    proof {
        lemma_utf8_len_encode(s@);
    }
    let bytes = s.as_bytes();
    bytes.len()
}

/// The longest prefix (in characters) whose UTF-8 encoding fits in `max` bytes.
pub open spec fn is_prefix_within(s: Seq<char>, max: nat, k: int) -> bool {
    &&& 0 <= k <= s.len()
    &&& utf8_len(s.take(k)) <= max
    &&& (k == s.len() || utf8_len(s.take(k + 1)) > max)
}

/// The longest suffix (in characters) whose UTF-8 encoding fits in `max` bytes:
/// the suffix starts at character `k`.
pub open spec fn is_suffix_within(s: Seq<char>, max: nat, k: int) -> bool {
    &&& 0 <= k <= s.len()
    &&& utf8_len(s.skip(k)) <= max
    &&& (k == 0 || utf8_len(s.skip(k - 1)) > max)
}

/// Length in characters of the longest prefix that fits in `max` bytes.
pub fn prefix_within(s: &[char], max: usize) -> (k: usize)
    ensures
        is_prefix_within(s@, max as nat, k as int),
{
    let mut i: usize = 0;
    let mut used: usize = 0;
    assert(s@.take(0) =~= Seq::<char>::empty());
    while i < s.len()
        invariant
            i <= s@.len(),
            used == utf8_len(s@.take(i as int)),
            used <= max,
        decreases s.len() - i,
    {
        let w = char_len8_exec(s[i]);
        proof {
            lemma_utf8_len_take_step(s@, i as int);
        }
        if w > max - used {
            return i;
        }
        used = used + w;
        i = i + 1;
    }
    i
}

/// Character index where the longest suffix that fits in `max` bytes starts.
pub fn suffix_within(s: &[char], max: usize) -> (k: usize)
    ensures
        is_suffix_within(s@, max as nat, k as int),
{
    let mut i: usize = s.len();
    let mut used: usize = 0;
    assert(s@.skip(s@.len() as int) =~= Seq::<char>::empty());
    while i > 0
        invariant
            i <= s@.len(),
            used == utf8_len(s@.skip(i as int)),
            used <= max,
        decreases i,
    {
        let w = char_len8_exec(s[i - 1]);
        proof {
            lemma_utf8_len_skip_step(s@, i as int);
        }
        if w > max - used {
            return i;
        }
        used = used + w;
        i = i - 1;
    }
    i
}


/// `lines_fold` of a text with no newline: no finished line, the text pending.
pub proof fn lemma_lines_fold_no_newline(x: Seq<char>)
    requires
        forall|i: int| 0 <= i < x.len() ==> x[i] != '\n',
    ensures
        lines_fold(x) == (Seq::<Seq<char>>::empty(), x),
    decreases x.len(),
{
    if x.len() > 0 {
        lemma_lines_fold_no_newline(x.drop_last());
        assert(x.drop_last().push(x.last()) =~= x);
    }
}

/// Folding across a line boundary: the lines of `a` then those of `b`.
pub proof fn lemma_lines_fold_append(a: Seq<char>, b: Seq<char>)
    requires
        lines_fold(a).1.len() == 0,
    ensures
        lines_fold(a + b).0 == lines_fold(a).0 + lines_fold(b).0,
        lines_fold(a + b).1 == lines_fold(b).1,
    decreases b.len(),
{
    if b.len() == 0 {
        assert(a + b =~= a);
        assert(lines_fold(a).0 + Seq::<Seq<char>>::empty() =~= lines_fold(a).0);
    } else {
        lemma_lines_fold_append(a, b.drop_last());
        assert((a + b).drop_last() =~= a + b.drop_last());
        assert((a + b).last() == b.last());
        let (d, c) = lines_fold(b.drop_last());
        if b.last() == '\n' {
            assert(lines_fold(a).0 + d.push(strip_cr(c)) =~= (lines_fold(a).0 + d).push(strip_cr(c)));
        }
    }
}

/// The lines of a text ending in a newline, followed by more text.
pub proof fn lemma_lines_append(a: Seq<char>, b: Seq<char>)
    requires
        lines_fold(a).1.len() == 0,
    ensures
        lines(a + b) == lines(a) + lines(b),
{
    lemma_lines_fold_append(a, b);
    let (d, c) = lines_fold(b);
    if c.len() > 0 {
        assert(lines_fold(a).0 + d.push(c) =~= (lines_fold(a).0 + d).push(c));
    }
}

/// A newline-free text followed by a newline is one line (a trailing `\r` dropped).
pub proof fn lemma_one_line(x: Seq<char>)
    requires
        forall|i: int| 0 <= i < x.len() ==> x[i] != '\n',
    ensures
        lines_fold(x + "\n"@).0 == seq![strip_cr(x)],
        lines_fold(x + "\n"@).1.len() == 0,
        lines(x + "\n"@) == seq![strip_cr(x)],
{
    reveal_strlit("\n");
    lemma_lines_fold_no_newline(x);
    assert((x + "\n"@).drop_last() =~= x);
    assert((x + "\n"@).last() == '\n');
}

/// A text ending in a newline leaves no line pending.
pub proof fn lemma_newline_closes(x: Seq<char>)
    ensures
        lines_fold(x + "\n"@).1.len() == 0,
{
    reveal_strlit("\n");
    assert((x + "\n"@).drop_last() =~= x);
    assert((x + "\n"@).last() == '\n');
}


pub proof fn lemma_trim_start_shape(s: Seq<char>)
    ensures
        trim_start(s).len() == 0 || !is_ws(trim_start(s)[0]),
        trim_start(trim_start(s)) == trim_start(s),
    decreases s.len(),
{
    if s.len() > 0 && is_ws(s[0]) {
        lemma_trim_start_shape(s.drop_first());
    }
}

pub proof fn lemma_trim_end_shape(s: Seq<char>)
    ensures
        trim_end(s).len() <= s.len(),
        trim_end(s) == s.take(trim_end(s).len() as int),
        trim_end(s).len() == 0 || !is_ws(trim_end(s).last()),
        trim_end(trim_end(s)) == trim_end(s),
    decreases s.len(),
{
    if s.len() > 0 && is_ws(s.last()) {
        lemma_trim_end_shape(s.drop_last());
        assert(s.drop_last().take(trim_end(s).len() as int) =~= s.take(trim_end(s).len() as int));
    } else {
        assert(s.take(s.len() as int) =~= s);
    }
}

/// Trimming twice is trimming once.
pub proof fn lemma_trim_idempotent(s: Seq<char>)
    ensures
        trim(trim(s)) == trim(s),
{
    let u = trim_start(s);
    lemma_trim_start_shape(s);
    lemma_trim_end_shape(u);
    let v = trim_end(u);
    if v.len() > 0 {
        assert(v[0] == u[0]);
        assert(trim_start(v) == v);
    } else {
        assert(trim_start(v) == v);
    }
}

} // verus!
