//! Checks on what the project cache stores.
use vstd::prelude::*;

verus! {

pub open spec fn is_alnum_byte(c: u8) -> bool {
    (48 <= c && c <= 57) || (65 <= c && c <= 90) || (97 <= c && c <= 122)
}

pub open spec fn is_digit_byte(c: u8) -> bool {
    48 <= c && c <= 57
}

/// The end of the run of ASCII letters and digits that starts at `k`.
pub open spec fn alnum_run_end(b: Seq<u8>, k: int) -> int
    decreases b.len() - k,
{
    if k < 0 || k >= b.len() || !is_alnum_byte(b[k]) {
        k
    } else {
        alnum_run_end(b, k + 1)
    }
}

/// A `basename.ext:line` citation whose dot is at byte `i`: a word character before the
/// dot, an alphanumeric extension, a colon and at least one digit.
pub open spec fn citation_at(b: Seq<u8>, i: int) -> bool {
    let j = alnum_run_end(b, i + 1);
    &&& 0 < i < b.len()
    &&& b[i] == 46u8
    &&& (is_alnum_byte(b[i - 1]) || b[i - 1] == 95u8)
    &&& j > i + 1
    &&& j + 1 < b.len()
    &&& b[j] == 58u8
    &&& is_digit_byte(b[j + 1])
}

/// The text cites at least one `basename.ext:line`, with its dot before the last three bytes.
pub open spec fn has_file_line_citation(b: Seq<u8>) -> bool {
    exists|i: int| 0 <= i && i + 3 < b.len() && citation_at(b, i)
}

proof fn lemma_run_end(b: Seq<u8>, k: int)
    requires
        0 <= k <= b.len(),
    ensures
        k <= alnum_run_end(b, k) <= b.len(),
        forall|m: int| k <= m < alnum_run_end(b, k) ==> is_alnum_byte(b[m]),
        alnum_run_end(b, k) < b.len() ==> !is_alnum_byte(b[alnum_run_end(b, k)]),
    decreases b.len() - k,
{
    if k < b.len() && is_alnum_byte(b[k]) {
        lemma_run_end(b, k + 1);
    }
}

fn alnum_run_end_exec(b: &[u8], k: usize) -> (j: usize)
    requires
        k <= b@.len(),
    ensures
        j as int == alnum_run_end(b@, k as int),
{
    let mut j = k;
    while j < b.len()
        invariant
            k <= j <= b@.len(),
            alnum_run_end(b@, k as int) == alnum_run_end(b@, j as int),
        decreases b.len() - j,
    {
        let c = b[j];
        if !((48 <= c && c <= 57) || (65 <= c && c <= 90) || (97 <= c && c <= 122)) {
            return j;
        }
        j = j + 1;
    }
    j
}

/// True when content has at least one `basename.ext:line` citation (scout evidence).
pub fn insight_has_file_line_citation(content: &str) -> (r: bool)
    ensures
        r == has_file_line_citation(vstd::utf8::encode_utf8(content@)),
{
    let b = content.as_bytes();
    let n = b.len();
    let mut i: usize = 0;
    while n > 3 && i < n - 3
        invariant
            n == b@.len(),
            b@ == vstd::utf8::encode_utf8(content@),
            forall|m: int| 0 <= m < i ==> !citation_at(b@, m),
        decreases n - i,
    {
        if b[i] == 46u8 && i > 0 {
            let p = b[i - 1];
            if (48 <= p && p <= 57) || (65 <= p && p <= 90) || (97 <= p && p <= 122) || p == 95u8 {
                let j = alnum_run_end_exec(b, i + 1);
                proof {
                    lemma_run_end(b@, i + 1);
                }
                if j > i + 1 && j < n && n - j > 1 && b[j] == 58u8 {
                    let d = b[j + 1];
                    if 48 <= d && d <= 57 {
                        assert(citation_at(b@, i as int));
                        return true;
                    }
                }
            }
        }
        i = i + 1;
    }
    assert forall|m: int| 0 <= m && m + 3 < b@.len() implies !citation_at(b@, m) by {}
    false
}

} // verus!
