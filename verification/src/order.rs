//! The order of `String`'s `Ord` (lexicographic by code point, which is the
//! byte order of UTF-8) and sorted, duplicate-free string lists.
use vstd::prelude::*;

use crate::text::{chars_of, string_views};

verus! {

/// Strict lexicographic order on character sequences, by code point.
pub open spec fn lex_lt(a: Seq<char>, b: Seq<char>) -> bool
    decreases a.len(),
{
    if a.len() == 0 {
        b.len() > 0
    } else if b.len() == 0 {
        false
    } else if a[0] != b[0] {
        (a[0] as int) < (b[0] as int)
    } else {
        lex_lt(a.drop_first(), b.drop_first())
    }
}

/// `lex_lt` is a strict total order: exactly one of `a < b`, `a == b`,
/// `b < a` holds.
pub proof fn lemma_lex_trichotomy(a: Seq<char>, b: Seq<char>)
    ensures
        lex_lt(a, b) || a == b || lex_lt(b, a),
        !(lex_lt(a, b) && lex_lt(b, a)),
        !lex_lt(a, a),
    decreases a.len(),
{
    if a.len() > 0 {
        lemma_lex_trichotomy(a.drop_first(), a.drop_first());
    }
    if a.len() > 0 && b.len() > 0 && a[0] == b[0] {
        lemma_lex_trichotomy(a.drop_first(), b.drop_first());
        if a.drop_first() == b.drop_first() {
            assert(a =~= seq![a[0]] + a.drop_first());
            assert(b =~= seq![b[0]] + b.drop_first());
        }
    }
    if a.len() > 0 && b.len() > 0 && a[0] != b[0] {
        assert((a[0] as int) != (b[0] as int));
    }
    if a.len() == 0 && b.len() == 0 {
        assert(a =~= b);
    }
}

/// `lex_lt` is transitive.
pub proof fn lemma_lex_trans(a: Seq<char>, b: Seq<char>, c: Seq<char>)
    requires
        lex_lt(a, b),
        lex_lt(b, c),
    ensures
        lex_lt(a, c),
    decreases a.len(),
{
    if a.len() > 0 && b.len() > 0 && c.len() > 0 && a[0] == b[0] && b[0] == c[0] {
        lemma_lex_trans(a.drop_first(), b.drop_first(), c.drop_first());
    }
    if a.len() > 0 && b.len() > 0 && c.len() > 0 {
        assert((a[0] as int) != (c[0] as int) ==> a[0] != c[0]);
        if a[0] == c[0] {
            assert((a[0] as int) == (c[0] as int));
        }
    }
}

/// Compares two character sequences in `lex_lt` order.
pub fn lex_lt_exec(a: &[char], b: &[char]) -> (r: bool)
    ensures
        r == lex_lt(a@, b@),
{
    let mut i: usize = 0;
    assert(a@.skip(0) =~= a@ && b@.skip(0) =~= b@);
    while i < a.len() && i < b.len()
        invariant
            i <= a@.len(),
            i <= b@.len(),
            lex_lt(a@, b@) == lex_lt(a@.skip(i as int), b@.skip(i as int)),
        decreases a.len() - i,
    {
        assert(a@.skip(i as int)[0] == a@[i as int]);
        assert(b@.skip(i as int)[0] == b@[i as int]);
        if a[i] != b[i] {
            return a[i] < b[i];
        }
        assert(a@.skip(i as int).drop_first() =~= a@.skip(i + 1));
        assert(b@.skip(i as int).drop_first() =~= b@.skip(i + 1));
        i = i + 1;
    }
    i == a.len() && i < b.len()
}

/// The list is strictly increasing (so it holds no duplicates).
pub open spec fn sorted_strict(s: Seq<Seq<char>>) -> bool {
    forall|i: int, j: int| 0 <= i < j < s.len() ==> lex_lt(#[trigger] s[i], #[trigger] s[j])
}

/// Adds `item` to a strictly sorted list unless it is already there,
/// keeping the list strictly sorted.
pub fn insert_sorted_unique(v: &mut Vec<String>, item: String)
    requires
        sorted_strict(string_views(old(v)@)),
    ensures
        sorted_strict(string_views(final(v)@)),
        forall|x: Seq<char>|
            #![trigger string_views(final(v)@).contains(x)]
            string_views(final(v)@).contains(x) <==> (string_views(old(v)@).contains(x) || x
                == item@),
{
    let key = chars_of(item.as_str());
    let ghost old_v = string_views(v@);
    let mut k: usize = 0;
    while k < v.len()
        invariant
            k <= v@.len(),
            string_views(v@) == old_v,
            sorted_strict(old_v),
            key@ == item@,
            forall|i: int| 0 <= i < k ==> lex_lt(#[trigger] old_v[i], item@),
        ensures
            k <= v@.len(),
            string_views(v@) == old_v,
            forall|i: int| 0 <= i < k ==> lex_lt(#[trigger] old_v[i], item@),
            k < v@.len() ==> !lex_lt(old_v[k as int], item@),
        decreases v.len() - k,
    {
        let cur = chars_of(v[k].as_str());
        if !lex_lt_exec(cur.as_slice(), key.as_slice()) {
            break;
        }
        k = k + 1;
    }
    if k < v.len() {
        proof {
            lemma_lex_trichotomy(old_v[k as int], item@);
        }
        if crate::text::str_eq(v[k].as_str(), item.as_str()) {
            proof {
                assert forall|x: Seq<char>|
                    #![trigger string_views(v@).contains(x)]
                    string_views(v@).contains(x) <==> (old_v.contains(x) || x == item@) by {
                    if x == item@ {
                        assert(old_v[k as int] == x);
                    }
                }
            }
            return ;
        }
    }
    let ghost before = string_views(v@);
    v.insert(k, item);
    proof {
        let after = string_views(v@);
        assert(after.len() == before.len() + 1);
        assert forall|i: int| 0 <= i < after.len() implies #[trigger] after[i] == (if i < k {
            before[i]
        } else if i == k {
            item@
        } else {
            before[i - 1]
        }) by {}
        if k < before.len() {
            lemma_lex_trichotomy(before[k as int], item@);
        }
        assert forall|i: int, j: int| 0 <= i < j < after.len() implies lex_lt(
            #[trigger] after[i],
            #[trigger] after[j],
        ) by {
            if j < k {
                assert(before[i] == after[i] && before[j] == after[j]);
            } else if j == k {
                assert(lex_lt(before[i], item@));
            } else if i == k {
                assert(lex_lt(item@, before[k as int]));
                if j - 1 > k {
                    assert(lex_lt(before[k as int], before[j - 1]));
                    lemma_lex_trans(item@, before[k as int], before[j - 1]);
                }
            } else if i < k {
                assert(lex_lt(before[i], item@));
                assert(lex_lt(item@, before[k as int]));
                lemma_lex_trans(before[i], item@, before[k as int]);
                if j - 1 > k {
                    lemma_lex_trans(before[i], before[k as int], before[j - 1]);
                }
            } else {
                assert(lex_lt(before[i - 1], before[j - 1]));
            }
        }
        assert forall|x: Seq<char>|
            #![trigger after.contains(x)]
            after.contains(x) <==> (before.contains(x) || x == item@) by {
            if after.contains(x) {
                let i = choose|i: int| 0 <= i < after.len() && after[i] == x;
                if i < k {
                    assert(before[i] == x);
                } else if i > k {
                    assert(before[i - 1] == x);
                }
            }
            if before.contains(x) {
                let i = choose|i: int| 0 <= i < before.len() && before[i] == x;
                if i < k {
                    assert(after[i] == x);
                } else {
                    assert(after[i + 1] == x);
                }
            }
            if x == item@ {
                assert(after[k as int] == x);
            }
        }
    }
}

/// Two strictly sorted lists with the same elements are the same list.
pub proof fn lemma_sorted_strict_unique(a: Seq<Seq<char>>, b: Seq<Seq<char>>)
    requires
        sorted_strict(a),
        sorted_strict(b),
        forall|x: Seq<char>| a.contains(x) <==> b.contains(x),
    ensures
        a == b,
    decreases a.len(),
{
    if a.len() == 0 {
        if b.len() > 0 {
            assert(b.contains(b[0]));
        }
        assert(a =~= b);
    } else {
        assert(a.contains(a[0]));
        assert(b.len() > 0);
        assert(b.contains(b[0]));
        let i = choose|i: int| 0 <= i < b.len() && b[i] == a[0];
        let j = choose|j: int| 0 <= j < a.len() && a[j] == b[0];
        lemma_lex_trichotomy(a[0], b[0]);
        if a[0] != b[0] {
            assert(i > 0 && j > 0);
            assert(lex_lt(b[0], a[0]));
            assert(lex_lt(a[0], b[0]));
        }
        assert forall|x: Seq<char>| a.drop_first().contains(x) <==> b.drop_first().contains(x) by {
            if a.drop_first().contains(x) {
                let k = choose|k: int| 0 <= k < a.drop_first().len() && a.drop_first()[k] == x;
                assert(a[k + 1] == x);
                lemma_lex_trichotomy(a[0], x);
                assert(b.contains(x));
                let m = choose|m: int| 0 <= m < b.len() && b[m] == x;
                if m == 0 {
                    assert(lex_lt(a[0], a[k + 1]));
                }
                assert(b.drop_first()[m - 1] == x);
            }
            if b.drop_first().contains(x) {
                let k = choose|k: int| 0 <= k < b.drop_first().len() && b.drop_first()[k] == x;
                assert(b[k + 1] == x);
                lemma_lex_trichotomy(b[0], x);
                assert(a.contains(x));
                let m = choose|m: int| 0 <= m < a.len() && a[m] == x;
                if m == 0 {
                    assert(lex_lt(b[0], b[k + 1]));
                }
                assert(a.drop_first()[m - 1] == x);
            }
        }
        assert(sorted_strict(a.drop_first()));
        assert(sorted_strict(b.drop_first()));
        lemma_sorted_strict_unique(a.drop_first(), b.drop_first());
        assert(a =~= seq![a[0]] + a.drop_first());
        assert(b =~= seq![b[0]] + b.drop_first());
    }
}

/// Membership after a push: the old members and the pushed one.
pub proof fn lemma_contains_push(s: Seq<Seq<char>>, a: Seq<char>, x: Seq<char>)
    ensures
        s.push(a).contains(x) <==> (s.contains(x) || x == a),
{
    if s.push(a).contains(x) && x != a {
        let k = choose|k: int| 0 <= k < s.push(a).len() && s.push(a)[k] == x;
        assert(s[k] == x);
    }
    if s.contains(x) {
        let k = choose|k: int| 0 <= k < s.len() && s[k] == x;
        assert(s.push(a)[k] == x);
    }
    if x == a {
        assert(s.push(a)[s.len() as int] == x);
    }
}

/// Does the list hold a string equal to `s`?
pub fn contains_string(v: &[String], s: &str) -> (b: bool)
    ensures
        b == string_views(v@).contains(s@),
{
    let mut i: usize = 0;
    while i < v.len()
        invariant
            i <= v@.len(),
            forall|j: int| 0 <= j < i ==> v@[j]@ != s@,
        decreases v.len() - i,
    {
        if crate::text::str_eq(v[i].as_str(), s) {
            assert(string_views(v@)[i as int] == s@);
            return true;
        }
        i = i + 1;
    }
    assert(!string_views(v@).contains(s@)) by {
        if string_views(v@).contains(s@) {
            let k = choose|k: int| 0 <= k < string_views(v@).len() && string_views(v@)[k] == s@;
            assert(v@[k]@ == s@);
        }
    }
    false
}

/// Adds `item` unless an equal string is already in the list.
pub fn push_unique(v: &mut Vec<String>, item: String)
    ensures
        forall|x: Seq<char>|
            #![trigger string_views(final(v)@).contains(x)]
            string_views(final(v)@).contains(x) <==> (string_views(old(v)@).contains(x) || x
                == item@),
        string_views(old(v)@).contains(item@) ==> final(v)@ == old(v)@,
        !string_views(old(v)@).contains(item@) ==> final(v)@ == old(v)@.push(item),
{
    if !contains_string(v.as_slice(), item.as_str()) {
        let ghost before = v@;
        v.push(item);
        proof {
            assert(string_views(v@) =~= string_views(before).push(item@));
            assert forall|x: Seq<char>|
                #![trigger string_views(v@).contains(x)]
                string_views(v@).contains(x) <==> (string_views(before).contains(x) || x
                    == item@) by {
                if string_views(v@).contains(x) && x != item@ {
                    let k = choose|k: int| 0 <= k < string_views(v@).len() && string_views(v@)[k] == x;
                    assert(string_views(before)[k] == x);
                }
                if string_views(before).contains(x) {
                    let k = choose|k: int| 0 <= k < string_views(before).len() && string_views(before)[k] == x;
                    assert(string_views(v@)[k] == x);
                }
                if x == item@ {
                    assert(string_views(v@)[before.len() as int] == x);
                }
            }
        }
    }
}

} // verus!
