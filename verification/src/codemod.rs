//! Reports on codemods: which fields a rewritten snippet renamed, added or
//! removed, the markdown report per file, and the post-refactor check of a
//! field migration.
use vstd::prelude::*;

use crate::text::{
    chars_of, contains, join, lines, starts_with, str_contains, str_starts_with, string_of,
    string_views, trim, trim_exec, unicode_lower, views,
};

verus! {

pub const MAX_SNIPPET_LINES: usize = 15;

pub const MAX_SNIPPET_CHARS: usize = 2000;

/// One field-level change on one line of a rewritten snippet.
pub struct CodemodChange {
    pub line: usize,
    /// `add`, `remove`, `rename` or `rewrite`.
    pub kind: &'static str,
    pub detail: String,
}

/// A change as plain values: line, kind, detail.
pub open spec fn change_view(c: CodemodChange) -> (nat, Seq<char>, Seq<char>) {
    (c.line as nat, c.kind@, c.detail@)
}

pub open spec fn changes_view(cs: Seq<CodemodChange>) -> Seq<(nat, Seq<char>, Seq<char>)> {
    cs.map_values(|c: CodemodChange| change_view(c))
}

// ---------------------------------------------------------------------------
// Truncation
// ---------------------------------------------------------------------------

/// At most `max` characters; longer text keeps `max - 1` and gains `…`.
pub open spec fn truncate_chars_spec(s: Seq<char>, max: nat) -> Seq<char> {
    if s.len() <= max {
        s
    } else {
        s.take(if max == 0 {
            0
        } else {
            max - 1
        }) + seq!['…']
    }
}

fn truncate_chars(s: &[char], max: usize) -> (r: Vec<char>)
    ensures
        r@ == truncate_chars_spec(s@, max as nat),
{
    if s.len() <= max {
        return crate::text::copy_range(s, 0, s.len());
    }
    let keep = if max == 0 {
        0
    } else {
        max - 1
    };
    let mut r = crate::text::copy_range(s, 0, keep);
    r.push('…');
    assert(r@ =~= s@.take(keep as int) + seq!['…']);
    r
}

/// A single line, shortened to 120 characters.
pub open spec fn truncate_line_spec(line: Seq<char>) -> Seq<char> {
    truncate_chars_spec(line, 120)
}

/// The first 15 lines of a snippet, joined, shortened to 2000 characters.
pub open spec fn truncate_snippet_spec(snippet: Seq<char>) -> Seq<char> {
    let ls = lines(snippet);
    let first = if ls.len() <= 15 {
        ls
    } else {
        ls.take(15)
    };
    truncate_chars_spec(join(first, seq!['\n']), 2000)
}

fn truncate_snippet(snippet: &str) -> (r: Vec<char>)
    ensures
        r@ == truncate_snippet_spec(snippet@),
{
    let ls = crate::text::lines_exec(chars_of(snippet).as_slice());
    let n = if ls.len() < 15 {
        ls.len()
    } else {
        15
    };
    let mut first: Vec<Vec<char>> = Vec::new();
    let mut i: usize = 0;
    while i < n
        invariant
            i <= n <= ls@.len(),
            n == (if ls@.len() < 15 {
                ls@.len()
            } else {
                15
            }),
            views(first@) == views(ls@).take(i as int),
        decreases n - i,
    {
        let c = ls[i].clone();
        assert(c@ =~= ls@[i as int]@);
        let ghost before = first@;
        first.push(c);
        assert(views(first@) =~= views(before).push(ls@[i as int]@));
        assert(views(ls@).take(i + 1) =~= views(ls@).take(i as int).push(ls@[i as int]@));
        i = i + 1;
    }
    assert(views(ls@).len() <= 15 ==> views(ls@).take(n as int) =~= views(ls@));
    let mut nl: Vec<char> = Vec::new();
    nl.push('\n');
    let joined = crate::text::join_exec(first.as_slice(), nl.as_slice());
    assert(nl@ =~= seq!['\n']);
    truncate_chars(joined.as_slice(), 2000)
}

// ---------------------------------------------------------------------------
// Field changes on one line
// ---------------------------------------------------------------------------

/// Field renames a migration performs, old spelling then new.
pub open spec fn rename_pairs() -> Seq<(Seq<char>, Seq<char>)> {
    seq![
        ("headline="@, "subject="@),
        ("headline:"@, "subject:"@),
        ("message="@, "summary="@),
        ("message:"@, "summary:"@),
        ("headline ="@, "subject ="@),
        ("message ="@, "summary ="@),
        (".headline("@, ".subject("@),
        (".message("@, ".summary("@),
        (".headline ="@, ".subject ="@),
        (".message ="@, ".summary ="@),
    ]
}

/// The first rename pair (from index `i`) whose old spelling is on the
/// line before and new spelling on the line after: `old→new`.
pub open spec fn rename_from(before: Seq<char>, after: Seq<char>, i: int) -> Option<Seq<char>>
    decreases rename_pairs().len() - i,
{
    if i < 0 || i >= rename_pairs().len() {
        None
    } else {
        let (old, new) = rename_pairs()[i];
        if contains(before, old) && contains(after, new) {
            Some(old + seq!['→'] + new)
        } else {
            rename_from(before, after, i + 1)
        }
    }
}

fn rename_pairs_exec() -> (r: Vec<(&'static str, &'static str)>)
    ensures
        r@.len() == rename_pairs().len(),
        forall|i: int|
            0 <= i < r@.len() ==> (#[trigger] r@[i]).0@ == rename_pairs()[i].0 && r@[i].1@
                == rename_pairs()[i].1,
{
    let mut r: Vec<(&'static str, &'static str)> = Vec::new();
    r.push(("headline=", "subject="));
    r.push(("headline:", "subject:"));
    r.push(("message=", "summary="));
    r.push(("message:", "summary:"));
    r.push(("headline =", "subject ="));
    r.push(("message =", "summary ="));
    r.push((".headline(", ".subject("));
    r.push((".message(", ".summary("));
    r.push((".headline =", ".subject ="));
    r.push((".message =", ".summary ="));
    r
}

/// Which field rename the rewrite of a line performed, if any.
pub fn detect_rename(before: &str, after: &str) -> (r: Option<String>)
    ensures
        crate::planner::opt_view(r) == rename_from(before@, after@, 0),
{
    let pairs = rename_pairs_exec();
    let mut i: usize = 0;
    while i < pairs.len()
        invariant
            i <= pairs@.len(),
            pairs@.len() == rename_pairs().len(),
            forall|k: int|
                0 <= k < pairs@.len() ==> (#[trigger] pairs@[k]).0@ == rename_pairs()[k].0
                    && pairs@[k].1@ == rename_pairs()[k].1,
            rename_from(before@, after@, 0) == rename_from(before@, after@, i as int),
        decreases pairs.len() - i,
    {
        let (old, new) = pairs[i];
        assert(old@ == rename_pairs()[i as int].0 && new@ == rename_pairs()[i as int].1);
        if str_contains(before, old) && str_contains(after, new) {
            let mut s = old.to_owned();
            crate::text::push_char(&mut s, '→');
            s.append(new);
            assert(s@ =~= old@ + seq!['→'] + new@);
            return Some(s);
        }
        i = i + 1;
    }
    None
}

/// The removed `tags` field a line shows, by its spelling.
pub open spec fn removed_field_spec(line: Seq<char>) -> Option<Seq<char>> {
    let t = trim(line);
    if starts_with(t, "tags="@) || starts_with(t, "tags ="@) {
        Some("tags="@)
    } else if starts_with(t, "tags:"@) || starts_with(t, "tags :"@) {
        Some("tags:"@)
    } else if starts_with(t, ".tags("@) {
        Some(".tags("@)
    } else if starts_with(t, ".tags ="@) || starts_with(t, ".tags="@) {
        Some(".tags ="@)
    } else {
        None
    }
}

fn sw(s: &[char], lit: &str) -> (b: bool)
    ensures
        b == starts_with(s@, lit@),
{
    crate::text::starts_with_exec(s, chars_of(lit).as_slice())
}

/// Does the old line hold a `tags` field that the rewrite removed?
pub fn detect_removed_field(line: &str) -> (r: Option<String>)
    ensures
        crate::planner::opt_view(r) == removed_field_spec(line@),
{
    let t = trim_exec(chars_of(line).as_slice());
    let ts = t.as_slice();
    if sw(ts, "tags=") || sw(ts, "tags =") {
        Some("tags=".to_owned())
    } else if sw(ts, "tags:") || sw(ts, "tags :") {
        Some("tags:".to_owned())
    } else if sw(ts, ".tags(") {
        Some(".tags(".to_owned())
    } else if sw(ts, ".tags =") || sw(ts, ".tags=") {
        Some(".tags =".to_owned())
    } else {
        None
    }
}

/// The added `source_module` field a new line shows.
pub open spec fn added_field_spec(line: Seq<char>) -> Option<Seq<char>> {
    let t = trim(line);
    if starts_with(t, "source_module="@) || starts_with(t, "source_module ="@) {
        Some(t)
    } else if starts_with(t, "source_module:"@) || starts_with(t, "source_module :"@) || starts_with(
        t,
        "sourceModule:"@,
    ) || starts_with(t, "sourceModule :"@) || starts_with(t, ".sourceModule("@) || starts_with(
        t,
        ".source_module ="@,
    ) || starts_with(t, ".source_module="@) {
        Some(truncate_line_spec(t))
    } else {
        None
    }
}

/// Does the new line add a `source_module` field?
pub fn detect_added_field(line: &str) -> (r: Option<String>)
    ensures
        crate::planner::opt_view(r) == added_field_spec(line@),
{
    let t = trim_exec(chars_of(line).as_slice());
    let ts = t.as_slice();
    if sw(ts, "source_module=") || sw(ts, "source_module =") {
        Some(string_of(ts))
    } else if sw(ts, "source_module:") || sw(ts, "source_module :") || sw(ts, "sourceModule:")
        || sw(ts, "sourceModule :") || sw(ts, ".sourceModule(") || sw(ts, ".source_module =")
        || sw(ts, ".source_module=") {
        Some(string_of(truncate_chars(ts, 120).as_slice()))
    } else {
        None
    }
}

// ---------------------------------------------------------------------------
// Snippet diff
// ---------------------------------------------------------------------------

/// A change if there is a detail.
pub open spec fn opt_change(line: nat, kind: Seq<char>, detail: Option<Seq<char>>) -> Seq<
    (nat, Seq<char>, Seq<char>),
> {
    match detail {
        Some(d) => seq![(line, kind, d)],
        None => seq![],
    }
}

/// The changes reported for one pair of lines (old `b`, new `a`).
pub open spec fn line_changes(line: nat, b: Seq<char>, a: Seq<char>) -> Seq<
    (nat, Seq<char>, Seq<char>),
> {
    if b == a {
        seq![]
    } else if b.len() == 0 {
        opt_change(line, "add"@, added_field_spec(a))
    } else if a.len() == 0 {
        opt_change(line, "remove"@, removed_field_spec(b))
    } else if rename_from(b, a, 0) is Some {
        opt_change(line, "rename"@, rename_from(b, a, 0))
    } else if removed_field_spec(b) is Some {
        opt_change(line, "remove"@, removed_field_spec(b)) + opt_change(
            line,
            "add"@,
            added_field_spec(a),
        )
    } else {
        seq![(line, "rewrite"@, truncate_line_spec(b))]
    }
}

/// The `i`-th line, or empty past the end.
pub open spec fn line_or_empty(ls: Seq<Seq<char>>, i: int) -> Seq<char> {
    if 0 <= i < ls.len() {
        ls[i]
    } else {
        seq![]
    }
}

/// The changes of lines `0 .. n`, numbered from `start_line`.
pub open spec fn diff_upto(
    bs: Seq<Seq<char>>,
    as_: Seq<Seq<char>>,
    start_line: nat,
    n: int,
) -> Seq<(nat, Seq<char>, Seq<char>)>
    decreases n,
{
    if n <= 0 {
        seq![]
    } else {
        diff_upto(bs, as_, start_line, n - 1) + line_changes(
            (start_line + n - 1) as nat,
            line_or_empty(bs, n - 1),
            line_or_empty(as_, n - 1),
        )
    }
}

/// The field-level changes between an old and a new snippet, line by line.
pub open spec fn snippet_diff_spec(before: Seq<char>, after: Seq<char>, start_line: nat) -> Seq<
    (nat, Seq<char>, Seq<char>),
> {
    let bs = lines(before);
    let as_ = lines(after);
    let n = if bs.len() > as_.len() {
        bs.len()
    } else {
        as_.len()
    };
    diff_upto(bs, as_, start_line, n as int)
}

/// The kinds of change a codemod report uses.
pub open spec fn change_kind_ok(kind: Seq<char>) -> bool {
    kind == "add"@ || kind == "remove"@ || kind == "rename"@ || kind == "rewrite"@
}

/// A reported change sits on one of the first `n` lines from `start_line`, has a
/// known kind, and its line differs between the old and new snippets.
pub open spec fn change_on_changed_line(
    c: (nat, Seq<char>, Seq<char>),
    bs: Seq<Seq<char>>,
    as_: Seq<Seq<char>>,
    start_line: nat,
    n: int,
) -> bool {
    &&& start_line <= c.0 < start_line + n
    &&& change_kind_ok(c.1)
    &&& line_or_empty(bs, c.0 - start_line) != line_or_empty(as_, c.0 - start_line)
}

proof fn lemma_diff_upto_shape(bs: Seq<Seq<char>>, as_: Seq<Seq<char>>, start_line: nat, n: int)
    ensures
        forall|k: int|
            0 <= k < diff_upto(bs, as_, start_line, n).len() ==> change_on_changed_line(
                #[trigger] diff_upto(bs, as_, start_line, n)[k],
                bs,
                as_,
                start_line,
                n,
            ),
        forall|k1: int, k2: int|
            0 <= k1 < k2 < diff_upto(bs, as_, start_line, n).len() ==> (#[trigger] diff_upto(
                bs,
                as_,
                start_line,
                n,
            )[k1]).0 <= (#[trigger] diff_upto(bs, as_, start_line, n)[k2]).0,
    decreases n,
{
    if n > 0 {
        lemma_diff_upto_shape(bs, as_, start_line, n - 1);
        let prev = diff_upto(bs, as_, start_line, n - 1);
        let here = line_changes(
            (start_line + n - 1) as nat,
            line_or_empty(bs, n - 1),
            line_or_empty(as_, n - 1),
        );
        let all = diff_upto(bs, as_, start_line, n);
        assert(all =~= prev + here);
        assert forall|k: int| 0 <= k < all.len() implies change_on_changed_line(
            #[trigger] all[k],
            bs,
            as_,
            start_line,
            n,
        ) by {
            if k < prev.len() {
                assert(all[k] == prev[k]);
                assert(change_on_changed_line(prev[k], bs, as_, start_line, n - 1));
            } else {
                assert(all[k] == here[k - prev.len()]);
                assert(line_or_empty(bs, n - 1) != line_or_empty(as_, n - 1));
                assert(all[k].0 == start_line + (n - 1));
                assert(change_kind_ok(all[k].1));
            }
        }
        assert forall|k1: int, k2: int| 0 <= k1 < k2 < all.len() implies (#[trigger] all[k1]).0
            <= (#[trigger] all[k2]).0 by {
            if k2 < prev.len() {
                assert(all[k1] == prev[k1] && all[k2] == prev[k2]);
            } else if k1 < prev.len() {
                assert(all[k1] == prev[k1]);
                assert(change_on_changed_line(prev[k1], bs, as_, start_line, n - 1));
                assert(all[k2] == here[k2 - prev.len()]);
                assert(all[k2].0 == start_line + (n - 1));
            } else {
                assert(all[k1] == here[k1 - prev.len()]);
                assert(all[k2] == here[k2 - prev.len()]);
                assert(all[k1].0 == start_line + (n - 1));
                assert(all[k2].0 == start_line + (n - 1));
            }
        }
    }
}

/// A codemod report speaks only of lines the rewrite changed: every change is
/// numbered with one of the snippet's lines (counted from `start_line`) whose
/// old and new text differ, its kind is `add`, `remove`, `rename` or
/// `rewrite`, the changes come in line order, and an unchanged snippet reports
/// nothing.
pub proof fn snippet_diff_only_changed_lines(before: Seq<char>, after: Seq<char>, start_line: nat)
    ensures
        forall|k: int|
            0 <= k < snippet_diff_spec(before, after, start_line).len() ==> change_on_changed_line(
                #[trigger] snippet_diff_spec(before, after, start_line)[k],
                lines(before),
                lines(after),
                start_line,
                if lines(before).len() > lines(after).len() {
                    lines(before).len() as int
                } else {
                    lines(after).len() as int
                },
            ),
        forall|k1: int, k2: int|
            0 <= k1 < k2 < snippet_diff_spec(before, after, start_line).len() ==> (
            #[trigger] snippet_diff_spec(before, after, start_line)[k1]).0 <= (
            #[trigger] snippet_diff_spec(before, after, start_line)[k2]).0,
        snippet_diff_spec(before, before, start_line).len() == 0,
{
    let bs = lines(before);
    let as_ = lines(after);
    let n = if bs.len() > as_.len() {
        bs.len()
    } else {
        as_.len()
    };
    lemma_diff_upto_shape(bs, as_, start_line, n as int);
    let m = lines(before).len();
    lemma_diff_upto_shape(bs, bs, start_line, m as int);
    let d = snippet_diff_spec(before, before, start_line);
    if d.len() > 0 {
        assert(d[0] == diff_upto(bs, bs, start_line, m as int)[0]);
        assert(change_on_changed_line(d[0], bs, bs, start_line, m as int));
    }
}

fn push_change(changes: &mut Vec<CodemodChange>, line: usize, kind: &'static str, detail: Option<
    String,
>)
    ensures
        changes_view(final(changes)@) == changes_view(old(changes)@) + opt_change(
            line as nat,
            kind@,
            crate::planner::opt_view(detail),
        ),
{
    let ghost before = old(changes)@;
    match detail {
        Some(d) => {
            let c = CodemodChange { line, kind, detail: d };
            changes.push(c);
            assert(changes_view(changes@) =~= changes_view(before).push(change_view(c)));
        },
        None => {
            assert(changes_view(changes@) =~= changes_view(before));
        },
    }
}

/// Summarises a codemod's rewrite of a snippet as field-level changes.
pub fn summarize_snippet_diff(before: &str, after: &str, start_line: usize) -> (r: Vec<
    CodemodChange,
>)
    requires
        start_line + lines(before@).len() + lines(after@).len() <= usize::MAX,
    ensures
        changes_view(r@) == snippet_diff_spec(before@, after@, start_line as nat),
{
    let bs = crate::text::lines_exec(chars_of(before).as_slice());
    let as_ = crate::text::lines_exec(chars_of(after).as_slice());
    let ghost bv = views(bs@);
    let ghost av = views(as_@);
    let max = if bs.len() > as_.len() {
        bs.len()
    } else {
        as_.len()
    };
    let mut changes: Vec<CodemodChange> = Vec::new();
    let mut i: usize = 0;
    while i < max
        invariant
            i <= max,
            max == (if bv.len() > av.len() {
                bv.len()
            } else {
                av.len()
            }),
            bv == views(bs@),
            av == views(as_@),
            bv == lines(before@),
            av == lines(after@),
            start_line + bv.len() + av.len() <= usize::MAX,
            changes_view(changes@) == diff_upto(bv, av, start_line as nat, i as int),
        decreases max - i,
    {
        let line_no = start_line + i;
        let b: String = if i < bs.len() {
            string_of(bs[i].as_slice())
        } else {
            String::new()
        };
        let a: String = if i < as_.len() {
            string_of(as_[i].as_slice())
        } else {
            String::new()
        };
        assert(b@ == line_or_empty(bv, i as int));
        assert(a@ == line_or_empty(av, i as int));
        let ghost prev = changes_view(changes@);
        if crate::text::str_eq(b.as_str(), a.as_str()) {
        } else if b.as_str().is_empty() {
            push_change(&mut changes, line_no, "add", detect_added_field(a.as_str()));
        } else if a.as_str().is_empty() {
            push_change(&mut changes, line_no, "remove", detect_removed_field(b.as_str()));
        } else {
            match detect_rename(b.as_str(), a.as_str()) {
                Some(detail) => {
                    push_change(&mut changes, line_no, "rename", Some(detail));
                },
                None => {
                    match detect_removed_field(b.as_str()) {
                        Some(removed) => {
                            push_change(&mut changes, line_no, "remove", Some(removed));
                            push_change(
                                &mut changes,
                                line_no,
                                "add",
                                detect_added_field(a.as_str()),
                            );
                        },
                        None => {
                            let t = truncate_chars(chars_of(b.as_str()).as_slice(), 120);
                            push_change(
                                &mut changes,
                                line_no,
                                "rewrite",
                                Some(string_of(t.as_slice())),
                            );
                        },
                    }
                },
            }
        }
        proof {
            assert(changes_view(changes@) =~= prev + line_changes(
                line_no as nat,
                line_or_empty(bv, i as int),
                line_or_empty(av, i as int),
            ));
        }
        i = i + 1;
    }
    changes
}

// ---------------------------------------------------------------------------
// Report
// ---------------------------------------------------------------------------

/// One report line per change.
pub open spec fn change_lines(cs: Seq<(nat, Seq<char>, Seq<char>)>) -> Seq<char>
    decreases cs.len(),
{
    if cs.len() == 0 {
        seq![]
    } else {
        change_lines(cs.drop_last()) + "- L"@ + crate::text::decimal(cs.last().0) + " "@
            + cs.last().1 + ": "@ + cs.last().2 + "\n"@
    }
}

/// The markdown section for one rewritten file.
pub open spec fn change_report_spec(
    path: Seq<char>,
    start: nat,
    end: nat,
    changes: Seq<(nat, Seq<char>, Seq<char>)>,
    after: Seq<char>,
) -> Seq<char> {
    "## Codemod: "@ + path + " (lines "@ + crate::text::decimal(start) + "-"@
        + crate::text::decimal(end) + ")\n"@ + (if changes.len() == 0 {
        "- (no line-level field diff detected)\n"@
    } else {
        change_lines(changes)
    }) + "After:\n```\n"@ + truncate_snippet_spec(after) + "\n```\n"@
}

/// Formats the report of one codemod.
pub fn format_change_report(
    path: &str,
    start: usize,
    end: usize,
    changes: &[CodemodChange],
    after: &str,
) -> (r: String)
    ensures
        r@ == change_report_spec(path@, start as nat, end as nat, changes_view(changes@), after@),
{
    let mut out = "## Codemod: ".to_owned();
    out.append(path);
    out.append(" (lines ");
    out.append(crate::text::fmt_usize(start).as_str());
    out.append("-");
    out.append(crate::text::fmt_usize(end).as_str());
    out.append(")\n");
    if changes.len() == 0 {
        out.append("- (no line-level field diff detected)\n");
    } else {
        let ghost head = out@;
        let mut i: usize = 0;
        while i < changes.len()
            invariant
                i <= changes@.len(),
                out@ == head + change_lines(changes_view(changes@).take(i as int)),
            decreases changes.len() - i,
        {
            assert(changes_view(changes@).take(i + 1).drop_last() =~= changes_view(
                changes@,
            ).take(i as int));
            let c = &changes[i];
            out.append("- L");
            out.append(crate::text::fmt_usize(c.line).as_str());
            out.append(" ");
            out.append(c.kind);
            out.append(": ");
            out.append(c.detail.as_str());
            out.append("\n");
            i = i + 1;
        }
        assert(changes_view(changes@).take(changes@.len() as int) =~= changes_view(changes@));
    }
    out.append("After:\n```\n");
    let snip = truncate_snippet(after);
    out.append(string_of(snip.as_slice()).as_str());
    out.append("\n```\n");
    out
}

/// No line of the verification report starts with `✗`.
pub open spec fn verification_passed_spec(report: Seq<char>) -> bool {
    report.len() == 0 || forall|i: int|
        0 <= i < lines(report).len() ==> !starts_with(#[trigger] lines(report)[i], seq!['✗'])
}

/// Did every check of a refactor verification pass?
pub fn verification_passed(report: &str) -> (b: bool)
    ensures
        b == verification_passed_spec(report@),
{
    if report.is_empty() {
        return true;
    }
    let ls = crate::text::lines_exec(chars_of(report).as_slice());
    let mut cross: Vec<char> = Vec::new();
    cross.push('✗');
    assert(cross@ =~= seq!['✗']);
    let mut i: usize = 0;
    while i < ls.len()
        invariant
            i <= ls@.len(),
            views(ls@) == lines(report@),
            cross@ == seq!['✗'],
            forall|j: int| 0 <= j < i ==> !starts_with(#[trigger] lines(report@)[j], seq!['✗']),
        decreases ls.len() - i,
    {
        assert(lines(report@)[i as int] == ls@[i as int]@);
        if crate::text::starts_with_exec(ls[i].as_slice(), cross.as_slice()) {
            return false;
        }
        i = i + 1;
    }
    true
}

// ---------------------------------------------------------------------------
// Field-migration check
// ---------------------------------------------------------------------------

/// One check of a field migration: label, field pattern, and whether the
/// field must be present (or absent) in every rewritten file.
pub struct MigrationRule {
    pub label: &'static str,
    pub pattern: &'static str,
    pub must_be_present: bool,
}

pub open spec fn rule_view(r: MigrationRule) -> (Seq<char>, Seq<char>, bool) {
    (r.label@, r.pattern@, r.must_be_present)
}

/// Java and Kotlin files use builder-style fields.
pub open spec fn java_style_spec(paths: Seq<Seq<char>>) -> bool {
    paths.len() > 0 && forall|i: int|
        0 <= i < paths.len() ==> (#[trigger] crate::paths::extension(paths[i]) == Some("java"@)
            || crate::paths::extension(paths[i]) == Some("kt"@))
}

/// A rule when one of its trigger words occurs in the instruction.
pub open spec fn rule_if(
    mentioned: bool,
    java: bool,
    pattern: Seq<char>,
    java_pattern: Seq<char>,
    label: Seq<char>,
    java_label: Seq<char>,
    must: bool,
) -> Seq<(Seq<char>, Seq<char>, bool)> {
    if mentioned {
        seq![(if java {
            java_label
        } else {
            label
        }, if java {
            java_pattern
        } else {
            pattern
        }, must)]
    } else {
        seq![]
    }
}

/// The checks implied by an instruction (lowercased), in order.
pub open spec fn migration_rules_spec(lower: Seq<char>, java: bool) -> Seq<
    (Seq<char>, Seq<char>, bool),
> {
    rule_if(
        contains(lower, "subject"@) || contains(lower, "headline"@),
        java,
        "subject"@,
        "subject"@,
        "subject:/subject= present in call sites"@,
        ".subject( present in call sites"@,
        true,
    ) + rule_if(
        contains(lower, "summary"@) || contains(lower, "message"@),
        java,
        "summary"@,
        "summary"@,
        "summary:/summary= present in call sites"@,
        ".summary( present in call sites"@,
        true,
    ) + rule_if(
        contains(lower, "source_module"@) || contains(lower, "sourcemodule"@),
        java,
        "source_module"@,
        "sourceModule"@,
        "source_module present in call sites"@,
        "sourceModule: present in call sites"@,
        true,
    ) + rule_if(
        contains(lower, "tags"@),
        java,
        "tags"@,
        "tags"@,
        "tags= absent in call sites"@,
        ".tags( absent in call sites"@,
        false,
    )
}

fn push_rule_if(
    rules: &mut Vec<MigrationRule>,
    mentioned: bool,
    java: bool,
    pattern: &'static str,
    java_pattern: &'static str,
    label: &'static str,
    java_label: &'static str,
    must: bool,
)
    ensures
        final(rules)@.map_values(|r: MigrationRule| rule_view(r)) == old(rules)@.map_values(
            |r: MigrationRule| rule_view(r),
        ) + rule_if(mentioned, java, pattern@, java_pattern@, label@, java_label@, must),
{
    let ghost before = old(rules)@;
    if mentioned {
        let r = MigrationRule {
            label: if java {
                java_label
            } else {
                label
            },
            pattern: if java {
                java_pattern
            } else {
                pattern
            },
            must_be_present: must,
        };
        rules.push(r);
        assert(rules@.map_values(|r: MigrationRule| rule_view(r)) =~= before.map_values(
            |r: MigrationRule| rule_view(r),
        ).push(rule_view(r)));
    } else {
        assert(rules@.map_values(|r: MigrationRule| rule_view(r)) =~= before.map_values(
            |r: MigrationRule| rule_view(r),
        ));
    }
}

fn java_style(paths: &[String]) -> (b: bool)
    ensures
        b == java_style_spec(string_views(paths@)),
{
    if paths.len() == 0 {
        return false;
    }
    let mut i: usize = 0;
    while i < paths.len()
        invariant
            i <= paths@.len(),
            forall|j: int|
                0 <= j < i ==> (#[trigger] crate::paths::extension(string_views(paths@)[j])
                    == Some("java"@) || crate::paths::extension(string_views(paths@)[j]) == Some(
                    "kt"@,
                )),
        decreases paths.len() - i,
    {
        assert(string_views(paths@)[i as int] == paths@[i as int]@);
        let ok = match crate::paths::extension_exec(chars_of(paths[i].as_str()).as_slice()) {
            Some(e) => {
                let es = string_of(e.as_slice());
                crate::text::str_eq(es.as_str(), "java") || crate::text::str_eq(es.as_str(), "kt")
            },
            None => false,
        };
        if !ok {
            return false;
        }
        i = i + 1;
    }
    true
}

/// The checks a field-migration instruction implies.
pub fn migration_rules(instruction: &str, paths: &[String]) -> (r: Vec<MigrationRule>)
    ensures
        r@.map_values(|r: MigrationRule| rule_view(r)) == migration_rules_spec(
            unicode_lower(instruction@),
            java_style_spec(string_views(paths@)),
        ),
{
    let lower = crate::text::to_lowercase(instruction);
    let l = lower.as_str();
    let java = java_style(paths);
    let mut rules: Vec<MigrationRule> = Vec::new();
    assert(rules@.map_values(|r: MigrationRule| rule_view(r)) =~= seq![]);
    push_rule_if(
        &mut rules,
        str_contains(l, "subject") || str_contains(l, "headline"),
        java,
        "subject",
        "subject",
        "subject:/subject= present in call sites",
        ".subject( present in call sites",
        true,
    );
    push_rule_if(
        &mut rules,
        str_contains(l, "summary") || str_contains(l, "message"),
        java,
        "summary",
        "summary",
        "summary:/summary= present in call sites",
        ".summary( present in call sites",
        true,
    );
    push_rule_if(
        &mut rules,
        str_contains(l, "source_module") || str_contains(l, "sourcemodule"),
        java,
        "source_module",
        "sourceModule",
        "source_module present in call sites",
        "sourceModule: present in call sites",
        true,
    );
    push_rule_if(
        &mut rules,
        str_contains(l, "tags"),
        java,
        "tags",
        "tags",
        "tags= absent in call sites",
        ".tags( absent in call sites",
        false,
    );
    assert(seq![] + migration_rules_spec(lower@, java) =~= migration_rules_spec(lower@, java));
    rules
}

/// The spellings that show a field in a file.
pub open spec fn matches_rule_spec(content: Seq<char>, pattern: Seq<char>) -> bool {
    if pattern == "subject"@ {
        contains(content, "subject:"@) || contains(content, "subject="@) || contains(
            content,
            ".subject("@,
        ) || contains(content, ".subject ="@)
    } else if pattern == "summary"@ {
        contains(content, "summary:"@) || contains(content, "summary="@) || contains(
            content,
            ".summary("@,
        ) || contains(content, ".summary ="@)
    } else if pattern == "source_module"@ {
        contains(content, "source_module="@) || contains(content, "source_module:"@) || contains(
            content,
            ".source_module ="@,
        )
    } else if pattern == "sourceModule"@ {
        contains(content, "sourceModule:"@) || contains(content, ".sourceModule("@)
    } else if pattern == "tags"@ {
        contains(content, "tags="@) || contains(content, "tags:"@) || contains(content, ".tags("@)
            || contains(content, ".tags ="@)
    } else {
        false
    }
}

/// Does the file content show the rule's field?
pub fn content_matches_rule(content: &str, pattern: &str) -> (b: bool)
    ensures
        b == matches_rule_spec(content@, pattern@),
{
    let c = content;
    if crate::text::str_eq(pattern, "subject") {
        str_contains(c, "subject:") || str_contains(c, "subject=") || str_contains(c, ".subject(")
            || str_contains(c, ".subject =")
    } else if crate::text::str_eq(pattern, "summary") {
        str_contains(c, "summary:") || str_contains(c, "summary=") || str_contains(c, ".summary(")
            || str_contains(c, ".summary =")
    } else if crate::text::str_eq(pattern, "source_module") {
        str_contains(c, "source_module=") || str_contains(c, "source_module:") || str_contains(
            c,
            ".source_module =",
        )
    } else if crate::text::str_eq(pattern, "sourceModule") {
        str_contains(c, "sourceModule:") || str_contains(c, ".sourceModule(")
    } else if crate::text::str_eq(pattern, "tags") {
        str_contains(c, "tags=") || str_contains(c, "tags:") || str_contains(c, ".tags(")
            || str_contains(c, ".tags =")
    } else {
        false
    }
}

/// Files (among those read) where the rule holds.
pub open spec fn rule_hits(contents: Seq<Option<Seq<char>>>, pattern: Seq<char>, must: bool) -> nat
    decreases contents.len(),
{
    if contents.len() == 0 {
        0
    } else {
        rule_hits(contents.drop_last(), pattern, must) + match contents.last() {
            Some(c) => if matches_rule_spec(c, pattern) == must {
                1nat
            } else {
                0nat
            },
            None => 0nat,
        }
    }
}

/// One report line per rule: `✓` when it holds in every file, else `✗`.
pub open spec fn rule_lines(
    rules: Seq<(Seq<char>, Seq<char>, bool)>,
    contents: Seq<Option<Seq<char>>>,
) -> Seq<char>
    decreases rules.len(),
{
    if rules.len() == 0 {
        seq![]
    } else {
        let (label, pattern, must) = rules.last();
        let hits = rule_hits(contents, pattern, must);
        let total = contents.len();
        rule_lines(rules.drop_last(), contents) + (if hits == total && total > 0 {
            seq!['✓']
        } else {
            seq!['✗']
        }) + " "@ + label + " "@ + crate::text::decimal(hits) + "/"@ + crate::text::decimal(
            total,
        ) + " files\n"@
    }
}

pub open spec fn opt_views(v: Seq<Option<String>>) -> Seq<Option<Seq<char>>> {
    v.map_values(|o: Option<String>| crate::planner::opt_view(o))
}

/// The check of a field migration over the rewritten files: for each rule
/// the instruction implies, in how many files the field is present (or
/// absent) as required. `contents` holds each file's text (`None`: it
/// could not be read). Empty when the instruction implies no rule.
pub open spec fn verify_migration_spec(
    paths: Seq<Seq<char>>,
    contents: Seq<Option<Seq<char>>>,
    instruction: Seq<char>,
) -> Seq<char> {
    let rules = migration_rules_spec(unicode_lower(instruction), java_style_spec(paths));
    if rules.len() == 0 {
        seq![]
    } else {
        "## Refactor verification\n"@ + rule_lines(rules, contents)
    }
}

/// Checks a field migration over the rewritten files.
#[verifier::rlimit(100)]
pub fn verify_field_migration(paths: &[String], contents: &[Option<String>], instruction: &str) -> (r:
    String)
    requires
        contents@.len() == paths@.len(),
    ensures
        r@ == verify_migration_spec(string_views(paths@), opt_views(contents@), instruction@),
{
    let rules = migration_rules(instruction, paths);
    if rules.len() == 0 {
        return String::new();
    }
    let ghost rv = rules@.map_values(|r: MigrationRule| rule_view(r));
    let ghost cv = opt_views(contents@);
    let mut out = "## Refactor verification\n".to_owned();
    let ghost head = out@;
    let total = paths.len();
    let mut k: usize = 0;
    while k < rules.len()
        invariant
            k <= rules@.len(),
            rv == rules@.map_values(|r: MigrationRule| rule_view(r)),
            cv == opt_views(contents@),
            total == contents@.len(),
            out@ == head + rule_lines(rv.take(k as int), cv),
        decreases rules.len() - k,
    {
        let rule = &rules[k];
        assert(rv.take(k + 1).drop_last() =~= rv.take(k as int));
        assert(rv.take(k + 1).last() == rule_view(*rule));
        let mut hits: usize = 0;
        let mut i: usize = 0;
        while i < contents.len()
            invariant
                i <= contents@.len(),
                cv == opt_views(contents@),
                hits == rule_hits(cv.take(i as int), rule.pattern@, rule.must_be_present),
                hits <= i,
            decreases contents.len() - i,
        {
            assert(cv.take(i + 1).drop_last() =~= cv.take(i as int));
            assert(cv.take(i + 1).last() == crate::planner::opt_view(contents@[i as int]));
            match &contents[i] {
                Some(c) => {
                    if content_matches_rule(c.as_str(), rule.pattern) == rule.must_be_present {
                        hits = hits + 1;
                    }
                },
                None => {},
            }
            i = i + 1;
        }
        assert(cv.take(cv.len() as int) =~= cv);
        if hits == total && total > 0 {
            crate::text::push_char(&mut out, '✓');
        } else {
            crate::text::push_char(&mut out, '✗');
        }
        out.append(" ");
        out.append(rule.label);
        out.append(" ");
        out.append(crate::text::fmt_usize(hits).as_str());
        out.append("/");
        out.append(crate::text::fmt_usize(total).as_str());
        out.append(" files\n");
        k = k + 1;
        assert(out@ =~= head + rule_lines(rv.take(k as int), cv));
    }
    assert(rv.take(rv.len() as int) =~= rv);
    out
}

} // verus!
