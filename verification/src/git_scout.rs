//! What the git janitor's scout hands the model: the conventions in force,
//! the branch gate, recent commits, the diffs (cut to a byte budget), the
//! repository's templates and a suggested conventions file.
use vstd::prelude::*;

use crate::git_janitor::{BranchGate, GitConventions, ADJUTANT_TOML};
use crate::text::{chars_of, prefix_within, string_of, utf8_len};

verus! {

/// One template file of the repository (a PR template, a commitlint config).
pub struct TemplateSnippet {
    pub path: String,
    pub content: String,
}

/// What the scout gathered about the repository.
pub struct GitJanitorScout {
    pub conventions: GitConventions,
    pub conventions_from_disk: bool,
    pub conventions_path: Option<String>,
    pub templates: Vec<TemplateSnippet>,
    pub recent_commits: String,
    pub unstaged_diff: String,
    pub staged_diff: String,
    pub branch_gate: BranchGate,
    pub suggested_adjutant_toml: String,
}

/// A diff is shown up to this many bytes.
pub const DIFF_SHOWN_MAX: usize = 12000;

/// A diff can be cut at its byte budget: it fits, or a character boundary lies
/// exactly there.
pub open spec fn diff_cut_ok(d: Seq<char>) -> bool {
    utf8_len(d) <= DIFF_SHOWN_MAX as nat || exists|k: int|
        0 <= k <= d.len() && utf8_len(#[trigger] d.take(k)) == DIFF_SHOWN_MAX as nat
}

/// How a diff is shown: `(empty)` when there is none, else its first
/// `DIFF_SHOWN_MAX` bytes.
pub open spec fn diff_shown(d: Seq<char>) -> Seq<char> {
    if d.len() == 0 {
        "(empty)"@
    } else if utf8_len(d) > DIFF_SHOWN_MAX as nat {
        d.take(choose|k: int| 0 <= k <= d.len() && utf8_len(d.take(k)) == DIFF_SHOWN_MAX as nat)
    } else {
        d
    }
}

proof fn lemma_exact_prefix(s: Seq<char>, max: nat, k: int, j: int)
    requires
        crate::text::is_prefix_within(s, max, k),
        0 <= j <= s.len(),
        utf8_len(s.take(j)) == max,
    ensures
        k == j,
{
    if k < j {
        crate::text::lemma_utf8_len_take_mono(s, k + 1, j);
    } else if k > j {
        crate::text::lemma_utf8_len_take_step(s, j);
        crate::text::lemma_utf8_len_take_mono(s, j + 1, k);
        assert(crate::text::char_len8(s[j]) >= 1);
    }
}

fn diff_shown_exec(d: &str) -> (r: String)
    requires
        diff_cut_ok(d@),
    ensures
        r@ == diff_shown(d@),
{
    if d.is_empty() {
        return "(empty)".to_owned();
    }
    let c = chars_of(d);
    let k = prefix_within(c.as_slice(), DIFF_SHOWN_MAX);
    proof {
        if utf8_len(d@) > DIFF_SHOWN_MAX as nat {
            let j = choose|j: int| 0 <= j <= d@.len() && utf8_len(d@.take(j)) == DIFF_SHOWN_MAX as nat;
            lemma_exact_prefix(d@, DIFF_SHOWN_MAX as nat, k as int, j);
        } else {
            assert(d@.take(d@.len() as int) =~= d@);
            if (k as int) < d@.len() {
                crate::text::lemma_utf8_len_take_mono(d@, k + 1, d@.len() as int);
            }
        }
    }
    let t = crate::text::copy_range(c.as_slice(), 0, k);
    assert(t@ =~= d@.take(k as int));
    string_of(t.as_slice())
}

/// The template sections, in order.
pub open spec fn templates_text(ts: Seq<TemplateSnippet>) -> Seq<char>
    decreases ts.len(),
{
    if ts.len() == 0 {
        Seq::empty()
    } else {
        templates_text(ts.drop_last()) + "\n\n## Template "@ + ts.last().path@ + "\n"@ + ts.last().content@
    }
}

/// The conventions section of the scout's report.
pub open spec fn conventions_section(s: GitJanitorScout) -> Seq<char> {
    "## Conventions\n"@ + (if s.conventions_from_disk {
        "Loaded from "@ + (match s.conventions_path {
            Some(p) => p@,
            None => ADJUTANT_TOML@,
        }) + "\n"@
    } else {
        "No local file — using Conventional Commits defaults.\n"@
    }) + "style="@ + s.conventions.git_rules.commit_style@ + " ticket_regex="@
        + s.conventions.git_rules.ticket_regex@ + " require_ticket="@ + (if s.conventions.git_rules.require_ticket_in_commit {
        "true"@
    } else {
        "false"@
    }) + " pattern="@ + s.conventions.commit_format.pattern@ + "\n"@
}

/// The branch gate and recent commits sections.
pub open spec fn gate_section(s: GitJanitorScout, gate_json: Seq<char>) -> Seq<char> {
    "\n## Branch gate\n"@ + gate_json + "\n\n## Recent commits\n"@ + (if s.recent_commits@.len() == 0 {
        "(none)"@
    } else {
        s.recent_commits@
    })
}

/// The diff sections.
pub open spec fn diff_section(s: GitJanitorScout) -> Seq<char> {
    "\n\n## Staged diff\n"@ + diff_shown(s.staged_diff@) + "\n\n## Unstaged diff\n"@ + diff_shown(
        s.unstaged_diff@,
    )
}

/// The scout's report to the model. `gate_json` is the branch gate written as
/// pretty JSON.
pub open spec fn scout_block_spec(s: GitJanitorScout, gate_json: Seq<char>) -> Seq<char> {
    conventions_section(s) + gate_section(s, gate_json) + diff_section(s) + templates_text(s.templates@)
        + "\n\n## Suggested .adjutant.toml\n```toml\n"@ + s.suggested_adjutant_toml@ + "\n```\n"@
}

fn conventions_section_exec(scout: &GitJanitorScout) -> (r: String)
    ensures
        r@ == conventions_section(*scout),
{
    let mut buf = "## Conventions\n".to_owned();
    if scout.conventions_from_disk {
        buf.append("Loaded from ");
        match &scout.conventions_path {
            Some(p) => buf.append(p.as_str()),
            None => buf.append(ADJUTANT_TOML),
        }
        buf.append("\n");
    } else {
        buf.append("No local file — using Conventional Commits defaults.\n");
    }
    buf.append("style=");
    buf.append(scout.conventions.git_rules.commit_style.as_str());
    buf.append(" ticket_regex=");
    buf.append(scout.conventions.git_rules.ticket_regex.as_str());
    buf.append(" require_ticket=");
    if scout.conventions.git_rules.require_ticket_in_commit {
        buf.append("true");
    } else {
        buf.append("false");
    }
    buf.append(" pattern=");
    buf.append(scout.conventions.commit_format.pattern.as_str());
    buf.append("\n");
    buf
}

fn gate_section_exec(scout: &GitJanitorScout, gate_json: &str) -> (r: String)
    ensures
        r@ == gate_section(*scout, gate_json@),
{
    let mut buf = "\n## Branch gate\n".to_owned();
    buf.append(gate_json);
    buf.append("\n\n## Recent commits\n");
    if scout.recent_commits.as_str().is_empty() {
        buf.append("(none)");
    } else {
        buf.append(scout.recent_commits.as_str());
    }
    buf
}

fn diff_section_exec(scout: &GitJanitorScout) -> (r: String)
    requires
        diff_cut_ok(scout.staged_diff@),
        diff_cut_ok(scout.unstaged_diff@),
    ensures
        r@ == diff_section(*scout),
{
    let mut buf = "\n\n## Staged diff\n".to_owned();
    buf.append(diff_shown_exec(scout.staged_diff.as_str()).as_str());
    buf.append("\n\n## Unstaged diff\n");
    buf.append(diff_shown_exec(scout.unstaged_diff.as_str()).as_str());
    buf
}

fn templates_exec(ts: &Vec<TemplateSnippet>) -> (r: String)
    ensures
        r@ == templates_text(ts@),
{
    let mut buf = String::new();
    let mut i: usize = 0;
    while i < ts.len()
        invariant
            i <= ts@.len(),
            buf@ == templates_text(ts@.take(i as int)),
        decreases ts.len() - i,
    {
        assert(ts@.take(i + 1).drop_last() =~= ts@.take(i as int));
        let t = &ts[i];
        buf.append("\n\n## Template ");
        buf.append(t.path.as_str());
        buf.append("\n");
        buf.append(t.content.as_str());
        i = i + 1;
    }
    assert(ts@.take(ts@.len() as int) =~= ts@);
    buf
}

/// Formats the scout's report (see `scout_block_spec`); `gate_json` is the
/// branch gate as pretty JSON. A diff is cut at its byte budget, which must
/// fall on a character boundary.
pub fn format_scout_block(scout: &GitJanitorScout, gate_json: &str) -> (r: String)
    requires
        diff_cut_ok(scout.staged_diff@),
        diff_cut_ok(scout.unstaged_diff@),
    ensures
        r@ == scout_block_spec(*scout, gate_json@),
{
    let mut buf = conventions_section_exec(scout);
    buf.append(gate_section_exec(scout, gate_json).as_str());
    buf.append(diff_section_exec(scout).as_str());
    buf.append(templates_exec(&scout.templates).as_str());
    buf.append("\n\n## Suggested .adjutant.toml\n```toml\n");
    buf.append(scout.suggested_adjutant_toml.as_str());
    buf.append("\n```\n");
    buf
}

} // verus!
