//! Git conventions, ticket ids, and the branch gate that decides whether a
//! commit may go on the current branch.
use vstd::prelude::*;

use crate::json::JsonValue;
use crate::llm::{LlmToolSet, ToolDefinition};
use crate::text::{
    chars_of, copy_range, lower_ascii, lower_ascii_char, lower_ascii_exec, push_char, string_of,
    trim, trim_exec,
};

verus! {

pub const ADJUTANT_TOML: &'static str = ".adjutant.toml";

pub const GITJANITOR_JSON: &'static str = ".gitjanitor.json";

pub const DEFAULT_TICKET_REGEX: &'static str = "([A-Z]+-\\d+)";

// ---------------------------------------------------------------------------
// Conventions
// ---------------------------------------------------------------------------

/// Branch and commit rules of a repository.
pub struct GitRules {
    pub commit_style: String,
    pub ticket_regex: String,
    pub require_ticket_in_commit: bool,
}

/// The commit message pattern, with `{ticket}`, `{type}` and `{summary}`.
pub struct CommitFormat {
    pub pattern: String,
}

/// Pull-request settings.
pub struct PrConfig {
    pub template_file: String,
}

/// Everything the janitor follows when it writes commits and PRs.
pub struct GitConventions {
    pub git_rules: GitRules,
    pub commit_format: CommitFormat,
    pub pr: PrConfig,
}

impl Default for GitRules {
    fn default() -> (r: Self)
        ensures
            r.commit_style@ == "conventional"@,
            r.ticket_regex@ == DEFAULT_TICKET_REGEX@,
            r.require_ticket_in_commit,
    {
        GitRules {
            commit_style: "conventional".to_owned(),
            ticket_regex: DEFAULT_TICKET_REGEX.to_owned(),
            require_ticket_in_commit: true,
        }
    }
}

impl Default for CommitFormat {
    fn default() -> (r: Self)
        ensures
            r.pattern@ == "[{ticket}] {type}: {summary}"@,
    {
        CommitFormat { pattern: "[{ticket}] {type}: {summary}".to_owned() }
    }
}

impl Default for PrConfig {
    fn default() -> (r: Self)
        ensures
            r.template_file@ == ".github/PULL_REQUEST_TEMPLATE.md"@,
    {
        PrConfig { template_file: ".github/PULL_REQUEST_TEMPLATE.md".to_owned() }
    }
}

impl Default for GitConventions {
    fn default() -> (r: Self)
        ensures
            r.git_rules.commit_style@ == "conventional"@,
            r.git_rules.ticket_regex@ == DEFAULT_TICKET_REGEX@,
            r.git_rules.require_ticket_in_commit,
            r.commit_format.pattern@ == "[{ticket}] {type}: {summary}"@,
            r.pr.template_file@ == ".github/PULL_REQUEST_TEMPLATE.md"@,
    {
        GitConventions {
            git_rules: GitRules::default(),
            commit_format: CommitFormat::default(),
            pr: PrConfig::default(),
        }
    }
}

// ---------------------------------------------------------------------------
// Ticket ids
// ---------------------------------------------------------------------------

pub open spec fn is_upper(c: char) -> bool {
    'A' <= c && c <= 'Z'
}

pub open spec fn is_digit(c: char) -> bool {
    '0' <= c && c <= '9'
}

/// End of the run of uppercase letters that starts at `i`.
pub open spec fn upper_run_end(s: Seq<char>, i: int) -> int
    decreases s.len() - i,
{
    if 0 <= i < s.len() && is_upper(s[i]) {
        upper_run_end(s, i + 1)
    } else {
        i
    }
}

/// End of the run of digits that starts at `i`.
pub open spec fn digit_run_end(s: Seq<char>, i: int) -> int
    decreases s.len() - i,
{
    if 0 <= i < s.len() && is_digit(s[i]) {
        digit_run_end(s, i + 1)
    } else {
        i
    }
}

/// A ticket id (`ABC-123`) starts at `a` when a maximal run of uppercase
/// letters begins there and is followed by `-` and at least one digit; the
/// id ends where the digits end.
pub open spec fn ticket_end(s: Seq<char>, a: int) -> Option<int> {
    if 0 <= a < s.len() && is_upper(s[a]) && (a == 0 || !is_upper(s[a - 1])) {
        let j = upper_run_end(s, a);
        if j < s.len() && s[j] == '-' {
            let k = digit_run_end(s, j + 1);
            if k > j + 1 {
                Some(k)
            } else {
                None
            }
        } else {
            None
        }
    } else {
        None
    }
}

/// The leftmost ticket id at or after `i`.
pub open spec fn first_ticket(s: Seq<char>, i: int) -> Option<Seq<char>>
    decreases s.len() - i,
{
    if i < 0 || i >= s.len() {
        None
    } else {
        match ticket_end(s, i) {
            Some(k) => Some(s.subrange(i, k)),
            None => first_ticket(s, i + 1),
        }
    }
}

proof fn lemma_upper_run_end(s: Seq<char>, i: int)
    requires
        0 <= i <= s.len(),
    ensures
        i <= upper_run_end(s, i) <= s.len(),
        forall|t: int| i <= t < upper_run_end(s, i) ==> is_upper(#[trigger] s[t]),
        upper_run_end(s, i) < s.len() ==> !is_upper(s[upper_run_end(s, i)]),
    decreases s.len() - i,
{
    if i < s.len() && is_upper(s[i]) {
        lemma_upper_run_end(s, i + 1);
    }
}

proof fn lemma_digit_run_end(s: Seq<char>, i: int)
    requires
        0 <= i <= s.len(),
    ensures
        i <= digit_run_end(s, i) <= s.len(),
        forall|t: int| i <= t < digit_run_end(s, i) ==> is_digit(#[trigger] s[t]),
        digit_run_end(s, i) < s.len() ==> !is_digit(s[digit_run_end(s, i)]),
    decreases s.len() - i,
{
    if i < s.len() && is_digit(s[i]) {
        lemma_digit_run_end(s, i + 1);
    }
}

fn upper_run_end_exec(s: &[char], i: usize) -> (j: usize)
    requires
        i <= s@.len(),
    ensures
        j == upper_run_end(s@, i as int),
{
    let mut j = i;
    while j < s.len() && 'A' <= s[j] && s[j] <= 'Z'
        invariant
            i <= j <= s@.len(),
            upper_run_end(s@, i as int) == upper_run_end(s@, j as int),
        decreases s.len() - j,
    {
        j = j + 1;
    }
    j
}

fn digit_run_end_exec(s: &[char], i: usize) -> (j: usize)
    requires
        i <= s@.len(),
    ensures
        j == digit_run_end(s@, i as int),
{
    let mut j = i;
    while j < s.len() && '0' <= s[j] && s[j] <= '9'
        invariant
            i <= j <= s@.len(),
            digit_run_end(s@, i as int) == digit_run_end(s@, j as int),
        decreases s.len() - j,
    {
        j = j + 1;
    }
    j
}

/// The first JIRA-style ticket id (`ABC-123`) in the text.
pub fn find_jira_ticket(text: &str) -> (r: Option<String>)
    ensures
        match r {
            Some(t) => first_ticket(text@, 0) == Some(t@),
            None => first_ticket(text@, 0) is None,
        },
{
    let s = chars_of(text);
    let mut i: usize = 0;
    while i < s.len()
        invariant
            i <= s@.len(),
            s@ == text@,
            first_ticket(s@, 0) == first_ticket(s@, i as int),
        decreases s.len() - i,
    {
        let c = s[i];
        if 'A' <= c && c <= 'Z' && (i == 0 || !('A' <= s[i - 1] && s[i - 1] <= 'Z')) {
            let j = upper_run_end_exec(s.as_slice(), i);
            proof {
                lemma_upper_run_end(s@, i as int);
            }
            if j < s.len() && s[j] == '-' {
                let k = digit_run_end_exec(s.as_slice(), j + 1);
                proof {
                    lemma_digit_run_end(s@, j + 1);
                }
                if k > j + 1 {
                    let t = copy_range(s.as_slice(), i, k);
                    return Some(string_of(t.as_slice()));
                }
            }
        }
        i = i + 1;
    }
    None
}

/// The ticket id in a text. Only `ABC-123`-style ids are recognised, so
/// `ticket_regex` does not change the result.
pub fn extract_ticket(text: &str, ticket_regex: &str) -> (r: Option<String>)
    ensures
        match r {
            Some(t) => first_ticket(text@, 0) == Some(t@),
            None => first_ticket(text@, 0) is None,
        },
{
    find_jira_ticket(text)
}

/// `s[i..k]` matches `[A-Z]+-[0-9]+`, with the `-` at `m`.
pub open spec fn ticket_match_at(s: Seq<char>, i: int, m: int, k: int) -> bool {
    &&& 0 <= i < m
    &&& m + 1 < k <= s.len()
    &&& s[m] == '-'
    &&& forall|t: int| i <= t < m ==> is_upper(#[trigger] s[t])
    &&& forall|t: int| m + 1 <= t < k ==> is_digit(#[trigger] s[t])
}

/// `s[i..k]` matches `[A-Z]+-[0-9]+`.
pub open spec fn ticket_match(s: Seq<char>, i: int, k: int) -> bool {
    exists|m: int| ticket_match_at(s, i, m, k)
}

proof fn lemma_upper_run_through(s: Seq<char>, i: int, m: int)
    requires
        0 <= i <= m <= s.len(),
        forall|t: int| i <= t < m ==> is_upper(#[trigger] s[t]),
    ensures
        upper_run_end(s, i) == upper_run_end(s, m),
    decreases m - i,
{
    if i < m {
        lemma_upper_run_through(s, i + 1, m);
    }
}

proof fn lemma_digit_run_through(s: Seq<char>, j: int, k: int)
    requires
        0 <= j <= k <= s.len(),
        forall|t: int| j <= t < k ==> is_digit(#[trigger] s[t]),
    ensures
        digit_run_end(s, j) == digit_run_end(s, k),
    decreases k - j,
{
    if j < k {
        lemma_digit_run_through(s, j + 1, k);
    }
}

/// A match that starts where a run of capitals starts is the one `ticket_end` finds,
/// and it ends no later than that one.
proof fn lemma_match_is_found(s: Seq<char>, i: int, m: int, k: int)
    requires
        ticket_match_at(s, i, m, k),
        i == 0 || !is_upper(s[i - 1]),
    ensures
        ticket_end(s, i) matches Some(e) && k <= e,
{
    lemma_upper_run_through(s, i, m);
    assert(is_upper(s[i]));
    assert(!is_upper(s[m]));
    assert(upper_run_end(s, m) == m);
    lemma_digit_run_through(s, m + 1, k);
    lemma_digit_run_end(s, k);
}

/// What `ticket_end` finds is a match.
proof fn lemma_found_is_match(s: Seq<char>, a: int)
    requires
        ticket_end(s, a) is Some,
    ensures
        ticket_match(s, a, ticket_end(s, a)->0),
{
    lemma_upper_run_end(s, a);
    let j = upper_run_end(s, a);
    assert(j > a) by {
        lemma_upper_run_end(s, a + 1);
    }
    lemma_digit_run_end(s, j + 1);
    assert(ticket_match_at(s, a, j, ticket_end(s, a)->0));
}

/// A match can be widened leftwards to the start of its run of capitals.
proof fn lemma_match_run_start(s: Seq<char>, i: int, m: int, k: int)
    requires
        ticket_match_at(s, i, m, k),
    ensures
        exists|a: int|
            0 <= a <= i && (a == 0 || !is_upper(s[a - 1])) && #[trigger] ticket_match_at(s, a, m, k),
    decreases i,
{
    if i > 0 && is_upper(s[i - 1]) {
        assert(ticket_match_at(s, i - 1, m, k));
        lemma_match_run_start(s, i - 1, m, k);
    } else {
        assert(ticket_match_at(s, i, m, k));
    }
}

proof fn lemma_first_ticket(s: Seq<char>, i: int)
    requires
        0 <= i,
    ensures
        first_ticket(s, i) is None ==> forall|a: int| i <= a ==> (#[trigger] ticket_end(s, a)) is None,
        first_ticket(s, i) is Some ==> exists|a: int|
            i <= a && (#[trigger] ticket_end(s, a)) is Some && first_ticket(s, i) == Some(
                s.subrange(a, ticket_end(s, a)->0),
            ) && forall|b: int| i <= b < a ==> (#[trigger] ticket_end(s, b)) is None,
    decreases s.len() - i,
{
    if i < s.len() {
        lemma_first_ticket(s, i + 1);
        if ticket_end(s, i) is None && first_ticket(s, i + 1) is Some {
            let a = choose|a: int|
                i + 1 <= a && (#[trigger] ticket_end(s, a)) is Some && first_ticket(s, i + 1) == Some(
                    s.subrange(a, ticket_end(s, a)->0),
                ) && forall|b: int| i + 1 <= b < a ==> (#[trigger] ticket_end(s, b)) is None;
            assert forall|b: int| i <= b < a implies (#[trigger] ticket_end(s, b)) is None by {
                if b > i {
                    assert(i + 1 <= b < a);
                }
            }
        }
    } else {
        assert forall|a: int| i <= a implies (#[trigger] ticket_end(s, a)) is None by {}
    }
}

/// The ticket id found in a text is the leftmost-longest match of
/// `[A-Z]+-[0-9]+`: none is found exactly when there is no match, and what is
/// found is a match, no match starts further left, and none from the same start
/// is longer.
pub proof fn first_ticket_is_leftmost_longest(s: Seq<char>)
    ensures
        first_ticket(s, 0) is None <==> !exists|i: int, k: int| ticket_match(s, i, k),
        first_ticket(s, 0) is Some ==> exists|i: int, k: int|
            #[trigger] ticket_match(s, i, k) && first_ticket(s, 0) == Some(s.subrange(i, k)) && (forall|
                i2: int,
                k2: int,
            | i2 < i ==> !#[trigger] ticket_match(s, i2, k2)) && (forall|k2: int|
                k < k2 ==> !#[trigger] ticket_match(s, i, k2)),
{
    lemma_first_ticket(s, 0);
    if exists|i: int, k: int| ticket_match(s, i, k) {
        let (i, k) = choose|i: int, k: int| ticket_match(s, i, k);
        let m = choose|m: int| ticket_match_at(s, i, m, k);
        lemma_match_run_start(s, i, m, k);
        let a = choose|a: int|
            0 <= a <= i && (a == 0 || !is_upper(s[a - 1])) && #[trigger] ticket_match_at(s, a, m, k);
        lemma_match_is_found(s, a, m, k);
        assert(ticket_end(s, a) is Some);
    }
    if first_ticket(s, 0) is Some {
        let a = choose|a: int|
            0 <= a && (#[trigger] ticket_end(s, a)) is Some && first_ticket(s, 0) == Some(
                s.subrange(a, ticket_end(s, a)->0),
            ) && forall|b: int| 0 <= b < a ==> (#[trigger] ticket_end(s, b)) is None;
        let k = ticket_end(s, a)->0;
        lemma_found_is_match(s, a);
        assert forall|i2: int, k2: int| i2 < a implies !#[trigger] ticket_match(s, i2, k2) by {
            if ticket_match(s, i2, k2) {
                let m2 = choose|m2: int| ticket_match_at(s, i2, m2, k2);
                lemma_match_run_start(s, i2, m2, k2);
                let a2 = choose|a2: int|
                    0 <= a2 <= i2 && (a2 == 0 || !is_upper(s[a2 - 1])) && #[trigger] ticket_match_at(
                        s,
                        a2,
                        m2,
                        k2,
                    );
                lemma_match_is_found(s, a2, m2, k2);
                assert(ticket_end(s, a2) is None);
            }
        }
        assert forall|k2: int| k < k2 implies !#[trigger] ticket_match(s, a, k2) by {
            if ticket_match(s, a, k2) {
                let m2 = choose|m2: int| ticket_match_at(s, a, m2, k2);
                lemma_match_is_found(s, a, m2, k2);
            }
        }
        assert(ticket_match(s, a, k));
    }
}

// ---------------------------------------------------------------------------
// Branch names
// ---------------------------------------------------------------------------

/// The Unicode lowercase mapping of one character (`char::to_lowercase`).
pub uninterp spec fn char_lower(c: char) -> Seq<char>;

/// `char::to_lowercase`, collected. For an ASCII character this is its
/// ASCII lowercase.
#[verifier::external_body]
fn lower_char(c: char) -> (r: Vec<char>)
    ensures
        r@ == char_lower(c),
        (c as u32) < 128 ==> r@ == seq![lower_ascii_char(c)],
{
    c.to_lowercase().collect()
}

/// `text.chars().flat_map(char::to_lowercase)`.
pub open spec fn lowered(s: Seq<char>) -> Seq<char>
    decreases s.len(),
{
    if s.len() == 0 {
        seq![]
    } else {
        lowered(s.drop_last()) + char_lower(s.last())
    }
}

pub open spec fn is_ascii_alnum(c: char) -> bool {
    ('a' <= c && c <= 'z') || ('A' <= c && c <= 'Z') || ('0' <= c && c <= '9')
}

/// The slug being built and whether it ends in a separator: alphanumerics
/// are kept, any other run becomes one `-`, and nothing is added once the
/// slug has 40 characters.
pub open spec fn slug_state(l: Seq<char>) -> (Seq<char>, bool)
    decreases l.len(),
{
    if l.len() == 0 {
        (seq![], true)
    } else {
        let (out, prev_dash) = slug_state(l.drop_last());
        let ch = l.last();
        if out.len() >= 40 {
            (out, prev_dash)
        } else if is_ascii_alnum(ch) {
            (out.push(ch), false)
        } else if !prev_dash {
            (out.push('-'), true)
        } else {
            (out, prev_dash)
        }
    }
}

/// Drops leading `c`s.
pub open spec fn trim_start_char(s: Seq<char>, c: char) -> Seq<char>
    decreases s.len(),
{
    if s.len() > 0 && s[0] == c {
        trim_start_char(s.drop_first(), c)
    } else {
        s
    }
}

/// Drops trailing `c`s.
pub open spec fn trim_end_char(s: Seq<char>, c: char) -> Seq<char>
    decreases s.len(),
{
    if s.len() > 0 && s.last() == c {
        trim_end_char(s.drop_last(), c)
    } else {
        s
    }
}

/// A branch-name slug of free text.
pub open spec fn slugify_spec(text: Seq<char>) -> Seq<char> {
    trim_end_char(trim_start_char(slug_state(lowered(text)).0, '-'), '-')
}

fn trim_char_exec(s: &[char], c: char) -> (r: Vec<char>)
    ensures
        r@ == trim_end_char(trim_start_char(s@, c), c),
{
    let mut a: usize = 0;
    assert(s@.skip(0) =~= s@);
    while a < s.len() && s[a] == c
        invariant
            a <= s@.len(),
            trim_start_char(s@, c) == trim_start_char(s@.skip(a as int), c),
        decreases s.len() - a,
    {
        assert(s@.skip(a as int).drop_first() =~= s@.skip(a + 1));
        a = a + 1;
    }
    let ghost mid = s@.skip(a as int);
    assert(trim_start_char(s@, c) == mid);
    let mut b: usize = s.len();
    assert(s@.subrange(a as int, b as int) =~= mid);
    while b > a && s[b - 1] == c
        invariant
            a <= b <= s@.len(),
            trim_end_char(mid, c) == trim_end_char(s@.subrange(a as int, b as int), c),
        decreases b,
    {
        assert(s@.subrange(a as int, b as int).drop_last() =~= s@.subrange(a as int, b - 1));
        b = b - 1;
    }
    copy_range(s, a, b)
}

/// Every character is ASCII.
pub open spec fn all_ascii(s: Seq<char>) -> bool {
    forall|i: int| 0 <= i < s.len() ==> (#[trigger] s[i] as u32) < 128
}

/// Lowercases, keeps ASCII alphanumerics, joins the rest with single
/// dashes, stops at 40 characters and trims dashes at both ends. An ASCII
/// text is lowercased the ASCII way.
pub fn slugify(text: &str) -> (r: String)
    ensures
        r@ == slugify_spec(text@),
        all_ascii(text@) ==> lowered(text@) == crate::text::lower_ascii(text@),
{
    let s = chars_of(text);
    let mut low: Vec<char> = Vec::new();
    let mut i: usize = 0;
    while i < s.len()
        invariant
            i <= s@.len(),
            s@ == text@,
            low@ == lowered(s@.take(i as int)),
            all_ascii(text@) ==> low@ == crate::text::lower_ascii(s@.take(i as int)),
        decreases s.len() - i,
    {
        let part = lower_char(s[i]);
        assert(s@.take(i + 1).drop_last() =~= s@.take(i as int));
        let ghost before = low@;
        crate::text::append_chars(&mut low, part.as_slice());
        proof {
            if all_ascii(text@) {
                assert((s@[i as int] as u32) < 128);
                assert(crate::text::lower_ascii(s@.take(i + 1)) =~= crate::text::lower_ascii(
                    s@.take(i as int),
                ).push(crate::text::lower_ascii_char(s@[i as int])));
                assert(low@ =~= before + seq![crate::text::lower_ascii_char(s@[i as int])]);
            }
        }
        i = i + 1;
    }
    assert(s@.take(s@.len() as int) =~= s@);
    let mut out: Vec<char> = Vec::new();
    let mut prev_dash = true;
    let mut k: usize = 0;
    while k < low.len()
        invariant
            k <= low@.len(),
            (out@, prev_dash) == slug_state(low@.take(k as int)),
            out@.len() <= 40,
        decreases low.len() - k,
    {
        assert(low@.take(k + 1).drop_last() =~= low@.take(k as int));
        let ch = low[k];
        if out.len() < 40 {
            if ('a' <= ch && ch <= 'z') || ('A' <= ch && ch <= 'Z') || ('0' <= ch && ch <= '9') {
                out.push(ch);
                prev_dash = false;
            } else if !prev_dash {
                out.push('-');
                prev_dash = true;
            }
        }
        k = k + 1;
    }
    assert(low@.take(low@.len() as int) =~= low@);
    let t = trim_char_exec(out.as_slice(), '-');
    string_of(t.as_slice())
}

/// `feat/<ticket>-<slug>`, or `feat/<slug>` without a ticket; the slug
/// comes from the context and defaults to `work`.
pub open spec fn branch_name_spec(ticket: Option<Seq<char>>, context: Option<Seq<char>>) -> Seq<
    char,
> {
    let slug = match context {
        Some(c) => if slugify_spec(c).len() > 0 {
            slugify_spec(c)
        } else {
            "work"@
        },
        None => "work"@,
    };
    match ticket {
        Some(t) => if t.len() > 0 {
            "feat/"@ + t + "-"@ + slug
        } else {
            "feat/"@ + slug
        },
        None => "feat/"@ + slug,
    }
}

pub open spec fn opt_str_view(o: Option<&str>) -> Option<Seq<char>> {
    match o {
        Some(s) => Some(s@),
        None => None,
    }
}

/// Suggests a feature-branch name.
pub fn suggest_branch_name(ticket: Option<&str>, context: Option<&str>) -> (r: String)
    ensures
        r@ == branch_name_spec(opt_str_view(ticket), opt_str_view(context)),
        context matches Some(c) ==> (all_ascii(c@) ==> lowered(c@) == crate::text::lower_ascii(c@)),
{
    let slug: String = match context {
        Some(c) => {
            let s = slugify(c);
            if s.as_str().is_empty() {
                "work".to_owned()
            } else {
                s
            }
        },
        None => "work".to_owned(),
    };
    let mut out = "feat/".to_owned();
    match ticket {
        Some(t) => {
            if !t.is_empty() {
                out.append(t);
                out.append("-");
            }
        },
        None => {},
    }
    out.append(slug.as_str());
    out
}

// ---------------------------------------------------------------------------
// Branch gate
// ---------------------------------------------------------------------------

/// How the current branch relates to the work at hand.
#[derive(Clone, Copy, PartialEq, Eq, Structural, Debug)]
pub enum BranchStatus {
    /// The branch fits the work (serialized as `ok`).
    Ready,
    OnDefault,
    TicketMismatch,
    StaleFeature,
}

/// What has to happen before committing.
#[derive(Clone, Copy, PartialEq, Eq, Structural, Debug)]
pub enum BranchAction {
    /// Nothing to do (serialized as `none`).
    NoAction,
    CreateBranch,
}

/// The branch verdict handed to the model and the caller.
pub struct BranchGate {
    pub current_branch: String,
    pub branch_status: BranchStatus,
    pub action_required: BranchAction,
    pub commit_allowed: bool,
    pub suggested_branch_name: String,
    pub ticket_id: Option<String>,
}

/// `str::eq_ignore_ascii_case`.
pub open spec fn eq_ignore_ascii_case(a: Seq<char>, b: Seq<char>) -> bool {
    lower_ascii(a) == lower_ascii(b)
}

fn eq_ignore_ascii_case_exec(a: &str, b: &str) -> (r: bool)
    ensures
        r == eq_ignore_ascii_case(a@, b@),
{
    let x = lower_ascii_exec(chars_of(a).as_slice());
    let y = lower_ascii_exec(chars_of(b).as_slice());
    let sx = string_of(x.as_slice());
    let sy = string_of(y.as_slice());
    crate::text::str_eq(sx.as_str(), sy.as_str())
}

/// The branches treated as a repository's default.
pub open spec fn is_default_branch(b: Seq<char>) -> bool {
    ||| eq_ignore_ascii_case(b, "main"@)
    ||| eq_ignore_ascii_case(b, "master"@)
    ||| eq_ignore_ascii_case(b, "develop"@)
    ||| eq_ignore_ascii_case(b, "trunk"@)
}

/// A present, non-empty string.
pub open spec fn nonempty(o: Option<Seq<char>>) -> Option<Seq<char>> {
    match o {
        Some(s) => if s.len() > 0 {
            Some(s)
        } else {
            None
        },
        None => None,
    }
}

pub open spec fn ticket_in(o: Option<Seq<char>>) -> Option<Seq<char>> {
    match o {
        Some(t) => first_ticket(t, 0),
        None => None,
    }
}

/// The ticket the work is about: from the feature context, else the
/// expected ticket, else the user's instructions.
pub open spec fn context_ticket(
    feature_context: Option<Seq<char>>,
    expected: Option<Seq<char>>,
    instructions: Option<Seq<char>>,
) -> Option<Seq<char>> {
    match ticket_in(feature_context) {
        Some(t) => Some(t),
        None => match nonempty(expected) {
            Some(t) => Some(t),
            None => ticket_in(instructions),
        },
    }
}

/// Status and required action of the branch gate.
pub open spec fn gate_verdict(
    branch: Seq<char>,
    feature_context: Option<Seq<char>>,
    expected: Option<Seq<char>>,
    instructions: Option<Seq<char>>,
) -> (BranchStatus, BranchAction) {
    let branch_ticket = first_ticket(branch, 0);
    let ctx = context_ticket(feature_context, expected, instructions);
    if is_default_branch(branch) {
        (BranchStatus::OnDefault, BranchAction::CreateBranch)
    } else if nonempty(expected) is Some {
        match branch_ticket {
            Some(bt) => if eq_ignore_ascii_case(bt, expected->0) {
                (BranchStatus::Ready, BranchAction::NoAction)
            } else {
                (BranchStatus::StaleFeature, BranchAction::CreateBranch)
            },
            None => (BranchStatus::TicketMismatch, BranchAction::CreateBranch),
        }
    } else if ctx is Some {
        match branch_ticket {
            Some(bt) => if eq_ignore_ascii_case(bt, ctx->0) {
                (BranchStatus::Ready, BranchAction::NoAction)
            } else {
                (BranchStatus::TicketMismatch, BranchAction::CreateBranch)
            },
            None => (BranchStatus::TicketMismatch, BranchAction::CreateBranch),
        }
    } else {
        (BranchStatus::Ready, BranchAction::NoAction)
    }
}

/// With no non-empty expected ticket and a ticket `t` found in the feature
/// context (or, when the context holds none, in the instructions), a branch
/// that is not a default branch and whose own ticket differs from `t` ignoring
/// ASCII case is a ticket mismatch that needs a new branch, so no commit is
/// allowed on it.
pub proof fn branch_with_other_ticket_is_mismatch(
    branch: Seq<char>,
    feature_context: Option<Seq<char>>,
    expected: Option<Seq<char>>,
    instructions: Option<Seq<char>>,
    t: Seq<char>,
    bt: Seq<char>,
)
    requires
        expected is None || expected == Some(Seq::<char>::empty()),
        ticket_in(feature_context) == Some(t) || (ticket_in(feature_context) is None && ticket_in(
            instructions,
        ) == Some(t)),
        !is_default_branch(branch),
        first_ticket(branch, 0) == Some(bt),
        lower_ascii(bt) != lower_ascii(t),
    ensures
        gate_verdict(branch, feature_context, expected, instructions) == (
            BranchStatus::TicketMismatch,
            BranchAction::CreateBranch,
        ),
{
    assert(nonempty(expected) is None);
    assert(context_ticket(feature_context, expected, instructions) == Some(t));
}

/// The ticket a branch must carry: the non-empty expected ticket, else the
/// ticket found in the feature context or the instructions.
pub open spec fn work_ticket(
    feature_context: Option<Seq<char>>,
    expected: Option<Seq<char>>,
    instructions: Option<Seq<char>>,
) -> Option<Seq<char>> {
    match nonempty(expected) {
        Some(e) => Some(e),
        None => context_ticket(feature_context, expected, instructions),
    }
}

/// A default branch always needs a new branch; any other branch is ready
/// exactly when no ticket is known for the work or its own ticket equals that
/// ticket ignoring ASCII case; and a branch is ready exactly when no action is
/// required.
pub proof fn ready_branch_carries_the_work_ticket(
    branch: Seq<char>,
    feature_context: Option<Seq<char>>,
    expected: Option<Seq<char>>,
    instructions: Option<Seq<char>>,
)
    ensures
        (gate_verdict(branch, feature_context, expected, instructions).0 == BranchStatus::Ready) <==> (
        gate_verdict(branch, feature_context, expected, instructions).1 == BranchAction::NoAction),
        is_default_branch(branch) ==> gate_verdict(branch, feature_context, expected, instructions) == (
            BranchStatus::OnDefault,
            BranchAction::CreateBranch,
        ),
        !is_default_branch(branch) ==> ((gate_verdict(branch, feature_context, expected, instructions).0
            == BranchStatus::Ready) <==> match work_ticket(feature_context, expected, instructions) {
            None => true,
            Some(k) => match first_ticket(branch, 0) {
                Some(bt) => lower_ascii(bt) == lower_ascii(k),
                None => false,
            },
        }),
{
}

/// The ticket id returned alongside the branch verdict.
pub open spec fn gate_ticket(
    branch: Seq<char>,
    feature_context: Option<Seq<char>>,
    expected: Option<Seq<char>>,
    instructions: Option<Seq<char>>,
) -> Option<Seq<char>> {
    match context_ticket(feature_context, expected, instructions) {
        Some(t) => Some(t),
        None => match nonempty(expected) {
            Some(t) => Some(t),
            None => first_ticket(branch, 0),
        },
    }
}

pub open spec fn opt_string_view(o: Option<String>) -> Option<Seq<char>> {
    match o {
        Some(s) => Some(s@),
        None => None,
    }
}

fn ticket_in_exec(o: Option<&str>) -> (r: Option<String>)
    ensures
        opt_string_view(r) == ticket_in(opt_str_view(o)),
{
    match o {
        Some(t) => find_jira_ticket(t),
        None => None,
    }
}

fn nonempty_exec(o: Option<&str>) -> (r: Option<String>)
    ensures
        opt_string_view(r) == nonempty(opt_str_view(o)),
{
    match o {
        Some(t) => if t.is_empty() {
            None
        } else {
            Some(t.to_owned())
        },
        None => None,
    }
}

/// Decides whether the current branch fits the work: a default branch
/// never does; otherwise its ticket must match the expected ticket (or the
/// ticket found in the context). Commits are allowed exactly when no new
/// branch is needed.
pub fn evaluate_branch_gate(
    current_branch: &str,
    conventions: &GitConventions,
    feature_context: Option<&str>,
    expected_ticket: Option<&str>,
    user_instructions: Option<&str>,
) -> (g: BranchGate)
    ensures
        g.current_branch@ == current_branch@,
        (g.branch_status, g.action_required) == gate_verdict(
            current_branch@,
            opt_str_view(feature_context),
            opt_str_view(expected_ticket),
            opt_str_view(user_instructions),
        ),
        g.commit_allowed == (g.action_required == BranchAction::NoAction),
        opt_string_view(g.ticket_id) == gate_ticket(
            current_branch@,
            opt_str_view(feature_context),
            opt_str_view(expected_ticket),
            opt_str_view(user_instructions),
        ),
        g.suggested_branch_name@ == branch_name_spec(
            opt_string_view(g.ticket_id),
            match feature_context {
                Some(f) => Some(f@),
                None => opt_str_view(user_instructions),
            },
        ),
{
    let branch_ticket = extract_ticket(current_branch, conventions.git_rules.ticket_regex.as_str());
    let ctx: Option<String> = match ticket_in_exec(feature_context) {
        Some(t) => Some(t),
        None => match nonempty_exec(expected_ticket) {
            Some(t) => Some(t),
            None => ticket_in_exec(user_instructions),
        },
    };
    let on_default = eq_ignore_ascii_case_exec(current_branch, "main") || eq_ignore_ascii_case_exec(
        current_branch,
        "master",
    ) || eq_ignore_ascii_case_exec(current_branch, "develop") || eq_ignore_ascii_case_exec(
        current_branch,
        "trunk",
    );
    let expected = nonempty_exec(expected_ticket);
    let (status, action) = if on_default {
        (BranchStatus::OnDefault, BranchAction::CreateBranch)
    } else if let Some(exp) = &expected {
        match &branch_ticket {
            Some(bt) => if eq_ignore_ascii_case_exec(bt.as_str(), exp.as_str()) {
                (BranchStatus::Ready, BranchAction::NoAction)
            } else {
                (BranchStatus::StaleFeature, BranchAction::CreateBranch)
            },
            None => (BranchStatus::TicketMismatch, BranchAction::CreateBranch),
        }
    } else if let Some(c) = &ctx {
        match &branch_ticket {
            Some(bt) => if eq_ignore_ascii_case_exec(bt.as_str(), c.as_str()) {
                (BranchStatus::Ready, BranchAction::NoAction)
            } else {
                (BranchStatus::TicketMismatch, BranchAction::CreateBranch)
            },
            None => (BranchStatus::TicketMismatch, BranchAction::CreateBranch),
        }
    } else {
        (BranchStatus::Ready, BranchAction::NoAction)
    };
    let ticket_id: Option<String> = match ctx {
        Some(t) => Some(t),
        None => match expected {
            Some(t) => Some(t),
            None => branch_ticket,
        },
    };
    let slug_source = match feature_context {
        Some(f) => Some(f),
        None => user_instructions,
    };
    let suggested = match &ticket_id {
        Some(t) => suggest_branch_name(Some(t.as_str()), slug_source),
        None => suggest_branch_name(None, slug_source),
    };
    let allowed = match action {
        BranchAction::NoAction => true,
        BranchAction::CreateBranch => false,
    };
    BranchGate {
        current_branch: current_branch.to_owned(),
        branch_status: status,
        action_required: action,
        commit_allowed: allowed,
        suggested_branch_name: suggested,
        ticket_id,
    }
}

// ---------------------------------------------------------------------------
// Emitted copy
// ---------------------------------------------------------------------------

/// The summary of a commit message: its first line, trimmed, without a
/// leading `[TICKET]` tag (and a `:` after it) when text follows the tag.
pub open spec fn commit_summary_spec(msg: Seq<char>) -> Seq<char> {
    let ls = crate::text::lines(msg);
    let line = trim(if ls.len() > 0 {
        ls[0]
    } else {
        msg
    });
    if line.len() > 0 && line[0] == '[' {
        match crate::text::split_once(line.drop_first(), seq![']']) {
            Some((_, after)) => {
                let a = trim(trim_start_char(trim(after), ':'));
                if a.len() > 0 {
                    a
                } else {
                    line
                }
            },
            None => line,
        }
    } else {
        line
    }
}

fn trim_start_char_exec(s: &[char], c: char) -> (r: Vec<char>)
    ensures
        r@ == trim_start_char(s@, c),
{
    let mut a: usize = 0;
    assert(s@.skip(0) =~= s@);
    while a < s.len() && s[a] == c
        invariant
            a <= s@.len(),
            trim_start_char(s@, c) == trim_start_char(s@.skip(a as int), c),
        decreases s.len() - a,
    {
        assert(s@.skip(a as int).drop_first() =~= s@.skip(a + 1));
        a = a + 1;
    }
    copy_range(s, a, s.len())
}

/// The summary line used to name a branch after a commit message.
pub fn first_line_commit_summary(commit_message: &str) -> (r: String)
    ensures
        r@ == commit_summary_spec(commit_message@),
{
    let m = chars_of(commit_message);
    let ls = crate::text::lines_exec(m.as_slice());
    let first: Vec<char> = if ls.len() > 0 {
        ls[0].clone()
    } else {
        m
    };
    let line = trim_exec(first.as_slice());
    if line.len() > 0 && line[0] == '[' {
        let rest = copy_range(line.as_slice(), 1, line.len());
        assert(rest@ =~= line@.drop_first());
        let mut close: Vec<char> = Vec::new();
        close.push(']');
        assert(close@ =~= seq![']']);
        match crate::text::split_once_exec(rest.as_slice(), close.as_slice()) {
            Some((_, after)) => {
                let t1 = trim_exec(after.as_slice());
                let t2 = trim_start_char_exec(t1.as_slice(), ':');
                let a = trim_exec(t2.as_slice());
                if a.len() > 0 {
                    return string_of(a.as_slice());
                }
            },
            None => {},
        }
    }
    string_of(line.as_slice())
}

/// The four texts the janitor's terminal tool returns.
pub struct EmitFields {
    pub commit_message: String,
    pub pr_title: String,
    pub pr_body: String,
    pub changelog_entry: String,
}

/// Reads the arguments of `emit_git_copy`; each field is required.
pub fn parse_emit_fields(arguments: &JsonValue) -> (r: Result<EmitFields, String>)
    ensures
        match r {
            Ok(f) => crate::json::get_str(*arguments, "commit_message"@) == Some(f.commit_message@)
                && crate::json::get_str(*arguments, "pr_title"@) == Some(f.pr_title@)
                && crate::json::get_str(*arguments, "pr_body"@) == Some(f.pr_body@)
                && crate::json::get_str(*arguments, "changelog_entry"@) == Some(
                f.changelog_entry@,
            ),
            Err(e) => {
                ||| (crate::json::get_str(*arguments, "commit_message"@) is None && e@
                    == crate::json::not_a_string_msg("commit_message"@))
                ||| (crate::json::get_str(*arguments, "commit_message"@) is Some
                    && crate::json::get_str(*arguments, "pr_title"@) is None && e@
                    == crate::json::not_a_string_msg("pr_title"@))
                ||| (crate::json::get_str(*arguments, "commit_message"@) is Some
                    && crate::json::get_str(*arguments, "pr_title"@) is Some
                    && crate::json::get_str(*arguments, "pr_body"@) is None && e@
                    == crate::json::not_a_string_msg("pr_body"@))
                ||| (crate::json::get_str(*arguments, "commit_message"@) is Some
                    && crate::json::get_str(*arguments, "pr_title"@) is Some
                    && crate::json::get_str(*arguments, "pr_body"@) is Some
                    && crate::json::get_str(*arguments, "changelog_entry"@) is None && e@
                    == crate::json::not_a_string_msg("changelog_entry"@))
            },
        },
{
    let commit_message = match crate::json::required_str(arguments, "commit_message") {
        Ok(v) => v,
        Err(e) => {
            return Err(e);
        },
    };
    let pr_title = match crate::json::required_str(arguments, "pr_title") {
        Ok(v) => v,
        Err(e) => {
            return Err(e);
        },
    };
    let pr_body = match crate::json::required_str(arguments, "pr_body") {
        Ok(v) => v,
        Err(e) => {
            return Err(e);
        },
    };
    let changelog_entry = match crate::json::required_str(arguments, "changelog_entry") {
        Ok(v) => v,
        Err(e) => {
            return Err(e);
        },
    };
    Ok(EmitFields { commit_message, pr_title, pr_body, changelog_entry })
}

/// The janitor's tools, in the order the model sees them.
pub fn git_janitor_tool_set() -> (s: LlmToolSet)
    ensures
        crate::llm::tool_names(s) == seq![
            "emit_git_copy"@,
            "propose_conventions_patch"@,
            "update_git_conventions"@,
        ],
        forall|i: int|
            0 <= i < crate::llm::tool_names(s).len() ==> (crate::harness::harness_terminal(
                crate::harness::HarnessKind::GitJanitor,
                #[trigger] crate::llm::tool_names(s)[i],
            ) <==> i == 0),
{
    let s = LlmToolSet::new().register(
        ToolDefinition::new(
            "emit_git_copy",
            "Terminal: emit final JSON with commit_message, pr_title, pr_body, changelog_entry, branch fields.",
        ).string_param("commit_message", "Commit message per conventions.", true).string_param(
            "pr_title",
            "Short PR title.",
            true,
        ).string_param("pr_body", "PR body matching template when present.", true).string_param(
            "changelog_entry",
            "Two-sentence end-user changelog summary.",
            true,
        ),
    ).register(
        ToolDefinition::new(
            "propose_conventions_patch",
            "Propose a JSON patch for git conventions (merged into suggested .adjutant.toml; does not write disk).",
        ).string_param(
            "patch_json",
            "JSON object patch for git_rules / commit_format / pr.",
            true,
        ),
    ).register(
        ToolDefinition::new(
            "update_git_conventions",
            "Write merged conventions to .adjutant.toml when persist is allowed.",
        ).string_param(
            "patch_json",
            "JSON object patch for git_rules / commit_format / pr.",
            true,
        ),
    );
    assert(crate::llm::tool_names(s) =~= seq![
        "emit_git_copy"@,
        "propose_conventions_patch"@,
        "update_git_conventions"@,
    ]);
    proof {
        reveal_strlit("emit_git_copy");
        reveal_strlit("propose_conventions_patch");
        reveal_strlit("update_git_conventions");
    }
    assert forall|i: int| 0 <= i < crate::llm::tool_names(s).len() implies (crate::harness::harness_terminal(
        crate::harness::HarnessKind::GitJanitor,
        #[trigger] crate::llm::tool_names(s)[i],
    ) <==> i == 0) by {
        assert(crate::llm::tool_names(s)[i].len() > 0);
    }
    s
}

} // verus!
