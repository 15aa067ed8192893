//! Running a triage's build targets and reading what the commands report:
//! the normal round (does everything build?) and the TDD red round (does
//! everything compile while the new tests fail on their assertions?).
use vstd::prelude::*;

use crate::llm::AgentContext;
use crate::text::{
    chars_of, copy_range, decimal_int, fmt_i64, is_suffix_within, join, join_exec, join_strings,
    split_char, split_char_exec, str_trim, string_of, string_views, suffix_within, trim, trim_end,
    trim_end_exec, views,
};
use crate::triage::{
    assertion_failure_spec, is_assertion_test_failure, scope_command_spec,
    scope_test_command_for_paths, split_check_and_test_commands, split_commands_spec,
};

verus! {

/// What one build command reported.
pub struct BuildResult {
    pub success: bool,
    pub exit_code: i32,
    pub output: String,
}

/// Runs a build command in a directory. The system runner spawns a process;
/// tests hand back canned results. Nothing is assumed of what it returns
/// beyond this: each runner relates the directory and command it was handed
/// to what it reported (`ran`), so a caller's contract can say which commands
/// it sent.
pub trait BuildCommandRunner {
    /// `out` is what this runner reports for running `command` in `dir`. A
    /// runner that says nothing of its results keeps the default: any result
    /// may come.
    open spec fn ran(&self, dir: Seq<char>, command: Seq<char>, out: Result<BuildResult, String>) -> bool {
        true
    }

    fn run_build_command(&self, dir: &str, command: &str) -> (r: Result<BuildResult, String>)
        ensures
            self.ran(dir@, command@, r),
    ;
}

pub const BUILD_LOG_MAX_LINES: usize = 120;

pub const BUILD_LOG_MAX_BYTES: usize = 24000;

pub const TDD_RED_DONE: &'static str = "compile succeeded, tests failing assertions";

// ---------------------------------------------------------------------------
// Log tails
// ---------------------------------------------------------------------------

/// The last `n` lines of a log (lines split at `\n`).
pub open spec fn tail_lines(s: Seq<char>, n: nat) -> Seq<char> {
    let ls = split_char(s, '\n');
    if ls.len() <= n {
        s
    } else {
        join(ls.skip(ls.len() - n), "\n"@)
    }
}

/// The longest suffix of a text whose UTF-8 encoding fits in `max` bytes.
pub open spec fn tail_bytes(s: Seq<char>, max: nat) -> Seq<char> {
    s.skip(choose|k: int| is_suffix_within(s, max, k))
}

/// The tail of a build log kept for a report: its last lines, then at most
/// `max_bytes` bytes of them.
pub open spec fn build_log_tail(s: Seq<char>, max_lines: nat, max_bytes: nat) -> Seq<char> {
    tail_bytes(tail_lines(s, max_lines), max_bytes)
}

fn tail_lines_exec(s: &[char], n: usize) -> (r: Vec<char>)
    ensures
        r@ == tail_lines(s@, n as nat),
{
    let ls = split_char_exec(s, '\n');
    if ls.len() <= n {
        let r = copy_range(s, 0, s.len());
        assert(r@ =~= s@);
        return r;
    }
    let k = ls.len() - n;
    let mut tail: Vec<Vec<char>> = Vec::new();
    let mut i = k;
    while i < ls.len()
        invariant
            k <= i <= ls@.len(),
            views(tail@) == views(ls@).subrange(k as int, i as int),
        decreases ls.len() - i,
    {
        let piece = copy_range(ls[i].as_slice(), 0, ls[i].len());
        assert(piece@ =~= ls@[i as int]@);
        let ghost before = views(tail@);
        tail.push(piece);
        assert(views(tail@) =~= before.push(ls@[i as int]@));
        assert(views(ls@)[i as int] == ls@[i as int]@);
        assert(views(tail@) =~= views(ls@).subrange(k as int, i + 1));
        i = i + 1;
    }
    assert(views(ls@).subrange(k as int, ls@.len() as int) =~= views(ls@).skip(k as int));
    let nl = chars_of("\n");
    join_exec(tail.as_slice(), nl.as_slice())
}

/// The tail of a build log, and whether anything was cut.
pub fn truncate_build_log(output: &str, max_lines: usize, max_bytes: usize) -> (r: (String, bool))
    ensures
        r.0@ == build_log_tail(output@, max_lines as nat, max_bytes as nat),
        r.1 == (r.0@ != output@),
{
    let c = chars_of(output);
    let lines = tail_lines_exec(c.as_slice(), max_lines);
    let k = suffix_within(lines.as_slice(), max_bytes);
    proof {
        let w = choose|w: int| is_suffix_within(lines@, max_bytes as nat, w);
        crate::planner::lemma_suffix_within_unique(lines@, max_bytes as nat, k as int, w);
    }
    let body = copy_range(lines.as_slice(), k, lines.len());
    assert(body@ =~= lines@.skip(k as int));
    let same = crate::paths::chars_eq(body.as_slice(), c.as_slice());
    (string_of(body.as_slice()), !same)
}

// ---------------------------------------------------------------------------
// Report texts
// ---------------------------------------------------------------------------

/// `<label> in <dir> (`<command>`)`.
pub open spec fn headline(label: Seq<char>, dir: Seq<char>, cmd: Seq<char>) -> Seq<char> {
    label + " in "@ + dir + " (`"@ + cmd + "`)"@
}

/// A command that ran: its headline, exit code and log.
pub open spec fn run_text(label: Seq<char>, dir: Seq<char>, cmd: Seq<char>, code: i32, body: Seq<char>) -> Seq<char> {
    headline(label, dir, cmd) + ":\nExit code: "@ + decimal_int(code as int) + "\n"@ + body + "\n"@
}

/// A command that could not be started.
pub open spec fn spawn_text(label: Seq<char>, dir: Seq<char>, cmd: Seq<char>, err: Seq<char>) -> Seq<char> {
    headline(label, dir, cmd) + ": "@ + err + "\n"@
}

/// A failing TDD red log as reported: its tail, marked when cut.
pub open spec fn red_log(output: Seq<char>) -> Seq<char> {
    let body = build_log_tail(output, BUILD_LOG_MAX_LINES as nat, BUILD_LOG_MAX_BYTES as nat);
    if body != output {
        "(log truncated — showing tail)\n"@ + body
    } else {
        body
    }
}

/// A build log as reported by the normal round: its tail, marked when cut.
pub open spec fn build_log(output: Seq<char>) -> Seq<char> {
    let body = build_log_tail(output, BUILD_LOG_MAX_LINES as nat, BUILD_LOG_MAX_BYTES as nat);
    if body != output {
        "(log truncated)\n"@ + body
    } else {
        body
    }
}

fn headline_exec(label: &str, dir: &str, cmd: &str) -> (r: String)
    ensures
        r@ == headline(label@, dir@, cmd@),
{
    let mut s = label.to_owned();
    s.append(" in ");
    s.append(dir);
    s.append(" (`");
    s.append(cmd);
    s.append("`)");
    s
}

fn run_text_exec(label: &str, dir: &str, cmd: &str, code: i32, body: &str) -> (r: String)
    ensures
        r@ == run_text(label@, dir@, cmd@, code, body@),
{
    let mut s = headline_exec(label, dir, cmd);
    s.append(":\nExit code: ");
    let d = fmt_i64(code as i64);
    s.append(d.as_str());
    s.append("\n");
    s.append(body);
    s.append("\n");
    s
}

fn spawn_text_exec(label: &str, dir: &str, cmd: &str, err: &str) -> (r: String)
    ensures
        r@ == spawn_text(label@, dir@, cmd@, err@),
{
    let mut s = headline_exec(label, dir, cmd);
    s.append(": ");
    s.append(err);
    s.append("\n");
    s
}

fn red_log_exec(output: &str) -> (r: String)
    ensures
        r@ == red_log(output@),
{
    let (body, cut) = truncate_build_log(output, BUILD_LOG_MAX_LINES, BUILD_LOG_MAX_BYTES);
    if cut {
        let mut s = "(log truncated — showing tail)\n".to_owned();
        s.append(body.as_str());
        s
    } else {
        body
    }
}

fn build_log_exec(output: &str) -> (r: String)
    ensures
        r@ == build_log(output@),
{
    let (body, cut) = truncate_build_log(output, BUILD_LOG_MAX_LINES, BUILD_LOG_MAX_BYTES);
    if cut {
        let mut s = "(log truncated)\n".to_owned();
        s.append(body.as_str());
        s
    } else {
        body
    }
}

// ---------------------------------------------------------------------------
// The TDD red round
// ---------------------------------------------------------------------------

/// Targets as `(directory, build command)` texts.
pub open spec fn target_views(t: Seq<(String, String)>) -> Seq<(Seq<char>, Seq<char>)> {
    t.map_values(|p: (String, String)| (p.0@, p.1@))
}

/// The check of one target: the text it adds at once, and the failure it
/// reports, if any.
pub open spec fn red_check_step(dir: Seq<char>, command: Seq<char>, r: Result<BuildResult, String>) -> (
    Seq<char>,
    Option<Seq<char>>,
) {
    let cmd = split_commands_spec(command).0;
    match r {
        Ok(b) => if b.success {
            (run_text("TDD RED check OK"@, dir, cmd, b.exit_code, b.output@), None)
        } else {
            (
                Seq::empty(),
                Some(run_text("TDD RED check FAILED"@, dir, cmd, b.exit_code, red_log(b.output@))),
            )
        },
        Err(e) => (Seq::empty(), Some(spawn_text("TDD RED check spawn error"@, dir, cmd, e@))),
    }
}

/// The checks of the first `i` targets: what they add at once, and their failures.
pub open spec fn red_checks(
    targets: Seq<(Seq<char>, Seq<char>)>,
    rs: Seq<Result<BuildResult, String>>,
    i: nat,
) -> (Seq<char>, Seq<Seq<char>>)
    decreases i,
{
    if i == 0 {
        (Seq::empty(), Seq::empty())
    } else {
        let (a, f) = red_checks(targets, rs, (i - 1) as nat);
        let (t, x) = red_check_step(targets[i - 1].0, targets[i - 1].1, rs[i - 1]);
        (
            a + t,
            match x {
                Some(y) => f.push(y),
                None => f,
            },
        )
    }
}

/// The test run of one target: the text it adds at once, the unexpected
/// outcome it reports, if any, and whether it failed on assertions as a red
/// test should.
pub open spec fn red_test_step(
    dir: Seq<char>,
    command: Seq<char>,
    paths: Seq<Seq<char>>,
    r: Result<BuildResult, String>,
) -> (Seq<char>, Option<Seq<char>>, bool) {
    let base = split_commands_spec(command).1;
    let cmd = scope_command_spec(base, paths);
    let scoped = cmd != base;
    match r {
        Ok(b) => if b.success {
            (
                Seq::empty(),
                Some(run_text("TDD RED unexpected pass"@, dir, cmd, b.exit_code, b.output@)),
                false,
            )
        } else if assertion_failure_spec(b.output@, paths, scoped) {
            (
                run_text("TDD RED assertion failure (expected)"@, dir, cmd, b.exit_code, b.output@),
                None,
                true,
            )
        } else {
            (
                Seq::empty(),
                Some(
                    run_text(
                        "TDD RED non-assertion failure"@,
                        dir,
                        cmd,
                        b.exit_code,
                        red_log(b.output@),
                    ),
                ),
                false,
            )
        },
        Err(e) => (Seq::empty(), Some(spawn_text("TDD RED spawn error"@, dir, cmd, e@)), false),
    }
}

/// The test runs of the first `i` targets: what they add at once, their
/// unexpected outcomes, and how many failed on assertions.
pub open spec fn red_tests(
    targets: Seq<(Seq<char>, Seq<char>)>,
    paths: Seq<Seq<char>>,
    rs: Seq<Result<BuildResult, String>>,
    i: nat,
) -> (Seq<char>, Seq<Seq<char>>, nat)
    decreases i,
{
    if i == 0 {
        (Seq::empty(), Seq::empty(), 0)
    } else {
        let (a, u, n) = red_tests(targets, paths, rs, (i - 1) as nat);
        let (t, x, hit) = red_test_step(targets[i - 1].0, targets[i - 1].1, paths, rs[i - 1]);
        (
            a + t,
            match x {
                Some(y) => u.push(y),
                None => u,
            },
            if hit {
                n + 1
            } else {
                n
            },
        )
    }
}

/// What a TDD red round adds to the accumulated data, and whether it ends
/// the triage: every check must pass, no test run may pass or fail for
/// another reason, and at least one must fail on its assertions. The test
/// results are read only when every check passed.
pub open spec fn tdd_red_verdict(
    targets: Seq<(Seq<char>, Seq<char>)>,
    paths: Seq<Seq<char>>,
    checks: Seq<Result<BuildResult, String>>,
    tests: Seq<Result<BuildResult, String>>,
) -> (Seq<char>, bool) {
    let (ok, fails) = red_checks(targets, checks, targets.len());
    if fails.len() > 0 {
        (ok + join(fails, "\n---\n"@), false)
    } else {
        let (asserted, unexpected, n) = red_tests(targets, paths, tests, targets.len());
        if unexpected.len() > 0 {
            (ok + asserted + join(unexpected, "\n---\n"@), false)
        } else {
            (ok + asserted, n > 0)
        }
    }
}

fn red_check_step_exec(dir: &str, command: &str, r: &Result<BuildResult, String>) -> (out: (
    String,
    Option<String>,
))
    ensures
        red_check_step(dir@, command@, *r) == (
            out.0@,
            match out.1 {
                Some(y) => Some(y@),
                None => None,
            },
        ),
{
    let (cmd, _) = split_check_and_test_commands(command);
    match r {
        Ok(b) => if b.success {
            (run_text_exec("TDD RED check OK", dir, cmd.as_str(), b.exit_code, b.output.as_str()), None)
        } else {
            let log = red_log_exec(b.output.as_str());
            (
                String::new(),
                Some(run_text_exec("TDD RED check FAILED", dir, cmd.as_str(), b.exit_code, log.as_str())),
            )
        },
        Err(e) => (
            String::new(),
            Some(spawn_text_exec("TDD RED check spawn error", dir, cmd.as_str(), e.as_str())),
        ),
    }
}

fn red_test_step_exec(
    dir: &str,
    command: &str,
    paths: &[String],
    r: &Result<BuildResult, String>,
) -> (out: (String, Option<String>, bool))
    ensures
        red_test_step(dir@, command@, string_views(paths@), *r) == (
            out.0@,
            match out.1 {
                Some(y) => Some(y@),
                None => None,
            },
            out.2,
        ),
{
    let (_, base) = split_check_and_test_commands(command);
    let cmd = scope_test_command_for_paths(base.as_str(), paths);
    let scoped = !crate::text::str_eq(cmd.as_str(), base.as_str());
    match r {
        Ok(b) => if b.success {
            (
                String::new(),
                Some(run_text_exec("TDD RED unexpected pass", dir, cmd.as_str(), b.exit_code, b.output.as_str())),
                false,
            )
        } else if is_assertion_test_failure(b.output.as_str(), paths, scoped) {
            (
                run_text_exec(
                    "TDD RED assertion failure (expected)",
                    dir,
                    cmd.as_str(),
                    b.exit_code,
                    b.output.as_str(),
                ),
                None,
                true,
            )
        } else {
            let log = red_log_exec(b.output.as_str());
            (
                String::new(),
                Some(run_text_exec("TDD RED non-assertion failure", dir, cmd.as_str(), b.exit_code, log.as_str())),
                false,
            )
        },
        Err(e) => (
            String::new(),
            Some(spawn_text_exec("TDD RED spawn error", dir, cmd.as_str(), e.as_str())),
            false,
        ),
    }
}


/// Only the red checks of the first `i` runs count.
proof fn lemma_red_checks_prefix(
    t: Seq<(Seq<char>, Seq<char>)>,
    a: Seq<Result<BuildResult, String>>,
    b: Seq<Result<BuildResult, String>>,
    i: nat,
)
    requires
        i <= a.len(),
        i <= b.len(),
        forall|j: int| 0 <= j < i ==> a[j] == b[j],
    ensures
        red_checks(t, a, i) == red_checks(t, b, i),
    decreases i,
{
    if i > 0 {
        lemma_red_checks_prefix(t, a, b, (i - 1) as nat);
    }
}

/// Only the red test runs of the first `i` runs count.
proof fn lemma_red_tests_prefix(
    t: Seq<(Seq<char>, Seq<char>)>,
    p: Seq<Seq<char>>,
    a: Seq<Result<BuildResult, String>>,
    b: Seq<Result<BuildResult, String>>,
    i: nat,
)
    requires
        i <= a.len(),
        i <= b.len(),
        forall|j: int| 0 <= j < i ==> a[j] == b[j],
    ensures
        red_tests(t, p, a, i) == red_tests(t, p, b, i),
    decreases i,
{
    if i > 0 {
        lemma_red_tests_prefix(t, p, a, b, (i - 1) as nat);
    }
}

/// The commands a TDD red round sent: the check command of every target
/// (`checks`), then, when every check passed, its test command narrowed to the
/// red test files (`tests`).
pub open spec fn red_round_ran<B: BuildCommandRunner>(
    runner: &B,
    targets: Seq<(Seq<char>, Seq<char>)>,
    paths: Seq<Seq<char>>,
    checks: Seq<Result<BuildResult, String>>,
    tests: Seq<Result<BuildResult, String>>,
) -> bool {
    &&& forall|i: int|
        0 <= i < targets.len() ==> #[trigger] runner.ran(
            targets[i].0,
            split_commands_spec(targets[i].1).0,
            checks[i],
        )
    &&& red_checks(targets, checks, targets.len()).1.len() == 0 ==> forall|i: int|
        0 <= i < targets.len() ==> #[trigger] runner.ran(
            targets[i].0,
            scope_command_spec(split_commands_spec(targets[i].1).1, paths),
            tests[i],
        )
}

/// The commands a build round sent: every target's build command in its directory.
pub open spec fn build_round_ran<B: BuildCommandRunner>(
    runner: &B,
    targets: Seq<(Seq<char>, Seq<char>)>,
    rs: Seq<Result<BuildResult, String>>,
) -> bool {
    forall|i: int| 0 <= i < targets.len() ==> #[trigger] runner.ran(targets[i].0, targets[i].1, rs[i])
}

/// The context after a round that adds `added` to the accumulated data and,
/// when `done`, finishes with `prompt`; nothing else changes.
pub open spec fn round_applied(
    before: AgentContext,
    after: AgentContext,
    added: Seq<char>,
    done: bool,
    prompt: Seq<char>,
) -> bool {
    &&& after.accumulated_data@ == before.accumulated_data@ + added
    &&& after.is_finished == (done || before.is_finished)
    &&& after.input_prompt@ == if done {
        prompt
    } else {
        before.input_prompt@
    }
    &&& after.iterations == before.iterations
    &&& after.max_iterations == before.max_iterations
    &&& after.agent_completed == before.agent_completed
    &&& after.touched_files == before.touched_files
    &&& after.last_tool_call == before.last_tool_call
}

/// Runs the TDD red round: the check command of every target, then, when all
/// pass, the test command of every target narrowed to the red test files. It
/// finishes the triage when everything compiles and the tests fail on their
/// assertions; whatever the runner reports, the round is `tdd_red_verdict` of
/// what it reported.
pub fn try_finish_tdd_red<B: BuildCommandRunner>(
    runner: &B,
    targets: &[(String, String)],
    test_paths: &[String],
    context: &mut AgentContext,
) -> (r: bool)
    ensures
        exists|checks: Seq<Result<BuildResult, String>>, tests: Seq<Result<BuildResult, String>>|
            #![trigger tdd_red_verdict(target_views(targets@), string_views(test_paths@), checks, tests)]
            checks.len() == targets@.len() && tests.len() == targets@.len() && red_round_ran(
                runner,
                target_views(targets@),
                string_views(test_paths@),
                checks,
                tests,
            ) && r == tdd_red_verdict(
                target_views(targets@),
                string_views(test_paths@),
                checks,
                tests,
            ).1 && round_applied(
                *old(context),
                *final(context),
                tdd_red_verdict(target_views(targets@), string_views(test_paths@), checks, tests).0,
                r,
                TDD_RED_DONE@,
            ),
{
    let ghost tv = target_views(targets@);
    let ghost pv = string_views(test_paths@);
    let mut checks: Vec<Result<BuildResult, String>> = Vec::new();
    let mut ok = String::new();
    let mut fails: Vec<String> = Vec::new();
    let mut i: usize = 0;
    while i < targets.len()
        invariant
            i <= targets@.len(),
            tv == target_views(targets@),
            checks@.len() == i,
            (ok@, string_views(fails@)) == red_checks(tv, checks@, i as nat),
            forall|k: int|
                0 <= k < i ==> #[trigger] runner.ran(tv[k].0, split_commands_spec(tv[k].1).0, checks@[k]),
        decreases targets.len() - i,
    {
        let dir = targets[i].0.as_str();
        let command = targets[i].1.as_str();
        let (check_cmd, _) = split_check_and_test_commands(command);
        let res = runner.run_build_command(dir, check_cmd.as_str());
        let (t, x) = red_check_step_exec(dir, command, &res);
        let ghost before_checks = checks@;
        let ghost before_fails = string_views(fails@);
        ok.append(t.as_str());
        match x {
            Some(y) => {
                let ghost yv = y@;
                fails.push(y);
                assert(string_views(fails@) =~= before_fails.push(yv));
            },
            None => {},
        }
        checks.push(res);
        proof {
            lemma_red_checks_prefix(tv, before_checks, checks@, i as nat);
            assert(checks@[i as int] == res);
            assert(tv[i as int] == (targets@[i as int].0@, targets@[i as int].1@));
        }
        i = i + 1;
    }
    if fails.len() > 0 {
        let joined = join_strings(fails.as_slice(), "\n---\n");
        context.accumulated_data.append(ok.as_str());
        context.accumulated_data.append(joined.as_str());
        proof {
            let v = tdd_red_verdict(tv, pv, checks@, checks@);
            assert(old(context).accumulated_data@ + ok@ + joined@ =~= old(context).accumulated_data@ + v.0);
            assert(round_applied(*old(context), *context, v.0, false, TDD_RED_DONE@));
        }
        return false;
    }
    let mut tests: Vec<Result<BuildResult, String>> = Vec::new();
    let mut asserted = String::new();
    let mut unexpected: Vec<String> = Vec::new();
    let mut hits: usize = 0;
    let mut j: usize = 0;
    while j < targets.len()
        invariant
            j <= targets@.len(),
            tv == target_views(targets@),
            pv == string_views(test_paths@),
            tests@.len() == j,
            hits <= j,
            checks@.len() == targets@.len(),
            forall|k: int|
                0 <= k < targets@.len() ==> #[trigger] runner.ran(
                    tv[k].0,
                    split_commands_spec(tv[k].1).0,
                    checks@[k],
                ),
            forall|k: int|
                0 <= k < j ==> #[trigger] runner.ran(
                    tv[k].0,
                    scope_command_spec(split_commands_spec(tv[k].1).1, pv),
                    tests@[k],
                ),
            (asserted@, string_views(unexpected@), hits as nat) == red_tests(tv, pv, tests@, j as nat),
        decreases targets.len() - j,
    {
        let dir = targets[j].0.as_str();
        let command = targets[j].1.as_str();
        let (_, base) = split_check_and_test_commands(command);
        let test_cmd = scope_test_command_for_paths(base.as_str(), test_paths);
        let res = runner.run_build_command(dir, test_cmd.as_str());
        let (t, x, hit) = red_test_step_exec(dir, command, test_paths, &res);
        let ghost before_tests = tests@;
        let ghost before_unexpected = string_views(unexpected@);
        asserted.append(t.as_str());
        match x {
            Some(y) => {
                let ghost yv = y@;
                unexpected.push(y);
                assert(string_views(unexpected@) =~= before_unexpected.push(yv));
            },
            None => {},
        }
        if hit {
            hits = hits + 1;
        }
        tests.push(res);
        proof {
            lemma_red_tests_prefix(tv, pv, before_tests, tests@, j as nat);
            assert(tests@[j as int] == res);
            assert(tv[j as int] == (targets@[j as int].0@, targets@[j as int].1@));
        }
        j = j + 1;
    }
    context.accumulated_data.append(ok.as_str());
    context.accumulated_data.append(asserted.as_str());
    let ghost v = tdd_red_verdict(tv, pv, checks@, tests@);
    if unexpected.len() > 0 {
        let joined = join_strings(unexpected.as_slice(), "\n---\n");
        context.accumulated_data.append(joined.as_str());
        proof {
            assert(old(context).accumulated_data@ + ok@ + asserted@ + joined@ =~= old(context).accumulated_data@ + v.0);
            assert(round_applied(*old(context), *context, v.0, false, TDD_RED_DONE@));
        }
        return false;
    }
    assert(old(context).accumulated_data@ + ok@ + asserted@ =~= old(context).accumulated_data@ + v.0);
    if hits > 0 {
        context.is_finished = true;
        context.input_prompt = TDD_RED_DONE.to_owned();
        assert(round_applied(*old(context), *context, v.0, true, TDD_RED_DONE@));
        return true;
    }
    assert(round_applied(*old(context), *context, v.0, false, TDD_RED_DONE@));
    false
}


// ---------------------------------------------------------------------------
// The normal build round
// ---------------------------------------------------------------------------

/// `Workspace: <dir>\nCommand: `<command>``.
pub open spec fn workspace_command(dir: Seq<char>, cmd: Seq<char>) -> Seq<char> {
    "Workspace: "@ + dir + "\nCommand: `"@ + cmd + "`"@
}

/// The log body of a passing build: the kept log without trailing
/// whitespace, or a note that there was none.
pub open spec fn pass_log_body(log: Seq<char>) -> Seq<char> {
    if trim(log).len() == 0 {
        "(no further stdout/stderr)"@
    } else {
        trim_end(log)
    }
}

/// One build command: the text it adds at once, and the error it reports, if any.
pub open spec fn build_step(dir: Seq<char>, cmd: Seq<char>, r: Result<BuildResult, String>) -> (
    Seq<char>,
    Option<Seq<char>>,
) {
    match r {
        Ok(b) => if b.success {
            (
                workspace_command(dir, cmd) + "\nExit code: "@ + decimal_int(b.exit_code as int)
                    + "\nBuild output:\n"@ + pass_log_body(build_log(b.output@)) + "\n"@,
                None,
            )
        } else {
            (
                Seq::empty(),
                Some(
                    workspace_command(dir, cmd) + "\nExit code: "@ + decimal_int(b.exit_code as int)
                        + "\nBuild FAILED:\n"@ + build_log(b.output@) + "\n"@,
                ),
            )
        },
        Err(e) => (
            Seq::empty(),
            Some(workspace_command(dir, cmd) + "\nSpawn error: "@ + e@ + "\n"@),
        ),
    }
}

/// The builds of the first `i` targets: what they add at once, and their errors.
pub open spec fn build_steps(
    targets: Seq<(Seq<char>, Seq<char>)>,
    rs: Seq<Result<BuildResult, String>>,
    i: nat,
) -> (Seq<char>, Seq<Seq<char>>)
    decreases i,
{
    if i == 0 {
        (Seq::empty(), Seq::empty())
    } else {
        let (a, f) = build_steps(targets, rs, (i - 1) as nat);
        let (t, x) = build_step(targets[i - 1].0, targets[i - 1].1, rs[i - 1]);
        (
            a + t,
            match x {
                Some(y) => f.push(y),
                None => f,
            },
        )
    }
}

/// What a build round adds to the accumulated data, and whether every
/// target built (the triage then passes).
pub open spec fn build_round_verdict(
    targets: Seq<(Seq<char>, Seq<char>)>,
    rs: Seq<Result<BuildResult, String>>,
) -> (Seq<char>, bool) {
    let (ok, errors) = build_steps(targets, rs, targets.len());
    if errors.len() == 0 {
        (ok, true)
    } else {
        (ok + join(errors, "\n---\n"@), false)
    }
}

proof fn lemma_build_steps_prefix(
    t: Seq<(Seq<char>, Seq<char>)>,
    a: Seq<Result<BuildResult, String>>,
    b: Seq<Result<BuildResult, String>>,
    i: nat,
)
    requires
        i <= a.len(),
        i <= b.len(),
        forall|j: int| 0 <= j < i ==> a[j] == b[j],
    ensures
        build_steps(t, a, i) == build_steps(t, b, i),
    decreases i,
{
    if i > 0 {
        lemma_build_steps_prefix(t, a, b, (i - 1) as nat);
    }
}

fn workspace_command_exec(dir: &str, cmd: &str) -> (r: String)
    ensures
        r@ == workspace_command(dir@, cmd@),
{
    let mut s = "Workspace: ".to_owned();
    s.append(dir);
    s.append("\nCommand: `");
    s.append(cmd);
    s.append("`");
    s
}

fn build_step_exec(dir: &str, cmd: &str, r: &Result<BuildResult, String>) -> (out: (String, Option<String>))
    ensures
        build_step(dir@, cmd@, *r) == (
            out.0@,
            match out.1 {
                Some(y) => Some(y@),
                None => None,
            },
        ),
{
    let mut s = workspace_command_exec(dir, cmd);
    match r {
        Ok(b) => {
            s.append("\nExit code: ");
            let d = fmt_i64(b.exit_code as i64);
            s.append(d.as_str());
            let log = build_log_exec(b.output.as_str());
            if b.success {
                s.append("\nBuild output:\n");
                let t = str_trim(log.as_str());
                if t.as_str().is_empty() {
                    s.append("(no further stdout/stderr)");
                } else {
                    let lc = chars_of(log.as_str());
                    let e = trim_end_exec(lc.as_slice());
                    let es = string_of(e.as_slice());
                    s.append(es.as_str());
                }
                s.append("\n");
                (s, None)
            } else {
                s.append("\nBuild FAILED:\n");
                s.append(log.as_str());
                s.append("\n");
                (String::new(), Some(s))
            }
        },
        Err(e) => {
            s.append("\nSpawn error: ");
            s.append(e.as_str());
            s.append("\n");
            (String::new(), Some(s))
        },
    }
}

/// Runs every target's build command. When all succeed the triage passes
/// (the prompt becomes the pass marker); otherwise the errors are added to
/// the accumulated data. Whatever the runner reports, the round is
/// `build_round_verdict` of what it reported.
pub fn run_build_targets<B: BuildCommandRunner>(
    runner: &B,
    targets: &[(String, String)],
    context: &mut AgentContext,
) -> (r: bool)
    ensures
        exists|rs: Seq<Result<BuildResult, String>>|
            #![trigger build_round_verdict(target_views(targets@), rs)]
            rs.len() == targets@.len() && build_round_ran(runner, target_views(targets@), rs) && r
                == build_round_verdict(target_views(targets@), rs).1
                && round_applied(
                *old(context),
                *final(context),
                build_round_verdict(target_views(targets@), rs).0,
                r,
                crate::report::TRIAGE_PASS_MARKER@,
            ),
{
    let ghost tv = target_views(targets@);
    let mut rs: Vec<Result<BuildResult, String>> = Vec::new();
    let mut ok = String::new();
    let mut errors: Vec<String> = Vec::new();
    let mut i: usize = 0;
    while i < targets.len()
        invariant
            i <= targets@.len(),
            tv == target_views(targets@),
            rs@.len() == i,
            (ok@, string_views(errors@)) == build_steps(tv, rs@, i as nat),
            forall|k: int| 0 <= k < i ==> #[trigger] runner.ran(tv[k].0, tv[k].1, rs@[k]),
        decreases targets.len() - i,
    {
        let dir = targets[i].0.as_str();
        let command = targets[i].1.as_str();
        let res = runner.run_build_command(dir, command);
        let (t, x) = build_step_exec(dir, command, &res);
        let ghost before_rs = rs@;
        let ghost before_errors = string_views(errors@);
        ok.append(t.as_str());
        match x {
            Some(y) => {
                let ghost yv = y@;
                errors.push(y);
                assert(string_views(errors@) =~= before_errors.push(yv));
            },
            None => {},
        }
        rs.push(res);
        proof {
            lemma_build_steps_prefix(tv, before_rs, rs@, i as nat);
            assert(rs@[i as int] == res);
            assert(tv[i as int] == (targets@[i as int].0@, targets@[i as int].1@));
        }
        i = i + 1;
    }
    context.accumulated_data.append(ok.as_str());
    let ghost v = build_round_verdict(tv, rs@);
    if errors.len() == 0 {
        context.is_finished = true;
        context.input_prompt = crate::report::TRIAGE_PASS_MARKER.to_owned();
        assert(round_applied(*old(context), *context, v.0, true, crate::report::TRIAGE_PASS_MARKER@));
        return true;
    }
    let joined = join_strings(errors.as_slice(), "\n---\n");
    context.accumulated_data.append(joined.as_str());
    assert(old(context).accumulated_data@ + ok@ + joined@ =~= old(context).accumulated_data@ + v.0);
    assert(round_applied(*old(context), *context, v.0, false, crate::report::TRIAGE_PASS_MARKER@));
    false
}


// ---------------------------------------------------------------------------
// What a round's verdict means
// ---------------------------------------------------------------------------

/// A run that succeeded.
pub open spec fn succeeded(r: Result<BuildResult, String>) -> bool {
    r matches Ok(b) && b.success
}

proof fn lemma_red_checks_clean(t: Seq<(Seq<char>, Seq<char>)>, rs: Seq<Result<BuildResult, String>>, i: nat)
    requires
        i <= rs.len(),
    ensures
        red_checks(t, rs, i).1.len() == 0 <==> forall|j: int| 0 <= j < i ==> #[trigger] succeeded(rs[j]),
    decreases i,
{
    if i > 0 {
        lemma_red_checks_clean(t, rs, (i - 1) as nat);
        let step = red_check_step(t[i - 1].0, t[i - 1].1, rs[i - 1]);
        assert(step.1 is None <==> succeeded(rs[i - 1]));
        if forall|j: int| 0 <= j < i ==> #[trigger] succeeded(rs[j]) {
            assert forall|j: int| 0 <= j < i - 1 implies #[trigger] succeeded(rs[j]) by {
                assert(0 <= j < i);
            }
            assert(succeeded(rs[i - 1]));
        }
    }
}

proof fn lemma_red_tests_count(
    t: Seq<(Seq<char>, Seq<char>)>,
    p: Seq<Seq<char>>,
    rs: Seq<Result<BuildResult, String>>,
    i: nat,
)
    requires
        i <= rs.len(),
    ensures
        red_tests(t, p, rs, i).1.len() + red_tests(t, p, rs, i).2 == i,
        red_tests(t, p, rs, i).1.len() == 0 <==> forall|j: int|
            0 <= j < i ==> #[trigger] red_test_step(t[j].0, t[j].1, p, rs[j]).2,
    decreases i,
{
    if i > 0 {
        lemma_red_tests_count(t, p, rs, (i - 1) as nat);
        let step = red_test_step(t[i - 1].0, t[i - 1].1, p, rs[i - 1]);
        assert(step.1 is None <==> step.2);
        if forall|j: int| 0 <= j < i ==> #[trigger] red_test_step(t[j].0, t[j].1, p, rs[j]).2 {
            assert forall|j: int| 0 <= j < i - 1 implies #[trigger] red_test_step(t[j].0, t[j].1, p, rs[j]).2 by {
                assert(0 <= j < i);
            }
        }
    }
}

/// A TDD red round finishes the triage exactly when there is a target, every
/// check command succeeded, and every test run failed on its assertions (it
/// ran, did not pass, and its failure is an assertion failure).
pub proof fn lemma_tdd_red_done_iff(
    targets: Seq<(Seq<char>, Seq<char>)>,
    paths: Seq<Seq<char>>,
    checks: Seq<Result<BuildResult, String>>,
    tests: Seq<Result<BuildResult, String>>,
)
    requires
        checks.len() == targets.len(),
        tests.len() == targets.len(),
    ensures
        tdd_red_verdict(targets, paths, checks, tests).1 <==> (targets.len() > 0 && forall|j: int|
            0 <= j < targets.len() ==> #[trigger] succeeded(checks[j]) && red_test_step(
                targets[j].0,
                targets[j].1,
                paths,
                tests[j],
            ).2),
{
    lemma_red_checks_clean(targets, checks, targets.len());
    lemma_red_tests_count(targets, paths, tests, targets.len());
    if targets.len() > 0 && forall|j: int|
        0 <= j < targets.len() ==> #[trigger] succeeded(checks[j]) && red_test_step(
            targets[j].0,
            targets[j].1,
            paths,
            tests[j],
        ).2 {
        assert forall|j: int| 0 <= j < targets.len() implies #[trigger] succeeded(checks[j]) by {
            assert(succeeded(checks[j]));
        }
        assert forall|j: int| 0 <= j < targets.len() implies #[trigger] red_test_step(
            targets[j].0,
            targets[j].1,
            paths,
            tests[j],
        ).2 by {
            assert(succeeded(checks[j]));
        }
    }
}

proof fn lemma_build_steps_clean(t: Seq<(Seq<char>, Seq<char>)>, rs: Seq<Result<BuildResult, String>>, i: nat)
    requires
        i <= rs.len(),
    ensures
        build_steps(t, rs, i).1.len() == 0 <==> forall|j: int| 0 <= j < i ==> #[trigger] succeeded(rs[j]),
    decreases i,
{
    if i > 0 {
        lemma_build_steps_clean(t, rs, (i - 1) as nat);
        let step = build_step(t[i - 1].0, t[i - 1].1, rs[i - 1]);
        assert(step.1 is None <==> succeeded(rs[i - 1]));
        if forall|j: int| 0 <= j < i ==> #[trigger] succeeded(rs[j]) {
            assert forall|j: int| 0 <= j < i - 1 implies #[trigger] succeeded(rs[j]) by {
                assert(0 <= j < i);
            }
            assert(succeeded(rs[i - 1]));
        }
    }
}

/// A build round passes exactly when every target's build command succeeded
/// (so a round with no target passes); a failing round reports at least one
/// error.
pub proof fn lemma_build_round_passes_iff(
    targets: Seq<(Seq<char>, Seq<char>)>,
    rs: Seq<Result<BuildResult, String>>,
)
    requires
        rs.len() == targets.len(),
    ensures
        build_round_verdict(targets, rs).1 <==> forall|j: int| 0 <= j < targets.len() ==> #[trigger] succeeded(rs[j]),
{
    lemma_build_steps_clean(targets, rs, targets.len());
}

} // verus!
