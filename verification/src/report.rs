//! Reports of the builder and triage agents: reading build evidence out of
//! the observation log, and the markdown handed back to the caller.
use vstd::prelude::*;

use crate::llm::AgentContext;
use crate::text::{
    chars_of, contains, copy_range, ends_with, find_from, join, lines, parse_int, rfind,
    starts_with, str_contains, string_of, string_views, trim, utf8_len, views,
};

verus! {

pub const TRIAGE_PASS_MARKER: &'static str = "[TRIAGE PASS]";

pub const BUILDER_GREEN_MARKER: &'static str = "[BUILDER GREEN OK]";

pub const BUILDER_FAIL_MARKER: &'static str = "[BUILDER FAIL EVIDENCE]";

pub const TRIAGE_RESULT_MARKER: &'static str = "\n[TRIAGE RESULT]: ";

pub const DEBUG_TRACE_MAX: usize = 2000;

pub const LOG_EXCERPT_LINES: usize = 40;

// ---------------------------------------------------------------------------
// Triage verdict and report
// ---------------------------------------------------------------------------

/// Triage passed when its prompt carries the pass marker or the
/// all-green sentence.
pub open spec fn triage_passed_spec(prompt: Seq<char>) -> bool {
    contains(prompt, TRIAGE_PASS_MARKER@) || contains(
        prompt,
        "All builds/tests completed successfully."@,
    )
}

/// Did the triage run pass?
pub fn triage_passed(context: &AgentContext) -> (b: bool)
    ensures
        b == triage_passed_spec(context.input_prompt@),
{
    str_contains(context.input_prompt.as_str(), TRIAGE_PASS_MARKER) || str_contains(
        context.input_prompt.as_str(),
        "All builds/tests completed successfully.",
    )
}

/// The pass report of a triage run.
pub open spec fn triage_success_spec(
    accumulated: Seq<char>,
    iterations: u32,
    targets: Seq<Seq<char>>,
) -> Seq<char> {
    "## Triage: PASS\n\n"@ + TRIAGE_PASS_MARKER@ + "\n\n"@ + (if accumulated.len() > 0 {
        "### Verification log\n\n"@ + trim(accumulated) + "\n"@
    } else {
        "### Verification log\n\n(no build output captured)\n"@
    }) + "\n### Summary\n\n"@
        + "- Status: all configured build/test commands exited successfully\n- Iterations: "@
        + crate::text::decimal(iterations as nat) + "\n"@ + (if targets.len() > 0 {
        "- Target files verified: "@ + join(targets, ", "@) + "\n"@
    } else {
        seq![]
    })
}

/// A triage pass report opens with its heading, the pass marker and the
/// verification log heading, states the iteration count on its summary line,
/// and ends with the verified target files when there are any (else with the
/// iteration line).
pub proof fn triage_success_report_shape(accumulated: Seq<char>, iterations: u32, targets: Seq<Seq<char>>)
    ensures
        starts_with(
            triage_success_spec(accumulated, iterations, targets),
            "## Triage: PASS\n\n"@ + TRIAGE_PASS_MARKER@ + "\n\n"@ + "### Verification log\n\n"@,
        ),
        targets.len() > 0 ==> ends_with(
            triage_success_spec(accumulated, iterations, targets),
            "- Iterations: "@ + crate::text::decimal(iterations as nat) + "\n"@ + "- Target files verified: "@
                + join(targets, ", "@) + "\n"@,
        ),
        targets.len() == 0 ==> ends_with(
            triage_success_spec(accumulated, iterations, targets),
            "- Iterations: "@ + crate::text::decimal(iterations as nat) + "\n"@,
        ),
{
    reveal_strlit("- Status: all configured build/test commands exited successfully\n- Iterations: ");
    reveal_strlit("- Iterations: ");
    reveal_strlit("### Verification log\n\n(no build output captured)\n");
    reveal_strlit("### Verification log\n\n");
    let r = triage_success_spec(accumulated, iterations, targets);
    let h = "## Triage: PASS\n\n"@ + TRIAGE_PASS_MARKER@ + "\n\n"@;
    let logp = if accumulated.len() > 0 {
        "### Verification log\n\n"@ + trim(accumulated) + "\n"@
    } else {
        "### Verification log\n\n(no build output captured)\n"@
    };
    let status = "- Status: all configured build/test commands exited successfully\n- Iterations: "@;
    let it = "- Iterations: "@;
    let d = crate::text::decimal(iterations as nat) + "\n"@;
    let tl = if targets.len() > 0 {
        "- Target files verified: "@ + join(targets, ", "@) + "\n"@
    } else {
        seq![]
    };
    let mid = h + logp + "\n### Summary\n\n"@ + status;
    assert(r =~= mid + d + tl);
    let vl = "### Verification log\n\n"@;
    assert(logp.subrange(0, vl.len() as int) =~= vl) by {
        if accumulated.len() == 0 {
            assert("### Verification log\n\n(no build output captured)\n"@.subrange(0, vl.len() as int)
                =~= vl);
        }
    }
    assert(r.subrange(0, (h + vl).len() as int) =~= h + vl);
    reveal_strlit("- Status: all configured build/test commands exited successfully\n");
    let sh = "- Status: all configured build/test commands exited successfully\n"@;
    assert(status =~= sh + it);
    let tail = it + d + tl;
    let front = h + logp + "\n### Summary\n\n"@ + sh;
    assert(r =~= front + tail);
    assert(r.subrange(r.len() - tail.len(), r.len() as int) =~= tail);
    if targets.len() == 0 {
        assert(tail =~= it + crate::text::decimal(iterations as nat) + "\n"@);
    } else {
        assert(tail =~= it + crate::text::decimal(iterations as nat) + "\n"@ + "- Target files verified: "@
            + join(targets, ", "@) + "\n"@);
    }
}

/// A triage success report carries the pass marker, so a prompt that holds the
/// report reads as a passed triage.
pub proof fn triage_success_report_reads_as_pass(accumulated: Seq<char>, iterations: u32, targets: Seq<Seq<char>>)
    ensures
        triage_passed_spec(triage_success_spec(accumulated, iterations, targets)),
{
    let r = triage_success_spec(accumulated, iterations, targets);
    let h = "## Triage: PASS\n\n"@;
    let m = TRIAGE_PASS_MARKER@;
    let rest = r.subrange((h.len() + m.len()) as int, r.len() as int);
    assert(r =~= h + m + rest);
    assert(r.subrange(h.len() as int, (h.len() + m.len()) as int) =~= m);
    assert(crate::text::matches_at(r, m, h.len() as int));
}

/// Formats the report of a passing triage run.
pub fn format_triage_success(context: &AgentContext, target_paths: &[String]) -> (r: String)
    ensures
        r@ == triage_success_spec(
            context.accumulated_data@,
            context.iterations,
            string_views(target_paths@),
        ),
{
    let mut report = "## Triage: PASS\n\n".to_owned();
    report.append(TRIAGE_PASS_MARKER);
    report.append("\n\n");
    if !context.accumulated_data.as_str().is_empty() {
        report.append("### Verification log\n\n");
        let t = crate::text::str_trim(context.accumulated_data.as_str());
        report.append(t.as_str());
        report.append("\n");
    } else {
        report.append("### Verification log\n\n(no build output captured)\n");
    }
    report.append("\n### Summary\n\n");
    report.append(
        "- Status: all configured build/test commands exited successfully\n- Iterations: ",
    );
    report.append(crate::text::fmt_u64(context.iterations as u64).as_str());
    report.append("\n");
    if target_paths.len() > 0 {
        report.append("- Target files verified: ");
        let list = crate::text::join_strings(target_paths, ", ");
        report.append(list.as_str());
        report.append("\n");
    }
    report
}

// ---------------------------------------------------------------------------
// Build evidence in a triage result block
// ---------------------------------------------------------------------------

/// The command inside `(`…`)` on a line, if any.
pub open spec fn backtick_command_spec(line: Seq<char>) -> Option<Seq<char>> {
    match find_from(line, "(`"@, 0) {
        None => None,
        Some(i) => {
            let rest = line.skip(i + 2);
            match find_from(rest, "`)"@, 0) {
                None => None,
                Some(j) => Some(rest.take(j)),
            }
        },
    }
}

/// Reads the command quoted in `(`…`)` on a line.
pub fn backtick_command(line: &str) -> (r: Option<String>)
    ensures
        crate::planner::opt_view(r) == backtick_command_spec(line@),
{
    proof {
        reveal_strlit("(`");
    }
    let c = chars_of(line);
    let open = chars_of("(`");
    let close = chars_of("`)");
    match crate::text::find_from_exec(c.as_slice(), open.as_slice(), 0) {
        None => None,
        Some(i) => {
            proof {
                crate::text::lemma_find_from(c@, open@, 0);
                assert(open@.len() == 2);
                assert(crate::text::matches_at(c@, open@, i as int));
                assert(i + 2 <= c@.len());
                assert(c@.len() == c.len());
            }
            let rest = copy_range(c.as_slice(), i + 2, c.len());
            assert(rest@ =~= line@.skip(i + 2));
            match crate::text::find_from_exec(rest.as_slice(), close.as_slice(), 0) {
                None => None,
                Some(j) => {
                    proof {
                        crate::text::lemma_find_from(rest@, close@, 0);
                    }
                    let cmd = copy_range(rest.as_slice(), 0, j);
                    assert(cmd@ =~= rest@.take(j as int));
                    Some(string_of(cmd.as_slice()))
                },
            }
        },
    }
}

/// What is read so far: command, exit code, captured log, capturing.
pub type EvidenceState = (Option<Seq<char>>, Option<int>, Seq<char>, bool);

/// The command of a `Command: `…`` line.
pub open spec fn command_line(line: Seq<char>) -> Option<Seq<char>> {
    if starts_with(line, "Command: `"@) && line.len() > 10 && line.last() == '`' {
        Some(line.subrange(10, line.len() - 1))
    } else {
        None
    }
}

/// One line of a triage result block: command lines set the command
/// (the first backtick-quoted command only when none is set), `Exit code:`
/// and build-output headers start capturing, and captured lines are kept.
pub open spec fn evidence_step(st: EvidenceState, line: Seq<char>) -> EvidenceState {
    let (cmd, code, log, capture) = st;
    if command_line(line) is Some {
        (command_line(line), code, log, false)
    } else if backtick_command_spec(line) is Some {
        (if cmd is Some {
            cmd
        } else {
            backtick_command_spec(line)
        }, code, log, false)
    } else if starts_with(line, "Exit code: "@) {
        (cmd, match parse_int(trim(line.skip(11))) {
            Some(v) => if i32::MIN <= v <= i32::MAX {
                Some(v)
            } else {
                None
            },
            None => None,
        }, log, true)
    } else if line == "Build output:"@ || starts_with(line, "Build FAILED:"@) {
        (cmd, code, log, true)
    } else if capture {
        (cmd, code, log + line + "\n"@, capture)
    } else {
        st
    }
}

pub open spec fn evidence_fold(ls: Seq<Seq<char>>) -> EvidenceState
    decreases ls.len(),
{
    if ls.len() == 0 {
        (None, None, seq![], false)
    } else {
        evidence_step(evidence_fold(ls.drop_last()), ls.last())
    }
}

/// The command, exit code and build log of a triage result block.
pub fn parse_triage_evidence(block: &str) -> (r: (Option<String>, Option<i32>, String))
    ensures
        ({
            let (cmd, code, log, _) = evidence_fold(lines(block@));
            &&& crate::planner::opt_view(r.0) == cmd
            &&& match r.1 {
                Some(v) => code == Some(v as int),
                None => code is None,
            }
            &&& r.2@ == log
        }),
{
    proof {
        reveal_strlit("Command: `");
        reveal_strlit("Exit code: ");
    }
    let ls = crate::text::lines_exec(chars_of(block).as_slice());
    let ghost lv = views(ls@);
    let mut command: Option<String> = None;
    let mut exit_code: Option<i32> = None;
    let mut build_log = String::new();
    let mut capture = false;
    let cmd_prefix = chars_of("Command: `");
    let exit_prefix = chars_of("Exit code: ");
    let mut i: usize = 0;
    while i < ls.len()
        invariant
            i <= ls@.len(),
            lv == views(ls@),
            lv == lines(block@),
            cmd_prefix@ == "Command: `"@,
            exit_prefix@ == "Exit code: "@,
            ({
                let (cmd, code, log, cap) = evidence_fold(lv.take(i as int));
                &&& crate::planner::opt_view(command) == cmd
                &&& match exit_code {
                    Some(v) => code == Some(v as int),
                    None => code is None,
                }
                &&& build_log@ == log
                &&& capture == cap
            }),
        decreases ls.len() - i,
    {
        assert(lv.take(i + 1).drop_last() =~= lv.take(i as int));
        let line = &ls[i];
        assert(lv.take(i + 1).last() == line@);
        let n = line.len();
        proof {
            reveal_strlit("Command: `");
        }
        let is_cmd = n > 10 && crate::text::starts_with_exec(line.as_slice(), cmd_prefix.as_slice())
            && line[n - 1] == '`';
        proof {
            if n > 0 {
                assert(line@.last() == line@[n - 1]);
            }
            assert(is_cmd == (command_line(line@) is Some));
        }
        if is_cmd {
            let cmd = copy_range(line.as_slice(), 10, n - 1);
            assert(cmd@ =~= line@.subrange(10, n - 1));
            command = Some(string_of(cmd.as_slice()));
            capture = false;
        } else {
            let ls_line = string_of(line.as_slice());
            match backtick_command(ls_line.as_str()) {
                Some(cmd) => {
                    if command.is_none() {
                        command = Some(cmd);
                    }
                    capture = false;
                },
                None => {
                    if crate::text::starts_with_exec(line.as_slice(), exit_prefix.as_slice()) {
                        proof {
                            reveal_strlit("Exit code: ");
                        }
                        let rest = copy_range(line.as_slice(), 11, n);
                        assert(rest@ =~= line@.skip(11));
                        let t = crate::text::trim_exec(rest.as_slice());
                        exit_code = crate::text::parse_i32(t.as_slice());
                        capture = true;
                    } else if crate::text::str_eq(ls_line.as_str(), "Build output:")
                        || crate::text::str_starts_with(ls_line.as_str(), "Build FAILED:") {
                        capture = true;
                    } else if capture {
                        build_log.append(ls_line.as_str());
                        build_log.append("\n");
                    }
                },
            }
        }
        i = i + 1;
    }
    assert(lv.take(lv.len() as int) =~= lv);
    (command, exit_code, build_log)
}

// ---------------------------------------------------------------------------
// Excerpts
// ---------------------------------------------------------------------------

/// The last `max` lines (joined with `\n`), or the whole text when it has
/// no more lines than that.
pub open spec fn tail_lines_spec(text: Seq<char>, max: nat) -> Seq<char> {
    let ls = lines(text);
    if ls.len() <= max {
        text
    } else {
        join(ls.skip(ls.len() - max), "\n"@)
    }
}

/// The last lines of a log.
pub fn tail_lines(text: &str, max_lines: usize) -> (r: String)
    ensures
        r@ == tail_lines_spec(text@, max_lines as nat),
{
    let ls = crate::text::lines_exec(chars_of(text).as_slice());
    if ls.len() <= max_lines {
        return text.to_owned();
    }
    let start = ls.len() - max_lines;
    let mut tail: Vec<Vec<char>> = Vec::new();
    let mut i = start;
    while i < ls.len()
        invariant
            start <= i <= ls@.len(),
            views(tail@) == views(ls@).subrange(start as int, i as int),
        decreases ls.len() - i,
    {
        let c = ls[i].clone();
        assert(c@ =~= ls@[i as int]@);
        let ghost before = tail@;
        tail.push(c);
        assert(views(tail@) =~= views(before).push(ls@[i as int]@));
        assert(views(tail@) =~= views(ls@).subrange(start as int, i + 1));
        i = i + 1;
    }
    assert(views(ls@).subrange(start as int, ls@.len() as int) =~= views(ls@).skip(start as int));
    let mut nl: Vec<char> = Vec::new();
    nl.push('\n');
    assert(nl@ =~= "\n"@) by {
        reveal_strlit("\n");
    }
    string_of(crate::text::join_exec(tail.as_slice(), nl.as_slice()).as_slice())
}

/// A cut `max` bytes before the end falls between characters.
pub open spec fn tail_cut_ok(log: Seq<char>, max: nat) -> bool {
    utf8_len(log) <= max || exists|k: int| 0 <= k <= log.len() && utf8_len(#[trigger] log.skip(k)) == max
}

/// The log, or its last `max` bytes behind a truncation note.
pub open spec fn debug_trace_spec(log: Seq<char>, max: nat) -> Seq<char> {
    if utf8_len(log) <= max {
        log
    } else {
        let k = choose|k: int| 0 <= k <= log.len() && utf8_len(log.skip(k)) == max;
        "(truncated to last "@ + crate::text::decimal(max) + " chars)\n"@ + log.skip(k)
    }
}

/// Keeps the end of a long debug trace.
pub fn truncate_debug_trace(log: &str, max_chars: usize) -> (r: String)
    requires
        tail_cut_ok(log@, max_chars as nat),
    ensures
        r@ == debug_trace_spec(log@, max_chars as nat),
{
    if crate::text::byte_len(log) <= max_chars {
        return log.to_owned();
    }
    let c = chars_of(log);
    let k = crate::text::suffix_within(c.as_slice(), max_chars);
    proof {
        let w = choose|w: int| 0 <= w <= log@.len() && utf8_len(log@.skip(w)) == max_chars;
        assert(crate::text::is_suffix_within(log@, max_chars as nat, w)) by {
            if w > 0 {
                crate::text::lemma_utf8_len_skip_step(log@, w);
            }
        }
        crate::planner::lemma_suffix_within_unique(log@, max_chars as nat, k as int, w);
    }
    let mut out = "(truncated to last ".to_owned();
    out.append(crate::text::fmt_usize(max_chars).as_str());
    out.append(" chars)\n");
    let tail = copy_range(c.as_slice(), k, c.len());
    assert(tail@ =~= log@.skip(k as int));
    out.append(string_of(tail.as_slice()).as_str());
    out
}


// ---------------------------------------------------------------------------
// The builder report
// ---------------------------------------------------------------------------

pub const LAUNCHING_TRIAGE: &'static str = "[SYSTEM]: Launching Triage";

/// The text after the last ` for ` of a line (the whole line when there is none).
pub open spec fn after_last_for(l: Seq<char>) -> Seq<char> {
    match rfind(l, " for "@) {
        Some(k) => l.skip(k + 5),
        None => l,
    }
}

/// The test path named by the last triage launch line among the first `n` lines.
pub open spec fn last_triage_path_in(ls: Seq<Seq<char>>, n: int) -> Option<Seq<char>>
    decreases n,
{
    if n <= 0 || n > ls.len() {
        None
    } else {
        let l = ls[n - 1];
        if contains(l, LAUNCHING_TRIAGE@) && trim(after_last_for(l)).len() > 0 {
            Some(trim(after_last_for(l)))
        } else {
            last_triage_path_in(ls, n - 1)
        }
    }
}

/// A path relative to the project root: an absolute path loses the root's components
/// (`None` when it is not under the root); separators are written `/`.
pub open spec fn relativize_spec(path: Seq<char>, root: Seq<char>) -> Option<Seq<char>> {
    if crate::paths::is_absolute(path) {
        if crate::paths::path_starts_with(path, root) {
            Some(
                crate::text::replace(
                    join(
                        crate::paths::components(path).skip(crate::paths::components(root).len() as int),
                        "/"@,
                    ),
                    "\\"@,
                    "/"@,
                ),
            )
        } else {
            None
        }
    } else {
        Some(crate::text::replace(path, "\\"@, "/"@))
    }
}

/// The project-relative test file of the last triage launch in a builder log.
pub open spec fn report_test_path_spec(log: Seq<char>, root: Seq<char>) -> Option<Seq<char>> {
    match last_triage_path_in(lines(log), lines(log).len() as int) {
        Some(p) => relativize_spec(p, root),
        None => None,
    }
}

fn after_last_for_exec(l: &[char]) -> (r: Vec<char>)
    ensures
        r@ == after_last_for(l@),
{
    proof {
        reveal_strlit(" for ");
    }
    let pat = chars_of(" for ");
    match crate::text::rfind_exec(l, pat.as_slice()) {
        Some(k) => {
            proof {
                crate::text::lemma_rfind_before(l@, " for "@, l@.len() + 1int);
            }
            let n = l.len();
            assert(k + 5 <= n);
            let r = copy_range(l, k + 5, n);
            assert(r@ =~= l@.skip(k + 5));
            r
        },
        None => copy_range(l, 0, l.len()),
    }
}

fn relativize(path: &str, root: &str) -> (r: Option<String>)
    ensures
        crate::planner::opt_view(r) == relativize_spec(path@, root@),
{
    proof {
        reveal_strlit("\\");
    }
    let pv = chars_of(path);
    if pv.len() > 0 && pv[0] == '/' {
        if crate::paths::path_starts_with_exec(path, root) {
            let pc = crate::paths::components_exec(pv.as_slice());
            let rc = crate::paths::components_exec(chars_of(root).as_slice());
            let mut rest: Vec<Vec<char>> = Vec::new();
            let mut i: usize = rc.len();
            while i < pc.len()
                invariant
                    rc@.len() <= i <= pc@.len(),
                    views(rest@) == views(pc@).subrange(rc@.len() as int, i as int),
                decreases pc.len() - i,
            {
                let c = copy_range(pc[i].as_slice(), 0, pc[i].len());
                assert(c@ =~= pc@[i as int]@);
                let ghost before = rest@;
                rest.push(c);
                assert(views(rest@) =~= views(before).push(c@));
                assert(views(rest@) =~= views(pc@).subrange(rc@.len() as int, i + 1));
                i = i + 1;
            }
            assert(views(pc@).subrange(rc@.len() as int, pc@.len() as int) =~= views(pc@).skip(
                rc@.len() as int,
            ));
            let j = crate::text::join_exec(rest.as_slice(), chars_of("/").as_slice());
            let js = string_of(j.as_slice());
            Some(crate::text::str_replace(js.as_str(), "\\", "/"))
        } else {
            None
        }
    } else {
        Some(crate::text::str_replace(path, "\\", "/"))
    }
}

/// The project-relative path of the test file the builder last handed to triage.
pub fn builder_report_test_path(accumulated_data: &str, project_root: &str) -> (r: Option<String>)
    ensures
        crate::planner::opt_view(r) == report_test_path_spec(accumulated_data@, project_root@),
{
    let ls = crate::text::lines_exec(chars_of(accumulated_data).as_slice());
    let ghost lv = views(ls@);
    let mut n: usize = ls.len();
    while n > 0
        invariant
            n <= lv.len(),
            lv == views(ls@),
            lv == lines(accumulated_data@),
            last_triage_path_in(lv, lv.len() as int) == last_triage_path_in(lv, n as int),
        decreases n,
    {
        let l = &ls[n - 1];
        let ls_str = string_of(l.as_slice());
        if str_contains(ls_str.as_str(), LAUNCHING_TRIAGE) {
            let a = after_last_for_exec(l.as_slice());
            let t = crate::text::trim_exec(a.as_slice());
            if t.len() > 0 {
                assert(lv[n - 1] == l@);
                assert(contains(l@, LAUNCHING_TRIAGE@));
                assert(trim(after_last_for(l@)) == t@);
                assert(last_triage_path_in(lv, n as int) == Some(t@));
                let p = string_of(t.as_slice());
                return relativize(p.as_str(), project_root);
            }
        }
        n = n - 1;
    }
    None
}

pub const BLOCK_ENDS: [&'static str; 4] = [
    "\n[SYSTEM]:",
    "\n[RED OK]:",
    "\n[BUILDER GREEN OK]",
    "\n[TRIAGE FAILURE]",
];

/// Where the last triage result block ends: at the first of the listed markers that
/// occurs (in that order of preference), else at the end.
pub open spec fn block_end(rest: Seq<char>) -> int {
    match find_from(rest, "\n[SYSTEM]:"@, 0) {
        Some(e) => e,
        None => match find_from(rest, "\n[RED OK]:"@, 0) {
            Some(e) => e,
            None => match find_from(rest, "\n[BUILDER GREEN OK]"@, 0) {
                Some(e) => e,
                None => match find_from(rest, "\n[TRIAGE FAILURE]"@, 0) {
                    Some(e) => e,
                    None => rest.len() as int,
                },
            },
        },
    }
}

/// The last triage result block of a builder log.
pub open spec fn last_triage_block(log: Seq<char>) -> Option<Seq<char>> {
    match rfind(log, TRIAGE_RESULT_MARKER@) {
        None => None,
        Some(k) => {
            let rest = log.skip(k + TRIAGE_RESULT_MARKER@.len());
            Some(rest.take(block_end(rest)))
        },
    }
}

fn find_in(rest: &[char], pat: &str) -> (r: Option<usize>)
    ensures
        match r {
            Some(e) => find_from(rest@, pat@, 0) == Some(e as int) && e <= rest@.len(),
            None => find_from(rest@, pat@, 0) is None,
        },
{
    let pv = chars_of(pat);
    let f = crate::text::find_from_exec(rest, pv.as_slice(), 0);
    proof {
        crate::text::lemma_find_from(rest@, pat@, 0);
    }
    f
}

/// Extracts the last triage result block of a builder log.
pub fn extract_last_triage_block(log: &str) -> (r: Option<String>)
    ensures
        crate::planner::opt_view(r) == last_triage_block(log@),
{
    let lv = chars_of(log);
    let mv = chars_of(TRIAGE_RESULT_MARKER);
    let k = match crate::text::rfind_exec(lv.as_slice(), mv.as_slice()) {
        Some(k) => k,
        None => {
            return None;
        },
    };
    proof {
        crate::text::lemma_rfind_before(log@, TRIAGE_RESULT_MARKER@, log@.len() + 1int);
    }
    let n = lv.len();
    let ml = mv.len();
    assert(k + ml <= n);
    let rest = copy_range(lv.as_slice(), k + ml, n);
    assert(rest@ =~= log@.skip(k + TRIAGE_RESULT_MARKER@.len()));
    let end: usize = match find_in(rest.as_slice(), "\n[SYSTEM]:") {
        Some(e) => e,
        None => match find_in(rest.as_slice(), "\n[RED OK]:") {
            Some(e) => e,
            None => match find_in(rest.as_slice(), "\n[BUILDER GREEN OK]") {
                Some(e) => e,
                None => match find_in(rest.as_slice(), "\n[TRIAGE FAILURE]") {
                    Some(e) => e,
                    None => rest.len(),
                },
            },
        },
    };
    let b = copy_range(rest.as_slice(), 0, end);
    assert(b@ =~= rest@.take(end as int));
    Some(string_of(b.as_slice()))
}

/// What a builder run reports, for the report generator.
pub struct BuilderReportInput<'a> {
    pub accumulated_data: &'a str,
    pub project_root: &'a str,
    pub source_file_path: &'a str,
    pub test_type: &'a str,
    pub green_ok: bool,
    pub verify_summary: Option<&'a str>,
}

pub open spec fn opt_str_view(o: Option<&str>) -> Option<Seq<char>> {
    match o {
        Some(s) => Some(s@),
        None => None,
    }
}

/// The `[TEST SOURCE]` section.
pub open spec fn test_source_section(rel: Option<Seq<char>>, source: Option<Seq<char>>) -> Seq<char> {
    "[TEST SOURCE]\n"@ + match rel {
        Some(p) => p + "\n"@ + match source {
            Some(s) => trim(s) + "\n"@,
            None => "(test file not readable on disk)\n"@,
        },
        None => "(no test file path in builder log)\n"@,
    }
}

/// The `[BUILD COMMAND & EXIT CODE]` section.
pub open spec fn build_section(verify: Option<Seq<char>>, st: EvidenceState) -> Seq<char> {
    "\n[BUILD COMMAND & EXIT CODE]\n"@ + if verify is Some && verify->0.len() > 0 {
        verify->0 + "\n"@
    } else {
        match st.0 {
            Some(c) => "$ "@ + c + "\n"@ + match st.1 {
                Some(k) => "exit "@ + crate::text::decimal_int(k) + "\n"@,
                None => Seq::empty(),
            } + if st.2.len() > 0 {
                st.2 + "\n"@
            } else {
                Seq::empty()
            },
            None => "(no build command captured)\n"@,
        }
    }
}

/// The `[LOG EXCERPT]` section: the tail of the build log, else of the whole log.
pub open spec fn excerpt_section(log: Seq<char>, build_log: Seq<char>) -> Seq<char> {
    let ex = if build_log.len() > 0 {
        tail_lines_spec(build_log, LOG_EXCERPT_LINES as nat)
    } else {
        tail_lines_spec(log, LOG_EXCERPT_LINES as nat)
    };
    "\n[LOG EXCERPT]\n"@ + if trim(ex).len() == 0 {
        "(no log excerpt)\n"@
    } else {
        trim(ex) + "\n"@
    }
}

/// The text between the first fail marker and the next one (or the end).
pub open spec fn fail_evidence(log: Seq<char>) -> Seq<char> {
    match find_from(log, BUILDER_FAIL_MARKER@, 0) {
        None => Seq::empty(),
        Some(k) => {
            let rest = log.skip(k + BUILDER_FAIL_MARKER@.len());
            match find_from(rest, BUILDER_FAIL_MARKER@, 0) {
                Some(j) => rest.take(j),
                None => rest,
            }
        },
    }
}

/// The verdict section: the green marker, the fail evidence, or a no-green note.
pub open spec fn verdict_section(log: Seq<char>, green_ok: bool, has_verify: bool) -> Seq<char> {
    if green_ok && has_verify && contains(log, BUILDER_GREEN_MARKER@) {
        "\n"@ + BUILDER_GREEN_MARKER@ + "\n"@
    } else if contains(log, BUILDER_FAIL_MARKER@) {
        "\n[BUILDER FAIL EVIDENCE]\n"@ + trim(fail_evidence(log)) + "\n"@
    } else if !green_ok {
        "\n(no GREEN — see debug trace)\n"@
    } else {
        Seq::empty()
    }
}

/// The whole builder report. `test_source` is the text of the report's test file
/// (see `builder_report_test_path`) when it could be read.
pub open spec fn builder_report_spec(
    log: Seq<char>,
    root: Seq<char>,
    source_file: Seq<char>,
    test_type: Seq<char>,
    green_ok: bool,
    verify: Option<Seq<char>>,
    test_source: Option<Seq<char>>,
) -> Seq<char> {
    let st: EvidenceState = match last_triage_block(log) {
        Some(b) => evidence_fold(lines(b)),
        None => (None, None, Seq::empty(), false),
    };
    "## PHASE_4_BUILDER Report: "@ + source_file + " ("@ + test_type + ")\n\n"@
        + test_source_section(report_test_path_spec(log, root), test_source) + build_section(
        verify,
        st,
    ) + excerpt_section(log, st.2) + verdict_section(log, green_ok, verify is Some)
        + "\n## Debug trace\n"@ + debug_trace_spec(log, DEBUG_TRACE_MAX as nat)
}

fn trimmed_line(s: &str) -> (r: String)
    ensures
        r@ == trim(s@) + "\n"@,
{
    let mut t = crate::text::str_trim(s);
    t.append("\n");
    t
}

fn test_source_section_exec(rel: &Option<String>, test_source: Option<&str>) -> (r: String)
    ensures
        r@ == test_source_section(crate::planner::opt_view(*rel), opt_str_view(test_source)),
{
    let mut report = "[TEST SOURCE]\n".to_owned();
    match rel {
        Some(path) => {
            report.append(path.as_str());
            report.append("\n");
            match test_source {
                Some(src) => {
                    let t = trimmed_line(src);
                    report.append(t.as_str());
                },
                None => {
                    report.append("(test file not readable on disk)\n");
                },
            }
        },
        None => {
            report.append("(no test file path in builder log)\n");
        },
    }
    report
}

fn build_section_exec(
    verify: Option<&str>,
    command: &Option<String>,
    exit_code: Option<i32>,
    build_log: &str,
    Ghost(st): Ghost<EvidenceState>,
) -> (r: String)
    requires
        crate::planner::opt_view(*command) == st.0,
        match exit_code {
            Some(v) => st.1 == Some(v as int),
            None => st.1 is None,
        },
        build_log@ == st.2,
    ensures
        r@ == build_section(opt_str_view(verify), st),
{
    let mut report = "\n[BUILD COMMAND & EXIT CODE]\n".to_owned();
    let verify_nonempty = match verify {
        Some(v) => !v.is_empty(),
        None => false,
    };
    if verify_nonempty {
        let v = verify.unwrap();
        report.append(v);
        report.append("\n");
    } else {
        match command {
            Some(cmd) => {
                report.append("$ ");
                report.append(cmd.as_str());
                report.append("\n");
                match exit_code {
                    Some(code) => {
                        report.append("exit ");
                        let d = crate::text::fmt_i64(code as i64);
                        report.append(d.as_str());
                        report.append("\n");
                    },
                    None => {},
                }
                if !build_log.is_empty() {
                    report.append(build_log);
                    report.append("\n");
                }
            },
            None => {
                report.append("(no build command captured)\n");
            },
        }
    }
    report
}

fn excerpt_section_exec(log: &str, build_log: &str) -> (r: String)
    ensures
        r@ == excerpt_section(log@, build_log@),
{
    let mut report = "\n[LOG EXCERPT]\n".to_owned();
    let excerpt = if !build_log.is_empty() {
        tail_lines(build_log, LOG_EXCERPT_LINES)
    } else {
        tail_lines(log, LOG_EXCERPT_LINES)
    };
    let ex_t = crate::text::str_trim(excerpt.as_str());
    if ex_t.as_str().is_empty() {
        report.append("(no log excerpt)\n");
    } else {
        report.append(ex_t.as_str());
        report.append("\n");
    }
    report
}

fn verdict_section_exec(log: &str, green_ok: bool, has_verify: bool) -> (r: String)
    ensures
        r@ == verdict_section(log@, green_ok, has_verify),
{
    let mut report = String::new();
    if green_ok && has_verify && str_contains(log, BUILDER_GREEN_MARKER) {
        report.append("\n");
        report.append(BUILDER_GREEN_MARKER);
        report.append("\n");
    } else if str_contains(log, BUILDER_FAIL_MARKER) {
        report.append("\n[BUILDER FAIL EVIDENCE]\n");
        let ev = fail_evidence_exec(log);
        let t = trimmed_line(ev.as_str());
        report.append(t.as_str());
    } else if !green_ok {
        report.append("\n(no GREEN — see debug trace)\n");
    }
    report
}

/// Formats the builder's final report from its log and verification outcome.
pub fn format_builder_report(input: &BuilderReportInput, test_source: Option<&str>) -> (r: String)
    requires
        tail_cut_ok(input.accumulated_data@, DEBUG_TRACE_MAX as nat),
    ensures
        r@ == builder_report_spec(
            input.accumulated_data@,
            input.project_root@,
            input.source_file_path@,
            input.test_type@,
            input.green_ok,
            opt_str_view(input.verify_summary),
            opt_str_view(test_source),
        ),
{
    let log = input.accumulated_data;
    let rel = builder_report_test_path(log, input.project_root);
    let ghost st: EvidenceState = match last_triage_block(log@) {
        Some(b) => evidence_fold(lines(b)),
        None => (None, None, Seq::empty(), false),
    };
    let (command, exit_code, build_log) = match extract_last_triage_block(log) {
        Some(b) => parse_triage_evidence(b.as_str()),
        None => (None, None, String::new()),
    };
    let mut report = "## PHASE_4_BUILDER Report: ".to_owned();
    report.append(input.source_file_path);
    report.append(" (");
    report.append(input.test_type);
    report.append(")\n\n");
    let a = test_source_section_exec(&rel, test_source);
    report.append(a.as_str());
    let b = build_section_exec(
        input.verify_summary,
        &command,
        exit_code,
        build_log.as_str(),
        Ghost(st),
    );
    report.append(b.as_str());
    let c = excerpt_section_exec(log, build_log.as_str());
    report.append(c.as_str());
    let d = verdict_section_exec(log, input.green_ok, input.verify_summary.is_some());
    report.append(d.as_str());
    report.append("\n## Debug trace\n");
    let tr = truncate_debug_trace(log, DEBUG_TRACE_MAX);
    report.append(tr.as_str());
    report
}

fn fail_evidence_exec(log: &str) -> (r: String)
    ensures
        r@ == fail_evidence(log@),
{
    let lv = chars_of(log);
    let k = match find_in(lv.as_slice(), BUILDER_FAIL_MARKER) {
        Some(k) => k,
        None => {
            return String::new();
        },
    };
    proof {
        crate::text::lemma_find_from(log@, BUILDER_FAIL_MARKER@, 0);
    }
    let mv = chars_of(BUILDER_FAIL_MARKER);
    let n = lv.len();
    let ml = mv.len();
    assert(k + ml <= n);
    let rest = copy_range(lv.as_slice(), k + ml, n);
    assert(rest@ =~= log@.skip(k + BUILDER_FAIL_MARKER@.len()));
    match find_in(rest.as_slice(), BUILDER_FAIL_MARKER) {
        Some(j) => {
            let piece = copy_range(rest.as_slice(), 0, j);
            assert(piece@ =~= rest@.take(j as int));
            string_of(piece.as_slice())
        },
        None => string_of(rest.as_slice()),
    }
}

/// A builder report opens with its heading and the test source section, and
/// closes with the debug trace of the log (the whole log when it is short, else
/// its tail after a truncation note).
pub proof fn builder_report_frame(
    log: Seq<char>,
    root: Seq<char>,
    source_file: Seq<char>,
    test_type: Seq<char>,
    green_ok: bool,
    verify: Option<Seq<char>>,
    test_source: Option<Seq<char>>,
)
    ensures
        starts_with(
            builder_report_spec(log, root, source_file, test_type, green_ok, verify, test_source),
            "## PHASE_4_BUILDER Report: "@ + source_file + " ("@ + test_type + ")\n\n"@
                + "[TEST SOURCE]\n"@,
        ),
        ends_with(
            builder_report_spec(log, root, source_file, test_type, green_ok, verify, test_source),
            "\n## Debug trace\n"@ + debug_trace_spec(log, DEBUG_TRACE_MAX as nat),
        ),
{
    let st: EvidenceState = match last_triage_block(log) {
        Some(b) => evidence_fold(lines(b)),
        None => (None, None, Seq::empty(), false),
    };
    let h = "## PHASE_4_BUILDER Report: "@ + source_file + " ("@ + test_type + ")\n\n"@;
    let rest = match report_test_path_spec(log, root) {
        Some(p) => p + "\n"@ + match test_source {
            Some(s) => trim(s) + "\n"@,
            None => "(test file not readable on disk)\n"@,
        },
        None => "(no test file path in builder log)\n"@,
    };
    let ts = test_source_section(report_test_path_spec(log, root), test_source);
    assert(ts == "[TEST SOURCE]\n"@ + rest);
    let x = h + ts + build_section(verify, st) + excerpt_section(log, st.2) + verdict_section(
        log,
        green_ok,
        verify is Some,
    );
    let t = "\n## Debug trace\n"@ + debug_trace_spec(log, DEBUG_TRACE_MAX as nat);
    let r = builder_report_spec(log, root, source_file, test_type, green_ok, verify, test_source);
    assert(r =~= x + t);
    let p = h + "[TEST SOURCE]\n"@;
    assert(x =~= p + (rest + build_section(verify, st) + excerpt_section(log, st.2) + verdict_section(
        log,
        green_ok,
        verify is Some,
    )));
    assert(r.subrange(0, p.len() as int) =~= p);
    assert(r.subrange(r.len() - t.len(), r.len() as int) =~= t);
}

} // verus!
