//! Detail bodies for GitHub workflow runs and commits: job/step trees with
//! progress for in-progress runs, per-job log views, and commit summaries.
use vstd::prelude::*;
use crate::clock::{parse_iso, parse_iso_spec, spec_utc_seconds_between, ts_view, utc_seconds_between};
use crate::github::{or_empty, or_empty_str, CommitDetail};
use crate::i18n::{self, Lang};
use crate::text::{
    chars_of, contains, contains_seq, decimal, ends_with_seq, first_line, first_line_seq,
    i64_to_string, join, join_seq, lines, lines_seq, owned, pad_right, pad_right_seq, push_char,
    push_str, repeat_seq, repeat_str, signed_decimal, str_eq, strip_prefix, strip_prefix_seq,
    string_of_range, trim, trim_seq, trim_start_char, trim_start_char_seq, u64_to_string,
    usize_to_string, occurs_at, find_char_from, first_index, starts_with, starts_with_seq,
};

verus! {

// ─── commit detail ───────────────────────────────────────────────────────────

/// Single-commit response (includes stats · files, unlike the list).
pub struct CommitFull {
    pub commit: CommitDetail,
    pub stats: Option<CommitStats>,
    pub files: Vec<CommitFile>,
}

pub struct CommitStats {
    pub additions: i64,
    pub deletions: i64,
}

pub struct CommitFile {
    pub filename: String,
    pub additions: i64,
    pub deletions: i64,
    pub status: String,
}

/// Diff status → single-char mark.
pub open spec fn status_mark_spec(status: Seq<char>) -> char {
    if status == "added"@ {
        'A'
    } else if status == "removed"@ {
        'D'
    } else if status == "renamed"@ {
        'R'
    } else if status == "modified"@ {
        'M'
    } else {
        '·'
    }
}

pub fn status_mark(status: &str) -> (c: char)
    ensures
        c == status_mark_spec(status@),
{
    if str_eq(status, "added") {
        'A'
    } else if str_eq(status, "removed") {
        'D'
    } else if str_eq(status, "renamed") {
        'R'
    } else if str_eq(status, "modified") {
        'M'
    } else {
        '·'
    }
}

/// `  M +12   −3    path` (counts left-aligned in 4 columns).
pub open spec fn diff_line(mark: char, add: i64, del: i64, path: Seq<char>) -> Seq<char> {
    "  "@ + seq![mark] + " +"@ + pad_right_seq(signed_decimal(add as int), 4) + " −"@
        + pad_right_seq(signed_decimal(del as int), 4) + " "@ + path + "\n"@
}

pub fn diff_line_text(mark: char, add: i64, del: i64, path: &str) -> (r: String)
    ensures
        r@ == diff_line(mark, add, del, path@),
{
    let mut s = owned("  ");
    push_char(&mut s, mark);
    push_str(&mut s, " +");
    push_str(&mut s, pad_right(i64_to_string(add).as_str(), 4).as_str());
    push_str(&mut s, " −");
    push_str(&mut s, pad_right(i64_to_string(del).as_str(), 4).as_str());
    push_str(&mut s, " ");
    push_str(&mut s, path);
    push_str(&mut s, "\n");
    assert(s@ =~= diff_line(mark, add, del, path@));
    s
}

pub open spec fn commit_files_text(fs: Seq<CommitFile>) -> Seq<char>
    decreases fs.len(),
{
    if fs.len() == 0 {
        Seq::empty()
    } else {
        commit_files_text(fs.drop_last()) + diff_line(
            status_mark_spec(fs.last().status@),
            fs.last().additions,
            fs.last().deletions,
            fs.last().filename@,
        )
    }
}

pub open spec fn format_commit_spec(c: CommitFull, sha: Seq<char>) -> Seq<char> {
    "commit "@ + sha + "\n"@ + "Author: "@ + c.commit.author.name@ + "\n"@ + "Date:   "@
        + c.commit.author.date@ + "\n\n"@ + trim_seq(c.commit.message@) + "\n\n"@ + (
    match c.stats {
        Some(st) => "─── "@ + decimal(c.files@.len()) + " files changed · +"@ + signed_decimal(
            st.additions as int,
        ) + " −"@ + signed_decimal(st.deletions as int) + " ───\n"@,
        None => Seq::empty(),
    }) + commit_files_text(c.files@)
}

/// `git show`-like summary of a commit with its changed files.
pub fn format_commit(c: &CommitFull, sha: &str) -> (r: String)
    ensures
        r@ == format_commit_spec(*c, sha@),
{
    let mut out = owned("commit ");
    push_str(&mut out, sha);
    push_str(&mut out, "\n");
    push_str(&mut out, "Author: ");
    push_str(&mut out, c.commit.author.name.as_str());
    push_str(&mut out, "\n");
    push_str(&mut out, "Date:   ");
    push_str(&mut out, c.commit.author.date.as_str());
    push_str(&mut out, "\n\n");
    push_str(&mut out, trim(c.commit.message.as_str()).as_str());
    push_str(&mut out, "\n\n");
    let ghost head = out@;
    if let Some(st) = &c.stats {
        push_str(&mut out, "─── ");
        push_str(&mut out, usize_to_string(c.files.len()).as_str());
        push_str(&mut out, " files changed · +");
        push_str(&mut out, i64_to_string(st.additions).as_str());
        push_str(&mut out, " −");
        push_str(&mut out, i64_to_string(st.deletions).as_str());
        push_str(&mut out, " ───\n");
    }
    let ghost mid = out@;
    let mut i: usize = 0;
    while i < c.files.len()
        invariant
            i <= c.files@.len(),
            out@ == mid + commit_files_text(c.files@.take(i as int)),
        decreases c.files@.len() - i,
    {
        let f = &c.files[i];
        let line = diff_line_text(status_mark(f.status.as_str()), f.additions, f.deletions, f.filename.as_str());
        push_str(&mut out, line.as_str());
        assert(c.files@.take(i + 1).drop_last() =~= c.files@.take(i as int));
        i += 1;
    }
    assert(c.files@.take(i as int) =~= c.files@);
    assert(out@ =~= format_commit_spec(*c, sha@));
    out
}

// ─── run detail (jobs/steps tree) ────────────────────────────────────────────

pub struct RunDetail {
    pub status: String,
    pub conclusion: Option<String>,
    pub jobs: Vec<JobInfo>,
    pub display_title: String,
    pub workflow_name: String,
    pub head_branch: String,
    pub event: String,
}

pub struct JobInfo {
    pub name: String,
    pub status: String,
    pub conclusion: Option<String>,
    pub database_id: u64,
    pub steps: Vec<StepInfo>,
}

pub struct StepInfo {
    pub name: String,
    pub status: String,
    pub conclusion: Option<String>,
    pub started_at: Option<String>,
    pub completed_at: Option<String>,
}

/// The view of an optional string.
pub open spec fn opt_text(o: Option<String>) -> Option<Seq<char>> {
    match o {
        Some(s) => Some(s@),
        None => None,
    }
}

/// Whether a conclusion is in the failure family (failure/timed_out/startup_failure).
pub open spec fn is_failure_spec(c: Option<Seq<char>>) -> bool {
    match c {
        Some(s) => s == "failure"@ || s == "timed_out"@ || s == "startup_failure"@,
        None => false,
    }
}

pub fn is_failure(c: Option<&str>) -> (b: bool)
    ensures
        b == is_failure_spec(crate::i18n::opt_view(c)),
{
    match c {
        Some(s) => str_eq(s, "failure") || str_eq(s, "timed_out") || str_eq(s, "startup_failure"),
        None => false,
    }
}

pub fn opt_str(o: &Option<String>) -> (r: Option<&str>)
    ensures
        crate::i18n::opt_view(r) == opt_text(*o),
{
    match o {
        Some(s) => Some(s.as_str()),
        None => None,
    }
}

/// Job/step status as a single-char glyph.
pub open spec fn job_glyph_spec(status: Seq<char>, c: Option<Seq<char>>) -> char {
    if status == "completed"@ {
        if c == Some("success"@) {
            '✓'
        } else if is_failure_spec(c) {
            '✗'
        } else if c == Some("cancelled"@) {
            '⊘'
        } else if c == Some("skipped"@) {
            '⊝'
        } else {
            '•'
        }
    } else if status == "in_progress"@ {
        '▸'
    } else if status == "queued"@ || status == "waiting"@ || status == "pending"@ || status
        == "requested"@ {
        '·'
    } else {
        '•'
    }
}

fn opt_is(c: Option<&str>, lit: &str) -> (b: bool)
    ensures
        b == (crate::i18n::opt_view(c) == Some(lit@)),
{
    match c {
        Some(s) => str_eq(s, lit),
        None => false,
    }
}

pub fn job_glyph(status: &str, c: Option<&str>) -> (g: char)
    ensures
        g == job_glyph_spec(status@, crate::i18n::opt_view(c)),
{
    if str_eq(status, "completed") {
        if opt_is(c, "success") {
            '✓'
        } else if is_failure(c) {
            '✗'
        } else if opt_is(c, "cancelled") {
            '⊘'
        } else if opt_is(c, "skipped") {
            '⊝'
        } else {
            '•'
        }
    } else if str_eq(status, "in_progress") {
        '▸'
    } else if str_eq(status, "queued") || str_eq(status, "waiting") || str_eq(status, "pending")
        || str_eq(status, "requested") {
        '·'
    } else {
        '•'
    }
}

/// Seconds as a short elapsed text (`6s` · `1m23s` · `1h2m`), negatives as 0.
pub open spec fn fmt_dur_spec(secs: int) -> Seq<char> {
    let s: nat = if secs > 0 {
        secs as nat
    } else {
        0
    };
    if s < 60 {
        decimal(s) + "s"@
    } else if s < 3600 {
        decimal(s / 60) + "m"@ + decimal(s % 60) + "s"@
    } else {
        decimal(s / 3600) + "h"@ + decimal((s % 3600) / 60) + "m"@
    }
}

pub fn fmt_dur(secs: i64) -> (r: String)
    ensures
        r@ == fmt_dur_spec(secs as int),
{
    let s: u64 = if secs > 0 {
        secs as u64
    } else {
        0
    };
    if s < 60 {
        let mut out = u64_to_string(s);
        push_str(&mut out, "s");
        out
    } else if s < 3600 {
        let mut out = u64_to_string(s / 60);
        push_str(&mut out, "m");
        push_str(&mut out, u64_to_string(s % 60).as_str());
        push_str(&mut out, "s");
        out
    } else {
        let mut out = u64_to_string(s / 3600);
        push_str(&mut out, "h");
        push_str(&mut out, u64_to_string((s % 3600) / 60).as_str());
        push_str(&mut out, "m");
        out
    }
}

pub open spec fn parse_opt_iso(o: Option<String>) -> Option<(int, int)> {
    match o {
        Some(s) => parse_iso_spec(s@),
        None => None,
    }
}

/// The instants a step's time runs between, as `(end, start)`: from its
/// start to its completion (to `now` when that is unknown) once completed,
/// to `now` while in progress; none when it has not started (or is queued).
pub open spec fn step_span_spec(
    status: Seq<char>,
    start: Option<(int, int)>,
    completed: Option<(int, int)>,
    now: (int, int),
) -> Option<((int, int), (int, int))> {
    match start {
        None => None,
        Some(st) => if status == "completed"@ {
            Some(
                (
                    match completed {
                        Some(e) => e,
                        None => now,
                    },
                    st,
                ),
            )
        } else if status == "in_progress"@ {
            Some((now, st))
        } else {
            None
        },
    }
}

pub open spec fn opt_ts(t: Option<(i64, u32)>) -> Option<(int, int)> {
    match t {
        Some(x) => Some(ts_view(x)),
        None => None,
    }
}

pub fn step_span(
    status: &str,
    start: Option<(i64, u32)>,
    completed: Option<(i64, u32)>,
    now: (i64, u32),
) -> (r: Option<((i64, u32), (i64, u32))>)
    ensures
        match r {
            Some((e, st)) => step_span_spec(status@, opt_ts(start), opt_ts(completed), ts_view(now))
                == Some((ts_view(e), ts_view(st))),
            None => step_span_spec(status@, opt_ts(start), opt_ts(completed), ts_view(now)) is None,
        },
{
    let st = match start {
        Some(t) => t,
        None => return None,
    };
    if str_eq(status, "completed") {
        Some(
            (
                match completed {
                    Some(e) => e,
                    None => now,
                },
                st,
            ),
        )
    } else if str_eq(status, "in_progress") {
        Some((now, st))
    } else {
        None
    }
}

/// Step elapsed seconds (negative spans as 0) over its span; none without one.
pub open spec fn step_elapsed_spec(s: StepInfo, now: (int, int)) -> Option<int> {
    match step_span_spec(s.status@, parse_opt_iso(s.started_at), parse_opt_iso(s.completed_at), now) {
        None => None,
        Some(span) => match spec_utc_seconds_between(span.0, span.1) {
            Some(d) => Some(
                if d > 0 {
                    d
                } else {
                    0
                },
            ),
            None => None,
        },
    }
}

fn parse_opt(o: &Option<String>) -> (r: Option<(i64, u32)>)
    ensures
        opt_ts(r) == parse_opt_iso(*o),
{
    match o {
        Some(s) => parse_iso(s.as_str()),
        None => None,
    }
}

/// Step elapsed (seconds). completed = completed-started, in_progress = now-started. None if unstarted (queued).
pub fn step_elapsed(s: &StepInfo, now: (i64, u32)) -> (r: Option<i64>)
    ensures
        match r {
            Some(d) => step_elapsed_spec(*s, ts_view(now)) == Some(d as int),
            None => step_elapsed_spec(*s, ts_view(now)) is None,
        },
{
    let span = step_span(s.status.as_str(), parse_opt(&s.started_at), parse_opt(&s.completed_at), now);
    match span {
        None => None,
        Some((end, start)) => match utc_seconds_between(end, start) {
            Some(d) => Some(
                if d > 0 {
                    d
                } else {
                    0
                },
            ),
            None => None,
        },
    }
}

// ─── counting ────────────────────────────────────────────────────────────────

/// Number of jobs with the given conclusion.
pub open spec fn count_concl(jobs: Seq<JobInfo>, c: Seq<char>) -> nat
    decreases jobs.len(),
{
    if jobs.len() == 0 {
        0
    } else {
        count_concl(jobs.drop_last(), c) + if opt_text(jobs.last().conclusion) == Some(c) {
            1nat
        } else {
            0nat
        }
    }
}

/// Number of jobs whose conclusion is in the failure family.
pub open spec fn count_failed(jobs: Seq<JobInfo>) -> nat
    decreases jobs.len(),
{
    if jobs.len() == 0 {
        0
    } else {
        count_failed(jobs.drop_last()) + if is_failure_spec(opt_text(jobs.last().conclusion)) {
            1nat
        } else {
            0nat
        }
    }
}

/// Whether a job/step status means "not started yet".
pub open spec fn is_waiting_status(s: Seq<char>) -> bool {
    s == "queued"@ || s == "waiting"@ || s == "pending"@ || s == "requested"@
}

/// Number of jobs with the given status.
pub open spec fn count_status(jobs: Seq<JobInfo>, st: Seq<char>) -> nat
    decreases jobs.len(),
{
    if jobs.len() == 0 {
        0
    } else {
        count_status(jobs.drop_last(), st) + if jobs.last().status@ == st {
            1nat
        } else {
            0nat
        }
    }
}

/// Number of jobs not started yet.
pub open spec fn count_waiting(jobs: Seq<JobInfo>) -> nat
    decreases jobs.len(),
{
    if jobs.len() == 0 {
        0
    } else {
        count_waiting(jobs.drop_last()) + if is_waiting_status(jobs.last().status@) {
            1nat
        } else {
            0nat
        }
    }
}

/// Number of completed steps in a list of steps.
pub open spec fn count_done_steps(steps: Seq<StepInfo>) -> nat
    decreases steps.len(),
{
    if steps.len() == 0 {
        0
    } else {
        count_done_steps(steps.drop_last()) + if steps.last().status@ == "completed"@ {
            1nat
        } else {
            0nat
        }
    }
}

/// Completed steps over all jobs.
pub open spec fn done_steps(jobs: Seq<JobInfo>) -> nat
    decreases jobs.len(),
{
    if jobs.len() == 0 {
        0
    } else {
        done_steps(jobs.drop_last()) + count_done_steps(jobs.last().steps@)
    }
}

proof fn lemma_counts_bounded(jobs: Seq<JobInfo>, c: Seq<char>)
    ensures
        count_concl(jobs, c) <= jobs.len(),
        count_failed(jobs) <= jobs.len(),
        count_status(jobs, c) <= jobs.len(),
        count_waiting(jobs) <= jobs.len(),
    decreases jobs.len(),
{
    if jobs.len() > 0 {
        lemma_counts_bounded(jobs.drop_last(), c);
    }
}

fn count_conclusion(jobs: &Vec<JobInfo>, c: &str) -> (n: usize)
    ensures
        n == count_concl(jobs@, c@),
{
    let mut n: usize = 0;
    let mut i: usize = 0;
    while i < jobs.len()
        invariant
            i <= jobs@.len(),
            n == count_concl(jobs@.take(i as int), c@),
            n <= i,
        decreases jobs@.len() - i,
    {
        assert(jobs@.take(i + 1).drop_last() =~= jobs@.take(i as int));
        if opt_is(opt_str(&jobs[i].conclusion), c) {
            n += 1;
        }
        i += 1;
    }
    assert(jobs@.take(i as int) =~= jobs@);
    n
}

fn count_failures(jobs: &Vec<JobInfo>) -> (n: usize)
    ensures
        n == count_failed(jobs@),
{
    let mut n: usize = 0;
    let mut i: usize = 0;
    while i < jobs.len()
        invariant
            i <= jobs@.len(),
            n == count_failed(jobs@.take(i as int)),
            n <= i,
        decreases jobs@.len() - i,
    {
        assert(jobs@.take(i + 1).drop_last() =~= jobs@.take(i as int));
        if is_failure(opt_str(&jobs[i].conclusion)) {
            n += 1;
        }
        i += 1;
    }
    assert(jobs@.take(i as int) =~= jobs@);
    n
}

fn count_with_status(jobs: &Vec<JobInfo>, st: &str) -> (n: usize)
    ensures
        n == count_status(jobs@, st@),
{
    let mut n: usize = 0;
    let mut i: usize = 0;
    while i < jobs.len()
        invariant
            i <= jobs@.len(),
            n == count_status(jobs@.take(i as int), st@),
            n <= i,
        decreases jobs@.len() - i,
    {
        assert(jobs@.take(i + 1).drop_last() =~= jobs@.take(i as int));
        if str_eq(jobs[i].status.as_str(), st) {
            n += 1;
        }
        i += 1;
    }
    assert(jobs@.take(i as int) =~= jobs@);
    n
}

fn count_not_started(jobs: &Vec<JobInfo>) -> (n: usize)
    ensures
        n == count_waiting(jobs@),
{
    let mut n: usize = 0;
    let mut i: usize = 0;
    while i < jobs.len()
        invariant
            i <= jobs@.len(),
            n == count_waiting(jobs@.take(i as int)),
            n <= i,
        decreases jobs@.len() - i,
    {
        assert(jobs@.take(i + 1).drop_last() =~= jobs@.take(i as int));
        let s = jobs[i].status.as_str();
        if str_eq(s, "queued") || str_eq(s, "waiting") || str_eq(s, "pending") || str_eq(
            s,
            "requested",
        ) {
            n += 1;
        }
        i += 1;
    }
    assert(jobs@.take(i as int) =~= jobs@);
    n
}

fn count_steps_done(steps: &Vec<StepInfo>) -> (n: usize)
    ensures
        n == count_done_steps(steps@),
        n <= steps@.len(),
{
    let mut n: usize = 0;
    let mut i: usize = 0;
    while i < steps.len()
        invariant
            i <= steps@.len(),
            n == count_done_steps(steps@.take(i as int)),
            n <= i,
        decreases steps@.len() - i,
    {
        assert(steps@.take(i + 1).drop_last() =~= steps@.take(i as int));
        if str_eq(steps[i].status.as_str(), "completed") {
            n += 1;
        }
        i += 1;
    }
    assert(steps@.take(i as int) =~= steps@);
    n
}

/// Completed steps over all jobs (`None` if the total does not fit a `usize`).
fn count_all_done_steps(jobs: &Vec<JobInfo>) -> (n: usize)
    requires
        done_steps(jobs@) <= usize::MAX,
    ensures
        n == done_steps(jobs@),
{
    let mut n: usize = 0;
    let mut i: usize = 0;
    while i < jobs.len()
        invariant
            i <= jobs@.len(),
            n == done_steps(jobs@.take(i as int)),
            done_steps(jobs@) <= usize::MAX,
        decreases jobs@.len() - i,
    {
        assert(jobs@.take(i + 1).drop_last() =~= jobs@.take(i as int));
        proof {
            lemma_done_steps_prefix(jobs@, i as int + 1);
        }
        let k = count_steps_done(&jobs[i].steps);
        n = n + k;
        i += 1;
    }
    assert(jobs@.take(i as int) =~= jobs@);
    n
}

proof fn lemma_done_steps_prefix(jobs: Seq<JobInfo>, i: int)
    requires
        0 <= i <= jobs.len(),
    ensures
        done_steps(jobs.take(i)) <= done_steps(jobs),
    decreases jobs.len(),
{
    if i < jobs.len() {
        assert(jobs.drop_last().take(i) =~= jobs.take(i));
        lemma_done_steps_prefix(jobs.drop_last(), i);
    } else {
        assert(jobs.take(i) =~= jobs);
    }
}

// ─── run tree text ───────────────────────────────────────────────────────────

/// The parts of the one-line job result summary (zero counts omitted).
pub open spec fn summary_parts(jobs: Seq<JobInfo>, lang: Lang) -> Seq<Seq<char>> {
    let success = count_concl(jobs, "success"@);
    let skipped = count_concl(jobs, "skipped"@);
    let cancelled = count_concl(jobs, "cancelled"@);
    let failure = count_failed(jobs);
    seq![i18n::jobs_count_text(lang, jobs.len())] + (if success > 0 {
        seq![i18n::n_success_text(lang, success)]
    } else {
        Seq::empty()
    }) + (if failure > 0 {
        seq![i18n::n_failure_text(lang, failure)]
    } else {
        Seq::empty()
    }) + (if skipped > 0 {
        seq![i18n::n_skipped_text(lang, skipped)]
    } else {
        Seq::empty()
    }) + (if cancelled > 0 {
        seq![i18n::n_cancelled_text(lang, cancelled)]
    } else {
        Seq::empty()
    })
}

/// One-line job result summary for a completed run.
pub open spec fn job_summary_spec(jobs: Seq<JobInfo>, lang: Lang) -> Seq<char> {
    join_seq(summary_parts(jobs, lang), " · "@)
}

pub fn job_summary(jobs: &Vec<JobInfo>, lang: Lang) -> (r: String)
    ensures
        r@ == job_summary_spec(jobs@, lang),
{
    let success = count_conclusion(jobs, "success");
    let skipped = count_conclusion(jobs, "skipped");
    let cancelled = count_conclusion(jobs, "cancelled");
    let failure = count_failures(jobs);
    let mut parts: Vec<String> = Vec::new();
    parts.push(i18n::jobs_count(lang, jobs.len()));
    let ghost p0 = parts.deep_view();
    if success > 0 {
        parts.push(i18n::n_success(lang, success));
    }
    let ghost p1 = parts.deep_view();
    if failure > 0 {
        parts.push(i18n::n_failure(lang, failure));
    }
    let ghost p2 = parts.deep_view();
    if skipped > 0 {
        parts.push(i18n::n_skipped(lang, skipped));
    }
    let ghost p3 = parts.deep_view();
    if cancelled > 0 {
        parts.push(i18n::n_cancelled(lang, cancelled));
    }
    assert(parts.deep_view() =~= summary_parts(jobs@, lang));
    join(&parts, " · ")
}

/// One glyph + name line per job, each followed by its indented steps.
pub open spec fn steps_tree(steps: Seq<StepInfo>) -> Seq<char>
    decreases steps.len(),
{
    if steps.len() == 0 {
        Seq::empty()
    } else {
        steps_tree(steps.drop_last()) + "    "@ + seq![
            job_glyph_spec(steps.last().status@, opt_text(steps.last().conclusion)),
        ] + " "@ + steps.last().name@ + "\n"@
    }
}

pub open spec fn jobs_tree(jobs: Seq<JobInfo>) -> Seq<char>
    decreases jobs.len(),
{
    if jobs.len() == 0 {
        Seq::empty()
    } else {
        jobs_tree(jobs.drop_last()) + seq![
            job_glyph_spec(jobs.last().status@, opt_text(jobs.last().conclusion)),
        ] + " "@ + jobs.last().name@ + "\n"@ + steps_tree(jobs.last().steps@)
    }
}

fn steps_tree_text(out: &mut String, steps: &Vec<StepInfo>)
    ensures
        final(out)@ == old(out)@ + steps_tree(steps@),
{
    let ghost start = out@;
    let mut i: usize = 0;
    while i < steps.len()
        invariant
            i <= steps@.len(),
            out@ == start + steps_tree(steps@.take(i as int)),
        decreases steps@.len() - i,
    {
        let s = &steps[i];
        push_str(out, "    ");
        push_char(out, job_glyph(s.status.as_str(), opt_str(&s.conclusion)));
        push_str(out, " ");
        push_str(out, s.name.as_str());
        push_str(out, "\n");
        assert(steps@.take(i + 1).drop_last() =~= steps@.take(i as int));
        assert(out@ =~= start + steps_tree(steps@.take(i + 1)));
        i += 1;
    }
    assert(steps@.take(i as int) =~= steps@);
}

fn jobs_tree_text(out: &mut String, jobs: &Vec<JobInfo>)
    ensures
        final(out)@ == old(out)@ + jobs_tree(jobs@),
{
    let ghost start = out@;
    let mut i: usize = 0;
    while i < jobs.len()
        invariant
            i <= jobs@.len(),
            out@ == start + jobs_tree(jobs@.take(i as int)),
        decreases jobs@.len() - i,
    {
        let j = &jobs[i];
        push_char(out, job_glyph(j.status.as_str(), opt_str(&j.conclusion)));
        push_str(out, " ");
        push_str(out, j.name.as_str());
        push_str(out, "\n");
        steps_tree_text(out, &j.steps);
        assert(jobs@.take(i + 1).drop_last() =~= jobs@.take(i as int));
        assert(out@ =~= start + jobs_tree(jobs@.take(i + 1)));
        i += 1;
    }
    assert(jobs@.take(i as int) =~= jobs@);
}

/// Progress text of an in-progress run (gauge per job, step count, job states).
pub open spec fn progress_spec(jobs: Seq<JobInfo>, lang: Lang) -> Seq<char> {
    let total = jobs.len();
    let done = count_status(jobs, "completed"@);
    let active = count_status(jobs, "in_progress"@);
    let queued = count_waiting(jobs);
    i18n::in_progress_auto_text(lang) + "\n"@ + (if total > 0 {
        let filled: nat = (done * 16) / total;
        let bar = repeat_seq("█"@, filled) + repeat_seq("░"@, (16 - filled) as nat);
        i18n::progress_line_text(lang, bar, done, total, done_steps(jobs)) + "\n"@
            + i18n::job_counts_text(lang, done, active, queued) + "\n"@
    } else {
        Seq::empty()
    }) + "\n"@
}

/// Header, status line, summary/progress and the job/step tree of a run.
pub open spec fn format_run_spec(rd: RunDetail, lang: Lang) -> Seq<char> {
    run_header_spec(rd) + (if rd.status@ == "completed"@ && rd.jobs@.len() > 0 {
        job_summary_spec(rd.jobs@, lang) + "\n"@
    } else {
        Seq::empty()
    }) + i18n::log_view_hint_text(lang) + "\n\n"@ + (if rd.status@ != "completed"@ {
        progress_spec(rd.jobs@, lang)
    } else {
        Seq::empty()
    }) + jobs_tree(rd.jobs@)
}

/// Counts of a run fit the arithmetic of its progress gauge.
pub open spec fn run_fits(rd: RunDetail) -> bool {
    rd.jobs@.len() * 16 <= usize::MAX && done_steps(rd.jobs@) <= usize::MAX
}

/// The two header lines of a run (name · title, event · branch · status).
pub open spec fn run_header_spec(rd: RunDetail) -> Seq<char> {
    rd.workflow_name@ + " · "@ + rd.display_title@ + "\n"@ + rd.event@ + " · "@
        + rd.head_branch@ + " · "@ + rd.status@ + (match rd.conclusion {
        Some(c) => " ("@ + c@ + ")"@,
        None => Seq::empty(),
    }) + "\n"@
}

fn run_header(rd: &RunDetail) -> (r: String)
    ensures
        r@ == run_header_spec(*rd),
{
    let mut out = owned(rd.workflow_name.as_str());
    push_str(&mut out, " · ");
    push_str(&mut out, rd.display_title.as_str());
    push_str(&mut out, "\n");
    push_str(&mut out, rd.event.as_str());
    push_str(&mut out, " · ");
    push_str(&mut out, rd.head_branch.as_str());
    push_str(&mut out, " · ");
    push_str(&mut out, rd.status.as_str());
    if let Some(c) = &rd.conclusion {
        push_str(&mut out, " (");
        push_str(&mut out, c.as_str());
        push_str(&mut out, ")");
    }
    push_str(&mut out, "\n");
    assert(out@ =~= run_header_spec(*rd));
    out
}

fn progress_text(jobs: &Vec<JobInfo>, lang: Lang) -> (r: String)
    requires
        jobs@.len() * 16 <= usize::MAX,
        done_steps(jobs@) <= usize::MAX,
    ensures
        r@ == progress_spec(jobs@, lang),
{
    let mut out = owned(i18n::in_progress_auto(lang));
    push_str(&mut out, "\n");
    let ghost d = out@;
    let total = jobs.len();
    let done = count_with_status(jobs, "completed");
    let active = count_with_status(jobs, "in_progress");
    let queued = count_not_started(jobs);
    let steps = count_all_done_steps(jobs);
    proof {
        lemma_counts_bounded(jobs@, "completed"@);
    }
    if total > 0 {
        let filled = (done * 16) / total;
        proof {
            let dd: int = done as int;
            let tt: int = total as int;
            assert((dd * 16) / tt <= 16) by (nonlinear_arith)
                requires
                    dd <= tt,
                    tt > 0,
            ;
        }
        let mut bar = repeat_str("█", filled);
        push_str(&mut bar, repeat_str("░", 16 - filled).as_str());
        push_str(&mut out, i18n::progress_line(lang, bar.as_str(), done, total, steps).as_str());
        push_str(&mut out, "\n");
        push_str(&mut out, i18n::job_counts(lang, done, active, queued).as_str());
        push_str(&mut out, "\n");
    }
    push_str(&mut out, "\n");
    assert(out@ =~= progress_spec(jobs@, lang));
    out
}

/// Whether the counts of a run fit the arithmetic of its progress gauge.
pub fn run_fits_check(rd: &RunDetail) -> (b: bool)
    ensures
        b == run_fits(*rd),
{
    if rd.jobs.len() > usize::MAX / 16 {
        return false;
    }
    let mut n: usize = 0;
    let mut i: usize = 0;
    while i < rd.jobs.len()
        invariant
            i <= rd.jobs@.len(),
            n == done_steps(rd.jobs@.take(i as int)),
        decreases rd.jobs@.len() - i,
    {
        assert(rd.jobs@.take(i + 1).drop_last() =~= rd.jobs@.take(i as int));
        let k = count_steps_done(&rd.jobs[i].steps);
        match n.checked_add(k) {
            Some(m) => {
                n = m;
            },
            None => {
                proof {
                    lemma_done_steps_prefix(rd.jobs@, i + 1);
                }
                return false;
            },
        }
        i += 1;
    }
    assert(rd.jobs@.take(i as int) =~= rd.jobs@);
    true
}

pub fn format_run(rd: &RunDetail, lang: Lang) -> (r: String)
    requires
        run_fits(*rd),
    ensures
        r@ == format_run_spec(*rd, lang),
{
    let mut out = run_header(rd);
    let completed = str_eq(rd.status.as_str(), "completed");
    if completed && rd.jobs.len() > 0 {
        push_str(&mut out, job_summary(&rd.jobs, lang).as_str());
        push_str(&mut out, "\n");
    }
    push_str(&mut out, i18n::log_view_hint(lang));
    push_str(&mut out, "\n\n");
    if !completed {
        push_str(&mut out, progress_text(&rd.jobs, lang).as_str());
    }
    jobs_tree_text(&mut out, &rd.jobs);
    assert(out@ =~= format_run_spec(*rd, lang));
    out
}

/// The run is still going (its detail should follow).
pub open spec fn run_active_spec(rd: RunDetail) -> bool {
    rd.status@ != "completed"@
}

pub fn run_active(rd: &RunDetail) -> (b: bool)
    ensures
        b == run_active_spec(*rd),
{
    !str_eq(rd.status.as_str(), "completed")
}

/// The run or one of its jobs concluded with `failure`.
pub open spec fn run_failed_spec(rd: RunDetail) -> bool {
    opt_text(rd.conclusion) == Some("failure"@) || exists|i: int|
        0 <= i < rd.jobs@.len() && opt_text((#[trigger] rd.jobs@[i]).conclusion) == Some(
            "failure"@,
        )
}

/// Whether the tree view appends the failed-steps log (finished, failed runs).
pub open spec fn wants_failed_log_spec(rd: RunDetail) -> bool {
    !run_active_spec(rd) && run_failed_spec(rd)
}

pub fn wants_failed_log(rd: &RunDetail) -> (b: bool)
    ensures
        b == wants_failed_log_spec(*rd),
{
    if run_active(rd) {
        return false;
    }
    if opt_is(opt_str(&rd.conclusion), "failure") {
        return true;
    }
    let mut i: usize = 0;
    while i < rd.jobs.len()
        invariant
            i <= rd.jobs@.len(),
            !run_active_spec(*rd),
            opt_text(rd.conclusion) != Some("failure"@),
            forall|j: int|
                0 <= j < i ==> opt_text((#[trigger] rd.jobs@[j]).conclusion) != Some("failure"@),
        decreases rd.jobs@.len() - i,
    {
        if opt_is(opt_str(&rd.jobs[i].conclusion), "failure") {
            assert(opt_text(rd.jobs@[i as int].conclusion) == Some("failure"@));
            return true;
        }
        i += 1;
    }
    false
}

/// The tree body with the failed-steps log appended when it is not blank.
pub open spec fn with_failure_log_spec(body: Seq<char>, log: Seq<char>, lang: Lang) -> Seq<char> {
    if trim_seq(log).len() == 0 {
        body
    } else {
        body + "\n"@ + i18n::failure_log_header_text(lang) + "\n"@ + trim_seq(log) + "\n"@
    }
}

/// The tree-mode body of a run: the tree, plus the failed-steps log when one was fetched.
pub open spec fn run_tree_body_spec(rd: RunDetail, failed_log: Option<Seq<char>>, lang: Lang) -> Seq<char> {
    match failed_log {
        Some(log) => with_failure_log_spec(format_run_spec(rd, lang), log, lang),
        None => format_run_spec(rd, lang),
    }
}

pub fn run_tree_body(rd: &RunDetail, failed_log: Option<&str>, lang: Lang) -> (r: String)
    requires
        run_fits(*rd),
    ensures
        r@ == run_tree_body_spec(*rd, crate::i18n::opt_view(failed_log), lang),
{
    let mut body = format_run(rd, lang);
    if let Some(log) = failed_log {
        let t = trim(log);
        if !t.as_str().is_empty() {
            push_str(&mut body, "\n");
            push_str(&mut body, i18n::failure_log_header(lang));
            push_str(&mut body, "\n");
            push_str(&mut body, t.as_str());
            push_str(&mut body, "\n");
        }
    }
    body
}

} // verus!
