//! The log view of a workflow run: raw Actions job logs cleaned for reading
//! (timestamps stripped, group/error markers turned into glyphs, long logs
//! cut to their tail) and, for jobs still running, a step timeline.
use vstd::prelude::*;
use crate::i18n::{self, Lang};
use crate::run_detail::{
    fmt_dur, fmt_dur_spec, job_glyph, job_glyph_spec, opt_str, opt_text, step_elapsed,
    step_elapsed_spec, JobInfo, RunDetail, StepInfo,
};
use crate::clock::ts_view;
use crate::text::{
    chars_of, contains, contains_seq, ends_with_seq, find_char_from, first_index, first_line,
    first_line_seq, join_seq, lines, lines_seq, owned, push_char, push_str, starts_with,
    starts_with_seq, str_eq, string_of_range, strip_prefix, strip_prefix_seq, trim_start_char,
    trim_start_char_seq, u64_to_string, utf8_len, utf8_width, utf8_width_of, utf8_at_least,
};

verus! {

/// Lines kept per job log (its tail) when a log runs longer.
pub const JOB_LOG_TAIL: usize = 500;

// ─── one log line ────────────────────────────────────────────────────────────

/// An Actions log line without its leading timestamp: the text before the
/// first space is dropped (with the space) when it is at least 20 bytes long,
/// holds a `T` and ends in `Z`.
pub open spec fn strip_ts_spec(line: Seq<char>) -> Seq<char> {
    match first_index(line, ' ') {
        Some(sp) => {
            let head = line.take(sp as int);
            if utf8_len(head) >= 20 && head.contains('T') && ends_with_seq(head, seq!['Z']) {
                line.skip(sp + 1 as int)
            } else {
                line
            }
        },
        None => line,
    }
}

fn has_char_before(v: &Vec<char>, c: char, end: usize) -> (b: bool)
    requires
        end <= v@.len(),
    ensures
        b == v@.take(end as int).contains(c),
{
    let mut i: usize = 0;
    while i < end
        invariant
            i <= end <= v@.len(),
            forall|j: int| 0 <= j < i ==> v@[j] != c,
        decreases end - i,
    {
        if v[i] == c {
            assert(v@.take(end as int)[i as int] == c);
            return true;
        }
        i += 1;
    }
    assert forall|j: int| 0 <= j < end implies v@.take(end as int)[j] != c by {}
    false
}

/// Strip the leading ISO timestamp from a single Actions log line.
pub fn strip_ts(line: &str) -> (r: String)
    ensures
        r@ == strip_ts_spec(line@),
{
    let v = chars_of(line);
    let len = v.len();
    assert(v@.skip(0) =~= v@);
    match find_char_from(&v, ' ', 0) {
        Some(sp) => {
            let long = utf8_at_least(&v, sp, 20);
            let has_t = has_char_before(&v, 'T', sp);
            let ends_z = sp > 0 && v[sp - 1] == 'Z';
            proof {
                let head = v@.take(sp as int);
                if sp > 0 {
                    assert(head.skip(head.len() - 1) =~= seq![v@[sp - 1]]);
                    if v@[sp - 1] == 'Z' {
                        assert(ends_with_seq(head, seq!['Z']));
                    } else {
                        assert(head.skip(head.len() - 1)[0] != 'Z');
                    }
                }
            }
            if long && has_t && ends_z {
                let r = string_of_range(&v, sp + 1, len);
                assert(r@ =~= v@.skip(sp + 1));
                r
            } else {
                owned(line)
            }
        },
        None => owned(line),
    }
}

/// One cleaned log line; `##[endgroup]` lines become empty (and are dropped).
pub open spec fn clean_line_spec(l: Seq<char>) -> Seq<char> {
    let c = strip_ts_spec(trim_start_char_seq(l, '\u{feff}'));
    if let Some(s) = strip_prefix_seq(c, "##[group]"@) {
        "  ▸ "@ + s
    } else if starts_with_seq(c, "##[endgroup]"@) {
        Seq::empty()
    } else if let Some(s) = strip_prefix_seq(c, "##[error]"@) {
        "  ✗ "@ + s
    } else if let Some(s) = strip_prefix_seq(c, "##[warning]"@) {
        "  ! "@ + s
    } else if let Some(s) = strip_prefix_seq(c, "##[section]"@) {
        "  "@ + s
    } else if let Some(s) = strip_prefix_seq(c, "##[command]"@) {
        "  $ "@ + s
    } else if let Some(s) = strip_prefix_seq(c, "##[debug]"@) {
        "    "@ + s
    } else {
        "  "@ + c
    }
}

fn prefixed(p: &str, s: String) -> (r: String)
    ensures
        r@ == p@ + s@,
{
    let mut out = owned(p);
    push_str(&mut out, s.as_str());
    out
}

pub fn clean_line(l: &str) -> (r: String)
    ensures
        r@ == clean_line_spec(l@),
{
    let c = strip_ts(trim_start_char(l, '\u{feff}').as_str());
    let c = c.as_str();
    if let Some(s) = strip_prefix(c, "##[group]") {
        prefixed("  ▸ ", s)
    } else if starts_with(c, "##[endgroup]") {
        String::new()
    } else if let Some(s) = strip_prefix(c, "##[error]") {
        prefixed("  ✗ ", s)
    } else if let Some(s) = strip_prefix(c, "##[warning]") {
        prefixed("  ! ", s)
    } else if let Some(s) = strip_prefix(c, "##[section]") {
        prefixed("  ", s)
    } else if let Some(s) = strip_prefix(c, "##[command]") {
        prefixed("  $ ", s)
    } else if let Some(s) = strip_prefix(c, "##[debug]") {
        prefixed("    ", s)
    } else {
        prefixed("  ", owned(c))
    }
}

// ─── a whole log ─────────────────────────────────────────────────────────────

/// The cleaned lines, empty ones left out.
pub open spec fn cleaned(ls: Seq<Seq<char>>) -> Seq<Seq<char>>
    decreases ls.len(),
{
    if ls.len() == 0 {
        Seq::empty()
    } else {
        let c = clean_line_spec(ls.last());
        cleaned(ls.drop_last()) + if c.len() > 0 {
            seq![c]
        } else {
            Seq::empty()
        }
    }
}

/// The last `tail` of the lines (all of them when there are fewer).
pub open spec fn tail_of(cl: Seq<Seq<char>>, tail: nat) -> Seq<Seq<char>> {
    if cl.len() > tail {
        cl.skip(cl.len() - tail)
    } else {
        cl
    }
}

/// A cleaned log keeps at most `tail` lines, and they are the last ones.
pub proof fn law_log_tail_bounded(cl: Seq<Seq<char>>, tail: nat)
    ensures
        tail_of(cl, tail).len() <= tail || tail_of(cl, tail) == cl,
        tail_of(cl, tail).len() <= cl.len(),
        tail_of(cl, tail) == cl.skip(cl.len() - tail_of(cl, tail).len()),
{
    if cl.len() <= tail {
        assert(cl.skip(0) =~= cl);
    }
}

/// A cleaned log: a note of how many lines were left out (when more than
/// `tail`), then the kept lines, each ending in a newline.
pub open spec fn clean_log_spec(raw: Seq<char>, tail: nat, lang: Lang) -> Seq<char> {
    let cl = cleaned(lines_seq(raw));
    let kept = tail_of(cl, tail);
    (if cl.len() > tail {
        i18n::lines_omitted_text(lang, (cl.len() - tail) as nat) + "\n"@
    } else {
        Seq::empty()
    }) + join_seq(kept, "\n"@) + if kept.len() > 0 {
        "\n"@
    } else {
        Seq::empty()
    }
}

fn join_from(parts: &Vec<String>, from: usize, sep: &str) -> (r: String)
    requires
        from <= parts@.len(),
    ensures
        r@ == join_seq(parts.deep_view().skip(from as int), sep@),
{
    let ghost all = parts.deep_view();
    let mut out = String::new();
    let mut i: usize = from;
    assert(all.skip(from as int).take(0) =~= Seq::<Seq<char>>::empty());
    while i < parts.len()
        invariant
            from <= i <= parts@.len(),
            all == parts.deep_view(),
            out@ == join_seq(all.skip(from as int).take(i - from), sep@),
        decreases parts@.len() - i,
    {
        let ghost t = all.skip(from as int);
        if i > from {
            push_str(&mut out, sep);
        }
        push_str(&mut out, parts[i].as_str());
        proof {
            assert(t.take(i + 1 - from).drop_last() =~= t.take(i - from));
            assert(t.take(i + 1 - from).last() == parts@[i as int]@);
            if i == from {
                assert(out@ =~= t.take(1)[0]);
            }
        }
        i += 1;
    }
    assert(all.skip(from as int).take(i - from) =~= all.skip(from as int));
    out
}

/// Clean up raw Actions logs for readability, keeping the last `tail` lines.
pub fn clean_log(raw: &str, tail: usize, lang: Lang) -> (r: String)
    ensures
        r@ == clean_log_spec(raw@, tail as nat, lang),
{
    let ls = lines(raw);
    let ghost lsv = ls.deep_view();
    let mut cl: Vec<String> = Vec::new();
    let mut i: usize = 0;
    while i < ls.len()
        invariant
            i <= ls@.len(),
            lsv == ls.deep_view(),
            cl.deep_view() == cleaned(lsv.take(i as int)),
        decreases ls@.len() - i,
    {
        let c = clean_line(ls[i].as_str());
        proof {
            assert(lsv.take(i + 1).drop_last() =~= lsv.take(i as int));
            assert(lsv.take(i + 1).last() == ls@[i as int]@);
        }
        let ghost before = cl.deep_view();
        if !c.as_str().is_empty() {
            cl.push(c);
            assert(cl.deep_view() =~= before + seq![clean_line_spec(ls@[i as int]@)]);
        } else {
            assert(before + Seq::<Seq<char>>::empty() =~= before);
        }
        i += 1;
    }
    assert(lsv.take(i as int) =~= lsv);
    let n = cl.len();
    let mut s = String::new();
    let from: usize = if n > tail {
        n - tail
    } else {
        0
    };
    if n > tail {
        push_str(&mut s, i18n::lines_omitted(lang, n - tail).as_str());
        push_str(&mut s, "\n");
    }
    assert(cl.deep_view().skip(0) =~= cl.deep_view());
    push_str(&mut s, join_from(&cl, from, "\n").as_str());
    if from < n {
        push_str(&mut s, "\n");
    }
    assert(s@ =~= clean_log_spec(raw@, tail as nat, lang));
    s
}

// ─── the run's log view ──────────────────────────────────────────────────────

/// Whether a job's log is fetched: it has an id and has completed.
pub open spec fn wants_job_log(j: JobInfo) -> bool {
    j.database_id != 0 && j.status@ == "completed"@
}

/// API path of a job's log archive, for the jobs whose log is fetched.
pub open spec fn job_log_path_spec(repo: Seq<char>, j: JobInfo) -> Option<Seq<char>> {
    if wants_job_log(j) {
        Some(
            "repos/"@ + repo + "/actions/jobs/"@ + crate::text::decimal(j.database_id as nat)
                + "/logs"@,
        )
    } else {
        None
    }
}

pub fn job_log_path(repo: &str, j: &JobInfo) -> (r: Option<String>)
    ensures
        match r {
            Some(p) => job_log_path_spec(repo@, *j) == Some(p@),
            None => job_log_path_spec(repo@, *j) is None,
        },
{
    if j.database_id != 0 && str_eq(j.status.as_str(), "completed") {
        let mut p = owned("repos/");
        push_str(&mut p, repo);
        push_str(&mut p, "/actions/jobs/");
        push_str(&mut p, u64_to_string(j.database_id).as_str());
        push_str(&mut p, "/logs");
        Some(p)
    } else {
        None
    }
}

/// What a failed log fetch shows: its first line, or the not-found note when
/// that line mentions `404` (the archive lags right after a job completes).
pub open spec fn log_error_spec(e: Seq<char>, lang: Lang) -> Seq<char> {
    let first = first_line_seq(e);
    if contains_seq(first, "404"@) {
        i18n::log_not_found_text(lang)
    } else {
        i18n::log_fetch_failed_text(lang, first)
    }
}

pub fn log_error(e: &str, lang: Lang) -> (r: String)
    ensures
        r@ == log_error_spec(e@, lang),
{
    let first = first_line(e);
    if contains(first.as_str(), "404") {
        owned(i18n::log_not_found(lang))
    } else {
        i18n::log_fetch_failed(lang, first.as_str())
    }
}

/// One timeline line per step: glyph, name and elapsed time (or "waiting").
pub open spec fn step_timeline(steps: Seq<StepInfo>, now: (int, int), lang: Lang) -> Seq<char>
    decreases steps.len(),
{
    if steps.len() == 0 {
        Seq::empty()
    } else {
        let s = steps.last();
        step_timeline(steps.drop_last(), now, lang) + "  "@ + seq![
            job_glyph_spec(s.status@, opt_text(s.conclusion)),
        ] + " "@ + s.name@ + " ("@ + (match step_elapsed_spec(s, now) {
            Some(d) => fmt_dur_spec(d),
            None => i18n::step_waiting_text(lang),
        }) + ")\n"@
    }
}

/// The view of a fetch outcome.
pub open spec fn fetched_view(f: Option<Result<String, String>>) -> Option<
    Result<Seq<char>, Seq<char>>,
> {
    match f {
        Some(Ok(t)) => Some(Ok(t@)),
        Some(Err(e)) => Some(Err(e@)),
        None => None,
    }
}

/// The section of one job in the log view.
pub open spec fn job_section_spec(
    j: JobInfo,
    fetched: Option<Result<Seq<char>, Seq<char>>>,
    now: (int, int),
    lang: Lang,
) -> Seq<char> {
    "══════ "@ + seq![job_glyph_spec(j.status@, opt_text(j.conclusion))] + " "@ + j.name@
        + " ══════\n"@ + if j.database_id == 0 {
        i18n::no_log_text(lang) + "\n\n"@
    } else if j.status@ != "completed"@ {
        i18n::timeline_in_progress_text(lang) + "\n"@ + if j.steps@.len() == 0 {
            i18n::timeline_waiting_text(lang) + "\n\n"@
        } else {
            step_timeline(j.steps@, now, lang) + "\n"@
        }
    } else {
        (match fetched {
            Some(Ok(t)) => clean_log_spec(t, JOB_LOG_TAIL as nat, lang),
            Some(Err(e)) => "  ("@ + log_error_spec(e, lang) + ")\n"@,
            None => Seq::empty(),
        }) + "\n"@
    }
}

fn step_timeline_text(out: &mut String, steps: &Vec<StepInfo>, now: (i64, u32), lang: Lang)
    ensures
        final(out)@ == old(out)@ + step_timeline(steps@, ts_view(now), lang),
{
    let ghost start = out@;
    let mut i: usize = 0;
    while i < steps.len()
        invariant
            i <= steps@.len(),
            out@ == start + step_timeline(steps@.take(i as int), ts_view(now), lang),
        decreases steps@.len() - i,
    {
        let s = &steps[i];
        push_str(out, "  ");
        push_char(out, job_glyph(s.status.as_str(), opt_str(&s.conclusion)));
        push_str(out, " ");
        push_str(out, s.name.as_str());
        push_str(out, " (");
        match step_elapsed(s, now) {
            Some(secs) => push_str(out, fmt_dur(secs).as_str()),
            None => push_str(out, i18n::step_waiting(lang)),
        }
        push_str(out, ")\n");
        assert(steps@.take(i + 1).drop_last() =~= steps@.take(i as int));
        assert(out@ =~= start + step_timeline(steps@.take(i + 1), ts_view(now), lang));
        i += 1;
    }
    assert(steps@.take(i as int) =~= steps@);
}

pub fn job_section(
    j: &JobInfo,
    fetched: &Option<Result<String, String>>,
    now: (i64, u32),
    lang: Lang,
) -> (r: String)
    ensures
        r@ == job_section_spec(*j, fetched_view(*fetched), ts_view(now), lang),
{
    let mut out = owned("══════ ");
    push_char(&mut out, job_glyph(j.status.as_str(), opt_str(&j.conclusion)));
    push_str(&mut out, " ");
    push_str(&mut out, j.name.as_str());
    push_str(&mut out, " ══════\n");
    if j.database_id == 0 {
        push_str(&mut out, i18n::no_log(lang));
        push_str(&mut out, "\n\n");
    } else if !str_eq(j.status.as_str(), "completed") {
        push_str(&mut out, i18n::timeline_in_progress(lang));
        push_str(&mut out, "\n");
        if j.steps.len() == 0 {
            push_str(&mut out, i18n::timeline_waiting(lang));
            push_str(&mut out, "\n\n");
        } else {
            step_timeline_text(&mut out, &j.steps, now, lang);
            push_str(&mut out, "\n");
        }
    } else {
        match fetched {
            Some(Ok(t)) => push_str(&mut out, clean_log(t.as_str(), JOB_LOG_TAIL, lang).as_str()),
            Some(Err(e)) => {
                push_str(&mut out, "  (");
                push_str(&mut out, log_error(e.as_str(), lang).as_str());
                push_str(&mut out, ")\n");
            },
            None => {},
        }
        push_str(&mut out, "\n");
    }
    assert(out@ =~= job_section_spec(*j, fetched_view(*fetched), ts_view(now), lang));
    out
}

/// Head of the log view: name · title, the tree-view hint, a follow note while running.
pub open spec fn run_logs_head(rd: RunDetail, lang: Lang) -> Seq<char> {
    rd.workflow_name@ + " · "@ + rd.display_title@ + "\n"@ + i18n::tree_view_hint_text(lang)
        + "\n"@ + (if rd.status@ != "completed"@ {
        i18n::in_progress_log_auto_text(lang) + "\n"@
    } else {
        Seq::empty()
    }) + "\n"@
}

/// The sections of the jobs, each with the fetch outcome at the same index.
pub open spec fn job_sections(
    jobs: Seq<JobInfo>,
    logs: Seq<Option<Result<String, String>>>,
    now: (int, int),
    lang: Lang,
) -> Seq<char>
    decreases jobs.len(),
{
    if jobs.len() == 0 {
        Seq::empty()
    } else {
        let k = jobs.len() - 1;
        job_sections(jobs.drop_last(), logs, now, lang) + job_section_spec(
            jobs[k],
            fetched_view(logs[k]),
            now,
            lang,
        )
    }
}

/// The whole log view of a run.
pub open spec fn run_logs_spec(
    rd: RunDetail,
    logs: Seq<Option<Result<String, String>>>,
    now: (int, int),
    lang: Lang,
) -> Seq<char> {
    run_logs_head(rd, lang) + job_sections(rd.jobs@, logs, now, lang)
}

/// The log view of a run from the fetched job logs: `logs[i]` is the outcome
/// of fetching `job_log_path` of job `i` (`None` for jobs without one).
pub fn run_logs_body(
    rd: &RunDetail,
    logs: &Vec<Option<Result<String, String>>>,
    now: (i64, u32),
    lang: Lang,
) -> (r: String)
    requires
        logs@.len() == rd.jobs@.len(),
    ensures
        r@ == run_logs_spec(*rd, logs@, ts_view(now), lang),
{
    let mut out = owned(rd.workflow_name.as_str());
    push_str(&mut out, " · ");
    push_str(&mut out, rd.display_title.as_str());
    push_str(&mut out, "\n");
    push_str(&mut out, i18n::tree_view_hint(lang));
    push_str(&mut out, "\n");
    if !str_eq(rd.status.as_str(), "completed") {
        push_str(&mut out, i18n::in_progress_log_auto(lang));
        push_str(&mut out, "\n");
    }
    push_str(&mut out, "\n");
    let ghost head = out@;
    assert(head =~= run_logs_head(*rd, lang));
    let mut i: usize = 0;
    while i < rd.jobs.len()
        invariant
            i <= rd.jobs@.len(),
            logs@.len() == rd.jobs@.len(),
            out@ == head + job_sections(rd.jobs@.take(i as int), logs@, ts_view(now), lang),
        decreases rd.jobs@.len() - i,
    {
        push_str(&mut out, job_section(&rd.jobs[i], &logs[i], now, lang).as_str());
        assert(rd.jobs@.take(i + 1).drop_last() =~= rd.jobs@.take(i as int));
        assert(out@ =~= head + job_sections(rd.jobs@.take(i + 1), logs@, ts_view(now), lang));
        i += 1;
    }
    assert(rd.jobs@.take(i as int) =~= rd.jobs@);
    out
}

} // verus!
