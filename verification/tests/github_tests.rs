use argus::github::{Author, CommitAuthor, CommitDetail, Label};
use argus::i18n::Lang;
use argus::review::{
    format_issue, format_pr, issue_times_fit, pr_times_fit, short_time, Comment, IssueDetail,
    PrDetail, Review, ReviewComment,
};
use argus::run_detail::{
    fmt_dur, format_commit, format_run, job_glyph, run_tree_body, step_elapsed, wants_failed_log,
    CommitFile, CommitFull, CommitStats, JobInfo, RunDetail, StepInfo,
};
use argus::run_logs::{clean_log, job_log_path, log_error, run_logs_body, strip_ts};

fn ts(s: &str) -> (i64, u32) {
    let t: chrono::DateTime<chrono::Utc> = s.parse().unwrap();
    (t.timestamp(), t.timestamp_subsec_nanos())
}

#[test]
fn run_glyphs() {
    assert_eq!(job_glyph("completed", Some("success")), '✓');
    assert_eq!(job_glyph("completed", Some("failure")), '✗');
    assert_eq!(job_glyph("completed", Some("skipped")), '⊝');
    assert_eq!(job_glyph("in_progress", None), '▸');
    assert_eq!(job_glyph("queued", None), '·');
}

fn step(name: &str, status: &str, concl: Option<&str>) -> StepInfo {
    StepInfo {
        name: name.to_string(),
        status: status.to_string(),
        conclusion: concl.map(String::from),
        started_at: None,
        completed_at: None,
    }
}

fn in_progress_run() -> RunDetail {
    RunDetail {
        status: "in_progress".to_string(),
        conclusion: None,
        jobs: vec![JobInfo {
            name: "build".to_string(),
            status: "in_progress".to_string(),
            conclusion: None,
            database_id: 0,
            steps: vec![step("checkout", "completed", Some("success")), step("compile", "in_progress", None)],
        }],
        display_title: "fix".to_string(),
        workflow_name: "CI".to_string(),
        head_branch: "main".to_string(),
        event: "push".to_string(),
    }
}

#[test]
fn formats_run_tree() {
    let rd = in_progress_run();
    let out = format_run(&rd, Lang::Ko);
    assert!(out.contains("CI · fix"));
    assert!(out.contains("진행 중"));
    assert!(out.contains("▸ build"));
    assert!(out.contains("✓ checkout"));
    assert!(out.contains("▸ compile"));
    assert!(out.contains("잡 0/1"), "got:\n{out}");
    assert!(out.contains("스텝 1 완료"));
    assert!(out.contains("▸1 진행"));
}

fn completed_job(name: &str, concl: &str) -> JobInfo {
    JobInfo {
        name: name.to_string(),
        status: "completed".to_string(),
        conclusion: Some(concl.to_string()),
        database_id: 0,
        steps: vec![],
    }
}

#[test]
fn run_summary_for_completed() {
    let rd = RunDetail {
        status: "completed".to_string(),
        conclusion: Some("success".to_string()),
        jobs: vec![
            completed_job("detect", "success"),
            completed_job("install", "skipped"),
            completed_job("test", "skipped"),
            completed_job("lint", "skipped"),
        ],
        display_title: "docs".to_string(),
        workflow_name: "Build & Test".to_string(),
        head_branch: "main".to_string(),
        event: "push".to_string(),
    };
    let out = format_run(&rd, Lang::Ko);
    assert!(out.contains("잡 4 · ✓1 성공 · ⊝3 스킵"), "got:\n{out}");
    assert!(!out.contains("실패"));
    assert!(!out.contains("진행률"));
}

fn author(login: &str) -> Option<Author> {
    Some(Author { login: login.to_string() })
}

#[test]
fn formats_issue_with_comments() {
    let d = IssueDetail {
        number: 7,
        title: "bug".to_string(),
        state: "OPEN".to_string(),
        author: author("alice"),
        labels: vec![Label { name: "bug".to_string(), color: "d73a4a".to_string() }],
        body: "   ".to_string(),
        created_at: "2026-06-10T13:27:08Z".to_string(),
        comments: vec![Comment {
            author: author("bob"),
            body: "I can repro".to_string(),
            created_at: "2026-06-11T09:00:00Z".to_string(),
        }],
    };
    assert!(issue_times_fit(&d));
    let md = format_issue(&d, Lang::Ko);
    assert!(md.starts_with("# #7 bug"));
    assert!(md.contains("@alice"));
    assert!(md.contains("본문 없음"));
    assert!(md.contains("## 💬 코멘트 (1)"));
    assert!(md.contains("@bob"));
    assert!(md.contains("I can repro"));
}

fn sample_pr() -> PrDetail {
    PrDetail {
        number: 3,
        title: "feat".to_string(),
        state: "OPEN".to_string(),
        author: author("alice"),
        labels: vec![],
        body: "do a thing".to_string(),
        is_draft: false,
        additions: 10,
        deletions: 2,
        head_ref_name: "feat-x".to_string(),
        base_ref_name: "main".to_string(),
        review_decision: Some("CHANGES_REQUESTED".to_string()),
        comments: vec![Comment {
            author: author("carol"),
            body: "nit".to_string(),
            created_at: "2026-06-11T10:00:00Z".to_string(),
        }],
        reviews: vec![Review {
            author: author("dave"),
            body: "please fix".to_string(),
            state: "CHANGES_REQUESTED".to_string(),
            submitted_at: Some("2026-06-11T09:30:00Z".to_string()),
        }],
    }
}

fn thread(path: Option<&str>, line: Option<u64>, user: &str, body: &str, at: &str, reply: bool) -> ReviewComment {
    ReviewComment {
        path: path.map(String::from),
        line,
        user: author(user),
        body: body.to_string(),
        created_at: at.to_string(),
        in_reply_to_id: if reply { Some(1) } else { None },
    }
}

#[test]
fn formats_pr_timeline_and_threads() {
    let d = sample_pr();
    let threads = vec![thread(Some("src/main.rs"), Some(42), "dave", "rename this", "2026-06-11T09:31:00Z", false)];
    assert!(pr_times_fit(&d, &threads));
    let md = format_pr(&d, &threads, Lang::Ko);
    assert!(md.contains("main ← feat-x"));
    assert!(md.contains("## 💬 타임라인"));
    assert!(md.contains("✗ 변경요청"));
    assert!(md.contains("please fix"));
    assert!(md.contains("@carol"));
    assert!(md.contains("## 📄 코드 리뷰 스레드"));
    assert!(md.contains("src/main.rs:42"));
    assert!(md.contains("rename this"));
}

#[test]
fn timeline_is_in_time_order() {
    let d = sample_pr();
    let md = format_pr(&d, &vec![], Lang::En);
    let review = md.find("please fix").unwrap();
    let comment = md.find("@carol").unwrap();
    assert!(review < comment, "the 09:30 review comes before the 10:00 comment");
    assert!(md.contains("### 🔍 ✗ changes requested · @dave · 2026-06-11 09:30\n\nplease fix\n"));
}

#[test]
fn threads_group_by_file_then_time() {
    let d = sample_pr();
    let threads = vec![
        thread(Some("b.rs"), None, "x", "late b", "2026-06-11T12:00:00Z", false),
        thread(Some("a.rs"), None, "y", "a first", "2026-06-11T11:00:00Z", false),
        thread(Some("b.rs"), Some(7), "z", "early b", "2026-06-11T10:00:00Z", true),
    ];
    let md = format_pr(&d, &threads, Lang::En);
    let a = md.find("### 📄 a.rs\n").unwrap();
    let b = md.find("### 📄 b.rs:7\n").unwrap();
    let early = md.find("early b").unwrap();
    let late = md.find("late b").unwrap();
    assert!(a < b && b < early && early < late);
    assert!(md.contains("↳ **@z** · 2026-06-11 10:00\n\nearly b\n\n"));
}

#[test]
fn short_time_cuts_and_spaces() {
    assert_eq!(short_time("2026-06-10T22:12:14Z"), "2026-06-10 22:12");
    assert_eq!(short_time("2026"), "2026");
}

#[test]
fn cleans_actions_log() {
    let raw = "2026-06-12T09:37:45.7269406Z ##[group]Set up job\n\
               2026-06-12T09:37:45.7300000Z Hello\n\
               2026-06-12T09:37:45.7400000Z ##[endgroup]\n\
               2026-06-12T09:37:45.7500000Z ##[error]boom\n";
    let out = clean_log(raw, 100, Lang::Ko);
    assert!(out.contains("▸ Set up job"));
    assert!(out.contains("  Hello"));
    assert!(!out.contains("##[endgroup]"));
    assert!(out.contains("✗ boom"));
    assert!(!out.contains("2026-06-12T"));
}

#[test]
fn log_tail_truncates() {
    let raw: String = (0..50).map(|i| format!("2026-06-12T09:37:45.0000000Z line{i}\n")).collect();
    let out = clean_log(&raw, 10, Lang::Ko);
    assert!(out.contains("앞부분 40줄 생략"));
    assert!(out.contains("line49"));
    assert!(!out.contains("line0\n"));
}

#[test]
fn timestamp_strip_needs_a_long_time_head() {
    assert_eq!(strip_ts("2026-06-12T09:37:45.7Z hi"), "hi");
    assert_eq!(strip_ts("short hi"), "short hi");
    assert_eq!(strip_ts("2026-06-12 09:37:45.700Z hi"), "2026-06-12 09:37:45.700Z hi");
    assert_eq!(strip_ts("nospace"), "nospace");
}

#[test]
fn formats_durations() {
    assert_eq!(fmt_dur(0), "0s");
    assert_eq!(fmt_dur(45), "45s");
    assert_eq!(fmt_dur(83), "1m23s");
    assert_eq!(fmt_dur(3725), "1h2m");
    assert_eq!(fmt_dur(-5), "0s");
}

#[test]
fn step_elapsed_by_status() {
    let now = ts("2026-06-16T00:01:00Z");
    let st = |status: &str, started: Option<&str>, completed: Option<&str>| StepInfo {
        name: "s".to_string(),
        status: status.to_string(),
        conclusion: None,
        started_at: started.map(str::to_string),
        completed_at: completed.map(str::to_string),
    };
    assert_eq!(
        step_elapsed(&st("completed", Some("2026-06-16T00:00:00Z"), Some("2026-06-16T00:00:30Z")), now),
        Some(30)
    );
    assert_eq!(step_elapsed(&st("in_progress", Some("2026-06-16T00:00:00Z"), None), now), Some(60));
    assert_eq!(step_elapsed(&st("queued", None, None), now), None);
    assert_eq!(step_elapsed(&st("in_progress", Some("0001-01-01T00:00:00Z"), None), now), None);
}

#[test]
fn run_log_view_per_job() {
    let mut rd = in_progress_run();
    rd.jobs[0].database_id = 77;
    rd.jobs[0].steps[0].started_at = Some("2026-06-16T00:00:00Z".to_string());
    rd.jobs[0].steps[0].completed_at = Some("2026-06-16T00:00:05Z".to_string());
    rd.jobs.push(JobInfo {
        name: "lint".to_string(),
        status: "completed".to_string(),
        conclusion: Some("failure".to_string()),
        database_id: 78,
        steps: vec![],
    });
    assert_eq!(job_log_path("o/r", &rd.jobs[0]), None);
    assert_eq!(job_log_path("o/r", &rd.jobs[1]).as_deref(), Some("repos/o/r/actions/jobs/78/logs"));
    let logs = vec![None, Some(Err("HTTP 404: Not Found\nbody".to_string()))];
    let out = run_logs_body(&rd, &logs, ts("2026-06-16T00:01:00Z"), Lang::En);
    assert!(out.starts_with("CI · fix\n"));
    assert!(out.contains("══════ ▸ build ══════\n"));
    assert!(out.contains("  ✓ checkout (5s)\n"));
    assert!(out.contains("  ▸ compile ("));
    assert!(out.contains("══════ ✗ lint ══════\n"));
    assert_eq!(log_error("HTTP 404: Not Found\nbody", Lang::En), log_error("404", Lang::En));
    assert!(log_error("boom\nmore", Lang::En).contains("boom"));
    assert!(!log_error("boom\nmore", Lang::En).contains("more"));
}

#[test]
fn failed_runs_append_failed_log() {
    let rd = RunDetail {
        status: "completed".to_string(),
        conclusion: Some("failure".to_string()),
        jobs: vec![completed_job("test", "failure")],
        display_title: "t".to_string(),
        workflow_name: "CI".to_string(),
        head_branch: "main".to_string(),
        event: "push".to_string(),
    };
    assert!(wants_failed_log(&rd));
    assert!(!wants_failed_log(&in_progress_run()));
    let body = run_tree_body(&rd, Some("  oops  \n"), Lang::En);
    assert!(body.ends_with("\noops\n"));
    assert_eq!(run_tree_body(&rd, Some("   "), Lang::En), format_run(&rd, Lang::En));
}

#[test]
fn commit_detail_lists_files() {
    let c = CommitFull {
        commit: CommitDetail {
            message: "subject\n\nbody\n".to_string(),
            author: CommitAuthor { name: "Jo".to_string(), date: "2026-01-01".to_string() },
        },
        stats: Some(CommitStats { additions: 5, deletions: 2 }),
        files: vec![CommitFile { filename: "a.rs".to_string(), additions: 5, deletions: 2, status: "added".to_string() }],
    };
    let out = format_commit(&c, "abc");
    assert_eq!(
        out,
        "commit abc\nAuthor: Jo\nDate:   2026-01-01\n\nsubject\n\nbody\n\n─── 1 files changed · +5 −2 ───\n  A +5    −2    a.rs\n"
    );
}
