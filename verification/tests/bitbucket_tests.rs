use argus::bitbucket::{
    bb_commit_body, bb_issue_body, bb_pr_body, branch_to_branch, commit_to_commit, diffstat_fits,
    humanize_bkt_error, map_conclusion, map_status, pipeline_logs_body, pipeline_to_run,
    pipeline_tree, pr_to_pr, review_decision, step_log_path, tail_lines, BbBranch, BbComment,
    BbCommit, BbDiffStat, BbIssueDetail, BbPipeline, BbPr, BbPrDetail, BbStep, BranchTarget,
    CommitAuthorRaw, DiffPath, Endpoint, Href, Inline, Links, Named, Participant, PipelineCommit,
    PipelineState, PipelineTarget, RenderedContent, User,
};
use argus::i18n::Lang;

fn named(s: &str) -> Option<Named> {
    Some(Named { name: s.to_string() })
}

fn links(href: &str) -> Option<Links> {
    Some(Links { html: Some(Href { href: href.to_string() }) })
}

fn state(name: &str, stage: Option<&str>, result: Option<&str>) -> Option<PipelineState> {
    Some(PipelineState {
        name: name.to_string(),
        stage: stage.and_then(named),
        result: result.and_then(named),
    })
}

#[test]
fn humanizes_common_bkt_errors() {
    let h = humanize_bkt_error("Error: no active context; run `bkt context use <name>`".to_string(), Lang::Ko);
    assert!(h.contains("context create"));
    assert!(h.contains("--set-active"));
    assert!(h.contains("context use"));
    let a = humanize_bkt_error("not authenticated for host".to_string(), Lang::En);
    assert!(a.contains("bkt auth login"));
    let raw = "some other failure".to_string();
    assert_eq!(humanize_bkt_error(raw.clone(), Lang::En), raw);
}

#[test]
fn maps_state_vocabulary_to_github() {
    assert_eq!(map_status("COMPLETED", None), "completed");
    assert_eq!(map_status("IN_PROGRESS", None), "in_progress");
    assert_eq!(map_status("IN_PROGRESS", Some("RUNNING")), "in_progress");
    assert_eq!(map_status("PENDING", None), "queued");
    assert_eq!(map_status("IN_PROGRESS", Some("PAUSED")), "waiting");
    assert_eq!(map_status("IN_PROGRESS", Some("HALTED")), "waiting");
    assert_eq!(map_status("ERROR", None), "completed");
    assert_eq!(map_status("HALTED", None), "completed");
    assert_eq!(map_conclusion("SUCCESSFUL"), "success");
    assert_eq!(map_conclusion("FAILED"), "failure");
    assert_eq!(map_conclusion("STOPPED"), "cancelled");
}

#[test]
fn pipeline_json_maps_to_run() {
    let p = BbPipeline {
        build_number: 21,
        state: state("COMPLETED", None, Some("FAILED")),
        target: Some(PipelineTarget {
            ref_name: "master".to_string(),
            commit: Some(PipelineCommit { message: "fix(slack): add scope\n\nbody line".to_string() }),
        }),
        trigger: named("PUSH"),
        created_on: "2018-12-05T09:37:53.276Z".to_string(),
    };
    let r = pipeline_to_run("ws/repo", p);
    assert_eq!(r.database_id, 21);
    assert_eq!(r.status, "completed");
    assert_eq!(r.conclusion.as_deref(), Some("failure"));
    assert_eq!(r.head_branch, "master");
    assert_eq!(r.event, "push");
    assert_eq!(r.workflow_name, "#21");
    assert_eq!(r.display_title, "fix(slack): add scope");
    assert!(r.url.contains("/pipelines/results/21"));

    let p2 = BbPipeline {
        build_number: 9,
        state: state("IN_PROGRESS", None, Some("FAILED")),
        target: Some(PipelineTarget { ref_name: "dev".to_string(), commit: None }),
        trigger: named("MANUAL"),
        created_on: "2026-01-01T00:00:00Z".to_string(),
    };
    let r2 = pipeline_to_run("ws/repo", p2);
    assert_eq!(r2.display_title, "#9");
    assert_eq!(r2.status, "in_progress");
    assert_eq!(r2.conclusion, None);
    assert_eq!(r2.workflow_name, "#9");

    let p3 = BbPipeline {
        build_number: 3,
        state: state("COMPLETED", None, Some("SUCCESSFUL")),
        target: Some(PipelineTarget {
            ref_name: String::new(),
            commit: Some(PipelineCommit { message: "\n\n  real subject\nbody".to_string() }),
        }),
        trigger: named("PUSH"),
        created_on: "2026-01-01T00:00:00Z".to_string(),
    };
    let r3 = pipeline_to_run("ws/repo", p3);
    assert_eq!(r3.display_title, "real subject");
    assert_eq!(r3.conclusion.as_deref(), Some("success"));

    let p4 = BbPipeline {
        build_number: 583,
        state: state("IN_PROGRESS", Some("PAUSED"), None),
        target: Some(PipelineTarget { ref_name: "master".to_string(), commit: None }),
        trigger: named("PUSH"),
        created_on: "2026-01-01T00:00:00Z".to_string(),
    };
    let r4 = pipeline_to_run("ws/repo", p4);
    assert_eq!(r4.status, "waiting");
    assert_eq!(r4.conclusion, None);
}

#[test]
fn commit_json_maps_with_raw_fallback() {
    let c = BbCommit {
        hash: "c3a491a6b71686cd1832354715eb112ceeac0cc8".to_string(),
        date: "2018-12-06T06:37:40+00:00".to_string(),
        message: "first line\n\nbody".to_string(),
        author: Some(CommitAuthorRaw { raw: "Jane Doe <jane@example.com>".to_string(), user: None }),
        links: links("https://bitbucket.org/x/y/commits/c3a491a"),
    };
    let m = commit_to_commit(c);
    assert_eq!(m.summary(), "first line");
    assert_eq!(m.author_name(), "Jane Doe");
    assert!(m.author.is_none());
    assert!(m.html_url.contains("bitbucket.org"));

    let c2 = BbCommit {
        hash: "abc1234".to_string(),
        date: "2026-01-01T00:00:00Z".to_string(),
        message: "msg".to_string(),
        author: Some(CommitAuthorRaw {
            raw: "Real Name <e@x>".to_string(),
            user: Some(User { nickname: String::new(), display_name: String::new() }),
        }),
        links: None,
    };
    let m2 = commit_to_commit(c2);
    assert!(m2.author.is_none());
    assert_eq!(m2.author_name(), "Real Name");
}

#[test]
fn pr_json_maps_branch_and_author() {
    let p = BbPr {
        id: 7,
        title: "feat".to_string(),
        author: Some(User { nickname: "alice".to_string(), display_name: String::new() }),
        updated_on: "2026-06-01T00:00:00Z".to_string(),
        draft: true,
        source: Some(Endpoint { branch: named("feature/x") }),
        links: links("https://bitbucket.org/x/y/pull-requests/7"),
        participants: vec![Participant { approved: true, state: Some("approved".to_string()) }],
    };
    let pr = pr_to_pr(p);
    assert_eq!(pr.number, 7);
    assert!(pr.is_draft);
    assert_eq!(pr.author.unwrap().login, "alice");
    assert_eq!(pr.head_ref_name, "feature/x");
    assert_eq!(pr.review_decision.as_deref(), Some("APPROVED"));
}

fn master_branch() -> BbBranch {
    BbBranch {
        name: "master".to_string(),
        target: Some(BranchTarget {
            hash: "abc12345".to_string(),
            date: "2026-06-05T09:16:41+00:00".to_string(),
            message: "fix: something\n\nbody".to_string(),
            author: Some(CommitAuthorRaw {
                raw: "Charles <c@x>".to_string(),
                user: Some(User { nickname: "Charles".to_string(), display_name: String::new() }),
            }),
        }),
        links: links("https://bitbucket.org/x/y/branch/master"),
    }
}

#[test]
fn branch_json_maps_with_default_flag() {
    let br = branch_to_branch(master_branch(), "master");
    assert_eq!(br.name, "master");
    assert!(br.is_default);
    assert_eq!(br.summary(), "fix: something");
    assert_eq!(br.author, "Charles");
    assert_eq!(br.commit_sha, "abc12345");
    assert!(br.url.contains("/branch/master"));
    let b2 = branch_to_branch(master_branch(), "main");
    assert!(!b2.is_default);
}

#[test]
fn pr_review_decision_aggregates_participants() {
    let mk = |approved: bool, state: Option<&str>| Participant { approved, state: state.map(String::from) };
    assert_eq!(
        review_decision(&vec![mk(true, Some("approved")), mk(false, Some("changes_requested"))]).as_deref(),
        Some("CHANGES_REQUESTED")
    );
    assert_eq!(review_decision(&vec![mk(true, None)]).as_deref(), Some("APPROVED"));
    assert_eq!(review_decision(&vec![mk(false, Some("approved"))]).as_deref(), Some("APPROVED"));
    assert_eq!(review_decision(&vec![mk(false, None)]), None);
    assert_eq!(review_decision(&vec![]), None);
}

#[test]
fn tail_keeps_last_lines() {
    assert_eq!(tail_lines("a\nb\nc\nd", 2), "c\nd");
    assert_eq!(tail_lines("a\nb", 5), "a\nb");
    assert_eq!(tail_lines("", 3), "");
}

fn steps() -> Vec<BbStep> {
    vec![
        BbStep { uuid: "{1}".to_string(), name: "build".to_string(), state: state("COMPLETED", None, Some("SUCCESSFUL")) },
        BbStep { uuid: "{2}".to_string(), name: "test".to_string(), state: state("IN_PROGRESS", None, None) },
        BbStep { uuid: String::new(), name: "deploy".to_string(), state: None },
    ]
}

#[test]
fn pipeline_tree_lists_steps() {
    let out = pipeline_tree(12, &state("IN_PROGRESS", Some("RUNNING"), None), &steps(), Lang::En);
    assert!(out.starts_with("Pipeline #12\nIN_PROGRESS · RUNNING\n"));
    assert!(out.contains("✓ build\n"));
    assert!(out.contains("▸ test\n"));
    assert!(out.contains("• deploy\n"));
    let done = pipeline_tree(12, &state("COMPLETED", None, Some("FAILED")), &vec![], Lang::En);
    assert!(done.starts_with("Pipeline #12\nCOMPLETED (FAILED)\n"));
}

#[test]
fn pipeline_logs_show_tail_and_errors() {
    let s = steps();
    assert_eq!(
        step_log_path("ws/r", 12, &s[0]).as_deref(),
        Some("/repositories/ws/r/pipelines/12/steps/{1}/log")
    );
    assert_eq!(step_log_path("ws/r", 12, &s[2]), None);
    let logs = vec![
        Some(Ok("  one\ntwo  ".to_string())),
        Some(Err("403 Forbidden\nmore".to_string())),
        None,
    ];
    let out = pipeline_logs_body(12, &s, &logs, Lang::En);
    assert!(out.contains("══════ ✓ build ══════\none\ntwo\n\n"));
    assert!(out.contains("(failed to fetch log: 403 Forbidden)"));
    assert!(out.contains("══════ • deploy ══════\n"));
}

#[test]
fn bitbucket_pr_and_issue_bodies() {
    let pr = BbPrDetail {
        id: 4,
        title: "feat".to_string(),
        description: "  body  ".to_string(),
        state: "OPEN".to_string(),
        author: Some(User { nickname: String::new(), display_name: "Ann".to_string() }),
        source: Some(Endpoint { branch: named("feature") }),
        destination: Some(Endpoint { branch: named("main") }),
    };
    let comments = vec![
        BbComment {
            content: Some(RenderedContent { raw: "nit".to_string() }),
            user: Some(User { nickname: "bob".to_string(), display_name: String::new() }),
            inline: Some(Inline { path: "src/a.rs".to_string(), to: Some(3) }),
        },
        BbComment { content: None, user: None, inline: Some(Inline { path: String::new(), to: None }) },
    ];
    let md = bb_pr_body(&pr, &comments, Lang::En);
    assert!(md.starts_with("#4 feat\nfeature → main · OPEN · @Ann\n\nbody\n\n"));
    assert!(md.contains("**@bob** `src/a.rs:3`\n\nnit\n\n"));
    assert!(md.ends_with("**@**\n\n\n\n"));

    let issue = BbIssueDetail {
        id: 2,
        title: "bug".to_string(),
        content: Some(RenderedContent { raw: "   ".to_string() }),
        state: "new".to_string(),
        kind: "bug".to_string(),
        reporter: None,
    };
    assert_eq!(bb_issue_body(&issue, &vec![], Lang::En), "#2 bug\nnew · bug · @\n\n");
}

#[test]
fn bitbucket_commit_body_sums_diffstat() {
    let c = BbCommit {
        hash: "abc".to_string(),
        date: "d".to_string(),
        message: " msg \n".to_string(),
        author: Some(CommitAuthorRaw { raw: "Jo <j@x>".to_string(), user: None }),
        links: None,
    };
    let files = vec![
        BbDiffStat {
            status: "modified".to_string(),
            lines_added: 3,
            lines_removed: 1,
            new: Some(DiffPath { path: "a.rs".to_string() }),
            old: None,
        },
        BbDiffStat { status: "removed".to_string(), lines_added: 0, lines_removed: 7, new: None, old: Some(DiffPath { path: "b.rs".to_string() }) },
    ];
    assert!(diffstat_fits(&files));
    let out = bb_commit_body(&c, &files);
    assert!(out.starts_with("commit abc\nAuthor: Jo\nDate:   d\n\nmsg\n\n"));
    assert!(out.contains("─── 2 files · +3 −8 ───\n"));
    assert!(out.contains("  M +3    −1    a.rs\n"));
    assert!(out.contains("  D +0    −7    b.rs\n"));
    let huge = vec![
        BbDiffStat { status: String::new(), lines_added: i64::MAX, lines_removed: 0, new: None, old: None },
        BbDiffStat { status: String::new(), lines_added: 1, lines_removed: 0, new: None, old: None },
    ];
    assert!(!diffstat_fits(&huge));
}
