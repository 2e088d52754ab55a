//! The command lines of the `gh` and `bkt` calls that fetch each panel and
//! detail body, and the step of the background polling loop.
use vstd::prelude::*;
use crate::github::FetchCmd;
use crate::text::{decimal, owned, push_str, u64_to_string, usize_to_string};

verus! {

/// Arguments of `gh run list` for the Actions panel.
pub open spec fn gh_runs_args_spec(repo: Seq<char>, limit: usize) -> Seq<Seq<char>> {
    seq![
        "run"@,
        "list"@,
        "--repo"@,
        repo,
        "--limit"@,
        decimal(limit as nat),
        "--json"@,
        "databaseId,workflowName,displayTitle,status,conclusion,headBranch,event,createdAt,url"@,
    ]
}

pub fn gh_runs_args(repo: &str, limit: usize) -> (r: Vec<String>)
    ensures
        r.deep_view() == gh_runs_args_spec(repo@, limit),
{
    let mut r: Vec<String> = Vec::new();
    let mut a0 = String::new();
    push_str(&mut a0, "run");
    r.push(a0);
    let mut a1 = String::new();
    push_str(&mut a1, "list");
    r.push(a1);
    let mut a2 = String::new();
    push_str(&mut a2, "--repo");
    r.push(a2);
    let mut a3 = String::new();
    push_str(&mut a3, repo);
    r.push(a3);
    let mut a4 = String::new();
    push_str(&mut a4, "--limit");
    r.push(a4);
    let mut a5 = String::new();
    push_str(&mut a5, usize_to_string(limit).as_str());
    r.push(a5);
    let mut a6 = String::new();
    push_str(&mut a6, "--json");
    r.push(a6);
    let mut a7 = String::new();
    push_str(&mut a7, "databaseId,workflowName,displayTitle,status,conclusion,headBranch,event,createdAt,url");
    r.push(a7);
    assert(r.deep_view() =~= gh_runs_args_spec(repo@, limit));
    r
}

/// Arguments of `gh issue list` (open issues).
pub open spec fn gh_issues_args_spec(repo: Seq<char>, limit: usize) -> Seq<Seq<char>> {
    seq![
        "issue"@,
        "list"@,
        "--repo"@,
        repo,
        "--limit"@,
        decimal(limit as nat),
        "--state"@,
        "open"@,
        "--json"@,
        "number,title,author,updatedAt,labels,url"@,
    ]
}

pub fn gh_issues_args(repo: &str, limit: usize) -> (r: Vec<String>)
    ensures
        r.deep_view() == gh_issues_args_spec(repo@, limit),
{
    let mut r: Vec<String> = Vec::new();
    let mut a0 = String::new();
    push_str(&mut a0, "issue");
    r.push(a0);
    let mut a1 = String::new();
    push_str(&mut a1, "list");
    r.push(a1);
    let mut a2 = String::new();
    push_str(&mut a2, "--repo");
    r.push(a2);
    let mut a3 = String::new();
    push_str(&mut a3, repo);
    r.push(a3);
    let mut a4 = String::new();
    push_str(&mut a4, "--limit");
    r.push(a4);
    let mut a5 = String::new();
    push_str(&mut a5, usize_to_string(limit).as_str());
    r.push(a5);
    let mut a6 = String::new();
    push_str(&mut a6, "--state");
    r.push(a6);
    let mut a7 = String::new();
    push_str(&mut a7, "open");
    r.push(a7);
    let mut a8 = String::new();
    push_str(&mut a8, "--json");
    r.push(a8);
    let mut a9 = String::new();
    push_str(&mut a9, "number,title,author,updatedAt,labels,url");
    r.push(a9);
    assert(r.deep_view() =~= gh_issues_args_spec(repo@, limit));
    r
}

/// Arguments of `gh pr list` (open pull requests).
pub open spec fn gh_prs_args_spec(repo: Seq<char>, limit: usize) -> Seq<Seq<char>> {
    seq![
        "pr"@,
        "list"@,
        "--repo"@,
        repo,
        "--limit"@,
        decimal(limit as nat),
        "--state"@,
        "open"@,
        "--json"@,
        "number,title,author,updatedAt,isDraft,reviewDecision,headRefName,url"@,
    ]
}

pub fn gh_prs_args(repo: &str, limit: usize) -> (r: Vec<String>)
    ensures
        r.deep_view() == gh_prs_args_spec(repo@, limit),
{
    let mut r: Vec<String> = Vec::new();
    let mut a0 = String::new();
    push_str(&mut a0, "pr");
    r.push(a0);
    let mut a1 = String::new();
    push_str(&mut a1, "list");
    r.push(a1);
    let mut a2 = String::new();
    push_str(&mut a2, "--repo");
    r.push(a2);
    let mut a3 = String::new();
    push_str(&mut a3, repo);
    r.push(a3);
    let mut a4 = String::new();
    push_str(&mut a4, "--limit");
    r.push(a4);
    let mut a5 = String::new();
    push_str(&mut a5, usize_to_string(limit).as_str());
    r.push(a5);
    let mut a6 = String::new();
    push_str(&mut a6, "--state");
    r.push(a6);
    let mut a7 = String::new();
    push_str(&mut a7, "open");
    r.push(a7);
    let mut a8 = String::new();
    push_str(&mut a8, "--json");
    r.push(a8);
    let mut a9 = String::new();
    push_str(&mut a9, "number,title,author,updatedAt,isDraft,reviewDecision,headRefName,url");
    r.push(a9);
    assert(r.deep_view() =~= gh_prs_args_spec(repo@, limit));
    r
}

/// Arguments of `gh api` for recent commits.
pub open spec fn gh_commits_args_spec(repo: Seq<char>, limit: usize) -> Seq<Seq<char>> {
    seq![
        "api"@,
        "repos/"@ + repo + "/commits?per_page="@ + decimal(limit as nat),
    ]
}

pub fn gh_commits_args(repo: &str, limit: usize) -> (r: Vec<String>)
    ensures
        r.deep_view() == gh_commits_args_spec(repo@, limit),
{
    let mut r: Vec<String> = Vec::new();
    let mut a0 = String::new();
    push_str(&mut a0, "api");
    r.push(a0);
    let mut a1 = String::new();
    push_str(&mut a1, "repos/");
    push_str(&mut a1, repo);
    push_str(&mut a1, "/commits?per_page=");
    push_str(&mut a1, usize_to_string(limit).as_str());
    r.push(a1);
    assert(r.deep_view() =~= gh_commits_args_spec(repo@, limit));
    r
}

/// Arguments of `gh run view` with the jobs of a run.
pub open spec fn gh_run_view_args_spec(repo: Seq<char>, id: u64) -> Seq<Seq<char>> {
    seq![
        "run"@,
        "view"@,
        decimal(id as nat),
        "--repo"@,
        repo,
        "--json"@,
        "status,conclusion,jobs,displayTitle,workflowName,headBranch,event"@,
    ]
}

pub fn gh_run_view_args(repo: &str, id: u64) -> (r: Vec<String>)
    ensures
        r.deep_view() == gh_run_view_args_spec(repo@, id),
{
    let mut r: Vec<String> = Vec::new();
    let mut a0 = String::new();
    push_str(&mut a0, "run");
    r.push(a0);
    let mut a1 = String::new();
    push_str(&mut a1, "view");
    r.push(a1);
    let mut a2 = String::new();
    push_str(&mut a2, u64_to_string(id).as_str());
    r.push(a2);
    let mut a3 = String::new();
    push_str(&mut a3, "--repo");
    r.push(a3);
    let mut a4 = String::new();
    push_str(&mut a4, repo);
    r.push(a4);
    let mut a5 = String::new();
    push_str(&mut a5, "--json");
    r.push(a5);
    let mut a6 = String::new();
    push_str(&mut a6, "status,conclusion,jobs,displayTitle,workflowName,headBranch,event");
    r.push(a6);
    assert(r.deep_view() =~= gh_run_view_args_spec(repo@, id));
    r
}

/// Arguments of `gh run view --log-failed` (logs of the failed steps).
pub open spec fn gh_failed_log_args_spec(repo: Seq<char>, id: u64) -> Seq<Seq<char>> {
    seq![
        "run"@,
        "view"@,
        decimal(id as nat),
        "--repo"@,
        repo,
        "--log-failed"@,
    ]
}

pub fn gh_failed_log_args(repo: &str, id: u64) -> (r: Vec<String>)
    ensures
        r.deep_view() == gh_failed_log_args_spec(repo@, id),
{
    let mut r: Vec<String> = Vec::new();
    let mut a0 = String::new();
    push_str(&mut a0, "run");
    r.push(a0);
    let mut a1 = String::new();
    push_str(&mut a1, "view");
    r.push(a1);
    let mut a2 = String::new();
    push_str(&mut a2, u64_to_string(id).as_str());
    r.push(a2);
    let mut a3 = String::new();
    push_str(&mut a3, "--repo");
    r.push(a3);
    let mut a4 = String::new();
    push_str(&mut a4, repo);
    r.push(a4);
    let mut a5 = String::new();
    push_str(&mut a5, "--log-failed");
    r.push(a5);
    assert(r.deep_view() =~= gh_failed_log_args_spec(repo@, id));
    r
}

/// Arguments of `gh api <path>`.
pub open spec fn gh_api_args_spec(path: Seq<char>) -> Seq<Seq<char>> {
    seq![
        "api"@,
        path,
    ]
}

pub fn gh_api_args(path: &str) -> (r: Vec<String>)
    ensures
        r.deep_view() == gh_api_args_spec(path@),
{
    let mut r: Vec<String> = Vec::new();
    let mut a0 = String::new();
    push_str(&mut a0, "api");
    r.push(a0);
    let mut a1 = String::new();
    push_str(&mut a1, path);
    r.push(a1);
    assert(r.deep_view() =~= gh_api_args_spec(path@));
    r
}

/// Arguments of `gh issue view` with comments.
pub open spec fn gh_issue_view_args_spec(repo: Seq<char>, number: u64) -> Seq<Seq<char>> {
    seq![
        "issue"@,
        "view"@,
        decimal(number as nat),
        "--repo"@,
        repo,
        "--json"@,
        "number,title,state,author,labels,body,createdAt,comments"@,
    ]
}

pub fn gh_issue_view_args(repo: &str, number: u64) -> (r: Vec<String>)
    ensures
        r.deep_view() == gh_issue_view_args_spec(repo@, number),
{
    let mut r: Vec<String> = Vec::new();
    let mut a0 = String::new();
    push_str(&mut a0, "issue");
    r.push(a0);
    let mut a1 = String::new();
    push_str(&mut a1, "view");
    r.push(a1);
    let mut a2 = String::new();
    push_str(&mut a2, u64_to_string(number).as_str());
    r.push(a2);
    let mut a3 = String::new();
    push_str(&mut a3, "--repo");
    r.push(a3);
    let mut a4 = String::new();
    push_str(&mut a4, repo);
    r.push(a4);
    let mut a5 = String::new();
    push_str(&mut a5, "--json");
    r.push(a5);
    let mut a6 = String::new();
    push_str(&mut a6, "number,title,state,author,labels,body,createdAt,comments");
    r.push(a6);
    assert(r.deep_view() =~= gh_issue_view_args_spec(repo@, number));
    r
}

/// Arguments of `gh pr view` with comments and reviews.
pub open spec fn gh_pr_view_args_spec(repo: Seq<char>, number: u64) -> Seq<Seq<char>> {
    seq![
        "pr"@,
        "view"@,
        decimal(number as nat),
        "--repo"@,
        repo,
        "--json"@,
        "number,title,state,author,labels,body,isDraft,additions,deletions,headRefName,baseRefName,reviewDecision,comments,reviews"@,
    ]
}

pub fn gh_pr_view_args(repo: &str, number: u64) -> (r: Vec<String>)
    ensures
        r.deep_view() == gh_pr_view_args_spec(repo@, number),
{
    let mut r: Vec<String> = Vec::new();
    let mut a0 = String::new();
    push_str(&mut a0, "pr");
    r.push(a0);
    let mut a1 = String::new();
    push_str(&mut a1, "view");
    r.push(a1);
    let mut a2 = String::new();
    push_str(&mut a2, u64_to_string(number).as_str());
    r.push(a2);
    let mut a3 = String::new();
    push_str(&mut a3, "--repo");
    r.push(a3);
    let mut a4 = String::new();
    push_str(&mut a4, repo);
    r.push(a4);
    let mut a5 = String::new();
    push_str(&mut a5, "--json");
    r.push(a5);
    let mut a6 = String::new();
    push_str(&mut a6, "number,title,state,author,labels,body,isDraft,additions,deletions,headRefName,baseRefName,reviewDecision,comments,reviews");
    r.push(a6);
    assert(r.deep_view() =~= gh_pr_view_args_spec(repo@, number));
    r
}

/// Arguments of `gh api` for a PR's inline review comments.
pub open spec fn gh_pr_threads_args_spec(repo: Seq<char>, number: u64) -> Seq<Seq<char>> {
    seq![
        "api"@,
        "repos/"@ + repo + "/pulls/"@ + decimal(number as nat) + "/comments?per_page=100"@,
    ]
}

pub fn gh_pr_threads_args(repo: &str, number: u64) -> (r: Vec<String>)
    ensures
        r.deep_view() == gh_pr_threads_args_spec(repo@, number),
{
    let mut r: Vec<String> = Vec::new();
    let mut a0 = String::new();
    push_str(&mut a0, "api");
    r.push(a0);
    let mut a1 = String::new();
    push_str(&mut a1, "repos/");
    push_str(&mut a1, repo);
    push_str(&mut a1, "/pulls/");
    push_str(&mut a1, u64_to_string(number).as_str());
    push_str(&mut a1, "/comments?per_page=100");
    r.push(a1);
    assert(r.deep_view() =~= gh_pr_threads_args_spec(repo@, number));
    r
}

/// Arguments of `gh api` for one commit with its files.
pub open spec fn gh_commit_args_spec(repo: Seq<char>, sha: Seq<char>) -> Seq<Seq<char>> {
    seq![
        "api"@,
        "repos/"@ + repo + "/commits/"@ + sha,
    ]
}

pub fn gh_commit_args(repo: &str, sha: &str) -> (r: Vec<String>)
    ensures
        r.deep_view() == gh_commit_args_spec(repo@, sha@),
{
    let mut r: Vec<String> = Vec::new();
    let mut a0 = String::new();
    push_str(&mut a0, "api");
    r.push(a0);
    let mut a1 = String::new();
    push_str(&mut a1, "repos/");
    push_str(&mut a1, repo);
    push_str(&mut a1, "/commits/");
    push_str(&mut a1, sha);
    r.push(a1);
    assert(r.deep_view() =~= gh_commit_args_spec(repo@, sha@));
    r
}

/// Arguments of `bkt api` for recent pipelines (commit message expanded).
pub open spec fn bkt_runs_args_spec(repo: Seq<char>, limit: usize) -> Seq<Seq<char>> {
    seq![
        "api"@,
        "/repositories/"@ + repo + "/pipelines/"@,
        "--param"@,
        "sort=-created_on"@,
        "--param"@,
        "fields=+values.target.commit.message"@,
        "--param"@,
        "pagelen="@ + decimal(limit as nat),
    ]
}

pub fn bkt_runs_args(repo: &str, limit: usize) -> (r: Vec<String>)
    ensures
        r.deep_view() == bkt_runs_args_spec(repo@, limit),
{
    let mut r: Vec<String> = Vec::new();
    let mut a0 = String::new();
    push_str(&mut a0, "api");
    r.push(a0);
    let mut a1 = String::new();
    push_str(&mut a1, "/repositories/");
    push_str(&mut a1, repo);
    push_str(&mut a1, "/pipelines/");
    r.push(a1);
    let mut a2 = String::new();
    push_str(&mut a2, "--param");
    r.push(a2);
    let mut a3 = String::new();
    push_str(&mut a3, "sort=-created_on");
    r.push(a3);
    let mut a4 = String::new();
    push_str(&mut a4, "--param");
    r.push(a4);
    let mut a5 = String::new();
    push_str(&mut a5, "fields=+values.target.commit.message");
    r.push(a5);
    let mut a6 = String::new();
    push_str(&mut a6, "--param");
    r.push(a6);
    let mut a7 = String::new();
    push_str(&mut a7, "pagelen=");
    push_str(&mut a7, usize_to_string(limit).as_str());
    r.push(a7);
    assert(r.deep_view() =~= bkt_runs_args_spec(repo@, limit));
    r
}

/// Arguments of `bkt api` for open pull requests (participants expanded).
pub open spec fn bkt_prs_args_spec(repo: Seq<char>, limit: usize) -> Seq<Seq<char>> {
    seq![
        "api"@,
        "/repositories/"@ + repo + "/pullrequests"@,
        "--param"@,
        "state=OPEN"@,
        "--param"@,
        "sort=-updated_on"@,
        "--param"@,
        "fields=+values.participants.approved,+values.participants.state"@,
        "--param"@,
        "pagelen="@ + decimal(limit as nat),
    ]
}

pub fn bkt_prs_args(repo: &str, limit: usize) -> (r: Vec<String>)
    ensures
        r.deep_view() == bkt_prs_args_spec(repo@, limit),
{
    let mut r: Vec<String> = Vec::new();
    let mut a0 = String::new();
    push_str(&mut a0, "api");
    r.push(a0);
    let mut a1 = String::new();
    push_str(&mut a1, "/repositories/");
    push_str(&mut a1, repo);
    push_str(&mut a1, "/pullrequests");
    r.push(a1);
    let mut a2 = String::new();
    push_str(&mut a2, "--param");
    r.push(a2);
    let mut a3 = String::new();
    push_str(&mut a3, "state=OPEN");
    r.push(a3);
    let mut a4 = String::new();
    push_str(&mut a4, "--param");
    r.push(a4);
    let mut a5 = String::new();
    push_str(&mut a5, "sort=-updated_on");
    r.push(a5);
    let mut a6 = String::new();
    push_str(&mut a6, "--param");
    r.push(a6);
    let mut a7 = String::new();
    push_str(&mut a7, "fields=+values.participants.approved,+values.participants.state");
    r.push(a7);
    let mut a8 = String::new();
    push_str(&mut a8, "--param");
    r.push(a8);
    let mut a9 = String::new();
    push_str(&mut a9, "pagelen=");
    push_str(&mut a9, usize_to_string(limit).as_str());
    r.push(a9);
    assert(r.deep_view() =~= bkt_prs_args_spec(repo@, limit));
    r
}

/// Arguments of `bkt api` for recent commits.
pub open spec fn bkt_commits_args_spec(repo: Seq<char>, limit: usize) -> Seq<Seq<char>> {
    seq![
        "api"@,
        "/repositories/"@ + repo + "/commits"@,
        "--param"@,
        "pagelen="@ + decimal(limit as nat),
    ]
}

pub fn bkt_commits_args(repo: &str, limit: usize) -> (r: Vec<String>)
    ensures
        r.deep_view() == bkt_commits_args_spec(repo@, limit),
{
    let mut r: Vec<String> = Vec::new();
    let mut a0 = String::new();
    push_str(&mut a0, "api");
    r.push(a0);
    let mut a1 = String::new();
    push_str(&mut a1, "/repositories/");
    push_str(&mut a1, repo);
    push_str(&mut a1, "/commits");
    r.push(a1);
    let mut a2 = String::new();
    push_str(&mut a2, "--param");
    r.push(a2);
    let mut a3 = String::new();
    push_str(&mut a3, "pagelen=");
    push_str(&mut a3, usize_to_string(limit).as_str());
    r.push(a3);
    assert(r.deep_view() =~= bkt_commits_args_spec(repo@, limit));
    r
}

/// Arguments of `bkt api` for the repository (its main branch).
pub open spec fn bkt_repo_args_spec(repo: Seq<char>) -> Seq<Seq<char>> {
    seq![
        "api"@,
        "/repositories/"@ + repo,
    ]
}

pub fn bkt_repo_args(repo: &str) -> (r: Vec<String>)
    ensures
        r.deep_view() == bkt_repo_args_spec(repo@),
{
    let mut r: Vec<String> = Vec::new();
    let mut a0 = String::new();
    push_str(&mut a0, "api");
    r.push(a0);
    let mut a1 = String::new();
    push_str(&mut a1, "/repositories/");
    push_str(&mut a1, repo);
    r.push(a1);
    assert(r.deep_view() =~= bkt_repo_args_spec(repo@));
    r
}

/// Arguments of `bkt api` for branches, most recent commit first.
pub open spec fn bkt_branches_args_spec(repo: Seq<char>, limit: usize) -> Seq<Seq<char>> {
    seq![
        "api"@,
        "/repositories/"@ + repo + "/refs/branches"@,
        "--param"@,
        "sort=-target.date"@,
        "--param"@,
        "pagelen="@ + decimal(limit as nat),
    ]
}

pub fn bkt_branches_args(repo: &str, limit: usize) -> (r: Vec<String>)
    ensures
        r.deep_view() == bkt_branches_args_spec(repo@, limit),
{
    let mut r: Vec<String> = Vec::new();
    let mut a0 = String::new();
    push_str(&mut a0, "api");
    r.push(a0);
    let mut a1 = String::new();
    push_str(&mut a1, "/repositories/");
    push_str(&mut a1, repo);
    push_str(&mut a1, "/refs/branches");
    r.push(a1);
    let mut a2 = String::new();
    push_str(&mut a2, "--param");
    r.push(a2);
    let mut a3 = String::new();
    push_str(&mut a3, "sort=-target.date");
    r.push(a3);
    let mut a4 = String::new();
    push_str(&mut a4, "--param");
    r.push(a4);
    let mut a5 = String::new();
    push_str(&mut a5, "pagelen=");
    push_str(&mut a5, usize_to_string(limit).as_str());
    r.push(a5);
    assert(r.deep_view() =~= bkt_branches_args_spec(repo@, limit));
    r
}

/// Arguments of `bkt api` for one pipeline.
pub open spec fn bkt_pipeline_args_spec(repo: Seq<char>, build: u64) -> Seq<Seq<char>> {
    seq![
        "api"@,
        "/repositories/"@ + repo + "/pipelines/"@ + decimal(build as nat),
    ]
}

pub fn bkt_pipeline_args(repo: &str, build: u64) -> (r: Vec<String>)
    ensures
        r.deep_view() == bkt_pipeline_args_spec(repo@, build),
{
    let mut r: Vec<String> = Vec::new();
    let mut a0 = String::new();
    push_str(&mut a0, "api");
    r.push(a0);
    let mut a1 = String::new();
    push_str(&mut a1, "/repositories/");
    push_str(&mut a1, repo);
    push_str(&mut a1, "/pipelines/");
    push_str(&mut a1, u64_to_string(build).as_str());
    r.push(a1);
    assert(r.deep_view() =~= bkt_pipeline_args_spec(repo@, build));
    r
}

/// Arguments of `bkt api` for a pipeline's steps.
pub open spec fn bkt_steps_args_spec(repo: Seq<char>, build: u64) -> Seq<Seq<char>> {
    seq![
        "api"@,
        "/repositories/"@ + repo + "/pipelines/"@ + decimal(build as nat) + "/steps"@,
    ]
}

pub fn bkt_steps_args(repo: &str, build: u64) -> (r: Vec<String>)
    ensures
        r.deep_view() == bkt_steps_args_spec(repo@, build),
{
    let mut r: Vec<String> = Vec::new();
    let mut a0 = String::new();
    push_str(&mut a0, "api");
    r.push(a0);
    let mut a1 = String::new();
    push_str(&mut a1, "/repositories/");
    push_str(&mut a1, repo);
    push_str(&mut a1, "/pipelines/");
    push_str(&mut a1, u64_to_string(build).as_str());
    push_str(&mut a1, "/steps");
    r.push(a1);
    assert(r.deep_view() =~= bkt_steps_args_spec(repo@, build));
    r
}

/// Arguments of `bkt api` for a plain-text step log (any content type accepted).
pub open spec fn bkt_log_args_spec(path: Seq<char>) -> Seq<Seq<char>> {
    seq![
        "api"@,
        path,
        "--header"@,
        "Accept: */*"@,
    ]
}

pub fn bkt_log_args(path: &str) -> (r: Vec<String>)
    ensures
        r.deep_view() == bkt_log_args_spec(path@),
{
    let mut r: Vec<String> = Vec::new();
    let mut a0 = String::new();
    push_str(&mut a0, "api");
    r.push(a0);
    let mut a1 = String::new();
    push_str(&mut a1, path);
    r.push(a1);
    let mut a2 = String::new();
    push_str(&mut a2, "--header");
    r.push(a2);
    let mut a3 = String::new();
    push_str(&mut a3, "Accept: */*");
    r.push(a3);
    assert(r.deep_view() =~= bkt_log_args_spec(path@));
    r
}

/// Arguments of `bkt api` for one pull request.
pub open spec fn bkt_pr_args_spec(repo: Seq<char>, number: u64) -> Seq<Seq<char>> {
    seq![
        "api"@,
        "/repositories/"@ + repo + "/pullrequests/"@ + decimal(number as nat),
    ]
}

pub fn bkt_pr_args(repo: &str, number: u64) -> (r: Vec<String>)
    ensures
        r.deep_view() == bkt_pr_args_spec(repo@, number),
{
    let mut r: Vec<String> = Vec::new();
    let mut a0 = String::new();
    push_str(&mut a0, "api");
    r.push(a0);
    let mut a1 = String::new();
    push_str(&mut a1, "/repositories/");
    push_str(&mut a1, repo);
    push_str(&mut a1, "/pullrequests/");
    push_str(&mut a1, u64_to_string(number).as_str());
    r.push(a1);
    assert(r.deep_view() =~= bkt_pr_args_spec(repo@, number));
    r
}

/// Arguments of `bkt api` for a pull request's comments.
pub open spec fn bkt_pr_comments_args_spec(repo: Seq<char>, number: u64) -> Seq<Seq<char>> {
    seq![
        "api"@,
        "/repositories/"@ + repo + "/pullrequests/"@ + decimal(number as nat) + "/comments"@,
    ]
}

pub fn bkt_pr_comments_args(repo: &str, number: u64) -> (r: Vec<String>)
    ensures
        r.deep_view() == bkt_pr_comments_args_spec(repo@, number),
{
    let mut r: Vec<String> = Vec::new();
    let mut a0 = String::new();
    push_str(&mut a0, "api");
    r.push(a0);
    let mut a1 = String::new();
    push_str(&mut a1, "/repositories/");
    push_str(&mut a1, repo);
    push_str(&mut a1, "/pullrequests/");
    push_str(&mut a1, u64_to_string(number).as_str());
    push_str(&mut a1, "/comments");
    r.push(a1);
    assert(r.deep_view() =~= bkt_pr_comments_args_spec(repo@, number));
    r
}

/// Arguments of `bkt api` for one issue.
pub open spec fn bkt_issue_args_spec(repo: Seq<char>, number: u64) -> Seq<Seq<char>> {
    seq![
        "api"@,
        "/repositories/"@ + repo + "/issues/"@ + decimal(number as nat),
    ]
}

pub fn bkt_issue_args(repo: &str, number: u64) -> (r: Vec<String>)
    ensures
        r.deep_view() == bkt_issue_args_spec(repo@, number),
{
    let mut r: Vec<String> = Vec::new();
    let mut a0 = String::new();
    push_str(&mut a0, "api");
    r.push(a0);
    let mut a1 = String::new();
    push_str(&mut a1, "/repositories/");
    push_str(&mut a1, repo);
    push_str(&mut a1, "/issues/");
    push_str(&mut a1, u64_to_string(number).as_str());
    r.push(a1);
    assert(r.deep_view() =~= bkt_issue_args_spec(repo@, number));
    r
}

/// Arguments of `bkt api` for an issue's comments.
pub open spec fn bkt_issue_comments_args_spec(repo: Seq<char>, number: u64) -> Seq<Seq<char>> {
    seq![
        "api"@,
        "/repositories/"@ + repo + "/issues/"@ + decimal(number as nat) + "/comments"@,
    ]
}

pub fn bkt_issue_comments_args(repo: &str, number: u64) -> (r: Vec<String>)
    ensures
        r.deep_view() == bkt_issue_comments_args_spec(repo@, number),
{
    let mut r: Vec<String> = Vec::new();
    let mut a0 = String::new();
    push_str(&mut a0, "api");
    r.push(a0);
    let mut a1 = String::new();
    push_str(&mut a1, "/repositories/");
    push_str(&mut a1, repo);
    push_str(&mut a1, "/issues/");
    push_str(&mut a1, u64_to_string(number).as_str());
    push_str(&mut a1, "/comments");
    r.push(a1);
    assert(r.deep_view() =~= bkt_issue_comments_args_spec(repo@, number));
    r
}

/// Arguments of `bkt api` for one commit.
pub open spec fn bkt_commit_args_spec(repo: Seq<char>, sha: Seq<char>) -> Seq<Seq<char>> {
    seq![
        "api"@,
        "/repositories/"@ + repo + "/commit/"@ + sha,
    ]
}

pub fn bkt_commit_args(repo: &str, sha: &str) -> (r: Vec<String>)
    ensures
        r.deep_view() == bkt_commit_args_spec(repo@, sha@),
{
    let mut r: Vec<String> = Vec::new();
    let mut a0 = String::new();
    push_str(&mut a0, "api");
    r.push(a0);
    let mut a1 = String::new();
    push_str(&mut a1, "/repositories/");
    push_str(&mut a1, repo);
    push_str(&mut a1, "/commit/");
    push_str(&mut a1, sha);
    r.push(a1);
    assert(r.deep_view() =~= bkt_commit_args_spec(repo@, sha@));
    r
}

/// Arguments of `bkt api` for a commit's diffstat.
pub open spec fn bkt_diffstat_args_spec(repo: Seq<char>, sha: Seq<char>) -> Seq<Seq<char>> {
    seq![
        "api"@,
        "/repositories/"@ + repo + "/diffstat/"@ + sha,
    ]
}

pub fn bkt_diffstat_args(repo: &str, sha: &str) -> (r: Vec<String>)
    ensures
        r.deep_view() == bkt_diffstat_args_spec(repo@, sha@),
{
    let mut r: Vec<String> = Vec::new();
    let mut a0 = String::new();
    push_str(&mut a0, "api");
    r.push(a0);
    let mut a1 = String::new();
    push_str(&mut a1, "/repositories/");
    push_str(&mut a1, repo);
    push_str(&mut a1, "/diffstat/");
    push_str(&mut a1, sha);
    r.push(a1);
    assert(r.deep_view() =~= bkt_diffstat_args_spec(repo@, sha@));
    r
}

/// What woke the polling loop.
pub enum PollWake {
    /// The interval passed.
    Timer,
    /// A command came from the UI.
    Command(FetchCmd),
    /// The UI is gone.
    Closed,
}

/// The polling interval after a wake-up, or `None` when the loop ends: a
/// timer or a refresh keeps the interval, a new interval replaces it.
pub open spec fn poll_next_spec(poll_secs: u64, wake: PollWake) -> Option<u64> {
    match wake {
        PollWake::Timer => Some(poll_secs),
        PollWake::Command(FetchCmd::RefreshNow) => Some(poll_secs),
        PollWake::Command(FetchCmd::SetInterval(s)) => Some(s),
        PollWake::Closed => None,
    }
}

pub fn poll_next(poll_secs: u64, wake: PollWake) -> (r: Option<u64>)
    ensures
        r == poll_next_spec(poll_secs, wake),
{
    match wake {
        PollWake::Timer => Some(poll_secs),
        PollWake::Command(FetchCmd::RefreshNow) => Some(poll_secs),
        PollWake::Command(FetchCmd::SetInterval(s)) => Some(s),
        PollWake::Closed => None,
    }
}

} // verus!
