//! Bitbucket Cloud: REST 2.0 responses (as plain values) converted into the
//! common models (`Run`/`Pr`/`Commit`/`Branch`), with Bitbucket's status
//! vocabulary (`COMPLETED`/`SUCCESSFUL` …) normalized to GitHub's
//! (`completed`/`success` …), and the detail bodies of its items.
use vstd::prelude::*;
use crate::github::{Author, Branch, Commit, CommitAuthor, CommitDetail, Pr, Run};
use crate::i18n::{self, Lang};
use crate::text::{
    before_first, chars_of, contains, contains_seq, decimal, first_line, first_line_seq,
    i64_to_string, join_seq, lines, lines_seq, owned, pad_right, pad_right_seq, push_char,
    push_str, signed_decimal, spec_lowercase, str_eq, to_lowercase, trim, trim_seq,
    u64_to_string, usize_to_string, before_first_char,
};

verus! {

// ─── errors ──────────────────────────────────────────────────────────────────

/// Friendly setup guidance for a raw `bkt` error, given its lowercased text.
pub open spec fn humanized_spec(err: Seq<char>, low: Seq<char>, lang: Lang) -> Seq<char> {
    if contains_seq(low, "no active context"@) {
        i18n::bkt_no_context_text(lang)
    } else if contains_seq(low, "not authenticated"@) || contains_seq(low, "no credentials"@)
        || contains_seq(low, "login required"@) {
        i18n::bkt_not_authed_text(lang)
    } else {
        err
    }
}

/// The guidance for an error whose lowercased text is `low`.
pub fn humanize_lowered(err: String, low: &str, lang: Lang) -> (r: String)
    ensures
        r@ == humanized_spec(err@, low@, lang),
{
    if contains(low, "no active context") {
        return owned(i18n::bkt_no_context(lang));
    }
    if contains(low, "not authenticated") || contains(low, "no credentials") || contains(
        low,
        "login required",
    ) {
        return owned(i18n::bkt_not_authed(lang));
    }
    err
}

/// Converts a raw bkt error into friendly setup guidance (keeps the original if none matches).
pub fn humanize_bkt_error(err: String, lang: Lang) -> (r: String)
    ensures
        r@ == humanized_spec(err@, spec_lowercase(err@), lang),
{
    let low = to_lowercase(err.as_str());
    humanize_lowered(err, low.as_str(), lang)
}

// ─── response values ─────────────────────────────────────────────────────────

/// Small `{ "name": ... }` object (state.result, trigger, branch, …).
pub struct Named {
    pub name: String,
}

pub struct Href {
    pub href: String,
}

pub struct Links {
    pub html: Option<Href>,
}

/// Bitbucket user: nickname, else display name, stands for a login.
pub struct User {
    pub nickname: String,
    pub display_name: String,
}

impl User {
    pub open spec fn login_spec(&self) -> Seq<char> {
        if self.nickname@.len() > 0 {
            self.nickname@
        } else {
            self.display_name@
        }
    }

    pub fn login(&self) -> (r: String)
        ensures
            r@ == self.login_spec(),
    {
        if !self.nickname.as_str().is_empty() {
            owned(self.nickname.as_str())
        } else {
            owned(self.display_name.as_str())
        }
    }
}

/// The common author of a user, none when the user has no identifier.
pub open spec fn user_author_login(user: Option<User>) -> Option<Seq<char>> {
    match user {
        Some(u) => if u.login_spec().len() > 0 {
            Some(u.login_spec())
        } else {
            None
        },
        None => None,
    }
}

pub open spec fn author_login(a: Option<Author>) -> Option<Seq<char>> {
    match a {
        Some(x) => Some(x.login@),
        None => None,
    }
}

pub fn user_to_author(user: Option<User>) -> (r: Option<Author>)
    ensures
        author_login(r) == user_author_login(user),
{
    match user {
        Some(u) => {
            let login = u.login();
            if login.as_str().is_empty() {
                None
            } else {
                Some(Author { login })
            }
        },
        None => None,
    }
}

/// The html link, `""` without one.
pub open spec fn html_url_spec(links: Option<Links>) -> Seq<char> {
    match links {
        Some(l) => match l.html {
            Some(h) => h.href@,
            None => Seq::empty(),
        },
        None => Seq::empty(),
    }
}

pub fn html_url(links: Option<Links>) -> (r: String)
    ensures
        r@ == html_url_spec(links),
{
    match links {
        Some(l) => match l.html {
            Some(h) => h.href,
            None => String::new(),
        },
        None => String::new(),
    }
}

// ─── status vocabulary ───────────────────────────────────────────────────────

pub open spec fn is_running_name(name: Seq<char>) -> bool {
    name == "IN_PROGRESS"@ || name == "BUILDING"@ || name == "RUNNING"@
}

/// Pipeline `state.name` (+ in-progress `stage.name`) → GitHub run status: a
/// running pipeline halted at a manual step is `waiting`; unknown and terminal
/// states count as `completed`.
pub open spec fn map_status_spec(name: Seq<char>, stage: Option<Seq<char>>) -> Seq<char> {
    if is_running_name(name) && (stage == Some("PAUSED"@) || stage == Some("HALTED"@)) {
        "waiting"@
    } else if is_running_name(name) {
        "in_progress"@
    } else if name == "PENDING"@ || name == "PAUSED"@ {
        "queued"@
    } else {
        "completed"@
    }
}

fn opt_is(o: Option<&str>, lit: &str) -> (b: bool)
    ensures
        b == (i18n::opt_view(o) == Some(lit@)),
{
    match o {
        Some(s) => str_eq(s, lit),
        None => false,
    }
}

pub fn map_status(name: &str, stage: Option<&str>) -> (r: String)
    ensures
        r@ == map_status_spec(name@, i18n::opt_view(stage)),
{
    let running = str_eq(name, "IN_PROGRESS") || str_eq(name, "BUILDING") || str_eq(
        name,
        "RUNNING",
    );
    if running && (opt_is(stage, "PAUSED") || opt_is(stage, "HALTED")) {
        owned("waiting")
    } else if running {
        owned("in_progress")
    } else if str_eq(name, "PENDING") || str_eq(name, "PAUSED") {
        owned("queued")
    } else {
        owned("completed")
    }
}

/// Pipeline `state.result.name` → GitHub conclusion (others lowercased).
pub open spec fn map_conclusion_spec(name: Seq<char>) -> Seq<char> {
    if name == "SUCCESSFUL"@ {
        "success"@
    } else if name == "FAILED"@ || name == "ERROR"@ {
        "failure"@
    } else if name == "STOPPED"@ || name == "EXPIRED"@ {
        "cancelled"@
    } else {
        spec_lowercase(name)
    }
}

pub fn map_conclusion(name: &str) -> (r: String)
    ensures
        r@ == map_conclusion_spec(name@),
{
    if str_eq(name, "SUCCESSFUL") {
        owned("success")
    } else if str_eq(name, "FAILED") || str_eq(name, "ERROR") {
        owned("failure")
    } else if str_eq(name, "STOPPED") || str_eq(name, "EXPIRED") {
        owned("cancelled")
    } else {
        to_lowercase(name)
    }
}

// ─── pipelines → runs ────────────────────────────────────────────────────────

pub struct PipelineState {
    pub name: String,
    /// Sub-stage while running: RUNNING / PAUSED / HALTED.
    pub stage: Option<Named>,
    pub result: Option<Named>,
}

pub struct PipelineCommit {
    pub message: String,
}

pub struct PipelineTarget {
    pub ref_name: String,
    pub commit: Option<PipelineCommit>,
}

pub struct BbPipeline {
    pub build_number: u64,
    pub state: Option<PipelineState>,
    pub target: Option<PipelineTarget>,
    pub trigger: Option<Named>,
    pub created_on: String,
}

pub open spec fn named_view(n: Option<Named>) -> Option<Seq<char>> {
    match n {
        Some(x) => Some(x.name@),
        None => None,
    }
}

fn named_str(n: &Option<Named>) -> (r: Option<&str>)
    ensures
        i18n::opt_view(r) == named_view(*n),
{
    match n {
        Some(x) => Some(x.name.as_str()),
        None => None,
    }
}

/// The state's name and stage name (an absent state reads as an empty name).
pub open spec fn state_name(s: Option<PipelineState>) -> Seq<char> {
    match s {
        Some(st) => st.name@,
        None => Seq::empty(),
    }
}

pub open spec fn state_stage(s: Option<PipelineState>) -> Option<Seq<char>> {
    match s {
        Some(st) => named_view(st.stage),
        None => None,
    }
}

pub open spec fn state_result(s: Option<PipelineState>) -> Option<Seq<char>> {
    match s {
        Some(st) => named_view(st.result),
        None => None,
    }
}

/// The first line of `ls` that is not blank, trimmed.
pub open spec fn first_nonblank(ls: Seq<Seq<char>>) -> Option<Seq<char>>
    decreases ls.len(),
{
    if ls.len() == 0 {
        None
    } else if trim_seq(ls[0]).len() > 0 {
        Some(trim_seq(ls[0]))
    } else {
        first_nonblank(ls.drop_first())
    }
}

fn first_nonblank_line(s: &str) -> (r: Option<String>)
    ensures
        match r {
            Some(t) => first_nonblank(lines_seq(s@)) == Some(t@),
            None => first_nonblank(lines_seq(s@)) is None,
        },
{
    let ls = lines(s);
    let ghost lv = ls.deep_view();
    let mut i: usize = 0;
    assert(lv.skip(0) =~= lv);
    while i < ls.len()
        invariant
            i <= ls@.len(),
            lv == ls.deep_view(),
            lv == lines_seq(s@),
            first_nonblank(lv) == first_nonblank(lv.skip(i as int)),
        decreases ls@.len() - i,
    {
        let t = trim(ls[i].as_str());
        assert(lv.skip(i as int)[0] == ls@[i as int]@);
        if !t.as_str().is_empty() {
            return Some(t);
        }
        assert(lv.skip(i as int).drop_first() =~= lv.skip(i + 1));
        i += 1;
    }
    None
}

/// `#N`.
pub open spec fn build_label(build: u64) -> Seq<char> {
    "#"@ + decimal(build as nat)
}

fn build_label_text(build: u64) -> (r: String)
    ensures
        r@ == build_label(build),
{
    let mut s = owned("#");
    push_str(&mut s, u64_to_string(build).as_str());
    s
}

/// The common run of a pipeline. The conclusion is set on completed runs only;
/// the title is the first non-blank line of the commit message (else `#N`).
pub open spec fn pipeline_run_ok(repo: Seq<char>, p: BbPipeline, r: Run) -> bool {
    let status = map_status_spec(state_name(p.state), state_stage(p.state));
    &&& r.database_id == p.build_number
    &&& r.workflow_name@ == build_label(p.build_number)
    &&& r.display_title@ == match p.target {
        Some(t) => match t.commit {
            Some(c) => match first_nonblank(lines_seq(c.message@)) {
                Some(l) => l,
                None => build_label(p.build_number),
            },
            None => build_label(p.build_number),
        },
        None => build_label(p.build_number),
    }
    &&& r.status@ == status
    &&& crate::run_detail::opt_text(r.conclusion) == if status == "completed"@ {
        match state_result(p.state) {
            Some(n) => Some(map_conclusion_spec(n)),
            None => None,
        }
    } else {
        None
    }
    &&& r.head_branch@ == match p.target {
        Some(t) => t.ref_name@,
        None => Seq::empty(),
    }
    &&& r.event@ == match p.trigger {
        Some(t) => spec_lowercase(t.name@),
        None => Seq::empty(),
    }
    &&& r.created_at@ == p.created_on@
    &&& r.url@ == "https://bitbucket.org/"@ + repo + "/pipelines/results/"@ + decimal(
        p.build_number as nat,
    )
}

/// Bitbucket's failing results (`FAILED`, `ERROR`) land in the GitHub failure
/// family, and its passing and stopped results (`SUCCESSFUL`, `STOPPED`,
/// `EXPIRED`) do not; so a completed pipeline that failed becomes a run that
/// counts and shows as failed.
pub proof fn law_failing_results_are_failures(repo: Seq<char>, p: BbPipeline, r: Run)
    ensures
        forall|name: Seq<char>|
            (name == "FAILED"@ || name == "ERROR"@) ==> #[trigger] crate::run_detail::is_failure_spec(
                Some(map_conclusion_spec(name)),
            ),
        forall|name: Seq<char>|
            (name == "SUCCESSFUL"@ || name == "STOPPED"@ || name == "EXPIRED"@)
                ==> !#[trigger] crate::run_detail::is_failure_spec(Some(map_conclusion_spec(name))),
        pipeline_run_ok(repo, p, r) && r.status@ == "completed"@ && (state_result(p.state)
            == Some("FAILED"@) || state_result(p.state) == Some("ERROR"@))
            ==> crate::run_detail::is_failure_spec(crate::run_detail::opt_text(r.conclusion)),
{
    reveal_strlit("FAILED");
    reveal_strlit("ERROR");
    reveal_strlit("SUCCESSFUL");
    reveal_strlit("STOPPED");
    reveal_strlit("EXPIRED");
    reveal_strlit("failure");
    reveal_strlit("success");
    reveal_strlit("cancelled");
    reveal_strlit("timed_out");
    reveal_strlit("startup_failure");
    assert("FAILED"@.len() != "SUCCESSFUL"@.len() && "ERROR"@.len() != "SUCCESSFUL"@.len());
    assert("success"@[0] != "failure"@[0] && "success"@.len() != "timed_out"@.len());
    assert("success"@.len() != "startup_failure"@.len());
    assert("cancelled"@.len() != "failure"@.len() && "cancelled"@[0] != "timed_out"@[0]);
    assert("cancelled"@.len() != "startup_failure"@.len());
    assert("SUCCESSFUL"@.len() != "FAILED"@.len() && "SUCCESSFUL"@.len() != "ERROR"@.len());
    assert("STOPPED"@.len() != "SUCCESSFUL"@.len() && "STOPPED"@.len() != "FAILED"@.len());
    assert("STOPPED"@.len() != "ERROR"@.len() && "EXPIRED"@.len() != "SUCCESSFUL"@.len());
    assert("EXPIRED"@.len() != "FAILED"@.len() && "EXPIRED"@.len() != "ERROR"@.len());
}

pub fn pipeline_to_run(repo: &str, p: BbPipeline) -> (r: Run)
    ensures
        pipeline_run_ok(repo@, p, r),
{
    let build = p.build_number;
    let (name, stage, result) = match &p.state {
        Some(st) => (st.name.as_str(), named_str(&st.stage), named_str(&st.result)),
        None => ("", None, None),
    };
    proof {
        reveal_strlit("");
    }
    let status = map_status(name, stage);
    let conclusion = if str_eq(status.as_str(), "completed") {
        match result {
            Some(n) => Some(map_conclusion(n)),
            None => None,
        }
    } else {
        None
    };
    let head_branch = match &p.target {
        Some(t) => owned(t.ref_name.as_str()),
        None => String::new(),
    };
    let event = match &p.trigger {
        Some(t) => to_lowercase(t.name.as_str()),
        None => String::new(),
    };
    let display_title = match &p.target {
        Some(t) => match &t.commit {
            Some(c) => match first_nonblank_line(c.message.as_str()) {
                Some(l) => l,
                None => build_label_text(build),
            },
            None => build_label_text(build),
        },
        None => build_label_text(build),
    };
    let mut url = owned("https://bitbucket.org/");
    push_str(&mut url, repo);
    push_str(&mut url, "/pipelines/results/");
    push_str(&mut url, u64_to_string(build).as_str());
    let ghost status_v = map_status_spec(state_name(p.state), state_stage(p.state));
    assert(name@ == state_name(p.state));
    assert(i18n::opt_view(stage) == state_stage(p.state));
    assert(status@ == status_v);
    assert(i18n::opt_view(result) == state_result(p.state));
    assert(url@ =~= "https://bitbucket.org/"@ + repo@ + "/pipelines/results/"@ + decimal(build as nat));
    Run {
        database_id: build,
        workflow_name: build_label_text(build),
        display_title,
        status,
        conclusion,
        head_branch,
        event,
        created_at: p.created_on,
        url,
    }
}

// ─── pull requests ───────────────────────────────────────────────────────────

pub struct Endpoint {
    pub branch: Option<Named>,
}

/// PR participant (approval flag and state).
pub struct Participant {
    pub approved: bool,
    pub state: Option<String>,
}

pub struct BbPr {
    pub id: u64,
    pub title: String,
    pub author: Option<User>,
    pub updated_on: String,
    pub draft: bool,
    pub source: Option<Endpoint>,
    pub links: Option<Links>,
    pub participants: Vec<Participant>,
}

pub open spec fn part_state(p: Participant) -> Option<Seq<char>> {
    crate::run_detail::opt_text(p.state)
}

/// Participants → GitHub review decision: any changes-requested wins, then
/// any approval; none without either.
pub open spec fn review_decision_spec(ps: Seq<Participant>) -> Option<Seq<char>> {
    if exists|i: int| 0 <= i < ps.len() && part_state(#[trigger] ps[i]) == Some(
        "changes_requested"@,
    ) {
        Some("CHANGES_REQUESTED"@)
    } else if exists|i: int|
        0 <= i < ps.len() && ((#[trigger] ps[i]).approved || part_state(ps[i]) == Some(
            "approved"@,
        )) {
        Some("APPROVED"@)
    } else {
        None
    }
}

fn part_state_is(p: &Participant, lit: &str) -> (b: bool)
    ensures
        b == (part_state(*p) == Some(lit@)),
{
    match &p.state {
        Some(s) => str_eq(s.as_str(), lit),
        None => false,
    }
}

pub fn review_decision(ps: &Vec<Participant>) -> (r: Option<String>)
    ensures
        crate::run_detail::opt_text(r) == review_decision_spec(ps@),
{
    let mut i: usize = 0;
    while i < ps.len()
        invariant
            i <= ps@.len(),
            forall|j: int| 0 <= j < i ==> part_state(#[trigger] ps@[j]) != Some("changes_requested"@),
        decreases ps@.len() - i,
    {
        if part_state_is(&ps[i], "changes_requested") {
            assert(part_state(ps@[i as int]) == Some("changes_requested"@));
            return Some(owned("CHANGES_REQUESTED"));
        }
        i += 1;
    }
    let mut k: usize = 0;
    while k < ps.len()
        invariant
            k <= ps@.len(),
            forall|j: int| 0 <= j < ps@.len() ==> part_state(#[trigger] ps@[j]) != Some("changes_requested"@),
            forall|j: int|
                0 <= j < k ==> !(#[trigger] ps@[j]).approved && part_state(ps@[j]) != Some(
                    "approved"@,
                ),
        decreases ps@.len() - k,
    {
        if ps[k].approved || part_state_is(&ps[k], "approved") {
            assert(ps@[k as int].approved || part_state(ps@[k as int]) == Some("approved"@));
            return Some(owned("APPROVED"));
        }
        k += 1;
    }
    None
}

/// The branch name of an endpoint, `""` without one.
pub open spec fn branch_name_spec(e: Option<Endpoint>) -> Seq<char> {
    match e {
        Some(x) => match x.branch {
            Some(b) => b.name@,
            None => Seq::empty(),
        },
        None => Seq::empty(),
    }
}

pub fn branch_name(e: &Option<Endpoint>) -> (r: String)
    ensures
        r@ == branch_name_spec(*e),
{
    match e {
        Some(x) => match &x.branch {
            Some(b) => owned(b.name.as_str()),
            None => String::new(),
        },
        None => String::new(),
    }
}

pub open spec fn pr_ok(p: BbPr, r: Pr) -> bool {
    &&& r.number == p.id
    &&& r.title@ == p.title@
    &&& author_login(r.author) == user_author_login(p.author)
    &&& r.updated_at@ == p.updated_on@
    &&& r.is_draft == p.draft
    &&& crate::run_detail::opt_text(r.review_decision) == review_decision_spec(p.participants@)
    &&& r.head_ref_name@ == branch_name_spec(p.source)
    &&& r.url@ == html_url_spec(p.links)
}

pub fn pr_to_pr(p: BbPr) -> (r: Pr)
    ensures
        pr_ok(p, r),
{
    let review_decision = review_decision(&p.participants);
    let head_ref_name = branch_name(&p.source);
    Pr {
        number: p.id,
        title: p.title,
        author: user_to_author(p.author),
        updated_at: p.updated_on,
        is_draft: p.draft,
        review_decision,
        head_ref_name,
        url: html_url(p.links),
    }
}

// ─── commits and branches ────────────────────────────────────────────────────

/// Commit author: raw `Name <email>` and the mapped user, if any.
pub struct CommitAuthorRaw {
    pub raw: String,
    pub user: Option<User>,
}

pub struct BbCommit {
    pub hash: String,
    pub date: String,
    pub message: String,
    pub author: Option<CommitAuthorRaw>,
    pub links: Option<Links>,
}

/// The name part of a raw `Name <email>`.
pub open spec fn author_name_from_raw_spec(raw: Seq<char>) -> Seq<char> {
    trim_seq(before_first(raw, '<'))
}

pub fn author_name_from_raw(raw: &str) -> (r: String)
    ensures
        r@ == author_name_from_raw_spec(raw@),
{
    trim(before_first_char(raw, '<').as_str())
}

/// Commit author display name: the mapped user's login, else the raw name.
pub open spec fn commit_author_name_spec(a: CommitAuthorRaw) -> Seq<char> {
    match user_author_login(a.user) {
        Some(l) => l,
        None => author_name_from_raw_spec(a.raw@),
    }
}

pub fn commit_author_name(a: &CommitAuthorRaw) -> (r: String)
    ensures
        r@ == commit_author_name_spec(*a),
{
    match &a.user {
        Some(u) => {
            let l = u.login();
            if !l.as_str().is_empty() {
                return l;
            }
        },
        None => {},
    }
    author_name_from_raw(a.raw.as_str())
}

/// The display name of a commit's author: the user's display name, else the raw name.
pub open spec fn commit_display_name(a: CommitAuthorRaw) -> Seq<char> {
    match a.user {
        Some(u) => if u.display_name@.len() > 0 {
            u.display_name@
        } else {
            author_name_from_raw_spec(a.raw@)
        },
        None => author_name_from_raw_spec(a.raw@),
    }
}

pub open spec fn commit_ok(c: BbCommit, r: Commit) -> bool {
    &&& r.sha@ == c.hash@
    &&& r.commit.message@ == c.message@
    &&& r.commit.author.date@ == c.date@
    &&& r.commit.author.name@ == match c.author {
        Some(a) => commit_display_name(a),
        None => Seq::empty(),
    }
    &&& author_login(r.author) == match c.author {
        Some(a) => user_author_login(a.user),
        None => None,
    }
    &&& r.html_url@ == html_url_spec(c.links)
}

pub fn commit_to_commit(c: BbCommit) -> (r: Commit)
    ensures
        commit_ok(c, r),
{
    let (name, login) = match &c.author {
        Some(a) => {
            let login = match &a.user {
                Some(u) => {
                    let l = u.login();
                    if l.as_str().is_empty() {
                        None
                    } else {
                        Some(l)
                    }
                },
                None => None,
            };
            let name = match &a.user {
                Some(u) => if !u.display_name.as_str().is_empty() {
                    owned(u.display_name.as_str())
                } else {
                    author_name_from_raw(a.raw.as_str())
                },
                None => author_name_from_raw(a.raw.as_str()),
            };
            (name, login)
        },
        None => (String::new(), None),
    };
    let author = match login {
        Some(l) => Some(Author { login: l }),
        None => None,
    };
    Commit {
        sha: c.hash,
        commit: CommitDetail { message: c.message, author: CommitAuthor { name, date: c.date } },
        author,
        html_url: html_url(c.links),
    }
}

pub struct BranchTarget {
    pub hash: String,
    pub date: String,
    pub message: String,
    pub author: Option<CommitAuthorRaw>,
}

pub struct BbBranch {
    pub name: String,
    pub target: Option<BranchTarget>,
    pub links: Option<Links>,
}

pub open spec fn branch_ok(b: BbBranch, default_name: Seq<char>, r: Branch) -> bool {
    &&& r.name@ == b.name@
    &&& r.is_default == (default_name.len() > 0 && b.name@ == default_name)
    &&& r.commit_message@ == match b.target {
        Some(t) => t.message@,
        None => Seq::empty(),
    }
    &&& r.author@ == match b.target {
        Some(t) => match t.author {
            Some(a) => commit_author_name_spec(a),
            None => Seq::empty(),
        },
        None => Seq::empty(),
    }
    &&& r.updated_at@ == match b.target {
        Some(t) => t.date@,
        None => Seq::empty(),
    }
    &&& r.commit_sha@ == match b.target {
        Some(t) => t.hash@,
        None => Seq::empty(),
    }
    &&& r.url@ == html_url_spec(b.links)
}

pub fn branch_to_branch(b: BbBranch, default_name: &str) -> (r: Branch)
    ensures
        branch_ok(b, default_name@, r),
{
    let is_default = !default_name.is_empty() && str_eq(b.name.as_str(), default_name);
    let (message, author, date, hash) = match b.target {
        Some(t) => {
            let author = match &t.author {
                Some(a) => commit_author_name(a),
                None => String::new(),
            };
            (t.message, author, t.date, t.hash)
        },
        None => (String::new(), String::new(), String::new(), String::new()),
    };
    Branch {
        name: b.name,
        is_default,
        commit_message: message,
        author,
        updated_at: date,
        commit_sha: hash,
        url: html_url(b.links),
    }
}

// ─── detail: pipelines ───────────────────────────────────────────────────────

/// The last `n` lines of `s` (all of them when there are fewer), joined by newlines.
pub open spec fn tail_lines_spec(s: Seq<char>, n: nat) -> Seq<char> {
    let ls = lines_seq(s);
    join_seq(
        if ls.len() > n {
            ls.skip(ls.len() - n)
        } else {
            ls
        },
        "\n"@,
    )
}

pub fn tail_lines(s: &str, n: usize) -> (r: String)
    ensures
        r@ == tail_lines_spec(s@, n as nat),
{
    let ls = lines(s);
    let ghost lv = ls.deep_view();
    let start: usize = if ls.len() > n {
        ls.len() - n
    } else {
        0
    };
    let mut out = String::new();
    let mut i: usize = start;
    let ghost t = lv.skip(start as int);
    assert(t.take(0) =~= Seq::<Seq<char>>::empty());
    while i < ls.len()
        invariant
            start <= i <= ls@.len(),
            lv == ls.deep_view(),
            t == lv.skip(start as int),
            out@ == join_seq(t.take(i - start), "\n"@),
        decreases ls@.len() - i,
    {
        if i > start {
            push_str(&mut out, "\n");
        }
        push_str(&mut out, ls[i].as_str());
        proof {
            assert(t.take(i + 1 - start).drop_last() =~= t.take(i - start));
            assert(t.take(i + 1 - start).last() == ls@[i as int]@);
            if i == start {
                assert(out@ =~= t.take(1)[0]);
            }
        }
        i += 1;
    }
    assert(t.take(i - start) =~= t);
    if ls.len() <= n {
        assert(lv.skip(0) =~= lv);
    }
    out
}

/// A pipeline step.
pub struct BbStep {
    pub uuid: String,
    pub name: String,
    pub state: Option<PipelineState>,
}

/// Step state → glyph (the same vocabulary as workflow jobs).
pub open spec fn step_glyph_spec(state_name: Seq<char>, result: Option<Seq<char>>) -> char {
    if is_running_name(state_name) {
        '▸'
    } else if state_name == "PENDING"@ || state_name == "PAUSED"@ {
        '·'
    } else if result == Some("SUCCESSFUL"@) {
        '✓'
    } else if result == Some("FAILED"@) || result == Some("ERROR"@) {
        '✗'
    } else if result == Some("STOPPED"@) || result == Some("EXPIRED"@) {
        '⊘'
    } else {
        '•'
    }
}

pub fn step_glyph(state: &PipelineState) -> (g: char)
    ensures
        g == step_glyph_spec(state.name@, named_view(state.result)),
{
    let n = state.name.as_str();
    let r = named_str(&state.result);
    if str_eq(n, "IN_PROGRESS") || str_eq(n, "BUILDING") || str_eq(n, "RUNNING") {
        '▸'
    } else if str_eq(n, "PENDING") || str_eq(n, "PAUSED") {
        '·'
    } else if opt_is(r, "SUCCESSFUL") {
        '✓'
    } else if opt_is(r, "FAILED") || opt_is(r, "ERROR") {
        '✗'
    } else if opt_is(r, "STOPPED") || opt_is(r, "EXPIRED") {
        '⊘'
    } else {
        '•'
    }
}

/// The glyph of a step; `•` without a state.
pub open spec fn step_mark(s: BbStep) -> char {
    match s.state {
        Some(st) => step_glyph_spec(st.name@, named_view(st.result)),
        None => '•',
    }
}

fn step_mark_of(s: &BbStep) -> (g: char)
    ensures
        g == step_mark(*s),
{
    match &s.state {
        Some(st) => step_glyph(st),
        None => '•',
    }
}

/// Whether a pipeline is running (a manual-step halt is not).
pub open spec fn pipeline_active_spec(state: Option<PipelineState>) -> bool {
    map_status_spec(state_name(state), state_stage(state)) == "in_progress"@
}

pub fn pipeline_active(state: &Option<PipelineState>) -> (b: bool)
    ensures
        b == pipeline_active_spec(*state),
{
    proof {
        reveal_strlit("");
    }
    let (name, stage) = match state {
        Some(st) => (st.name.as_str(), named_str(&st.stage)),
        None => ("", None),
    };
    assert(name@ == state_name(*state));
    assert(i18n::opt_view(stage) == state_stage(*state));
    str_eq(map_status(name, stage).as_str(), "in_progress")
}

/// An optional name as text, `""` without one.
pub open spec fn name_or_empty(n: Option<Seq<char>>) -> Seq<char> {
    match n {
        Some(x) => x,
        None => Seq::empty(),
    }
}

pub open spec fn step_lines(steps: Seq<BbStep>) -> Seq<char>
    decreases steps.len(),
{
    if steps.len() == 0 {
        Seq::empty()
    } else {
        step_lines(steps.drop_last()) + seq![step_mark(steps.last())] + " "@ + steps.last().name@
            + "\n"@
    }
}

/// The tree body of a pipeline: number, state (with result or stage), hints,
/// one glyph line per step.
pub open spec fn pipeline_tree_spec(
    build: u64,
    state: Option<PipelineState>,
    steps: Seq<BbStep>,
    lang: Lang,
) -> Seq<char> {
    let name = state_name(state);
    let result = name_or_empty(state_result(state));
    let stage = name_or_empty(state_stage(state));
    "Pipeline #"@ + decimal(build as nat) + "\n"@ + (if result.len() > 0 {
        name + " ("@ + result + ")\n"@
    } else if stage.len() > 0 {
        name + " · "@ + stage + "\n"@
    } else {
        name + "\n"@
    }) + i18n::log_view_hint_text(lang) + "\n\n"@ + (if pipeline_active_spec(state) {
        i18n::in_progress_auto_text(lang) + "\n\n"@
    } else {
        Seq::empty()
    }) + step_lines(steps)
}

fn or_empty_opt(o: Option<&str>) -> (r: &str)
    ensures
        r@ == name_or_empty(i18n::opt_view(o)),
{
    proof {
        reveal_strlit("");
    }
    match o {
        Some(x) => x,
        None => "",
    }
}

fn step_lines_text(out: &mut String, steps: &Vec<BbStep>)
    ensures
        final(out)@ == old(out)@ + step_lines(steps@),
{
    let ghost start = out@;
    let mut i: usize = 0;
    while i < steps.len()
        invariant
            i <= steps@.len(),
            out@ == start + step_lines(steps@.take(i as int)),
        decreases steps@.len() - i,
    {
        push_char(out, step_mark_of(&steps[i]));
        push_str(out, " ");
        push_str(out, steps[i].name.as_str());
        push_str(out, "\n");
        assert(steps@.take(i + 1).drop_last() =~= steps@.take(i as int));
        i += 1;
    }
    assert(steps@.take(i as int) =~= steps@);
}

pub fn pipeline_tree(
    build: u64,
    state: &Option<PipelineState>,
    steps: &Vec<BbStep>,
    lang: Lang,
) -> (r: String)
    ensures
        r@ == pipeline_tree_spec(build, *state, steps@, lang),
{
    proof {
        reveal_strlit("");
    }
    let (name, stage, result) = match state {
        Some(st) => (st.name.as_str(), named_str(&st.stage), named_str(&st.result)),
        None => ("", None, None),
    };
    let result = or_empty_opt(result);
    let stage = or_empty_opt(stage);
    let mut out = owned("Pipeline #");
    push_str(&mut out, u64_to_string(build).as_str());
    push_str(&mut out, "\n");
    push_str(&mut out, name);
    if !result.is_empty() {
        push_str(&mut out, " (");
        push_str(&mut out, result);
        push_str(&mut out, ")\n");
    } else if !stage.is_empty() {
        push_str(&mut out, " · ");
        push_str(&mut out, stage);
        push_str(&mut out, "\n");
    } else {
        push_str(&mut out, "\n");
    }
    push_str(&mut out, i18n::log_view_hint(lang));
    push_str(&mut out, "\n\n");
    if pipeline_active(state) {
        push_str(&mut out, i18n::in_progress_auto(lang));
        push_str(&mut out, "\n\n");
    }
    step_lines_text(&mut out, steps);
    assert(out@ =~= pipeline_tree_spec(build, *state, steps@, lang));
    out
}

/// API path of a step's log, for the steps that have an id.
pub open spec fn step_log_path_spec(repo: Seq<char>, build: u64, s: BbStep) -> Option<Seq<char>> {
    if s.uuid@.len() > 0 {
        Some(
            "/repositories/"@ + repo + "/pipelines/"@ + decimal(build as nat) + "/steps/"@
                + s.uuid@ + "/log"@,
        )
    } else {
        None
    }
}

pub fn step_log_path(repo: &str, build: u64, s: &BbStep) -> (r: Option<String>)
    ensures
        match r {
            Some(p) => step_log_path_spec(repo@, build, *s) == Some(p@),
            None => step_log_path_spec(repo@, build, *s) is None,
        },
{
    if s.uuid.as_str().is_empty() {
        return None;
    }
    let mut p = owned("/repositories/");
    push_str(&mut p, repo);
    push_str(&mut p, "/pipelines/");
    push_str(&mut p, u64_to_string(build).as_str());
    push_str(&mut p, "/steps/");
    push_str(&mut p, s.uuid.as_str());
    push_str(&mut p, "/log");
    Some(p)
}

/// The section of one step in the pipeline log view.
pub open spec fn step_section_spec(
    s: BbStep,
    fetched: Option<Result<Seq<char>, Seq<char>>>,
    lang: Lang,
) -> Seq<char> {
    "══════ "@ + seq![step_mark(s)] + " "@ + s.name@ + " ══════\n"@ + if s.uuid@.len() == 0 {
        i18n::no_log_text(lang) + "\n\n"@
    } else {
        (match fetched {
            Some(Ok(t)) => tail_lines_spec(trim_seq(t), 500) + "\n"@,
            Some(Err(e)) => "  ("@ + i18n::log_fetch_failed_text(lang, first_line_seq(e))
                + ")\n"@,
            None => Seq::empty(),
        }) + "\n"@
    }
}

pub open spec fn step_sections(
    steps: Seq<BbStep>,
    logs: Seq<Option<Result<String, String>>>,
    lang: Lang,
) -> Seq<char>
    decreases steps.len(),
{
    if steps.len() == 0 {
        Seq::empty()
    } else {
        let k = steps.len() - 1;
        step_sections(steps.drop_last(), logs, lang) + step_section_spec(
            steps[k],
            crate::run_logs::fetched_view(logs[k]),
            lang,
        )
    }
}

/// The log view of a pipeline.
pub open spec fn pipeline_logs_spec(
    build: u64,
    steps: Seq<BbStep>,
    logs: Seq<Option<Result<String, String>>>,
    lang: Lang,
) -> Seq<char> {
    i18n::pipeline_header_text(lang, build as nat) + step_sections(steps, logs, lang)
}

fn step_section(s: &BbStep, fetched: &Option<Result<String, String>>, lang: Lang) -> (r: String)
    ensures
        r@ == step_section_spec(*s, crate::run_logs::fetched_view(*fetched), lang),
{
    let mut out = owned("══════ ");
    push_char(&mut out, step_mark_of(s));
    push_str(&mut out, " ");
    push_str(&mut out, s.name.as_str());
    push_str(&mut out, " ══════\n");
    if s.uuid.as_str().is_empty() {
        push_str(&mut out, i18n::no_log(lang));
        push_str(&mut out, "\n\n");
    } else {
        match fetched {
            Some(Ok(t)) => {
                push_str(&mut out, tail_lines(trim(t.as_str()).as_str(), 500).as_str());
                push_str(&mut out, "\n");
            },
            Some(Err(e)) => {
                push_str(&mut out, "  (");
                push_str(&mut out, i18n::log_fetch_failed(lang, first_line(e.as_str()).as_str()).as_str());
                push_str(&mut out, ")\n");
            },
            None => {},
        }
        push_str(&mut out, "\n");
    }
    assert(out@ =~= step_section_spec(*s, crate::run_logs::fetched_view(*fetched), lang));
    out
}

/// The log view of a pipeline from the fetched step logs: `logs[i]` is the
/// outcome of fetching `step_log_path` of step `i` (`None` for steps without one).
pub fn pipeline_logs_body(
    build: u64,
    steps: &Vec<BbStep>,
    logs: &Vec<Option<Result<String, String>>>,
    lang: Lang,
) -> (r: String)
    requires
        logs@.len() == steps@.len(),
    ensures
        r@ == pipeline_logs_spec(build, steps@, logs@, lang),
{
    let mut out = i18n::pipeline_header(lang, build);
    let ghost head = out@;
    let mut i: usize = 0;
    while i < steps.len()
        invariant
            i <= steps@.len(),
            logs@.len() == steps@.len(),
            out@ == head + step_sections(steps@.take(i as int), logs@, lang),
        decreases steps@.len() - i,
    {
        push_str(&mut out, step_section(&steps[i], &logs[i], lang).as_str());
        assert(steps@.take(i + 1).drop_last() =~= steps@.take(i as int));
        assert(out@ =~= head + step_sections(steps@.take(i + 1), logs@, lang));
        i += 1;
    }
    assert(steps@.take(i as int) =~= steps@);
    out
}

// ─── detail: pull requests and issues ────────────────────────────────────────

pub struct RenderedContent {
    pub raw: String,
}

/// Where an inline (code review) comment is attached.
pub struct Inline {
    pub path: String,
    /// Line number (in the new file).
    pub to: Option<u64>,
}

pub struct BbComment {
    pub content: Option<RenderedContent>,
    pub user: Option<User>,
    pub inline: Option<Inline>,
}

pub struct BbPrDetail {
    pub id: u64,
    pub title: String,
    pub description: String,
    pub state: String,
    pub author: Option<User>,
    pub source: Option<Endpoint>,
    pub destination: Option<Endpoint>,
}

pub struct BbIssueDetail {
    pub id: u64,
    pub title: String,
    pub content: Option<RenderedContent>,
    pub state: String,
    pub kind: String,
    pub reporter: Option<User>,
}

/// A user's login, `""` without a user.
pub open spec fn user_login(u: Option<User>) -> Seq<char> {
    match u {
        Some(x) => x.login_spec(),
        None => Seq::empty(),
    }
}

fn user_login_text(u: &Option<User>) -> (r: String)
    ensures
        r@ == user_login(*u),
{
    match u {
        Some(x) => x.login(),
        None => String::new(),
    }
}

/// `` `path:line` `` (or `` `path` ``) of an inline comment with a path.
pub open spec fn inline_note(i: Option<Inline>) -> Seq<char> {
    match i {
        Some(x) => if x.path@.len() > 0 {
            match x.to {
                Some(l) => " `"@ + x.path@ + ":"@ + decimal(l as nat) + "`"@,
                None => " `"@ + x.path@ + "`"@,
            }
        } else {
            Seq::empty()
        },
        None => Seq::empty(),
    }
}

pub open spec fn content_raw(c: Option<RenderedContent>) -> Seq<char> {
    match c {
        Some(x) => x.raw@,
        None => Seq::empty(),
    }
}

pub open spec fn bb_comment_block(c: BbComment) -> Seq<char> {
    "**@"@ + user_login(c.user) + "**"@ + inline_note(c.inline) + "\n\n"@ + content_raw(c.content)
        + "\n\n"@
}

pub open spec fn bb_comment_blocks(cs: Seq<BbComment>) -> Seq<char>
    decreases cs.len(),
{
    if cs.len() == 0 {
        Seq::empty()
    } else {
        bb_comment_blocks(cs.drop_last()) + bb_comment_block(cs.last())
    }
}

/// The comment timeline under a PR or issue body (nothing without comments).
pub open spec fn comments_part(cs: Seq<BbComment>, lang: Lang) -> Seq<char> {
    if cs.len() == 0 {
        Seq::empty()
    } else {
        i18n::comments_sep_text(lang, cs.len()) + "\n\n"@ + bb_comment_blocks(cs)
    }
}

fn comment_block_text(out: &mut String, c: &BbComment)
    ensures
        final(out)@ == old(out)@ + bb_comment_block(*c),
{
    push_str(out, "**@");
    push_str(out, user_login_text(&c.user).as_str());
    push_str(out, "**");
    match &c.inline {
        Some(i) => if !i.path.as_str().is_empty() {
            push_str(out, " `");
            push_str(out, i.path.as_str());
            match i.to {
                Some(l) => {
                    push_str(out, ":");
                    push_str(out, u64_to_string(l).as_str());
                },
                None => {},
            }
            push_str(out, "`");
        },
        None => {},
    }
    push_str(out, "\n\n");
    match &c.content {
        Some(x) => push_str(out, x.raw.as_str()),
        None => {},
    }
    push_str(out, "\n\n");
}

/// Appends the comment timeline (inline comments note their file and line).
pub fn append_comments(out: &mut String, comments: &Vec<BbComment>, lang: Lang)
    ensures
        final(out)@ == old(out)@ + comments_part(comments@, lang),
{
    if comments.len() == 0 {
        return;
    }
    push_str(out, i18n::comments_sep(lang, comments.len()).as_str());
    push_str(out, "\n\n");
    let ghost start = out@;
    let mut i: usize = 0;
    while i < comments.len()
        invariant
            i <= comments@.len(),
            out@ == start + bb_comment_blocks(comments@.take(i as int)),
        decreases comments@.len() - i,
    {
        comment_block_text(out, &comments[i]);
        assert(comments@.take(i + 1).drop_last() =~= comments@.take(i as int));
        i += 1;
    }
    assert(comments@.take(i as int) =~= comments@);
}

/// A Bitbucket PR as markdown.
pub open spec fn bb_pr_body_spec(pr: BbPrDetail, cs: Seq<BbComment>, lang: Lang) -> Seq<char> {
    "#"@ + decimal(pr.id as nat) + " "@ + pr.title@ + "\n"@ + branch_name_spec(pr.source)
        + " → "@ + branch_name_spec(pr.destination) + " · "@ + pr.state@ + " · @"@ + user_login(
        pr.author,
    ) + "\n\n"@ + (if trim_seq(pr.description@).len() > 0 {
        trim_seq(pr.description@) + "\n\n"@
    } else {
        Seq::empty()
    }) + comments_part(cs, lang)
}

pub fn bb_pr_body(pr: &BbPrDetail, comments: &Vec<BbComment>, lang: Lang) -> (r: String)
    ensures
        r@ == bb_pr_body_spec(*pr, comments@, lang),
{
    let mut out = owned("#");
    push_str(&mut out, u64_to_string(pr.id).as_str());
    push_str(&mut out, " ");
    push_str(&mut out, pr.title.as_str());
    push_str(&mut out, "\n");
    push_str(&mut out, branch_name(&pr.source).as_str());
    push_str(&mut out, " → ");
    push_str(&mut out, branch_name(&pr.destination).as_str());
    push_str(&mut out, " · ");
    push_str(&mut out, pr.state.as_str());
    push_str(&mut out, " · @");
    push_str(&mut out, user_login_text(&pr.author).as_str());
    push_str(&mut out, "\n\n");
    let d = trim(pr.description.as_str());
    if !d.as_str().is_empty() {
        push_str(&mut out, d.as_str());
        push_str(&mut out, "\n\n");
    }
    let ghost mid = out@;
    append_comments(&mut out, comments, lang);
    assert(out@ =~= bb_pr_body_spec(*pr, comments@, lang));
    out
}

/// A Bitbucket issue as markdown.
pub open spec fn bb_issue_body_spec(issue: BbIssueDetail, cs: Seq<BbComment>, lang: Lang) -> Seq<char> {
    "#"@ + decimal(issue.id as nat) + " "@ + issue.title@ + "\n"@ + issue.state@ + " · "@
        + issue.kind@ + " · @"@ + user_login(issue.reporter) + "\n\n"@ + (if trim_seq(
        content_raw(issue.content),
    ).len() > 0 {
        trim_seq(content_raw(issue.content)) + "\n\n"@
    } else {
        Seq::empty()
    }) + comments_part(cs, lang)
}

pub fn bb_issue_body(issue: &BbIssueDetail, comments: &Vec<BbComment>, lang: Lang) -> (r: String)
    ensures
        r@ == bb_issue_body_spec(*issue, comments@, lang),
{
    let mut out = owned("#");
    push_str(&mut out, u64_to_string(issue.id).as_str());
    push_str(&mut out, " ");
    push_str(&mut out, issue.title.as_str());
    push_str(&mut out, "\n");
    push_str(&mut out, issue.state.as_str());
    push_str(&mut out, " · ");
    push_str(&mut out, issue.kind.as_str());
    push_str(&mut out, " · @");
    push_str(&mut out, user_login_text(&issue.reporter).as_str());
    push_str(&mut out, "\n\n");
    proof {
        reveal_strlit("");
    }
    let raw = match &issue.content {
        Some(c) => c.raw.as_str(),
        None => "",
    };
    let b = trim(raw);
    if !b.as_str().is_empty() {
        push_str(&mut out, b.as_str());
        push_str(&mut out, "\n\n");
    }
    append_comments(&mut out, comments, lang);
    assert(out@ =~= bb_issue_body_spec(*issue, comments@, lang));
    out
}

// ─── detail: commits ─────────────────────────────────────────────────────────

pub struct DiffPath {
    pub path: String,
}

/// One file of a commit's diffstat.
pub struct BbDiffStat {
    pub status: String,
    pub lines_added: i64,
    pub lines_removed: i64,
    pub new: Option<DiffPath>,
    pub old: Option<DiffPath>,
}

/// Lines added over all files.
pub open spec fn added_sum(fs: Seq<BbDiffStat>) -> int
    decreases fs.len(),
{
    if fs.len() == 0 {
        0
    } else {
        added_sum(fs.drop_last()) + fs.last().lines_added
    }
}

/// Lines removed over all files.
pub open spec fn removed_sum(fs: Seq<BbDiffStat>) -> int
    decreases fs.len(),
{
    if fs.len() == 0 {
        0
    } else {
        removed_sum(fs.drop_last()) + fs.last().lines_removed
    }
}

pub open spec fn fits_i64(x: int) -> bool {
    i64::MIN <= x <= i64::MAX
}

/// Every running total of the added and removed counts fits an `i64`.
pub open spec fn diffstat_fits_spec(fs: Seq<BbDiffStat>) -> bool {
    forall|k: int|
        0 <= k <= fs.len() ==> fits_i64(added_sum(#[trigger] fs.take(k))) && fits_i64(
            removed_sum(fs.take(k)),
        )
}

/// Whether the totals of a diffstat can be summed without overflow.
pub fn diffstat_fits(fs: &Vec<BbDiffStat>) -> (b: bool)
    ensures
        b == diffstat_fits_spec(fs@),
{
    let mut add: i64 = 0;
    let mut del: i64 = 0;
    let mut i: usize = 0;
    assert(fs@.take(0) =~= Seq::<BbDiffStat>::empty());
    while i < fs.len()
        invariant
            i <= fs@.len(),
            add == added_sum(fs@.take(i as int)),
            del == removed_sum(fs@.take(i as int)),
            forall|k: int|
                0 <= k <= i ==> fits_i64(added_sum(#[trigger] fs@.take(k))) && fits_i64(
                    removed_sum(fs@.take(k)),
                ),
        decreases fs@.len() - i,
    {
        assert(fs@.take(i + 1).drop_last() =~= fs@.take(i as int));
        match (add.checked_add(fs[i].lines_added), del.checked_add(fs[i].lines_removed)) {
            (Some(a), Some(d)) => {
                add = a;
                del = d;
            },
            _ => {
                assert(!(fits_i64(added_sum(fs@.take(i + 1))) && fits_i64(
                    removed_sum(fs@.take(i + 1)),
                )));
                return false;
            },
        }
        i += 1;
    }
    assert(fs@.take(i as int) =~= fs@);
    true
}

/// The path a diffstat entry shows: the new path, else the old one, else `?`.
pub open spec fn diff_path(f: BbDiffStat) -> Seq<char> {
    match f.new {
        Some(p) => p.path@,
        None => match f.old {
            Some(p) => p.path@,
            None => "?"@,
        },
    }
}

pub open spec fn diff_lines(fs: Seq<BbDiffStat>) -> Seq<char>
    decreases fs.len(),
{
    if fs.len() == 0 {
        Seq::empty()
    } else {
        let f = fs.last();
        diff_lines(fs.drop_last()) + crate::run_detail::diff_line(
            crate::run_detail::status_mark_spec(f.status@),
            f.lines_added,
            f.lines_removed,
            diff_path(f),
        )
    }
}

/// A Bitbucket commit, `git show`-like, with its diffstat.
pub open spec fn bb_commit_body_spec(c: BbCommit, fs: Seq<BbDiffStat>) -> Seq<char> {
    "commit "@ + c.hash@ + "\nAuthor: "@ + (match c.author {
        Some(a) => commit_author_name_spec(a),
        None => Seq::empty(),
    }) + "\nDate:   "@ + c.date@ + "\n\n"@ + trim_seq(c.message@) + "\n\n"@ + if fs.len()
        == 0 {
        Seq::empty()
    } else {
        "─── "@ + decimal(fs.len()) + " files · +"@ + signed_decimal(added_sum(fs))
            + " −"@ + signed_decimal(removed_sum(fs)) + " ───\n"@ + diff_lines(fs)
    }
}

fn diff_path_text(f: &BbDiffStat) -> (r: &str)
    ensures
        r@ == diff_path(*f),
{
    match &f.new {
        Some(p) => p.path.as_str(),
        None => match &f.old {
            Some(p) => p.path.as_str(),
            None => "?",
        },
    }
}

pub fn bb_commit_body(c: &BbCommit, files: &Vec<BbDiffStat>) -> (r: String)
    requires
        diffstat_fits_spec(files@),
    ensures
        r@ == bb_commit_body_spec(*c, files@),
{
    let name = match &c.author {
        Some(a) => commit_author_name(a),
        None => String::new(),
    };
    let mut out = owned("commit ");
    push_str(&mut out, c.hash.as_str());
    push_str(&mut out, "\nAuthor: ");
    push_str(&mut out, name.as_str());
    push_str(&mut out, "\nDate:   ");
    push_str(&mut out, c.date.as_str());
    push_str(&mut out, "\n\n");
    push_str(&mut out, trim(c.message.as_str()).as_str());
    push_str(&mut out, "\n\n");
    let ghost head = out@;
    if files.len() > 0 {
        let mut add: i64 = 0;
        let mut del: i64 = 0;
        let mut i: usize = 0;
        assert(files@.take(0) =~= Seq::<BbDiffStat>::empty());
        while i < files.len()
            invariant
                i <= files@.len(),
                diffstat_fits_spec(files@),
                add == added_sum(files@.take(i as int)),
                del == removed_sum(files@.take(i as int)),
            decreases files@.len() - i,
        {
            assert(files@.take(i + 1).drop_last() =~= files@.take(i as int));
            assert(fits_i64(added_sum(files@.take(i + 1))) && fits_i64(
                removed_sum(files@.take(i + 1)),
            ));
            add = add + files[i].lines_added;
            del = del + files[i].lines_removed;
            i += 1;
        }
        assert(files@.take(i as int) =~= files@);
        push_str(&mut out, "─── ");
        push_str(&mut out, usize_to_string(files.len()).as_str());
        push_str(&mut out, " files · +");
        push_str(&mut out, i64_to_string(add).as_str());
        push_str(&mut out, " −");
        push_str(&mut out, i64_to_string(del).as_str());
        push_str(&mut out, " ───\n");
        let ghost mid = out@;
        let mut k: usize = 0;
        while k < files.len()
            invariant
                k <= files@.len(),
                out@ == mid + diff_lines(files@.take(k as int)),
            decreases files@.len() - k,
        {
            let f = &files[k];
            push_str(
                &mut out,
                crate::run_detail::diff_line_text(
                    crate::run_detail::status_mark(f.status.as_str()),
                    f.lines_added,
                    f.lines_removed,
                    diff_path_text(f),
                ).as_str(),
            );
            assert(files@.take(k + 1).drop_last() =~= files@.take(k as int));
            k += 1;
        }
        assert(files@.take(k as int) =~= files@);
    }
    assert(out@ =~= bb_commit_body_spec(*c, files@));
    out
}

} // verus!
