//! The common data model shared by both backends (GitHub vocabulary), the
//! messages passed between the fetch layer and the app, and the change
//! detection / search metadata of each panel item.
use vstd::prelude::*;
use crate::text::{
    contains_seq, lemma_contains_middle, lemma_contains_widen, lemma_join_contains,
    chars_of, decimal, first_line, first_line_seq, join, join_seq, owned, push_str,
    spec_lowercase, string_of_range, to_lowercase, u64_to_string, byte_prefix, byte_prefix_str,
};

verus! {

/// Provides metadata for change detection (new/changed) and search of a panel item.
pub trait Entry {
    /// What `key` returns.
    spec fn key_view(&self) -> Seq<char>;

    /// What `signature` returns.
    spec fn signature_view(&self) -> Seq<char>;

    /// What `search_text` returns.
    spec fn search_view(&self) -> Seq<char>;

    /// Key that uniquely identifies the item (run id, issue number, commit sha, etc.).
    fn key(&self) -> (r: String)
        ensures
            r@ == self.key_view(),
    ;

    /// Signature that detects content changes. A different value counts as "changed".
    fn signature(&self) -> (r: String)
        ensures
            r@ == self.signature_view(),
    ;

    /// Substring-search target text (lowercased). Concatenates all searchable fields.
    fn search_text(&self) -> (r: String)
        ensures
            r@ == self.search_view(),
    ;
}

/// The text of an optional string, `""` when absent.
pub open spec fn or_empty(o: Option<String>) -> Seq<char> {
    match o {
        Some(s) => s@,
        None => Seq::empty(),
    }
}

pub fn or_empty_str(o: &Option<String>) -> (r: &str)
    ensures
        r@ == or_empty(*o),
{
    proof {
        reveal_strlit("");
    }
    match o {
        Some(s) => s.as_str(),
        None => "",
    }
}

/// `format!("{}", b)` for a `bool`.
pub open spec fn bool_text(b: bool) -> Seq<char> {
    if b {
        "true"@
    } else {
        "false"@
    }
}

// ─── Actions (workflow runs) ────────────────────────────────────────────────

#[derive(Debug, Clone)]
pub struct Run {
    pub database_id: u64,
    pub workflow_name: String,
    pub display_title: String,
    /// queued · in_progress · completed, etc.
    pub status: String,
    /// success · failure · cancelled · skipped … (None while in progress)
    pub conclusion: Option<String>,
    pub head_branch: String,
    pub event: String,
    pub created_at: String,
    pub url: String,
}

impl Entry for Run {
    open spec fn key_view(&self) -> Seq<char> {
        decimal(self.database_id as nat)
    }

    open spec fn signature_view(&self) -> Seq<char> {
        self.status@ + ":"@ + or_empty(self.conclusion)
    }

    open spec fn search_view(&self) -> Seq<char> {
        spec_lowercase(
            self.workflow_name@ + " "@ + self.display_title@ + " "@ + self.status@ + " "@
                + or_empty(self.conclusion) + " "@ + self.head_branch@ + " "@ + self.event@,
        )
    }

    fn key(&self) -> (r: String) {
        u64_to_string(self.database_id)
    }

    fn signature(&self) -> (r: String) {
        let mut s = owned(self.status.as_str());
        push_str(&mut s, ":");
        push_str(&mut s, or_empty_str(&self.conclusion));
        s
    }

    fn search_text(&self) -> (r: String) {
        let mut s = owned(self.workflow_name.as_str());
        push_str(&mut s, " ");
        push_str(&mut s, self.display_title.as_str());
        push_str(&mut s, " ");
        push_str(&mut s, self.status.as_str());
        push_str(&mut s, " ");
        push_str(&mut s, or_empty_str(&self.conclusion));
        push_str(&mut s, " ");
        push_str(&mut s, self.head_branch.as_str());
        push_str(&mut s, " ");
        push_str(&mut s, self.event.as_str());
        to_lowercase(s.as_str())
    }
}

// ─── Issues ─────────────────────────────────────────────────────────────────

#[derive(Debug, Clone)]
pub struct Author {
    pub login: String,
}

#[derive(Debug, Clone)]
pub struct Label {
    pub name: String,
    /// GitHub label color (6-digit hex without #).
    pub color: String,
}

/// The login of an optional author, `""` when absent.
pub open spec fn login_or_empty(a: Option<Author>) -> Seq<char> {
    match a {
        Some(x) => x.login@,
        None => Seq::empty(),
    }
}

pub fn login_or_empty_str(a: &Option<Author>) -> (r: &str)
    ensures
        r@ == login_or_empty(*a),
{
    proof {
        reveal_strlit("");
    }
    match a {
        Some(x) => x.login.as_str(),
        None => "",
    }
}

/// The names of `labels`, in order.
pub open spec fn label_names(labels: Seq<Label>) -> Seq<Seq<char>> {
    labels.map_values(|l: Label| l.name@)
}

pub fn label_name_list(labels: &Vec<Label>) -> (r: Vec<String>)
    ensures
        r.deep_view() == label_names(labels@),
{
    let mut out: Vec<String> = Vec::new();
    let mut i: usize = 0;
    while i < labels.len()
        invariant
            i <= labels@.len(),
            out.deep_view() == label_names(labels@.take(i as int)),
        decreases labels@.len() - i,
    {
        let ghost before = out.deep_view();
        out.push(owned(labels[i].name.as_str()));
        assert(out.deep_view() =~= before.push(labels@[i as int].name@));
        assert(labels@.take(i + 1) =~= labels@.take(i as int).push(labels@[i as int]));
        assert(out.deep_view() =~= label_names(labels@.take(i + 1)));
        i += 1;
    }
    assert(labels@.take(i as int) =~= labels@);
    out
}

#[derive(Debug, Clone)]
pub struct Issue {
    pub number: u64,
    pub title: String,
    pub author: Option<Author>,
    pub updated_at: String,
    pub labels: Vec<Label>,
    pub url: String,
}

impl Entry for Issue {
    open spec fn key_view(&self) -> Seq<char> {
        decimal(self.number as nat)
    }

    open spec fn signature_view(&self) -> Seq<char> {
        self.updated_at@
    }

    open spec fn search_view(&self) -> Seq<char> {
        spec_lowercase(
            "#"@ + decimal(self.number as nat) + " "@ + self.title@ + " "@ + login_or_empty(
                self.author,
            ) + " "@ + join_seq(label_names(self.labels@), " "@),
        )
    }

    fn key(&self) -> (r: String) {
        u64_to_string(self.number)
    }

    fn signature(&self) -> (r: String) {
        owned(self.updated_at.as_str())
    }

    fn search_text(&self) -> (r: String) {
        let labels = join(&label_name_list(&self.labels), " ");
        let mut s = owned("#");
        push_str(&mut s, u64_to_string(self.number).as_str());
        push_str(&mut s, " ");
        push_str(&mut s, self.title.as_str());
        push_str(&mut s, " ");
        push_str(&mut s, login_or_empty_str(&self.author));
        push_str(&mut s, " ");
        push_str(&mut s, labels.as_str());
        to_lowercase(s.as_str())
    }
}

/// An issue's search text is the lowercasing of a text that holds its number
/// (as `#n`), its title, its author's login and every one of its label names,
/// so a search can find an issue by any of them.
pub proof fn law_issue_search_covers_fields(i: Issue)
    ensures
        exists|raw: Seq<char>|
            #[trigger] spec_lowercase(raw) == i.search_view()
            && contains_seq(raw, "#"@ + decimal(i.number as nat))
            && contains_seq(raw, i.title@)
            && contains_seq(raw, login_or_empty(i.author))
            && forall|k: int| 0 <= k < i.labels@.len() ==> contains_seq(raw, #[trigger] i.labels@[k].name@),
{
    let num = "#"@ + decimal(i.number as nat);
    let names = label_names(i.labels@);
    let joined = join_seq(names, " "@);
    let raw = num + " "@ + i.title@ + " "@ + login_or_empty(i.author) + " "@ + joined;
    assert(raw =~= "#"@ + decimal(i.number as nat) + " "@ + i.title@ + " "@ + login_or_empty(i.author) + " "@ + joined);
    lemma_contains_middle(Seq::empty(), num, " "@ + i.title@ + " "@ + login_or_empty(i.author) + " "@ + joined);
    assert(Seq::<char>::empty() + num + (" "@ + i.title@ + " "@ + login_or_empty(i.author) + " "@ + joined) =~= raw);
    lemma_contains_middle(num + " "@, i.title@, " "@ + login_or_empty(i.author) + " "@ + joined);
    assert(num + " "@ + i.title@ + (" "@ + login_or_empty(i.author) + " "@ + joined) =~= raw);
    lemma_contains_middle(num + " "@ + i.title@ + " "@, login_or_empty(i.author), " "@ + joined);
    assert(num + " "@ + i.title@ + " "@ + login_or_empty(i.author) + (" "@ + joined) =~= raw);
    assert forall|k: int| 0 <= k < i.labels@.len() implies contains_seq(raw, #[trigger] i.labels@[k].name@) by {
        assert(names[k] == i.labels@[k].name@);
        lemma_join_contains(names, " "@, k);
        lemma_contains_widen(num + " "@ + i.title@ + " "@ + login_or_empty(i.author) + " "@, joined, Seq::empty(), names[k]);
        assert(num + " "@ + i.title@ + " "@ + login_or_empty(i.author) + " "@ + joined + Seq::<char>::empty() =~= raw);
    }
    assert(spec_lowercase(raw) == i.search_view());
}

// ─── Pull Requests ──────────────────────────────────────────────────────────

#[derive(Debug, Clone)]
pub struct Pr {
    pub number: u64,
    pub title: String,
    pub author: Option<Author>,
    pub updated_at: String,
    pub is_draft: bool,
    /// APPROVED · CHANGES_REQUESTED · REVIEW_REQUIRED … (None if absent)
    pub review_decision: Option<String>,
    pub head_ref_name: String,
    pub url: String,
}

impl Entry for Pr {
    open spec fn key_view(&self) -> Seq<char> {
        decimal(self.number as nat)
    }

    open spec fn signature_view(&self) -> Seq<char> {
        self.updated_at@ + ":"@ + bool_text(self.is_draft) + ":"@ + or_empty(self.review_decision)
    }

    open spec fn search_view(&self) -> Seq<char> {
        spec_lowercase(
            "#"@ + decimal(self.number as nat) + " "@ + self.title@ + " "@ + login_or_empty(
                self.author,
            ) + " "@ + self.head_ref_name@ + " "@ + or_empty(self.review_decision) + " "@ + (
            if self.is_draft {
                "draft"@
            } else {
                Seq::empty()
            }),
        )
    }

    fn key(&self) -> (r: String) {
        u64_to_string(self.number)
    }

    fn signature(&self) -> (r: String) {
        let mut s = owned(self.updated_at.as_str());
        push_str(&mut s, ":");
        push_str(
            &mut s,
            if self.is_draft {
                "true"
            } else {
                "false"
            },
        );
        push_str(&mut s, ":");
        push_str(&mut s, or_empty_str(&self.review_decision));
        s
    }

    fn search_text(&self) -> (r: String) {
        proof {
            reveal_strlit("");
        }
        let mut s = owned("#");
        push_str(&mut s, u64_to_string(self.number).as_str());
        push_str(&mut s, " ");
        push_str(&mut s, self.title.as_str());
        push_str(&mut s, " ");
        push_str(&mut s, login_or_empty_str(&self.author));
        push_str(&mut s, " ");
        push_str(&mut s, self.head_ref_name.as_str());
        push_str(&mut s, " ");
        push_str(&mut s, or_empty_str(&self.review_decision));
        push_str(&mut s, " ");
        push_str(
            &mut s,
            if self.is_draft {
                "draft"
            } else {
                ""
            },
        );
        to_lowercase(s.as_str())
    }
}

/// A PR's signature tells apart every change of its update time, draft flag
/// or review decision (review decisions are words without `:`): two PRs with
/// the same signature agree on all three, so a PR that was updated since the
/// last poll gets a different signature.
pub proof fn law_pr_signature_tells_updates(a: Pr, b: Pr)
    requires
        !or_empty(a.review_decision).contains(':'),
        !or_empty(b.review_decision).contains(':'),
    ensures
        a.signature_view() == b.signature_view() ==> {
            &&& a.updated_at@ == b.updated_at@
            &&& a.is_draft == b.is_draft
            &&& or_empty(a.review_decision) == or_empty(b.review_decision)
        },
{
    reveal_strlit(":");
    reveal_strlit("true");
    reveal_strlit("false");
    if a.signature_view() == b.signature_view() {
        let s = a.signature_view();
        let r1 = or_empty(a.review_decision);
        let r2 = or_empty(b.review_decision);
        let p1 = a.updated_at@ + ":"@ + bool_text(a.is_draft);
        let p2 = b.updated_at@ + ":"@ + bool_text(b.is_draft);
        assert(s =~= p1 + ":"@ + r1);
        assert(s =~= p2 + ":"@ + r2);
        let n = s.len() as int;
        if r1.len() < r2.len() {
            let j = n - r1.len() - 1;
            assert(s[j] == ':');
            assert(s[j] == r2[j - (n - r2.len())]);
            assert(r2.contains(r2[j - (n - r2.len())]));
        }
        if r2.len() < r1.len() {
            let j = n - r2.len() - 1;
            assert(s[j] == ':');
            assert(s[j] == r1[j - (n - r1.len())]);
            assert(r1.contains(r1[j - (n - r1.len())]));
        }
        assert(r1.len() == r2.len());
        assert(r1 =~= s.skip(n - r1.len()));
        assert(r2 =~= s.skip(n - r2.len()));
        assert(p1 =~= s.take(n - r1.len() - 1));
        assert(p2 =~= s.take(n - r2.len() - 1));
        assert(p1 == p2);
        let m = p1.len() as int;
        assert(p1[m - 2] == (if a.is_draft { 'u' } else { 's' }));
        assert(p2[m - 2] == (if b.is_draft { 'u' } else { 's' }));
        assert(a.is_draft == b.is_draft);
        assert(a.updated_at@ =~= p1.take(a.updated_at@.len() as int));
        assert(b.updated_at@ =~= p2.take(b.updated_at@.len() as int));
    }
}

// ─── Commits ────────────────────────────────────────────────────────────────

#[derive(Debug, Clone)]
pub struct Commit {
    pub sha: String,
    pub commit: CommitDetail,
    /// GitHub user (None if unmapped) — `commit.author` is the raw git author.
    pub author: Option<Author>,
    pub html_url: String,
}

#[derive(Debug, Clone)]
pub struct CommitDetail {
    pub message: String,
    pub author: CommitAuthor,
}

#[derive(Debug, Clone)]
pub struct CommitAuthor {
    pub name: String,
    pub date: String,
}

impl Commit {
    pub open spec fn summary_spec(&self) -> Seq<char> {
        first_line_seq(self.commit.message@)
    }

    pub open spec fn short_sha_spec(&self) -> Seq<char> {
        byte_prefix(self.sha@, 7)
    }

    pub open spec fn author_name_spec(&self) -> Seq<char> {
        match self.author {
            Some(a) => a.login@,
            None => self.commit.author.name@,
        }
    }

    /// First line (subject) of the commit message only.
    pub fn summary(&self) -> (r: String)
        ensures
            r@ == self.summary_spec(),
    {
        first_line(self.commit.message.as_str())
    }

    /// The sha cut to its first 7 bytes, for display.
    pub fn short_sha(&self) -> (r: String)
        ensures
            r@ == self.short_sha_spec(),
    {
        byte_prefix_str(self.sha.as_str(), 7)
    }

    /// GitHub login if available, otherwise git author name.
    pub fn author_name(&self) -> (r: &str)
        ensures
            r@ == self.author_name_spec(),
    {
        match &self.author {
            Some(a) => a.login.as_str(),
            None => self.commit.author.name.as_str(),
        }
    }
}

impl Entry for Commit {
    open spec fn key_view(&self) -> Seq<char> {
        self.sha@
    }

    open spec fn signature_view(&self) -> Seq<char> {
        self.sha@
    }

    open spec fn search_view(&self) -> Seq<char> {
        spec_lowercase(
            self.short_sha_spec() + " "@ + self.summary_spec() + " "@ + self.author_name_spec(),
        )
    }

    fn key(&self) -> (r: String) {
        owned(self.sha.as_str())
    }

    fn signature(&self) -> (r: String) {
        // Commits are immutable — a new sha means a new item.
        owned(self.sha.as_str())
    }

    fn search_text(&self) -> (r: String) {
        let mut s = self.short_sha();
        push_str(&mut s, " ");
        push_str(&mut s, self.summary().as_str());
        push_str(&mut s, " ");
        push_str(&mut s, self.author_name());
        to_lowercase(s.as_str())
    }
}

// ─── Branches (Bitbucket only) ───────────────────────────────────────────────

/// Bitbucket branch (active = sorted by recent commit). Shown in place of the
/// Issues panel on Bitbucket.
#[derive(Debug, Clone)]
pub struct Branch {
    pub name: String,
    /// Whether it's the default branch (main/master) — for display emphasis.
    pub is_default: bool,
    pub commit_message: String,
    pub author: String,
    /// Last commit time.
    pub updated_at: String,
    /// Last commit sha (detail = commit diff; used for change detection).
    pub commit_sha: String,
    pub url: String,
}

impl Branch {
    pub open spec fn summary_spec(&self) -> Seq<char> {
        first_line_seq(self.commit_message@)
    }

    /// First line of the last commit message.
    pub fn summary(&self) -> (r: String)
        ensures
            r@ == self.summary_spec(),
    {
        first_line(self.commit_message.as_str())
    }
}

impl Entry for Branch {
    open spec fn key_view(&self) -> Seq<char> {
        self.name@
    }

    open spec fn signature_view(&self) -> Seq<char> {
        self.commit_sha@
    }

    open spec fn search_view(&self) -> Seq<char> {
        spec_lowercase(self.name@ + " "@ + self.summary_spec() + " "@ + self.author@)
    }

    fn key(&self) -> (r: String) {
        owned(self.name.as_str())
    }

    fn signature(&self) -> (r: String) {
        // A changed last commit sha means new commits landed on the branch.
        owned(self.commit_sha.as_str())
    }

    fn search_text(&self) -> (r: String) {
        let mut s = owned(self.name.as_str());
        push_str(&mut s, " ");
        push_str(&mut s, self.summary().as_str());
        push_str(&mut s, " ");
        push_str(&mut s, self.author.as_str());
        to_lowercase(s.as_str())
    }
}

// ─── messages between the fetch layer and the app ────────────────────────────

/// Data message passed from the fetcher task → UI loop. Updated per panel.
pub enum DataMsg {
    Runs(Result<Vec<Run>, String>),
    Issues(Result<Vec<Issue>, String>),
    Prs(Result<Vec<Pr>, String>),
    Commits(Result<Vec<Commit>, String>),
    /// Bitbucket only — active branches shown in place of Issues.
    Branches(Result<Vec<Branch>, String>),
    /// Body for the detail preview modal. `epoch` identifies which request the
    /// response belongs to.
    Detail { epoch: u64, result: Result<DetailPayload, String> },
    /// A newer release is available (version string, without the `v`).
    Update(String),
}

/// Detail preview body and rendering hints.
#[derive(Debug, Clone)]
pub struct DetailPayload {
    /// Display body. Markdown source if `markdown`, otherwise plain text.
    pub body: String,
    /// Whether to render the body as markdown (Issue · PR).
    pub markdown: bool,
    /// Whether the run is still in progress and polling should continue (follow).
    pub run_active: bool,
}

/// Identifies what the detail preview should fetch.
#[derive(Debug, Clone)]
pub enum DetailKind {
    /// `log`=false: jobs/steps tree; true: full per-step logs.
    Run { id: u64, log: bool },
    Issue { number: u64 },
    Pr { number: u64 },
    Commit { sha: String },
}

/// Detail preview request (passed to the worker task).
#[derive(Debug, Clone)]
pub struct DetailReq {
    pub repo: String,
    pub kind: DetailKind,
    /// The modal generation this request belongs to. Echoed back in the response.
    pub epoch: u64,
}

/// Polling loop control command (UI → fetcher).
#[derive(Debug, Clone, Copy, PartialEq, Eq, Structural)]
pub enum FetchCmd {
    /// Refresh immediately.
    RefreshNow,
    /// Change the polling interval (seconds) at runtime.
    SetInterval(u64),
}

} // verus!
