//! Markdown bodies for issue and pull-request details: header line, body,
//! comments, a review/comment timeline in time order, and inline code-review
//! threads grouped by file.
use vstd::prelude::*;
use crate::github::{label_name_list, label_names, Author, Label};
use crate::i18n::{self, Lang};
use crate::order::{key_lt, key_view, keys_view, law_stable_order, sort_order, stable_order, text_lt, SortKey};
use crate::text::{
    byte_cut_ok, byte_cut_ok_at, byte_prefix, byte_prefix_str, decimal, i64_to_string, join, join_seq, owned, push_str,
    replace_char, replace_char_seq, signed_decimal, str_eq, trim, trim_seq, u64_to_string,
};

verus! {

/// Plain comment below an issue/PR body.
pub struct Comment {
    pub author: Option<Author>,
    pub body: String,
    pub created_at: String,
}

/// PR review (approval/changes-requested, etc.).
pub struct Review {
    pub author: Option<Author>,
    pub body: String,
    pub state: String,
    pub submitted_at: Option<String>,
}

/// Inline per-line code review comment.
pub struct ReviewComment {
    pub path: Option<String>,
    pub line: Option<u64>,
    pub user: Option<Author>,
    pub body: String,
    pub created_at: String,
    pub in_reply_to_id: Option<u64>,
}

pub struct IssueDetail {
    pub number: u64,
    pub title: String,
    pub state: String,
    pub author: Option<Author>,
    pub labels: Vec<Label>,
    pub body: String,
    pub created_at: String,
    pub comments: Vec<Comment>,
}

pub struct PrDetail {
    pub number: u64,
    pub title: String,
    pub state: String,
    pub author: Option<Author>,
    pub labels: Vec<Label>,
    pub body: String,
    pub is_draft: bool,
    pub additions: i64,
    pub deletions: i64,
    pub head_ref_name: String,
    pub base_ref_name: String,
    pub review_decision: Option<String>,
    pub comments: Vec<Comment>,
    pub reviews: Vec<Review>,
}

// ─── small pieces ────────────────────────────────────────────────────────────

/// ` · 🏷 a, b` for labels, nothing without labels.
pub open spec fn join_labels_spec(labels: Seq<Label>) -> Seq<char> {
    if labels.len() == 0 {
        Seq::empty()
    } else {
        " · 🏷 "@ + join_seq(label_names(labels), ", "@)
    }
}

pub fn join_labels(labels: &Vec<Label>) -> (r: String)
    ensures
        r@ == join_labels_spec(labels@),
{
    if labels.len() == 0 {
        return String::new();
    }
    let mut s = owned(" · 🏷 ");
    push_str(&mut s, join(&label_name_list(labels), ", ").as_str());
    s
}

/// The trimmed body, or the no-body placeholder when it is blank.
pub open spec fn body_or_placeholder_spec(body: Seq<char>, lang: Lang) -> Seq<char> {
    if trim_seq(body).len() == 0 {
        i18n::body_none_text(lang)
    } else {
        trim_seq(body)
    }
}

pub fn body_or_placeholder(body: &str, lang: Lang) -> (r: String)
    ensures
        r@ == body_or_placeholder_spec(body@, lang),
{
    let t = trim(body);
    if t.as_str().is_empty() {
        owned(i18n::body_none(lang))
    } else {
        t
    }
}

/// The author's login, `?` when unknown.
pub open spec fn login_of_spec(a: Option<Author>) -> Seq<char> {
    match a {
        Some(x) => x.login@,
        None => "?"@,
    }
}

pub fn login_of(a: &Option<Author>) -> (r: &str)
    ensures
        r@ == login_of_spec(*a),
{
    match a {
        Some(x) => x.login.as_str(),
        None => "?",
    }
}

/// "2026-06-10T22:12:14Z" → "2026-06-10 22:12": the first 16 bytes, `T` as a space.
pub open spec fn short_time_spec(iso: Seq<char>) -> Seq<char> {
    replace_char_seq(byte_prefix(iso, 16), 'T', ' ')
}

pub fn short_time(iso: &str) -> (r: String)
    requires
        byte_cut_ok(iso@, 16),
    ensures
        r@ == short_time_spec(iso@),
{
    replace_char(byte_prefix_str(iso, 16).as_str(), 'T', ' ')
}

/// Review state → glyph + word.
pub open spec fn review_icon_spec(state: Seq<char>, lang: Lang) -> Seq<char> {
    if state == "APPROVED"@ {
        i18n::review_approved_text(lang)
    } else if state == "CHANGES_REQUESTED"@ {
        i18n::review_changes_text(lang)
    } else if state == "COMMENTED"@ {
        i18n::review_commented_text(lang)
    } else if state == "DISMISSED"@ {
        i18n::review_dismissed_text(lang)
    } else {
        i18n::review_other_text(lang)
    }
}

pub fn review_icon(state: &str, lang: Lang) -> (r: &'static str)
    ensures
        r@ == review_icon_spec(state@, lang),
{
    if str_eq(state, "APPROVED") {
        i18n::review_approved(lang)
    } else if str_eq(state, "CHANGES_REQUESTED") {
        i18n::review_changes(lang)
    } else if str_eq(state, "COMMENTED") {
        i18n::review_commented(lang)
    } else if str_eq(state, "DISMISSED") {
        i18n::review_dismissed(lang)
    } else {
        i18n::review_other(lang)
    }
}

/// The times of an issue can be cut for display (the date after 10 bytes,
/// comment times after 16) on character boundaries.
pub open spec fn issue_times_ok(d: IssueDetail) -> bool {
    byte_cut_ok(d.created_at@, 10) && forall|i: int|
        0 <= i < d.comments@.len() ==> byte_cut_ok((#[trigger] d.comments@[i]).created_at@, 16)
}

/// The times of a PR's reviews, comments and review threads can be cut for
/// display after 16 bytes on character boundaries.
pub open spec fn pr_times_ok(d: PrDetail, threads: Seq<ReviewComment>) -> bool {
    &&& forall|i: int| 0 <= i < d.reviews@.len() ==> byte_cut_ok(review_time(#[trigger] d.reviews@[i]), 16)
    &&& forall|i: int| 0 <= i < d.comments@.len() ==> byte_cut_ok((#[trigger] d.comments@[i]).created_at@, 16)
    &&& forall|i: int| 0 <= i < threads.len() ==> byte_cut_ok((#[trigger] threads[i]).created_at@, 16)
}

pub fn issue_times_fit(d: &IssueDetail) -> (b: bool)
    ensures
        b == issue_times_ok(*d),
{
    if !byte_cut_ok_at(d.created_at.as_str(), 10) {
        return false;
    }
    let mut i: usize = 0;
    while i < d.comments.len()
        invariant
            i <= d.comments@.len(),
            forall|j: int| 0 <= j < i ==> byte_cut_ok((#[trigger] d.comments@[j]).created_at@, 16),
        decreases d.comments@.len() - i,
    {
        if !byte_cut_ok_at(d.comments[i].created_at.as_str(), 16) {
            return false;
        }
        i += 1;
    }
    true
}

fn comments_fit(cs: &Vec<Comment>) -> (b: bool)
    ensures
        b == forall|i: int| 0 <= i < cs@.len() ==> byte_cut_ok((#[trigger] cs@[i]).created_at@, 16),
{
    let mut i: usize = 0;
    while i < cs.len()
        invariant
            i <= cs@.len(),
            forall|j: int| 0 <= j < i ==> byte_cut_ok((#[trigger] cs@[j]).created_at@, 16),
        decreases cs@.len() - i,
    {
        if !byte_cut_ok_at(cs[i].created_at.as_str(), 16) {
            return false;
        }
        i += 1;
    }
    true
}

pub fn pr_times_fit(d: &PrDetail, threads: &Vec<ReviewComment>) -> (b: bool)
    ensures
        b == pr_times_ok(*d, threads@),
{
    let mut i: usize = 0;
    while i < d.reviews.len()
        invariant
            i <= d.reviews@.len(),
            forall|j: int| 0 <= j < i ==> byte_cut_ok(review_time(#[trigger] d.reviews@[j]), 16),
        decreases d.reviews@.len() - i,
    {
        let ok = match &d.reviews[i].submitted_at {
            Some(t) => byte_cut_ok_at(t.as_str(), 16),
            None => byte_cut_ok_at("", 16),
        };
        proof {
            reveal_strlit("");
        }
        if !ok {
            return false;
        }
        i += 1;
    }
    if !comments_fit(&d.comments) {
        return false;
    }
    let mut k: usize = 0;
    while k < threads.len()
        invariant
            k <= threads@.len(),
            forall|j: int| 0 <= j < k ==> byte_cut_ok((#[trigger] threads@[j]).created_at@, 16),
        decreases threads@.len() - k,
    {
        if !byte_cut_ok_at(threads[k].created_at.as_str(), 16) {
            return false;
        }
        k += 1;
    }
    true
}

// ─── issues ──────────────────────────────────────────────────────────────────

pub open spec fn issue_comment_block(c: Comment, lang: Lang) -> Seq<char> {
    "### @"@ + login_of_spec(c.author) + " · "@ + short_time_spec(c.created_at@) + "\n\n"@
        + body_or_placeholder_spec(c.body@, lang) + "\n\n"@
}

pub open spec fn issue_comments_text(cs: Seq<Comment>, lang: Lang) -> Seq<char>
    decreases cs.len(),
{
    if cs.len() == 0 {
        Seq::empty()
    } else {
        issue_comments_text(cs.drop_last(), lang) + issue_comment_block(cs.last(), lang)
    }
}

/// An issue as markdown: title, state · author · labels · date, body, comments.
pub open spec fn format_issue_spec(d: IssueDetail, lang: Lang) -> Seq<char> {
    "# #"@ + decimal(d.number as nat) + " "@ + d.title@ + "\n\n`"@ + d.state@ + "` · @"@
        + login_of_spec(d.author) + join_labels_spec(d.labels@) + " · "@ + byte_prefix(
        d.created_at@,
        10,
    ) + "\n\n---\n\n"@ + body_or_placeholder_spec(d.body@, lang) + "\n"@ + if d.comments@.len()
        == 0 {
        Seq::empty()
    } else {
        "\n---\n\n"@ + i18n::comments_header_text(lang, d.comments@.len()) + "\n\n"@
            + issue_comments_text(d.comments@, lang)
    }
}

fn issue_comment(out: &mut String, c: &Comment, lang: Lang)
    requires
        byte_cut_ok(c.created_at@, 16),
    ensures
        final(out)@ == old(out)@ + issue_comment_block(*c, lang),
{
    push_str(out, "### @");
    push_str(out, login_of(&c.author));
    push_str(out, " · ");
    push_str(out, short_time(c.created_at.as_str()).as_str());
    push_str(out, "\n\n");
    push_str(out, body_or_placeholder(c.body.as_str(), lang).as_str());
    push_str(out, "\n\n");
}

pub fn format_issue(d: &IssueDetail, lang: Lang) -> (r: String)
    requires
        issue_times_ok(*d),
    ensures
        r@ == format_issue_spec(*d, lang),
{
    let mut s = owned("# #");
    push_str(&mut s, u64_to_string(d.number).as_str());
    push_str(&mut s, " ");
    push_str(&mut s, d.title.as_str());
    push_str(&mut s, "\n\n`");
    push_str(&mut s, d.state.as_str());
    push_str(&mut s, "` · @");
    push_str(&mut s, login_of(&d.author));
    push_str(&mut s, join_labels(&d.labels).as_str());
    push_str(&mut s, " · ");
    push_str(&mut s, byte_prefix_str(d.created_at.as_str(), 10).as_str());
    push_str(&mut s, "\n\n---\n\n");
    push_str(&mut s, body_or_placeholder(d.body.as_str(), lang).as_str());
    push_str(&mut s, "\n");
    let ghost head = s@;
    if d.comments.len() > 0 {
        push_str(&mut s, "\n---\n\n");
        push_str(&mut s, i18n::comments_header(lang, d.comments.len()).as_str());
        push_str(&mut s, "\n\n");
        let ghost mid = s@;
        let mut i: usize = 0;
        while i < d.comments.len()
            invariant
                i <= d.comments@.len(),
                issue_times_ok(*d),
                s@ == mid + issue_comments_text(d.comments@.take(i as int), lang),
            decreases d.comments@.len() - i,
        {
            issue_comment(&mut s, &d.comments[i], lang);
            assert(d.comments@.take(i + 1).drop_last() =~= d.comments@.take(i as int));
            i += 1;
        }
        assert(d.comments@.take(i as int) =~= d.comments@);
    }
    assert(s@ =~= format_issue_spec(*d, lang));
    s
}

// ─── pull requests: header ───────────────────────────────────────────────────

/// State, marked as draft when it is one.
pub open spec fn pr_state_spec(d: PrDetail) -> Seq<char> {
    if d.is_draft {
        d.state@ + " · draft"@
    } else {
        d.state@
    }
}

pub open spec fn pr_header_spec(d: PrDetail, lang: Lang) -> Seq<char> {
    "# #"@ + decimal(d.number as nat) + " "@ + d.title@ + "\n\n`"@ + pr_state_spec(d) + "` · @"@
        + login_of_spec(d.author) + join_labels_spec(d.labels@) + " · "@ + d.base_ref_name@
        + " ← "@ + d.head_ref_name@ + " · +"@ + signed_decimal(d.additions as int) + " −"@
        + signed_decimal(d.deletions as int) + (match d.review_decision {
        Some(r) => " · review: "@ + r@,
        None => Seq::empty(),
    }) + "\n\n---\n\n"@ + body_or_placeholder_spec(d.body@, lang) + "\n"@
}

fn pr_header(d: &PrDetail, lang: Lang) -> (r: String)
    ensures
        r@ == pr_header_spec(*d, lang),
{
    let mut s = owned("# #");
    push_str(&mut s, u64_to_string(d.number).as_str());
    push_str(&mut s, " ");
    push_str(&mut s, d.title.as_str());
    push_str(&mut s, "\n\n`");
    push_str(&mut s, d.state.as_str());
    if d.is_draft {
        push_str(&mut s, " · draft");
    }
    push_str(&mut s, "` · @");
    push_str(&mut s, login_of(&d.author));
    push_str(&mut s, join_labels(&d.labels).as_str());
    push_str(&mut s, " · ");
    push_str(&mut s, d.base_ref_name.as_str());
    push_str(&mut s, " ← ");
    push_str(&mut s, d.head_ref_name.as_str());
    push_str(&mut s, " · +");
    push_str(&mut s, i64_to_string(d.additions).as_str());
    push_str(&mut s, " −");
    push_str(&mut s, i64_to_string(d.deletions).as_str());
    if let Some(r) = &d.review_decision {
        push_str(&mut s, " · review: ");
        push_str(&mut s, r.as_str());
    }
    push_str(&mut s, "\n\n---\n\n");
    push_str(&mut s, body_or_placeholder(d.body.as_str(), lang).as_str());
    push_str(&mut s, "\n");
    assert(s@ =~= pr_header_spec(*d, lang));
    s
}

// ─── pull requests: timeline ─────────────────────────────────────────────────

/// When a review was submitted (`""` when unknown).
pub open spec fn review_time(r: Review) -> Seq<char> {
    match r.submitted_at {
        Some(t) => t@,
        None => Seq::empty(),
    }
}

pub open spec fn review_block(r: Review, lang: Lang) -> Seq<char> {
    "### 🔍 "@ + review_icon_spec(r.state@, lang) + " · @"@ + login_of_spec(r.author) + " · "@
        + short_time_spec(review_time(r)) + "\n"@ + if trim_seq(r.body@).len() == 0 {
        Seq::empty()
    } else {
        "\n"@ + trim_seq(r.body@) + "\n"@
    }
}

pub open spec fn comment_event_block(c: Comment, lang: Lang) -> Seq<char> {
    "### 💬 @"@ + login_of_spec(c.author) + " · "@ + short_time_spec(c.created_at@) + "\n\n"@
        + body_or_placeholder_spec(c.body@, lang) + "\n"@
}

/// Timeline entries: reviews first, then comments (before ordering by time).
pub open spec fn event_times(d: PrDetail) -> Seq<Seq<char>> {
    d.reviews@.map_values(|r: Review| review_time(r)) + d.comments@.map_values(
        |c: Comment| c.created_at@,
    )
}

pub open spec fn event_blocks(d: PrDetail, lang: Lang) -> Seq<Seq<char>> {
    d.reviews@.map_values(|r: Review| review_block(r, lang)) + d.comments@.map_values(
        |c: Comment| comment_event_block(c, lang),
    )
}

pub open spec fn event_keys(d: PrDetail) -> Seq<(Seq<char>, Seq<char>)> {
    event_times(d).map_values(|t: Seq<char>| (t, Seq::<char>::empty()))
}

/// The blocks in the given order, each followed by a blank line.
pub open spec fn ordered_blocks(blocks: Seq<Seq<char>>, order: Seq<usize>) -> Seq<char>
    decreases order.len(),
{
    if order.len() == 0 {
        Seq::empty()
    } else {
        ordered_blocks(blocks, order.drop_last()) + blocks[order.last() as int] + "\n"@
    }
}

/// Reviews and comments merged in time order (stable for equal times).
pub open spec fn timeline_spec(d: PrDetail, lang: Lang) -> Seq<char> {
    let n = event_times(d).len();
    if n == 0 {
        Seq::empty()
    } else {
        "\n---\n\n"@ + i18n::timeline_header_text(lang) + "\n\n"@ + ordered_blocks(
            event_blocks(d, lang),
            stable_order(event_keys(d), n),
        )
    }
}

fn review_block_text(r: &Review, lang: Lang) -> (s: String)
    requires
        byte_cut_ok(review_time(*r), 16),
    ensures
        s@ == review_block(*r, lang),
{
    proof {
        reveal_strlit("");
    }
    let t = match &r.submitted_at {
        Some(t) => t.as_str(),
        None => "",
    };
    assert(t@ == review_time(*r));
    let mut s = owned("### 🔍 ");
    push_str(&mut s, review_icon(r.state.as_str(), lang));
    push_str(&mut s, " · @");
    push_str(&mut s, login_of(&r.author));
    push_str(&mut s, " · ");
    push_str(&mut s, short_time(t).as_str());
    push_str(&mut s, "\n");
    let b = trim(r.body.as_str());
    if !b.as_str().is_empty() {
        push_str(&mut s, "\n");
        push_str(&mut s, b.as_str());
        push_str(&mut s, "\n");
    }
    proof {
        reveal_strlit("");
    }
    assert(s@ =~= review_block(*r, lang));
    s
}

fn comment_event_text(c: &Comment, lang: Lang) -> (s: String)
    requires
        byte_cut_ok(c.created_at@, 16),
    ensures
        s@ == comment_event_block(*c, lang),
{
    let mut s = owned("### 💬 @");
    push_str(&mut s, login_of(&c.author));
    push_str(&mut s, " · ");
    push_str(&mut s, short_time(c.created_at.as_str()).as_str());
    push_str(&mut s, "\n\n");
    push_str(&mut s, body_or_placeholder(c.body.as_str(), lang).as_str());
    push_str(&mut s, "\n");
    s
}

fn timeline_text(d: &PrDetail, lang: Lang) -> (r: String)
    requires
        forall|i: int| 0 <= i < d.reviews@.len() ==> byte_cut_ok(review_time(#[trigger] d.reviews@[i]), 16),
        forall|i: int| 0 <= i < d.comments@.len() ==> byte_cut_ok((#[trigger] d.comments@[i]).created_at@, 16),
    ensures
        r@ == timeline_spec(*d, lang),
{
    let ghost times = event_times(*d);
    let ghost blocks = event_blocks(*d, lang);
    let mut keys: Vec<SortKey> = Vec::new();
    let mut texts: Vec<String> = Vec::new();
    let nr = d.reviews.len();
    let mut i: usize = 0;
    while i < nr
        invariant
            nr == d.reviews@.len(),
            i <= nr,
            forall|i: int| 0 <= i < d.reviews@.len() ==> byte_cut_ok(review_time(#[trigger] d.reviews@[i]), 16),
            keys@.len() == i,
            texts@.len() == i,
            forall|k: int| 0 <= k < i ==> (#[trigger] key_view(keys@[k])) == event_keys(*d)[k],
            forall|k: int| 0 <= k < i ==> (#[trigger] texts@[k])@ == event_blocks(*d, lang)[k],
        decreases nr - i,
    {
        let r = &d.reviews[i];
        let t = match &r.submitted_at {
            Some(t) => owned(t.as_str()),
            None => String::new(),
        };
        keys.push(SortKey { major: t, minor: String::new() });
        texts.push(review_block_text(r, lang));
        i += 1;
    }
    let nc = d.comments.len();
    let mut j: usize = 0;
    while j < nc
        invariant
            nr == d.reviews@.len(),
            nc == d.comments@.len(),
            j <= nc,
            forall|i: int| 0 <= i < d.comments@.len() ==> byte_cut_ok((#[trigger] d.comments@[i]).created_at@, 16),
            keys@.len() == nr + j,
            texts@.len() == nr + j,
            forall|k: int|
                0 <= k < nr + j ==> (#[trigger] key_view(keys@[k])) == event_keys(*d)[k],
            forall|k: int| 0 <= k < nr + j ==> (#[trigger] texts@[k])@ == event_blocks(*d, lang)[k],
        decreases nc - j,
    {
        let c = &d.comments[j];
        keys.push(SortKey { major: owned(c.created_at.as_str()), minor: String::new() });
        texts.push(comment_event_text(c, lang));
        j += 1;
    }
    assert(keys_view(keys@) =~= event_keys(*d));
    let n = keys.len();
    if n == 0 {
        return String::new();
    }
    let order = sort_order(&keys);
    let mut s = owned("\n---\n\n");
    push_str(&mut s, i18n::timeline_header(lang));
    push_str(&mut s, "\n\n");
    let ghost head = s@;
    let mut k: usize = 0;
    while k < order.len()
        invariant
            k <= order@.len(),
            order@.len() == n,
            texts@.len() == n,
            forall|m: int| 0 <= m < order@.len() ==> (#[trigger] order@[m]) < n,
            forall|m: int| 0 <= m < n ==> (#[trigger] texts@[m])@ == event_blocks(*d, lang)[m],
            s@ == head + ordered_blocks(event_blocks(*d, lang), order@.take(k as int)),
        decreases order@.len() - k,
    {
        let idx = order[k];
        push_str(&mut s, texts[idx].as_str());
        push_str(&mut s, "\n");
        assert(order@.take(k + 1).drop_last() =~= order@.take(k as int));
        k += 1;
    }
    assert(order@.take(k as int) =~= order@);
    s
}

// ─── pull requests: code review threads ──────────────────────────────────────

/// The file a thread comment belongs to (the general bucket without a path).
pub open spec fn thread_path_spec(c: ReviewComment, lang: Lang) -> Seq<char> {
    match c.path {
        Some(p) => p@,
        None => i18n::path_general_text(lang),
    }
}

fn thread_path(c: &ReviewComment, lang: Lang) -> (r: &str)
    ensures
        r@ == thread_path_spec(*c, lang),
{
    match &c.path {
        Some(p) => p.as_str(),
        None => i18n::path_general(lang),
    }
}

/// Thread comments keyed by file, then by creation time.
pub open spec fn thread_keys(ts: Seq<ReviewComment>, lang: Lang) -> Seq<(Seq<char>, Seq<char>)> {
    ts.map_values(|c: ReviewComment| (thread_path_spec(c, lang), c.created_at@))
}

/// Thread comments grouped by file (files in order), each file's comments in
/// time order (stable for equal times).
pub open spec fn sorted_threads(ts: Seq<ReviewComment>, lang: Lang) -> Seq<ReviewComment> {
    stable_order(thread_keys(ts, lang), ts.len()).map_values(|i: usize| ts[i as int])
}

/// The first line number among the leading comments of `cs` on file `p`.
pub open spec fn group_line(cs: Seq<ReviewComment>, p: Seq<char>, lang: Lang) -> Option<u64>
    decreases cs.len(),
{
    if cs.len() == 0 || thread_path_spec(cs[0], lang) != p {
        None
    } else {
        match cs[0].line {
            Some(l) => Some(l),
            None => group_line(cs.drop_first(), p, lang),
        }
    }
}

/// `path:line`, or the path alone without a line.
pub open spec fn loc_spec(p: Seq<char>, line: Option<u64>) -> Seq<char> {
    match line {
        Some(l) => p + ":"@ + decimal(l as nat),
        None => p,
    }
}

pub open spec fn thread_comment_block(c: ReviewComment, lang: Lang) -> Seq<char> {
    (if c.in_reply_to_id is Some {
        "↳ "@
    } else {
        Seq::empty()
    }) + "**@"@ + login_of_spec(c.user) + "** · "@ + short_time_spec(c.created_at@) + "\n\n"@
        + body_or_placeholder_spec(c.body@, lang) + "\n\n"@
}

/// Entry `i` of the sorted comments: a file heading where a new file starts, then the comment.
pub open spec fn thread_item(cs: Seq<ReviewComment>, i: int, lang: Lang) -> Seq<char> {
    let p = thread_path_spec(cs[i], lang);
    (if i == 0 || thread_path_spec(cs[i - 1], lang) != p {
        "### 📄 "@ + loc_spec(p, group_line(cs.skip(i), p, lang)) + "\n\n"@
    } else {
        Seq::empty()
    }) + thread_comment_block(cs[i], lang)
}

pub open spec fn threads_upto(cs: Seq<ReviewComment>, n: nat, lang: Lang) -> Seq<char>
    decreases n,
{
    if n == 0 {
        Seq::empty()
    } else {
        threads_upto(cs, (n - 1) as nat, lang) + thread_item(cs, n - 1, lang)
    }
}

pub open spec fn threads_spec(ts: Seq<ReviewComment>, lang: Lang) -> Seq<char> {
    if ts.len() == 0 {
        Seq::empty()
    } else {
        "\n---\n\n"@ + i18n::code_review_header_text(lang) + "\n\n"@ + threads_upto(
            sorted_threads(ts, lang),
            ts.len(),
            lang,
        )
    }
}

fn thread_comment_text(out: &mut String, c: &ReviewComment, lang: Lang)
    requires
        byte_cut_ok(c.created_at@, 16),
    ensures
        final(out)@ == old(out)@ + thread_comment_block(*c, lang),
{
    if c.in_reply_to_id.is_some() {
        push_str(out, "↳ ");
    }
    push_str(out, "**@");
    push_str(out, login_of(&c.user));
    push_str(out, "** · ");
    push_str(out, short_time(c.created_at.as_str()).as_str());
    push_str(out, "\n\n");
    push_str(out, body_or_placeholder(c.body.as_str(), lang).as_str());
    push_str(out, "\n\n");
}

/// The line of the file heading for the group that starts at sorted entry `k`.
fn first_group_line(
    ts: &Vec<ReviewComment>,
    order: &Vec<usize>,
    k: usize,
    lang: Lang,
    Ghost(cs): Ghost<Seq<ReviewComment>>,
) -> (r: Option<u64>)
    requires
        k < order@.len(),
        cs.len() == order@.len(),
        forall|m: int| 0 <= m < order@.len() ==> (#[trigger] order@[m]) < ts@.len(),
        forall|m: int| 0 <= m < cs.len() ==> #[trigger] cs[m] == ts@[order@[m] as int],
    ensures
        r == group_line(cs.skip(k as int), thread_path_spec(cs[k as int], lang), lang),
{
    let p = thread_path(&ts[order[k]], lang);
    let ghost pv = p@;
    let mut m: usize = k;
    while m < order.len()
        invariant
            k <= m <= order@.len(),
            cs.len() == order@.len(),
            pv == thread_path_spec(cs[k as int], lang),
            p@ == pv,
            forall|q: int| 0 <= q < order@.len() ==> (#[trigger] order@[q]) < ts@.len(),
            forall|q: int| 0 <= q < cs.len() ==> #[trigger] cs[q] == ts@[order@[q] as int],
            group_line(cs.skip(k as int), pv, lang) == group_line(cs.skip(m as int), pv, lang),
        decreases order@.len() - m,
    {
        let c = &ts[order[m]];
        let ghost t = cs.skip(m as int);
        assert(t[0] == cs[m as int]);
        if !str_eq(thread_path(c, lang), p) {
            return None;
        }
        if let Some(l) = c.line {
            return Some(l);
        }
        assert(t.drop_first() =~= cs.skip(m + 1));
        m += 1;
    }
    None
}

/// Appends sorted entry `k`: a file heading where a new file starts, then the comment.
fn thread_item_text(
    s: &mut String,
    ts: &Vec<ReviewComment>,
    order: &Vec<usize>,
    k: usize,
    lang: Lang,
    Ghost(cs): Ghost<Seq<ReviewComment>>,
)
    requires
        k < order@.len(),
        cs.len() == order@.len(),
        forall|m: int| 0 <= m < order@.len() ==> (#[trigger] order@[m]) < ts@.len(),
        forall|m: int| 0 <= m < cs.len() ==> #[trigger] cs[m] == ts@[order@[m] as int],
        forall|i: int| 0 <= i < ts@.len() ==> byte_cut_ok((#[trigger] ts@[i]).created_at@, 16),
    ensures
        final(s)@ == old(s)@ + thread_item(cs, k as int, lang),
{
    let c = &ts[order[k]];
    assert(cs[k as int] == ts@[order@[k as int] as int]);
    if k > 0 {
        assert(cs[k - 1] == ts@[order@[k - 1] as int]);
    }
    let starts = if k == 0 {
        true
    } else {
        !str_eq(thread_path(&ts[order[k - 1]], lang), thread_path(c, lang))
    };
    let ghost before = s@;
    if starts {
        push_str(s, "### 📄 ");
        push_str(s, thread_path(c, lang));
        match first_group_line(ts, order, k, lang, Ghost(cs)) {
            Some(l) => {
                push_str(s, ":");
                push_str(s, u64_to_string(l).as_str());
            },
            None => {},
        }
        push_str(s, "\n\n");
    }
    thread_comment_text(s, c, lang);
    assert(s@ =~= before + thread_item(cs, k as int, lang));
}

fn threads_text(ts: &Vec<ReviewComment>, lang: Lang) -> (r: String)
    requires
        forall|i: int| 0 <= i < ts@.len() ==> byte_cut_ok((#[trigger] ts@[i]).created_at@, 16),
    ensures
        r@ == threads_spec(ts@, lang),
{
    if ts.len() == 0 {
        return String::new();
    }
    let mut keys: Vec<SortKey> = Vec::new();
    let mut i: usize = 0;
    while i < ts.len()
        invariant
            i <= ts@.len(),
            keys@.len() == i,
            forall|k: int| 0 <= k < i ==> (#[trigger] key_view(keys@[k])) == thread_keys(ts@, lang)[k],
        decreases ts@.len() - i,
    {
        let c = &ts[i];
        keys.push(SortKey { major: owned(thread_path(c, lang)), minor: owned(c.created_at.as_str()) });
        i += 1;
    }
    assert(keys_view(keys@) =~= thread_keys(ts@, lang));
    let order = sort_order(&keys);
    let ghost cs = sorted_threads(ts@, lang);
    assert(cs.len() == order@.len());
    assert forall|m: int| 0 <= m < cs.len() implies #[trigger] cs[m] == ts@[order@[m] as int] by {}
    let mut s = owned("\n---\n\n");
    push_str(&mut s, i18n::code_review_header(lang));
    push_str(&mut s, "\n\n");
    let ghost head = s@;
    let mut k: usize = 0;
    while k < order.len()
        invariant
            k <= order@.len(),
            cs.len() == order@.len(),
            order@.len() == ts@.len(),
            cs == sorted_threads(ts@, lang),
            forall|i: int| 0 <= i < ts@.len() ==> byte_cut_ok((#[trigger] ts@[i]).created_at@, 16),
            forall|m: int| 0 <= m < order@.len() ==> (#[trigger] order@[m]) < ts@.len(),
            forall|m: int| 0 <= m < cs.len() ==> #[trigger] cs[m] == ts@[order@[m] as int],
            s@ == head + threads_upto(cs, k as nat, lang),
        decreases order@.len() - k,
    {
        thread_item_text(&mut s, ts, &order, k, lang, Ghost(cs));
        k += 1;
    }
    assert(s@ =~= threads_spec(ts@, lang));
    s
}

/// The timeline shows every review and comment once, in time order (entries
/// with equal times keep their order: reviews first, then comments, each as listed).
pub proof fn law_timeline_in_time_order(d: PrDetail)
    requires
        event_times(d).len() <= usize::MAX,
    ensures
        ({
            let n = event_times(d).len();
            let o = stable_order(event_keys(d), n);
            &&& o.len() == n
            &&& forall|a: int| 0 <= a < n ==> (#[trigger] o[a]) < n
            &&& forall|a: int, b: int| 0 <= a < n && 0 <= b < n && a != b ==> o[a] != o[b]
            &&& forall|a: int, b: int|
                0 <= a < b < n ==> !text_lt(
                    event_times(d)[o[b] as int],
                    event_times(d)[o[a] as int],
                )
            &&& forall|a: int, b: int|
                0 <= a < b < n && event_times(d)[o[a] as int] == event_times(d)[o[b] as int]
                    ==> o[a] < o[b]
        }),
{
    let n = event_times(d).len();
    let keys = event_keys(d);
    law_stable_order(keys, n);
    let o = stable_order(keys, n);
    assert forall|a: int, b: int| 0 <= a < b < n implies !text_lt(
        event_times(d)[o[b] as int],
        event_times(d)[o[a] as int],
    ) by {
        assert(!key_lt(keys[o[b] as int], keys[o[a] as int]));
    }
    assert forall|a: int, b: int|
        0 <= a < b < n && event_times(d)[o[a] as int] == event_times(d)[o[b] as int] implies o[a]
        < o[b] by {
        assert(keys[o[a] as int] == keys[o[b] as int]);
    }
}

/// The review threads show every comment once, grouped by file (files in
/// order) and, within a file, in time order.
pub proof fn law_threads_grouped_by_file(ts: Seq<ReviewComment>, lang: Lang)
    requires
        ts.len() <= usize::MAX,
    ensures
        ({
            let o = stable_order(thread_keys(ts, lang), ts.len());
            let cs = sorted_threads(ts, lang);
            &&& cs.len() == ts.len()
            &&& forall|a: int, b: int| 0 <= a < ts.len() && 0 <= b < ts.len() && a != b ==> o[a] != o[b]
            &&& forall|a: int| 0 <= a < ts.len() ==> (#[trigger] cs[a]) == ts[o[a] as int]
            &&& forall|a: int, b: int|
                0 <= a < b < cs.len() ==> !text_lt(
                    thread_path_spec(cs[b], lang),
                    thread_path_spec(cs[a], lang),
                )
            &&& forall|a: int, b: int|
                0 <= a < b < cs.len() && thread_path_spec(cs[a], lang) == thread_path_spec(
                    cs[b],
                    lang,
                ) ==> !text_lt(cs[b].created_at@, cs[a].created_at@)
        }),
{
    let keys = thread_keys(ts, lang);
    law_stable_order(keys, ts.len());
    let o = stable_order(keys, ts.len());
    let cs = sorted_threads(ts, lang);
    assert(cs.len() == ts.len());
    assert forall|a: int| 0 <= a < ts.len() implies (#[trigger] cs[a]) == ts[o[a] as int] by {}
    assert forall|a: int, b: int| 0 <= a < b < cs.len() implies !text_lt(
        thread_path_spec(cs[b], lang),
        thread_path_spec(cs[a], lang),
    ) by {
        assert(!key_lt(keys[o[b] as int], keys[o[a] as int]));
        assert(cs[a] == ts[o[a] as int] && cs[b] == ts[o[b] as int]);
    }
    assert forall|a: int, b: int|
        0 <= a < b < cs.len() && thread_path_spec(cs[a], lang) == thread_path_spec(
            cs[b],
            lang,
        ) implies !text_lt(cs[b].created_at@, cs[a].created_at@) by {
        assert(!key_lt(keys[o[b] as int], keys[o[a] as int]));
        assert(cs[a] == ts[o[a] as int] && cs[b] == ts[o[b] as int]);
    }
    assert forall|a: int, b: int| 0 <= a < ts.len() && 0 <= b < ts.len() && a != b implies o[a] != o[b] by {}
}

// ─── pull requests: whole body ───────────────────────────────────────────────

/// A pull request as markdown: header, body, timeline, code review threads.
pub open spec fn format_pr_spec(d: PrDetail, threads: Seq<ReviewComment>, lang: Lang) -> Seq<char> {
    pr_header_spec(d, lang) + timeline_spec(d, lang) + threads_spec(threads, lang)
}

pub fn format_pr(d: &PrDetail, threads: &Vec<ReviewComment>, lang: Lang) -> (r: String)
    requires
        pr_times_ok(*d, threads@),
    ensures
        r@ == format_pr_spec(*d, threads@, lang),
{
    let mut s = pr_header(d, lang);
    push_str(&mut s, timeline_text(d, lang).as_str());
    push_str(&mut s, threads_text(threads, lang).as_str());
    s
}

} // verus!
