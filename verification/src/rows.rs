//! One styled line per list item: status glyph, key fields, and a title cut
//! to the width the fixed fields leave over.
use vstd::prelude::*;
use crate::clock::ts_view;
use crate::github::{Branch, Commit, Issue, Label, Pr, Run};
use crate::run_detail::{is_failure, is_failure_spec, opt_str, opt_text};
use crate::text::{decimal, owned, push_str, str_eq, u64_to_string};
use crate::theme::{
    fg_style, plain_style, span_view, spans_view, style_fg, style_plain, Color, Modifiers,
    TextLine, TextSpan, TextStyle, Theme,
};
use crate::view::{
    age_secs, age_spec, display_width, display_width_spec, hex_cuts_ok_spec, parse_hex,
    parse_hex_spec, rel_time, rel_time_spec, truncate, truncate_spec, truncate_width,
    truncate_width_spec,
};

verus! {

// ─── styles and spans ────────────────────────────────────────────────────────

pub open spec fn bold_fg_style(c: Color) -> TextStyle {
    TextStyle {
        fg: Some(c),
        bg: None,
        mods: Modifiers { bold: true, italic: false, crossed_out: false, underlined: false },
    }
}

pub fn style_bold_fg(c: Color) -> (s: TextStyle)
    ensures
        s == bold_fg_style(c),
{
    TextStyle {
        fg: Some(c),
        bg: None,
        mods: Modifiers { bold: true, italic: false, crossed_out: false, underlined: false },
    }
}

pub fn mk_span(text: String, style: TextStyle) -> (s: TextSpan)
    ensures
        span_view(s) == (text@, style),
{
    TextSpan { text, style }
}

/// A line of spans with the default line style.
pub fn mk_line(spans: Vec<TextSpan>) -> (l: TextLine)
    ensures
        spans_view(l.spans@) == spans_view(spans@),
        l.style == plain_style(),
{
    TextLine { spans, style: style_plain() }
}

/// Total display width of texts.
pub open spec fn used_width(ts: Seq<Seq<char>>) -> nat
    decreases ts.len(),
{
    if ts.len() == 0 {
        0
    } else {
        used_width(ts.drop_last()) + display_width_spec(ts.last())
    }
}

/// Width left for the variable field: what the fixed fields leave, at least 10.
pub open spec fn remaining_spec(width: nat, used: nat) -> nat {
    let rest: nat = if width >= used {
        (width - used) as nat
    } else {
        0
    };
    if rest > 10 {
        rest
    } else {
        10
    }
}

proof fn lemma_used_width_prefix(ts: Seq<Seq<char>>, k: int)
    requires
        0 <= k <= ts.len(),
    ensures
        used_width(ts.take(k)) <= used_width(ts),
    decreases ts.len(),
{
    if k < ts.len() {
        assert(ts.drop_last().take(k) =~= ts.take(k));
        lemma_used_width_prefix(ts.drop_last(), k);
    } else {
        assert(ts.take(k) =~= ts);
    }
}

/// Available width minus the display width of the fixed texts, at least 10 cells.
pub fn remaining_width(width: usize, fixed: &Vec<String>) -> (r: usize)
    ensures
        r == remaining_spec(width as nat, used_width(fixed.deep_view())),
{
    let ghost fv = fixed.deep_view();
    let mut used: usize = 0;
    let mut i: usize = 0;
    while i < fixed.len()
        invariant
            i <= fixed@.len(),
            fv == fixed.deep_view(),
            used == used_width(fv.take(i as int)),
            used <= width,
        decreases fixed@.len() - i,
    {
        assert(fv.take(i + 1).drop_last() =~= fv.take(i as int));
        assert(fv.take(i + 1).last() == fixed@[i as int]@);
        let w = display_width(fixed[i].as_str());
        if w == usize::MAX || w > width || used > width - w {
            proof {
                lemma_used_width_prefix(fv, i + 1);
            }
            return 10;
        }
        used = used + w;
        i += 1;
    }
    assert(fv.take(i as int) =~= fv);
    let rest = width - used;
    if rest > 10 {
        rest
    } else {
        10
    }
}

fn texts_of(spans: &Vec<TextSpan>) -> (r: Vec<String>)
    ensures
        r.deep_view() == texts(spans_view(spans@)),
{
    let mut out: Vec<String> = Vec::new();
    let mut i: usize = 0;
    while i < spans.len()
        invariant
            i <= spans@.len(),
            out.deep_view() == texts(spans_view(spans@.take(i as int))),
        decreases spans@.len() - i,
    {
        let ghost before = out.deep_view();
        out.push(owned(spans[i].text.as_str()));
        assert(out.deep_view() =~= before.push(spans@[i as int].text@));
        assert(spans@.take(i + 1) =~= spans@.take(i as int).push(spans@[i as int]));
        assert(out.deep_view() =~= texts(spans_view(spans@.take(i + 1))));
        i += 1;
    }
    assert(spans@.take(i as int) =~= spans@);
    out
}

/// The texts of spans.
pub open spec fn texts(spans: Seq<(Seq<char>, TextStyle)>) -> Seq<Seq<char>> {
    spans.map_values(|p: (Seq<char>, TextStyle)| p.0)
}

// ─── shared pieces ───────────────────────────────────────────────────────────

/// Marker of new/changed items.
pub open spec fn marker_spec(hl: bool, t: Theme) -> (Seq<char>, TextStyle) {
    if hl {
        ("● "@, bold_fg_style(t.highlight))
    } else {
        ("  "@, plain_style())
    }
}

pub fn marker(hl: bool, t: &Theme) -> (s: TextSpan)
    ensures
        span_view(s) == marker_spec(hl, *t),
{
    if hl {
        mk_span(owned("● "), style_bold_fg(t.highlight))
    } else {
        mk_span(owned("  "), style_plain())
    }
}

/// Relative time, bright when within the last hour.
pub open spec fn time_spec(iso: Seq<char>, now: (int, int), t: Theme) -> (Seq<char>, TextStyle) {
    let age = age_spec(iso, now);
    (
        rel_time_spec(age),
        fg_style(
            if (age matches Some(s) && s < 3600) {
                t.text
            } else {
                t.muted
            },
        ),
    )
}

pub fn time_span(iso: &str, now: (i64, u32), t: &Theme) -> (s: TextSpan)
    ensures
        span_view(s) == time_spec(iso@, ts_view(now), *t),
{
    let age = age_secs(iso, now);
    let recent = match age {
        Some(s) => s < 3600,
        None => false,
    };
    let text = rel_time(age);
    mk_span(
        text,
        style_fg(
            if recent {
                t.text
            } else {
                t.muted
            },
        ),
    )
}

fn plain_span(s: &str) -> (r: TextSpan)
    ensures
        span_view(r) == (s@, plain_style()),
{
    mk_span(owned(s), style_plain())
}

// ─── runs ────────────────────────────────────────────────────────────────────

/// Run status → glyph and color (the spinner frame while running).
pub open spec fn run_status_spec(status: Seq<char>, c: Option<Seq<char>>, spin: Seq<char>, t: Theme) -> (Seq<char>, Color) {
    if status == "completed"@ {
        if c == Some("success"@) {
            ("✓"@, t.success)
        } else if is_failure_spec(c) {
            ("✗"@, t.error)
        } else if c == Some("cancelled"@) {
            ("⊘"@, t.muted)
        } else if c == Some("skipped"@) {
            ("⊝"@, t.muted)
        } else if c == Some("action_required"@) || c == Some("neutral"@) {
            ("!"@, t.warning)
        } else {
            ("•"@, t.muted)
        }
    } else if status == "in_progress"@ {
        (spin, t.warning)
    } else if status == "queued"@ || status == "waiting"@ || status == "pending"@ || status
        == "requested"@ {
        ("◴"@, t.accent)
    } else {
        ("•"@, t.muted)
    }
}

fn opt_is(c: Option<&str>, lit: &str) -> (b: bool)
    ensures
        b == (crate::i18n::opt_view(c) == Some(lit@)),
{
    match c {
        Some(s) => str_eq(s, lit),
        None => false,
    }
}

pub fn run_status(r: &Run, spin: &str, t: &Theme) -> (x: (String, Color))
    ensures
        (x.0@, x.1) == run_status_spec(r.status@, opt_text(r.conclusion), spin@, *t),
{
    let st = r.status.as_str();
    let c = opt_str(&r.conclusion);
    if str_eq(st, "completed") {
        if opt_is(c, "success") {
            (owned("✓"), t.success)
        } else if is_failure(c) {
            (owned("✗"), t.error)
        } else if opt_is(c, "cancelled") {
            (owned("⊘"), t.muted)
        } else if opt_is(c, "skipped") {
            (owned("⊝"), t.muted)
        } else if opt_is(c, "action_required") || opt_is(c, "neutral") {
            (owned("!"), t.warning)
        } else {
            (owned("•"), t.muted)
        }
    } else if str_eq(st, "in_progress") {
        (owned(spin), t.warning)
    } else if str_eq(st, "queued") || str_eq(st, "waiting") || str_eq(st, "pending") || str_eq(
        st,
        "requested",
    ) {
        (owned("◴"), t.accent)
    } else {
        (owned("•"), t.muted)
    }
}

/// A run row: marker, glyph, workflow, title, event · branch · age.
pub open spec fn run_row_spec(r: Run, hl: bool, spin: Seq<char>, t: Theme, width: nat, now: (int, int)) -> Seq<(Seq<char>, TextStyle)> {
    let st = run_status_spec(r.status@, opt_text(r.conclusion), spin, t);
    let m = marker_spec(hl, t);
    let ic = (st.0 + " "@, fg_style(st.1));
    let wf = (truncate_spec(r.workflow_name@, 16), bold_fg_style(t.text));
    let g1 = (" "@, plain_style());
    let g2 = ("  "@, plain_style());
    let me = (r.event@ + " · "@ + truncate_spec(r.head_branch@, 12) + " · "@, fg_style(t.muted));
    let tm = time_spec(r.created_at@, now, t);
    let w = remaining_spec(width, used_width(seq![m.0, ic.0, wf.0, g1.0, g2.0, me.0, tm.0]));
    seq![m, ic, wf, g1, (truncate_width_spec(r.display_title@, w), plain_style()), g2, me, tm]
}

pub fn run_line(r: &Run, hl: bool, spin: &str, t: &Theme, width: usize, now: (i64, u32)) -> (l: TextLine)
    ensures
        spans_view(l.spans@) == run_row_spec(*r, hl, spin@, *t, width as nat, ts_view(now)),
        l.style == plain_style(),
{
    let (icon, color) = run_status(r, spin, t);
    let m = marker(hl, t);
    let mut icon_text = icon;
    push_str(&mut icon_text, " ");
    let ic = mk_span(icon_text, style_fg(color));
    let wf = mk_span(truncate(r.workflow_name.as_str(), 16), style_bold_fg(t.text));
    let g1 = plain_span(" ");
    let g2 = plain_span("  ");
    let mut meta = owned(r.event.as_str());
    push_str(&mut meta, " · ");
    push_str(&mut meta, truncate(r.head_branch.as_str(), 12).as_str());
    push_str(&mut meta, " · ");
    let me = mk_span(meta, style_fg(t.muted));
    let tm = time_span(r.created_at.as_str(), now, t);
    let fixed = vec![
        owned(m.text.as_str()),
        owned(ic.text.as_str()),
        owned(wf.text.as_str()),
        owned(g1.text.as_str()),
        owned(g2.text.as_str()),
        owned(me.text.as_str()),
        owned(tm.text.as_str()),
    ];
    let ghost fixed_texts = seq![m.text@, ic.text@, wf.text@, g1.text@, g2.text@, me.text@, tm.text@];
    assert(fixed.deep_view() =~= fixed_texts);
    let w = remaining_width(width, &fixed);
    let title = mk_span(truncate_width(r.display_title.as_str(), w), style_plain());
    let spans = vec![m, ic, wf, g1, title, g2, me, tm];
    let l = mk_line(spans);
    assert(spans_view(l.spans@) =~= run_row_spec(*r, hl, spin@, *t, width as nat, ts_view(now)));
    l
}

// ─── pull requests ───────────────────────────────────────────────────────────

/// PR glyph and color: draft, else by review decision.
pub open spec fn pr_icon_spec(pr: Pr, t: Theme) -> (Seq<char>, Color) {
    if pr.is_draft {
        ("◑"@, t.muted)
    } else {
        let d = opt_text(pr.review_decision);
        if d == Some("APPROVED"@) {
            ("✓"@, t.success)
        } else if d == Some("CHANGES_REQUESTED"@) {
            ("✗"@, t.error)
        } else if d == Some("REVIEW_REQUIRED"@) {
            ("◔"@, t.warning)
        } else {
            ("◍"@, t.success)
        }
    }
}

pub fn pr_icon(pr: &Pr, t: &Theme) -> (x: (&'static str, Color))
    ensures
        (x.0@, x.1) == pr_icon_spec(*pr, *t),
{
    if pr.is_draft {
        ("◑", t.muted)
    } else {
        let d = opt_str(&pr.review_decision);
        if opt_is(d, "APPROVED") {
            ("✓", t.success)
        } else if opt_is(d, "CHANGES_REQUESTED") {
            ("✗", t.error)
        } else if opt_is(d, "REVIEW_REQUIRED") {
            ("◔", t.warning)
        } else {
            ("◍", t.success)
        }
    }
}

/// Login of an optional author, `?` when unknown.
pub open spec fn login_or_q(a: Option<crate::github::Author>) -> Seq<char> {
    match a {
        Some(x) => x.login@,
        None => "?"@,
    }
}

/// A PR row: marker, glyph, number, title, author · branch · age.
pub open spec fn pr_row_spec(pr: Pr, hl: bool, t: Theme, width: nat, now: (int, int)) -> Seq<(Seq<char>, TextStyle)> {
    let ic0 = pr_icon_spec(pr, t);
    let m = marker_spec(hl, t);
    let ic = (ic0.0 + " "@, fg_style(ic0.1));
    let num = ("#"@ + decimal(pr.number as nat) + " "@, fg_style(t.accent));
    let gap = ("  "@, plain_style());
    let me = (
        "@"@ + login_or_q(pr.author) + " ⑃"@ + truncate_spec(pr.head_ref_name@, 12) + " · "@,
        fg_style(t.muted),
    );
    let tm = time_spec(pr.updated_at@, now, t);
    let w = remaining_spec(width, used_width(seq![m.0, ic.0, num.0, gap.0, me.0, tm.0]));
    seq![m, ic, num, (truncate_width_spec(pr.title@, w), plain_style()), gap, me, tm]
}

pub fn pr_line(pr: &Pr, hl: bool, t: &Theme, width: usize, now: (i64, u32)) -> (l: TextLine)
    ensures
        spans_view(l.spans@) == pr_row_spec(*pr, hl, *t, width as nat, ts_view(now)),
        l.style == plain_style(),
{
    let (icon, color) = pr_icon(pr, t);
    let m = marker(hl, t);
    let mut icon_text = owned(icon);
    push_str(&mut icon_text, " ");
    let ic = mk_span(icon_text, style_fg(color));
    let mut num_text = owned("#");
    push_str(&mut num_text, u64_to_string(pr.number).as_str());
    push_str(&mut num_text, " ");
    let num = mk_span(num_text, style_fg(t.accent));
    let gap = plain_span("  ");
    let mut meta = owned("@");
    match &pr.author {
        Some(a) => push_str(&mut meta, a.login.as_str()),
        None => push_str(&mut meta, "?"),
    }
    push_str(&mut meta, " ⑃");
    push_str(&mut meta, truncate(pr.head_ref_name.as_str(), 12).as_str());
    push_str(&mut meta, " · ");
    let me = mk_span(meta, style_fg(t.muted));
    let tm = time_span(pr.updated_at.as_str(), now, t);
    let fixed = vec![
        owned(m.text.as_str()),
        owned(ic.text.as_str()),
        owned(num.text.as_str()),
        owned(gap.text.as_str()),
        owned(me.text.as_str()),
        owned(tm.text.as_str()),
    ];
    assert(fixed.deep_view() =~= seq![m.text@, ic.text@, num.text@, gap.text@, me.text@, tm.text@]);
    let w = remaining_width(width, &fixed);
    let title = mk_span(truncate_width(pr.title.as_str(), w), style_plain());
    let spans = vec![m, ic, num, title, gap, me, tm];
    let l = mk_line(spans);
    assert(spans_view(l.spans@) =~= pr_row_spec(*pr, hl, *t, width as nat, ts_view(now)));
    l
}

// ─── commits ─────────────────────────────────────────────────────────────────

/// A commit row: marker, short sha, subject, author · age.
pub open spec fn commit_row_spec(c: Commit, hl: bool, t: Theme, width: nat, now: (int, int)) -> Seq<(Seq<char>, TextStyle)> {
    let m = marker_spec(hl, t);
    let sha = (c.short_sha_spec() + " "@, fg_style(t.sha));
    let gap = ("  "@, plain_style());
    let me = (truncate_spec(c.author_name_spec(), 12) + " · "@, fg_style(t.muted));
    let tm = time_spec(c.commit.author.date@, now, t);
    let w = remaining_spec(width, used_width(seq![m.0, sha.0, gap.0, me.0, tm.0]));
    seq![m, sha, (truncate_width_spec(c.summary_spec(), w), plain_style()), gap, me, tm]
}

pub fn commit_line(c: &Commit, hl: bool, t: &Theme, width: usize, now: (i64, u32)) -> (l: TextLine)
    ensures
        spans_view(l.spans@) == commit_row_spec(*c, hl, *t, width as nat, ts_view(now)),
        l.style == plain_style(),
{
    let m = marker(hl, t);
    let mut sha_text = c.short_sha();
    push_str(&mut sha_text, " ");
    let sha = mk_span(sha_text, style_fg(t.sha));
    let gap = plain_span("  ");
    let mut meta = truncate(c.author_name(), 12);
    push_str(&mut meta, " · ");
    let me = mk_span(meta, style_fg(t.muted));
    let tm = time_span(c.commit.author.date.as_str(), now, t);
    let fixed = vec![
        owned(m.text.as_str()),
        owned(sha.text.as_str()),
        owned(gap.text.as_str()),
        owned(me.text.as_str()),
        owned(tm.text.as_str()),
    ];
    assert(fixed.deep_view() =~= seq![m.text@, sha.text@, gap.text@, me.text@, tm.text@]);
    let w = remaining_width(width, &fixed);
    let msg = mk_span(truncate_width(c.summary().as_str(), w), style_plain());
    let spans = vec![m, sha, msg, gap, me, tm];
    let l = mk_line(spans);
    assert(spans_view(l.spans@) =~= commit_row_spec(*c, hl, *t, width as nat, ts_view(now)));
    l
}

// ─── branches ────────────────────────────────────────────────────────────────

/// Widths of a branch row's name and message out of the space left: the name
/// gets up to 60% (at least 12 cells), the message the rest (at least 8).
pub open spec fn branch_widths(name: Seq<char>, avail: nat) -> (nat, nat) {
    let cap: nat = if avail * 6 / 10 > 12 {
        avail * 6 / 10
    } else {
        12
    };
    let name_w: nat = if display_width_spec(name) < cap {
        display_width_spec(name)
    } else {
        cap
    };
    let rest: nat = if avail >= name_w {
        (avail - name_w) as nat
    } else {
        0
    };
    (
        name_w,
        if rest > 8 {
            rest
        } else {
            8
        },
    )
}

/// A branch row: marker, ★ (default) or ⌥, name, last commit subject, author · age.
pub open spec fn branch_row_spec(b: Branch, hl: bool, t: Theme, width: nat, now: (int, int)) -> Seq<(Seq<char>, TextStyle)> {
    let m = marker_spec(hl, t);
    let ic = if b.is_default {
        ("★ "@, fg_style(t.highlight))
    } else {
        ("⌥ "@, fg_style(t.muted))
    };
    let g1 = ("  "@, plain_style());
    let g2 = ("  "@, plain_style());
    let au = ("@"@ + truncate_spec(b.author@, 12) + " · "@, fg_style(t.muted));
    let tm = time_spec(b.updated_at@, now, t);
    let avail = remaining_spec(width, used_width(seq![m.0, ic.0, g1.0, g2.0, au.0, tm.0]));
    let ws = branch_widths(b.name@, avail);
    seq![
        m,
        ic,
        (truncate_width_spec(b.name@, ws.0), bold_fg_style(t.text)),
        g1,
        (truncate_width_spec(b.summary_spec(), ws.1), plain_style()),
        g2,
        au,
        tm,
    ]
}

pub fn branch_line(b: &Branch, hl: bool, t: &Theme, width: usize, now: (i64, u32)) -> (l: TextLine)
    requires
        width <= usize::MAX / 6,
    ensures
        spans_view(l.spans@) == branch_row_spec(*b, hl, *t, width as nat, ts_view(now)),
        l.style == plain_style(),
{
    let m = marker(hl, t);
    let ic = if b.is_default {
        mk_span(owned("★ "), style_fg(t.highlight))
    } else {
        mk_span(owned("⌥ "), style_fg(t.muted))
    };
    let g1 = plain_span("  ");
    let g2 = plain_span("  ");
    let mut au_text = owned("@");
    push_str(&mut au_text, truncate(b.author.as_str(), 12).as_str());
    push_str(&mut au_text, " · ");
    let au = mk_span(au_text, style_fg(t.muted));
    let tm = time_span(b.updated_at.as_str(), now, t);
    let fixed = vec![
        owned(m.text.as_str()),
        owned(ic.text.as_str()),
        owned(g1.text.as_str()),
        owned(g2.text.as_str()),
        owned(au.text.as_str()),
        owned(tm.text.as_str()),
    ];
    assert(fixed.deep_view() =~= seq![m.text@, ic.text@, g1.text@, g2.text@, au.text@, tm.text@]);
    let avail = remaining_width(width, &fixed);
    let cap: usize = if avail * 6 / 10 > 12 {
        avail * 6 / 10
    } else {
        12
    };
    let dw = display_width(b.name.as_str());
    let name_w = if dw < cap {
        dw
    } else {
        cap
    };
    let rest = if avail >= name_w {
        avail - name_w
    } else {
        0
    };
    let msg_w = if rest > 8 {
        rest
    } else {
        8
    };
    let name_s = mk_span(truncate_width(b.name.as_str(), name_w), style_bold_fg(t.text));
    let msg_s = mk_span(truncate_width(b.summary().as_str(), msg_w), style_plain());
    let spans = vec![m, ic, name_s, g1, msg_s, g2, au, tm];
    let l = mk_line(spans);
    assert(spans_view(l.spans@) =~= branch_row_spec(*b, hl, *t, width as nat, ts_view(now)));
    l
}

// ─── issues ──────────────────────────────────────────────────────────────────

/// A label pill's style: its own color as background with the given
/// contrast foreground, or the highlight color when the color is not hex.
pub open spec fn pill_style(hex: Seq<char>, fg: Color, t: Theme) -> TextStyle {
    match parse_hex_spec(hex) {
        Some(rgb) => TextStyle {
            fg: Some(fg),
            bg: Some(Color::Rgb(rgb.0, rgb.1, rgb.2)),
            mods: crate::theme::no_mods(),
        },
        None => fg_style(t.highlight),
    }
}

/// The spans of the first two labels: a gap, then the name as a pill.
pub open spec fn label_spans(labels: Seq<Label>, fgs: Seq<Color>, t: Theme) -> Seq<(Seq<char>, TextStyle)>
    decreases labels.len(),
{
    if labels.len() == 0 {
        Seq::empty()
    } else {
        let n = if labels.len() > 2 {
            2
        } else {
            labels.len()
        };
        let k = n - 1;
        label_spans(labels.take(k as int), fgs, t) + seq![
            (" "@, plain_style()),
            (
                " "@ + truncate_spec(labels[k].name@, 14) + " "@,
                pill_style(labels[k].color@, fgs[k], t),
            ),
        ]
    }
}

/// An issue row: marker, glyph, number, title, label pills, author · age.
pub open spec fn issue_row_spec(is: Issue, hl: bool, t: Theme, width: nat, now: (int, int), fgs: Seq<Color>) -> Seq<(Seq<char>, TextStyle)> {
    let m = marker_spec(hl, t);
    let gl = ("◎ "@, fg_style(t.success));
    let num = ("#"@ + decimal(is.number as nat) + " "@, fg_style(t.accent));
    let ls = label_spans(is.labels@, fgs, t);
    let gap = ("  "@, plain_style());
    let au = ("@"@ + login_or_q(is.author) + " · "@, fg_style(t.muted));
    let tm = time_spec(is.updated_at@, now, t);
    let w = remaining_spec(
        width,
        used_width(seq![m.0, gl.0, num.0] + texts(ls) + seq![gap.0, au.0, tm.0]),
    );
    seq![m, gl, num, (truncate_width_spec(is.title@, w), plain_style())] + ls + seq![gap, au, tm]
}

/// The label colors shown in a row can be read as hex colors.
pub open spec fn labels_hex_ok(labels: Seq<Label>) -> bool {
    forall|i: int| 0 <= i < labels.len() && i < 2 ==> hex_cuts_ok_spec((#[trigger] labels[i]).color@)
}

fn label_pill_span(l: &Label, fg: Color, t: &Theme) -> (s: TextSpan)
    requires
        hex_cuts_ok_spec(l.color@),
    ensures
        span_view(s) == (" "@ + truncate_spec(l.name@, 14) + " "@, pill_style(l.color@, fg, *t)),
{
    let mut text = owned(" ");
    push_str(&mut text, truncate(l.name.as_str(), 14).as_str());
    push_str(&mut text, " ");
    let style = match parse_hex(l.color.as_str()) {
        Some((r, g, b)) => TextStyle {
            fg: Some(fg),
            bg: Some(Color::Rgb(r, g, b)),
            mods: Modifiers { bold: false, italic: false, crossed_out: false, underlined: false },
        },
        None => style_fg(t.highlight),
    };
    mk_span(text, style)
}

/// The label spans of a row (first two labels).
fn label_span_list(labels: &Vec<Label>, fgs: &Vec<Color>, t: &Theme) -> (ls: Vec<TextSpan>)
    requires
        fgs@.len() >= 2 || fgs@.len() >= labels@.len(),
        labels_hex_ok(labels@),
    ensures
        spans_view(ls@) == label_spans(labels@, fgs@, *t),
{
    let n = if labels.len() > 2 {
        2
    } else {
        labels.len()
    };
    let mut ls: Vec<TextSpan> = Vec::new();
    let mut i: usize = 0;
    while i < n
        invariant
            i <= n,
            n == (if labels@.len() > 2 {
                2
            } else {
                labels@.len()
            }),
            fgs@.len() >= 2 || fgs@.len() >= labels@.len(),
            labels_hex_ok(labels@),
            spans_view(ls@) == label_spans(labels@.take(i as int), fgs@, *t),
        decreases n - i,
    {
        assert(labels@.take(i + 1).take(i as int) =~= labels@.take(i as int));
        let pill = label_pill_span(&labels[i], fgs[i], t);
        ls.push(plain_span(" "));
        ls.push(pill);
        assert(spans_view(ls@) =~= label_spans(labels@.take(i + 1), fgs@, *t));
        i += 1;
    }
    proof {
        if labels@.len() > 2 {
            assert(labels@.take(2).take(1) =~= labels@.take(1));
            assert(labels@.take(2)[1] == labels@[1]);
            assert(label_spans(labels@, fgs@, *t) == label_spans(labels@.take(2), fgs@, *t));
        } else {
            assert(labels@.take(n as int) =~= labels@);
        }
    }
    ls
}

/// An issue row; `fgs[i]` is the contrast foreground of label `i`'s pill.
pub fn issue_line(is: &Issue, hl: bool, t: &Theme, width: usize, now: (i64, u32), fgs: &Vec<Color>) -> (l: TextLine)
    requires
        fgs@.len() >= 2 || fgs@.len() >= is.labels@.len(),
        labels_hex_ok(is.labels@),
    ensures
        spans_view(l.spans@) == issue_row_spec(*is, hl, *t, width as nat, ts_view(now), fgs@),
        l.style == plain_style(),
{
    let m = marker(hl, t);
    let gl = mk_span(owned("◎ "), style_fg(t.success));
    let mut num_text = owned("#");
    push_str(&mut num_text, u64_to_string(is.number).as_str());
    push_str(&mut num_text, " ");
    let num = mk_span(num_text, style_fg(t.accent));
    let gap = plain_span("  ");
    let mut au_text = owned("@");
    match &is.author {
        Some(a) => push_str(&mut au_text, a.login.as_str()),
        None => push_str(&mut au_text, "?"),
    }
    push_str(&mut au_text, " · ");
    let au = mk_span(au_text, style_fg(t.muted));
    let tm = time_span(is.updated_at.as_str(), now, t);
    let lt = texts_of(&label_span_list(&is.labels, fgs, t));
    let mut fixed = vec![owned(m.text.as_str()), owned(gl.text.as_str()), owned(num.text.as_str())];
    let ghost f0 = fixed.deep_view();
    let mut j: usize = 0;
    while j < lt.len()
        invariant
            j <= lt@.len(),
            fixed.deep_view() == f0 + lt.deep_view().take(j as int),
        decreases lt@.len() - j,
    {
        let ghost before = fixed.deep_view();
        fixed.push(owned(lt[j].as_str()));
        assert(fixed.deep_view() =~= before.push(lt@[j as int]@));
        assert(lt.deep_view().take(j + 1) =~= lt.deep_view().take(j as int).push(lt@[j as int]@));
        j += 1;
    }
    assert(lt.deep_view().take(j as int) =~= lt.deep_view());
    let ghost f1 = fixed.deep_view();
    fixed.push(owned(gap.text.as_str()));
    fixed.push(owned(au.text.as_str()));
    fixed.push(owned(tm.text.as_str()));
    assert(fixed.deep_view() =~= f1.push(gap.text@).push(au.text@).push(tm.text@));
    let ghost ls_texts = texts(label_spans(is.labels@, fgs@, *t));
    assert(fixed.deep_view() =~= seq![m.text@, gl.text@, num.text@] + ls_texts + seq![
        gap.text@,
        au.text@,
        tm.text@,
    ]);
    let w = remaining_width(width, &fixed);
    let title = mk_span(truncate_width(is.title.as_str(), w), style_plain());
    let mut spans = vec![m, gl, num, title];
    let mut ls = label_span_list(&is.labels, fgs, t);
    spans.append(&mut ls);
    spans.push(gap);
    spans.push(au);
    spans.push(tm);
    let l = mk_line(spans);
    assert(spans_view(l.spans@) =~= issue_row_spec(*is, hl, *t, width as nat, ts_view(now), fgs@));
    l
}

} // verus!
