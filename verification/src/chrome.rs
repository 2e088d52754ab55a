//! Screen chrome as styled text: panel titles and borders, loading/error/empty
//! placeholders, the header and footer lines, and the detail modal's frame.
use vstd::prelude::*;
use crate::app::{App, Detail};
use crate::github::{DetailKind, Run};
use crate::i18n::{self, Lang};
use crate::rows::{bold_fg_style, mk_line, mk_span, style_bold_fg};
use crate::run_detail::{is_failure, is_failure_spec, opt_str, opt_text};
use crate::text::{
    decimal, lines, lines_seq, owned, push_str, repeat_seq, repeat_str, str_eq, u64_to_string,
    usize_to_string,
};
use crate::theme::{
    fg_style, line_view, lines_view, plain_style, span_view, spans_view, style_fg, style_plain,
    Color, TextLine, TextSpan, TextStyle, Theme,
};
use crate::view::{spinner_frame, spinner_frame_spec, truncate, truncate_spec};

verus! {

// ─── panels ──────────────────────────────────────────────────────────────────

/// Border color and whether it is the thick kind: accent and thick when focused.
pub open spec fn panel_border_spec(focused: bool, t: Theme) -> (Color, bool) {
    if focused {
        (t.accent, true)
    } else {
        (t.muted, false)
    }
}

pub fn panel_border(focused: bool, t: &Theme) -> (r: (Color, bool))
    ensures
        r == panel_border_spec(focused, *t),
{
    if focused {
        (t.accent, true)
    } else {
        (t.muted, false)
    }
}

/// A panel's title line: name, count (`visible/total` under a filter),
/// extra spans, the number of changed items, and the filter.
pub open spec fn panel_title_spec(
    title: Seq<char>,
    focused: bool,
    total: nat,
    visible: nat,
    hl: nat,
    filter: Seq<char>,
    t: Theme,
    extra: Seq<(Seq<char>, TextStyle)>,
) -> Seq<(Seq<char>, TextStyle)> {
    seq![
        (
            " "@ + title + " "@,
            bold_fg_style(
                if focused {
                    t.accent
                } else {
                    t.muted
                },
            ),
        ),
        (
            if filter.len() == 0 {
                decimal(total) + " "@
            } else {
                decimal(visible) + "/"@ + decimal(total) + " "@
            },
            fg_style(t.muted),
        ),
    ] + extra + (if hl > 0 {
        seq![("●"@ + decimal(hl) + " "@, bold_fg_style(t.highlight))]
    } else {
        Seq::empty()
    }) + (if filter.len() > 0 {
        seq![("🔍"@ + filter + " "@, bold_fg_style(t.warning))]
    } else {
        Seq::empty()
    })
}

pub fn panel_title(
    title: &str,
    focused: bool,
    total: usize,
    visible: usize,
    hl: usize,
    filter: &str,
    t: &Theme,
    extra: Vec<TextSpan>,
) -> (l: TextLine)
    ensures
        spans_view(l.spans@) == panel_title_spec(
            title@,
            focused,
            total as nat,
            visible as nat,
            hl as nat,
            filter@,
            *t,
            spans_view(extra@),
        ),
        l.style == plain_style(),
{
    let mut name = owned(" ");
    push_str(&mut name, title);
    push_str(&mut name, " ");
    let name_s = mk_span(
        name,
        style_bold_fg(
            if focused {
                t.accent
            } else {
                t.muted
            },
        ),
    );
    let count = if filter.is_empty() {
        let mut c = usize_to_string(total);
        push_str(&mut c, " ");
        c
    } else {
        let mut c = usize_to_string(visible);
        push_str(&mut c, "/");
        push_str(&mut c, usize_to_string(total).as_str());
        push_str(&mut c, " ");
        c
    };
    let mut spans = vec![name_s, mk_span(count, style_fg(t.muted))];
    let ghost head = spans_view(spans@);
    let mut extra = extra;
    let ghost ev = spans_view(extra@);
    spans.append(&mut extra);
    assert(spans_view(spans@) =~= head + ev);
    if hl > 0 {
        let mut h = owned("●");
        push_str(&mut h, usize_to_string(hl).as_str());
        push_str(&mut h, " ");
        spans.push(mk_span(h, style_bold_fg(t.highlight)));
    }
    if !filter.is_empty() {
        let mut f = owned("🔍");
        push_str(&mut f, filter);
        push_str(&mut f, " ");
        spans.push(mk_span(f, style_bold_fg(t.warning)));
    }
    let l = mk_line(spans);
    assert(spans_view(l.spans@) =~= panel_title_spec(
        title@,
        focused,
        total as nat,
        visible as nat,
        hl as nat,
        filter@,
        *t,
        ev,
    ));
    l
}

// ─── placeholders ────────────────────────────────────────────────────────────

/// Widths of the loading skeleton's bars.
pub open spec fn skeleton_width(i: int) -> nat {
    if i == 0 {
        20
    } else if i == 1 {
        28
    } else if i == 2 {
        15
    } else if i == 3 {
        24
    } else if i == 4 {
        18
    } else {
        26
    }
}

/// One single-span line.
pub open spec fn one_span_line(text: Seq<char>, style: TextStyle) -> (Seq<(Seq<char>, TextStyle)>, TextStyle) {
    (seq![(text, style)], plain_style())
}

/// What a panel shows instead of its list: the error (`⚠` on its first
/// line, one line per line), a loading skeleton, or the empty note; nothing
/// when there are items to show.
pub open spec fn placeholder_spec(
    loaded: bool,
    err: Option<Seq<char>>,
    empty: bool,
    filtered: bool,
    lang: Lang,
    t: Theme,
) -> Option<Seq<(Seq<(Seq<char>, TextStyle)>, TextStyle)>> {
    match err {
        Some(e) => Some(
            lines_seq("⚠ "@ + e).map_values(|l: Seq<char>| one_span_line(l, fg_style(t.error))),
        ),
        None => if !loaded {
            Some(
                Seq::new(
                    6,
                    |i: int| one_span_line(repeat_seq("░"@, skeleton_width(i)), fg_style(t.muted)),
                ),
            )
        } else if empty {
            Some(
                seq![
                    one_span_line(
                        if filtered {
                            i18n::filtered_empty_text(lang)
                        } else {
                            i18n::empty_text(lang)
                        },
                        fg_style(t.muted),
                    ),
                ],
            )
        } else {
            None
        },
    }
}

fn single_line(text: String, style: TextStyle) -> (l: TextLine)
    ensures
        line_view(l) == one_span_line(text@, style),
{
    let l = mk_line(vec![mk_span(text, style)]);
    assert(spans_view(l.spans@) =~= seq![(text@, style)]);
    l
}

pub fn placeholder(
    loaded: bool,
    err: &Option<String>,
    empty: bool,
    filtered: bool,
    lang: Lang,
    t: &Theme,
) -> (r: Option<Vec<TextLine>>)
    ensures
        match r {
            Some(ls) => placeholder_spec(loaded, opt_text(*err), empty, filtered, lang, *t)
                == Some(lines_view(ls@)),
            None => placeholder_spec(loaded, opt_text(*err), empty, filtered, lang, *t) is None,
        },
{
    match err {
        Some(e) => {
            let mut msg = owned("⚠ ");
            push_str(&mut msg, e.as_str());
            let ls = lines(msg.as_str());
            let ghost lv = ls.deep_view();
            let mut out: Vec<TextLine> = Vec::new();
            let mut i: usize = 0;
            while i < ls.len()
                invariant
                    i <= ls@.len(),
                    lv == ls.deep_view(),
                    lines_view(out@) == lv.take(i as int).map_values(
                        |l: Seq<char>| one_span_line(l, fg_style(t.error)),
                    ),
                decreases ls@.len() - i,
            {
                let ghost before = lines_view(out@);
                out.push(single_line(owned(ls[i].as_str()), style_fg(t.error)));
                assert(lines_view(out@) =~= before.push(one_span_line(ls@[i as int]@, fg_style(t.error))));
                assert(lv.take(i + 1) =~= lv.take(i as int).push(ls@[i as int]@));
                assert(lines_view(out@) =~= lv.take(i + 1).map_values(
                    |l: Seq<char>| one_span_line(l, fg_style(t.error)),
                ));
                i += 1;
            }
            assert(lv.take(i as int) =~= lv);
            Some(out)
        },
        None => if !loaded {
            let mut out: Vec<TextLine> = Vec::new();
            out.push(single_line(repeat_str("░", 20), style_fg(t.muted)));
            out.push(single_line(repeat_str("░", 28), style_fg(t.muted)));
            out.push(single_line(repeat_str("░", 15), style_fg(t.muted)));
            out.push(single_line(repeat_str("░", 24), style_fg(t.muted)));
            out.push(single_line(repeat_str("░", 18), style_fg(t.muted)));
            out.push(single_line(repeat_str("░", 26), style_fg(t.muted)));
            assert(lines_view(out@) =~= Seq::new(
                6,
                |i: int| one_span_line(repeat_seq("░"@, skeleton_width(i)), fg_style(t.muted)),
            ));
            Some(out)
        } else if empty {
            let text = if filtered {
                i18n::filtered_empty(lang)
            } else {
                i18n::empty(lang)
            };
            let out = vec![single_line(owned(text), style_fg(t.muted))];
            assert(lines_view(out@) =~= seq![
                one_span_line(
                    if filtered {
                        i18n::filtered_empty_text(lang)
                    } else {
                        i18n::empty_text(lang)
                    },
                    fg_style(t.muted),
                ),
            ]);
            Some(out)
        } else {
            None
        },
    }
}

// ─── header ──────────────────────────────────────────────────────────────────

/// Left side of the header: app name, repository, and a newer version when known.
pub open spec fn header_left_spec(repo: Seq<char>, update: Option<Seq<char>>, lang: Lang, t: Theme) -> Seq<(Seq<char>, TextStyle)> {
    seq![
        (" "@, plain_style()),
        ("◉ argus"@, bold_fg_style(t.accent)),
        ("  "@, plain_style()),
        (repo, bold_fg_style(t.text)),
    ] + match update {
        Some(v) => seq![
            ("  "@, plain_style()),
            (i18n::update_available_text(lang, v), bold_fg_style(t.warning)),
        ],
        None => Seq::empty(),
    }
}

pub fn header_left(app: &App) -> (l: TextLine)
    ensures
        spans_view(l.spans@) == header_left_spec(
            app.repo@,
            opt_text(app.update),
            app.lang,
            app.theme,
        ),
        l.style == plain_style(),
{
    let t = &app.theme;
    let mut spans = vec![
        mk_span(owned(" "), style_plain()),
        mk_span(owned("◉ argus"), style_bold_fg(t.accent)),
        mk_span(owned("  "), style_plain()),
        mk_span(owned(app.repo.as_str()), style_bold_fg(t.text)),
    ];
    if let Some(v) = &app.update {
        spans.push(mk_span(owned("  "), style_plain()));
        spans.push(mk_span(i18n::update_available(app.lang, v.as_str()), style_bold_fg(t.warning)));
    }
    let l = mk_line(spans);
    assert(spans_view(l.spans@) =~= header_left_spec(
        app.repo@,
        opt_text(app.update),
        app.lang,
        app.theme,
    ));
    l
}

/// Right side of the header: spinner while runs are active, last refresh
/// time (or "loading"), and the polling interval.
pub open spec fn header_right_spec(
    active: bool,
    spinner: nat,
    refreshed: Option<Seq<char>>,
    poll_secs: u64,
    lang: Lang,
    t: Theme,
) -> Seq<(Seq<char>, TextStyle)> {
    seq![
        (
            if active {
                spinner_frame_spec(spinner) + " "@
            } else {
                Seq::empty()
            },
            fg_style(t.warning),
        ),
        ("⟳ "@, fg_style(t.muted)),
        (
            match refreshed {
                Some(r) => r,
                None => i18n::loading_short_text(lang),
            },
            fg_style(t.muted),
        ),
        ("  ·  "@, fg_style(t.muted)),
        (decimal(poll_secs as nat) + "s"@, bold_fg_style(t.accent)),
        (i18n::poll_suffix_text(lang), fg_style(t.muted)),
    ]
}

pub fn header_right(app: &App) -> (l: TextLine)
    ensures
        spans_view(l.spans@) == header_right_spec(
            app.has_active_runs_spec(),
            app.spinner as nat,
            opt_text(app.last_refresh),
            app.poll_secs,
            app.lang,
            app.theme,
        ),
        l.style == plain_style(),
{
    let t = &app.theme;
    let spin = if app.has_active_runs() {
        let mut s = owned(spinner_frame(app.spinner));
        push_str(&mut s, " ");
        s
    } else {
        String::new()
    };
    let refreshed = match &app.last_refresh {
        Some(r) => owned(r.as_str()),
        None => owned(i18n::loading_short(app.lang)),
    };
    let mut poll = u64_to_string(app.poll_secs);
    push_str(&mut poll, "s");
    let spans = vec![
        mk_span(spin, style_fg(t.warning)),
        mk_span(owned("⟳ "), style_fg(t.muted)),
        mk_span(refreshed, style_fg(t.muted)),
        mk_span(owned("  ·  "), style_fg(t.muted)),
        mk_span(poll, style_bold_fg(t.accent)),
        mk_span(owned(i18n::poll_suffix(app.lang)), style_fg(t.muted)),
    ];
    let l = mk_line(spans);
    assert(spans_view(l.spans@) =~= header_right_spec(
        app.has_active_runs_spec(),
        app.spinner as nat,
        opt_text(app.last_refresh),
        app.poll_secs,
        app.lang,
        app.theme,
    ));
    l
}

// ─── footer ──────────────────────────────────────────────────────────────────

/// The search input line: prompt, typed text, cursor, confirm hint.
pub open spec fn search_line_spec(buffer: Seq<char>, lang: Lang, t: Theme) -> Seq<(Seq<char>, TextStyle)> {
    seq![
        (" 🔍 /"@, bold_fg_style(t.warning)),
        (buffer, fg_style(t.text)),
        ("▏"@, bold_fg_style(t.warning)),
        (i18n::search_confirm_hint_text(lang), fg_style(t.muted)),
    ]
}

/// A key hint: the key (upper case) then what it does.
pub open spec fn hint_spans(key: Seq<char>, what: Seq<char>, t: Theme) -> Seq<(Seq<char>, TextStyle)> {
    seq![(" "@ + key, bold_fg_style(t.accent)), (" "@ + what, fg_style(t.muted))]
}

/// The key hints, then the number of changed items when there are any.
pub open spec fn footer_spec(changed: nat, lang: Lang, t: Theme) -> Seq<(Seq<char>, TextStyle)> {
    hint_spans("TAB"@, i18n::key_panels_text(lang), t) + hint_spans(
        "↑/↓"@,
        i18n::key_scroll_text(lang),
        t,
    ) + hint_spans("/"@, i18n::key_search_text(lang), t) + hint_spans(
        "↵"@,
        i18n::key_open_text(lang),
        t,
    ) + hint_spans("V"@, i18n::key_preview_text(lang), t) + hint_spans(
        "R"@,
        i18n::key_refresh_text(lang),
        t,
    ) + hint_spans("+/-"@, i18n::key_interval_text(lang), t) + hint_spans(
        "Q"@,
        i18n::key_quit_text(lang),
        t,
    ) + if changed > 0 {
        seq![(i18n::changed_text(lang, changed), bold_fg_style(t.highlight))]
    } else {
        Seq::empty()
    }
}

/// Changed items over the runs, PR, issue and commit panels.
pub open spec fn changed_total_spec(app: App) -> nat {
    app.runs.highlighted@.len() + app.prs.highlighted@.len() + app.issues.highlighted@.len()
        + app.commits.highlighted@.len()
}

fn push_hint(spans: &mut Vec<TextSpan>, key: &str, what: &str, t: &Theme)
    ensures
        spans_view(final(spans)@) == spans_view(old(spans)@) + hint_spans(key@, what@, *t),
{
    let mut k = owned(" ");
    push_str(&mut k, key);
    let mut w = owned(" ");
    push_str(&mut w, what);
    let ghost before = spans_view(spans@);
    spans.push(mk_span(k, style_bold_fg(t.accent)));
    spans.push(mk_span(w, style_fg(t.muted)));
    assert(spans_view(spans@) =~= before + hint_spans(key@, what@, *t));
}

/// The footer: the search line while searching, else the key hints.
pub fn footer_line(app: &App) -> (l: TextLine)
    requires
        changed_total_spec(*app) <= usize::MAX,
    ensures
        spans_view(l.spans@) == if app.search_active {
            search_line_spec(app.search_buffer@, app.lang, app.theme)
        } else {
            footer_spec(changed_total_spec(*app), app.lang, app.theme)
        },
        l.style == plain_style(),
{
    let t = &app.theme;
    let lang = app.lang;
    if app.search_active {
        let spans = vec![
            mk_span(owned(" 🔍 /"), style_bold_fg(t.warning)),
            mk_span(owned(app.search_buffer.as_str()), style_fg(t.text)),
            mk_span(owned("▏"), style_bold_fg(t.warning)),
            mk_span(owned(i18n::search_confirm_hint(lang)), style_fg(t.muted)),
        ];
        let l = mk_line(spans);
        assert(spans_view(l.spans@) =~= search_line_spec(app.search_buffer@, app.lang, app.theme));
        return l;
    }
    let mut spans: Vec<TextSpan> = Vec::new();
    push_hint(&mut spans, "TAB", i18n::key_panels(lang), t);
    push_hint(&mut spans, "↑/↓", i18n::key_scroll(lang), t);
    push_hint(&mut spans, "/", i18n::key_search(lang), t);
    push_hint(&mut spans, "↵", i18n::key_open(lang), t);
    push_hint(&mut spans, "V", i18n::key_preview(lang), t);
    push_hint(&mut spans, "R", i18n::key_refresh(lang), t);
    push_hint(&mut spans, "+/-", i18n::key_interval(lang), t);
    push_hint(&mut spans, "Q", i18n::key_quit(lang), t);
    let total = app.runs.highlight_count() + app.prs.highlight_count()
        + app.issues.highlight_count() + app.commits.highlight_count();
    if total > 0 {
        spans.push(mk_span(i18n::changed(lang, total), style_bold_fg(t.highlight)));
    }
    let l = mk_line(spans);
    assert(spans_view(l.spans@) =~= footer_spec(changed_total_spec(*app), app.lang, app.theme));
    l
}

// ─── detail modal ────────────────────────────────────────────────────────────

/// The modal's title: spinner while loading, spinner and `LIVE` while
/// following, the item title cut to `max` characters.
pub open spec fn modal_title_spec(loading: bool, following: bool, title: Seq<char>, spin: Seq<char>, max: nat) -> Seq<char> {
    if loading {
        " "@ + spin + " "@ + truncate_spec(title, max) + " "@
    } else if following {
        " "@ + spin + " LIVE · "@ + truncate_spec(title, max) + " "@
    } else {
        " "@ + truncate_spec(title, max) + " "@
    }
}

pub fn modal_title(d: &Detail, spin: &str, area_width: u16) -> (r: String)
    ensures
        r@ == modal_title_spec(
            d.loading,
            d.following,
            d.title@,
            spin@,
            (if area_width >= 16 {
                area_width - 16
            } else {
                0
            }) as nat,
        ),
{
    let max: usize = if area_width >= 16 {
        (area_width - 16) as usize
    } else {
        0
    };
    let t = truncate(d.title.as_str(), max);
    let mut s = owned(" ");
    if d.loading {
        push_str(&mut s, spin);
        push_str(&mut s, " ");
    } else if d.following {
        push_str(&mut s, spin);
        push_str(&mut s, " LIVE · ");
    }
    push_str(&mut s, t.as_str());
    push_str(&mut s, " ");
    s
}

/// Accent of the modal frame: success while following, else the accent color.
pub fn modal_accent(d: &Detail, t: &Theme) -> (c: Color)
    ensures
        c == (if d.following {
            t.success
        } else {
            t.accent
        }),
{
    if d.following {
        t.success
    } else {
        t.accent
    }
}

/// Bottom hint of the modal: runs have extra keys (tree/log view).
pub fn modal_hint(d: &Detail, lang: Lang) -> (r: &'static str)
    ensures
        r@ == (if d.kind is Run {
            i18n::modal_hint_run_text(lang)
        } else {
            i18n::modal_hint_other_text(lang)
        }),
{
    match &d.kind {
        DetailKind::Run { .. } => i18n::modal_hint_run(lang),
        _ => i18n::modal_hint_other(lang),
    }
}

/// The scroll offset kept within the wrapped text: at most how far the
/// wrapped line count exceeds the visible height (cut to 16 bits).
pub open spec fn clamp_scroll_spec(scroll: u16, total: nat, inner_h: nat) -> u16 {
    let over: nat = if total >= inner_h {
        (total - inner_h) as nat
    } else {
        0
    };
    let cap: u16 = (over % 65536) as u16;
    if scroll < cap {
        scroll
    } else {
        cap
    }
}

pub fn clamp_scroll(scroll: u16, total: usize, inner_h: usize) -> (r: u16)
    ensures
        r == clamp_scroll_spec(scroll, total as nat, inner_h as nat),
{
    let over = total.saturating_sub(inner_h);
    let cap: u16 = (over % 65536) as u16;
    if scroll < cap {
        scroll
    } else {
        cap
    }
}

// ─── run completion ──────────────────────────────────────────────────────────

/// Runs that completed, and runs that failed.
pub open spec fn completed_count(runs: Seq<Run>) -> nat
    decreases runs.len(),
{
    if runs.len() == 0 {
        0
    } else {
        completed_count(runs.drop_last()) + if runs.last().status@ == "completed"@ {
            1nat
        } else {
            0nat
        }
    }
}

pub open spec fn failed_count(runs: Seq<Run>) -> nat
    decreases runs.len(),
{
    if runs.len() == 0 {
        0
    } else {
        failed_count(runs.drop_last()) + if is_failure_spec(opt_text(runs.last().conclusion)) {
            1nat
        } else {
            0nat
        }
    }
}

/// `(completed, failed)` over the runs (the completion bar and failure badge).
pub fn run_counts(runs: &Vec<Run>) -> (r: (usize, usize))
    ensures
        r.0 == completed_count(runs@),
        r.1 == failed_count(runs@),
        r.0 <= runs@.len(),
{
    let mut done: usize = 0;
    let mut failed: usize = 0;
    let mut i: usize = 0;
    while i < runs.len()
        invariant
            i <= runs@.len(),
            done == completed_count(runs@.take(i as int)),
            failed == failed_count(runs@.take(i as int)),
            done <= i,
            failed <= i,
        decreases runs@.len() - i,
    {
        assert(runs@.take(i + 1).drop_last() =~= runs@.take(i as int));
        if str_eq(runs[i].status.as_str(), "completed") {
            done += 1;
        }
        if is_failure(opt_str(&runs[i].conclusion)) {
            failed += 1;
        }
        i += 1;
    }
    assert(runs@.take(i as int) =~= runs@);
    (done, failed)
}

} // verus!
