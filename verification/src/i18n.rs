//! UI text in English and Korean. Each message has a spec (`<name>_text`)
//! naming its exact wording per language and an accessor that returns it.
use vstd::prelude::*;
use crate::text::{
    decimal, owned, push_str, spec_lowercase, starts_with, starts_with_seq, to_lowercase, trim,
    trim_seq, u64_to_string, usize_to_string,
};

verus! {

/// UI language.
#[derive(Clone, Copy, PartialEq, Eq, Debug, Structural)]
pub enum Lang {
    En,
    Ko,
}

impl Lang {
    /// A lowercased name: `ko…` is Korean, `en…` English.
    pub open spec fn from_lowered_spec(t: Seq<char>) -> Option<Lang> {
        if starts_with_seq(t, "ko"@) {
            Some(Lang::Ko)
        } else if starts_with_seq(t, "en"@) {
            Some(Lang::En)
        } else {
            None
        }
    }

    /// Loose name/locale parse of the trimmed, lowercased text.
    pub open spec fn from_name_spec(s: Seq<char>) -> Option<Lang> {
        Lang::from_lowered_spec(spec_lowercase(trim_seq(s)))
    }

    /// The language of a lowercased name.
    pub fn from_lowered(t: &str) -> (r: Option<Lang>)
        ensures
            r == Lang::from_lowered_spec(t@),
    {
        if starts_with(t, "ko") {
            Some(Lang::Ko)
        } else if starts_with(t, "en") {
            Some(Lang::En)
        } else {
            None
        }
    }

    /// `ko*`/`korean` → Ko, `en*`/`english` → En, anything else → None.
    /// Handles locale forms like `ko_KR.UTF-8`.
    pub fn from_name(s: &str) -> (r: Option<Lang>)
        ensures
            r == Lang::from_name_spec(s@),
    {
        let t = to_lowercase(trim(s).as_str());
        Lang::from_lowered(t.as_str())
    }

    /// Parse of an optional name (`None` stays `None`).
    pub open spec fn from_opt_spec(s: Option<Seq<char>>) -> Option<Lang> {
        match s {
            Some(t) => Lang::from_name_spec(t),
            None => None,
        }
    }

    fn from_opt(s: Option<&str>) -> (r: Option<Lang>)
        ensures
            r == Lang::from_opt_spec(
                match s {
                    Some(t) => Some(t@),
                    None => None,
                },
            ),
    {
        match s {
            Some(t) => Lang::from_name(t),
            None => None,
        }
    }

    /// First recognised source in priority order, English when none is.
    pub open spec fn resolve_spec(
        cli: Option<Seq<char>>,
        cfg: Option<Seq<char>>,
        env: LocaleEnvView,
    ) -> Lang {
        if Lang::from_opt_spec(cli) is Some {
            Lang::from_opt_spec(cli)->0
        } else if Lang::from_opt_spec(env.argus_lang) is Some {
            Lang::from_opt_spec(env.argus_lang)->0
        } else if Lang::from_opt_spec(cfg) is Some {
            Lang::from_opt_spec(cfg)->0
        } else if Lang::from_opt_spec(env.lc_all) is Some {
            Lang::from_opt_spec(env.lc_all)->0
        } else if Lang::from_opt_spec(env.lc_messages) is Some {
            Lang::from_opt_spec(env.lc_messages)->0
        } else if Lang::from_opt_spec(env.lang) is Some {
            Lang::from_opt_spec(env.lang)->0
        } else {
            Lang::En
        }
    }

    /// Resolve the language: `--lang` > `ARGUS_LANG` > config `lang` > system
    /// locale (`LC_ALL`/`LC_MESSAGES`/`LANG`) > English. The environment is
    /// read by the caller and handed in as `env`.
    pub fn resolve(cli: Option<&str>, cfg: Option<&str>, env: &LocaleEnv) -> (r: Lang)
        ensures
            r == Lang::resolve_spec(opt_view(cli), opt_view(cfg), env.view()),
    {
        if let Some(l) = Lang::from_opt(cli) {
            return l;
        }
        if let Some(l) = Lang::from_opt(opt_as_str(&env.argus_lang)) {
            return l;
        }
        if let Some(l) = Lang::from_opt(cfg) {
            return l;
        }
        if let Some(l) = Lang::from_opt(opt_as_str(&env.lc_all)) {
            return l;
        }
        if let Some(l) = Lang::from_opt(opt_as_str(&env.lc_messages)) {
            return l;
        }
        if let Some(l) = Lang::from_opt(opt_as_str(&env.lang)) {
            return l;
        }
        Lang::En
    }
}

/// The view of an optional string slice.
pub open spec fn opt_view(s: Option<&str>) -> Option<Seq<char>> {
    match s {
        Some(t) => Some(t@),
        None => None,
    }
}

/// The view of an optional owned string.
pub open spec fn opt_string_view(s: Option<String>) -> Option<Seq<char>> {
    match s {
        Some(t) => Some(t@),
        None => None,
    }
}

pub fn opt_as_str(s: &Option<String>) -> (r: Option<&str>)
    ensures
        opt_view(r) == opt_string_view(*s),
{
    match s {
        Some(t) => Some(t.as_str()),
        None => None,
    }
}

/// Locale-related environment variables, as read by the caller.
pub struct LocaleEnv {
    pub argus_lang: Option<String>,
    pub lc_all: Option<String>,
    pub lc_messages: Option<String>,
    pub lang: Option<String>,
}

pub struct LocaleEnvView {
    pub argus_lang: Option<Seq<char>>,
    pub lc_all: Option<Seq<char>>,
    pub lc_messages: Option<Seq<char>>,
    pub lang: Option<Seq<char>>,
}

impl View for LocaleEnv {
    type V = LocaleEnvView;

    open spec fn view(&self) -> LocaleEnvView {
        LocaleEnvView {
            argus_lang: opt_string_view(self.argus_lang),
            lc_all: opt_string_view(self.lc_all),
            lc_messages: opt_string_view(self.lc_messages),
            lang: opt_string_view(self.lang),
        }
    }
}

pub open spec fn empty_text(lang: Lang) -> Seq<char> {
    match lang {
        Lang::En => "no items"@,
        Lang::Ko => "항목 없음"@,
    }
}

pub fn empty(lang: Lang) -> (r: &'static str)
    ensures
        r@ == empty_text(lang),
{
    match lang {
        Lang::En => "no items",
        Lang::Ko => "항목 없음",
    }
}

pub open spec fn filtered_empty_text(lang: Lang) -> Seq<char> {
    match lang {
        Lang::En => "🔍 no matching items"@,
        Lang::Ko => "🔍 일치하는 항목 없음"@,
    }
}

pub fn filtered_empty(lang: Lang) -> (r: &'static str)
    ensures
        r@ == filtered_empty_text(lang),
{
    match lang {
        Lang::En => "🔍 no matching items",
        Lang::Ko => "🔍 일치하는 항목 없음",
    }
}

pub open spec fn loading_text(lang: Lang) -> Seq<char> {
    match lang {
        Lang::En => "loading…"@,
        Lang::Ko => "불러오는 중…"@,
    }
}

pub fn loading(lang: Lang) -> (r: &'static str)
    ensures
        r@ == loading_text(lang),
{
    match lang {
        Lang::En => "loading…",
        Lang::Ko => "불러오는 중…",
    }
}

pub open spec fn loading_short_text(lang: Lang) -> Seq<char> {
    match lang {
        Lang::En => "loading…"@,
        Lang::Ko => "로딩 중…"@,
    }
}

pub fn loading_short(lang: Lang) -> (r: &'static str)
    ensures
        r@ == loading_short_text(lang),
{
    match lang {
        Lang::En => "loading…",
        Lang::Ko => "로딩 중…",
    }
}

pub open spec fn poll_suffix_text(lang: Lang) -> Seq<char> {
    match lang {
        Lang::En => " poll "@,
        Lang::Ko => " 주기 "@,
    }
}

pub fn poll_suffix(lang: Lang) -> (r: &'static str)
    ensures
        r@ == poll_suffix_text(lang),
{
    match lang {
        Lang::En => " poll ",
        Lang::Ko => " 주기 ",
    }
}

pub open spec fn search_confirm_hint_text(lang: Lang) -> Seq<char> {
    match lang {
        Lang::En => "   Enter confirm · Esc cancel "@,
        Lang::Ko => "   Enter 확정 · Esc 취소 "@,
    }
}

pub fn search_confirm_hint(lang: Lang) -> (r: &'static str)
    ensures
        r@ == search_confirm_hint_text(lang),
{
    match lang {
        Lang::En => "   Enter confirm · Esc cancel ",
        Lang::Ko => "   Enter 확정 · Esc 취소 ",
    }
}

pub open spec fn key_panels_text(lang: Lang) -> Seq<char> {
    match lang {
        Lang::En => "panels"@,
        Lang::Ko => "패널"@,
    }
}

pub fn key_panels(lang: Lang) -> (r: &'static str)
    ensures
        r@ == key_panels_text(lang),
{
    match lang {
        Lang::En => "panels",
        Lang::Ko => "패널",
    }
}

pub open spec fn key_scroll_text(lang: Lang) -> Seq<char> {
    match lang {
        Lang::En => "scroll"@,
        Lang::Ko => "스크롤"@,
    }
}

pub fn key_scroll(lang: Lang) -> (r: &'static str)
    ensures
        r@ == key_scroll_text(lang),
{
    match lang {
        Lang::En => "scroll",
        Lang::Ko => "스크롤",
    }
}

pub open spec fn key_search_text(lang: Lang) -> Seq<char> {
    match lang {
        Lang::En => "search"@,
        Lang::Ko => "검색"@,
    }
}

pub fn key_search(lang: Lang) -> (r: &'static str)
    ensures
        r@ == key_search_text(lang),
{
    match lang {
        Lang::En => "search",
        Lang::Ko => "검색",
    }
}

pub open spec fn key_open_text(lang: Lang) -> Seq<char> {
    match lang {
        Lang::En => "open"@,
        Lang::Ko => "열기"@,
    }
}

pub fn key_open(lang: Lang) -> (r: &'static str)
    ensures
        r@ == key_open_text(lang),
{
    match lang {
        Lang::En => "open",
        Lang::Ko => "열기",
    }
}

pub open spec fn key_preview_text(lang: Lang) -> Seq<char> {
    match lang {
        Lang::En => "preview"@,
        Lang::Ko => "미리보기"@,
    }
}

pub fn key_preview(lang: Lang) -> (r: &'static str)
    ensures
        r@ == key_preview_text(lang),
{
    match lang {
        Lang::En => "preview",
        Lang::Ko => "미리보기",
    }
}

pub open spec fn key_refresh_text(lang: Lang) -> Seq<char> {
    match lang {
        Lang::En => "refresh"@,
        Lang::Ko => "새로고침"@,
    }
}

pub fn key_refresh(lang: Lang) -> (r: &'static str)
    ensures
        r@ == key_refresh_text(lang),
{
    match lang {
        Lang::En => "refresh",
        Lang::Ko => "새로고침",
    }
}

pub open spec fn key_interval_text(lang: Lang) -> Seq<char> {
    match lang {
        Lang::En => "interval"@,
        Lang::Ko => "주기"@,
    }
}

pub fn key_interval(lang: Lang) -> (r: &'static str)
    ensures
        r@ == key_interval_text(lang),
{
    match lang {
        Lang::En => "interval",
        Lang::Ko => "주기",
    }
}

pub open spec fn key_quit_text(lang: Lang) -> Seq<char> {
    match lang {
        Lang::En => "quit"@,
        Lang::Ko => "종료"@,
    }
}

pub fn key_quit(lang: Lang) -> (r: &'static str)
    ensures
        r@ == key_quit_text(lang),
{
    match lang {
        Lang::En => "quit",
        Lang::Ko => "종료",
    }
}

pub open spec fn changed_text(lang: Lang, total: nat) -> Seq<char> {
    match lang {
        Lang::En => "   ● "@ + decimal(total) + " changed "@,
        Lang::Ko => "   ● "@ + decimal(total) + " 변경 "@,
    }
}

pub fn changed(lang: Lang, total: usize) -> (r: String)
    ensures
        r@ == changed_text(lang, total as nat),
{
    match lang {
        Lang::En => {
            let mut s = String::new();
            push_str(&mut s, "   ● ");
            push_str(&mut s, usize_to_string(total).as_str());
            push_str(&mut s, " changed ");
            s
        },
        Lang::Ko => {
            let mut s = String::new();
            push_str(&mut s, "   ● ");
            push_str(&mut s, usize_to_string(total).as_str());
            push_str(&mut s, " 변경 ");
            s
        },
    }
}

pub open spec fn update_available_text(lang: Lang, ver: Seq<char>) -> Seq<char> {
    match lang {
        Lang::En => "⬆ v"@ + ver + " available"@,
        Lang::Ko => "⬆ v"@ + ver + " 사용 가능"@,
    }
}

pub fn update_available(lang: Lang, ver: &str) -> (r: String)
    ensures
        r@ == update_available_text(lang, ver@),
{
    match lang {
        Lang::En => {
            let mut s = String::new();
            push_str(&mut s, "⬆ v");
            push_str(&mut s, ver);
            push_str(&mut s, " available");
            s
        },
        Lang::Ko => {
            let mut s = String::new();
            push_str(&mut s, "⬆ v");
            push_str(&mut s, ver);
            push_str(&mut s, " 사용 가능");
            s
        },
    }
}

pub open spec fn modal_hint_run_text(lang: Lang) -> Seq<char> {
    match lang {
        Lang::En => " ↑/↓ scroll · L logs · O browser · ← close "@,
        Lang::Ko => " ↑/↓ 스크롤 · L 로그 · O 브라우저 · ← 닫기 "@,
    }
}

pub fn modal_hint_run(lang: Lang) -> (r: &'static str)
    ensures
        r@ == modal_hint_run_text(lang),
{
    match lang {
        Lang::En => " ↑/↓ scroll · L logs · O browser · ← close ",
        Lang::Ko => " ↑/↓ 스크롤 · L 로그 · O 브라우저 · ← 닫기 ",
    }
}

pub open spec fn modal_hint_other_text(lang: Lang) -> Seq<char> {
    match lang {
        Lang::En => " ↑/↓·PgUp/PgDn scroll · O browser · ← close "@,
        Lang::Ko => " ↑/↓·PgUp/PgDn 스크롤 · O 브라우저 · ← 닫기 "@,
    }
}

pub fn modal_hint_other(lang: Lang) -> (r: &'static str)
    ensures
        r@ == modal_hint_other_text(lang),
{
    match lang {
        Lang::En => " ↑/↓·PgUp/PgDn scroll · O browser · ← close ",
        Lang::Ko => " ↑/↓·PgUp/PgDn 스크롤 · O 브라우저 · ← 닫기 ",
    }
}

pub open spec fn jobs_count_text(lang: Lang, n: nat) -> Seq<char> {
    match lang {
        Lang::En => decimal(n) + " jobs"@,
        Lang::Ko => "잡 "@ + decimal(n),
    }
}

pub fn jobs_count(lang: Lang, n: usize) -> (r: String)
    ensures
        r@ == jobs_count_text(lang, n as nat),
{
    match lang {
        Lang::En => {
            let mut s = String::new();
            push_str(&mut s, usize_to_string(n).as_str());
            push_str(&mut s, " jobs");
            s
        },
        Lang::Ko => {
            let mut s = String::new();
            push_str(&mut s, "잡 ");
            push_str(&mut s, usize_to_string(n).as_str());
            s
        },
    }
}

pub open spec fn n_success_text(lang: Lang, n: nat) -> Seq<char> {
    match lang {
        Lang::En => "✓"@ + decimal(n) + " success"@,
        Lang::Ko => "✓"@ + decimal(n) + " 성공"@,
    }
}

pub fn n_success(lang: Lang, n: usize) -> (r: String)
    ensures
        r@ == n_success_text(lang, n as nat),
{
    match lang {
        Lang::En => {
            let mut s = String::new();
            push_str(&mut s, "✓");
            push_str(&mut s, usize_to_string(n).as_str());
            push_str(&mut s, " success");
            s
        },
        Lang::Ko => {
            let mut s = String::new();
            push_str(&mut s, "✓");
            push_str(&mut s, usize_to_string(n).as_str());
            push_str(&mut s, " 성공");
            s
        },
    }
}

pub open spec fn n_failure_text(lang: Lang, n: nat) -> Seq<char> {
    match lang {
        Lang::En => "✗"@ + decimal(n) + " failure"@,
        Lang::Ko => "✗"@ + decimal(n) + " 실패"@,
    }
}

pub fn n_failure(lang: Lang, n: usize) -> (r: String)
    ensures
        r@ == n_failure_text(lang, n as nat),
{
    match lang {
        Lang::En => {
            let mut s = String::new();
            push_str(&mut s, "✗");
            push_str(&mut s, usize_to_string(n).as_str());
            push_str(&mut s, " failure");
            s
        },
        Lang::Ko => {
            let mut s = String::new();
            push_str(&mut s, "✗");
            push_str(&mut s, usize_to_string(n).as_str());
            push_str(&mut s, " 실패");
            s
        },
    }
}

pub open spec fn n_skipped_text(lang: Lang, n: nat) -> Seq<char> {
    match lang {
        Lang::En => "⊝"@ + decimal(n) + " skipped"@,
        Lang::Ko => "⊝"@ + decimal(n) + " 스킵"@,
    }
}

pub fn n_skipped(lang: Lang, n: usize) -> (r: String)
    ensures
        r@ == n_skipped_text(lang, n as nat),
{
    match lang {
        Lang::En => {
            let mut s = String::new();
            push_str(&mut s, "⊝");
            push_str(&mut s, usize_to_string(n).as_str());
            push_str(&mut s, " skipped");
            s
        },
        Lang::Ko => {
            let mut s = String::new();
            push_str(&mut s, "⊝");
            push_str(&mut s, usize_to_string(n).as_str());
            push_str(&mut s, " 스킵");
            s
        },
    }
}

pub open spec fn n_cancelled_text(lang: Lang, n: nat) -> Seq<char> {
    match lang {
        Lang::En => "⊘"@ + decimal(n) + " cancelled"@,
        Lang::Ko => "⊘"@ + decimal(n) + " 취소"@,
    }
}

pub fn n_cancelled(lang: Lang, n: usize) -> (r: String)
    ensures
        r@ == n_cancelled_text(lang, n as nat),
{
    match lang {
        Lang::En => {
            let mut s = String::new();
            push_str(&mut s, "⊘");
            push_str(&mut s, usize_to_string(n).as_str());
            push_str(&mut s, " cancelled");
            s
        },
        Lang::Ko => {
            let mut s = String::new();
            push_str(&mut s, "⊘");
            push_str(&mut s, usize_to_string(n).as_str());
            push_str(&mut s, " 취소");
            s
        },
    }
}

pub open spec fn log_view_hint_text(lang: Lang) -> Seq<char> {
    match lang {
        Lang::En => "L: full per-step log view"@,
        Lang::Ko => "L: 스텝별 전체 로그 보기"@,
    }
}

pub fn log_view_hint(lang: Lang) -> (r: &'static str)
    ensures
        r@ == log_view_hint_text(lang),
{
    match lang {
        Lang::En => "L: full per-step log view",
        Lang::Ko => "L: 스텝별 전체 로그 보기",
    }
}

pub open spec fn tree_view_hint_text(lang: Lang) -> Seq<char> {
    match lang {
        Lang::En => "L: switch to tree view"@,
        Lang::Ko => "L: 트리 보기로 전환"@,
    }
}

pub fn tree_view_hint(lang: Lang) -> (r: &'static str)
    ensures
        r@ == tree_view_hint_text(lang),
{
    match lang {
        Lang::En => "L: switch to tree view",
        Lang::Ko => "L: 트리 보기로 전환",
    }
}

pub open spec fn in_progress_auto_text(lang: Lang) -> Seq<char> {
    match lang {
        Lang::En => "● in progress — auto-refreshing…"@,
        Lang::Ko => "● 진행 중 — 자동 갱신 중…"@,
    }
}

pub fn in_progress_auto(lang: Lang) -> (r: &'static str)
    ensures
        r@ == in_progress_auto_text(lang),
{
    match lang {
        Lang::En => "● in progress — auto-refreshing…",
        Lang::Ko => "● 진행 중 — 자동 갱신 중…",
    }
}

pub open spec fn in_progress_log_auto_text(lang: Lang) -> Seq<char> {
    match lang {
        Lang::En => "● in progress — log auto-refreshing…"@,
        Lang::Ko => "● 진행 중 — 로그 자동 갱신 중…"@,
    }
}

pub fn in_progress_log_auto(lang: Lang) -> (r: &'static str)
    ensures
        r@ == in_progress_log_auto_text(lang),
{
    match lang {
        Lang::En => "● in progress — log auto-refreshing…",
        Lang::Ko => "● 진행 중 — 로그 자동 갱신 중…",
    }
}

pub open spec fn progress_line_text(lang: Lang, bar: Seq<char>, done: nat, total: nat, steps: nat) -> Seq<char> {
    match lang {
        Lang::En => "progress "@ + bar + " jobs "@ + decimal(done) + "/"@ + decimal(total) + " · "@ + decimal(steps) + " steps done"@,
        Lang::Ko => "진행률 "@ + bar + " 잡 "@ + decimal(done) + "/"@ + decimal(total) + " · 스텝 "@ + decimal(steps) + " 완료"@,
    }
}

pub fn progress_line(lang: Lang, bar: &str, done: usize, total: usize, steps: usize) -> (r: String)
    ensures
        r@ == progress_line_text(lang, bar@, done as nat, total as nat, steps as nat),
{
    match lang {
        Lang::En => {
            let mut s = String::new();
            push_str(&mut s, "progress ");
            push_str(&mut s, bar);
            push_str(&mut s, " jobs ");
            push_str(&mut s, usize_to_string(done).as_str());
            push_str(&mut s, "/");
            push_str(&mut s, usize_to_string(total).as_str());
            push_str(&mut s, " · ");
            push_str(&mut s, usize_to_string(steps).as_str());
            push_str(&mut s, " steps done");
            s
        },
        Lang::Ko => {
            let mut s = String::new();
            push_str(&mut s, "진행률 ");
            push_str(&mut s, bar);
            push_str(&mut s, " 잡 ");
            push_str(&mut s, usize_to_string(done).as_str());
            push_str(&mut s, "/");
            push_str(&mut s, usize_to_string(total).as_str());
            push_str(&mut s, " · 스텝 ");
            push_str(&mut s, usize_to_string(steps).as_str());
            push_str(&mut s, " 완료");
            s
        },
    }
}

pub open spec fn job_counts_text(lang: Lang, done: nat, active: nat, queued: nat) -> Seq<char> {
    match lang {
        Lang::En => "✓"@ + decimal(done) + " done · ▸"@ + decimal(active) + " running · ◴"@ + decimal(queued) + " queued"@,
        Lang::Ko => "✓"@ + decimal(done) + " 완료 · ▸"@ + decimal(active) + " 진행 · ◴"@ + decimal(queued) + " 대기"@,
    }
}

pub fn job_counts(lang: Lang, done: usize, active: usize, queued: usize) -> (r: String)
    ensures
        r@ == job_counts_text(lang, done as nat, active as nat, queued as nat),
{
    match lang {
        Lang::En => {
            let mut s = String::new();
            push_str(&mut s, "✓");
            push_str(&mut s, usize_to_string(done).as_str());
            push_str(&mut s, " done · ▸");
            push_str(&mut s, usize_to_string(active).as_str());
            push_str(&mut s, " running · ◴");
            push_str(&mut s, usize_to_string(queued).as_str());
            push_str(&mut s, " queued");
            s
        },
        Lang::Ko => {
            let mut s = String::new();
            push_str(&mut s, "✓");
            push_str(&mut s, usize_to_string(done).as_str());
            push_str(&mut s, " 완료 · ▸");
            push_str(&mut s, usize_to_string(active).as_str());
            push_str(&mut s, " 진행 · ◴");
            push_str(&mut s, usize_to_string(queued).as_str());
            push_str(&mut s, " 대기");
            s
        },
    }
}

pub open spec fn failure_log_header_text(lang: Lang) -> Seq<char> {
    match lang {
        Lang::En => "──────── failure log ────────"@,
        Lang::Ko => "──────── 실패 로그 ────────"@,
    }
}

pub fn failure_log_header(lang: Lang) -> (r: &'static str)
    ensures
        r@ == failure_log_header_text(lang),
{
    match lang {
        Lang::En => "──────── failure log ────────",
        Lang::Ko => "──────── 실패 로그 ────────",
    }
}

pub open spec fn no_log_text(lang: Lang) -> Seq<char> {
    match lang {
        Lang::En => "  (no log)"@,
        Lang::Ko => "  (로그 없음)"@,
    }
}

pub fn no_log(lang: Lang) -> (r: &'static str)
    ensures
        r@ == no_log_text(lang),
{
    match lang {
        Lang::En => "  (no log)",
        Lang::Ko => "  (로그 없음)",
    }
}

pub open spec fn timeline_in_progress_text(lang: Lang) -> Seq<char> {
    match lang {
        Lang::En => "  ● in progress — step timeline (switches to full log on completion)"@,
        Lang::Ko => "  ● 진행 중 — 스텝 타임라인(완료 시 전체 로그로 전환)"@,
    }
}

pub fn timeline_in_progress(lang: Lang) -> (r: &'static str)
    ensures
        r@ == timeline_in_progress_text(lang),
{
    match lang {
        Lang::En => "  ● in progress — step timeline (switches to full log on completion)",
        Lang::Ko => "  ● 진행 중 — 스텝 타임라인(완료 시 전체 로그로 전환)",
    }
}

pub open spec fn timeline_waiting_text(lang: Lang) -> Seq<char> {
    match lang {
        Lang::En => "  (waiting for step info…)"@,
        Lang::Ko => "  (스텝 정보 대기 중…)"@,
    }
}

pub fn timeline_waiting(lang: Lang) -> (r: &'static str)
    ensures
        r@ == timeline_waiting_text(lang),
{
    match lang {
        Lang::En => "  (waiting for step info…)",
        Lang::Ko => "  (스텝 정보 대기 중…)",
    }
}

pub open spec fn step_waiting_text(lang: Lang) -> Seq<char> {
    match lang {
        Lang::En => "waiting"@,
        Lang::Ko => "대기"@,
    }
}

pub fn step_waiting(lang: Lang) -> (r: &'static str)
    ensures
        r@ == step_waiting_text(lang),
{
    match lang {
        Lang::En => "waiting",
        Lang::Ko => "대기",
    }
}

pub open spec fn log_not_found_text(lang: Lang) -> Seq<char> {
    match lang {
        Lang::En => "log not found (still preparing or expired)"@,
        Lang::Ko => "로그를 찾을 수 없습니다(아직 준비 중이거나 만료됨)"@,
    }
}

pub fn log_not_found(lang: Lang) -> (r: &'static str)
    ensures
        r@ == log_not_found_text(lang),
{
    match lang {
        Lang::En => "log not found (still preparing or expired)",
        Lang::Ko => "로그를 찾을 수 없습니다(아직 준비 중이거나 만료됨)",
    }
}

pub open spec fn log_fetch_failed_text(lang: Lang, first: Seq<char>) -> Seq<char> {
    match lang {
        Lang::En => "failed to fetch log: "@ + first,
        Lang::Ko => "로그를 가져오지 못함: "@ + first,
    }
}

pub fn log_fetch_failed(lang: Lang, first: &str) -> (r: String)
    ensures
        r@ == log_fetch_failed_text(lang, first@),
{
    match lang {
        Lang::En => {
            let mut s = String::new();
            push_str(&mut s, "failed to fetch log: ");
            push_str(&mut s, first);
            s
        },
        Lang::Ko => {
            let mut s = String::new();
            push_str(&mut s, "로그를 가져오지 못함: ");
            push_str(&mut s, first);
            s
        },
    }
}

pub open spec fn lines_omitted_text(lang: Lang, n: nat) -> Seq<char> {
    match lang {
        Lang::En => "  … ("@ + decimal(n) + " earlier lines omitted) …"@,
        Lang::Ko => "  … (앞부분 "@ + decimal(n) + "줄 생략) …"@,
    }
}

pub fn lines_omitted(lang: Lang, n: usize) -> (r: String)
    ensures
        r@ == lines_omitted_text(lang, n as nat),
{
    match lang {
        Lang::En => {
            let mut s = String::new();
            push_str(&mut s, "  … (");
            push_str(&mut s, usize_to_string(n).as_str());
            push_str(&mut s, " earlier lines omitted) …");
            s
        },
        Lang::Ko => {
            let mut s = String::new();
            push_str(&mut s, "  … (앞부분 ");
            push_str(&mut s, usize_to_string(n).as_str());
            push_str(&mut s, "줄 생략) …");
            s
        },
    }
}

pub open spec fn pipeline_header_text(lang: Lang, build: nat) -> Seq<char> {
    match lang {
        Lang::En => "Pipeline #"@ + decimal(build) + "\nL: switch to tree view\n\n"@,
        Lang::Ko => "Pipeline #"@ + decimal(build) + "\nL: 트리 보기로 전환\n\n"@,
    }
}

pub fn pipeline_header(lang: Lang, build: u64) -> (r: String)
    ensures
        r@ == pipeline_header_text(lang, build as nat),
{
    match lang {
        Lang::En => {
            let mut s = String::new();
            push_str(&mut s, "Pipeline #");
            push_str(&mut s, u64_to_string(build).as_str());
            push_str(&mut s, "\nL: switch to tree view\n\n");
            s
        },
        Lang::Ko => {
            let mut s = String::new();
            push_str(&mut s, "Pipeline #");
            push_str(&mut s, u64_to_string(build).as_str());
            push_str(&mut s, "\nL: 트리 보기로 전환\n\n");
            s
        },
    }
}

pub open spec fn body_none_text(lang: Lang) -> Seq<char> {
    match lang {
        Lang::En => "_(no body)_"@,
        Lang::Ko => "_(본문 없음)_"@,
    }
}

pub fn body_none(lang: Lang) -> (r: &'static str)
    ensures
        r@ == body_none_text(lang),
{
    match lang {
        Lang::En => "_(no body)_",
        Lang::Ko => "_(본문 없음)_",
    }
}

pub open spec fn review_approved_text(lang: Lang) -> Seq<char> {
    match lang {
        Lang::En => "✓ approved"@,
        Lang::Ko => "✓ 승인"@,
    }
}

pub fn review_approved(lang: Lang) -> (r: &'static str)
    ensures
        r@ == review_approved_text(lang),
{
    match lang {
        Lang::En => "✓ approved",
        Lang::Ko => "✓ 승인",
    }
}

pub open spec fn review_changes_text(lang: Lang) -> Seq<char> {
    match lang {
        Lang::En => "✗ changes requested"@,
        Lang::Ko => "✗ 변경요청"@,
    }
}

pub fn review_changes(lang: Lang) -> (r: &'static str)
    ensures
        r@ == review_changes_text(lang),
{
    match lang {
        Lang::En => "✗ changes requested",
        Lang::Ko => "✗ 변경요청",
    }
}

pub open spec fn review_commented_text(lang: Lang) -> Seq<char> {
    match lang {
        Lang::En => "💬 comment"@,
        Lang::Ko => "💬 코멘트"@,
    }
}

pub fn review_commented(lang: Lang) -> (r: &'static str)
    ensures
        r@ == review_commented_text(lang),
{
    match lang {
        Lang::En => "💬 comment",
        Lang::Ko => "💬 코멘트",
    }
}

pub open spec fn review_dismissed_text(lang: Lang) -> Seq<char> {
    match lang {
        Lang::En => "⊘ dismissed"@,
        Lang::Ko => "⊘ 기각"@,
    }
}

pub fn review_dismissed(lang: Lang) -> (r: &'static str)
    ensures
        r@ == review_dismissed_text(lang),
{
    match lang {
        Lang::En => "⊘ dismissed",
        Lang::Ko => "⊘ 기각",
    }
}

pub open spec fn review_other_text(lang: Lang) -> Seq<char> {
    match lang {
        Lang::En => "● review"@,
        Lang::Ko => "● 리뷰"@,
    }
}

pub fn review_other(lang: Lang) -> (r: &'static str)
    ensures
        r@ == review_other_text(lang),
{
    match lang {
        Lang::En => "● review",
        Lang::Ko => "● 리뷰",
    }
}

pub open spec fn comments_header_text(lang: Lang, n: nat) -> Seq<char> {
    match lang {
        Lang::En => "## 💬 Comments ("@ + decimal(n) + ")"@,
        Lang::Ko => "## 💬 코멘트 ("@ + decimal(n) + ")"@,
    }
}

pub fn comments_header(lang: Lang, n: usize) -> (r: String)
    ensures
        r@ == comments_header_text(lang, n as nat),
{
    match lang {
        Lang::En => {
            let mut s = String::new();
            push_str(&mut s, "## 💬 Comments (");
            push_str(&mut s, usize_to_string(n).as_str());
            push_str(&mut s, ")");
            s
        },
        Lang::Ko => {
            let mut s = String::new();
            push_str(&mut s, "## 💬 코멘트 (");
            push_str(&mut s, usize_to_string(n).as_str());
            push_str(&mut s, ")");
            s
        },
    }
}

pub open spec fn comments_sep_text(lang: Lang, n: nat) -> Seq<char> {
    match lang {
        Lang::En => "--- comments "@ + decimal(n) + " ---"@,
        Lang::Ko => "--- 코멘트 "@ + decimal(n) + " ---"@,
    }
}

pub fn comments_sep(lang: Lang, n: usize) -> (r: String)
    ensures
        r@ == comments_sep_text(lang, n as nat),
{
    match lang {
        Lang::En => {
            let mut s = String::new();
            push_str(&mut s, "--- comments ");
            push_str(&mut s, usize_to_string(n).as_str());
            push_str(&mut s, " ---");
            s
        },
        Lang::Ko => {
            let mut s = String::new();
            push_str(&mut s, "--- 코멘트 ");
            push_str(&mut s, usize_to_string(n).as_str());
            push_str(&mut s, " ---");
            s
        },
    }
}

pub open spec fn timeline_header_text(lang: Lang) -> Seq<char> {
    match lang {
        Lang::En => "## 💬 Timeline"@,
        Lang::Ko => "## 💬 타임라인"@,
    }
}

pub fn timeline_header(lang: Lang) -> (r: &'static str)
    ensures
        r@ == timeline_header_text(lang),
{
    match lang {
        Lang::En => "## 💬 Timeline",
        Lang::Ko => "## 💬 타임라인",
    }
}

pub open spec fn path_general_text(lang: Lang) -> Seq<char> {
    match lang {
        Lang::En => "(general)"@,
        Lang::Ko => "(일반)"@,
    }
}

pub fn path_general(lang: Lang) -> (r: &'static str)
    ensures
        r@ == path_general_text(lang),
{
    match lang {
        Lang::En => "(general)",
        Lang::Ko => "(일반)",
    }
}

pub open spec fn code_review_header_text(lang: Lang) -> Seq<char> {
    match lang {
        Lang::En => "## 📄 Code review threads"@,
        Lang::Ko => "## 📄 코드 리뷰 스레드"@,
    }
}

pub fn code_review_header(lang: Lang) -> (r: &'static str)
    ensures
        r@ == code_review_header_text(lang),
{
    match lang {
        Lang::En => "## 📄 Code review threads",
        Lang::Ko => "## 📄 코드 리뷰 스레드",
    }
}

pub open spec fn load_failed_text(lang: Lang, e: Seq<char>) -> Seq<char> {
    match lang {
        Lang::En => "load failed:\n\n"@ + e,
        Lang::Ko => "불러오기 실패:\n\n"@ + e,
    }
}

pub fn load_failed(lang: Lang, e: &str) -> (r: String)
    ensures
        r@ == load_failed_text(lang, e@),
{
    match lang {
        Lang::En => {
            let mut s = String::new();
            push_str(&mut s, "load failed:\n\n");
            push_str(&mut s, e);
            s
        },
        Lang::Ko => {
            let mut s = String::new();
            push_str(&mut s, "불러오기 실패:\n\n");
            push_str(&mut s, e);
            s
        },
    }
}

pub open spec fn install_offer_text(lang: Lang, cli: Seq<char>, pkg: Seq<char>) -> Seq<char> {
    match lang {
        Lang::En => "`"@ + cli + "` is not installed — run `brew install "@ + pkg + "` now?"@,
        Lang::Ko => "`"@ + cli + "` 미설치 — `brew install "@ + pkg + "` 를 지금 실행할까요?"@,
    }
}

pub fn install_offer(lang: Lang, cli: &str, pkg: &str) -> (r: String)
    ensures
        r@ == install_offer_text(lang, cli@, pkg@),
{
    match lang {
        Lang::En => {
            let mut s = String::new();
            push_str(&mut s, "`");
            push_str(&mut s, cli);
            push_str(&mut s, "` is not installed — run `brew install ");
            push_str(&mut s, pkg);
            push_str(&mut s, "` now?");
            s
        },
        Lang::Ko => {
            let mut s = String::new();
            push_str(&mut s, "`");
            push_str(&mut s, cli);
            push_str(&mut s, "` 미설치 — `brew install ");
            push_str(&mut s, pkg);
            push_str(&mut s, "` 를 지금 실행할까요?");
            s
        },
    }
}

pub open spec fn auth_offer_text(lang: Lang, label: Seq<char>) -> Seq<char> {
    match lang {
        Lang::En => label + " is not authenticated — log in now?"@,
        Lang::Ko => label + " 인증이 안 돼 있습니다 — 지금 로그인할까요?"@,
    }
}

pub fn auth_offer(lang: Lang, label: &str) -> (r: String)
    ensures
        r@ == auth_offer_text(lang, label@),
{
    match lang {
        Lang::En => {
            let mut s = String::new();
            push_str(&mut s, label);
            push_str(&mut s, " is not authenticated — log in now?");
            s
        },
        Lang::Ko => {
            let mut s = String::new();
            push_str(&mut s, label);
            push_str(&mut s, " 인증이 안 돼 있습니다 — 지금 로그인할까요?");
            s
        },
    }
}

pub open spec fn auth_skip_text(lang: Lang, cmd: Seq<char>) -> Seq<char> {
    match lang {
        Lang::En => "  (skipped) manual auth: "@ + cmd,
        Lang::Ko => "  (건너뜀) 수동 인증: "@ + cmd,
    }
}

pub fn auth_skip(lang: Lang, cmd: &str) -> (r: String)
    ensures
        r@ == auth_skip_text(lang, cmd@),
{
    match lang {
        Lang::En => {
            let mut s = String::new();
            push_str(&mut s, "  (skipped) manual auth: ");
            push_str(&mut s, cmd);
            s
        },
        Lang::Ko => {
            let mut s = String::new();
            push_str(&mut s, "  (건너뜀) 수동 인증: ");
            push_str(&mut s, cmd);
            s
        },
    }
}

pub open spec fn login_done_text(lang: Lang) -> Seq<char> {
    match lang {
        Lang::En => "✓ logged in"@,
        Lang::Ko => "✓ 로그인 완료"@,
    }
}

pub fn login_done(lang: Lang) -> (r: &'static str)
    ensures
        r@ == login_done_text(lang),
{
    match lang {
        Lang::En => "✓ logged in",
        Lang::Ko => "✓ 로그인 완료",
    }
}

pub open spec fn login_failed_text(lang: Lang, cmd: Seq<char>) -> Seq<char> {
    match lang {
        Lang::En => "⚠ login did not complete — manual: "@ + cmd,
        Lang::Ko => "⚠ 로그인이 완료되지 않았습니다 — 수동: "@ + cmd,
    }
}

pub fn login_failed(lang: Lang, cmd: &str) -> (r: String)
    ensures
        r@ == login_failed_text(lang, cmd@),
{
    match lang {
        Lang::En => {
            let mut s = String::new();
            push_str(&mut s, "⚠ login did not complete — manual: ");
            push_str(&mut s, cmd);
            s
        },
        Lang::Ko => {
            let mut s = String::new();
            push_str(&mut s, "⚠ 로그인이 완료되지 않았습니다 — 수동: ");
            push_str(&mut s, cmd);
            s
        },
    }
}

pub open spec fn ctx_auto_text(lang: Lang, ws: Seq<char>) -> Seq<char> {
    match lang {
        Lang::En => "▸ no active bkt context; auto-configuring (host: api.bitbucket.org · workspace: "@ + ws + ")."@,
        Lang::Ko => "▸ bkt 활성 context가 없어 자동 설정합니다 (host: api.bitbucket.org · workspace: "@ + ws + ")."@,
    }
}

pub fn ctx_auto(lang: Lang, ws: &str) -> (r: String)
    ensures
        r@ == ctx_auto_text(lang, ws@),
{
    match lang {
        Lang::En => {
            let mut s = String::new();
            push_str(&mut s, "▸ no active bkt context; auto-configuring (host: api.bitbucket.org · workspace: ");
            push_str(&mut s, ws);
            push_str(&mut s, ").");
            s
        },
        Lang::Ko => {
            let mut s = String::new();
            push_str(&mut s, "▸ bkt 활성 context가 없어 자동 설정합니다 (host: api.bitbucket.org · workspace: ");
            push_str(&mut s, ws);
            push_str(&mut s, ").");
            s
        },
    }
}

pub open spec fn ctx_created_text(lang: Lang) -> Seq<char> {
    match lang {
        Lang::En => "✓ context 'argus' created and activated"@,
        Lang::Ko => "✓ context 'argus' 생성·활성화"@,
    }
}

pub fn ctx_created(lang: Lang) -> (r: &'static str)
    ensures
        r@ == ctx_created_text(lang),
{
    match lang {
        Lang::En => "✓ context 'argus' created and activated",
        Lang::Ko => "✓ context 'argus' 생성·활성화",
    }
}

pub open spec fn ctx_reused_text(lang: Lang) -> Seq<char> {
    match lang {
        Lang::En => "✓ activated existing context 'argus'"@,
        Lang::Ko => "✓ 기존 context 'argus' 활성화"@,
    }
}

pub fn ctx_reused(lang: Lang) -> (r: &'static str)
    ensures
        r@ == ctx_reused_text(lang),
{
    match lang {
        Lang::En => "✓ activated existing context 'argus'",
        Lang::Ko => "✓ 기존 context 'argus' 활성화",
    }
}

pub open spec fn ctx_failed_text(lang: Lang, ws: Seq<char>) -> Seq<char> {
    match lang {
        Lang::En => "⚠ context auto-setup failed — manual: bkt context create cloud --host api.bitbucket.org --workspace "@ + ws + " --set-active"@,
        Lang::Ko => "⚠ context 자동 설정 실패 — 수동: bkt context create cloud --host api.bitbucket.org --workspace "@ + ws + " --set-active"@,
    }
}

pub fn ctx_failed(lang: Lang, ws: &str) -> (r: String)
    ensures
        r@ == ctx_failed_text(lang, ws@),
{
    match lang {
        Lang::En => {
            let mut s = String::new();
            push_str(&mut s, "⚠ context auto-setup failed — manual: bkt context create cloud --host api.bitbucket.org --workspace ");
            push_str(&mut s, ws);
            push_str(&mut s, " --set-active");
            s
        },
        Lang::Ko => {
            let mut s = String::new();
            push_str(&mut s, "⚠ context 자동 설정 실패 — 수동: bkt context create cloud --host api.bitbucket.org --workspace ");
            push_str(&mut s, ws);
            push_str(&mut s, " --set-active");
            s
        },
    }
}

pub open spec fn cli_not_found_text(lang: Lang, label: Seq<char>, cli: Seq<char>, hint: Seq<char>) -> Seq<char> {
    match lang {
        Lang::En => "Cannot find the `"@ + cli + "` CLI required by the "@ + label + " backend.\n\n"@ + hint,
        Lang::Ko => label + " 백엔드에 필요한 `"@ + cli + "` CLI를 찾을 수 없습니다.\n\n"@ + hint,
    }
}

pub fn cli_not_found(lang: Lang, label: &str, cli: &str, hint: &str) -> (r: String)
    ensures
        r@ == cli_not_found_text(lang, label@, cli@, hint@),
{
    match lang {
        Lang::En => {
            let mut s = String::new();
            push_str(&mut s, "Cannot find the `");
            push_str(&mut s, cli);
            push_str(&mut s, "` CLI required by the ");
            push_str(&mut s, label);
            push_str(&mut s, " backend.\n\n");
            push_str(&mut s, hint);
            s
        },
        Lang::Ko => {
            let mut s = String::new();
            push_str(&mut s, label);
            push_str(&mut s, " 백엔드에 필요한 `");
            push_str(&mut s, cli);
            push_str(&mut s, "` CLI를 찾을 수 없습니다.\n\n");
            push_str(&mut s, hint);
            s
        },
    }
}

pub open spec fn install_hint_gh_text(lang: Lang) -> Seq<char> {
    match lang {
        Lang::En => "  install: brew install gh   (or https://cli.github.com)\n  auth:    gh auth login"@,
        Lang::Ko => "  설치: brew install gh   (또는 https://cli.github.com)\n  인증: gh auth login"@,
    }
}

pub fn install_hint_gh(lang: Lang) -> (r: &'static str)
    ensures
        r@ == install_hint_gh_text(lang),
{
    match lang {
        Lang::En => "  install: brew install gh   (or https://cli.github.com)\n  auth:    gh auth login",
        Lang::Ko => "  설치: brew install gh   (또는 https://cli.github.com)\n  인증: gh auth login",
    }
}

pub open spec fn install_hint_bkt_text(lang: Lang) -> Seq<char> {
    match lang {
        Lang::En => "  install: brew install avivsinai/tap/bitbucket-cli\n           or go install github.com/avivsinai/bitbucket-cli/cmd/bkt@latest\n  auth:    bkt auth login https://bitbucket.org --kind cloud --web"@,
        Lang::Ko => "  설치: brew install avivsinai/tap/bitbucket-cli\n        또는 go install github.com/avivsinai/bitbucket-cli/cmd/bkt@latest\n  인증: bkt auth login https://bitbucket.org --kind cloud --web"@,
    }
}

pub fn install_hint_bkt(lang: Lang) -> (r: &'static str)
    ensures
        r@ == install_hint_bkt_text(lang),
{
    match lang {
        Lang::En => "  install: brew install avivsinai/tap/bitbucket-cli\n           or go install github.com/avivsinai/bitbucket-cli/cmd/bkt@latest\n  auth:    bkt auth login https://bitbucket.org --kind cloud --web",
        Lang::Ko => "  설치: brew install avivsinai/tap/bitbucket-cli\n        또는 go install github.com/avivsinai/bitbucket-cli/cmd/bkt@latest\n  인증: bkt auth login https://bitbucket.org --kind cloud --web",
    }
}

pub open spec fn bkt_no_context_text(lang: Lang) -> Seq<char> {
    match lang {
        Lang::En => "bkt has no active context (one-time setup needed).\n  setup: bkt context create cloud --host api.bitbucket.org --workspace <workspace> --set-active\n  (if it exists) bkt context use <name>\n  check: bkt context list   (host is api.bitbucket.org)"@,
        Lang::Ko => "bkt 활성 context가 없습니다(최초 1회 설정 필요).\n  설정: bkt context create cloud --host api.bitbucket.org --workspace <워크스페이스> --set-active\n  (이미 있으면) bkt context use <이름>\n  확인: bkt context list   (host는 api.bitbucket.org)"@,
    }
}

pub fn bkt_no_context(lang: Lang) -> (r: &'static str)
    ensures
        r@ == bkt_no_context_text(lang),
{
    match lang {
        Lang::En => "bkt has no active context (one-time setup needed).\n  setup: bkt context create cloud --host api.bitbucket.org --workspace <workspace> --set-active\n  (if it exists) bkt context use <name>\n  check: bkt context list   (host is api.bitbucket.org)",
        Lang::Ko => "bkt 활성 context가 없습니다(최초 1회 설정 필요).\n  설정: bkt context create cloud --host api.bitbucket.org --workspace <워크스페이스> --set-active\n  (이미 있으면) bkt context use <이름>\n  확인: bkt context list   (host는 api.bitbucket.org)",
    }
}

pub open spec fn bkt_not_authed_text(lang: Lang) -> Seq<char> {
    match lang {
        Lang::En => "bkt is not authenticated.\n  auth: bkt auth login https://bitbucket.org --kind cloud --web"@,
        Lang::Ko => "bkt 인증이 필요합니다.\n  인증: bkt auth login https://bitbucket.org --kind cloud --web"@,
    }
}

pub fn bkt_not_authed(lang: Lang) -> (r: &'static str)
    ensures
        r@ == bkt_not_authed_text(lang),
{
    match lang {
        Lang::En => "bkt is not authenticated.\n  auth: bkt auth login https://bitbucket.org --kind cloud --web",
        Lang::Ko => "bkt 인증이 필요합니다.\n  인증: bkt auth login https://bitbucket.org --kind cloud --web",
    }
}

pub open spec fn usage_text(lang: Lang, themes: Seq<char>) -> Seq<char> {
    match lang {
        Lang::En => "argus — real-time GitHub/Bitbucket repo monitoring TUI (command: arg)\n\nUsage:\n  arg [<repo>] [poll_secs] [--theme <name>] [--lang en|ko]\n\nArguments:\n  <repo>       repository (GitHub owner/repo · Bitbucket workspace/repo_slug). Auto-detected from the git remote if omitted\n  poll_secs    auto-refresh interval (seconds, default 15, min 2)\n  --theme,-t   color theme (or the ARGUS_THEME env var). Takes precedence over the config file\n  --lang       UI language: en | ko (or ARGUS_LANG; default: auto-detect from locale)\n\nKeys:\n  Tab/Shift+Tab  move panel      ↑/↓(J/K)  scroll       / search\n  Enter/O        open browser    V         detail preview  +/- interval\n  R              refresh now      Q/Esc     quit\n\nConfig file (first found wins, CLI args take precedence):\n  ./argus.toml · ~/.config/argus/config.toml · ~/.argus.toml\n  keys: repo, poll_secs, limit, theme, backend, lang\n  backend: github(gh·default) · bitbucket(bkt, repo is workspace/repo_slug)\n  themes: "@ + themes + "\n\nLayout:\n  auto-switches among 2×2 · 1×4 · 4×1 based on terminal size\n"@,
        Lang::Ko => "argus — GitHub·Bitbucket repo 실시간 모니터링 TUI (명령: arg)\n\n사용법:\n  arg [<repo>] [poll_secs] [--theme <이름>] [--lang en|ko]\n\n인자:\n  <repo>       저장소(GitHub owner/repo · Bitbucket workspace/repo_slug). 생략 시 git remote에서 자동 추론\n  poll_secs    자동 새로고침 주기(초, 기본 15, 최소 2)\n  --theme,-t   색 테마 (또는 환경변수 ARGUS_THEME). 설정 파일보다 우선\n  --lang       UI 언어: en | ko (또는 ARGUS_LANG. 기본: 로케일 자동 감지)\n\n키:\n  Tab/Shift+Tab  패널 이동      ↑/↓(J/K)  스크롤       / 검색\n  Enter/O        브라우저 열기   V         상세 미리보기  +/- 주기\n  R              즉시 새로고침    Q/Esc     종료\n\n설정 파일(첫 번째 발견 사용, CLI 인자가 우선):\n  ./argus.toml · ~/.config/argus/config.toml · ~/.argus.toml\n  키: repo, poll_secs, limit, theme, backend, lang\n  backend: github(gh·기본) · bitbucket(bkt, repo는 workspace/repo_slug)\n  테마: "@ + themes + "\n\n레이아웃:\n  터미널 크기에 따라 2×2 · 1×4 · 4×1 자동 전환\n"@,
    }
}

pub fn usage(lang: Lang, themes: &str) -> (r: String)
    ensures
        r@ == usage_text(lang, themes@),
{
    match lang {
        Lang::En => {
            let mut s = String::new();
            push_str(&mut s, "argus — real-time GitHub/Bitbucket repo monitoring TUI (command: arg)\n\nUsage:\n  arg [<repo>] [poll_secs] [--theme <name>] [--lang en|ko]\n\nArguments:\n  <repo>       repository (GitHub owner/repo · Bitbucket workspace/repo_slug). Auto-detected from the git remote if omitted\n  poll_secs    auto-refresh interval (seconds, default 15, min 2)\n  --theme,-t   color theme (or the ARGUS_THEME env var). Takes precedence over the config file\n  --lang       UI language: en | ko (or ARGUS_LANG; default: auto-detect from locale)\n\nKeys:\n  Tab/Shift+Tab  move panel      ↑/↓(J/K)  scroll       / search\n  Enter/O        open browser    V         detail preview  +/- interval\n  R              refresh now      Q/Esc     quit\n\nConfig file (first found wins, CLI args take precedence):\n  ./argus.toml · ~/.config/argus/config.toml · ~/.argus.toml\n  keys: repo, poll_secs, limit, theme, backend, lang\n  backend: github(gh·default) · bitbucket(bkt, repo is workspace/repo_slug)\n  themes: ");
            push_str(&mut s, themes);
            push_str(&mut s, "\n\nLayout:\n  auto-switches among 2×2 · 1×4 · 4×1 based on terminal size\n");
            s
        },
        Lang::Ko => {
            let mut s = String::new();
            push_str(&mut s, "argus — GitHub·Bitbucket repo 실시간 모니터링 TUI (명령: arg)\n\n사용법:\n  arg [<repo>] [poll_secs] [--theme <이름>] [--lang en|ko]\n\n인자:\n  <repo>       저장소(GitHub owner/repo · Bitbucket workspace/repo_slug). 생략 시 git remote에서 자동 추론\n  poll_secs    자동 새로고침 주기(초, 기본 15, 최소 2)\n  --theme,-t   색 테마 (또는 환경변수 ARGUS_THEME). 설정 파일보다 우선\n  --lang       UI 언어: en | ko (또는 ARGUS_LANG. 기본: 로케일 자동 감지)\n\n키:\n  Tab/Shift+Tab  패널 이동      ↑/↓(J/K)  스크롤       / 검색\n  Enter/O        브라우저 열기   V         상세 미리보기  +/- 주기\n  R              즉시 새로고침    Q/Esc     종료\n\n설정 파일(첫 번째 발견 사용, CLI 인자가 우선):\n  ./argus.toml · ~/.config/argus/config.toml · ~/.argus.toml\n  키: repo, poll_secs, limit, theme, backend, lang\n  backend: github(gh·기본) · bitbucket(bkt, repo는 workspace/repo_slug)\n  테마: ");
            push_str(&mut s, themes);
            push_str(&mut s, "\n\n레이아웃:\n  터미널 크기에 따라 2×2 · 1×4 · 4×1 자동 전환\n");
            s
        },
    }
}

pub open spec fn err_no_repo_text(lang: Lang, cause: Seq<char>) -> Seq<char> {
    match lang {
        Lang::En => "no repo argument and auto-detection failed.\n  usage: arg <owner/repo>\n  cause: "@ + cause,
        Lang::Ko => "repo 인자가 없고 자동 추론도 실패했습니다.\n  사용: arg <owner/repo>\n  원인: "@ + cause,
    }
}

pub fn err_no_repo(lang: Lang, cause: &str) -> (r: String)
    ensures
        r@ == err_no_repo_text(lang, cause@),
{
    match lang {
        Lang::En => {
            let mut s = String::new();
            push_str(&mut s, "no repo argument and auto-detection failed.\n  usage: arg <owner/repo>\n  cause: ");
            push_str(&mut s, cause);
            s
        },
        Lang::Ko => {
            let mut s = String::new();
            push_str(&mut s, "repo 인자가 없고 자동 추론도 실패했습니다.\n  사용: arg <owner/repo>\n  원인: ");
            push_str(&mut s, cause);
            s
        },
    }
}

} // verus!
