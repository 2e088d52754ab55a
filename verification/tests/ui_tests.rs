use argus::app::{App, LayoutKind};
use argus::backend::Backend;
use argus::chrome::{clamp_scroll, footer_line, header_left, panel_title, placeholder, run_counts};
use argus::github::{Author, Commit, CommitAuthor, CommitDetail, Label, Issue, Run};
use argus::i18n::Lang;
use argus::rows::{commit_line, issue_line, remaining_width, run_line, run_status};
use argus::theme::{Color, TextLine, Theme};
use argus::view::{
    age_secs, char_width, display_width, hex_cuts_ok, layout_kind, parse_hex, rel_time,
    spinner_frame, truncate, truncate_width,
};

fn ts(s: &str) -> (i64, u32) {
    let t: chrono::DateTime<chrono::Utc> = s.parse().unwrap();
    (t.timestamp(), t.timestamp_subsec_nanos())
}

fn text_of(l: &TextLine) -> String {
    l.spans.iter().map(|s| s.text.as_str()).collect()
}

#[test]
fn parse_hex_works() {
    assert_eq!(parse_hex("0dd8ac"), Some((0x0d, 0xd8, 0xac)));
    assert_eq!(parse_hex("#FFFFFF"), Some((255, 255, 255)));
    assert_eq!(parse_hex("000000"), Some((0, 0, 0)));
    assert_eq!(parse_hex("xyz"), None);
    assert_eq!(parse_hex("12345"), None);
    assert_eq!(parse_hex("gggggg"), None);
}

#[test]
fn hex_cuts_inside_a_character_are_refused() {
    assert!(hex_cuts_ok("0dd8ac"));
    assert!(hex_cuts_ok("é1234"));
    assert_eq!(parse_hex("é1234"), None);
    assert!(!hex_cuts_ok("aé123"));
    assert_eq!(parse_hex("+f+f+f"), Some((15, 15, 15)));
}

#[test]
fn width_aware_truncate() {
    assert_eq!(display_width("abc"), 3);
    assert_eq!(display_width("한글"), 4);
    assert_eq!(display_width("a한b"), 4);
    assert_eq!(truncate_width("hello", 10), "hello");
    assert_eq!(truncate_width("hello world", 5), "hell…");
    assert_eq!(truncate_width("한글입니다", 5), "한글…");
}

#[test]
fn char_truncate_and_widths() {
    assert_eq!(truncate("abcdef", 4), "abc…");
    assert_eq!(truncate("abc", 3), "abc");
    assert_eq!(truncate("abc", 0), "…");
    assert_eq!(char_width('a'), 1);
    assert_eq!(char_width('가'), 2);
    assert_eq!(char_width('Ａ'), 2);
}

#[test]
fn layout_follows_terminal_size() {
    assert_eq!(layout_kind(120, 40), LayoutKind::Grid);
    assert_eq!(layout_kind(160, 12), LayoutKind::Cols);
    assert_eq!(layout_kind(48, 40), LayoutKind::Rows);
    assert_eq!(layout_kind(105, 12), LayoutKind::Rows);
}

#[test]
fn relative_times() {
    assert_eq!(rel_time(None), "—");
    assert_eq!(rel_time(Some(59)), "59s");
    assert_eq!(rel_time(Some(61)), "1m");
    assert_eq!(rel_time(Some(7200)), "2h");
    assert_eq!(rel_time(Some(200000)), "2d");
    let now = ts("2026-06-16T00:01:00Z");
    assert_eq!(age_secs("2026-06-16T00:00:00Z", now), Some(60));
    assert_eq!(age_secs("2026-06-17T00:00:00Z", now), Some(0));
    assert_eq!(age_secs("yesterday", now), None);
}

fn run(status: &str, concl: Option<&str>) -> Run {
    Run {
        database_id: 1,
        workflow_name: "CI".to_string(),
        display_title: "a fairly long title".to_string(),
        status: status.to_string(),
        conclusion: concl.map(String::from),
        head_branch: "main".to_string(),
        event: "push".to_string(),
        created_at: "2026-06-16T00:00:00Z".to_string(),
        url: "u".to_string(),
    }
}

#[test]
fn run_status_glyphs_and_colors() {
    let t = Theme::default();
    assert_eq!(run_status(&run("completed", Some("success")), "*", &t), ("✓".to_string(), t.success));
    assert_eq!(run_status(&run("completed", Some("timed_out")), "*", &t), ("✗".to_string(), t.error));
    assert_eq!(run_status(&run("completed", Some("neutral")), "*", &t), ("!".to_string(), t.warning));
    assert_eq!(run_status(&run("in_progress", None), "*", &t), ("*".to_string(), t.warning));
    assert_eq!(run_status(&run("waiting", None), "*", &t), ("◴".to_string(), t.accent));
}

#[test]
fn run_row_fits_the_width() {
    let t = Theme::default();
    let l = run_line(&run("completed", Some("success")), true, "*", &t, 40, ts("2026-06-16T00:01:00Z"));
    let text = text_of(&l);
    assert!(text.starts_with("● ✓ CI "));
    assert!(text.ends_with("push · main · 1m"));
    assert_eq!(l.spans.len(), 8);
    assert_eq!(remaining_width(40, &vec!["abcd".to_string(), "한".to_string()]), 34);
    assert_eq!(remaining_width(5, &vec!["abcdefgh".to_string()]), 10);
}

#[test]
fn commit_and_issue_rows() {
    let t = Theme::default();
    let c = Commit {
        sha: "c3a491a6b716".to_string(),
        commit: CommitDetail {
            message: "subject\nbody".to_string(),
            author: CommitAuthor { name: "Jane".to_string(), date: "2026-06-16T00:00:00Z".to_string() },
        },
        author: None,
        html_url: String::new(),
    };
    let l = commit_line(&c, false, &t, 60, ts("2026-06-16T00:00:30Z"));
    assert_eq!(text_of(&l), "  c3a491a subject  Jane · 30s");
    let is = Issue {
        number: 5,
        title: "bug".to_string(),
        author: Some(Author { login: "al".to_string() }),
        updated_at: "x".to_string(),
        labels: vec![
            Label { name: "bug".to_string(), color: "d73a4a".to_string() },
            Label { name: "ui".to_string(), color: "zz".to_string() },
            Label { name: "extra".to_string(), color: "000000".to_string() },
        ],
        url: String::new(),
    };
    let l = issue_line(&is, false, &t, 60, ts("2026-06-16T00:00:30Z"), &vec![Color::White, Color::Black]);
    assert_eq!(text_of(&l), "  ◎ #5 bug  bug   ui   @al · —");
    assert_eq!(l.spans[5].style.bg, Some(Color::Rgb(0xd7, 0x3a, 0x4a)));
    assert_eq!(l.spans[7].style.fg, Some(t.highlight));
}

#[test]
fn chrome_titles_placeholders_and_counts() {
    let t = Theme::default();
    let l = panel_title("⚙ Actions", true, 5, 2, 1, "ci", &t, vec![]);
    assert_eq!(text_of(&l), " ⚙ Actions 2/5 ●1 🔍ci ");
    let l = panel_title("⎇ Commits", false, 3, 3, 0, "", &t, vec![]);
    assert_eq!(text_of(&l), " ⎇ Commits 3 ");
    let err = placeholder(true, &Some("first\nsecond".to_string()), false, false, Lang::En, &t).unwrap();
    assert_eq!(err.len(), 2);
    assert_eq!(text_of(&err[0]), "⚠ first");
    assert_eq!(placeholder(false, &None, true, false, Lang::En, &t).unwrap().len(), 6);
    assert_eq!(text_of(&placeholder(true, &None, true, false, Lang::En, &t).unwrap()[0]), "no items");
    assert!(placeholder(true, &None, false, false, Lang::En, &t).is_none());
    assert_eq!(clamp_scroll(9999, 5, 30), 0);
    assert_eq!(clamp_scroll(3, 50, 30), 3);
    assert_eq!(clamp_scroll(99, 50, 30), 20);
    let runs = vec![run("completed", Some("failure")), run("in_progress", None), run("completed", Some("success"))];
    assert_eq!(run_counts(&runs), (2, 1));
    assert_eq!(spinner_frame(11), spinner_frame(1));
}

#[test]
fn header_and_footer_lines() {
    let mut app = App::new("o/r".to_string(), Backend::Github, 15, Theme::default(), Lang::En);
    app.update = Some("0.2.0".to_string());
    assert_eq!(text_of(&header_left(&app)), " ◉ argus  o/r  ⬆ v0.2.0 available");
    let f = text_of(&footer_line(&app));
    assert!(f.starts_with(" TAB "));
    assert!(f.contains(" Q "));
    app.search_active = true;
    app.search_buffer = "fix".to_string();
    assert!(text_of(&footer_line(&app)).starts_with(" 🔍 /fix▏"));
}
