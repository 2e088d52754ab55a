use argus::markdown::render;
use argus::theme::Theme;

#[test]
fn renders_basic_markdown() {
    let md = "# Title\n\nSome **bold** and *italic* and `code`.\n\n- a\n- b\n\n> quote\n\n```\nfn x() {}\n```\n";
    let lines = render(md, &Theme::default());
    assert!(!lines.is_empty());
    let total: usize = lines.iter().map(|l| l.spans.len()).sum();
    assert!(total > 0);
}

#[test]
fn handles_empty() {
    assert!(render("", &Theme::default()).is_empty());
}

#[test]
fn list_items_get_bullets_and_text() {
    let lines = render("- a\n- b\n", &Theme::default());
    let text: Vec<String> = lines.iter().map(|l| l.spans.iter().map(|s| s.text.as_str()).collect()).collect();
    assert!(text.iter().any(|l| l.contains('a')));
    assert!(text.iter().any(|l| l.contains('b')));
}
