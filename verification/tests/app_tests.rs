use argus::app::{App, Detail, KeyCode, LayoutKind, Modal, Panel};
use argus::backend::Backend;
use argus::github::{DataMsg, DetailKind, DetailPayload, Run};
use argus::i18n::Lang;
use argus::theme::Theme;

fn make_app() -> App {
    App::new("o/r".to_string(), Backend::Github, 15, Theme::default(), Lang::Ko)
}

fn detail(epoch: u64, kind: DetailKind) -> Detail {
    Detail {
        title: "t".to_string(),
        url: "u".to_string(),
        lines: vec![],
        loading: true,
        following: false,
        scroll: 0,
        kind,
        follow_ticks: 0,
        epoch,
    }
}

fn run(id: u64, wf: &str, title: &str, conclusion: &str) -> Run {
    Run {
        database_id: id,
        workflow_name: wf.to_string(),
        display_title: title.to_string(),
        status: "completed".to_string(),
        conclusion: Some(conclusion.to_string()),
        head_branch: "main".to_string(),
        event: "push".to_string(),
        created_at: "2026-06-12T07:54:25Z".to_string(),
        url: format!("u{id}"),
    }
}

#[test]
fn stale_detail_response_is_ignored() {
    let mut app = make_app();
    app.modal = Modal::Detail(detail(5, DetailKind::Issue { number: 1 }));

    app.apply(
        DataMsg::Detail {
            epoch: 3,
            result: Ok(DetailPayload {
                body: "STALE RUN LOG".to_string(),
                markdown: false,
                run_active: true,
            }),
        },
        "12:00:00".to_string(),
    );
    match &app.modal {
        Modal::Detail(d) => {
            assert!(d.loading, "loading must not clear on a stale response");
            assert!(d.lines.is_empty(), "a stale response must not fill the body");
            assert!(!d.following, "a stale run_active must not be applied");
        }
        _ => panic!("modal disappeared"),
    }

    app.apply(
        DataMsg::Detail {
            epoch: 5,
            result: Ok(DetailPayload {
                body: "line1\nline2".to_string(),
                markdown: false,
                run_active: false,
            }),
        },
        "12:00:01".to_string(),
    );
    match &app.modal {
        Modal::Detail(d) => {
            assert!(!d.loading);
            assert_eq!(d.lines.len(), 2);
        }
        _ => panic!(),
    }
}

#[test]
fn detail_for_closed_modal_is_dropped() {
    let mut app = make_app();
    app.apply(
        DataMsg::Detail {
            epoch: 1,
            result: Ok(DetailPayload { body: "x".to_string(), markdown: false, run_active: false }),
        },
        "12:00:00".to_string(),
    );
    assert!(matches!(app.modal, Modal::Closed));
}

#[test]
fn search_filter_narrows_panel() {
    let mut app = make_app();
    let runs = vec![run(1, "CI", "fix login", "failure"), run(2, "Deploy", "ship it", "success")];
    app.apply(DataMsg::Runs(Ok(runs)), "12:00:00".to_string());
    assert_eq!(app.runs.visible_count(), 2);

    app.runs.set_filter("failure".to_string());
    assert_eq!(app.runs.visible_count(), 1);
    assert_eq!(app.runs.selected_item().unwrap().database_id, 1);

    app.runs.set_filter("DEPLOY".to_string());
    assert_eq!(app.runs.visible_count(), 1);
    assert_eq!(app.runs.selected_item().unwrap().database_id, 2);

    app.runs.set_filter(String::new());
    assert_eq!(app.runs.visible_count(), 2);

    app.runs.set_filter("zzz".to_string());
    assert_eq!(app.runs.visible_count(), 0);
    assert!(app.runs.selected_item().is_none());
}

#[test]
fn interval_adjusts_through_steps() {
    let mut app = make_app();
    assert_eq!(app.poll_secs, 15);

    app.adjust_interval(1);
    assert_eq!(app.poll_secs, 30);
    app.adjust_interval(-1);
    assert_eq!(app.poll_secs, 15);
    app.adjust_interval(-1);
    assert_eq!(app.poll_secs, 10);

    for _ in 0..10 {
        app.adjust_interval(-1);
    }
    assert_eq!(app.poll_secs, 2);

    for _ in 0..20 {
        app.adjust_interval(1);
    }
    assert_eq!(app.poll_secs, 300);
}

#[test]
fn filter_persists_across_refresh() {
    let mut app = make_app();
    app.runs.set_filter("ci".to_string());
    let runs = vec![run(1, "CI", "a", "failure"), run(3, "CI", "b", "success"), run(2, "Deploy", "c", "success")];
    app.apply(DataMsg::Runs(Ok(runs)), "12:00:00".to_string());
    assert_eq!(app.runs.visible_count(), 2);
    assert!(app.runs.is_filtered());
}

#[test]
fn panel_spatial_moves() {
    assert_eq!(Panel::Actions.right(), Panel::Prs);
    assert_eq!(Panel::Actions.down(), Panel::Issues);
    assert_eq!(Panel::Commits.left(), Panel::Issues);
    assert_eq!(Panel::Commits.up(), Panel::Prs);
    assert_eq!(Panel::Prs.right(), Panel::Prs);
    assert_eq!(Panel::Actions.up(), Panel::Actions);
}

#[test]
fn shift_move_depends_on_layout() {
    let mut app = make_app();

    app.layout = LayoutKind::Grid;
    app.focus = Panel::Actions;
    app.shift_move(KeyCode::Right);
    assert_eq!(app.focus, Panel::Prs);
    app.shift_move(KeyCode::Down);
    assert_eq!(app.focus, Panel::Commits);

    app.layout = LayoutKind::Cols;
    app.focus = Panel::Actions;
    app.shift_move(KeyCode::Down);
    assert_eq!(app.focus, Panel::Actions);
    app.shift_move(KeyCode::Right);
    assert_eq!(app.focus, Panel::Prs);

    app.layout = LayoutKind::Rows;
    app.focus = Panel::Actions;
    app.shift_move(KeyCode::Right);
    assert_eq!(app.focus, Panel::Actions);
    app.shift_move(KeyCode::Down);
    assert_eq!(app.focus, Panel::Prs);
}

#[test]
fn tab_cycles_through_all_panels_and_back() {
    let start = Panel::Actions;
    let mut p = start;
    for _ in 0..4 {
        p = p.next();
    }
    assert_eq!(p, start);
    assert_eq!(Panel::Prs.next().prev(), Panel::Prs);
    assert_eq!(Panel::Actions.prev(), Panel::Commits);
}

#[test]
fn refresh_marks_only_new_or_changed_runs() {
    let mut app = make_app();
    app.apply(DataMsg::Runs(Ok(vec![run(1, "CI", "a", "success")])), "12:00:00".to_string());
    assert_eq!(app.runs.highlight_count(), 0);
    app.apply(
        DataMsg::Runs(Ok(vec![run(1, "CI", "a", "failure"), run(2, "CI", "b", "success")])),
        "12:00:15".to_string(),
    );
    assert_eq!(app.runs.highlight_count(), 2);
    app.apply(
        DataMsg::Runs(Ok(vec![run(1, "CI", "a", "failure"), run(2, "CI", "b", "success")])),
        "12:00:30".to_string(),
    );
    assert_eq!(app.runs.highlight_count(), 0);
}

#[test]
fn fetch_error_is_kept_on_the_panel() {
    let mut app = make_app();
    app.apply(DataMsg::Prs(Err("gh: not authenticated".to_string())), "12:00:00".to_string());
    assert_eq!(app.prs.error.as_deref(), Some("gh: not authenticated"));
    assert!(app.prs.loaded);
    assert_eq!(app.last_refresh.as_deref(), Some("12:00:00"));
}
