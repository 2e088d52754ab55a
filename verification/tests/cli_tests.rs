use argus::backend::Backend;
use argus::cli::{
    detected_backend, limit_setting, parse_args, poll_secs_setting, resolve_target, theme_name,
    trim_start_str, update_check_enabled, usage_text, Target,
};
use argus::commands::{bkt_log_args, gh_commits_args, gh_runs_args, poll_next, PollWake};
use argus::github::FetchCmd;
use argus::i18n::Lang;
use argus::preflight::{is_yes, Act, Outcome, Preflight, Step};

fn args(v: &[&str]) -> Vec<String> {
    v.iter().map(|s| s.to_string()).collect()
}

#[test]
fn reads_positional_and_flag_arguments() {
    let a = parse_args(&args(&["cli/cli", "5", "--theme", "nord", "--lang=ko", "extra"]));
    assert_eq!(a.repo.as_deref(), Some("cli/cli"));
    assert_eq!(a.poll.as_deref(), Some("5"));
    assert_eq!(a.theme.as_deref(), Some("nord"));
    assert_eq!(a.lang.as_deref(), Some("ko"));
    assert!(!a.help);
    let b = parse_args(&args(&["-t", "dracula", "-h", "--lang"]));
    assert_eq!(b.theme.as_deref(), Some("dracula"));
    assert!(b.help);
    assert_eq!(b.lang, None);
    assert_eq!(b.repo, None);
    assert_eq!(trim_start_str("--theme=--theme=x", "--theme="), "x");
}

#[test]
fn settings_take_cli_then_config_then_defaults() {
    assert_eq!(poll_secs_setting(Some("5"), Some(9)), 5);
    assert_eq!(poll_secs_setting(Some("soon"), Some(9)), 9);
    assert_eq!(poll_secs_setting(None, None), 15);
    assert_eq!(poll_secs_setting(Some("1"), None), 2);
    assert_eq!(limit_setting(None), 20);
    assert_eq!(limit_setting(Some(0)), 1);
    assert_eq!(limit_setting(Some(500)), 100);
    assert_eq!(theme_name(Some("nord"), Some("dracula"), None), "nord");
    assert_eq!(theme_name(None, Some("dracula"), Some("nord")), "dracula");
    assert_eq!(theme_name(None, None, None), "default");
    assert!(update_check_enabled(false, None));
    assert!(!update_check_enabled(true, Some(true)));
    assert!(!update_check_enabled(false, Some(false)));
}

#[test]
fn target_from_argument_config_or_remote() {
    match resolve_target(Some("https://bitbucket.org/acme/widget"), Some("x/y"), None) {
        Target::Known(b, r) => {
            assert_eq!(b, Backend::Bitbucket);
            assert_eq!(r, "acme/widget");
        }
        Target::Detect => panic!("expected a known target"),
    }
    match resolve_target(None, Some("acme/widget"), Some("bb")) {
        Target::Known(b, r) => {
            assert_eq!(b, Backend::Bitbucket);
            assert_eq!(r, "acme/widget");
        }
        Target::Detect => panic!("expected a known target"),
    }
    assert!(matches!(resolve_target(None, None, Some("bb")), Target::Detect));
    assert_eq!(detected_backend(Some("github"), Backend::Bitbucket), Backend::Github);
    assert_eq!(detected_backend(None, Backend::Bitbucket), Backend::Bitbucket);
    assert!(usage_text(Lang::En).contains("catppuccin-mocha"));
}

#[test]
fn command_lines() {
    assert_eq!(gh_runs_args("o/r", 20)[5], "20");
    assert_eq!(gh_commits_args("o/r", 30), vec!["api".to_string(), "repos/o/r/commits?per_page=30".to_string()]);
    assert_eq!(bkt_log_args("/p"), args(&["api", "/p", "--header", "Accept: */*"]));
    assert_eq!(poll_next(15, PollWake::Timer), Some(15));
    assert_eq!(poll_next(15, PollWake::Command(FetchCmd::RefreshNow)), Some(15));
    assert_eq!(poll_next(15, PollWake::Command(FetchCmd::SetInterval(60))), Some(60));
    assert_eq!(poll_next(15, PollWake::Closed), None);
}

#[test]
fn preflight_walks_install_auth_and_context() {
    let (mut pf, first) = Preflight::start(Backend::Bitbucket, "acme/widget".to_string(), Lang::En);
    assert!(matches!(&first.act, Act::Spawn(c) if c == &args(&["bkt", "--version"])));
    let a = pf.next(Outcome::Flag(true));
    assert!(matches!(&a.act, Act::Run(c, true) if c == &args(&["bkt", "auth", "status"])));
    let a = pf.next(Outcome::Flag(true));
    assert!(matches!(&a.act, Act::Capture(c) if c == &args(&["bkt", "context", "list"])));
    let a = pf.next(Outcome::Output(Some("  other".to_string())));
    assert!(a.notice.unwrap().contains("acme"));
    assert!(matches!(&a.act, Act::Run(c, true) if c.contains(&"--set-active".to_string())));
    let a = pf.next(Outcome::Flag(false));
    assert!(matches!(&a.act, Act::Run(c, true) if c == &args(&["bkt", "context", "use", "argus"])));
    let a = pf.next(Outcome::Flag(true));
    assert!(matches!(a.act, Act::Finish(Ok(()))));
    assert!(pf.step == Step::Done);

    let (mut gh, _) = Preflight::start(Backend::Github, "o/r".to_string(), Lang::En);
    let a = gh.next(Outcome::Flag(false));
    assert!(matches!(&a.act, Act::Spawn(c) if c == &args(&["brew", "--version"])));
    let a = gh.next(Outcome::Flag(false));
    assert!(matches!(&a.act, Act::Finish(Err(e)) if e.contains("gh")));
    assert!(is_yes(" YES \n"));
    assert!(is_yes("y"));
    assert!(!is_yes("no"));
}
