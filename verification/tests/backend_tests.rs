use argus::backend::{brew_pkg, has_active_marker, parse_remote_url, workspace_of, Backend};
use argus::i18n::Lang;

#[test]
fn cli_names_and_hints() {
    assert_eq!(Backend::Github.cli(), "gh");
    assert_eq!(Backend::Bitbucket.cli(), "bkt");
    assert_eq!(Backend::Github.label(), "GitHub");
    assert!(Backend::Github.install_hint(Lang::En).contains("gh auth login"));
    assert!(Backend::Github.install_hint(Lang::Ko).contains("gh auth login"));
    assert!(Backend::Bitbucket.install_hint(Lang::En).contains("bkt auth login"));
    assert_eq!(Backend::Github.auth_hint(), "gh auth login");
    assert!(Backend::Bitbucket.auth_hint().contains("--kind cloud --web"));
}

#[test]
fn preflight_pure_helpers() {
    assert_eq!(workspace_of("acme/web-app"), "acme");
    assert_eq!(workspace_of("noslash"), "noslash");
    assert!(has_active_marker("* argus (host: api.bitbucket.org)\n  other"));
    assert!(has_active_marker("  * indented"));
    assert!(!has_active_marker("  argus (host: ...)\n  other"));
    assert!(!has_active_marker(""));
    assert_eq!(brew_pkg(Backend::Github), "gh");
    assert_eq!(brew_pkg(Backend::Bitbucket), "avivsinai/tap/bitbucket-cli");
}

#[test]
fn resolves_names() {
    assert_eq!(Backend::from_name(Some("bitbucket")), Backend::Bitbucket);
    assert_eq!(Backend::from_name(Some("BB")), Backend::Bitbucket);
    assert_eq!(Backend::from_name(Some(" Bitbucket-Cloud ")), Backend::Bitbucket);
    assert_eq!(Backend::from_name(Some("github")), Backend::Github);
    assert_eq!(Backend::from_name(None), Backend::Github);
    assert_eq!(Backend::from_name(Some("gitlab")), Backend::Github);
}

#[test]
fn parses_remote_urls() {
    let p = parse_remote_url;
    assert_eq!(p("git@github.com:cli/cli.git"), Some((Backend::Github, "cli/cli".to_string())));
    assert_eq!(p("https://github.com/cli/cli.git"), Some((Backend::Github, "cli/cli".to_string())));
    assert_eq!(p("https://github.com/cli/cli"), Some((Backend::Github, "cli/cli".to_string())));
    assert_eq!(p("git@bitbucket.org:acme/widget.git"), Some((Backend::Bitbucket, "acme/widget".to_string())));
    assert_eq!(p("https://bitbucket.org/acme/widget"), Some((Backend::Bitbucket, "acme/widget".to_string())));
    assert_eq!(p("ssh://git@bitbucket.org/acme/widget.git"), Some((Backend::Bitbucket, "acme/widget".to_string())));
    assert_eq!(
        p("https://alice@bitbucket.org/acme/web-app.git"),
        Some((Backend::Bitbucket, "acme/web-app".to_string()))
    );
    assert_eq!(p("https://user@github.com/cli/cli.git"), Some((Backend::Github, "cli/cli".to_string())));
    assert_eq!(p("ssh://git@github.com:22/cli/cli.git"), Some((Backend::Github, "cli/cli".to_string())));
    assert_eq!(
        p("git@github.com-polarian:polarian/argus.git"),
        Some((Backend::Github, "polarian/argus".to_string()))
    );
    assert_eq!(p("git@bitbucket.org-work:team/repo.git"), Some((Backend::Bitbucket, "team/repo".to_string())));
    assert_eq!(p("https://github.mycorp.com/org/app.git"), Some((Backend::Github, "org/app".to_string())));
    assert_eq!(p("git@gitlab.com:foo/bar.git"), None);
    assert_eq!(p("not a url"), None);
    assert_eq!(p("https://github.com/"), None);
}

#[test]
fn remote_paths_drop_extra_segments_and_slashes() {
    assert_eq!(
        parse_remote_url("  https://github.com/cli/cli/tree/main/  "),
        Some((Backend::Github, "cli/cli".to_string()))
    );
    assert_eq!(parse_remote_url("git@github.com:/onlyowner"), None);
}
