//! Command line and settings: the arguments (`[<repo>] [poll_secs]` with
//! `--theme`/`--lang` flags), and the settings resolved from arguments,
//! environment and config file (CLI first, then environment, then config,
//! then defaults).
use vstd::prelude::*;
use crate::backend::{parse_remote_url, parse_remote_url_spec, Backend};
use crate::i18n::{self, opt_view, Lang};
use crate::run_detail::opt_text;
use crate::text::{join, owned, starts_with, starts_with_seq, str_eq, strip_prefix, strip_prefix_seq};
use crate::update::{parse_u64, parse_u64_spec};

verus! {

/// Config file settings (all optional).
pub struct Config {
    /// Default repository (`owner/repo` or `workspace/repo_slug`).
    pub repo: Option<String>,
    /// Auto-refresh interval (seconds).
    pub poll_secs: Option<u64>,
    /// Items to fetch/show per panel.
    pub limit: Option<usize>,
    /// Color theme name.
    pub theme: Option<String>,
    /// Data source backend (`github` · `bitbucket`/`bb`).
    pub backend: Option<String>,
    /// UI language (`en` · `ko`).
    pub lang: Option<String>,
    /// Whether to check for a newer release on startup.
    pub update_check: Option<bool>,
}

impl Config {
    /// No settings.
    pub fn empty() -> (c: Config)
        ensures
            c.repo is None && c.poll_secs is None && c.limit is None && c.theme is None
                && c.backend is None && c.lang is None && c.update_check is None,
    {
        Config {
            repo: None,
            poll_secs: None,
            limit: None,
            theme: None,
            backend: None,
            lang: None,
            update_check: None,
        }
    }
}

// ─── arguments ───────────────────────────────────────────────────────────────

/// Parsed command line.
pub struct CliArgs {
    pub repo: Option<String>,
    pub poll: Option<String>,
    pub theme: Option<String>,
    pub lang: Option<String>,
    pub help: bool,
}

pub struct CliView {
    pub repo: Option<Seq<char>>,
    pub poll: Option<Seq<char>>,
    pub theme: Option<Seq<char>>,
    pub lang: Option<Seq<char>>,
    pub help: bool,
}

impl CliArgs {
    pub open spec fn view(&self) -> CliView {
        CliView {
            repo: opt_text(self.repo),
            poll: opt_text(self.poll),
            theme: opt_text(self.theme),
            lang: opt_text(self.lang),
            help: self.help,
        }
    }
}

/// `s.trim_start_matches(p)`: `s` without its leading repeats of `p`.
pub open spec fn trim_start_str_seq(s: Seq<char>, p: Seq<char>) -> Seq<char>
    decreases s.len(),
{
    if p.len() > 0 && starts_with_seq(s, p) {
        trim_start_str_seq(s.skip(p.len() as int), p)
    } else {
        s
    }
}

pub fn trim_start_str(s: &str, p: &str) -> (r: String)
    ensures
        r@ == trim_start_str_seq(s@, p@),
    decreases s@.len(),
{
    if p.is_empty() {
        return owned(s);
    }
    match strip_prefix(s, p) {
        Some(rest) => {
            assert(rest@.len() < s@.len());
            trim_start_str(rest.as_str(), p)
        },
        None => owned(s),
    }
}

/// The command line read from argument `i` on, given what was read before it.
/// `-h`/`--help` asks for help; `--theme`/`-t` and `--lang` take the next
/// argument (`--theme=` and `--lang=` carry it); the first two other
/// arguments are the repository and the polling interval; the rest is ignored.
pub open spec fn parse_from(args: Seq<Seq<char>>, i: int, st: CliView) -> CliView
    decreases args.len() - i,
{
    if i >= args.len() || i < 0 {
        st
    } else {
        let a = args[i];
        if a == "-h"@ || a == "--help"@ {
            parse_from(args, i + 1, CliView { help: true, ..st })
        } else if a == "--theme"@ || a == "-t"@ {
            if i + 1 < args.len() {
                parse_from(args, i + 2, CliView { theme: Some(args[i + 1]), ..st })
            } else {
                CliView { theme: None, ..st }
            }
        } else if starts_with_seq(a, "--theme="@) {
            parse_from(
                args,
                i + 1,
                CliView { theme: Some(trim_start_str_seq(a, "--theme="@)), ..st },
            )
        } else if a == "--lang"@ {
            if i + 1 < args.len() {
                parse_from(args, i + 2, CliView { lang: Some(args[i + 1]), ..st })
            } else {
                CliView { lang: None, ..st }
            }
        } else if starts_with_seq(a, "--lang="@) {
            parse_from(
                args,
                i + 1,
                CliView { lang: Some(trim_start_str_seq(a, "--lang="@)), ..st },
            )
        } else if st.repo is None {
            parse_from(args, i + 1, CliView { repo: Some(a), ..st })
        } else if st.poll is None {
            parse_from(args, i + 1, CliView { poll: Some(a), ..st })
        } else {
            parse_from(args, i + 1, st)
        }
    }
}

pub open spec fn empty_cli() -> CliView {
    CliView { repo: None, poll: None, theme: None, lang: None, help: false }
}

/// Reading from a position depends only on the arguments from there on.
proof fn lemma_parse_from_shift(pre: Seq<Seq<char>>, rest: Seq<Seq<char>>, j: int, st: CliView)
    requires
        0 <= j,
    ensures
        parse_from(pre + rest, pre.len() + j, st) == parse_from(rest, j, st),
    decreases rest.len() - j,
{
    let args = pre + rest;
    if j < rest.len() {
        assert(args[pre.len() + j] == rest[j]);
        if j + 1 < rest.len() {
            assert(args[pre.len() + j + 1] == rest[j + 1]);
        }
        let a = rest[j];
        if a == "-h"@ || a == "--help"@ {
            lemma_parse_from_shift(pre, rest, j + 1, CliView { help: true, ..st });
        } else if a == "--theme"@ || a == "-t"@ {
            if j + 1 < rest.len() {
                lemma_parse_from_shift(pre, rest, j + 2, CliView { theme: Some(rest[j + 1]), ..st });
            }
        } else if starts_with_seq(a, "--theme="@) {
            lemma_parse_from_shift(
                pre,
                rest,
                j + 1,
                CliView { theme: Some(trim_start_str_seq(a, "--theme="@)), ..st },
            );
        } else if a == "--lang"@ {
            if j + 1 < rest.len() {
                lemma_parse_from_shift(pre, rest, j + 2, CliView { lang: Some(rest[j + 1]), ..st });
            }
        } else if starts_with_seq(a, "--lang="@) {
            lemma_parse_from_shift(
                pre,
                rest,
                j + 1,
                CliView { lang: Some(trim_start_str_seq(a, "--lang="@)), ..st },
            );
        } else if st.repo is None {
            lemma_parse_from_shift(pre, rest, j + 1, CliView { repo: Some(a), ..st });
        } else if st.poll is None {
            lemma_parse_from_shift(pre, rest, j + 1, CliView { poll: Some(a), ..st });
        } else {
            lemma_parse_from_shift(pre, rest, j + 1, st);
        }
    }
}

/// A flag that takes a value consumes it: `--lang v`, `--theme v` and `-t v`
/// followed by any further arguments read as those arguments alone with the
/// language (theme) set to `v`, so `v` never becomes the repository or the
/// polling interval.
pub proof fn law_flag_value_consumed(v: Seq<char>, rest: Seq<Seq<char>>, st: CliView)
    ensures
        parse_from(seq!["--lang"@, v] + rest, 0, st) == parse_from(rest, 0, CliView { lang: Some(v), ..st }),
        parse_from(seq!["--theme"@, v] + rest, 0, st) == parse_from(rest, 0, CliView { theme: Some(v), ..st }),
        parse_from(seq!["-t"@, v] + rest, 0, st) == parse_from(rest, 0, CliView { theme: Some(v), ..st }),
        parse_from(seq!["--lang"@, v] + rest, 0, empty_cli()).repo == parse_from(rest, 0, empty_cli()).repo,
        parse_from(seq!["--lang"@, v] + rest, 0, empty_cli()).poll == parse_from(rest, 0, empty_cli()).poll,
{
    reveal_strlit("-h");
    reveal_strlit("--help");
    reveal_strlit("--theme");
    reveal_strlit("-t");
    reveal_strlit("--lang");
    reveal_strlit("--theme=");
    reveal_strlit("--lang=");
    let lang = seq!["--lang"@, v];
    let theme = seq!["--theme"@, v];
    let short = seq!["-t"@, v];
    assert((lang + rest)[0] == "--lang"@ && (lang + rest)[1] == v);
    assert((theme + rest)[0] == "--theme"@ && (theme + rest)[1] == v);
    assert((short + rest)[0] == "-t"@ && (short + rest)[1] == v);
    assert("--lang"@ != "-h"@ && "--lang"@[2] != "--help"@[2] && "--lang"@ != "--theme"@);
    assert("--lang"@ != "-t"@ && !starts_with_seq("--lang"@, "--theme="@));
    assert("--theme"@ != "-h"@ && "--theme"@ != "--help"@);
    assert("-t"@[1] != "-h"@[1] && "-t"@ != "--help"@);
    lemma_parse_from_shift(lang, rest, 0, CliView { lang: Some(v), ..st });
    lemma_parse_from_shift(theme, rest, 0, CliView { theme: Some(v), ..st });
    lemma_parse_from_shift(short, rest, 0, CliView { theme: Some(v), ..st });
    lemma_parse_from_shift(lang, rest, 0, CliView { lang: Some(v), ..empty_cli() });
    assert(parse_from(lang + rest, 0, empty_cli()) == parse_from(
        rest,
        0,
        CliView { lang: Some(v), ..empty_cli() },
    ));
    lemma_parse_lang_keeps_positionals(rest, 0, empty_cli(), v);
}

/// Setting the language beforehand changes nothing else that is read.
proof fn lemma_parse_lang_keeps_positionals(rest: Seq<Seq<char>>, j: int, st: CliView, v: Seq<char>)
    requires
        0 <= j,
    ensures
        parse_from(rest, j, CliView { lang: Some(v), ..st }).repo == parse_from(rest, j, st).repo,
        parse_from(rest, j, CliView { lang: Some(v), ..st }).poll == parse_from(rest, j, st).poll,
    decreases rest.len() - j,
{
    if j < rest.len() {
        let a = rest[j];
        let sv = CliView { lang: Some(v), ..st };
        if a == "-h"@ || a == "--help"@ {
            lemma_parse_lang_keeps_positionals(rest, j + 1, CliView { help: true, ..st }, v);
            assert(CliView { help: true, ..sv } == CliView { lang: Some(v), ..CliView { help: true, ..st } });
        } else if a == "--theme"@ || a == "-t"@ {
            if j + 1 < rest.len() {
                let st2 = CliView { theme: Some(rest[j + 1]), ..st };
                lemma_parse_lang_keeps_positionals(rest, j + 2, st2, v);
                assert(CliView { theme: Some(rest[j + 1]), ..sv } == CliView { lang: Some(v), ..st2 });
            }
        } else if starts_with_seq(a, "--theme="@) {
            let st2 = CliView { theme: Some(trim_start_str_seq(a, "--theme="@)), ..st };
            lemma_parse_lang_keeps_positionals(rest, j + 1, st2, v);
            assert(CliView { theme: Some(trim_start_str_seq(a, "--theme="@)), ..sv } == CliView {
                lang: Some(v),
                ..st2
            });
        } else if a == "--lang"@ {
            if j + 1 < rest.len() {
                assert(CliView { lang: Some(rest[j + 1]), ..sv } == CliView {
                    lang: Some(rest[j + 1]),
                    ..st
                });
            }
        } else if starts_with_seq(a, "--lang="@) {
            assert(CliView { lang: Some(trim_start_str_seq(a, "--lang="@)), ..sv } == CliView {
                lang: Some(trim_start_str_seq(a, "--lang="@)),
                ..st
            });
        } else if st.repo is None {
            let st2 = CliView { repo: Some(a), ..st };
            lemma_parse_lang_keeps_positionals(rest, j + 1, st2, v);
            assert(CliView { repo: Some(a), ..sv } == CliView { lang: Some(v), ..st2 });
        } else if st.poll is None {
            let st2 = CliView { poll: Some(a), ..st };
            lemma_parse_lang_keeps_positionals(rest, j + 1, st2, v);
            assert(CliView { poll: Some(a), ..sv } == CliView { lang: Some(v), ..st2 });
        } else {
            lemma_parse_lang_keeps_positionals(rest, j + 1, st, v);
        }
    }
}

/// Reads the command line (without the program name).
pub fn parse_args(args: &Vec<String>) -> (r: CliArgs)
    ensures
        r.view() == parse_from(args.deep_view(), 0, empty_cli()),
{
    let ghost av = args.deep_view();
    let mut st = CliArgs { repo: None, poll: None, theme: None, lang: None, help: false };
    let mut i: usize = 0;
    while i < args.len()
        invariant
            av == args.deep_view(),
            i <= args@.len(),
            parse_from(av, 0, empty_cli()) == parse_from(av, i as int, st.view()),
        decreases args@.len() - i,
    {
        let a = args[i].as_str();
        assert(av[i as int] == a@);
        let ghost before = st.view();
        if str_eq(a, "-h") || str_eq(a, "--help") {
            st.help = true;
            i += 1;
        } else if str_eq(a, "--theme") || str_eq(a, "-t") {
            if i + 1 < args.len() {
                st.theme = Some(owned(args[i + 1].as_str()));
                i += 2;
            } else {
                st.theme = None;
                i += 1;
            }
        } else if starts_with(a, "--theme=") {
            st.theme = Some(trim_start_str(a, "--theme="));
            i += 1;
        } else if str_eq(a, "--lang") {
            if i + 1 < args.len() {
                st.lang = Some(owned(args[i + 1].as_str()));
                i += 2;
            } else {
                st.lang = None;
                i += 1;
            }
        } else if starts_with(a, "--lang=") {
            st.lang = Some(trim_start_str(a, "--lang="));
            i += 1;
        } else if st.repo.is_none() {
            st.repo = Some(owned(a));
            i += 1;
        } else if st.poll.is_none() {
            st.poll = Some(owned(a));
            i += 1;
        } else {
            i += 1;
        }
    }
    st
}

// ─── settings ────────────────────────────────────────────────────────────────

/// Polling interval: the argument if it is a number, else the config, else
/// 15; at least 2 seconds.
pub open spec fn poll_secs_spec(arg: Option<Seq<char>>, cfg: Option<u64>) -> u64 {
    let v: u64 = match arg {
        Some(a) => match parse_u64_spec(a) {
            Some(n) => n,
            None => match cfg {
                Some(c) => c,
                None => 15,
            },
        },
        None => match cfg {
            Some(c) => c,
            None => 15,
        },
    };
    if v > 2 {
        v
    } else {
        2
    }
}

pub fn poll_secs_setting(arg: Option<&str>, cfg: Option<u64>) -> (r: u64)
    ensures
        r == poll_secs_spec(opt_view(arg), cfg),
        r >= 2,
{
    let parsed = match arg {
        Some(a) => parse_u64(a),
        None => None,
    };
    let v: u64 = match parsed {
        Some(n) => n,
        None => match cfg {
            Some(c) => c,
            None => 15,
        },
    };
    if v > 2 {
        v
    } else {
        2
    }
}

/// Items per panel: the config value within 1..=100, else 20.
pub open spec fn limit_spec(cfg: Option<usize>) -> usize {
    let v: usize = match cfg {
        Some(c) => c,
        None => 20,
    };
    if v < 1 {
        1
    } else if v > 100 {
        100
    } else {
        v
    }
}

pub fn limit_setting(cfg: Option<usize>) -> (r: usize)
    ensures
        r == limit_spec(cfg),
        1 <= r <= 100,
{
    let v: usize = match cfg {
        Some(c) => c,
        None => 20,
    };
    if v < 1 {
        1
    } else if v > 100 {
        100
    } else {
        v
    }
}

/// Theme name: `--theme`, else the `ARGUS_THEME` environment value, else the
/// config, else `default`.
pub open spec fn theme_name_spec(arg: Option<Seq<char>>, env: Option<Seq<char>>, cfg: Option<Seq<char>>) -> Seq<char> {
    match arg {
        Some(a) => a,
        None => match env {
            Some(e) => e,
            None => match cfg {
                Some(c) => c,
                None => "default"@,
            },
        },
    }
}

pub fn theme_name(arg: Option<&str>, env: Option<&str>, cfg: Option<&str>) -> (r: String)
    ensures
        r@ == theme_name_spec(opt_view(arg), opt_view(env), opt_view(cfg)),
{
    match arg {
        Some(a) => owned(a),
        None => match env {
            Some(e) => owned(e),
            None => match cfg {
                Some(c) => owned(c),
                None => owned("default"),
            },
        },
    }
}

/// The update check runs unless `ARGUS_NO_UPDATE_CHECK` is set or the config turns it off.
pub open spec fn update_check_spec(env_opt_out: bool, cfg: Option<bool>) -> bool {
    !env_opt_out && cfg != Some(false)
}

pub fn update_check_enabled(env_opt_out: bool, cfg: Option<bool>) -> (b: bool)
    ensures
        b == update_check_spec(env_opt_out, cfg),
{
    !env_opt_out && !(cfg == Some(false))
}

/// Which repository to watch: one given (argument, else config), with its
/// backend; or none, when it is to be read from the git remote.
pub enum Target {
    Known(Backend, String),
    Detect,
}

/// A given repository: a remote URL names its backend and repository; any
/// other text is taken as it is on GitHub. A backend named in the config wins.
pub open spec fn known_target_spec(r: Seq<char>, cfg_backend: Option<Backend>) -> (Backend, Seq<char>) {
    match parse_remote_url_spec(r) {
        Some(p) => (
            match cfg_backend {
                Some(b) => b,
                None => p.0,
            },
            p.1,
        ),
        None => (
            match cfg_backend {
                Some(b) => b,
                None => Backend::Github,
            },
            r,
        ),
    }
}

/// The backend the config names, if it names one.
pub open spec fn cfg_backend_spec(name: Option<Seq<char>>) -> Option<Backend> {
    match name {
        Some(n) => Some(Backend::from_name_spec(Some(n))),
        None => None,
    }
}

pub fn resolve_target(repo_arg: Option<&str>, cfg_repo: Option<&str>, cfg_backend: Option<&str>) -> (t: Target)
    ensures
        match (opt_view(repo_arg), opt_view(cfg_repo)) {
            (None, None) => t is Detect,
            (Some(r), _) | (None, Some(r)) => t matches Target::Known(b, repo) && (b, repo@)
                == known_target_spec(r, cfg_backend_spec(opt_view(cfg_backend))),
        },
{
    let given = match repo_arg {
        Some(r) => Some(r),
        None => cfg_repo,
    };
    let cb = match cfg_backend {
        Some(n) => Some(Backend::from_name(Some(n))),
        None => None,
    };
    match given {
        None => Target::Detect,
        Some(r) => match parse_remote_url(r) {
            Some((detected, repo)) => Target::Known(
                match cb {
                    Some(b) => b,
                    None => detected,
                },
                repo,
            ),
            None => Target::Known(
                match cb {
                    Some(b) => b,
                    None => Backend::Github,
                },
                owned(r),
            ),
        },
    }
}

/// The backend for a repository read from the git remote: the config's, if it names one.
pub fn detected_backend(cfg_backend: Option<&str>, detected: Backend) -> (b: Backend)
    ensures
        b == match cfg_backend_spec(opt_view(cfg_backend)) {
            Some(c) => c,
            None => detected,
        },
{
    match cfg_backend {
        Some(n) => Backend::from_name(Some(n)),
        None => detected,
    }
}

/// The usage text, listing the theme names.
pub fn usage_text(lang: Lang) -> (r: String)
    ensures
        r@ == i18n::usage_text(
            lang,
            crate::text::join_seq(
                seq!["default"@, "nord"@, "catppuccin-mocha"@, "dracula"@, "tokyo-night"@],
                " · "@,
            ),
        ),
{
    let names = crate::theme::names();
    let mut owned_names: Vec<String> = Vec::new();
    let mut i: usize = 0;
    while i < names.len()
        invariant
            i <= names@.len(),
            names@.len() == 5,
            names@[0]@ == "default"@,
            names@[1]@ == "nord"@,
            names@[2]@ == "catppuccin-mocha"@,
            names@[3]@ == "dracula"@,
            names@[4]@ == "tokyo-night"@,
            owned_names.deep_view() == Seq::new(i as nat, |k: int| names@[k]@),
        decreases names@.len() - i,
    {
        let ghost before = owned_names.deep_view();
        owned_names.push(owned(names[i]));
        assert(owned_names.deep_view() =~= before.push(names@[i as int]@));
        assert(owned_names.deep_view() =~= Seq::new((i + 1) as nat, |k: int| names@[k]@));
        i += 1;
    }
    assert(owned_names.deep_view() =~= seq![
        "default"@,
        "nord"@,
        "catppuccin-mocha"@,
        "dracula"@,
        "tokyo-night"@,
    ]);
    i18n::usage(lang, join(&owned_names, " · ").as_str())
}

} // verus!
