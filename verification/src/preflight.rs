//! Readiness of the backend CLI before the dashboard starts, as a state
//! machine: from each outcome of a check (is the CLI there, may it be
//! installed, is it logged in, has `bkt` an active context) to the next
//! command to run or question to ask. Whoever drives it performs the action
//! and hands back its outcome.
use vstd::prelude::*;
use crate::backend::{
    brew_pkg, brew_pkg_spec, has_active_marker, has_active_marker_spec, workspace_of, Backend,
};
use crate::i18n::{self, Lang};
use crate::text::{before_first, owned, push_str, spec_lowercase, to_lowercase, trim, trim_seq, str_eq};

verus! {

/// Where the checks stand.
#[derive(PartialEq, Eq, Structural)]
pub enum Step {
    /// Whether the CLI starts at all.
    CliProbed,
    /// Whether Homebrew is there (to offer an install).
    BrewProbed,
    /// The answer to the install offer.
    InstallAnswered,
    /// Whether the install succeeded.
    Installed,
    /// Whether the freshly installed CLI starts.
    CliReprobed,
    /// Whether the CLI is logged in.
    AuthChecked,
    /// The answer to the login offer.
    AuthAnswered,
    /// Whether the login succeeded.
    LoginRan,
    /// The context list of `bkt`.
    ContextListed,
    /// Whether creating the context succeeded.
    ContextCreated,
    /// Whether switching to the existing context succeeded.
    ContextUsed,
    /// Over.
    Done,
}

/// What to do next.
pub enum Act {
    /// Start the command (output silenced); report whether it could be started.
    Spawn(Vec<String>),
    /// Run the command, silenced when `quiet`; report whether it succeeded.
    Run(Vec<String>, bool),
    /// Ask a yes/no question; report the answer.
    Ask(String),
    /// Run the command; report its output when it succeeded.
    Capture(Vec<String>),
    /// The checks are over: ready, or why not.
    Finish(Result<(), String>),
}

/// An action, with a line to print before it.
pub struct Action {
    pub notice: Option<String>,
    pub act: Act,
}

/// What came of an action.
pub enum Outcome {
    /// Started / succeeded / answered yes (or not).
    Flag(bool),
    /// The output of a captured command (none when it failed).
    Output(Option<String>),
}

pub enum ActView {
    Spawn(Seq<Seq<char>>),
    Run(Seq<Seq<char>>, bool),
    Ask(Seq<char>),
    Capture(Seq<Seq<char>>),
    Finish(Result<(), Seq<char>>),
}

pub open spec fn act_view(a: Act) -> ActView {
    match a {
        Act::Spawn(c) => ActView::Spawn(c.deep_view()),
        Act::Run(c, q) => ActView::Run(c.deep_view(), q),
        Act::Ask(m) => ActView::Ask(m@),
        Act::Capture(c) => ActView::Capture(c.deep_view()),
        Act::Finish(r) => ActView::Finish(
            match r {
                Ok(()) => Ok(()),
                Err(e) => Err(e@),
            },
        ),
    }
}

pub open spec fn action_view(a: Action) -> (Option<Seq<char>>, ActView) {
    (crate::run_detail::opt_text(a.notice), act_view(a.act))
}

/// The checks of one backend and repository.
pub struct Preflight {
    pub backend: Backend,
    pub repo: String,
    pub lang: Lang,
    pub step: Step,
}

/// The outcome as a yes/no.
pub open spec fn flag_of(o: Outcome) -> bool {
    match o {
        Outcome::Flag(b) => b,
        Outcome::Output(t) => t is Some,
    }
}

/// Whether an outcome's output lists an active context.
pub open spec fn active_listed(o: Outcome) -> bool {
    match o {
        Outcome::Output(Some(t)) => has_active_marker_spec(t@),
        _ => false,
    }
}

// ─── commands and messages ───────────────────────────────────────────────────

pub open spec fn version_cmd(b: Backend) -> Seq<Seq<char>> {
    seq![b.cli_spec(), "--version"@]
}

pub open spec fn auth_status_cmd(b: Backend) -> Seq<Seq<char>> {
    seq![b.cli_spec(), "auth"@, "status"@]
}

pub open spec fn login_cmd(b: Backend) -> Seq<Seq<char>> {
    match b {
        Backend::Github => seq!["gh"@, "auth"@, "login"@],
        Backend::Bitbucket => seq![
            "bkt"@,
            "auth"@,
            "login"@,
            "https://bitbucket.org"@,
            "--kind"@,
            "cloud"@,
            "--web"@,
        ],
    }
}

pub open spec fn create_context_cmd(ws: Seq<char>) -> Seq<Seq<char>> {
    seq![
        "bkt"@,
        "context"@,
        "create"@,
        "argus"@,
        "--host"@,
        "api.bitbucket.org"@,
        "--workspace"@,
        ws,
        "--set-active"@,
    ]
}

/// Why the dashboard cannot start: the CLI is missing.
pub open spec fn not_found_spec(b: Backend, lang: Lang) -> Seq<char> {
    i18n::cli_not_found_text(lang, b.label_spec(), b.cli_spec(), b.install_hint_spec(lang))
}

/// The workspace of the repository (its first path segment).
pub open spec fn ws_spec(repo: Seq<char>) -> Seq<char> {
    before_first(repo, '/')
}

/// After the login step: list the contexts on Bitbucket, else ready.
pub open spec fn context_stage(b: Backend) -> (Step, ActView) {
    if b == Backend::Bitbucket {
        (Step::ContextListed, ActView::Capture(seq!["bkt"@, "context"@, "list"@]))
    } else {
        (Step::Done, ActView::Finish(Ok(())))
    }
}

/// The next step, its notice and action, after an outcome.
pub open spec fn next_spec(b: Backend, repo: Seq<char>, lang: Lang, step: Step, o: Outcome) -> (Step, Option<Seq<char>>, ActView) {
    let ok = flag_of(o);
    let fail = (Step::Done, None, ActView::Finish(Err(not_found_spec(b, lang))));
    let auth = (Step::AuthChecked, None, ActView::Run(auth_status_cmd(b), true));
    match step {
        Step::CliProbed => if ok {
            auth
        } else {
            (Step::BrewProbed, None, ActView::Spawn(seq!["brew"@, "--version"@]))
        },
        Step::BrewProbed => if ok {
            (
                Step::InstallAnswered,
                None,
                ActView::Ask(i18n::install_offer_text(lang, b.cli_spec(), brew_pkg_spec(b))),
            )
        } else {
            fail
        },
        Step::InstallAnswered => if ok {
            (
                Step::Installed,
                Some("▶ brew install "@ + brew_pkg_spec(b) + " …"@),
                ActView::Run(seq!["brew"@, "install"@, brew_pkg_spec(b)], false),
            )
        } else {
            fail
        },
        Step::Installed => if ok {
            (Step::CliReprobed, None, ActView::Spawn(version_cmd(b)))
        } else {
            fail
        },
        Step::CliReprobed => if ok {
            auth
        } else {
            fail
        },
        Step::AuthChecked => if ok {
            (context_stage(b).0, None, context_stage(b).1)
        } else {
            (Step::AuthAnswered, None, ActView::Ask(i18n::auth_offer_text(lang, b.label_spec())))
        },
        Step::AuthAnswered => if ok {
            (Step::LoginRan, None, ActView::Run(login_cmd(b), false))
        } else {
            (
                context_stage(b).0,
                Some(i18n::auth_skip_text(lang, b.auth_hint_spec())),
                context_stage(b).1,
            )
        },
        Step::LoginRan => (
            context_stage(b).0,
            Some(
                if ok {
                    i18n::login_done_text(lang)
                } else {
                    i18n::login_failed_text(lang, b.auth_hint_spec())
                },
            ),
            context_stage(b).1,
        ),
        Step::ContextListed => if active_listed(o) {
            (Step::Done, None, ActView::Finish(Ok(())))
        } else {
            (
                Step::ContextCreated,
                Some(i18n::ctx_auto_text(lang, ws_spec(repo))),
                ActView::Run(create_context_cmd(ws_spec(repo)), true),
            )
        },
        Step::ContextCreated => if ok {
            (Step::Done, Some(i18n::ctx_created_text(lang)), ActView::Finish(Ok(())))
        } else {
            (
                Step::ContextUsed,
                None,
                ActView::Run(seq!["bkt"@, "context"@, "use"@, "argus"@], true),
            )
        },
        Step::ContextUsed => (
            Step::Done,
            Some(
                if ok {
                    i18n::ctx_reused_text(lang)
                } else {
                    i18n::ctx_failed_text(lang, ws_spec(repo))
                },
            ),
            ActView::Finish(Ok(())),
        ),
        Step::Done => (Step::Done, None, ActView::Finish(Ok(()))),
    }
}

fn strings(parts: Vec<&str>) -> (r: Vec<String>)
    ensures
        r.deep_view() == parts@.map_values(|p: &str| p@),
{
    let mut out: Vec<String> = Vec::new();
    let mut i: usize = 0;
    while i < parts.len()
        invariant
            i <= parts@.len(),
            out.deep_view() == parts@.take(i as int).map_values(|p: &str| p@),
        decreases parts@.len() - i,
    {
        let ghost before = out.deep_view();
        out.push(owned(parts[i]));
        assert(out.deep_view() =~= before.push(parts@[i as int]@));
        assert(parts@.take(i + 1) =~= parts@.take(i as int).push(parts@[i as int]));
        assert(out.deep_view() =~= parts@.take(i + 1).map_values(|p: &str| p@));
        i += 1;
    }
    assert(parts@.take(i as int) =~= parts@);
    out
}

fn not_found(b: Backend, lang: Lang) -> (r: String)
    ensures
        r@ == not_found_spec(b, lang),
{
    i18n::cli_not_found(lang, b.label(), b.cli(), b.install_hint(lang))
}

fn flag(o: &Outcome) -> (b: bool)
    ensures
        b == flag_of(*o),
{
    match o {
        Outcome::Flag(b) => *b,
        Outcome::Output(t) => t.is_some(),
    }
}

fn context_action(b: Backend, notice: Option<String>) -> (r: (Step, Action))
    ensures
        r.0 == context_stage(b).0,
        action_view(r.1) == (crate::run_detail::opt_text(notice), context_stage(b).1),
{
    if b == Backend::Bitbucket {
        let cmd = strings(vec!["bkt", "context", "list"]);
        assert(cmd.deep_view() =~= seq!["bkt"@, "context"@, "list"@]);
        (Step::ContextListed, Action { notice, act: Act::Capture(cmd) })
    } else {
        (Step::Done, Action { notice, act: Act::Finish(Ok(())) })
    }
}

impl Preflight {
    /// The checks of `backend` for `repo`; the first action starts the CLI.
    pub fn start(backend: Backend, repo: String, lang: Lang) -> (r: (Preflight, Action))
        ensures
            r.0.backend == backend && r.0.repo@ == repo@ && r.0.lang == lang,
            r.0.step == Step::CliProbed,
            action_view(r.1) == (None::<Seq<char>>, ActView::Spawn(version_cmd(backend))),
    {
        let cmd = strings(vec![backend.cli(), "--version"]);
        assert(cmd.deep_view() =~= version_cmd(backend));
        (
            Preflight { backend, repo, lang, step: Step::CliProbed },
            Action { notice: None, act: Act::Spawn(cmd) },
        )
    }

    /// Takes the outcome of the last action and gives the next one.
    pub fn next(&mut self, o: Outcome) -> (a: Action)
        ensures
            final(self).backend == old(self).backend,
            final(self).repo == old(self).repo,
            final(self).lang == old(self).lang,
            (final(self).step, action_view(a).0, action_view(a).1) == next_spec(
                old(self).backend,
                old(self).repo@,
                old(self).lang,
                old(self).step,
                o,
            ),
    {
        let b = self.backend;
        let lang = self.lang;
        let ok = flag(&o);
        let (step, action) = match self.step {
            Step::CliProbed => if ok {
                self.auth_check()
            } else {
                let cmd = strings(vec!["brew", "--version"]);
                assert(cmd.deep_view() =~= seq!["brew"@, "--version"@]);
                (Step::BrewProbed, Action { notice: None, act: Act::Spawn(cmd) })
            },
            Step::BrewProbed => if ok {
                (
                    Step::InstallAnswered,
                    Action { notice: None, act: Act::Ask(i18n::install_offer(lang, b.cli(), brew_pkg(b))) },
                )
            } else {
                (Step::Done, Action { notice: None, act: Act::Finish(Err(not_found(b, lang))) })
            },
            Step::InstallAnswered => if ok {
                let pkg = brew_pkg(b);
                let mut notice = owned("▶ brew install ");
                push_str(&mut notice, pkg);
                push_str(&mut notice, " …");
                let cmd = strings(vec!["brew", "install", pkg]);
                assert(cmd.deep_view() =~= seq!["brew"@, "install"@, brew_pkg_spec(b)]);
                (Step::Installed, Action { notice: Some(notice), act: Act::Run(cmd, false) })
            } else {
                (Step::Done, Action { notice: None, act: Act::Finish(Err(not_found(b, lang))) })
            },
            Step::Installed => if ok {
                let cmd = strings(vec![b.cli(), "--version"]);
                assert(cmd.deep_view() =~= version_cmd(b));
                (Step::CliReprobed, Action { notice: None, act: Act::Spawn(cmd) })
            } else {
                (Step::Done, Action { notice: None, act: Act::Finish(Err(not_found(b, lang))) })
            },
            Step::CliReprobed => if ok {
                self.auth_check()
            } else {
                (Step::Done, Action { notice: None, act: Act::Finish(Err(not_found(b, lang))) })
            },
            Step::AuthChecked => if ok {
                context_action(b, None)
            } else {
                (
                    Step::AuthAnswered,
                    Action { notice: None, act: Act::Ask(i18n::auth_offer(lang, b.label())) },
                )
            },
            Step::AuthAnswered => if ok {
                let cmd = match b {
                    Backend::Github => strings(vec!["gh", "auth", "login"]),
                    Backend::Bitbucket => strings(
                        vec!["bkt", "auth", "login", "https://bitbucket.org", "--kind", "cloud", "--web"],
                    ),
                };
                assert(cmd.deep_view() =~= login_cmd(b));
                (Step::LoginRan, Action { notice: None, act: Act::Run(cmd, false) })
            } else {
                context_action(b, Some(i18n::auth_skip(lang, b.auth_hint())))
            },
            Step::LoginRan => {
                let notice = if ok {
                    owned(i18n::login_done(lang))
                } else {
                    i18n::login_failed(lang, b.auth_hint())
                };
                context_action(b, Some(notice))
            },
            Step::ContextListed => {
                let active = match &o {
                    Outcome::Output(Some(t)) => has_active_marker(t.as_str()),
                    _ => false,
                };
                if active {
                    (Step::Done, Action { notice: None, act: Act::Finish(Ok(())) })
                } else {
                    let ws = workspace_of(self.repo.as_str());
                    let cmd = strings(
                        vec![
                            "bkt",
                            "context",
                            "create",
                            "argus",
                            "--host",
                            "api.bitbucket.org",
                            "--workspace",
                            ws.as_str(),
                            "--set-active",
                        ],
                    );
                    assert(cmd.deep_view() =~= create_context_cmd(ws_spec(self.repo@)));
                    (
                        Step::ContextCreated,
                        Action { notice: Some(i18n::ctx_auto(lang, ws.as_str())), act: Act::Run(cmd, true) },
                    )
                }
            },
            Step::ContextCreated => if ok {
                (
                    Step::Done,
                    Action { notice: Some(owned(i18n::ctx_created(lang))), act: Act::Finish(Ok(())) },
                )
            } else {
                let cmd = strings(vec!["bkt", "context", "use", "argus"]);
                assert(cmd.deep_view() =~= seq!["bkt"@, "context"@, "use"@, "argus"@]);
                (Step::ContextUsed, Action { notice: None, act: Act::Run(cmd, true) })
            },
            Step::ContextUsed => {
                let notice = if ok {
                    owned(i18n::ctx_reused(lang))
                } else {
                    i18n::ctx_failed(lang, workspace_of(self.repo.as_str()).as_str())
                };
                (Step::Done, Action { notice: Some(notice), act: Act::Finish(Ok(())) })
            },
            Step::Done => (Step::Done, Action { notice: None, act: Act::Finish(Ok(())) }),
        };
        self.step = step;
        action
    }

    fn auth_check(&self) -> (r: (Step, Action))
        ensures
            r.0 == Step::AuthChecked,
            action_view(r.1) == (None::<Seq<char>>, ActView::Run(auth_status_cmd(self.backend), true)),
    {
        let cmd = strings(vec![self.backend.cli(), "auth", "status"]);
        assert(cmd.deep_view() =~= auth_status_cmd(self.backend));
        (Step::AuthChecked, Action { notice: None, act: Act::Run(cmd, true) })
    }
}

/// A lowercased, trimmed answer means yes: `y` or `yes`.
pub open spec fn is_yes_lowered_spec(t: Seq<char>) -> bool {
    t == "y"@ || t == "yes"@
}

/// A typed answer means yes: `y` or `yes`, whatever the case and surrounding blanks.
pub open spec fn is_yes_spec(line: Seq<char>) -> bool {
    is_yes_lowered_spec(spec_lowercase(trim_seq(line)))
}

pub fn is_yes_lowered(t: &str) -> (b: bool)
    ensures
        b == is_yes_lowered_spec(t@),
{
    str_eq(t, "y") || str_eq(t, "yes")
}

pub fn is_yes(line: &str) -> (b: bool)
    ensures
        b == is_yes_spec(line@),
{
    let t = to_lowercase(trim(line).as_str());
    is_yes_lowered(t.as_str())
}

} // verus!
