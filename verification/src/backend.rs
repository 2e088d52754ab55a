//! Data source backend selection (GitHub via `gh` / Bitbucket Cloud via `bkt`)
//! and the pure helpers of the setup checks: remote URL recognition, the
//! workspace of a repo, the active-context marker and the brew package.
use vstd::prelude::*;
use crate::i18n::{self, Lang};
use crate::text::{
    after_last, after_last_char, before_first, before_first_char, contains, contains_seq,
    lines, lines_seq, owned, push_str, spec_lowercase, split_once, split_once_seq,
    starts_with, starts_with_seq, str_eq, strip_prefix, strip_prefix_seq, strip_suffix,
    strip_suffix_seq, to_lowercase, trim, trim_end_char, trim_end_char_seq, trim_seq,
    trim_start, trim_start_char, trim_start_char_seq, trim_start_seq, ends_with_seq, first_index,
    lemma_first_index_found, lemma_first_index_absent,
};

verus! {

/// Which CLI to use as the backend.
#[derive(Debug, Clone, Copy, PartialEq, Eq, Structural)]
pub enum Backend {
    /// `gh` CLI → GitHub. repo is `owner/repo`.
    Github,
    /// `bkt` CLI → Bitbucket Cloud. repo is `workspace/repo_slug`.
    Bitbucket,
}

impl Backend {
    /// The backend a lowercased name selects.
    pub open spec fn from_lowered_spec(t: Seq<char>) -> Backend {
        if t == "bitbucket"@ || t == "bb"@ || t == "bitbucket-cloud"@ {
            Backend::Bitbucket
        } else {
            Backend::Github
        }
    }

    /// The backend a configured name selects.
    pub open spec fn from_name_spec(name: Option<Seq<char>>) -> Backend {
        match name {
            Some(n) => Backend::from_lowered_spec(spec_lowercase(trim_seq(n))),
            None => Backend::Github,
        }
    }

    /// The backend of a lowercased name (GitHub unless it names Bitbucket).
    pub fn from_lowered(t: &str) -> (b: Backend)
        ensures
            b == Backend::from_lowered_spec(t@),
    {
        if str_eq(t, "bitbucket") || str_eq(t, "bb") || str_eq(t, "bitbucket-cloud") {
            Backend::Bitbucket
        } else {
            Backend::Github
        }
    }

    /// Resolves a backend name from config/args. Unspecified or unknown falls back to GitHub.
    pub fn from_name(name: Option<&str>) -> (b: Backend)
        ensures
            b == Backend::from_name_spec(i18n::opt_view(name)),
    {
        match name {
            Some(n) => {
                let t = to_lowercase(trim(n).as_str());
                Backend::from_lowered(t.as_str())
            },
            None => Backend::Github,
        }
    }

    pub open spec fn label_spec(self) -> Seq<char> {
        match self {
            Backend::Github => "GitHub"@,
            Backend::Bitbucket => "Bitbucket"@,
        }
    }

    /// Human-readable backend name.
    pub fn label(self) -> (r: &'static str)
        ensures
            r@ == self.label_spec(),
    {
        match self {
            Backend::Github => "GitHub",
            Backend::Bitbucket => "Bitbucket",
        }
    }

    pub open spec fn cli_spec(self) -> Seq<char> {
        match self {
            Backend::Github => "gh"@,
            Backend::Bitbucket => "bkt"@,
        }
    }

    /// CLI executable name this backend delegates to.
    pub fn cli(self) -> (r: &'static str)
        ensures
            r@ == self.cli_spec(),
    {
        match self {
            Backend::Github => "gh",
            Backend::Bitbucket => "bkt",
        }
    }

    pub open spec fn auth_hint_spec(self) -> Seq<char> {
        match self {
            Backend::Github => "gh auth login"@,
            Backend::Bitbucket => "bkt auth login https://bitbucket.org --kind cloud --web"@,
        }
    }

    /// Auth command (shared for guidance and auto-run when unauthenticated).
    pub fn auth_hint(self) -> (r: &'static str)
        ensures
            r@ == self.auth_hint_spec(),
    {
        match self {
            Backend::Github => "gh auth login",
            Backend::Bitbucket => "bkt auth login https://bitbucket.org --kind cloud --web",
        }
    }

    pub open spec fn install_hint_spec(self, lang: Lang) -> Seq<char> {
        match self {
            Backend::Github => i18n::install_hint_gh_text(lang),
            Backend::Bitbucket => i18n::install_hint_bkt_text(lang),
        }
    }

    /// Install/auth guidance shown when the CLI is not installed (language-aware).
    pub fn install_hint(self, lang: Lang) -> (r: &'static str)
        ensures
            r@ == self.install_hint_spec(lang),
    {
        match self {
            Backend::Github => i18n::install_hint_gh(lang),
            Backend::Bitbucket => i18n::install_hint_bkt(lang),
        }
    }
}

/// The guidance shown when the backend CLI is missing and could not be installed.
pub fn cli_missing_message(backend: Backend, lang: Lang) -> (r: String)
    ensures
        r@ == i18n::cli_not_found_text(
            lang,
            backend.label_spec(),
            backend.cli_spec(),
            backend.install_hint_spec(lang),
        ),
{
    i18n::cli_not_found(lang, backend.label(), backend.cli(), backend.install_hint(lang))
}

/// `owner/repo` → `owner` (workspace). Without a slash, the input as-is.
pub fn workspace_of(repo: &str) -> (r: String)
    ensures
        r@ == before_first(repo@, '/'),
{
    before_first_char(repo, '/')
}

/// Whether some line of `list`, indentation ignored, starts with `*`.
pub open spec fn has_active_marker_spec(list: Seq<char>) -> bool {
    exists|i: int|
        0 <= i < lines_seq(list).len() && starts_with_seq(
            trim_start_seq(#[trigger] lines_seq(list)[i]),
            "*"@,
        )
}

/// Whether the context list output has an active marker (`*`) (indentation ignored).
pub fn has_active_marker(list: &str) -> (b: bool)
    ensures
        b == has_active_marker_spec(list@),
{
    let ls = lines(list);
    let ghost lv = ls.deep_view();
    let mut i: usize = 0;
    while i < ls.len()
        invariant
            lv == ls.deep_view(),
            lv == lines_seq(list@),
            i <= ls@.len(),
            forall|j: int| 0 <= j < i ==> !starts_with_seq(trim_start_seq(#[trigger] lv[j]), "*"@),
        decreases ls@.len() - i,
    {
        let t = trim_start(ls[i].as_str());
        assert(lv[i as int] == ls@[i as int]@);
        if starts_with(t.as_str(), "*") {
            return true;
        }
        i += 1;
    }
    false
}

pub open spec fn brew_pkg_spec(backend: Backend) -> Seq<char> {
    match backend {
        Backend::Github => "gh"@,
        Backend::Bitbucket => "avivsinai/tap/bitbucket-cli"@,
    }
}

/// Per-backend brew package (formula/tap).
pub fn brew_pkg(backend: Backend) -> (r: &'static str)
    ensures
        r@ == brew_pkg_spec(backend),
{
    match backend {
        Backend::Github => "gh",
        Backend::Bitbucket => "avivsinai/tap/bitbucket-cli",
    }
}

// ─── remote URL recognition ──────────────────────────────────────────────────

/// The URL without its scheme, when it has one of the recognised schemes.
pub open spec fn strip_scheme(url: Seq<char>) -> Option<Seq<char>> {
    if strip_prefix_seq(url, "https://"@) is Some {
        strip_prefix_seq(url, "https://"@)
    } else if strip_prefix_seq(url, "http://"@) is Some {
        strip_prefix_seq(url, "http://"@)
    } else if strip_prefix_seq(url, "ssh://"@) is Some {
        strip_prefix_seq(url, "ssh://"@)
    } else {
        strip_prefix_seq(url, "git://"@)
    }
}

/// `[user@]host[:port]` → `host`.
pub open spec fn bare_host(host: Seq<char>) -> Seq<char> {
    before_first(after_last(host, '@'), ':')
}

/// The backend a lowercased host name points at (substring match).
pub open spec fn backend_of_lowered_spec(h: Seq<char>) -> Option<Backend> {
    if contains_seq(h, "github"@) {
        Some(Backend::Github)
    } else if contains_seq(h, "bitbucket"@) {
        Some(Backend::Bitbucket)
    } else {
        None
    }
}

/// The backend a host name points at (substring match, case-insensitive).
pub open spec fn backend_of_host(host: Seq<char>) -> Option<Backend> {
    backend_of_lowered_spec(spec_lowercase(bare_host(host)))
}

pub fn backend_of_lowered(h: &str) -> (r: Option<Backend>)
    ensures
        r == backend_of_lowered_spec(h@),
{
    if contains(h, "github") {
        Some(Backend::Github)
    } else if contains(h, "bitbucket") {
        Some(Backend::Bitbucket)
    } else {
        None
    }
}

/// The `owner/repo` a URL path names (see `owner_repo`).
pub fn owner_repo_of(path: &str) -> (r: Option<String>)
    ensures
        match r {
            Some(s) => owner_repo(path@) == Some(s@),
            None => owner_repo(path@) is None,
        },
{
    let p = trim_end_char(trim_start_char(path, '/').as_str(), '/');
    let p = match strip_suffix(p.as_str(), ".git") {
        Some(q) => q,
        None => p,
    };
    let (owner, rest) = match split_once(p.as_str(), '/') {
        Some(x) => x,
        None => return None,
    };
    let repo = before_first_char(rest.as_str(), '/');
    if owner.as_str().is_empty() || repo.as_str().is_empty() {
        return None;
    }
    let mut out = owned(owner.as_str());
    push_str(&mut out, "/");
    push_str(&mut out, repo.as_str());
    Some(out)
}

/// The path with surrounding slashes and a trailing `.git` removed.
pub open spec fn clean_path(path: Seq<char>) -> Seq<char> {
    let p = trim_end_char_seq(trim_start_char_seq(path, '/'), '/');
    match strip_suffix_seq(p, ".git"@) {
        Some(q) => q,
        None => p,
    }
}

/// The `owner/repo` pair named by a cleaned path.
pub open spec fn owner_repo(path: Seq<char>) -> Option<Seq<char>> {
    match split_once_seq(clean_path(path), '/') {
        Some((owner, rest)) => {
            let repo = before_first(rest, '/');
            if owner.len() == 0 || repo.len() == 0 {
                None
            } else {
                Some(owner + "/"@ + repo)
            }
        },
        None => None,
    }
}

/// The `.git` suffix a remote path may carry.
pub open spec fn git_suffix(git: bool) -> Seq<char> {
    if git {
        ".git"@
    } else {
        Seq::empty()
    }
}

/// A path `owner/repo` or `owner/repo.git` (owner and repo non-empty, without
/// `/`) names `owner/repo`, with the repository name kept whole whatever else
/// it holds (dots included); only a trailing `.git` is dropped. A repo name
/// that itself ends in `.git` is left out when no suffix follows it, since
/// then that ending is the one dropped.
pub proof fn law_owner_repo_kept_whole(owner: Seq<char>, repo: Seq<char>, git: bool)
    requires
        owner.len() > 0,
        repo.len() > 0,
        !owner.contains('/'),
        !repo.contains('/'),
        !git ==> !ends_with_seq(repo, ".git"@),
    ensures
        owner_repo(owner + "/"@ + repo + git_suffix(git)) == Some(owner + "/"@ + repo),
{
    reveal_strlit("/");
    reveal_strlit(".git");
    let core = owner + "/"@ + repo;
    let path = core + git_suffix(git);
    assert(owner.contains(owner[0]));
    assert(path[0] == owner[0]);
    assert(trim_start_char_seq(path, '/') == path);
    let last = path.last();
    if git {
        assert(last == 't');
    } else {
        assert(path =~= core);
        assert(last == repo.last());
        assert(repo.contains(repo[repo.len() - 1]));
    }
    assert(trim_end_char_seq(path, '/') == path);
    if git {
        assert(ends_with_seq(path, ".git"@)) by {
            assert(path.skip(path.len() - 4) =~= ".git"@);
        }
        assert(path.take(path.len() - 4) =~= core);
    } else {
        assert(path =~= core);
        if ends_with_seq(core, ".git"@) {
            if repo.len() >= 4 {
                assert(repo.skip(repo.len() - 4) =~= core.skip(core.len() - 4));
            } else {
                let j = core.len() - repo.len() - 1;
                assert(core[j] == '/');
                assert(core.skip(core.len() - 4)[j - (core.len() - 4)] == core[j]);
            }
        }
        assert(!ends_with_seq(core, ".git"@));
    }
    assert(clean_path(path) == core);
    assert forall|j: int| 0 <= j < owner.len() implies core[j] != '/' by {
        assert(core[j] == owner[j]);
        assert(owner.contains(owner[j]));
    }
    lemma_first_index_found(core, '/', owner.len() as int);
    assert(core.take(owner.len() as int) =~= owner);
    assert(core.skip((owner.len() + 1) as int) =~= repo);
    assert forall|j: int| 0 <= j < repo.len() implies repo[j] != '/' by {
        assert(repo.contains(repo[j]));
    }
    lemma_first_index_absent(repo, '/');
}

/// `url` starts with none of the recognised schemes when its first `:`
/// follows a host and is not followed by `/`.
proof fn lemma_scp_has_no_scheme(url: Seq<char>, h: int)
    requires
        0 <= h,
        h + 1 < url.len(),
        url[h] == ':',
        url[h + 1] != '/',
        forall|j: int| 0 <= j < h ==> url[j] != ':',
    ensures
        strip_scheme(url) is None,
{
    reveal_strlit("https://");
    reveal_strlit("http://");
    reveal_strlit("ssh://");
    reveal_strlit("git://");
    if starts_with_seq(url, "https://"@) {
        assert(url[5] == url.take(8)[5]);
        assert(url[6] == url.take(8)[6]);
        if h < 5 {
            assert(url[h] == url.take(8)[h]);
        }
    }
    if starts_with_seq(url, "http://"@) {
        assert(url[4] == url.take(7)[4]);
        assert(url[5] == url.take(7)[5]);
        if h < 4 {
            assert(url[h] == url.take(7)[h]);
        }
    }
    if starts_with_seq(url, "ssh://"@) {
        assert(url[3] == url.take(6)[3]);
        assert(url[4] == url.take(6)[4]);
        if h < 3 {
            assert(url[h] == url.take(6)[h]);
        }
    }
    if starts_with_seq(url, "git://"@) {
        assert(url[3] == url.take(6)[3]);
        assert(url[4] == url.take(6)[4]);
        if h < 3 {
            assert(url[h] == url.take(6)[h]);
        }
    }
}

/// A remote in scp form, `host:owner/repo` or `host:owner/repo.git`, whose
/// host points at a backend, is recognised as that backend and names
/// `owner/repo` in full (owner and repo non-empty, without `/`; the host
/// without `:`; no surrounding whitespace).
pub proof fn law_scp_remote_names_owner_repo(
    host: Seq<char>,
    owner: Seq<char>,
    repo: Seq<char>,
    git: bool,
    b: Backend,
)
    requires
        !host.contains(':'),
        backend_of_host(host) == Some(b),
        owner.len() > 0,
        repo.len() > 0,
        !owner.contains('/'),
        !repo.contains('/'),
        !git ==> !ends_with_seq(repo, ".git"@),
        trim_seq(host + ":"@ + owner + "/"@ + repo + git_suffix(git)) == host + ":"@ + owner + "/"@
            + repo + git_suffix(git),
    ensures
        parse_remote_url_spec(host + ":"@ + owner + "/"@ + repo + git_suffix(git)) == Some(
            (b, owner + "/"@ + repo),
        ),
{
    reveal_strlit(":");
    let path = owner + "/"@ + repo + git_suffix(git);
    let url = host + ":"@ + owner + "/"@ + repo + git_suffix(git);
    assert(url =~= host + ":"@ + path);
    let h = host.len() as int;
    assert forall|j: int| 0 <= j < h implies url[j] != ':' by {
        assert(url[j] == host[j]);
        assert(host.contains(host[j]));
    }
    assert(url[h] == ':');
    assert(url[h + 1] == owner[0]);
    assert(owner.contains(owner[0]));
    lemma_scp_has_no_scheme(url, h);
    lemma_first_index_found(url, ':', h);
    assert(url.take(h) =~= host);
    assert(url.skip(h + 1) =~= path);
    law_owner_repo_kept_whole(owner, repo, git);
}

/// What `parse_remote_url` recognises in a URL.
pub open spec fn parse_remote_url_spec(url: Seq<char>) -> Option<(Backend, Seq<char>)> {
    let u = trim_seq(url);
    let hp = match strip_scheme(u) {
        Some(rest) => split_once_seq(rest, '/'),
        None => split_once_seq(u, ':'),
    };
    match hp {
        Some((host, path)) => match backend_of_host(host) {
            Some(b) => match owner_repo(path) {
                Some(r) => Some((b, r)),
                None => None,
            },
            None => None,
        },
        None => None,
    }
}

fn strip_scheme_exec(url: &str) -> (r: Option<String>)
    ensures
        match r {
            Some(t) => strip_scheme(url@) == Some(t@),
            None => strip_scheme(url@) is None,
        },
{
    if let Some(t) = strip_prefix(url, "https://") {
        return Some(t);
    }
    if let Some(t) = strip_prefix(url, "http://") {
        return Some(t);
    }
    if let Some(t) = strip_prefix(url, "ssh://") {
        return Some(t);
    }
    strip_prefix(url, "git://")
}

/// git remote URL (or a user-supplied URL) → (backend, `owner/repo`). None if unrecognized.
/// Supports: scp form (`[user@]host:owner/repo.git`) and `https`/`http`/`ssh`/`git` scheme forms.
/// Ignores userinfo (`user@`) and port (`:NNNN`) before the host.
pub fn parse_remote_url(url: &str) -> (r: Option<(Backend, String)>)
    ensures
        match r {
            Some((b, s)) => parse_remote_url_spec(url@) == Some((b, s@)),
            None => parse_remote_url_spec(url@) is None,
        },
{
    let u = trim(url);
    let hp = match strip_scheme_exec(u.as_str()) {
        Some(rest) => split_once(rest.as_str(), '/'),
        None => split_once(u.as_str(), ':'),
    };
    let (host, path) = match hp {
        Some(p) => p,
        None => return None,
    };
    let h = before_first_char(after_last_char(host.as_str(), '@').as_str(), ':');
    let hl = to_lowercase(h.as_str());
    let backend = match backend_of_lowered(hl.as_str()) {
        Some(b) => b,
        None => return None,
    };
    match owner_repo_of(path.as_str()) {
        Some(out) => Some((backend, out)),
        None => None,
    }
}

/// The repository a `git remote get-url` output names, or why not.
pub open spec fn remote_from_output_spec(out: Seq<char>) -> Result<(Backend, Seq<char>), Seq<char>> {
    match parse_remote_url_spec(trim_seq(out)) {
        Some(p) => Ok(p),
        None => Err(
            "could not recognize a GitHub/Bitbucket repo from the git remote: "@ + trim_seq(out),
        ),
    }
}

pub fn remote_from_output(out: &str) -> (r: Result<(Backend, String), String>)
    ensures
        match r {
            Ok(p) => remote_from_output_spec(out@) == Ok::<(Backend, Seq<char>), Seq<char>>((p.0, p.1@)),
            Err(e) => remote_from_output_spec(out@) == Err::<(Backend, Seq<char>), Seq<char>>(e@),
        },
{
    let url = trim(out);
    match parse_remote_url(url.as_str()) {
        Some(p) => Ok(p),
        None => {
            let mut e = owned("could not recognize a GitHub/Bitbucket repo from the git remote: ");
            push_str(&mut e, url.as_str());
            Err(e)
        },
    }
}

} // verus!
