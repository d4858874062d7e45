//! The registry commands of the `freight` program: their arguments, the
//! report that `freight search` prints, and how `freight login` picks its
//! registry and its way of logging in.

use vstd::prelude::*;
use crate::template::{opt_str, str_views};
use crate::text::{chars_of, concat, owned, string_of};

verus! {

// ── Arguments ─────────────────────────────────────────────────────────────────

/// Arguments of `freight search`.
pub struct SearchArgs {
    pub query: String,
    /// Registry to search (default: all configured registries in order).
    pub repo: Option<String>,
}

/// Arguments of `freight login`.
pub struct LoginArgs {
    /// Registry base URL (default: first configured registry).
    pub registry: Option<String>,
    /// API token: skips username and password and is saved directly.
    pub token: Option<String>,
    pub username: Option<String>,
    pub password: Option<String>,
    /// Plain prompts instead of the interactive screen.
    pub notui: bool,
}

/// Arguments of `freight tui`.
pub struct TuiArgs {
    /// Registry base URL.
    pub url: String,
    /// API token; saved credentials or the login screen when absent.
    pub token: Option<String>,
}

/// Arguments of `freight completions`.
pub struct CompletionsArgs {
    /// Shell to generate completions for (bash, elvish, fish, powershell, zsh).
    pub shell: String,
}

// ── freight search ────────────────────────────────────────────────────────────

/// A package that a registry search found.
pub struct PackageInfo {
    pub name: String,
    pub latest: String,
    pub description: Option<String>,
}

/// What searching one registry gave: packages, or an error message.
pub enum SearchOutcome {
    Found(Vec<PackageInfo>),
    Failed(String),
}

/// One registry's search, under the registry's key (empty for the default
/// registry).
pub struct RepoSearch {
    pub key: String,
    pub outcome: SearchOutcome,
}

/// A line of the search report.
#[derive(Debug, PartialEq, Eq)]
pub enum SearchLine {
    /// The column headings: name, latest, description.
    Header,
    /// The rule under the headings.
    Rule,
    Package { name: String, latest: String, description: String },
    /// A registry that found nothing: `label`, then the message.
    Status { label: String, message: String },
    Warning(String),
    /// No registry found anything.
    NothingFound(String),
}

pub struct PackageView {
    pub name: Seq<char>,
    pub latest: Seq<char>,
    pub description: Option<Seq<char>>,
}

pub enum OutcomeView {
    Found(Seq<PackageView>),
    Failed(Seq<char>),
}

pub struct RepoView {
    pub key: Seq<char>,
    pub outcome: OutcomeView,
}

pub enum LineView {
    Header,
    Rule,
    Package(Seq<char>, Seq<char>, Seq<char>),
    Status(Seq<char>, Seq<char>),
    Warning(Seq<char>),
    NothingFound(Seq<char>),
}

impl View for PackageInfo {
    type V = PackageView;

    open spec fn view(&self) -> PackageView {
        PackageView {
            name: self.name@,
            latest: self.latest@,
            description: opt_str(self.description),
        }
    }
}

pub open spec fn package_views(v: Seq<PackageInfo>) -> Seq<PackageView> {
    v.map_values(|p: PackageInfo| p@)
}

impl View for RepoSearch {
    type V = RepoView;

    open spec fn view(&self) -> RepoView {
        RepoView {
            key: self.key@,
            outcome: match self.outcome {
                SearchOutcome::Found(v) => OutcomeView::Found(package_views(v@)),
                SearchOutcome::Failed(m) => OutcomeView::Failed(m@),
            },
        }
    }
}

impl View for SearchLine {
    type V = LineView;

    open spec fn view(&self) -> LineView {
        match self {
            SearchLine::Header => LineView::Header,
            SearchLine::Rule => LineView::Rule,
            SearchLine::Package { name, latest, description } => LineView::Package(
                name@,
                latest@,
                description@,
            ),
            SearchLine::Status { label, message } => LineView::Status(label@, message@),
            SearchLine::Warning(m) => LineView::Warning(m@),
            SearchLine::NothingFound(m) => LineView::NothingFound(m@),
        }
    }
}

pub open spec fn repo_views(v: Seq<RepoSearch>) -> Seq<RepoView> {
    v.map_values(|r: RepoSearch| r@)
}

pub open spec fn line_views(v: Seq<SearchLine>) -> Seq<LineView> {
    v.map_values(|l: SearchLine| l@)
}

/// How a registry is named in the report: its key, or `freight.dev` for the
/// default registry.
pub open spec fn repo_label(key: Seq<char>) -> Seq<char> {
    if key.len() == 0 {
        "freight.dev"@
    } else {
        key
    }
}

pub open spec fn package_lines(ps: Seq<PackageView>) -> Seq<LineView> {
    ps.map_values(
        |p: PackageView|
            LineView::Package(
                p.name,
                p.latest,
                match p.description {
                    Some(d) => d,
                    None => seq![],
                },
            ),
    )
}

/// The report for the registries `rs` (in order) when `any` tells whether an
/// earlier registry found something: the headings before the first packages,
/// every package, a status line for a registry that found nothing, a warning
/// for one that failed, and a last line when none found anything.
pub open spec fn report_from(query: Seq<char>, rs: Seq<RepoView>, any: bool) -> Seq<LineView>
    decreases rs.len(),
{
    if rs.len() == 0 {
        if any {
            seq![]
        } else {
            seq![LineView::NothingFound("no packages found matching `"@ + query + "`"@)]
        }
    } else {
        let r = rs[0];
        let label = repo_label(r.key);
        match r.outcome {
            OutcomeView::Found(ps) => if ps.len() > 0 {
                (if any {
                    Seq::<LineView>::empty()
                } else {
                    seq![LineView::Header, LineView::Rule]
                }) + package_lines(ps) + report_from(query, rs.drop_first(), true)
            } else {
                seq![LineView::Status(label, "no results for `"@ + query + "`"@)] + report_from(
                    query,
                    rs.drop_first(),
                    any,
                )
            },
            OutcomeView::Failed(e) => seq![LineView::Warning(label + ": "@ + e)] + report_from(
                query,
                rs.drop_first(),
                any,
            ),
        }
    }
}

fn cat(a: &str, b: &str) -> (r: String)
    ensures
        r@ == a@ + b@,
{
    string_of(&concat(&chars_of(a), &chars_of(b)))
}

fn push_line(v: &mut Vec<SearchLine>, l: SearchLine)
    ensures
        line_views(final(v)@) == line_views(old(v)@).push(l@),
{
    let ghost before = v@;
    let ghost lv = l@;
    v.push(l);
    assert(line_views(v@) =~= line_views(before).push(lv));
}

impl SearchArgs {
    /// The report of this search, given what each registry searched (in
    /// order) gave.
    pub fn run(&self, results: &Vec<RepoSearch>) -> (r: Vec<SearchLine>)
        ensures
            line_views(r@) == report_from(self.query@, repo_views(results@), false),
    {
        let ghost q = self.query@;
        let ghost rv = repo_views(results@);
        let mut out: Vec<SearchLine> = Vec::new();
        let mut any = false;
        let mut i: usize = 0;
        assert(rv.skip(0) =~= rv);
        assert(line_views(out@) =~= Seq::<LineView>::empty());
        while i < results.len()
            invariant
                i <= results.len(),
                q == self.query@,
                rv == repo_views(results@),
                line_views(out@) + report_from(q, rv.skip(i as int), any) == report_from(
                    q,
                    rv,
                    false,
                ),
            decreases results.len() - i,
        {
            let r = &results[i];
            assert(rv.skip(i as int)[0] == r@);
            assert(rv.skip(i as int).drop_first() =~= rv.skip(i + 1));
            let ghost o0 = line_views(out@);
            let label = if r.key.as_str().unicode_len() == 0 {
                owned("freight.dev")
            } else {
                owned(r.key.as_str())
            };
            match &r.outcome {
                SearchOutcome::Found(ps) => {
                    if ps.len() > 0 {
                        if !any {
                            push_line(&mut out, SearchLine::Header);
                            push_line(&mut out, SearchLine::Rule);
                        }
                        let ghost o1 = line_views(out@);
                        let mut k: usize = 0;
                        while k < ps.len()
                            invariant
                                k <= ps.len(),
                                line_views(out@) == o1 + package_lines(package_views(ps@)).take(
                                    k as int,
                                ),
                            decreases ps.len() - k,
                        {
                            let p = &ps[k];
                            let d = match &p.description {
                                Some(d) => owned(d.as_str()),
                                None => String::new(),
                            };
                            let ghost before = line_views(out@);
                            push_line(
                                &mut out,
                                SearchLine::Package {
                                    name: owned(p.name.as_str()),
                                    latest: owned(p.latest.as_str()),
                                    description: d,
                                },
                            );
                            assert(package_lines(package_views(ps@)).take(k + 1) =~= package_lines(
                                package_views(ps@),
                            ).take(k as int).push(package_lines(package_views(ps@))[k as int]));
                            k = k + 1;
                        }
                        assert(package_lines(package_views(ps@)).take(k as int) =~= package_lines(
                            package_views(ps@),
                        ));
                        assert(line_views(out@) + report_from(q, rv.skip(i + 1), true) =~= o0 + (
                        (if any {
                            Seq::<LineView>::empty()
                        } else {
                            seq![LineView::Header, LineView::Rule]
                        }) + package_lines(package_views(ps@)) + report_from(
                            q,
                            rv.skip(i + 1),
                            true,
                        )));
                        any = true;
                    } else {
                        let m = cat(cat("no results for `", self.query.as_str()).as_str(), "`");
                        push_line(&mut out, SearchLine::Status { label, message: m });
                        assert(line_views(out@) + report_from(q, rv.skip(i + 1), any) =~= o0 + (
                        seq![LineView::Status(repo_label(r.key@), "no results for `"@ + q + "`"@)]
                            + report_from(q, rv.skip(i + 1), any)));
                    }
                },
                SearchOutcome::Failed(e) => {
                    let m = cat(cat(label.as_str(), ": ").as_str(), e.as_str());
                    push_line(&mut out, SearchLine::Warning(m));
                    assert(line_views(out@) + report_from(q, rv.skip(i + 1), any) =~= o0 + (seq![
                        LineView::Warning(repo_label(r.key@) + ": "@ + e@),
                    ] + report_from(q, rv.skip(i + 1), any)));
                },
            }
            i = i + 1;
        }
        assert(rv.skip(i as int) =~= Seq::<RepoView>::empty());
        if !any {
            let m = cat(cat("no packages found matching `", self.query.as_str()).as_str(), "`");
            push_line(&mut out, SearchLine::NothingFound(m));
        } else {
            assert(line_views(out@) + Seq::<LineView>::empty() =~= line_views(out@));
        }
        out
    }
}

// ── freight login ─────────────────────────────────────────────────────────────

/// How `freight login` proceeds.
#[derive(PartialEq, Eq, Structural, Clone, Copy, Debug)]
pub enum LoginMode {
    /// Save the given token, or prompt for one.
    Token,
    /// Log in with a username and password.
    Credentials,
    /// The interactive login screen.
    Interactive,
}

/// A token or plain prompts save a token; a username or password logs in
/// with credentials; otherwise the interactive screen runs.
pub open spec fn login_mode_spec(a: LoginArgs) -> LoginMode {
    if a.token is Some || a.notui {
        LoginMode::Token
    } else if a.username is Some || a.password is Some {
        LoginMode::Credentials
    } else {
        LoginMode::Interactive
    }
}

/// A configured registry.
pub struct Registry {
    pub name: String,
    pub url: String,
}

pub open spec fn registry_views(v: Seq<Registry>) -> Seq<(Seq<char>, Seq<char>)> {
    v.map_values(|r: Registry| (r.name@, r.url@))
}

/// The name of the first registry with URL `url`, else `freight`.
pub open spec fn registry_name_for(rs: Seq<(Seq<char>, Seq<char>)>, url: Seq<char>) -> Seq<char>
    decreases rs.len(),
{
    if rs.len() == 0 {
        "freight"@
    } else if rs[0].1 == url {
        rs[0].0
    } else {
        registry_name_for(rs.drop_first(), url)
    }
}

/// The URL a token is saved for: the one given, else the first configured
/// registry's, else the default registry's.
pub open spec fn login_url_spec(
    given: Option<Seq<char>>,
    rs: Seq<(Seq<char>, Seq<char>)>,
    default_url: Seq<char>,
) -> Seq<char> {
    match given {
        Some(u) => u,
        None => if rs.len() > 0 {
            rs[0].1
        } else {
            default_url
        },
    }
}

impl LoginArgs {
    /// How this login proceeds.
    pub fn mode(&self) -> (r: LoginMode)
        ensures
            r == login_mode_spec(*self),
    {
        if self.token.is_some() || self.notui {
            LoginMode::Token
        } else if self.username.is_some() || self.password.is_some() {
            LoginMode::Credentials
        } else {
            LoginMode::Interactive
        }
    }
}

/// The registry URL and name that a token is saved under.
pub fn login_target(given: Option<&str>, registries: &Vec<Registry>, default_url: &str) -> (r: (
    String,
    String,
))
    ensures
        r.0@ == login_url_spec(
            match given {
                Some(g) => Some(g@),
                None => None,
            },
            registry_views(registries@),
            default_url@,
        ),
        r.1@ == registry_name_for(registry_views(registries@), r.0@),
{
    let ghost rv = registry_views(registries@);
    let url = match given {
        Some(u) => owned(u),
        None => if registries.len() > 0 {
            assert(rv[0] == (registries@[0].name@, registries@[0].url@));
            owned(registries[0].url.as_str())
        } else {
            owned(default_url)
        },
    };
    let uc = chars_of(url.as_str());
    let mut i: usize = 0;
    assert(rv.skip(0) =~= rv);
    while i < registries.len()
        invariant
            i <= registries.len(),
            rv == registry_views(registries@),
            uc@ == url@,
            url@ == login_url_spec(
                match given {
                    Some(g) => Some(g@),
                    None => None,
                },
                rv,
                default_url@,
            ),
            registry_name_for(rv.skip(i as int), url@) == registry_name_for(rv, url@),
        decreases registries.len() - i,
    {
        assert(rv.skip(i as int)[0] == (registries@[i as int].name@, registries@[i as int].url@));
        if crate::text::eq_str(&uc, registries[i].url.as_str()) {
            return (url, owned(registries[i].name.as_str()));
        }
        assert(rv.skip(i as int).drop_first() =~= rv.skip(i + 1));
        i = i + 1;
    }
    assert(rv.skip(i as int) =~= Seq::<(Seq<char>, Seq<char>)>::empty());
    (url, owned("freight"))
}


// ── freight tui ───────────────────────────────────────────────────────────────

/// The registry URL and token the admin screen starts with: a token given on
/// the command line (or in the environment) keeps the given URL; without one,
/// the saved session's URL and token; without either, the given URL and no
/// token (the login screen).
pub open spec fn tui_session_spec(
    url: Seq<char>,
    token: Option<Seq<char>>,
    saved: Option<(Seq<char>, Seq<char>)>,
) -> (Seq<char>, Option<Seq<char>>) {
    match (token, saved) {
        (Some(t), _) => (url, Some(t)),
        (None, Some((u, t))) => (u, Some(t)),
        (None, None) => (url, None),
    }
}

impl TuiArgs {
    /// The URL and token to start with, given the saved session (its URL and
    /// token) if there is one.
    pub fn session(self, saved: Option<(String, String)>) -> (r: (String, Option<String>))
        ensures
            (r.0@, opt_str(r.1)) == tui_session_spec(
                self.url@,
                opt_str(self.token),
                match saved {
                    Some((u, t)) => Some((u@, t@)),
                    None => None,
                },
            ),
    {
        match (self.token, saved) {
            (Some(t), _) => (self.url, Some(t)),
            (None, Some((u, t))) => (u, Some(t)),
            (None, None) => (self.url, None),
        }
    }
}

} // verus!
