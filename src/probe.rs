//! One logical check of one URL, as a machine that is handed what the network
//! answered and says what to do next: send a request, read the body, or finish.
//! Rewrite rules start a fresh check of another URL with a budget of its own;
//! its outcome stands for the original URL.
use vstd::prelude::*;
use crate::error::{CheckerError, ErrorView, opt_view};
use crate::rules::{
    actions_repo_of, actions_repo_url, github_api_of, github_api_url, is_actions_badge,
    is_actions_badge_url, is_azure_build, is_azure_build_url, is_github_api, is_github_api_url,
    is_travis_badge, is_travis_badge_url, names_branch, names_branch_url, youtube_thumb_of,
    youtube_thumb_url,
};
use crate::text::{chars_of, contains, contains_exec};

verus! {

/// Requests made for one URL before its last failure stands.
pub const MAX_ATTEMPTS: u8 = 5;

/// Rewrites taken in a row before the rules stop applying; guards against cycles.
pub const MAX_DEPTH: u8 = 3;

/// The text whose presence in a Travis CI badge means an unknown build.
pub const UNKNOWN: &'static str = "unknown";

/// The absolute URL that `location` names relative to `base`, if both parse.
pub uninterp spec fn joined_url(base: Seq<char>, location: Seq<char>) -> Option<Seq<char>>;

/// Relies on `Url::parse` (reqwest's re-export of the url crate) to read `base`,
/// and on `Url::join` to resolve `location` against it.
#[verifier::external_body]
fn join_url(base: &str, location: &str) -> (r: Option<String>)
    ensures
        opt_view(r) == joined_url(base@, location@),
{
    match reqwest::Url::parse(base) {
        Ok(b) => match b.join(location) {
            Ok(u) => Some(String::from(u)),
            Err(_) => None,
        },
        Err(_) => None,
    }
}

/// What the network did with the last request.
#[derive(Debug)]
pub enum Event {
    /// The request failed below HTTP.
    Failed { error: String },
    /// The server answered with a status and, maybe, a `Location` header.
    Answered { status: u16, location: Option<String> },
    /// The body of the last answer, as text.
    Body { text: String },
}

pub enum EventView {
    Failed { error: Seq<char> },
    Answered { status: u16, location: Option<Seq<char>> },
    Body { text: Seq<char> },
}

impl View for Event {
    type V = EventView;

    open spec fn view(&self) -> EventView {
        match self {
            Event::Failed { error } => EventView::Failed { error: error@ },
            Event::Answered { status, location } => EventView::Answered {
                status: *status,
                location: opt_view(*location),
            },
            Event::Body { text } => EventView::Body { text: text@ },
        }
    }
}

/// What the caller is to do next.
#[derive(Debug)]
pub enum Action {
    /// GET `url`, with basic authentication where `basic_auth` holds.
    Send { url: String, basic_auth: bool },
    /// Read the body of the last answer and hand it back as `Event::Body`.
    ReadBody,
    /// The check is over.
    Finish { result: Result<(), CheckerError> },
}

pub enum ActionView {
    Send { url: Seq<char>, basic_auth: bool },
    ReadBody,
    Finish { result: Result<(), ErrorView> },
}

impl View for Action {
    type V = ActionView;

    open spec fn view(&self) -> ActionView {
        match self {
            Action::Send { url, basic_auth } => ActionView::Send { url: url@, basic_auth: *basic_auth },
            Action::ReadBody => ActionView::ReadBody,
            Action::Finish { result } => ActionView::Finish {
                result: match result {
                    Ok(()) => Ok(()),
                    Err(e) => Err(e@),
                },
            },
        }
    }
}

/// The state of one check.
#[derive(Debug)]
pub struct Probe {
    /// The URL whose outcome this check decides.
    pub key: String,
    /// The URL requested now: the key, or what a rewrite put in its place.
    pub url: String,
    /// Requests sent for `url`.
    pub attempts: u8,
    /// Rewrites taken to reach `url`.
    pub depth: u8,
    /// Whether GitHub credentials are configured.
    pub credentials: bool,
    /// The last failure seen for `url`.
    pub last: CheckerError,
}

pub struct ProbeView {
    pub key: Seq<char>,
    pub url: Seq<char>,
    pub attempts: u8,
    pub depth: u8,
    pub credentials: bool,
    pub last: ErrorView,
}

impl View for Probe {
    type V = ProbeView;

    open spec fn view(&self) -> ProbeView {
        ProbeView {
            key: self.key@,
            url: self.url@,
            attempts: self.attempts,
            depth: self.depth,
            credentials: self.credentials,
            last: self.last@,
        }
    }
}

/// A request to `url`, with basic authentication exactly for the GitHub API
/// when credentials are configured.
pub open spec fn send_of(url: Seq<char>, credentials: bool) -> ActionView {
    ActionView::Send { url, basic_auth: credentials && is_github_api(url) }
}

/// A fresh check of `url` on behalf of `key`, `depth` rewrites deep: with
/// credentials, a bare repository page is checked through the API instead.
pub open spec fn begin(key: Seq<char>, url: Seq<char>, depth: u8, credentials: bool) -> (
    ProbeView,
    ActionView,
)
    decreases MAX_DEPTH - depth,
{
    if credentials && depth < MAX_DEPTH && github_api_of(url) is Some {
        begin(key, github_api_of(url)->Some_0, (depth + 1) as u8, credentials)
    } else {
        (
            ProbeView { key, url, attempts: 1, depth, credentials, last: ErrorView::NotTried },
            send_of(url, credentials),
        )
    }
}

/// A failure that may be retried: another request while the budget lasts,
/// else the failure is the outcome.
pub open spec fn retry(p: ProbeView, err: ErrorView) -> (ProbeView, ActionView) {
    if p.attempts < MAX_ATTEMPTS {
        (
            ProbeView { attempts: (p.attempts + 1) as u8, last: err, ..p },
            send_of(p.url, p.credentials),
        )
    } else {
        (ProbeView { last: err, ..p }, ActionView::Finish { result: Err(err) })
    }
}

/// The end of the check with `result`, the state left as it was.
pub open spec fn finish(p: ProbeView, result: Result<(), ErrorView>) -> (ProbeView, ActionView) {
    (p, ActionView::Finish { result })
}

/// Where the Azure DevOps rule sends a 302 from `url` with `location`, if it applies.
pub open spec fn azure_target(url: Seq<char>, location: Option<Seq<char>>) -> Option<Seq<char>> {
    match location {
        Some(loc) => if is_azure_build(url) {
            joined_url(url, loc)
        } else {
            None
        },
        None => None,
    }
}

/// What the check does on an answer with `status`.
pub open spec fn on_answer(p: ProbeView, status: u16, location: Option<Seq<char>>) -> (
    ProbeView,
    ActionView,
) {
    let deeper = p.depth < MAX_DEPTH;
    if status == 200 {
        if is_travis_badge(p.url) {
            (p, ActionView::ReadBody)
        } else if is_actions_badge(p.url) && !names_branch(p.url) {
            finish(p, Err(ErrorView::GithubActionNoBranch))
        } else {
            finish(p, Ok(()))
        }
    } else if status == 404 && deeper && actions_repo_of(p.url) is Some {
        begin(p.key, actions_repo_of(p.url)->Some_0, (p.depth + 1) as u8, p.credentials)
    } else if status == 302 && deeper && youtube_thumb_of(p.url) is Some {
        begin(p.key, youtube_thumb_of(p.url)->Some_0, (p.depth + 1) as u8, p.credentials)
    } else if status == 302 && deeper && azure_target(p.url, location) is Some {
        begin(p.key, azure_target(p.url, location)->Some_0, (p.depth + 1) as u8, p.credentials)
    } else if 300 <= status < 400 {
        finish(p, Err(ErrorView::HttpError { status, location }))
    } else {
        retry(p, ErrorView::HttpError { status, location: None })
    }
}

/// What the check does on the body of a Travis CI badge.
pub open spec fn on_body(p: ProbeView, text: Seq<char>) -> (ProbeView, ActionView) {
    if contains(text, UNKNOWN@) {
        finish(p, Err(ErrorView::TravisBuildUnknown))
    } else if !names_branch(p.url) {
        finish(p, Err(ErrorView::TravisBuildNoBranch))
    } else {
        finish(p, Ok(()))
    }
}

/// The next state and action of check `p` on `e`.
pub open spec fn step_of(p: ProbeView, e: EventView) -> (ProbeView, ActionView) {
    match e {
        EventView::Failed { error } => retry(p, ErrorView::ReqwestError { error }),
        EventView::Answered { status, location } => on_answer(p, status, location),
        EventView::Body { text } => on_body(p, text),
    }
}

/// The state after `events` and the actions they called for, in order.
pub open spec fn drive(p: ProbeView, events: Seq<EventView>) -> (ProbeView, Seq<ActionView>)
    decreases events.len(),
{
    if events.len() == 0 {
        (p, Seq::empty())
    } else {
        let (q, a) = step_of(p, events[0]);
        let (r, rest) = drive(q, events.drop_first());
        (r, seq![a] + rest)
    }
}

/// A fresh check starts with one request sent, on behalf of `key`.
pub proof fn lemma_begin(key: Seq<char>, url: Seq<char>, depth: u8, credentials: bool)
    requires
        depth <= MAX_DEPTH,
    ensures
        ({
            let (p, a) = begin(key, url, depth, credentials);
            &&& p.key == key
            &&& p.attempts == 1
            &&& depth <= p.depth <= MAX_DEPTH
            &&& p.credentials == credentials
            &&& p.last == ErrorView::NotTried
            &&& a == send_of(p.url, credentials)
        }),
    decreases MAX_DEPTH - depth,
{
    if credentials && depth < MAX_DEPTH && github_api_of(url) is Some {
        lemma_begin(key, github_api_of(url)->Some_0, (depth + 1) as u8, credentials);
    }
}

fn send(url: &String, credentials: bool) -> (a: Action)
    ensures
        a@ == send_of(url@, credentials),
{
    Action::Send { url: url.clone(), basic_auth: credentials && is_github_api_url(url.as_str()) }
}

fn begin_exec(key: String, url: String, depth: u8, credentials: bool) -> (r: (Probe, Action))
    requires
        depth <= MAX_DEPTH,
    ensures
        (r.0@, r.1@) == begin(key@, url@, depth, credentials),
    decreases MAX_DEPTH - depth,
{
    if credentials && depth < MAX_DEPTH {
        if let Some(api) = github_api_url(url.as_str()) {
            return begin_exec(key, api, depth + 1, credentials);
        }
    }
    let a = send(&url, credentials);
    (Probe { key, url, attempts: 1, depth, credentials, last: CheckerError::NotTried }, a)
}

impl Probe {
    /// Whether the probe is one that `start` and `step` can produce.
    pub open spec fn wf(&self) -> bool {
        1 <= self.attempts <= MAX_ATTEMPTS && self.depth <= MAX_DEPTH
    }

    /// Begins the check of `url` and names the first request.
    pub fn start(url: String, credentials: bool) -> (r: (Probe, Action))
        ensures
            (r.0@, r.1@) == begin(url@, url@, 0, credentials),
            r.0.wf(),
    {
        let key = url.clone();
        let r = begin_exec(key, url, 0, credentials);
        proof { lemma_begin(url@, url@, 0, credentials); }
        r
    }

    fn retry_exec(&mut self, err: CheckerError) -> (a: Action)
        requires
            old(self).wf(),
        ensures
            (final(self)@, a@) == retry(old(self)@, err@),
            final(self).wf(),
    {
        if self.attempts < MAX_ATTEMPTS {
            self.attempts = self.attempts + 1;
            self.last = err;
            send(&self.url, self.credentials)
        } else {
            self.last = err.duplicate();
            Action::Finish { result: Err(err) }
        }
    }

    fn rewrite(&mut self, url: String) -> (a: Action)
        requires
            old(self).wf(),
            old(self).depth < MAX_DEPTH,
        ensures
            (final(self)@, a@) == begin(old(self)@.key, url@, (old(self).depth + 1) as u8, old(self).credentials),
            final(self).wf(),
    {
        let (q, a) = begin_exec(self.key.clone(), url, self.depth + 1, self.credentials);
        proof { lemma_begin(self.key@, url@, (self.depth + 1) as u8, self.credentials); }
        *self = q;
        a
    }

    fn answer(&mut self, status: u16, location: Option<String>) -> (a: Action)
        requires
            old(self).wf(),
        ensures
            (final(self)@, a@) == on_answer(old(self)@, status, opt_view(location)),
            final(self).wf(),
    {
        let deeper = self.depth < MAX_DEPTH;
        if status == 200 {
            if is_travis_badge_url(self.url.as_str()) {
                Action::ReadBody
            } else if is_actions_badge_url(self.url.as_str()) && !names_branch_url(self.url.as_str()) {
                Action::Finish { result: Err(CheckerError::GithubActionNoBranch) }
            } else {
                Action::Finish { result: Ok(()) }
            }
        } else {
            if status == 404 && deeper {
                if let Some(repo) = actions_repo_url(self.url.as_str()) {
                    return self.rewrite(repo);
                }
            }
            if status == 302 && deeper {
                if let Some(thumb) = youtube_thumb_url(self.url.as_str()) {
                    return self.rewrite(thumb);
                }
                if let Some(loc) = &location {
                    if is_azure_build_url(self.url.as_str()) {
                        if let Some(target) = join_url(self.url.as_str(), loc.as_str()) {
                            return self.rewrite(target);
                        }
                    }
                }
            }
            if 300 <= status && status < 400 {
                Action::Finish { result: Err(CheckerError::HttpError { status, location }) }
            } else {
                self.retry_exec(CheckerError::HttpError { status, location: None })
            }
        }
    }

    /// Takes in what the network did with the last request and names what
    /// to do next.
    pub fn step(&mut self, event: Event) -> (a: Action)
        requires
            old(self).wf(),
        ensures
            (final(self)@, a@) == step_of(old(self)@, event@),
            final(self).wf(),
    {
        match event {
            Event::Failed { error } => self.retry_exec(CheckerError::ReqwestError { error }),
            Event::Answered { status, location } => self.answer(status, location),
            Event::Body { text } => {
                if contains_exec(&chars_of(text.as_str()), UNKNOWN) {
                    Action::Finish { result: Err(CheckerError::TravisBuildUnknown) }
                } else if !names_branch_url(self.url.as_str()) {
                    Action::Finish { result: Err(CheckerError::TravisBuildNoBranch) }
                } else {
                    Action::Finish { result: Ok(()) }
                }
            },
        }
    }
}

} // verus!
