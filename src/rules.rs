//! The URL shapes of the hosting and CI providers whose quirks the checker
//! works around, and the URL that each rewrite rule substitutes.
use vstd::prelude::*;
use crate::text::{chars_of, contains, contains_exec, find_from, index_of, occurs_at, occurs_at_exec, starts_with};

verus! {

pub const GITHUB: &'static str = "https://github.com/";
pub const GITHUB_API: &'static str = "https://api.github.com/";
pub const GITHUB_API_REPOS: &'static str = "https://api.github.com/repos/";
pub const ACTIONS: &'static str = "/actions";
pub const ACTIONS_WORKFLOW: &'static str = "/actions?workflow=";
pub const YOUTUBE_WATCH: &'static str = "https://www.youtube.com/watch?v=";
pub const YOUTUBE_THUMB: &'static str = "http://img.youtube.com/vi/";
pub const YOUTUBE_THUMB_FILE: &'static str = "/mqdefault.jpg";
pub const AZURE: &'static str = "https://dev.azure.com/";
pub const AZURE_BUILD: &'static str = "/_build";
pub const TRAVIS_COM: &'static str = "https://api.travis-ci.com/";
pub const TRAVIS_ORG: &'static str = "https://api.travis-ci.org/";
pub const SVG: &'static str = ".svg";
pub const WORKFLOWS: &'static str = "/workflows/";
pub const BADGE: &'static str = "/badge.svg";
pub const BRANCH: &'static str = "branch=";

/// What follows the first `n` characters of `s`.
pub open spec fn after(s: Seq<char>, n: int) -> Seq<char> {
    s.subrange(n, s.len() as int)
}

/// `r` is `{org}/{repo}`: two non-empty segments and one slash.
pub open spec fn is_two_segments(r: Seq<char>) -> bool {
    match index_of(r, '/', 0) {
        Some(k) => 0 < k && k + 1 < r.len() && index_of(r, '/', k + 1) is None,
        None => false,
    }
}

/// Where `{org}/{repo}` ends in `r` when `r` is `{org}/{repo}/...`: the
/// position of the slash after the repository.
pub open spec fn repo_end(r: Seq<char>) -> Option<int> {
    match index_of(r, '/', 0) {
        Some(k) => if k > 0 {
            match index_of(r, '/', k + 1) {
                Some(j) => if j > k + 1 { Some(j) } else { None },
                None => None,
            }
        } else {
            None
        },
        None => None,
    }
}

/// The part of `u` before its first `?`.
pub open spec fn path_of(u: Seq<char>) -> Seq<char> {
    match index_of(u, '?', 0) {
        Some(q) => u.subrange(0, q),
        None => u,
    }
}

/// The part of `u` from its first `?` on, empty where it has none.
pub open spec fn query_of(u: Seq<char>) -> Seq<char> {
    match index_of(u, '?', 0) {
        Some(q) => after(u, q),
        None => Seq::empty(),
    }
}

/// The query of `u` names a branch.
pub open spec fn names_branch(u: Seq<char>) -> bool {
    contains(query_of(u), BRANCH@)
}

/// `https://github.com/{org}/{repo}` becomes `https://api.github.com/repos/{org}/{repo}`.
pub open spec fn github_api_of(u: Seq<char>) -> Option<Seq<char>> {
    if starts_with(u, GITHUB@) && is_two_segments(after(u, GITHUB@.len() as int)) {
        Some(GITHUB_API_REPOS@ + after(u, GITHUB@.len() as int))
    } else {
        None
    }
}

/// Requests to the GitHub API carry the configured credentials.
pub open spec fn is_github_api(u: Seq<char>) -> bool {
    contains(u, GITHUB_API@)
}

/// `https://github.com/{org}/{repo}/actions[?workflow=...]` becomes
/// `https://github.com/{org}/{repo}`.
pub open spec fn actions_repo_of(u: Seq<char>) -> Option<Seq<char>> {
    let r = after(u, GITHUB@.len() as int);
    if starts_with(u, GITHUB@) {
        match repo_end(r) {
            Some(j) => {
                let tail = after(r, j);
                if tail == ACTIONS@ || (starts_with(tail, ACTIONS_WORKFLOW@) && tail.len()
                    > ACTIONS_WORKFLOW@.len()) {
                    Some(u.subrange(0, GITHUB@.len() + j))
                } else {
                    None
                }
            },
            None => None,
        }
    } else {
        None
    }
}

/// `https://www.youtube.com/watch?v={id}` becomes
/// `http://img.youtube.com/vi/{id}/mqdefault.jpg`.
pub open spec fn youtube_thumb_of(u: Seq<char>) -> Option<Seq<char>> {
    if starts_with(u, YOUTUBE_WATCH@) && u.len() > YOUTUBE_WATCH@.len() {
        Some(YOUTUBE_THUMB@ + after(u, YOUTUBE_WATCH@.len() as int) + YOUTUBE_THUMB_FILE@)
    } else {
        None
    }
}

/// `u` is `https://dev.azure.com/{org}/{project}/_build...`.
pub open spec fn is_azure_build(u: Seq<char>) -> bool {
    let r = after(u, AZURE@.len() as int);
    starts_with(u, AZURE@) && match repo_end(r) {
        Some(j) => occurs_at(r, j, AZURE_BUILD@),
        None => false,
    }
}

/// `r` is `{slug}/{path}.svg` with a non-empty slug and path.
pub open spec fn is_travis_image(r: Seq<char>) -> bool {
    match index_of(r, '/', 0) {
        Some(k) => k > 0 && r.len() >= k + 2 + SVG@.len() && occurs_at(
            r,
            r.len() - SVG@.len(),
            SVG@,
        ),
        None => false,
    }
}

/// `u` is a Travis CI badge: `https://api.travis-ci.(com|org)/{slug}/{path}.svg[?query]`.
pub open spec fn is_travis_badge(u: Seq<char>) -> bool {
    let p = path_of(u);
    (starts_with(p, TRAVIS_COM@) && is_travis_image(after(p, TRAVIS_COM@.len() as int))) || (
    starts_with(p, TRAVIS_ORG@) && is_travis_image(after(p, TRAVIS_ORG@.len() as int)))
}

/// `u` is a GitHub Actions badge:
/// `https://github.com/{org}/{repo}/workflows/{name}/badge.svg[?query]`.
pub open spec fn is_actions_badge(u: Seq<char>) -> bool {
    let p = path_of(u);
    let r = after(p, GITHUB@.len() as int);
    starts_with(p, GITHUB@) && match repo_end(r) {
        Some(j) => {
            let n = after(r, j + WORKFLOWS@.len());
            occurs_at(r, j, WORKFLOWS@) && match index_of(n, '/', 0) {
                Some(m) => m > 0 && after(n, m) == BADGE@,
                None => false,
            }
        },
        None => false,
    }
}

/// The characters of `s` from position `n` on.
fn suffix_chars(s: &str, n: usize) -> (r: Vec<char>)
    requires
        n <= s@.len(),
    ensures
        r@ == after(s@, n as int),
{
    let len = s.unicode_len();
    chars_of(s.substring_char(n, len))
}

fn repo_end_exec(r: &Vec<char>) -> (o: Option<usize>)
    ensures
        o matches Some(j) ==> repo_end(r@) == Some(j as int) && j < r@.len(),
        o is None ==> repo_end(r@) is None,
{
    match find_from(r, '/', 0) {
        Some(k) => {
            if k > 0 {
                match find_from(r, '/', k + 1) {
                    Some(j) => if j > k + 1 {
                        Some(j)
                    } else {
                        None
                    },
                    None => None,
                }
            } else {
                None
            }
        },
        None => None,
    }
}

/// The API address that stands for a bare repository page.
pub fn github_api_url(url: &str) -> (r: Option<String>)
    ensures
        r matches Some(s) ==> github_api_of(url@) == Some(s@),
        r is None ==> github_api_of(url@) is None,
{
    let u = chars_of(url);
    let n = GITHUB.unicode_len();
    if !occurs_at_exec(&u, 0, GITHUB) {
        return None;
    }
    let r = suffix_chars(url, n);
    let two = match find_from(&r, '/', 0) {
        Some(k) => 0 < k && k + 1 < r.len() && find_from(&r, '/', k + 1).is_none(),
        None => false,
    };
    if two {
        let rest = url.substring_char(n, url.unicode_len());
        Some(String::from_str(GITHUB_API_REPOS).concat(rest))
    } else {
        None
    }
}

/// Whether a request to `url` goes to the GitHub API.
pub fn is_github_api_url(url: &str) -> (r: bool)
    ensures
        r == is_github_api(url@),
{
    contains_exec(&chars_of(url), GITHUB_API)
}

/// The repository page that stands for an Actions page.
pub fn actions_repo_url(url: &str) -> (r: Option<String>)
    ensures
        r matches Some(s) ==> actions_repo_of(url@) == Some(s@),
        r is None ==> actions_repo_of(url@) is None,
{
    let u = chars_of(url);
    let n = GITHUB.unicode_len();
    if !occurs_at_exec(&u, 0, GITHUB) {
        return None;
    }
    let r = suffix_chars(url, n);
    match repo_end_exec(&r) {
        Some(j) => {
            let tail = suffix_chars(url, n + j);
            assert(tail@ =~= after(r@, j as int));
            let is_page = (tail.len() == ACTIONS.unicode_len() && occurs_at_exec(&tail, 0, ACTIONS))
                || (tail.len() > ACTIONS_WORKFLOW.unicode_len() && occurs_at_exec(
                &tail,
                0,
                ACTIONS_WORKFLOW,
            ));
            proof {
                assert(tail@ =~= tail@.subrange(0, tail@.len() as int));
            }
            if is_page {
                Some(String::from_str(url.substring_char(0, n + j)))
            } else {
                None
            }
        },
        None => None,
    }
}

/// The thumbnail address that stands for a YouTube watch page.
pub fn youtube_thumb_url(url: &str) -> (r: Option<String>)
    ensures
        r matches Some(s) ==> youtube_thumb_of(url@) == Some(s@),
        r is None ==> youtube_thumb_of(url@) is None,
{
    let u = chars_of(url);
    let n = YOUTUBE_WATCH.unicode_len();
    if occurs_at_exec(&u, 0, YOUTUBE_WATCH) && u.len() > n {
        let id = url.substring_char(n, url.unicode_len());
        Some(String::from_str(YOUTUBE_THUMB).concat(id).concat(YOUTUBE_THUMB_FILE))
    } else {
        None
    }
}

/// Whether `url` is an Azure DevOps build page.
pub fn is_azure_build_url(url: &str) -> (r: bool)
    ensures
        r == is_azure_build(url@),
{
    let u = chars_of(url);
    let n = AZURE.unicode_len();
    if !occurs_at_exec(&u, 0, AZURE) {
        return false;
    }
    let r = suffix_chars(url, n);
    match repo_end_exec(&r) {
        Some(j) => occurs_at_exec(&r, j, AZURE_BUILD),
        None => false,
    }
}

/// The part of `u` before its first `?`, and the part from it on.
fn split_query(u: &Vec<char>) -> (r: (usize, bool))
    ensures
        r.0 <= u@.len(),
        r.1 ==> index_of(u@, '?', 0) == Some(r.0 as int),
        !r.1 ==> index_of(u@, '?', 0) is None && r.0 == u@.len(),
{
    match find_from(u, '?', 0) {
        Some(q) => (q, true),
        None => (u.len(), false),
    }
}

fn travis_image_exec(r: &Vec<char>) -> (b: bool)
    ensures
        b == is_travis_image(r@),
{
    let m = SVG.unicode_len();
    match find_from(r, '/', 0) {
        Some(k) => k > 0 && r.len() - k >= 2 && r.len() - k - 2 >= m && occurs_at_exec(r, r.len() - m, SVG),
        None => false,
    }
}

/// Whether `url` is a Travis CI badge image.
pub fn is_travis_badge_url(url: &str) -> (r: bool)
    ensures
        r == is_travis_badge(url@),
{
    let u = chars_of(url);
    let (q, _) = split_query(&u);
    let path = url.substring_char(0, q);
    let p = chars_of(path);
    assert(p@ =~= path_of(url@));
    let com = if occurs_at_exec(&p, 0, TRAVIS_COM) {
        travis_image_exec(&suffix_chars(path, TRAVIS_COM.unicode_len()))
    } else {
        false
    };
    let org = if occurs_at_exec(&p, 0, TRAVIS_ORG) {
        travis_image_exec(&suffix_chars(path, TRAVIS_ORG.unicode_len()))
    } else {
        false
    };
    com || org
}

/// Whether `url` is a GitHub Actions badge image.
pub fn is_actions_badge_url(url: &str) -> (r: bool)
    ensures
        r == is_actions_badge(url@),
{
    let u = chars_of(url);
    let (q, _) = split_query(&u);
    let path = url.substring_char(0, q);
    let p = chars_of(path);
    assert(p@ =~= path_of(url@));
    let g = GITHUB.unicode_len();
    if !occurs_at_exec(&p, 0, GITHUB) {
        return false;
    }
    let r = suffix_chars(path, g);
    let w = WORKFLOWS.unicode_len();
    match repo_end_exec(&r) {
        Some(j) => {
            if !occurs_at_exec(&r, j, WORKFLOWS) {
                return false;
            }
            let n = suffix_chars(path, g + j + w);
            assert(n@ =~= after(r@, j + w));
            match find_from(&n, '/', 0) {
                Some(m) => {
                    let tail = suffix_chars(path, g + j + w + m);
                    assert(tail@ =~= after(n@, m as int));
                    assert(tail@ =~= tail@.subrange(0, tail@.len() as int));
                    m > 0 && tail.len() == BADGE.unicode_len() && occurs_at_exec(&tail, 0, BADGE)
                },
                None => false,
            }
        },
        None => false,
    }
}

/// Whether the query of `url` names a branch.
pub fn names_branch_url(url: &str) -> (r: bool)
    ensures
        r == names_branch(url@),
{
    let u = chars_of(url);
    let (q, _) = split_query(&u);
    let query = chars_of(url.substring_char(q, url.unicode_len()));
    assert(query@ =~= query_of(url@));
    contains_exec(&query, BRANCH)
}

} // verus!
