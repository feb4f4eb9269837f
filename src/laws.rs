//! Properties of the probe and the store that span several steps or calls.
use vstd::prelude::*;
use crate::error::ErrorView;
use crate::probe::{
    azure_target, begin, drive, lemma_begin, send_of, step_of, ActionView, EventView, ProbeView,
    MAX_DEPTH,
};
use crate::rules::{github_api_of, is_github_api, youtube_thumb_of, GITHUB, GITHUB_API};
use crate::store::{listed, lookup, needs_check, recorded, url_set, LinkView, MIN_BETWEEN_CHECKS};
use crate::text::occurs_at;

verus! {

/// One transport failure per element of `errors`.
pub open spec fn failures(errors: Seq<Seq<char>>) -> Seq<EventView> {
    errors.map_values(|e: Seq<char>| EventView::Failed { error: e })
}

/// What a check whose every request fails below HTTP calls for after the
/// first request: four more requests to the same URL, then the end with the
/// last failure.
pub open spec fn exhausted(p: ProbeView, errors: Seq<Seq<char>>) -> Seq<ActionView> {
    let s = send_of(p.url, p.credentials);
    seq![s, s, s, s, ActionView::Finish { result: Err(ErrorView::ReqwestError { error: errors[4] }) }]
}

/// A URL whose every request fails below HTTP is requested exactly five
/// times, and the check ends with the last transport failure.
pub proof fn lemma_transport_failures_use_budget(p: ProbeView, errors: Seq<Seq<char>>)
    requires
        p.attempts == 1,
        errors.len() == 5,
    ensures
        drive(p, failures(errors)).1 == exhausted(p, errors),
        drive(p, failures(errors)).0.attempts == 5,
{
    reveal_with_fuel(drive, 6);
    let ev = failures(errors);
    assert(ev.drop_first() =~= failures(errors.drop_first()));
    assert(ev.drop_first().drop_first() =~= failures(errors.drop_first().drop_first()));
    assert(ev.drop_first().drop_first().drop_first() =~= failures(
        errors.drop_first().drop_first().drop_first(),
    ));
    assert(ev.drop_first().drop_first().drop_first().drop_first() =~= failures(
        errors.drop_first().drop_first().drop_first().drop_first(),
    ));
    assert(ev.drop_first().drop_first().drop_first().drop_first().drop_first() =~= Seq::<
        EventView,
    >::empty());
    assert(drive(p, ev).1 =~= exhausted(p, errors));
}

/// A redirect that no rewrite rule takes ends the check on the request that
/// met it, with the status and the `Location` it carried.
pub proof fn lemma_redirect_is_final(p: ProbeView, status: u16, location: Option<Seq<char>>)
    requires
        300 <= status < 400,
        !(status == 302 && p.depth < MAX_DEPTH && (youtube_thumb_of(p.url) is Some || azure_target(
            p.url,
            location,
        ) is Some)),
    ensures
        step_of(p, EventView::Answered { status, location }) == (
            p,
            ActionView::Finish { result: Err(ErrorView::HttpError { status, location }) },
        ),
{
}

/// With credentials, a bare repository page is checked through the API
/// address, with authentication and a full budget of its own.
pub proof fn lemma_repo_rewrite_has_own_budget(url: Seq<char>, errors: Seq<Seq<char>>)
    requires
        github_api_of(url) is Some,
        errors.len() == 5,
    ensures
        ({
            let (p, first) = begin(url, url, 0, true);
            &&& p.key == url
            &&& p.url == github_api_of(url)->Some_0
            &&& first == (ActionView::Send { url: p.url, basic_auth: true })
            &&& drive(p, failures(errors)).1 == exhausted(p, errors)
        }),
{
    let api = github_api_of(url)->Some_0;
    reveal_strlit("https://github.com/");
    reveal_strlit("https://api.github.com/");
    reveal_strlit("https://api.github.com/repos/");
    assert(api[8] != GITHUB@[8]);
    assert(api.subrange(0, GITHUB@.len() as int)[8] != GITHUB@[8]);
    assert(github_api_of(api) is None);
    assert(occurs_at(api, 0, GITHUB_API@)) by {
        assert(api.subrange(0, GITHUB_API@.len() as int) =~= GITHUB_API@);
    }
    assert(is_github_api(api));
    reveal_with_fuel(begin, 2);
    assert(begin(url, url, 0, true) == begin(url, api, 1, true));
    assert(begin(url, api, 1, true).0.url == api);
    lemma_begin(url, url, 0, true);
    lemma_transport_failures_use_budget(begin(url, url, 0, true).0, errors);
}

/// A link whose last check succeeded less than three days ago is not
/// checked: no request is made for it.
pub proof fn lemma_recent_success_is_skipped(m: Map<Seq<char>, LinkView>, url: Seq<char>, now: i64)
    requires
        m.contains_key(url),
        m[url].working is Yes,
        now - m[url].updated_at < MIN_BETWEEN_CHECKS,
    ensures
        !needs_check(lookup(m, url), now),
{
}

/// After pruning to the URLs of `active`, no other URL holds a record,
/// whether or not it was ever checked in this run.
pub proof fn lemma_pruned_urls_are_gone(m: Map<Seq<char>, LinkView>, active: Seq<String>, url: Seq<char>)
    requires
        !listed(active, url),
    ensures
        !m.restrict(url_set(active)).contains_key(url),
{
}

/// The store after a run over `active` at `now`: the URLs of `active` keep
/// their records where they are fresh, and the others get `outcome`'s result.
pub open spec fn after_run(
    m: Map<Seq<char>, LinkView>,
    active: Set<Seq<char>>,
    outcome: spec_fn(Seq<char>) -> Result<(), ErrorView>,
    now: i64,
) -> Map<Seq<char>, LinkView> {
    Map::new(
        |k: Seq<char>| active.contains(k),
        |k: Seq<char>|
            if needs_check(lookup(m, k), now) {
                recorded(lookup(m, k), outcome(k), now)
            } else {
                m[k]
            },
    )
}

/// Running twice in immediate succession, with every link answering as
/// before, leaves the store as the first run left it, but for the time of
/// the check on the links that were checked again; fresh records are untouched.
pub proof fn lemma_second_run_only_touches_timestamps(
    m: Map<Seq<char>, LinkView>,
    active: Set<Seq<char>>,
    outcome: spec_fn(Seq<char>) -> Result<(), ErrorView>,
    t1: i64,
    t2: i64,
)
    requires
        0 <= t2 - t1 < MIN_BETWEEN_CHECKS,
        forall|k: Seq<char>|
            #![trigger lookup(m, k)]
            active.contains(k) && !needs_check(lookup(m, k), t1) ==> !needs_check(lookup(m, k), t2),
    ensures
        ({
            let m1 = after_run(m, active, outcome, t1);
            let m2 = after_run(m1, active, outcome, t2);
            &&& m2.dom() == m1.dom()
            &&& forall|k: Seq<char>| #[trigger] m1.contains_key(k) ==> m2[k] == m1[k] || m2[k] == (
            LinkView { updated_at: t2, ..m1[k] })
            &&& forall|k: Seq<char>| #[trigger] m1.contains_key(k) && !needs_check(lookup(m1, k), t2)
                ==> m2[k] == m1[k]
        }),
{
    let m1 = after_run(m, active, outcome, t1);
    let m2 = after_run(m1, active, outcome, t2);
    assert(m2.dom() =~= m1.dom());
    assert forall|k: Seq<char>| #[trigger] m1.contains_key(k) implies m2[k] == m1[k] || m2[k] == (
    LinkView { updated_at: t2, ..m1[k] }) by {
        assert(lookup(m1, k) == Some(m1[k]));
        if needs_check(lookup(m, k), t1) {
            match outcome(k) {
                Ok(()) => {},
                Err(e) => {
                    assert(m2[k] == (LinkView { updated_at: t2, ..m1[k] }));
                },
            }
        } else {
            assert(!needs_check(lookup(m, k), t2));
        }
    }
}

/// Recording an outcome no earlier than the last check moves `updated_at`
/// forward, and a link that once worked keeps a `last_working` that never
/// moves back.
pub proof fn lemma_record_keeps_history(l: LinkView, result: Result<(), ErrorView>, now: i64)
    requires
        l.updated_at <= now,
        l.last_working matches Some(t) ==> t <= now,
    ensures
        l.updated_at <= recorded(Some(l), result, now).updated_at,
        l.last_working matches Some(t) ==> recorded(Some(l), result, now).last_working matches Some(u)
            && t <= u,
        result is Ok ==> recorded(Some(l), result, now).last_working == Some(now),
{
}

} // verus!
