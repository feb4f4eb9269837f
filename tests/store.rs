use link_checker::error::{formatter, CheckerError};
use link_checker::plan::{active_urls, should_flush};
use link_checker::store::{classify, Link, Results, Verdict, Working, DAY};

const T0: i64 = 1_600_000_000_000_000;

fn s(x: &str) -> String {
    x.to_string()
}

#[test]
fn success_is_recorded_with_last_working() {
    let mut r = Results::new();
    r.record(s("https://example.com/always-200"), Ok(()), T0);
    let l = r.get(&s("https://example.com/always-200")).unwrap();
    assert_eq!(l.working, Working::Yes);
    assert_eq!(l.last_working, Some(T0));
    assert_eq!(l.updated_at, T0);
}

#[test]
fn failure_keeps_last_working() {
    let mut r = Results::new();
    let u = s("https://example.com/flaky");
    r.record(u.clone(), Ok(()), T0);
    r.record(u.clone(), Err(CheckerError::HttpError { status: 500, location: None }), T0 + DAY);
    let l = r.get(&u).unwrap();
    assert_eq!(l.last_working, Some(T0));
    assert_eq!(l.updated_at, T0 + DAY);
    assert_eq!(l.working, Working::No(CheckerError::HttpError { status: 500, location: None }));
}

#[test]
fn first_failure_has_no_last_working() {
    let mut r = Results::new();
    let u = s("https://example.com/gone");
    r.record(u.clone(), Err(CheckerError::TravisBuildUnknown), T0);
    assert_eq!(r.get(&u).unwrap().last_working, None);
}

#[test]
fn recent_success_is_not_checked() {
    let mut r = Results::new();
    let u = s("https://example.com/");
    assert!(r.should_check(&u, T0));
    r.record(u.clone(), Ok(()), T0);
    assert!(!r.should_check(&u, T0 + 2 * DAY));
    assert!(!r.should_check(&u, T0 + 3 * DAY - 1));
    assert!(r.should_check(&u, T0 + 3 * DAY));
}

#[test]
fn failed_link_is_always_checked() {
    let mut r = Results::new();
    let u = s("https://example.com/");
    r.record(u.clone(), Err(CheckerError::ReqwestError { error: s("dns") }), T0);
    assert!(r.should_check(&u, T0));
}

#[test]
fn prune_drops_unlisted() {
    let mut r = Results::new();
    r.record(s("https://a.example/"), Ok(()), T0);
    r.record(s("https://b.example/"), Ok(()), T0);
    r.record(s("https://c.example/"), Ok(()), T0);
    r.prune(&vec![s("https://b.example/"), s("https://d.example/")]);
    assert!(r.get(&s("https://a.example/")).is_none());
    assert!(r.get(&s("https://b.example/")).is_some());
    assert!(r.get(&s("https://c.example/")).is_none());
    assert!(r.get(&s("https://d.example/")).is_none());
    assert_eq!(r.urls(), vec![s("https://b.example/")]);
}

#[test]
fn second_run_touches_only_timestamps() {
    let active = vec![s("https://ok.example/"), s("https://down.example/")];
    let mut r = Results::new();
    for now in [T0, T0 + 60_000_000] {
        r.prune(&active);
        for u in r.due(&active, now) {
            let result = if u.contains("ok") { Ok(()) } else { Err(CheckerError::HttpError { status: 503, location: None }) };
            r.record(u, result, now);
        }
    }
    let ok = r.get(&s("https://ok.example/")).unwrap();
    assert_eq!(ok.updated_at, T0);
    let down = r.get(&s("https://down.example/")).unwrap();
    assert_eq!(down.updated_at, T0 + 60_000_000);
    assert_eq!(down.last_working, None);
}

#[test]
fn structural_failure_always_reported() {
    let mut r = Results::new();
    let u = s("https://example.com/missing");
    r.record(u.clone(), Ok(()), T0);
    r.record(u.clone(), Err(CheckerError::HttpError { status: 404, location: None }), T0 + 1);
    assert_eq!(classify(r.get(&u).unwrap(), T0 + 2), Verdict::Failure);
    assert!(!r.passes(T0 + 2));
}

#[test]
fn recent_failure_is_a_warning() {
    let link = Link {
        last_working: Some(T0),
        updated_at: T0 + DAY,
        working: Working::No(CheckerError::HttpError { status: 500, location: None }),
    };
    assert_eq!(classify(&link, T0 + 7 * DAY), Verdict::Warning);
    assert_eq!(classify(&link, T0 + 7 * DAY + 1), Verdict::Failure);
}

#[test]
fn never_working_failure_is_reported() {
    let link = Link { last_working: None, updated_at: T0, working: Working::No(CheckerError::TravisBuildNoBranch) };
    assert_eq!(classify(&link, T0), Verdict::Failure);
}

#[test]
fn one_404_fails_the_run() {
    let mut r = Results::new();
    r.record(s("https://a.example/"), Ok(()), T0);
    r.record(s("https://b.example/"), Err(CheckerError::HttpError { status: 404, location: None }), T0);
    let failures = r.urls().iter().filter(|u| classify(r.get(u).unwrap(), T0) == Verdict::Failure).count();
    assert_eq!(failures, 1);
    assert!(!r.passes(T0));
}

#[test]
fn all_fine_passes() {
    let mut r = Results::new();
    r.record(s("https://a.example/"), Ok(()), T0);
    assert!(r.passes(T0));
    assert!(Results::new().passes(T0));
}

#[test]
fn active_urls_filters_and_dedups() {
    let found = vec![s("https://a.example/"), s("#section"), s("docs/x.md"), s("http://b.example/"), s("https://a.example/")];
    assert_eq!(active_urls(&found), vec![s("https://a.example/"), s("http://b.example/")]);
}

#[test]
fn flush_policy() {
    assert!(!should_flush(5_000_000, 20));
    assert!(should_flush(5_000_001, 0));
    assert!(should_flush(0, 21));
}

#[test]
fn formatter_messages() {
    let u = s("https://example.com/");
    assert_eq!(
        formatter(&CheckerError::HttpError { status: 302, location: Some(s("https://x.example/")) }, &u),
        "[302] https://example.com/ -> https://x.example/"
    );
    assert_eq!(formatter(&CheckerError::HttpError { status: 404, location: None }, &u), "[404] https://example.com/");
    assert_eq!(formatter(&CheckerError::TravisBuildUnknown, &u), "[Unknown travis build] https://example.com/");
    assert_eq!(
        formatter(&CheckerError::TravisBuildNoBranch, &u),
        "[Travis build image with no branch specified] https://example.com/"
    );
    assert_eq!(
        formatter(&CheckerError::GithubActionNoBranch, &u),
        "[Github action image with no branch specified] https://example.com/"
    );
    assert_eq!(formatter(&CheckerError::NotTried, &u), "NotTried");
    assert_eq!(
        formatter(&CheckerError::ReqwestError { error: s("bad \"tls\"") }, &u),
        "ReqwestError { error: \"bad \\\"tls\\\"\" }"
    );
}
