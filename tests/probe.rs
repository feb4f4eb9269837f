use link_checker::error::CheckerError;
use link_checker::probe::{Action, Event, Probe};
use link_checker::store::{classify, Results, Verdict, Working};

fn sent(a: &Action) -> (String, bool) {
    match a {
        Action::Send { url, basic_auth } => (url.clone(), *basic_auth),
        other => panic!("expected a request, got {:?}", other),
    }
}

fn finished(a: Action) -> Result<(), CheckerError> {
    match a {
        Action::Finish { result } => result,
        other => panic!("expected the end, got {:?}", other),
    }
}

fn answered(status: u16) -> Event {
    Event::Answered { status, location: None }
}

#[test]
fn plain_page_ok() {
    let (mut p, a) = Probe::start("https://example.com/always-200".to_string(), false);
    assert_eq!(sent(&a), ("https://example.com/always-200".to_string(), false));
    assert_eq!(finished(p.step(answered(200))), Ok(()));
}

#[test]
fn transport_errors_use_five_attempts() {
    let (mut p, a) = Probe::start("https://nowhere.invalid/".to_string(), false);
    let mut requests = 1;
    sent(&a);
    loop {
        let a = p.step(Event::Failed { error: format!("refused {}", requests) });
        match a {
            Action::Send { .. } => requests += 1,
            Action::Finish { result } => {
                assert_eq!(result, Err(CheckerError::ReqwestError { error: "refused 5".to_string() }));
                break;
            }
            Action::ReadBody => panic!("no body was asked for"),
        }
    }
    assert_eq!(requests, 5);
    assert_eq!(p.attempts, 5);
}

#[test]
fn server_errors_are_retried_then_reported() {
    let (mut p, _) = Probe::start("https://example.com/broken".to_string(), false);
    for _ in 0..4 {
        sent(&p.step(answered(500)));
    }
    assert_eq!(
        finished(p.step(answered(500))),
        Err(CheckerError::HttpError { status: 500, location: None })
    );
}

#[test]
fn redirect_is_not_retried() {
    let (mut p, _) = Probe::start("https://example.com/moved".to_string(), false);
    let a = p.step(Event::Answered { status: 302, location: Some("/elsewhere".to_string()) });
    assert_eq!(
        finished(a),
        Err(CheckerError::HttpError { status: 302, location: Some("/elsewhere".to_string()) })
    );
    assert_eq!(p.attempts, 1);
}

#[test]
fn permanent_redirect_keeps_location() {
    let (mut p, _) = Probe::start("http://example.com/".to_string(), false);
    let a = p.step(Event::Answered { status: 301, location: Some("https://example.com/".to_string()) });
    assert_eq!(
        finished(a),
        Err(CheckerError::HttpError { status: 301, location: Some("https://example.com/".to_string()) })
    );
}

#[test]
fn repo_page_goes_through_api_with_credentials() {
    let (mut p, a) = Probe::start("https://github.com/rust-lang/rust".to_string(), true);
    assert_eq!(sent(&a), ("https://api.github.com/repos/rust-lang/rust".to_string(), true));
    assert_eq!(p.key, "https://github.com/rust-lang/rust");
    assert_eq!(p.attempts, 1);
    for _ in 0..4 {
        assert_eq!(
            sent(&p.step(Event::Failed { error: "timeout".to_string() })).0,
            "https://api.github.com/repos/rust-lang/rust"
        );
    }
    assert!(matches!(p.step(Event::Failed { error: "timeout".to_string() }), Action::Finish { .. }));
}

#[test]
fn repo_page_is_direct_without_credentials() {
    let (_, a) = Probe::start("https://github.com/rust-lang/rust".to_string(), false);
    assert_eq!(sent(&a), ("https://github.com/rust-lang/rust".to_string(), false));
}

#[test]
fn actions_page_404_checks_repo() {
    let (mut p, _) = Probe::start("https://github.com/x/y/actions".to_string(), false);
    let a = p.step(answered(404));
    assert_eq!(sent(&a), ("https://github.com/x/y".to_string(), false));
    assert_eq!(p.key, "https://github.com/x/y/actions");
    assert_eq!(p.attempts, 1);
    assert_eq!(finished(p.step(answered(200))), Ok(()));
}

#[test]
fn actions_page_with_credentials_reaches_api() {
    let (mut p, _) = Probe::start("https://github.com/x/y/actions?workflow=CI".to_string(), true);
    let a = p.step(answered(404));
    assert_eq!(sent(&a), ("https://api.github.com/repos/x/y".to_string(), true));
    assert_eq!(p.depth, 2);
}

#[test]
fn youtube_redirect_checks_thumbnail() {
    let (mut p, _) = Probe::start("https://www.youtube.com/watch?v=abc123".to_string(), false);
    let a = p.step(answered(302));
    assert_eq!(sent(&a).0, "http://img.youtube.com/vi/abc123/mqdefault.jpg");
}

#[test]
fn azure_redirect_checks_resolved_target() {
    let (mut p, _) = Probe::start("https://dev.azure.com/org/proj/_build?definitionId=1".to_string(), false);
    let a = p.step(Event::Answered {
        status: 302,
        location: Some("/org/proj/_build/results?buildId=42".to_string()),
    });
    assert_eq!(sent(&a).0, "https://dev.azure.com/org/proj/_build/results?buildId=42");
}

#[test]
fn azure_redirect_without_location_is_reported() {
    let (mut p, _) = Probe::start("https://dev.azure.com/org/proj/_build".to_string(), false);
    assert_eq!(
        finished(p.step(answered(302))),
        Err(CheckerError::HttpError { status: 302, location: None })
    );
}

#[test]
fn travis_badge_with_branch_ok() {
    let (mut p, _) = Probe::start("https://api.travis-ci.org/x/y.svg?branch=main".to_string(), false);
    assert!(matches!(p.step(answered(200)), Action::ReadBody));
    assert_eq!(finished(p.step(Event::Body { text: "<svg>passing</svg>".to_string() })), Ok(()));
}

#[test]
fn travis_badge_without_branch() {
    let (mut p, _) = Probe::start("https://api.travis-ci.org/x/y.svg".to_string(), false);
    assert!(matches!(p.step(answered(200)), Action::ReadBody));
    assert_eq!(
        finished(p.step(Event::Body { text: "<svg>passing</svg>".to_string() })),
        Err(CheckerError::TravisBuildNoBranch)
    );
}

#[test]
fn travis_badge_unknown_build() {
    let (mut p, _) = Probe::start("https://api.travis-ci.com/x/y.svg?branch=main".to_string(), false);
    assert!(matches!(p.step(answered(200)), Action::ReadBody));
    assert_eq!(
        finished(p.step(Event::Body { text: "<svg>build unknown</svg>".to_string() })),
        Err(CheckerError::TravisBuildUnknown)
    );
}

#[test]
fn actions_badge_needs_branch() {
    let (mut p, _) = Probe::start("https://github.com/x/y/workflows/CI/badge.svg".to_string(), false);
    assert_eq!(finished(p.step(answered(200))), Err(CheckerError::GithubActionNoBranch));
    let (mut q, _) = Probe::start("https://github.com/x/y/workflows/CI/badge.svg?branch=master".to_string(), false);
    assert_eq!(finished(q.step(answered(200))), Ok(()));
}

#[test]
fn api_requests_use_basic_auth() {
    let (_, a) = Probe::start("https://api.github.com/repos/x/y".to_string(), true);
    assert_eq!(sent(&a), ("https://api.github.com/repos/x/y".to_string(), true));
}

/// Drives a probe of `url` to its end, answering each request with `answer`.
fn run_scripted(url: &str, answer: impl Fn(&str) -> (u16, &'static str)) -> Result<(), CheckerError> {
    let (mut p, mut a) = Probe::start(url.to_string(), false);
    let mut body = "";
    loop {
        a = match a {
            Action::Finish { result } => return result,
            Action::Send { url, .. } => {
                let (status, text) = answer(&url);
                body = text;
                p.step(Event::Answered { status, location: None })
            }
            Action::ReadBody => p.step(Event::Body { text: body.to_string() }),
        };
    }
}

#[test]
fn end_to_end_run() {
    let now: i64 = 1_700_000_000_000_000;
    let answer = |u: &str| -> (u16, &'static str) {
        match u {
            "https://github.com/x/y/actions" => (404, ""),
            "https://example.com/missing" => (404, ""),
            _ => (200, "<svg>passing</svg>"),
        }
    };
    let urls = [
        "https://example.com/always-200",
        "https://api.travis-ci.org/x/y.svg?branch=main",
        "https://github.com/x/y/actions",
        "https://example.com/missing",
    ];
    let mut r = Results::new();
    for u in urls {
        r.record(u.to_string(), run_scripted(u, answer), now);
    }
    let ok = r.get(&"https://example.com/always-200".to_string()).unwrap();
    assert_eq!(ok.working, Working::Yes);
    assert_eq!(ok.last_working, Some(now));
    assert_eq!(r.get(&"https://api.travis-ci.org/x/y.svg?branch=main".to_string()).unwrap().working, Working::Yes);
    assert_eq!(r.get(&"https://github.com/x/y/actions".to_string()).unwrap().working, Working::Yes);
    assert_eq!(
        run_scripted("https://api.travis-ci.org/x/y.svg", answer),
        Err(CheckerError::TravisBuildNoBranch)
    );
    let failures: Vec<String> = r
        .urls()
        .into_iter()
        .filter(|u| classify(r.get(u).unwrap(), now) == Verdict::Failure)
        .collect();
    assert_eq!(failures, vec!["https://example.com/missing".to_string()]);
    assert!(!r.passes(now));
}
