//! The closed set of ways in which a link check can fail, and the one-line
//! message that the final report prints for each.
use vstd::prelude::*;

verus! {

/// Why a link is not working.
#[derive(Debug, Clone, PartialEq, Eq)]
pub enum CheckerError {
    /// No request was made yet; never the outcome of a finished check.
    NotTried,
    /// The server answered with a status other than 200.
    HttpError { status: u16, location: Option<String> },
    /// The request failed below HTTP: DNS, connection, TLS or timeout.
    ReqwestError { error: String },
    /// A Travis CI badge reports an unknown build.
    TravisBuildUnknown,
    /// A Travis CI badge names no branch.
    TravisBuildNoBranch,
    /// A GitHub Actions badge names no branch.
    GithubActionNoBranch,
}

/// `CheckerError` with its strings seen as character sequences.
pub enum ErrorView {
    NotTried,
    HttpError { status: u16, location: Option<Seq<char>> },
    ReqwestError { error: Seq<char> },
    TravisBuildUnknown,
    TravisBuildNoBranch,
    GithubActionNoBranch,
}

pub open spec fn opt_view(o: Option<String>) -> Option<Seq<char>> {
    match o {
        Some(s) => Some(s@),
        None => None,
    }
}

/// An outcome with its error seen through its view.
pub open spec fn result_view(r: Result<(), CheckerError>) -> Result<(), ErrorView> {
    match r {
        Ok(()) => Ok(()),
        Err(e) => Err(e@),
    }
}

impl View for CheckerError {
    type V = ErrorView;

    open spec fn view(&self) -> ErrorView {
        match self {
            CheckerError::NotTried => ErrorView::NotTried,
            CheckerError::HttpError { status, location } => ErrorView::HttpError {
                status: *status,
                location: opt_view(*location),
            },
            CheckerError::ReqwestError { error } => ErrorView::ReqwestError { error: error@ },
            CheckerError::TravisBuildUnknown => ErrorView::TravisBuildUnknown,
            CheckerError::TravisBuildNoBranch => ErrorView::TravisBuildNoBranch,
            CheckerError::GithubActionNoBranch => ErrorView::GithubActionNoBranch,
        }
    }
}

impl CheckerError {
    /// A copy of the error.
    pub fn duplicate(&self) -> (r: CheckerError)
        ensures
            r@ == self@,
    {
        match self {
            CheckerError::NotTried => CheckerError::NotTried,
            CheckerError::HttpError { status, location } => CheckerError::HttpError {
                status: *status,
                location: match location {
                    Some(l) => Some(l.clone()),
                    None => None,
                },
            },
            CheckerError::ReqwestError { error } => CheckerError::ReqwestError { error: error.clone() },
            CheckerError::TravisBuildUnknown => CheckerError::TravisBuildUnknown,
            CheckerError::TravisBuildNoBranch => CheckerError::TravisBuildNoBranch,
            CheckerError::GithubActionNoBranch => CheckerError::GithubActionNoBranch,
        }
    }
}

pub const DIGITS: &'static str = "0123456789";

/// The decimal digits of `n`, most significant first.
pub open spec fn decimal(n: nat) -> Seq<char>
    decreases n,
{
    if n < 10 {
        seq![DIGITS@[n as int]]
    } else {
        decimal(n / 10).push(DIGITS@[(n % 10) as int])
    }
}

/// `n` written in decimal.
pub fn decimal_string(n: u32) -> (r: String)
    ensures
        r@ == decimal(n as nat),
    decreases n,
{
    proof {
        reveal_strlit("0123456789");
    }
    let d = (n % 10) as usize;
    let digit = DIGITS.substring_char(d, d + 1);
    assert(digit@ =~= seq![DIGITS@[d as int]]);
    if n < 10 {
        String::from_str(digit)
    } else {
        let r = decimal_string(n / 10).concat(digit);
        assert(r@ =~= decimal(n as nat));
        r
    }
}

/// What `{:?}` prints for a string: the text in double quotes, escaped.
pub uninterp spec fn debug_quoted(s: Seq<char>) -> Seq<char>;

/// Relies on `<str as Debug>::fmt`, which quotes and escapes the text.
#[verifier::external_body]
fn debug_string(s: &str) -> (r: String)
    ensures
        r@ == debug_quoted(s@),
{
    format!("{:?}", s)
}

/// The report line for `err` on `url`.
pub open spec fn message(err: ErrorView, url: Seq<char>) -> Seq<char> {
    match err {
        ErrorView::HttpError { status, location } => match location {
            Some(loc) => "["@ + decimal(status as nat) + "] "@ + url + " -> "@ + loc,
            None => "["@ + decimal(status as nat) + "] "@ + url,
        },
        ErrorView::TravisBuildUnknown => "[Unknown travis build] "@ + url,
        ErrorView::TravisBuildNoBranch => "[Travis build image with no branch specified] "@ + url,
        ErrorView::GithubActionNoBranch => "[Github action image with no branch specified] "@
            + url,
        ErrorView::NotTried => "NotTried"@,
        ErrorView::ReqwestError { error } => "ReqwestError { error: "@ + debug_quoted(error)
            + " }"@,
    }
}

/// The one-line description of a failure that the report prints.
pub fn formatter(err: &CheckerError, url: &String) -> (r: String)
    ensures
        r@ == message(err@, url@),
{
    match err {
        CheckerError::HttpError { status, location } => {
            let head = String::from_str("[").concat(decimal_string(*status as u32).as_str()).concat(
                "] ",
            ).concat(url.as_str());
            match location {
                Some(loc) => head.concat(" -> ").concat(loc.as_str()),
                None => head,
            }
        },
        CheckerError::TravisBuildUnknown => String::from_str("[Unknown travis build] ").concat(
            url.as_str(),
        ),
        CheckerError::TravisBuildNoBranch => String::from_str(
            "[Travis build image with no branch specified] ",
        ).concat(url.as_str()),
        CheckerError::GithubActionNoBranch => String::from_str(
            "[Github action image with no branch specified] ",
        ).concat(url.as_str()),
        CheckerError::NotTried => String::from_str("NotTried"),
        CheckerError::ReqwestError { error } => String::from_str("ReqwestError { error: ").concat(
            debug_string(error.as_str()).as_str(),
        ).concat(" }"),
    }
}

} // verus!
