//! From a stored target to the redirect that answers a request.

use vstd::prelude::*;
use vstd::string::*;
use crate::reply::{failure_caused, outcome_view, Failure, FailureKind, OutcomeView, Reply, ReplyView};

verus! {

/// Why a string is no absolute URL.
#[derive(Clone, Copy, Debug, PartialEq, Eq, Structural)]
pub enum UrlParseError {
    /// The string has no scheme, and there is nothing to resolve it against.
    RelativeUrlWithoutBase,
    /// Any other reason.
    Other,
}

/// What the URL parser makes of a string: the serialization of the URL that
/// it reads, or the reason why it reads none.
pub uninterp spec fn parsed_url(input: Seq<char>) -> Result<Seq<char>, UrlParseError>;

/// The view of a parse outcome.
pub open spec fn parse_view(outcome: Result<String, UrlParseError>) -> Result<
    Seq<char>,
    UrlParseError,
> {
    match outcome {
        Ok(url) => Ok(url@),
        Err(e) => Err(e),
    }
}

/// `url::Url::parse`, with the URL handed back as its serialization
/// (`String::from(Url)`) and the error reduced to whether it is
/// `ParseError::RelativeUrlWithoutBase`. The outcome is a function of the
/// input alone; no more is claimed of it.
#[verifier::external_body]
fn parse_url(input: &str) -> (outcome: Result<String, UrlParseError>)
    ensures
        parse_view(outcome) == parsed_url(input@),
{
    match url::Url::parse(input) {
        Ok(url) => Ok(String::from(url)),
        Err(url::ParseError::RelativeUrlWithoutBase) => Err(UrlParseError::RelativeUrlWithoutBase),
        Err(_) => Err(UrlParseError::Other),
    }
}

/// The status of a permanent redirect.
pub const MOVED_PERMANENTLY: u16 = 301;

/// What follows an attempt to parse a target.
#[derive(Debug, PartialEq, Eq)]
pub enum Attempt {
    /// The request is answered.
    Settled(Result<Reply, Failure>),
    /// The target had no scheme: this string, the target behind `https://`,
    /// is to be parsed in its place.
    Retry(String),
}

/// The mathematical content of an [`Attempt`].
pub ghost enum AttemptView {
    Settled(OutcomeView),
    Retry(Seq<char>),
}

impl View for Attempt {
    type V = AttemptView;

    open spec fn view(&self) -> AttemptView {
        match *self {
            Attempt::Settled(outcome) => AttemptView::Settled(outcome_view(outcome)),
            Attempt::Retry(attempt) => AttemptView::Retry(attempt@),
        }
    }
}

/// The permanent redirect to a parsed URL.
pub open spec fn redirect_to(url: Seq<char>) -> OutcomeView {
    Ok(ReplyView::Redirect { status: MOVED_PERMANENTLY, location: url })
}

/// The failure that names the string which could not be parsed.
pub open spec fn unparsable(attempted: Seq<char>) -> OutcomeView {
    Err(failure_caused(FailureKind::InternalError, 500, "failed to parse url"@, attempted))
}

/// After the first attempt: a parsed URL is the redirect's location; a
/// target without a scheme gets one more attempt behind `https://`; any other
/// error ends the request.
pub open spec fn after_first_attempt(
    target: Seq<char>,
    outcome: Result<Seq<char>, UrlParseError>,
) -> AttemptView {
    match outcome {
        Ok(url) => AttemptView::Settled(redirect_to(url)),
        Err(UrlParseError::RelativeUrlWithoutBase) => AttemptView::Retry("https://"@ + target),
        Err(UrlParseError::Other) => AttemptView::Settled(unparsable(target)),
    }
}

/// After the second attempt there is no third.
pub open spec fn after_second_attempt(
    attempted: Seq<char>,
    outcome: Result<Seq<char>, UrlParseError>,
) -> OutcomeView {
    match outcome {
        Ok(url) => redirect_to(url),
        Err(_) => unparsable(attempted),
    }
}

/// The answer to a request whose slug stands for `target`.
pub open spec fn redirect_outcome(target: Seq<char>) -> OutcomeView {
    match after_first_attempt(target, parsed_url(target)) {
        AttemptView::Settled(outcome) => outcome,
        AttemptView::Retry(attempt) => after_second_attempt(attempt, parsed_url(attempt)),
    }
}

/// Decides what follows the first attempt to parse `target`.
pub fn settle_first_attempt(target: &str, outcome: Result<String, UrlParseError>) -> (next: Attempt)
    ensures
        next@ == after_first_attempt(target@, parse_view(outcome)),
{
    match outcome {
        Ok(url) => Attempt::Settled(Ok(Reply::Redirect { status: MOVED_PERMANENTLY, location: url })),
        Err(UrlParseError::RelativeUrlWithoutBase) => {
            Attempt::Retry("https://".to_owned().concat(target))
        },
        Err(UrlParseError::Other) => Attempt::Settled(
            Err(Failure::caused(FailureKind::InternalError, 500, "failed to parse url", target)),
        ),
    }
}

/// Decides what follows the second attempt, made on `attempted`.
pub fn settle_second_attempt(attempted: &str, outcome: Result<String, UrlParseError>) -> (settled:
    Result<Reply, Failure>)
    ensures
        outcome_view(settled) == after_second_attempt(attempted@, parse_view(outcome)),
{
    match outcome {
        Ok(url) => Ok(Reply::Redirect { status: MOVED_PERMANENTLY, location: url }),
        Err(_) => Err(
            Failure::caused(FailureKind::InternalError, 500, "failed to parse url", attempted),
        ),
    }
}

/// Answers a request whose slug stands for `target`: a permanent redirect to
/// the URL that the target parses to, alone or behind `https://`.
pub fn redirect(target: &str) -> (settled: Result<Reply, Failure>)
    ensures
        outcome_view(settled) == redirect_outcome(target@),
{
    match settle_first_attempt(target, parse_url(target)) {
        Attempt::Settled(outcome) => outcome,
        Attempt::Retry(attempt) => {
            let second = parse_url(attempt.as_str());
            settle_second_attempt(attempt.as_str(), second)
        },
    }
}

} // verus!
