//! What a handler hands back: a reply to render, or a failure that ends the
//! request with a plain-text message and a status.

use vstd::prelude::*;
use vstd::string::*;

verus! {

/// Why a request failed.
#[derive(Clone, Copy, Debug, PartialEq, Eq, Structural)]
pub enum FailureKind {
    /// The caller sent something the handler cannot use.
    InvalidInput,
    /// The caller's token is not the configured one.
    Unauthorized,
    /// The hosting environment lacks a secret or a binding.
    ServerMisconfiguration,
    /// Neither the compiled-in table nor the store knows the slug.
    NotFound,
    /// The store or the URL parser failed.
    InternalError,
}

/// A failure that ends a request: the message is the whole plain-text body.
#[derive(Debug, PartialEq, Eq)]
pub struct Failure {
    pub kind: FailureKind,
    pub status: u16,
    pub message: String,
}

/// The mathematical content of a [`Failure`].
pub ghost struct FailureView {
    pub kind: FailureKind,
    pub status: u16,
    pub message: Seq<char>,
}

impl View for Failure {
    type V = FailureView;

    open spec fn view(&self) -> FailureView {
        FailureView { kind: self.kind, status: self.status, message: self.message@ }
    }
}

/// A reply to render.
#[derive(Debug, PartialEq, Eq)]
pub enum Reply {
    /// Plain text.
    Text { status: u16, body: String },
    /// A JSON object whose members, in this order, map a name to a string.
    Json { status: u16, members: Vec<(String, String)> },
    /// A redirect to `location`.
    Redirect { status: u16, location: String },
}

/// The mathematical content of a [`Reply`].
pub ghost enum ReplyView {
    Text { status: u16, body: Seq<char> },
    Json { status: u16, members: Seq<(Seq<char>, Seq<char>)> },
    Redirect { status: u16, location: Seq<char> },
}

impl View for Reply {
    type V = ReplyView;

    open spec fn view(&self) -> ReplyView {
        match *self {
            Reply::Text { status, body } => ReplyView::Text { status, body: body@ },
            Reply::Json { status, members } => ReplyView::Json {
                status,
                members: members.deep_view(),
            },
            Reply::Redirect { status, location } => ReplyView::Redirect {
                status,
                location: location@,
            },
        }
    }
}

/// The outcome of a handler, as contracts speak of it.
pub type OutcomeView = Result<ReplyView, FailureView>;

/// The view of a handler's outcome.
pub open spec fn outcome_view(outcome: Result<Reply, Failure>) -> OutcomeView {
    match outcome {
        Ok(reply) => Ok(reply@),
        Err(failure) => Err(failure@),
    }
}

/// The statuses under which each kind of failure is reported. An unknown
/// slug is reported as a server fault.
pub open spec fn status_fits(kind: FailureKind, status: u16) -> bool {
    match kind {
        FailureKind::InvalidInput => status == 400 || status == 422,
        FailureKind::Unauthorized => status == 401,
        FailureKind::ServerMisconfiguration => status == 500,
        FailureKind::NotFound => status == 500,
        FailureKind::InternalError => status == 500,
    }
}

/// Whether an outcome is a reply, or a failure under a status of its kind.
pub open spec fn fails_fittingly(outcome: OutcomeView) -> bool {
    outcome matches Err(failure) ==> status_fits(failure.kind, failure.status)
}

/// The failure with the given message.
pub open spec fn failure(kind: FailureKind, status: u16, message: Seq<char>) -> FailureView {
    FailureView { kind, status, message }
}

/// The failure whose message gives the context and then the cause.
pub open spec fn failure_caused(
    kind: FailureKind,
    status: u16,
    context: Seq<char>,
    cause: Seq<char>,
) -> FailureView {
    FailureView { kind, status, message: context + ": "@ + cause }
}

/// What a failure looks like on the wire: its message as plain text, under
/// its status.
pub open spec fn rendered(outcome: OutcomeView) -> ReplyView {
    match outcome {
        Ok(reply) => reply,
        Err(failure) => ReplyView::Text { status: failure.status, body: failure.message },
    }
}

impl Failure {
    /// A failure with the given message.
    pub fn new(kind: FailureKind, status: u16, message: &str) -> (made: Failure)
        ensures
            made@ == failure(kind, status, message@),
    {
        Failure { kind, status, message: message.to_owned() }
    }

    /// A failure that keeps the text of its cause behind the context.
    pub fn caused(kind: FailureKind, status: u16, context: &str, cause: &str) -> (made: Failure)
        ensures
            made@ == failure_caused(kind, status, context@, cause@),
    {
        let message = context.to_owned().concat(": ").concat(cause);
        Failure { kind, status, message }
    }
}

/// An absent value ends the request with the given message and status.
pub fn absent_to_failure<T>(
    value: Option<T>,
    kind: FailureKind,
    message: &str,
    status: u16,
) -> (mapped: Result<T, Failure>)
    ensures
        match value {
            Some(v) => mapped == Ok::<T, Failure>(v),
            None => mapped is Err && mapped->Err_0@ == failure(kind, status, message@),
        },
{
    match value {
        Some(v) => Ok(v),
        None => Err(Failure::new(kind, status, message)),
    }
}

/// A failure of a lower layer ends the request; its cause text follows the
/// context, so neither is lost.
pub fn cause_to_failure<T>(
    value: Result<T, String>,
    kind: FailureKind,
    context: &str,
    status: u16,
) -> (mapped: Result<T, Failure>)
    ensures
        match value {
            Ok(v) => mapped == Ok::<T, Failure>(v),
            Err(cause) => mapped is Err && mapped->Err_0@ == failure_caused(
                kind,
                status,
                context@,
                cause@,
            ),
        },
{
    match value {
        Ok(v) => Ok(v),
        Err(cause) => Err(Failure::caused(kind, status, context, cause.as_str())),
    }
}

/// Renders the outcome of a handler: a reply as it is, a failure as its
/// message in plain text under its status.
pub fn render(outcome: Result<Reply, Failure>) -> (reply: Reply)
    ensures
        reply@ == rendered(outcome_view(outcome)),
{
    match outcome {
        Ok(reply) => reply,
        Err(failure) => Reply::Text { status: failure.status, body: failure.message },
    }
}

} // verus!
