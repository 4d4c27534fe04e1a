//! The exchange between a handler and the code that runs it. A handler never
//! waits: it names the outside work it needs as an [`Action`], and is called
//! again with the [`Event`] that tells how the work ended.

use vstd::prelude::*;
use vstd::string::*;
use crate::create::{PostAddRequestBody, PostAddRequestBodyView};
use crate::reply::{failure, outcome_view, Failure, FailureKind, FailureView, OutcomeView, Reply};

verus! {

/// How reading the configured secret ended.
#[derive(Debug, PartialEq, Eq)]
pub enum SecretLookup {
    /// No secret is configured under the name.
    Missing,
    /// A value is configured, but it is no string.
    NotText,
    /// The configured string.
    Text(String),
}

/// The mathematical content of a [`SecretLookup`].
pub ghost enum SecretLookupView {
    Missing,
    NotText,
    Text(Seq<char>),
}

impl View for SecretLookup {
    type V = SecretLookupView;

    open spec fn view(&self) -> SecretLookupView {
        match *self {
            SecretLookup::Missing => SecretLookupView::Missing,
            SecretLookup::NotText => SecretLookupView::NotText,
            SecretLookup::Text(text) => SecretLookupView::Text(text@),
        }
    }
}

/// Where a write to the store failed; each holds the cause text.
#[derive(Debug, PartialEq, Eq)]
pub enum WriteFailure {
    /// The write could not be built.
    Build(String),
    /// The write was built and did not go through.
    Execute(String),
}

/// The mathematical content of a [`WriteFailure`].
pub ghost enum WriteFailureView {
    Build(Seq<char>),
    Execute(Seq<char>),
}

impl View for WriteFailure {
    type V = WriteFailureView;

    open spec fn view(&self) -> WriteFailureView {
        match *self {
            WriteFailure::Build(cause) => WriteFailureView::Build(cause@),
            WriteFailure::Execute(cause) => WriteFailureView::Execute(cause@),
        }
    }
}

/// The view of an answer of the store.
pub open spec fn found_view(found: Result<Option<String>, String>) -> Result<
    Option<Seq<char>>,
    Seq<char>,
> {
    match found {
        Ok(Some(target)) => Ok(Some(target@)),
        Ok(None) => Ok(None),
        Err(cause) => Err(cause@),
    }
}

/// How a piece of outside work ended.
#[derive(Debug, PartialEq, Eq)]
pub enum Event {
    /// The request has arrived; nothing was asked for yet.
    Begin,
    /// The request body, decoded, or the text of why it could not be.
    Body(Result<PostAddRequestBody, String>),
    /// The configured secret.
    Secret(SecretLookup),
    /// Whether the store could be reached.
    StoreOpened(bool),
    /// A slug to try.
    Candidate(String),
    /// What the store holds under the slug asked for, or the text of why
    /// it could not be read.
    Found(Result<Option<String>, String>),
    /// Whether the write went through.
    Written(Result<(), WriteFailure>),
}

/// The mathematical content of an [`Event`].
pub ghost enum EventView {
    Begin,
    Body(Result<PostAddRequestBodyView, Seq<char>>),
    Secret(SecretLookupView),
    StoreOpened(bool),
    Candidate(Seq<char>),
    Found(Result<Option<Seq<char>>, Seq<char>>),
    Written(Result<(), WriteFailureView>),
}

impl View for Event {
    type V = EventView;

    open spec fn view(&self) -> EventView {
        match *self {
            Event::Begin => EventView::Begin,
            Event::Body(Ok(body)) => EventView::Body(Ok(body@)),
            Event::Body(Err(cause)) => EventView::Body(Err(cause@)),
            Event::Secret(lookup) => EventView::Secret(lookup@),
            Event::StoreOpened(opened) => EventView::StoreOpened(opened),
            Event::Candidate(slug) => EventView::Candidate(slug@),
            Event::Found(found) => EventView::Found(found_view(found)),
            Event::Written(Ok(())) => EventView::Written(Ok(())),
            Event::Written(Err(e)) => EventView::Written(Err(e@)),
        }
    }
}

/// The outside work that a handler asks for next.
#[derive(Debug, PartialEq, Eq)]
pub enum Action {
    /// Read the request body and decode it; answer with [`Event::Body`].
    ReadBody,
    /// Read the secret configured under `name`; answer with
    /// [`Event::Secret`].
    ReadSecret { name: String },
    /// Reach the store bound under `binding`; answer with
    /// [`Event::StoreOpened`].
    OpenStore { binding: String },
    /// Draw a slug; answer with [`Event::Candidate`].
    PickSlug,
    /// Read what the store holds under `slug`; answer with [`Event::Found`].
    Lookup { slug: String },
    /// Store `target` under `slug`; answer with [`Event::Written`].
    Write { slug: String, target: String },
    /// The request is over: send this.
    Respond(Result<Reply, Failure>),
}

/// The mathematical content of an [`Action`].
pub ghost enum ActionView {
    ReadBody,
    ReadSecret { name: Seq<char> },
    OpenStore { binding: Seq<char> },
    PickSlug,
    Lookup { slug: Seq<char> },
    Write { slug: Seq<char>, target: Seq<char> },
    Respond(OutcomeView),
}

impl View for Action {
    type V = ActionView;

    open spec fn view(&self) -> ActionView {
        match *self {
            Action::ReadBody => ActionView::ReadBody,
            Action::ReadSecret { name } => ActionView::ReadSecret { name: name@ },
            Action::OpenStore { binding } => ActionView::OpenStore { binding: binding@ },
            Action::PickSlug => ActionView::PickSlug,
            Action::Lookup { slug } => ActionView::Lookup { slug: slug@ },
            Action::Write { slug, target } => ActionView::Write { slug: slug@, target: target@ },
            Action::Respond(outcome) => ActionView::Respond(outcome_view(outcome)),
        }
    }
}

/// The name under which the store is bound.
pub open spec fn store_binding() -> Seq<char> {
    "KV_FROM_RUST"@
}

/// The failure of a handler that is handed an event it did not ask for.
pub open spec fn out_of_turn() -> FailureView {
    failure(FailureKind::InternalError, 500, "unexpected event"@)
}

/// The store could not be reached.
pub open spec fn store_unreachable() -> FailureView {
    failure(FailureKind::ServerMisconfiguration, 500, "failed to retrieve KV store"@)
}

/// Ends a request whose handler was handed an event it did not ask for.
pub fn refuse_out_of_turn() -> (action: Action)
    ensures
        action@ == ActionView::Respond(Err(out_of_turn())),
{
    Action::Respond(Err(Failure::new(FailureKind::InternalError, 500, "unexpected event")))
}

/// Asks for the store.
pub fn open_store() -> (action: Action)
    ensures
        action@ == (ActionView::OpenStore { binding: store_binding() }),
{
    Action::OpenStore { binding: "KV_FROM_RUST".to_owned() }
}

/// Ends a request whose store could not be reached.
pub fn refuse_without_store() -> (action: Action)
    ensures
        action@ == ActionView::Respond(Err(store_unreachable())),
{
    Action::Respond(
        Err(
            Failure::new(
                FailureKind::ServerMisconfiguration,
                500,
                "failed to retrieve KV store",
            ),
        ),
    )
}

} // verus!
