//! Resolving a slug: the compiled-in table first, then the store, then a
//! permanent redirect to what was found.

use vstd::prelude::*;
use vstd::string::*;
use crate::exchange::{
    found_view, open_store, out_of_turn, refuse_out_of_turn, refuse_without_store,
    store_binding, store_unreachable, Action, ActionView, Event, EventView,
};
use crate::redirects::{check_hardcoded_slug, hardcoded_url};
use crate::reply::{
    absent_to_failure, cause_to_failure, failure_caused, outcome_view, Failure, FailureKind,
    FailureView, OutcomeView, Reply,
};
use crate::target::{redirect, redirect_outcome};

verus! {

/// Where the resolution of a slug stands.
#[derive(Debug, PartialEq, Eq)]
pub enum GetLinkState {
    /// The request for `slug` has arrived.
    Start { slug: String },
    /// The slug is no vanity slug; waits for the store.
    AwaitStore { slug: String },
    /// Waits for what the store holds under `slug`.
    AwaitLookup { slug: String },
    /// The request is over.
    Done,
}

/// The mathematical content of a [`GetLinkState`].
pub ghost enum GetLinkStateView {
    Start { slug: Seq<char> },
    AwaitStore { slug: Seq<char> },
    AwaitLookup { slug: Seq<char> },
    Done,
}

impl View for GetLinkState {
    type V = GetLinkStateView;

    open spec fn view(&self) -> GetLinkStateView {
        match *self {
            GetLinkState::Start { slug } => GetLinkStateView::Start { slug: slug@ },
            GetLinkState::AwaitStore { slug } => GetLinkStateView::AwaitStore { slug: slug@ },
            GetLinkState::AwaitLookup { slug } => GetLinkStateView::AwaitLookup { slug: slug@ },
            GetLinkState::Done => GetLinkStateView::Done,
        }
    }
}

/// Neither the compiled-in table nor the store knows the slug. The status
/// is that of a server fault, not that of a missing page.
pub open spec fn unknown_slug(slug: Seq<char>) -> FailureView {
    FailureView {
        kind: FailureKind::NotFound,
        status: 500,
        message: "no value for "@ + slug,
    }
}

/// A request that ends here.
pub open spec fn ends(outcome: OutcomeView) -> (GetLinkStateView, ActionView) {
    (GetLinkStateView::Done, ActionView::Respond(outcome))
}

/// One step of resolving a slug: from where the handler stands and the
/// event that arrived, to where it stands next and what it asks for.
pub open spec fn get_link_next(state: GetLinkStateView, event: EventView) -> (
    GetLinkStateView,
    ActionView,
) {
    match (state, event) {
        (GetLinkStateView::Start { slug }, EventView::Begin) => match hardcoded_url(slug) {
            Some(url) => ends(redirect_outcome(url)),
            None => (
                GetLinkStateView::AwaitStore { slug },
                ActionView::OpenStore { binding: store_binding() },
            ),
        },
        (GetLinkStateView::AwaitStore { slug }, EventView::StoreOpened(opened)) => if opened {
            (GetLinkStateView::AwaitLookup { slug }, ActionView::Lookup { slug })
        } else {
            ends(Err(store_unreachable()))
        },
        (GetLinkStateView::AwaitLookup { slug }, EventView::Found(found)) => ends(
            found_outcome(slug, found),
        ),
        _ => ends(Err(out_of_turn())),
    }
}

/// What the answer of the store leads to: a failed read and a slug that the
/// store lacks end the request; a target is redirected to.
pub open spec fn found_outcome(
    slug: Seq<char>,
    found: Result<Option<Seq<char>>, Seq<char>>,
) -> OutcomeView {
    match found {
        Ok(Some(target)) => redirect_outcome(target),
        Ok(None) => Err(unknown_slug(slug)),
        Err(cause) => Err(
            failure_caused(FailureKind::InternalError, 500, "failed to retrieve KV store"@, cause),
        ),
    }
}

/// Answers a request for `slug` from what the store said of it.
pub fn target_found(slug: &str, found: Result<Option<String>, String>) -> (outcome: Result<
    Reply,
    Failure,
>)
    ensures
        outcome_view(outcome) == found_outcome(slug@, found_view(found)),
{
    let read = cause_to_failure(
        found,
        FailureKind::InternalError,
        "failed to retrieve KV store",
        500,
    );
    match read {
        Ok(stored) => {
            let message = "no value for ".to_owned().concat(slug);
            match absent_to_failure(stored, FailureKind::NotFound, message.as_str(), 500) {
                Ok(target) => redirect(target.as_str()),
                Err(failure) => Err(failure),
            }
        },
        Err(failure) => Err(failure),
    }
}

/// Ends the request of a handler that was handed an event it did not ask for.
fn stray() -> (next: (GetLinkState, Action))
    ensures
        (next.0@, next.1@) == ends(Err(out_of_turn())),
{
    (GetLinkState::Done, refuse_out_of_turn())
}

/// Handles a request for a slug, one step at a time: call it with
/// [`GetLinkState::Start`] and [`Event::Begin`], do what the action says,
/// and call it again with the state it gave and the event that tells how the
/// work ended, until the action is [`Action::Respond`].
pub fn handle_get_link(state: GetLinkState, event: Event) -> (next: (GetLinkState, Action))
    ensures
        (next.0@, next.1@) == get_link_next(state@, event@),
{
    match state {
        GetLinkState::Start { slug } => match event {
            Event::Begin => match check_hardcoded_slug(slug.as_str()) {
                Some(url) => (GetLinkState::Done, Action::Respond(redirect(url.as_str()))),
                None => (GetLinkState::AwaitStore { slug }, open_store()),
            },
            _ => stray(),
        },
        GetLinkState::AwaitStore { slug } => match event {
            Event::StoreOpened(opened) => {
                if opened {
                    let asked = slug.clone();
                    (GetLinkState::AwaitLookup { slug }, Action::Lookup { slug: asked })
                } else {
                    (GetLinkState::Done, refuse_without_store())
                }
            },
            _ => stray(),
        },
        GetLinkState::AwaitLookup { slug } => match event {
            Event::Found(found) => (
                GetLinkState::Done,
                Action::Respond(target_found(slug.as_str(), found)),
            ),
            _ => stray(),
        },
        GetLinkState::Done => stray(),
    }
}

} // verus!
