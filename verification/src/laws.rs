//! What holds of the handlers over whole requests, proved from the steps
//! they take.

use vstd::prelude::*;
use vstd::string::*;
use crate::create::{
    created, post_link_next, slug_in_use, undecoded, PostAddRequestBodyView,
    PostLinkStateView,
};
use crate::exchange::{out_of_turn, ActionView, EventView, SecretLookupView};
use crate::form::{form_echo, FormEntryView};
use crate::redirects::hardcoded_url;
use crate::reply::{
    fails_fittingly, failure, FailureKind, FailureView, OutcomeView, ReplyView,
};
use crate::resolve::{get_link_next, unknown_slug, GetLinkStateView};
use crate::slug::{is_slug, lemma_slug_has_no_lookalike};
use crate::target::redirect_outcome;

verus! {

/// The actions that creating a link asks for, one for each event of
/// `events`, from `state` on.
pub open spec fn post_link_actions(
    base: Seq<char>,
    state: PostLinkStateView,
    events: Seq<EventView>,
) -> Seq<ActionView>
    decreases events.len(),
{
    if events.len() == 0 {
        seq![]
    } else {
        let next = post_link_next(base, state, events[0]);
        seq![next.1] + post_link_actions(base, next.0, events.drop_first())
    }
}

/// Once a request to create a link is over, whatever arrives is answered
/// with the same refusal: nothing is read, drawn or written any more.
pub proof fn law_post_link_over_stays_over(base: Seq<char>, events: Seq<EventView>)
    ensures
        post_link_actions(base, PostLinkStateView::Done, events).len() == events.len(),
        forall|i: int|
            0 <= i < events.len() ==> #[trigger] post_link_actions(
                base,
                PostLinkStateView::Done,
                events,
            )[i] == ActionView::Respond(Err(out_of_turn())),
    decreases events.len(),
{
    if events.len() > 0 {
        law_post_link_over_stays_over(base, events.drop_first());
    }
}

/// A caller whose token is not the configured one is refused with status
/// 401, and nothing that follows reaches the store.
pub proof fn law_wrong_token_is_refused(
    base: Seq<char>,
    body: PostAddRequestBodyView,
    expected: Seq<char>,
    later: Seq<EventView>,
)
    requires
        body.token != expected,
    ensures
        ({
            let events = seq![EventView::Secret(SecretLookupView::Text(expected))] + later;
            let actions = post_link_actions(base, PostLinkStateView::AwaitSecret { body }, events);
            &&& actions.len() == events.len()
            &&& actions[0] == ActionView::Respond(
                Err(failure(FailureKind::Unauthorized, 401, "unauthorized"@)),
            )
            &&& forall|i: int| 0 <= i < actions.len() ==> #[trigger] actions[i] is Respond
        }),
{
    let events = seq![EventView::Secret(SecretLookupView::Text(expected))] + later;
    assert(events.drop_first() =~= later);
    law_post_link_over_stays_over(base, later);
}

/// A body that could not be decoded ends the request with status 400 and
/// the cause; the secret is never read, and the store never reached.
pub proof fn law_undecoded_body_is_refused(
    base: Seq<char>,
    cause: Seq<char>,
    later: Seq<EventView>,
)
    ensures
        ({
            let events = seq![EventView::Begin, EventView::Body(Err(cause))] + later;
            let actions = post_link_actions(base, PostLinkStateView::Start, events);
            &&& actions.len() == events.len()
            &&& actions[0] == ActionView::ReadBody
            &&& actions[1] == ActionView::Respond(Err(undecoded(cause)))
            &&& undecoded(cause).status == 400
            &&& forall|i: int| 1 <= i < actions.len() ==> #[trigger] actions[i] is Respond
        }),
{
    let events = seq![EventView::Begin, EventView::Body(Err(cause))] + later;
    let rest = seq![EventView::Body(Err(cause))] + later;
    assert(events.drop_first() =~= rest);
    assert(rest.drop_first() =~= later);
    law_post_link_over_stays_over(base, later);
    let tail = post_link_actions(base, PostLinkStateView::AwaitBody, rest);
    assert(post_link_actions(base, PostLinkStateView::Start, events) == seq![
        ActionView::ReadBody,
    ] + tail);
    assert(tail == seq![ActionView::Respond(Err(undecoded(cause)))] + post_link_actions(
        base,
        PostLinkStateView::Done,
        later,
    ));
}

/// A store, as the laws speak of it: the target that it holds under each
/// slug it knows.
pub type Store = Map<Seq<char>, Seq<char>>;

/// What a store holds under a slug.
pub open spec fn held(store: Store, slug: Seq<char>) -> Option<Seq<char>> {
    if store.dom().contains(slug) {
        Some(store[slug])
    } else {
        None
    }
}

/// How a store that works answers what resolution asks of it.
pub open spec fn store_answer(store: Store, action: ActionView) -> Option<EventView> {
    match action {
        ActionView::OpenStore { binding } => Some(EventView::StoreOpened(true)),
        ActionView::Lookup { slug } => Some(EventView::Found(Ok(held(store, slug)))),
        _ => None,
    }
}

/// Where resolution ends when a store that works answers it, within so
/// many steps.
pub open spec fn get_link_served(
    store: Store,
    state: GetLinkStateView,
    action: ActionView,
    steps: nat,
) -> Option<OutcomeView>
    decreases steps,
{
    match action {
        ActionView::Respond(outcome) => Some(outcome),
        _ => match store_answer(store, action) {
            Some(event) if steps > 0 => {
                let next = get_link_next(state, event);
                get_link_served(store, next.0, next.1, (steps - 1) as nat)
            },
            _ => None,
        },
    }
}

/// The answer to a request for `slug`, served by a store that works.
pub open spec fn resolved(store: Store, slug: Seq<char>) -> Option<OutcomeView> {
    let first = get_link_next(GetLinkStateView::Start { slug }, EventView::Begin);
    get_link_served(store, first.0, first.1, 2)
}

/// A vanity slug resolves to its compiled-in URL whatever the store holds:
/// the request is answered at once, and the store is not even asked for.
pub proof fn law_vanity_slug_wins(store: Store, slug: Seq<char>)
    requires
        hardcoded_url(slug) is Some,
    ensures
        get_link_next(GetLinkStateView::Start { slug }, EventView::Begin).1
            == ActionView::Respond(redirect_outcome(hardcoded_url(slug)->0)),
        resolved(store, slug) == Some(redirect_outcome(hardcoded_url(slug)->0)),
{
}

/// A slug that only the store knows resolves to what the store holds.
pub proof fn law_stored_slug_resolves(store: Store, slug: Seq<char>)
    requires
        hardcoded_url(slug) is None,
        store.dom().contains(slug),
    ensures
        resolved(store, slug) == Some(redirect_outcome(store[slug])),
{
    reveal_with_fuel(get_link_served, 3);
}

/// A slug that neither the table nor the store knows fails with status 500,
/// and the message ends with the slug.
pub proof fn law_unknown_slug_fails(store: Store, slug: Seq<char>)
    requires
        hardcoded_url(slug) is None,
        !store.dom().contains(slug),
    ensures
        resolved(store, slug) == Some(Err::<ReplyView, _>(unknown_slug(slug))),
        unknown_slug(slug).status == 500,
        slug.is_suffix_of(unknown_slug(slug).message),
{
    reveal_with_fuel(get_link_served, 3);
    let message = unknown_slug(slug).message;
    assert(message.subrange(message.len() - slug.len(), message.len() as int) =~= slug);
}

/// How far an action is from the end of the search for a free slug.
pub open spec fn rank(action: ActionView) -> nat {
    match action {
        ActionView::Lookup { slug } => 3,
        ActionView::PickSlug => 2,
        ActionView::Write { slug, target } => 1,
        _ => 0,
    }
}

/// Where the search for a free slug ends, and what the store holds then,
/// when a store that works answers it and the slugs that are drawn are
/// `candidates`, in this order. There is no outcome where the candidates run
/// out first.
pub open spec fn post_link_served(
    base: Seq<char>,
    store: Store,
    state: PostLinkStateView,
    action: ActionView,
    candidates: Seq<Seq<char>>,
) -> (Store, Option<OutcomeView>)
    decreases candidates.len(), rank(action),
{
    match action {
        ActionView::PickSlug => if candidates.len() == 0 {
            (store, None)
        } else {
            let next = post_link_next(base, state, EventView::Candidate(candidates[0]));
            post_link_served(base, store, next.0, next.1, candidates.drop_first())
        },
        ActionView::Lookup { slug } => {
            let next = post_link_next(base, state, EventView::Found(Ok(held(store, slug))));
            post_link_served(base, store, next.0, next.1, candidates)
        },
        ActionView::Write { slug, target } => {
            let next = post_link_next(base, state, EventView::Written(Ok(())));
            post_link_served(base, store.insert(slug, target), next.0, next.1, candidates)
        },
        ActionView::Respond(outcome) => (store, Some(outcome)),
        _ => (store, None),
    }
}

/// The creation of a link for `target` by an authorized caller, from the
/// moment the store is reached.
pub open spec fn link_created(
    base: Seq<char>,
    store: Store,
    target: Seq<char>,
    candidates: Seq<Seq<char>>,
) -> (Store, Option<OutcomeView>) {
    post_link_served(
        base,
        store,
        PostLinkStateView::AwaitCandidate { target },
        ActionView::PickSlug,
        candidates,
    )
}

/// The slug under which a successful reply says the link was stored.
pub open spec fn created_slug(reply: ReplyView) -> Seq<char> {
    reply->Json_members[0].1
}

/// Whether every slug of `candidates` is in use: a vanity slug, or one that
/// the store holds.
pub open spec fn all_in_use(store: Store, candidates: Seq<Seq<char>>) -> bool {
    forall|i: int|
        0 <= i < candidates.len() ==> slug_in_use(
            #[trigger] candidates[i],
            held(store, candidates[i]),
        )
}

/// A link is stored under the first candidate that is not in use, and under
/// no other: every candidate before it is in use, the slug is no vanity
/// slug, the store did not hold it before, and afterwards the store holds
/// the target under it and is otherwise as it was. Nothing fails while the
/// store works; where every candidate is in use, nothing is written.
pub proof fn law_new_link_takes_a_free_slug(
    base: Seq<char>,
    store: Store,
    target: Seq<char>,
    candidates: Seq<Seq<char>>,
)
    ensures
        ({
            let end = link_created(base, store, target, candidates);
            match end.1 {
                Some(Ok(reply)) => {
                    let slug = created_slug(reply);
                    &&& reply == created(base, slug)
                    &&& candidates.contains(slug)
                    &&& exists|k: int|
                        0 <= k < candidates.len() && #[trigger] candidates[k] == slug
                            && forall|j: int|
                            0 <= j < k ==> slug_in_use(
                                #[trigger] candidates[j],
                                held(store, candidates[j]),
                            )
                    &&& hardcoded_url(slug) is None
                    &&& !store.dom().contains(slug)
                    &&& end.0 == store.insert(slug, target)
                },
                Some(Err(failure)) => false,
                None => end.0 == store && all_in_use(store, candidates),
            }
        }),
    decreases candidates.len(),
{
    reveal_with_fuel(post_link_served, 4);
    if candidates.len() > 0 {
        let first = candidates[0];
        let rest = candidates.drop_first();
        law_new_link_takes_a_free_slug(base, store, target, rest);
        let end = link_created(base, store, target, candidates);
        if slug_in_use(first, held(store, first)) {
            assert(end == link_created(base, store, target, rest));
            match end.1 {
                Some(Ok(reply)) => {
                    let slug = created_slug(reply);
                    let k = choose|k: int|
                        0 <= k < rest.len() && #[trigger] rest[k] == slug && forall|j: int|
                            0 <= j < k ==> slug_in_use(#[trigger] rest[j], held(store, rest[j]));
                    assert(candidates[k + 1] == slug);
                    assert forall|j: int| 0 <= j < k + 1 implies slug_in_use(
                        #[trigger] candidates[j],
                        held(store, candidates[j]),
                    ) by {
                        if j > 0 {
                            assert(candidates[j] == rest[j - 1]);
                        }
                    }
                },
                Some(Err(failure)) => {},
                None => {
                    assert forall|i: int| 0 <= i < candidates.len() implies slug_in_use(
                        #[trigger] candidates[i],
                        held(store, candidates[i]),
                    ) by {
                        if i > 0 {
                            assert(candidates[i] == rest[i - 1]);
                        }
                    }
                },
            }
        } else {
            assert(end.1 == Some(Ok::<_, FailureView>(created(base, first))));
            assert(end.0 == store.insert(first, target));
            assert(candidates[0] == first);
        }
    }
}

/// Two links created one after the other get different slugs, whatever
/// slugs are drawn for them: the second search finds the first slug in the
/// store and passes it over.
pub proof fn law_sequential_links_differ(
    base: Seq<char>,
    store: Store,
    first_target: Seq<char>,
    first_candidates: Seq<Seq<char>>,
    second_target: Seq<char>,
    second_candidates: Seq<Seq<char>>,
)
    requires
        link_created(base, store, first_target, first_candidates).1 matches Some(Ok(reply)),
        link_created(
            base,
            link_created(base, store, first_target, first_candidates).0,
            second_target,
            second_candidates,
        ).1 matches Some(Ok(reply)),
    ensures
        ({
            let first = link_created(base, store, first_target, first_candidates);
            let second = link_created(base, first.0, second_target, second_candidates);
            created_slug(first.1->0->Ok_0) != created_slug(second.1->0->Ok_0)
        }),
{
    let first = link_created(base, store, first_target, first_candidates);
    law_new_link_takes_a_free_slug(base, store, first_target, first_candidates);
    law_new_link_takes_a_free_slug(base, first.0, second_target, second_candidates);
    assert(first.0.dom().contains(created_slug(first.1->0->Ok_0)));
}

/// A link that was created resolves to its target: asking for the slug of
/// the reply gives the redirect that the target stands for.
pub proof fn law_new_link_resolves_to_its_target(
    base: Seq<char>,
    store: Store,
    target: Seq<char>,
    candidates: Seq<Seq<char>>,
)
    requires
        link_created(base, store, target, candidates).1 matches Some(Ok(reply)),
    ensures
        ({
            let end = link_created(base, store, target, candidates);
            resolved(end.0, created_slug(end.1->0->Ok_0)) == Some(redirect_outcome(target))
        }),
{
    let end = link_created(base, store, target, candidates);
    law_new_link_takes_a_free_slug(base, store, target, candidates);
    law_stored_slug_resolves(end.0, created_slug(end.1->0->Ok_0));
}

/// Where every slug that is drawn is made of six symbols of the alphabet,
/// so is the slug of a link that was created; it holds none of the letters
/// `i`, `l` and `o`.
pub proof fn law_created_slug_is_drawn(
    base: Seq<char>,
    store: Store,
    target: Seq<char>,
    candidates: Seq<Seq<char>>,
)
    requires
        forall|i: int| 0 <= i < candidates.len() ==> is_slug(#[trigger] candidates[i]),
        link_created(base, store, target, candidates).1 matches Some(Ok(reply)),
    ensures
        ({
            let slug = created_slug(link_created(base, store, target, candidates).1->0->Ok_0);
            &&& is_slug(slug)
            &&& slug.len() == 6
            &&& forall|i: int|
                0 <= i < slug.len() ==> slug[i] != 'i' && slug[i] != 'l' && slug[i] != 'o'
        }),
{
    law_new_link_takes_a_free_slug(base, store, target, candidates);
    let slug = created_slug(link_created(base, store, target, candidates).1->0->Ok_0);
    let k = choose|k: int| 0 <= k < candidates.len() && candidates[k] == slug;
    lemma_slug_has_no_lookalike(slug);
}

/// Every failure is reported under a status of its kind: what the caller
/// sent wrong under 400 or 422, a wrong token under 401, and all else, an
/// unknown slug too, under 500.
pub proof fn law_failures_fit_their_kind(
    base: Seq<char>,
    creating: PostLinkStateView,
    resolving: GetLinkStateView,
    event: EventView,
    target: Seq<char>,
    field: Seq<char>,
    entry: Option<FormEntryView>,
)
    ensures
        post_link_next(base, creating, event).1 matches ActionView::Respond(outcome)
            ==> fails_fittingly(outcome),
        get_link_next(resolving, event).1 matches ActionView::Respond(outcome) ==> fails_fittingly(
            outcome,
        ),
        fails_fittingly(redirect_outcome(target)),
        fails_fittingly(form_echo(field, entry)),
{
}

} // verus!
