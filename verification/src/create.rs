//! Creating a link: check the caller's token, find a slug that nothing
//! answers to yet, and store the target under it.

use vstd::prelude::*;
use vstd::string::*;
use crate::exchange::{
    found_view, open_store, out_of_turn, refuse_out_of_turn, refuse_without_store, store_binding,
    store_unreachable, Action, ActionView, Event, EventView, SecretLookup, SecretLookupView,
    WriteFailure, WriteFailureView,
};
use crate::redirects::{check_hardcoded_slug, hardcoded_url, lemma_slug_is_not_hardcoded};
use crate::reply::{
    cause_to_failure, failure, failure_caused, Failure, FailureKind, FailureView, Reply, ReplyView,
};
use crate::slug::{generate_random_slug, is_slug};

verus! {

/// The body of a request to create a link.
#[derive(Debug, PartialEq, Eq)]
pub struct PostAddRequestBody {
    target: String,
    token: String,
}

/// The mathematical content of a [`PostAddRequestBody`].
pub ghost struct PostAddRequestBodyView {
    pub target: Seq<char>,
    pub token: Seq<char>,
}

impl View for PostAddRequestBody {
    type V = PostAddRequestBodyView;

    closed spec fn view(&self) -> PostAddRequestBodyView {
        PostAddRequestBodyView { target: self.target@, token: self.token@ }
    }
}

impl PostAddRequestBody {
    /// A request to store `target`, made by a caller who shows `token`.
    pub fn new(target: String, token: String) -> (body: PostAddRequestBody)
        ensures
            body@ == (PostAddRequestBodyView { target: target@, token: token@ }),
    {
        PostAddRequestBody { target, token }
    }

    /// The token that the caller shows.
    pub fn get_token(&self) -> (token: &str)
        ensures
            token@ == self@.token,
    {
        self.token.as_str()
    }

    /// The destination that the new slug is to stand for.
    pub fn get_target(&self) -> (target: &str)
        ensures
            target@ == self@.target,
    {
        self.target.as_str()
    }
}

/// Where the creation of a link stands: what the handler has learned, and
/// which event it waits for.
#[derive(Debug, PartialEq, Eq)]
pub enum PostLinkState {
    /// The request has arrived.
    Start,
    /// Waits for the decoded body.
    AwaitBody,
    /// Waits for the configured secret.
    AwaitSecret { body: PostAddRequestBody },
    /// The caller is authorized; waits for the store.
    AwaitStore { target: String },
    /// Waits for a slug to try.
    AwaitCandidate { target: String },
    /// Waits to learn whether the store holds `slug` already.
    AwaitLookup { slug: String, target: String },
    /// Waits to learn whether `slug` was written.
    AwaitWrite { slug: String },
    /// The request is over.
    Done,
}

/// The mathematical content of a [`PostLinkState`].
pub ghost enum PostLinkStateView {
    Start,
    AwaitBody,
    AwaitSecret { body: PostAddRequestBodyView },
    AwaitStore { target: Seq<char> },
    AwaitCandidate { target: Seq<char> },
    AwaitLookup { slug: Seq<char>, target: Seq<char> },
    AwaitWrite { slug: Seq<char> },
    Done,
}

impl View for PostLinkState {
    type V = PostLinkStateView;

    open spec fn view(&self) -> PostLinkStateView {
        match *self {
            PostLinkState::Start => PostLinkStateView::Start,
            PostLinkState::AwaitBody => PostLinkStateView::AwaitBody,
            PostLinkState::AwaitSecret { body } => PostLinkStateView::AwaitSecret { body: body@ },
            PostLinkState::AwaitStore { target } => PostLinkStateView::AwaitStore {
                target: target@,
            },
            PostLinkState::AwaitCandidate { target } => PostLinkStateView::AwaitCandidate {
                target: target@,
            },
            PostLinkState::AwaitLookup { slug, target } => PostLinkStateView::AwaitLookup {
                slug: slug@,
                target: target@,
            },
            PostLinkState::AwaitWrite { slug } => PostLinkStateView::AwaitWrite { slug: slug@ },
            PostLinkState::Done => PostLinkStateView::Done,
        }
    }
}

/// The name under which the expected token is configured.
pub open spec fn token_secret_name() -> Seq<char> {
    "BUTTERFLY_API_TOKEN"@
}

/// The base under which short URLs stand where nothing else is configured.
pub open spec fn default_base() -> Seq<char> {
    "https://yut.to"@
}

/// The base under which short URLs stand where nothing else is configured.
pub fn default_base_url() -> (base: String)
    ensures
        base@ == default_base(),
{
    "https://yut.to".to_owned()
}

/// The reply to a caller whose link was stored under `slug`: the slug, and
/// the short URL under the base.
pub open spec fn created(base: Seq<char>, slug: Seq<char>) -> ReplyView {
    ReplyView::Json {
        status: 200,
        members: seq![("slug"@, slug), ("url"@, base + "/"@ + slug)],
    }
}

/// A slug is in use when the compiled-in table or the store answers to it.
pub open spec fn slug_in_use(slug: Seq<char>, stored: Option<Seq<char>>) -> bool {
    hardcoded_url(slug) is Some || stored is Some
}

/// The body could not be decoded.
pub open spec fn undecoded(cause: Seq<char>) -> FailureView {
    failure_caused(FailureKind::InvalidInput, 400, "Json parsing failed"@, cause)
}

/// What the answer of the store says of a candidate: whether the store
/// holds it already, or that the store could not be read.
pub open spec fn slug_stored(found: Result<Option<Seq<char>>, Seq<char>>) -> Result<
    bool,
    FailureView,
> {
    match found {
        Ok(stored) => Ok(stored is Some),
        Err(cause) => Err(
            failure_caused(
                FailureKind::InternalError,
                500,
                "failed to retrieve KV store for checking unused"@,
                cause,
            ),
        ),
    }
}

/// Whether a candidate is in use, given the answer of the store: a slug of
/// the compiled-in table is, whatever the store says and even where it
/// could not be read; any other slug is where the store holds it.
pub open spec fn slug_verdict(
    slug: Seq<char>,
    found: Result<Option<Seq<char>>, Seq<char>>,
) -> Result<bool, FailureView> {
    if hardcoded_url(slug) is Some {
        Ok(true)
    } else {
        slug_stored(found)
    }
}

/// The view of what was made of the answer of the store.
pub open spec fn verdict_view(used: Result<bool, Failure>) -> Result<bool, FailureView> {
    match used {
        Ok(stored) => Ok(stored),
        Err(failure) => Err(failure@),
    }
}

/// A request that ends here, with a failure.
pub open spec fn fails(failure: FailureView) -> (PostLinkStateView, ActionView) {
    (PostLinkStateView::Done, ActionView::Respond(Err(failure)))
}

/// One step of creating a link: from where the handler stands and the event
/// that arrived, to where it stands next and what it asks for.
pub open spec fn post_link_next(base: Seq<char>, state: PostLinkStateView, event: EventView) -> (
    PostLinkStateView,
    ActionView,
) {
    match (state, event) {
        (PostLinkStateView::Start, EventView::Begin) => (
            PostLinkStateView::AwaitBody,
            ActionView::ReadBody,
        ),
        (PostLinkStateView::AwaitBody, EventView::Body(Ok(body))) => (
            PostLinkStateView::AwaitSecret { body },
            ActionView::ReadSecret { name: token_secret_name() },
        ),
        (PostLinkStateView::AwaitBody, EventView::Body(Err(cause))) => fails(undecoded(cause)),
        (PostLinkStateView::AwaitSecret { body }, EventView::Secret(SecretLookupView::Missing)) => fails(
            failure(FailureKind::ServerMisconfiguration, 500, "correct API key is not defined"@),
        ),
        (PostLinkStateView::AwaitSecret { body }, EventView::Secret(SecretLookupView::NotText)) => fails(
            failure(
                FailureKind::ServerMisconfiguration,
                500,
                "API key cannot be parsed into string"@,
            ),
        ),
        (
            PostLinkStateView::AwaitSecret { body },
            EventView::Secret(SecretLookupView::Text(expected)),
        ) => if body.token == expected {
            (
                PostLinkStateView::AwaitStore { target: body.target },
                ActionView::OpenStore { binding: store_binding() },
            )
        } else {
            fails(failure(FailureKind::Unauthorized, 401, "unauthorized"@))
        },
        (PostLinkStateView::AwaitStore { target }, EventView::StoreOpened(opened)) => if opened {
            (PostLinkStateView::AwaitCandidate { target }, ActionView::PickSlug)
        } else {
            fails(store_unreachable())
        },
        (PostLinkStateView::AwaitCandidate { target }, EventView::Candidate(slug)) => if hardcoded_url(
            slug,
        ) is Some {
            (PostLinkStateView::AwaitCandidate { target }, ActionView::PickSlug)
        } else {
            (PostLinkStateView::AwaitLookup { slug, target }, ActionView::Lookup { slug })
        },
        (PostLinkStateView::AwaitLookup { slug, target }, EventView::Found(found)) => match slug_verdict(
            slug,
            found,
        ) {
            Ok(true) => (PostLinkStateView::AwaitCandidate { target }, ActionView::PickSlug),
            Ok(false) => (
                PostLinkStateView::AwaitWrite { slug },
                ActionView::Write { slug, target },
            ),
            Err(failure) => fails(failure),
        },
        (PostLinkStateView::AwaitWrite { slug }, EventView::Written(Ok(()))) => (
            PostLinkStateView::Done,
            ActionView::Respond(Ok(created(base, slug))),
        ),
        (
            PostLinkStateView::AwaitWrite { slug },
            EventView::Written(Err(WriteFailureView::Build(cause))),
        ) => fails(
            failure_caused(
                FailureKind::InternalError,
                500,
                "failed to create KV store put builder"@,
                cause,
            ),
        ),
        (
            PostLinkStateView::AwaitWrite { slug },
            EventView::Written(Err(WriteFailureView::Execute(cause))),
        ) => fails(
            failure_caused(FailureKind::InternalError, 500, "failed to put into KV store"@, cause),
        ),
        _ => fails(out_of_turn()),
    }
}

/// Ends the request with a failure.
fn fail(failure: Failure) -> (next: (PostLinkState, Action))
    ensures
        (next.0@, next.1@) == fails(failure@),
{
    (PostLinkState::Done, Action::Respond(Err(failure)))
}

/// Ends the request of a handler that was handed an event it did not ask for.
fn stray() -> (next: (PostLinkState, Action))
    ensures
        (next.0@, next.1@) == fails(out_of_turn()),
{
    (PostLinkState::Done, refuse_out_of_turn())
}

/// Tells whether a candidate is in use: the compiled-in table is asked
/// first, and a slug of the table is in use without a look at the answer of
/// the store; for any other slug the answer decides, and a read that failed
/// ends the request.
pub fn check_is_slug_used(slug: &str, found: Result<Option<String>, String>) -> (used: Result<
    bool,
    Failure,
>)
    ensures
        verdict_view(used) == (if hardcoded_url(slug@) is Some {
            Ok::<bool, FailureView>(true)
        } else {
            slug_stored(found_view(found))
        }),
        found_view(found) matches Ok(stored) ==> verdict_view(used) == Ok::<bool, FailureView>(
            slug_in_use(slug@, stored),
        ),
{
    if check_hardcoded_slug(slug).is_some() {
        return Ok(true);
    }
    let read = cause_to_failure(
        found,
        FailureKind::InternalError,
        "failed to retrieve KV store for checking unused",
        500,
    );
    match read {
        Ok(stored) => Ok(stored.is_some()),
        Err(failure) => Err(failure),
    }
}

/// Builds the reply to a caller whose link was stored under `slug`.
pub fn created_reply(base: &str, slug: String) -> (reply: Reply)
    ensures
        reply@ == created(base@, slug@),
{
    let url = base.to_owned().concat("/").concat(slug.as_str());
    let mut members: Vec<(String, String)> = Vec::new();
    members.push(("slug".to_owned(), slug));
    members.push(("url".to_owned(), url));
    assert(members.deep_view() =~= seq![("slug"@, slug@), ("url"@, base@ + "/"@ + slug@)]);
    Reply::Json { status: 200, members }
}

/// Takes one step of creating a link. The short URL in the final reply
/// stands under `base`.
pub fn post_link_step(base: &str, state: PostLinkState, event: Event) -> (next: (
    PostLinkState,
    Action,
))
    ensures
        (next.0@, next.1@) == post_link_next(base@, state@, event@),
{
    match state {
        PostLinkState::Start => match event {
            Event::Begin => (PostLinkState::AwaitBody, Action::ReadBody),
            _ => stray(),
        },
        PostLinkState::AwaitBody => match event {
            Event::Body(sent) => match cause_to_failure(
                sent,
                FailureKind::InvalidInput,
                "Json parsing failed",
                400,
            ) {
                Ok(body) => (
                    PostLinkState::AwaitSecret { body },
                    Action::ReadSecret { name: "BUTTERFLY_API_TOKEN".to_owned() },
                ),
                Err(failure) => fail(failure),
            },
            _ => stray(),
        },
        PostLinkState::AwaitSecret { body } => match event {
            Event::Secret(SecretLookup::Missing) => fail(
                Failure::new(
                    FailureKind::ServerMisconfiguration,
                    500,
                    "correct API key is not defined",
                ),
            ),
            Event::Secret(SecretLookup::NotText) => fail(
                Failure::new(
                    FailureKind::ServerMisconfiguration,
                    500,
                    "API key cannot be parsed into string",
                ),
            ),
            Event::Secret(SecretLookup::Text(expected)) => {
                if body.token == expected {
                    (PostLinkState::AwaitStore { target: body.target }, open_store())
                } else {
                    fail(Failure::new(FailureKind::Unauthorized, 401, "unauthorized"))
                }
            },
            _ => stray(),
        },
        PostLinkState::AwaitStore { target } => match event {
            Event::StoreOpened(opened) => {
                if opened {
                    (PostLinkState::AwaitCandidate { target }, Action::PickSlug)
                } else {
                    (PostLinkState::Done, refuse_without_store())
                }
            },
            _ => stray(),
        },
        PostLinkState::AwaitCandidate { target } => match event {
            Event::Candidate(slug) => {
                if check_hardcoded_slug(slug.as_str()).is_some() {
                    (PostLinkState::AwaitCandidate { target }, Action::PickSlug)
                } else {
                    let asked = slug.clone();
                    (PostLinkState::AwaitLookup { slug, target }, Action::Lookup { slug: asked })
                }
            },
            _ => stray(),
        },
        PostLinkState::AwaitLookup { slug, target } => match event {
            Event::Found(found) => match check_is_slug_used(slug.as_str(), found) {
                Ok(true) => (PostLinkState::AwaitCandidate { target }, Action::PickSlug),
                Ok(false) => {
                    let key = slug.clone();
                    (PostLinkState::AwaitWrite { slug }, Action::Write { slug: key, target })
                },
                Err(failure) => fail(failure),
            },
            _ => stray(),
        },
        PostLinkState::AwaitWrite { slug } => match event {
            Event::Written(Ok(())) => (
                PostLinkState::Done,
                Action::Respond(Ok(created_reply(base, slug))),
            ),
            Event::Written(Err(WriteFailure::Build(cause))) => fail(
                Failure::caused(
                    FailureKind::InternalError,
                    500,
                    "failed to create KV store put builder",
                    cause.as_str(),
                ),
            ),
            Event::Written(Err(WriteFailure::Execute(cause))) => fail(
                Failure::caused(
                    FailureKind::InternalError,
                    500,
                    "failed to put into KV store",
                    cause.as_str(),
                ),
            ),
            _ => stray(),
        },
        PostLinkState::Done => stray(),
    }
}

/// Whether the slug that the handler works on, if it has one, is made of
/// six symbols of the alphabet.
pub open spec fn slugs_are_drawn(state: PostLinkStateView) -> bool {
    match state {
        PostLinkStateView::AwaitLookup { slug, target } => is_slug(slug),
        PostLinkStateView::AwaitWrite { slug } => is_slug(slug),
        _ => true,
    }
}

/// Whether the slug that an action names, if it names one, is made of six
/// symbols of the alphabet. The reply to a successful request names the
/// slug under which the link was stored.
pub open spec fn names_drawn_slug(base: Seq<char>, action: ActionView) -> bool {
    match action {
        ActionView::Lookup { slug } => is_slug(slug),
        ActionView::Write { slug, target } => is_slug(slug),
        ActionView::Respond(Ok(reply)) => exists|slug: Seq<char>|
            is_slug(slug) && reply == #[trigger] created(base, slug),
        _ => true,
    }
}

/// Every step keeps to slugs of the alphabet, as long as the candidates it
/// is handed are such slugs.
pub proof fn lemma_step_keeps_to_drawn_slugs(
    base: Seq<char>,
    state: PostLinkStateView,
    event: EventView,
)
    requires
        slugs_are_drawn(state),
        event matches EventView::Candidate(slug) ==> is_slug(slug),
    ensures
        slugs_are_drawn(post_link_next(base, state, event).0),
        names_drawn_slug(base, post_link_next(base, state, event).1),
{
    let next = post_link_next(base, state, event);
    if let ActionView::Respond(Ok(reply)) = next.1 {
        let slug = state->AwaitWrite_slug;
        assert(reply == created(base, slug));
    }
}

/// A step of creating a link in which a slug that is asked for is drawn at
/// once: where `post_link_next` asks for a slug, it is handed some slug, and
/// `next` is where that leads.
pub open spec fn post_link_handled(
    base: Seq<char>,
    state: PostLinkStateView,
    event: EventView,
    next: (PostLinkStateView, ActionView),
) -> bool {
    let first = post_link_next(base, state, event);
    if first.1 is PickSlug {
        exists|slug: Seq<char>|
            is_slug(slug) && next == #[trigger] post_link_next(
                base,
                first.0,
                EventView::Candidate(slug),
            )
    } else {
        next == first
    }
}

/// Handles a request to create a link, one step at a time: call it with
/// [`PostLinkState::Start`] and [`Event::Begin`], do what the action says,
/// and call it again with the state it gave and the event that tells how the
/// work ended, until the action is [`Action::Respond`].
///
/// Where a step asks for a slug, the slug is drawn here, so the action is
/// never [`Action::PickSlug`]. Which slug is drawn is not determined; it is
/// a slug, and the step is the one that `post_link_next` takes with it.
pub fn handle_post_link(base: &str, state: PostLinkState, event: Event) -> (next: (
    PostLinkState,
    Action,
))
    ensures
        post_link_handled(base@, state@, event@, (next.0@, next.1@)),
        !(next.1@ is PickSlug),
        slugs_are_drawn(state@) && (event@ matches EventView::Candidate(slug) ==> is_slug(slug))
            ==> slugs_are_drawn(next.0@) && names_drawn_slug(base@, next.1@),
{
    let ghost kept = slugs_are_drawn(state@) && (event@ matches EventView::Candidate(slug)
        ==> is_slug(slug));
    proof {
        if kept {
            lemma_step_keeps_to_drawn_slugs(base@, state@, event@);
        }
    }
    let first = post_link_step(base, state, event);
    match first.1 {
        Action::PickSlug => {
            let slug = generate_random_slug();
            let ghost waiting = first.0@;
            let next = post_link_step(base, first.0, Event::Candidate(slug));
            proof {
                lemma_slug_is_not_hardcoded(slug@);
                if kept {
                    lemma_step_keeps_to_drawn_slugs(base@, waiting, EventView::Candidate(slug@));
                }
                let asked = post_link_next(base@, state@, event@);
                assert(asked.1 is PickSlug);
                assert((next.0@, next.1@) == post_link_next(
                    base@,
                    asked.0,
                    EventView::Candidate(slug@),
                ));
            }
            next
        },
        _ => first,
    }
}

} // verus!
