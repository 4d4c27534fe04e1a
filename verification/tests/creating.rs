use butterfly::create::{
    check_is_slug_used, created_reply, default_base_url, handle_post_link, post_link_step,
    PostAddRequestBody, PostLinkState,
};
use butterfly::exchange::{Action, Event, SecretLookup, WriteFailure};
use butterfly::reply::{Failure, FailureKind, Reply};
use butterfly::resolve::{handle_get_link, GetLinkState};
use std::collections::HashMap;

const BASE: &str = "https://yut.to";
const ALPHABET: &str = "0123456789abcdefghjkmnpqrstuvwxyz";

fn body(target: &str, token: &str) -> PostAddRequestBody {
    PostAddRequestBody::new(target.to_string(), token.to_string())
}

fn failed(kind: FailureKind, status: u16, message: &str) -> Action {
    Action::Respond(Err(Failure { kind, status, message: message.to_string() }))
}

fn created(slug: &str) -> Reply {
    Reply::Json {
        status: 200,
        members: vec![
            ("slug".to_string(), slug.to_string()),
            ("url".to_string(), format!("{}/{}", BASE, slug)),
        ],
    }
}

/// What the outside did for one request.
#[derive(Default)]
struct Seen {
    secrets_read: usize,
    store_opened: usize,
    lookups: Vec<String>,
    writes: Vec<(String, String)>,
}

/// Runs one request against a store that works. Slugs come from
/// `candidates` in order; `None` lets the handler draw them itself.
fn create(
    store: &mut HashMap<String, String>,
    sent: Result<PostAddRequestBody, String>,
    secret: SecretLookup,
    mut candidates: Option<Vec<&str>>,
) -> (Result<Reply, Failure>, Seen) {
    let mut seen = Seen::default();
    let mut sent = Some(sent);
    let mut secret = Some(secret);
    let step = |state, event, scripted: bool| {
        if scripted {
            post_link_step(BASE, state, event)
        } else {
            handle_post_link(BASE, state, event)
        }
    };
    let scripted = candidates.is_some();
    let (mut state, mut action) = step(PostLinkState::Start, Event::Begin, scripted);
    loop {
        let event = match action {
            Action::ReadBody => Event::Body(sent.take().unwrap()),
            Action::ReadSecret { name } => {
                assert_eq!(name, "BUTTERFLY_API_TOKEN");
                seen.secrets_read += 1;
                Event::Secret(secret.take().unwrap())
            }
            Action::OpenStore { binding } => {
                assert_eq!(binding, "KV_FROM_RUST");
                seen.store_opened += 1;
                Event::StoreOpened(true)
            }
            Action::PickSlug => {
                let list = candidates.as_mut().expect("the handler draws its own slugs");
                Event::Candidate(list.remove(0).to_string())
            }
            Action::Lookup { slug } => {
                let found = store.get(&slug).cloned();
                seen.lookups.push(slug);
                Event::Found(Ok(found))
            }
            Action::Write { slug, target } => {
                store.insert(slug.clone(), target.clone());
                seen.writes.push((slug, target));
                Event::Written(Ok(()))
            }
            Action::Respond(outcome) => {
                assert_eq!(state, PostLinkState::Done);
                return (outcome, seen);
            }
        };
        let next = step(state, event, scripted);
        state = next.0;
        action = next.1;
    }
}

fn slug_of(reply: &Reply) -> String {
    match reply {
        Reply::Json { status: 200, members } => {
            assert_eq!(members.len(), 2);
            assert_eq!(members[0].0, "slug");
            assert_eq!(members[1].0, "url");
            assert_eq!(members[1].1, format!("{}/{}", BASE, members[0].1));
            members[0].1.clone()
        }
        other => panic!("no link was created: {:?}", other),
    }
}

fn resolve(store: &HashMap<String, String>, slug: &str) -> Result<Reply, Failure> {
    let (mut state, mut action) =
        handle_get_link(GetLinkState::Start { slug: slug.to_string() }, Event::Begin);
    loop {
        let event = match action {
            Action::OpenStore { .. } => Event::StoreOpened(true),
            Action::Lookup { slug } => Event::Found(Ok(store.get(&slug).cloned())),
            Action::Respond(outcome) => return outcome,
            other => panic!("resolution asked for {:?}", other),
        };
        let next = handle_get_link(state, event);
        state = next.0;
        action = next.1;
    }
}

#[test]
fn body_hands_out_what_it_was_made_of() {
    let body = body("https://example.com/page", "s3cret");
    assert_eq!(body.get_target(), "https://example.com/page");
    assert_eq!(body.get_token(), "s3cret");
}

#[test]
fn default_base_is_the_service_domain() {
    assert_eq!(default_base_url(), "https://yut.to");
}

#[test]
fn created_reply_names_slug_and_short_url() {
    assert_eq!(created_reply("https://yut.to", "abc123".to_string()), created("abc123"));
    assert_eq!(
        created_reply("http://localhost:8787", "zzzzzz".to_string()),
        Reply::Json {
            status: 200,
            members: vec![
                ("slug".to_string(), "zzzzzz".to_string()),
                ("url".to_string(), "http://localhost:8787/zzzzzz".to_string()),
            ],
        }
    );
}

#[test]
fn creation_walks_through_its_steps() {
    let (state, action) = post_link_step(BASE, PostLinkState::Start, Event::Begin);
    assert_eq!((&state, &action), (&PostLinkState::AwaitBody, &Action::ReadBody));
    let (state, action) =
        post_link_step(BASE, state, Event::Body(Ok(body("example.com/page", "tok"))));
    assert_eq!(state, PostLinkState::AwaitSecret { body: body("example.com/page", "tok") });
    assert_eq!(action, Action::ReadSecret { name: "BUTTERFLY_API_TOKEN".to_string() });
    let (state, action) =
        post_link_step(BASE, state, Event::Secret(SecretLookup::Text("tok".to_string())));
    assert_eq!(state, PostLinkState::AwaitStore { target: "example.com/page".to_string() });
    assert_eq!(action, Action::OpenStore { binding: "KV_FROM_RUST".to_string() });
    let (state, action) = post_link_step(BASE, state, Event::StoreOpened(true));
    assert_eq!(state, PostLinkState::AwaitCandidate { target: "example.com/page".to_string() });
    assert_eq!(action, Action::PickSlug);
    let (state, action) = post_link_step(BASE, state, Event::Candidate("abc123".to_string()));
    assert_eq!(
        state,
        PostLinkState::AwaitLookup {
            slug: "abc123".to_string(),
            target: "example.com/page".to_string()
        }
    );
    assert_eq!(action, Action::Lookup { slug: "abc123".to_string() });
    let (state, action) = post_link_step(BASE, state, Event::Found(Ok(None)));
    assert_eq!(state, PostLinkState::AwaitWrite { slug: "abc123".to_string() });
    assert_eq!(
        action,
        Action::Write { slug: "abc123".to_string(), target: "example.com/page".to_string() }
    );
    let (state, action) = post_link_step(BASE, state, Event::Written(Ok(())));
    assert_eq!(state, PostLinkState::Done);
    assert_eq!(action, Action::Respond(Ok(created("abc123"))));
}

#[test]
fn created_link_resolves_to_its_target() {
    let mut store = HashMap::new();
    let (outcome, seen) = create(
        &mut store,
        Ok(body("https://example.com/page", "tok")),
        SecretLookup::Text("tok".to_string()),
        None,
    );
    let slug = slug_of(&outcome.unwrap());
    assert_eq!(seen.writes, vec![(slug.clone(), "https://example.com/page".to_string())]);
    assert_eq!(
        resolve(&store, &slug),
        Ok(Reply::Redirect { status: 301, location: "https://example.com/page".to_string() })
    );
}

#[test]
fn created_link_without_scheme_resolves_behind_https() {
    let mut store = HashMap::new();
    let (outcome, _) = create(
        &mut store,
        Ok(body("example.com/page", "tok")),
        SecretLookup::Text("tok".to_string()),
        None,
    );
    let slug = slug_of(&outcome.unwrap());
    assert_eq!(store.get(&slug), Some(&"example.com/page".to_string()));
    assert_eq!(
        resolve(&store, &slug),
        Ok(Reply::Redirect { status: 301, location: "https://example.com/page".to_string() })
    );
}

#[test]
fn created_slugs_have_six_symbols_of_the_alphabet() {
    let mut store = HashMap::new();
    for _ in 0..100 {
        let (outcome, seen) = create(
            &mut store,
            Ok(body("https://example.com/", "tok")),
            SecretLookup::Text("tok".to_string()),
            None,
        );
        let slug = slug_of(&outcome.unwrap());
        assert_eq!(slug.chars().count(), 6);
        assert!(slug.chars().all(|c| ALPHABET.contains(c)), "{}", slug);
        assert!(!slug.contains(['i', 'l', 'o']));
        assert_eq!(seen.lookups.last(), Some(&slug));
    }
    assert_eq!(store.len(), 100);
}

#[test]
fn handler_draws_its_slugs_itself() {
    let (state, action) = handle_post_link(
        BASE,
        PostLinkState::AwaitStore { target: "t".to_string() },
        Event::StoreOpened(true),
    );
    match (state, action) {
        (PostLinkState::AwaitLookup { slug, target }, Action::Lookup { slug: asked }) => {
            assert_eq!(slug, asked);
            assert_eq!(target, "t");
            assert_eq!(slug.chars().count(), 6);
        }
        other => panic!("{:?}", other),
    }
    let (state, action) = handle_post_link(
        BASE,
        PostLinkState::AwaitLookup { slug: "abc123".to_string(), target: "t".to_string() },
        Event::Found(Ok(Some("taken".to_string()))),
    );
    match (state, action) {
        (PostLinkState::AwaitLookup { slug, .. }, Action::Lookup { slug: asked }) => {
            assert_eq!(slug, asked);
            assert!(slug.chars().all(|c| ALPHABET.contains(c)));
        }
        other => panic!("{:?}", other),
    }
}

#[test]
fn repeated_slug_is_passed_over() {
    let mut store = HashMap::new();
    let (first, seen) = create(
        &mut store,
        Ok(body("https://one.example/", "tok")),
        SecretLookup::Text("tok".to_string()),
        Some(vec!["aaaaaa"]),
    );
    assert_eq!(first, Ok(created("aaaaaa")));
    assert_eq!(seen.lookups, vec!["aaaaaa"]);
    let (second, seen) = create(
        &mut store,
        Ok(body("https://two.example/", "tok")),
        SecretLookup::Text("tok".to_string()),
        Some(vec!["aaaaaa", "bbbbbb"]),
    );
    assert_eq!(second, Ok(created("bbbbbb")));
    assert_eq!(seen.lookups, vec!["aaaaaa", "bbbbbb"]);
    assert_eq!(seen.writes, vec![("bbbbbb".to_string(), "https://two.example/".to_string())]);
    assert_eq!(store.get("aaaaaa"), Some(&"https://one.example/".to_string()));
    assert_eq!(store.get("bbbbbb"), Some(&"https://two.example/".to_string()));
    assert_eq!(store.len(), 2);
}

#[test]
fn vanity_slug_is_passed_over_without_asking_the_store() {
    let mut store = HashMap::new();
    let (outcome, seen) = create(
        &mut store,
        Ok(body("https://example.com/", "tok")),
        SecretLookup::Text("tok".to_string()),
        Some(vec!["tiktok", "fb", "cccccc"]),
    );
    assert_eq!(outcome, Ok(created("cccccc")));
    assert_eq!(seen.lookups, vec!["cccccc"]);
    assert_eq!(store.len(), 1);
}

#[test]
fn undecoded_body_fails_with_400_before_anything_else() {
    let mut store = HashMap::new();
    let (outcome, seen) = create(
        &mut store,
        Err("expected value at line 1 column 1".to_string()),
        SecretLookup::Text("tok".to_string()),
        Some(vec![]),
    );
    assert_eq!(
        outcome,
        Err(Failure {
            kind: FailureKind::InvalidInput,
            status: 400,
            message: "Json parsing failed: expected value at line 1 column 1".to_string(),
        })
    );
    assert_eq!(seen.secrets_read, 0);
    assert_eq!(seen.store_opened, 0);
    assert!(seen.lookups.is_empty() && seen.writes.is_empty() && store.is_empty());
}

#[test]
fn wrong_token_fails_with_401_and_writes_nothing() {
    for token in ["wrong", "", "tok ", "TOK", "to"] {
        let mut store = HashMap::new();
        let (outcome, seen) = create(
            &mut store,
            Ok(body("https://example.com/", token)),
            SecretLookup::Text("tok".to_string()),
            Some(vec![]),
        );
        assert_eq!(
            outcome,
            Err(Failure {
                kind: FailureKind::Unauthorized,
                status: 401,
                message: "unauthorized".to_string(),
            })
        );
        assert_eq!(seen.secrets_read, 1);
        assert_eq!(seen.store_opened, 0);
        assert!(seen.lookups.is_empty() && seen.writes.is_empty() && store.is_empty());
    }
}

#[test]
fn missing_secret_is_a_misconfiguration() {
    let (state, action) = post_link_step(
        BASE,
        PostLinkState::AwaitSecret { body: body("t", "tok") },
        Event::Secret(SecretLookup::Missing),
    );
    assert_eq!(state, PostLinkState::Done);
    assert_eq!(
        action,
        failed(FailureKind::ServerMisconfiguration, 500, "correct API key is not defined")
    );
}

#[test]
fn secret_that_is_no_string_is_a_misconfiguration() {
    let (state, action) = post_link_step(
        BASE,
        PostLinkState::AwaitSecret { body: body("t", "tok") },
        Event::Secret(SecretLookup::NotText),
    );
    assert_eq!(state, PostLinkState::Done);
    assert_eq!(
        action,
        failed(FailureKind::ServerMisconfiguration, 500, "API key cannot be parsed into string")
    );
}

#[test]
fn creation_without_a_store_is_a_misconfiguration() {
    let (state, action) = post_link_step(
        BASE,
        PostLinkState::AwaitStore { target: "t".to_string() },
        Event::StoreOpened(false),
    );
    assert_eq!(state, PostLinkState::Done);
    assert_eq!(
        action,
        failed(FailureKind::ServerMisconfiguration, 500, "failed to retrieve KV store")
    );
}

#[test]
fn creation_reports_a_failed_read_with_its_cause() {
    let (state, action) = post_link_step(
        BASE,
        PostLinkState::AwaitLookup { slug: "abc123".to_string(), target: "t".to_string() },
        Event::Found(Err("timed out".to_string())),
    );
    assert_eq!(state, PostLinkState::Done);
    assert_eq!(
        action,
        failed(
            FailureKind::InternalError,
            500,
            "failed to retrieve KV store for checking unused: timed out"
        )
    );
}

#[test]
fn creation_reports_a_failed_write_with_its_cause() {
    let waiting = || PostLinkState::AwaitWrite { slug: "abc123".to_string() };
    assert_eq!(
        post_link_step(
            BASE,
            waiting(),
            Event::Written(Err(WriteFailure::Build("bad value".to_string())))
        ),
        (
            PostLinkState::Done,
            failed(
                FailureKind::InternalError,
                500,
                "failed to create KV store put builder: bad value"
            )
        )
    );
    assert_eq!(
        post_link_step(
            BASE,
            waiting(),
            Event::Written(Err(WriteFailure::Execute("quota".to_string())))
        ),
        (
            PostLinkState::Done,
            failed(FailureKind::InternalError, 500, "failed to put into KV store: quota")
        )
    );
}

#[test]
fn creation_refuses_events_out_of_turn() {
    let refusal = || failed(FailureKind::InternalError, 500, "unexpected event");
    assert_eq!(
        post_link_step(BASE, PostLinkState::Start, Event::StoreOpened(true)),
        (PostLinkState::Done, refusal())
    );
    assert_eq!(
        post_link_step(BASE, PostLinkState::AwaitBody, Event::Begin),
        (PostLinkState::Done, refusal())
    );
    assert_eq!(
        post_link_step(
            BASE,
            PostLinkState::AwaitSecret { body: body("t", "tok") },
            Event::Written(Ok(()))
        ),
        (PostLinkState::Done, refusal())
    );
    assert_eq!(
        post_link_step(
            BASE,
            PostLinkState::AwaitCandidate { target: "t".to_string() },
            Event::Found(Ok(None))
        ),
        (PostLinkState::Done, refusal())
    );
    assert_eq!(
        post_link_step(
            BASE,
            PostLinkState::AwaitWrite { slug: "abc123".to_string() },
            Event::Candidate("bbbbbb".to_string())
        ),
        (PostLinkState::Done, refusal())
    );
    assert_eq!(
        post_link_step(BASE, PostLinkState::Done, Event::Written(Ok(()))),
        (PostLinkState::Done, refusal())
    );
    assert_eq!(
        handle_post_link(BASE, PostLinkState::Done, Event::Begin),
        (PostLinkState::Done, refusal())
    );
}

#[test]
fn slug_is_used_where_the_store_holds_it() {
    assert_eq!(
        check_is_slug_used("abc123", Ok(Some("https://example.com/".to_string()))),
        Ok(true)
    );
    assert_eq!(check_is_slug_used("abc123", Ok(Some(String::new()))), Ok(true));
    assert_eq!(check_is_slug_used("abc123", Ok(None)), Ok(false));
}

#[test]
fn vanity_slug_is_used_whatever_the_store_says() {
    for slug in ["tiktok", "twitter", "instagram", "ig", "linkedin", "facebook", "fb"] {
        assert_eq!(check_is_slug_used(slug, Ok(None)), Ok(true));
        assert_eq!(check_is_slug_used(slug, Ok(Some("held".to_string()))), Ok(true));
        assert_eq!(check_is_slug_used(slug, Err("timed out".to_string())), Ok(true));
    }
}

#[test]
fn failed_read_on_another_slug_ends_the_request() {
    assert_eq!(
        check_is_slug_used("abc123", Err("timed out".to_string())),
        Err(Failure {
            kind: FailureKind::InternalError,
            status: 500,
            message: "failed to retrieve KV store for checking unused: timed out".to_string(),
        })
    );
    assert_eq!(
        check_is_slug_used("Tiktok", Err(String::new())),
        Err(Failure {
            kind: FailureKind::InternalError,
            status: 500,
            message: "failed to retrieve KV store for checking unused: ".to_string(),
        })
    );
}

#[test]
fn vanity_slug_is_never_written() {
    let waiting = || PostLinkState::AwaitLookup {
        slug: "fb".to_string(),
        target: "https://example.com/".to_string(),
    };
    let drawn_again = (
        PostLinkState::AwaitCandidate { target: "https://example.com/".to_string() },
        Action::PickSlug,
    );
    assert_eq!(post_link_step(BASE, waiting(), Event::Found(Ok(None))), drawn_again);
    assert_eq!(
        post_link_step(BASE, waiting(), Event::Found(Err("timed out".to_string()))),
        drawn_again
    );
}
