//! Which handler a request goes to.

use vstd::prelude::*;
use vstd::string::*;
use crate::reply::{Reply, ReplyView};
use crate::text::{chars_of, same_text};

verus! {

/// The method of a request, as far as routing tells methods apart.
#[derive(Clone, Copy, Debug, PartialEq, Eq, Structural)]
pub enum Method {
    Get,
    Post,
    /// Any other method.
    Other,
}

/// The handler that a request goes to, with the part of the path that the
/// handler works on.
#[derive(Debug, PartialEq, Eq)]
pub enum Route {
    /// `GET /`: the greeting.
    Greeting,
    /// `POST /add`: create a link.
    AddLink,
    /// `GET /{slug}`: resolve a slug.
    Resolve { slug: String },
    /// `POST /form/{field}`: echo one field of a form.
    FormEcho { field: String },
    /// No handler answers to the request.
    Unmatched,
}

/// The mathematical content of a [`Route`].
pub ghost enum RouteView {
    Greeting,
    AddLink,
    Resolve { slug: Seq<char> },
    FormEcho { field: Seq<char> },
    Unmatched,
}

impl View for Route {
    type V = RouteView;

    open spec fn view(&self) -> RouteView {
        match *self {
            Route::Greeting => RouteView::Greeting,
            Route::AddLink => RouteView::AddLink,
            Route::Resolve { slug } => RouteView::Resolve { slug: slug@ },
            Route::FormEcho { field } => RouteView::FormEcho { field: field@ },
            Route::Unmatched => RouteView::Unmatched,
        }
    }
}

/// One segment of a path: not empty, and without a slash.
pub open spec fn is_segment(s: Seq<char>) -> bool {
    s.len() > 0 && forall|i: int| 0 <= i < s.len() ==> s[i] != '/'
}

/// Whether `path` is `prefix` followed by one segment.
pub open spec fn is_under(prefix: Seq<char>, path: Seq<char>) -> bool {
    prefix.is_prefix_of(path) && is_segment(path.skip(prefix.len() as int))
}

/// The routing table.
pub open spec fn routed(method: Method, path: Seq<char>) -> RouteView {
    match method {
        Method::Get => if path == "/"@ {
            RouteView::Greeting
        } else if is_under("/"@, path) {
            RouteView::Resolve { slug: path.skip("/"@.len() as int) }
        } else {
            RouteView::Unmatched
        },
        Method::Post => if path == "/add"@ {
            RouteView::AddLink
        } else if is_under("/form/"@, path) {
            RouteView::FormEcho { field: path.skip("/form/"@.len() as int) }
        } else {
            RouteView::Unmatched
        },
        Method::Other => RouteView::Unmatched,
    }
}

/// Whether what follows the first `from` characters is one segment.
fn segment_follows(chars: &Vec<char>, from: usize) -> (follows: bool)
    requires
        from <= chars.len(),
    ensures
        follows == is_segment(chars@.skip(from as int)),
{
    if from == chars.len() {
        return false;
    }
    let mut at: usize = from;
    while at < chars.len()
        invariant
            from <= at <= chars.len(),
            forall|i: int| from <= i < at ==> chars[i] != '/',
        decreases chars.len() - at,
    {
        if chars[at] == '/' {
            assert(chars@.skip(from as int)[at - from] == '/');
            return false;
        }
        at = at + 1;
    }
    assert forall|i: int| 0 <= i < chars@.skip(from as int).len() implies chars@.skip(
        from as int,
    )[i] != '/' by {
        assert(chars@.skip(from as int)[i] == chars[from + i]);
    }
    true
}

/// If `path` is `prefix` followed by one segment, that segment.
fn segment_under(prefix: &str, path: &str) -> (segment: Option<String>)
    ensures
        segment is Some == is_under(prefix@, path@),
        segment matches Some(s) ==> s@ == path@.skip(prefix@.len() as int),
{
    let head = chars_of(prefix);
    let chars = chars_of(path);
    if head.len() > chars.len() {
        return None;
    }
    let mut at: usize = 0;
    while at < head.len()
        invariant
            at <= head.len() <= chars.len(),
            head@ == prefix@,
            chars@ == path@,
            forall|i: int| 0 <= i < at ==> head[i] == chars[i],
        decreases head.len() - at,
    {
        if head[at] != chars[at] {
            assert(chars@.subrange(0, head.len() as int)[at as int] != head@[at as int]);
            return None;
        }
        at = at + 1;
    }
    assert(head@ =~= chars@.subrange(0, head.len() as int));
    if segment_follows(&chars, head.len()) {
        let segment = path.substring_char(head.len(), chars.len());
        Some(segment.to_owned())
    } else {
        None
    }
}

/// The reply to `GET /`.
pub open spec fn greeting_text() -> ReplyView {
    ReplyView::Text { status: 200, body: "Hello from Workers!"@ }
}

/// The greeting.
pub fn greeting() -> (reply: Reply)
    ensures
        reply@ == greeting_text(),
{
    Reply::Text { status: 200, body: "Hello from Workers!".to_owned() }
}

/// Finds the handler that a request goes to. Paths are matched as they
/// are, with no decoding; a segment is never empty.
pub fn route(method: Method, path: &str) -> (route: Route)
    ensures
        route@ == routed(method, path@),
{
    match method {
        Method::Get => {
            if same_text(path, "/") {
                Route::Greeting
            } else {
                match segment_under("/", path) {
                    Some(slug) => Route::Resolve { slug },
                    None => Route::Unmatched,
                }
            }
        },
        Method::Post => {
            if same_text(path, "/add") {
                Route::AddLink
            } else {
                match segment_under("/form/", path) {
                    Some(field) => Route::FormEcho { field },
                    None => Route::Unmatched,
                }
            }
        },
        Method::Other => Route::Unmatched,
    }
}

} // verus!
