//! The diagnostic line that is written for every request.

use vstd::prelude::*;
use vstd::string::*;

verus! {

/// The text of an optional string.
pub open spec fn text_view(text: Option<String>) -> Option<Seq<char>> {
    match text {
        Some(t) => Some(t@),
        None => None,
    }
}

/// What stands for the coordinates of a caller whom the platform cannot
/// place.
pub open spec fn no_coordinates() -> Seq<char> {
    "(0.0, 0.0)"@
}

/// What stands for the region of a caller whom the platform cannot place.
pub open spec fn no_region() -> Seq<char> {
    "unknown region"@
}

/// The line: when, which path, from where.
pub open spec fn request_line(
    timestamp: Seq<char>,
    path: Seq<char>,
    coordinates: Option<Seq<char>>,
    region: Option<Seq<char>>,
) -> Seq<char> {
    timestamp + " - ["@ + path + "], located at: "@ + (match coordinates {
        Some(c) => c,
        None => no_coordinates(),
    }) + ", within: "@ + (match region {
        Some(r) => r,
        None => no_region(),
    })
}

/// Composes the diagnostic line of a request. The coordinates come as the
/// text in which they are to be shown.
pub fn log_request(
    timestamp: &str,
    path: &str,
    coordinates: Option<String>,
    region: Option<String>,
) -> (line: String)
    ensures
        line@ == request_line(timestamp@, path@, text_view(coordinates), text_view(region)),
{
    let place = match coordinates {
        Some(c) => c,
        None => "(0.0, 0.0)".to_owned(),
    };
    let within = match region {
        Some(r) => r,
        None => "unknown region".to_owned(),
    };
    timestamp.to_owned().concat(" - [").concat(path).concat("], located at: ").concat(
        place.as_str(),
    ).concat(", within: ").concat(within.as_str())
}

} // verus!
