//! A small link shortener: slugs, permanent redirects, and the request
//! handlers of the service, written as verified decision functions.

pub mod create;
pub mod exchange;
pub mod form;
pub mod laws;
pub mod log;
pub mod redirects;
pub mod reply;
pub mod resolve;
pub mod route;
pub mod slug;
pub mod target;
pub mod text;
