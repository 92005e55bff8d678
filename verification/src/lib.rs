//! Verified core of the cat-swiping service: image codecs, session tokens,
//! password checks, the decisions of the HTTP handlers and of the web front end.

pub mod codec;
pub mod token;
pub mod password;
pub mod api;
pub mod album;
pub mod front;
