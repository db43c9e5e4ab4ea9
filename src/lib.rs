//! A Usenet-style bulletin board: request validation, the wire mapping between
//! JSON and posts, an authenticated post/comment store, the request dispatcher
//! and the client-side request builders and response decoders.

pub mod json;
pub mod error;
pub mod request;
pub mod auth;
pub mod store;
pub mod laws;
pub mod wire;
pub mod dispatch;
pub mod client;
