//! A client library for a REST-style social-media API: a typed decoder for
//! its `{kind, data}` response envelopes, and the pure state and decision
//! logic of an authenticated, rate-limited transport.

pub mod auth;
pub mod award;
pub mod client;
pub mod codec;
pub mod error;
pub mod fullname;
pub mod json;
pub mod link;
pub mod listing;
pub mod message;
pub mod misc;
pub mod more;
pub mod ratelimit;
pub mod route;
pub mod subreddit;
pub mod thing;
pub mod user;
