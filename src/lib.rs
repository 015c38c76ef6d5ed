//! A fetch relay: it takes a URL (with an optional proxy and timeout), fetches
//! it through an HTTP client set up for that one request, and turns the outcome
//! into a reply with a status code and either content or an error.

pub mod laws;
pub mod outside;
pub mod relay;
pub mod reply;
pub mod request;
pub mod text;
