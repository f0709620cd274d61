//! What the routes decide once a request is in: which operation runs, what
//! its failures are called, and where the client is sent.

pub mod app;
pub mod auth;
