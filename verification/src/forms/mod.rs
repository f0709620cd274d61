//! The units of work of each business operation, and what each can fail with.

pub mod auth;
pub mod personas;
