//! Operations on personas.

pub mod delete;
pub mod fetch;
pub mod lifecycle;

pub use fetch::FetchPersonaFail;
