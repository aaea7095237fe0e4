//! What the HTTP endpoints compute: query parameters, and the names they answer with.

pub mod index;
pub mod param;
pub mod random;
pub mod show;
