//! A verified core for a URL-shortening service.
//!
//! The library owns the link-creation protocol: generating short URL-safe
//! identifier tokens, inserting them into a link table under a uniqueness
//! constraint with a bounded retry budget, and looking links up again by id.

pub mod coordinator;
pub mod errors;
pub mod link;
pub mod protocol;
pub mod store;
pub mod token;
pub mod urls;

pub use link::Link;
pub use link::NewLink;
