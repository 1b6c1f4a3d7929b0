//! A read-through cache over a user's remote repository listing: it decides
//! between the cache file and a fresh fetch, sorts by stars once at write
//! time, and renders the listing.

pub mod config;
pub mod github;
pub mod laws;
pub mod repo;
pub mod savers;
pub mod text;
