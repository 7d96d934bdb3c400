//! Endpoints for Pexels photos: text search, the curated feed, and fetching
//! a single photo by id.
pub mod curated;
pub mod photo;
pub mod search;
