//! Endpoints for Pexels videos: text search, the popular feed, and fetching
//! a single video by id.
pub mod popular;
pub mod search;
pub mod video;
