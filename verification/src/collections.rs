//! Endpoints for Pexels collections: the collection list, the featured
//! list, and the media items of a single collection.
pub mod featured;
pub mod items;
pub mod media;
