//! The response data model of the library.
pub mod models;
