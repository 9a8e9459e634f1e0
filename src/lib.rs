//! Post interaction ledger and public-view materializer for a small
//! social-posting service: reactions, boosts, bookmarks and poll votes on
//! posts, live aggregate counts, and the viewer-scoped public read model.

pub mod ids;
pub mod domain;
pub mod endpoint;
pub mod content;
pub mod json;
pub mod query;
pub mod laws;
pub mod handler;
