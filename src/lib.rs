//! A verified cache of Bible translations: which files a translation keeps,
//! when a cached copy is stale, and how a chapter of it is rendered.
pub mod model;
pub mod render;
pub mod remote;
pub mod cache;
pub mod laws;
