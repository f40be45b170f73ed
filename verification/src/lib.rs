//! Client-side logic for a per-service traffic statistics API: timestamp
//! normalization, endpoint URL construction, a document model for the
//! loosely-typed responses, the two-mode output renderer, and the
//! configuration resolution that picks a token and an output mode.

pub mod dispatch;
pub mod doc;
pub mod numfmt;
pub mod render;
pub mod time;
pub mod url;
