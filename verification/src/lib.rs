//! Extraction engine for a news homepage: six fixed structural queries locate
//! article fragments inside a parsed document, and each fragment is reduced to
//! a normalized news item (title, link, description, image), capped at twenty
//! items per document.

pub mod dom;
pub mod extract;
pub mod html;
pub mod item;
pub mod laws;
pub mod query;
pub mod response;
pub mod strutil;
