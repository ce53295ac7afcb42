//! A menu-driven chat bot library: a session state machine that walks a user
//! from category to source to view mode to page size, and a pipeline that
//! fetches a page of feed entries, classifies attached media by URL,
//! plans a size-bounded download, and decides tiered delivery with
//! text fallback. All decision logic is verified; the chat platform,
//! the feed service and the fetch utilities are driven from outside
//! through the plans and effects this library produces.

pub mod classify;
pub mod config;
pub mod deliver;
pub mod download;
pub mod feed;
pub mod session;
pub mod text;
