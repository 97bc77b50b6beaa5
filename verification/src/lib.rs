//! Heuristics for content discovery against a web server: which targets answer at all, whether a
//! page is a directory listing, and what the server sends for things that do not exist.
//!
//! Nothing here touches the network. Requests, terminals and filter lists belong to the caller,
//! who performs what the library asks for and reports back what came of it.

pub mod config;
pub mod connectivity;
pub mod detection;
pub mod filters;
pub mod heuristics;
pub mod html;
pub mod listing;
pub mod message;
pub mod not_found;
pub mod response;
pub mod runs;
pub mod text;
pub mod unique;
