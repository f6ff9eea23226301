//! Fetch/cache coordination and bounded navigation for an interactive
//! repository browser.
//!
//! The library holds the decisions: which cached results are still usable,
//! which fetch is the current one for each view, and how the navigation
//! history moves. Running the fetches and drawing the screen is left to the
//! caller.

pub mod cache;
pub mod coordinator;
pub mod error;
pub mod navigation;
pub mod request;
pub mod response;
pub mod scroll;
