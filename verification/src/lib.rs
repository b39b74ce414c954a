//! The logic of showing routes in a browser and of reading the query of a request.
//!
//! `web_history` and `hash_history` decide what a router's history provider has
//! the browser write and do, the first with the route in the path of the
//! address, the second with the route in its fragment. They never touch the
//! browser: they are told what it shows and answers, and tell what to do next.
//! `query` deserializes the query of a request. `laws` says what the calls give,
//! and how they relate, over their arguments and results alone.

pub mod fallback;
pub mod hash_history;
pub mod laws;
pub mod location;
pub mod outcome;
pub mod push;
pub mod query;
pub mod scroll;
pub mod text;
pub mod web_history;
