//! Request pipeline of a terminal HTTP client: a recipe and its per-build
//! options are planned, rendered by the caller, assembled into a resolved
//! request record, and the outcome of sending it is captured as an exchange.

pub mod collection;
pub mod config;
pub mod http;
pub mod util;
pub mod view;
