//! A small line filter: the lines of a text that contain a query, matched
//! either exactly or after lowercasing, and the configuration that picks
//! between the two.

pub mod config;
pub mod laws;
pub mod search;
pub mod text;

pub use config::Config;
pub use search::{search, search_case_insensitive};
