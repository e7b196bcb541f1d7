//! Time-boxed kennelings: a role is granted to a member for a requested
//! length of time and taken away again when that time is over.
//!
//! The crate holds the rules of that cycle and nothing that talks to the
//! chat platform or to the database. A host grants and revokes roles, reads
//! and writes rows, sleeps, and reports what happened; the crate decides what
//! is to be done next.

pub mod commands;
pub mod duration;
pub mod engine;
pub mod healthcheck;
pub mod ids;
pub mod laws;
pub mod lifecycle;
pub mod message;
pub mod roles;
pub mod store;
pub mod text;
pub mod types;
pub mod util;

pub use ids::string_to_id;
pub use message::get_formatted_message;
