//! An in-memory users registry behind a small HTTP-style interface.
//!
//! The store hands out unique, strictly increasing identifiers and keeps every
//! record for the life of the process; the handler layer validates creation
//! requests and formats the listing message.

pub mod db;
pub mod handlers;
pub mod messages;
pub mod users;
