//! A local note store: notes live in an embedded SQLite database next to a
//! text index, and every change writes both inside one transaction.

pub mod commands;
pub mod engine;
pub mod error;
pub mod journal;
pub mod note;
pub mod request;
pub mod store;
pub mod text;
