//! Reconciliation of reading highlights exported by e-readers with a personal
//! library of authors, books, chapters, quotes and notes.

pub mod clippings;
pub mod commands;
pub mod datetime;
pub mod error;
pub mod ibooks;
pub mod ibooks_laws;
pub mod invariants;
pub mod kindle;
pub mod kindle_laws;
pub mod kobo;
pub mod kobo_laws;
pub mod menu;
pub mod models;
pub mod queries;
pub mod reconcile;
pub mod sources;
pub mod sqlschema;
pub mod store;
pub mod success;
pub mod summary;
pub mod text;
