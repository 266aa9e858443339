//! Persistence logic for a forest of tabs (notes that may name a parent tab).
//!
//! `tab` holds the record type, `table` the semantics of the `tabs` table under
//! the list and upsert statements, and `reply` what each HTTP operation answers.
pub mod reply;
pub mod tab;
pub mod table;
