//! A key-value store kept in one collection of a MongoDB database.
//!
//! The crate decides what is asked of the database and what each answer
//! means; sending a request and awaiting its answer is left to the caller.

pub mod conn;
pub mod document;
pub mod driver;
pub mod error;
pub mod index;
pub mod store;
