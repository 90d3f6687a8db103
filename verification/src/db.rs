//! The rows of the two tables, and what is done to them on their way to and
//! from the store.
pub mod error;
pub mod models;
pub mod repository;
