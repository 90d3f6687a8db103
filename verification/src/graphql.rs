//! The API over persons and posts: its types, and what each operation
//! answers.
pub mod error;
pub mod resolver;
pub mod schema;
