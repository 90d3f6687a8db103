//! Persons and their posts: the rows a store holds of them, the aggregate that
//! joins a person with its posts, and what an API answers on both.
pub mod db;
pub mod graphql;
