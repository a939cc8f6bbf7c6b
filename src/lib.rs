//! Request-scoped batching of "posts by author" lookups, and the error
//! taxonomy shared by the loader and the post and user repositories.

pub mod errors;
pub mod ids;
pub mod models;
pub mod config;
pub mod batcher;
pub mod loader;
pub mod repository;
