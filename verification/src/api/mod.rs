//! What the Suwayomi server is asked and what it answers.
pub mod graphql;
pub mod models;
pub mod rest;
