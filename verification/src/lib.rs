//! Declarative bootstrap loading: renders templated data-description files,
//! classifies them by filename, decodes their records, reconstructs API-key
//! credentials, and validates referential integrity of the whole set, so that
//! a load either yields every record or none.

pub mod classify;
pub mod credential;
pub mod ids;
pub mod json;
pub mod loader;
pub mod outside;
pub mod records;
pub mod text;
