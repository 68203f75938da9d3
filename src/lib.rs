//! Typed request builders and response decoders for a search-results web API.
pub mod json;
pub mod query;
pub mod heritage;
pub mod locations;
