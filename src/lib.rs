//! A chat bot core: finds a search request in a chat message, describes the
//! image-search call for one of two providers, and reads the image URL out of
//! the provider's answer.

pub mod trigger;
pub mod json;
pub mod error;
pub mod image_searcher;
pub mod config;
pub mod handler;
