//! Typed jokes read from JSON documents, and the text that presents them.

pub mod driver;
pub mod error;
pub mod joke;
pub mod json;
pub mod render;
pub mod text;
