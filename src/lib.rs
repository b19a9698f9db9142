//! A terminal viewer's core for hand-written portfolio documents: a tolerant
//! YAML schema, a text sanitizer, the projection into a display structure and
//! the key-driven navigation between sections.
pub mod ascii_art;
pub mod formatter;
pub mod models;
pub mod navigation;
pub mod parser;
pub mod sanitize;
pub mod session;
pub mod source;
pub mod text;
pub mod yaml;
