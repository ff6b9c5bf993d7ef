//! Data model, JSON mapping, colour parsing and edit session of a small
//! editor for a document that describes groups of software projects.
pub mod color;
pub mod model;
pub mod document;
pub mod json;
pub mod codec;
pub mod session;
