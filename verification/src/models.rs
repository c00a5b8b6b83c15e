//! The records of a document.

pub mod advisory;
pub mod attached_text;
pub mod license;
pub mod property;
