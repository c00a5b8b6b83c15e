//! The shapes in which a document travels, one module for each version of
//! the format.

pub mod v1_3;
