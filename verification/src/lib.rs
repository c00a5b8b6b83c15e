//! A constrained data model for software bills of materials, with a
//! validation engine that reports every violation together with the exact
//! place in the document tree where it was found.
//!
//! - [`validation`]: paths, outcomes, and the contract of every node.
//! - [`external_models`]: leaf values whose text obeys a rule of its own.
//! - [`models`]: the records of a document.
//! - [`specs`]: the shapes in which a document travels.
//! - [`xml`]: markup as a sequence of events.

pub mod external_models;
pub mod models;
pub mod sequences;
pub mod specs;
pub mod strings;
pub mod validation;
pub mod xml;
