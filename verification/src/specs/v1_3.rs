//! The shapes of version 1.3 of the format.

pub mod property;
