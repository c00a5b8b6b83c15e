//! Leaf values whose text obeys a rule of its own.

pub mod date_time;
pub mod normalized_string;
pub mod spdx;
pub mod uri;
