//! The messages of the Agones SDK protocol, as plain data.

pub mod alpha;
pub mod api;
