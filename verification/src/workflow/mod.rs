//! The sequence that leads from local changes to a ticket and a branch.

pub mod laws;
pub mod ticket;
