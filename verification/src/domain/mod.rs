//! The values the workflow passes around: change summaries, ticket drafts,
//! tickets and branch names.

pub mod branch;
pub mod change;
pub mod ticket;
