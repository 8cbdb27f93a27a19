//! What the commands decide, apart from reading and printing.

pub mod config;
pub mod ticket;
