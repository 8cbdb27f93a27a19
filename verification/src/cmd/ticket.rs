//! The arguments of the command that creates a ticket.

use vstd::prelude::*;

verus! {

/// What the user asked for: the board, where it is not the configured one.
#[derive(Debug, Clone)]
pub struct TicketCommandArgs {
    pub board: Option<String>,
}

} // verus!
