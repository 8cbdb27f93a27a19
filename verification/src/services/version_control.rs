//! How a branch is named after a ticket when the category is not part of
//! the name.

use vstd::prelude::*;
use crate::domain::branch::BranchName;
use crate::text::{append_str, string_of};

verus! {

/// The naming policy in force. Exactly one is active in a run.
#[derive(Debug, Clone)]
pub enum BranchingStrategy {
    /// `{prefix}/{ticket_key}-{slug}`
    TicketKeyPrefix { prefix: String },
    /// `{ticket_key}-{slug}`
    Raw,
}

/// The text of the branch that `strategy` names after `ticket_key` and
/// `slug`.
pub open spec fn strategy_text(
    strategy: BranchingStrategy,
    ticket_key: Seq<char>,
    slug: Seq<char>,
) -> Seq<char> {
    match strategy {
        BranchingStrategy::TicketKeyPrefix { prefix } => prefix@ + seq!['/'] + ticket_key + seq![
            '-',
        ] + slug,
        BranchingStrategy::Raw => ticket_key + seq!['-'] + slug,
    }
}

impl BranchingStrategy {
    /// Names the branch for `ticket_key` and `slug`. Both are taken as they
    /// are.
    pub fn format_branch(&self, ticket_key: &str, slug: &str) -> (name: BranchName)
        ensures
            name@ == strategy_text(*self, ticket_key@, slug@),
    {
        let mut text: Vec<char> = Vec::new();
        match self {
            BranchingStrategy::TicketKeyPrefix { prefix } => {
                append_str(&mut text, prefix.as_str());
                text.push('/');
            },
            BranchingStrategy::Raw => {
                assert(text@ + ticket_key@ == ticket_key@);
            },
        }
        append_str(&mut text, ticket_key);
        text.push('-');
        append_str(&mut text, slug);
        BranchName(string_of(&text))
    }
}

} // verus!
