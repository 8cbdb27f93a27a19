//! Ticket drafts and created tickets.

use vstd::prelude::*;
use crate::domain::branch::BranchCategory;

verus! {

/// What is proposed for a new ticket before the tracker has given it a key.
///
/// `branch_summary` is a slug of its own, supplied by whoever made the
/// draft; it is not derived from `title`.
#[derive(Debug, Clone)]
pub struct TicketDraft {
    pub title: String,
    pub description: String,
    pub branch_category: BranchCategory,
    pub branch_summary: String,
}

/// A draft as the contracts see it: its texts as character sequences.
pub struct DraftView {
    pub title: Seq<char>,
    pub description: Seq<char>,
    pub branch_category: BranchCategory,
    pub branch_summary: Seq<char>,
}

impl View for TicketDraft {
    type V = DraftView;

    open spec fn view(&self) -> DraftView {
        DraftView {
            title: self.title@,
            description: self.description@,
            branch_category: self.branch_category,
            branch_summary: self.branch_summary@,
        }
    }
}

impl DraftView {
    /// Whether none of the three texts is empty.
    pub open spec fn complete(self) -> bool {
        self.title.len() > 0 && self.description.len() > 0 && self.branch_summary.len() > 0
    }
}

/// A ticket as the tracker created it.
#[derive(Debug, Clone)]
pub struct Ticket {
    pub key: String,
    pub url: Option<String>,
}

} // verus!
