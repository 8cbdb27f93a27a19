//! What holds of every run of the ticket workflow.

use vstd::prelude::*;
use crate::domain::branch::BranchCategory;
use crate::domain::ticket::{Ticket, TicketDraft};
use crate::infra::llm::{draft_in_category, lemma_heuristic_draft_nonblank};
use crate::text::trim;
use crate::workflow::ticket::{
    follows, goes_to_checkout, goes_to_ticket, WorkflowAction, WorkflowEvent, WorkflowState,
    WorkflowStep,
};

verus! {

/// How far a run has come: the number of the stage it is waiting in.
pub open spec fn stage(state: WorkflowState) -> nat {
    match state {
        WorkflowState::Summarizing { .. } => 0,
        WorkflowState::LoadingCache { .. } => 1,
        WorkflowState::Drafting { .. } => 2,
        WorkflowState::SavingCache { .. } => 3,
        WorkflowState::CreatingTicket { .. } => 4,
        WorkflowState::CheckingOut { .. } => 5,
        WorkflowState::Finished => 6,
    }
}

/// Whether the action of `step` is the one its state waits for: each
/// waiting state goes with the request it waits on, and a finished run with
/// its success or failure.
pub open spec fn coherent(step: WorkflowStep) -> bool {
    match step.state {
        WorkflowState::Summarizing { .. } => step.action is SummarizeChanges,
        WorkflowState::LoadingCache { .. } => step.action is LoadCache,
        WorkflowState::Drafting { .. } => step.action is DraftTicket,
        WorkflowState::SavingCache { .. } => step.action is SaveCache,
        WorkflowState::CreatingTicket { .. } => step.action is CreateTicket,
        WorkflowState::CheckingOut { .. } => step.action is CheckoutBranch,
        WorkflowState::Finished => step.action is Succeed || step.action is Fail,
    }
}

/// A run is linear: every decision leaves it in a later stage than it was
/// in, so it is over after at most six of them; and what is asked for is
/// always what the new state waits for. A run that is over stays over.
pub proof fn lemma_step_advances(state: WorkflowState, event: WorkflowEvent, step: WorkflowStep)
    requires
        follows(state, event, step),
    ensures
        coherent(step),
        stage(step.state) <= 6,
        state is Finished ==> step.state is Finished,
        !(state is Finished) ==> stage(step.state) > stage(state),
{
}

/// A run succeeds only from its last stage: when the branch was checked
/// out.
pub proof fn lemma_success_is_last(state: WorkflowState, event: WorkflowEvent, step: WorkflowStep)
    requires
        follows(state, event, step),
        step.action is Succeed,
    ensures
        state is CheckingOut,
        event matches WorkflowEvent::CheckedOut(Ok(_)),
{
}

/// The tracker is asked for a ticket only for a draft whose description is
/// not blank, and a branch is asked for only where the branch summary of
/// the draft is not blank.
pub proof fn lemma_requests_are_validated(
    state: WorkflowState,
    event: WorkflowEvent,
    step: WorkflowStep,
)
    requires
        follows(state, event, step),
    ensures
        step.action matches WorkflowAction::CreateTicket { draft, .. }
            ==> trim(draft.description@).len() > 0,
        step.action is CheckoutBranch ==> (state matches WorkflowState::CreatingTicket { draft }
            && trim(draft.branch_summary@).len() > 0),
{
}

/// A run never stops over a heuristic draft: its description lets it go
/// on to the tracker, and its branch summary to the checkout.
pub proof fn lemma_heuristic_draft_proceeds(
    category: BranchCategory,
    summary: Seq<char>,
    files_changed: nat,
    board: Seq<char>,
    draft: TicketDraft,
    ticket: Ticket,
    to_tracker: WorkflowStep,
    to_checkout: WorkflowStep,
)
    requires
        draft@ == draft_in_category(category, summary, files_changed),
        goes_to_ticket(board, draft@, to_tracker),
        goes_to_checkout(draft, ticket, to_checkout),
    ensures
        to_tracker.action is CreateTicket,
        to_checkout.action is CheckoutBranch,
{
    lemma_heuristic_draft_nonblank(category, summary, files_changed);
}

} // verus!
