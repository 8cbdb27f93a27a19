//! Creating a ticket from the local changes, one decision at a time.
//!
//! The library decides; the caller acts. [`start`] and [`step`] say what to
//! do next, and the caller reports how it went. Nothing here touches the
//! repository, the tracker, the model or the file system.

use vstd::prelude::*;
use crate::cache::{cache_key, entry_of, inserted, lookup, draft_of, EntryView, TicketDraftCache};
use crate::domain::branch::{branch_text, BranchName};
use crate::domain::change::ChangeSummary;
use crate::domain::ticket::{DraftView, Ticket, TicketDraft};
use crate::error::{AppError, AppResult};
use crate::text::{chars_of, string_of, trim, trim_vec};

verus! {

/// What a finished run hands back.
pub struct TicketWorkflowOutcome {
    pub ticket: Ticket,
    pub branch: BranchName,
}

/// Where a run stands: what it is waiting for, and what it has so far.
pub enum WorkflowState {
    /// Waiting for the summary of the local changes.
    Summarizing { board: String },
    /// Waiting for the cache to be loaded.
    LoadingCache { board: String, changes: ChangeSummary, cache_key: String },
    /// Waiting for a draft to be generated.
    Drafting { board: String, cache_key: String, cache: Option<TicketDraftCache> },
    /// Waiting for the cache to be saved.
    SavingCache { board: String, draft: TicketDraft },
    /// Waiting for the tracker to create the ticket.
    CreatingTicket { draft: TicketDraft },
    /// Waiting for the branch to be checked out.
    CheckingOut { ticket: Ticket, branch: BranchName },
    /// The run is over.
    Finished,
}

/// How the action that was asked for went.
pub enum WorkflowEvent {
    Summarized(AppResult<ChangeSummary>),
    CacheLoaded(AppResult<TicketDraftCache>),
    Drafted(AppResult<TicketDraft>),
    CacheSaved(AppResult<()>),
    TicketCreated(AppResult<Ticket>),
    CheckedOut(AppResult<()>),
}

/// What the caller is asked to do next.
pub enum WorkflowAction {
    /// Ask the repository for a summary of the local changes.
    SummarizeChanges,
    /// Load the cache of drafts.
    LoadCache,
    /// Have a draft generated for these changes.
    DraftTicket { changes: ChangeSummary },
    /// Save the cache of drafts.
    SaveCache { cache: TicketDraftCache },
    /// Have the tracker create a ticket on this board from this draft.
    CreateTicket { board: String, draft: TicketDraft },
    /// Create or switch to this branch.
    CheckoutBranch { branch: BranchName },
    /// The run succeeded with this outcome.
    Succeed(TicketWorkflowOutcome),
    /// The run failed with this error.
    Fail(AppError),
}

/// Trouble with the cache that does not stop the run.
pub enum WorkflowWarning {
    /// The cache could not be loaded; the run goes on without it.
    CacheUnavailable(AppError),
    /// The cache could not be saved.
    CacheNotSaved(AppError),
}

/// One decision: the new state, the action to take, and a warning to show
/// if there is one.
pub struct WorkflowStep {
    pub state: WorkflowState,
    pub action: WorkflowAction,
    pub warning: Option<WorkflowWarning>,
}

/// The board a run works on: the one asked for, else the configured one.
pub open spec fn effective_board(
    board_override: Option<String>,
    default_board: Option<String>,
) -> Option<String> {
    match board_override {
        Some(board) => Some(board),
        None => default_board,
    }
}

/// Whether `step` ends the run with a configuration error that reads
/// `message`.
pub open spec fn fails_with_configuration(step: WorkflowStep, message: Seq<char>) -> bool {
    &&& step.state is Finished
    &&& step.action matches WorkflowAction::Fail(AppError::Configuration(text))
    &&& text@ == message
}

/// Whether `step` ends the run with a language-model error that reads
/// `message`.
pub open spec fn fails_with_language_model(step: WorkflowStep, message: Seq<char>) -> bool {
    &&& step.state is Finished
    &&& step.action matches WorkflowAction::Fail(AppError::LanguageModel(text))
    &&& text@ == message
}

/// Whether `step` ends the run with the error `error`, unchanged.
pub open spec fn fails_with(step: WorkflowStep, error: AppError) -> bool {
    step.state is Finished && step.action == WorkflowAction::Fail(error)
}

/// Begins a run. Without a board, neither asked for nor configured, the run
/// ends at once in a configuration error and nothing is asked of anyone;
/// with one, the first thing asked for is the summary of the changes.
pub fn start(board_override: Option<String>, default_board: Option<String>) -> (step: WorkflowStep)
    ensures
        step.warning is None,
        match effective_board(board_override, default_board) {
            None => fails_with_configuration(step, "no board configured"@),
            Some(board) => step.state == (WorkflowState::Summarizing { board }) && step.action
                is SummarizeChanges,
        },
{
    let board = match board_override {
        Some(board) => Some(board),
        None => default_board,
    };
    match board {
        None => WorkflowStep {
            state: WorkflowState::Finished,
            action: WorkflowAction::Fail(
                AppError::Configuration("no board configured".to_owned()),
            ),
            warning: None,
        },
        Some(board) => WorkflowStep {
            state: WorkflowState::Summarizing { board },
            action: WorkflowAction::SummarizeChanges,
            warning: None,
        },
    }
}

/// Whether `step` is what follows once the draft is settled: a run whose
/// draft has a blank description ends in a language-model error; any other
/// asks the tracker for a ticket on `board` from that draft.
pub open spec fn goes_to_ticket(board: Seq<char>, draft: DraftView, step: WorkflowStep) -> bool {
    if trim(draft.description).len() == 0 {
        fails_with_language_model(step, "language model returned an empty description"@)
    } else {
        &&& step.state matches WorkflowState::CreatingTicket { draft: kept }
        &&& kept@ == draft
        &&& step.action matches WorkflowAction::CreateTicket { board: asked, draft: sent }
        &&& asked@ == board
        &&& sent@ == draft
    }
}

/// Whether `step` is what follows once the ticket exists: a run whose
/// draft has a blank branch summary ends in a language-model error; any
/// other asks for the branch named after the draft and the ticket.
pub open spec fn goes_to_checkout(draft: TicketDraft, ticket: Ticket, step: WorkflowStep) -> bool {
    if trim(draft.branch_summary@).len() == 0 {
        fails_with_language_model(step, "language model returned an empty branch summary"@)
    } else {
        &&& step.state matches WorkflowState::CheckingOut { ticket: kept, branch: held }
        &&& kept == ticket
        &&& held@ == branch_text(draft.branch_category, ticket.key@, trim(draft.branch_summary@))
        &&& step.action matches WorkflowAction::CheckoutBranch { branch }
        &&& branch@ == held@
    }
}

/// The entry that a loaded cache holds for `key`; a cache that failed to
/// load holds none.
pub open spec fn cached_entry(loaded: AppResult<TicketDraftCache>, key: Seq<char>) -> Option<
    EntryView,
> {
    match loaded {
        Ok(cache) => lookup(cache@, key),
        Err(_) => None,
    }
}

/// The cache a run goes on with: the loaded one, or none where loading
/// failed.
pub open spec fn usable_cache(loaded: AppResult<TicketDraftCache>) -> Option<TicketDraftCache> {
    match loaded {
        Ok(cache) => Some(cache),
        Err(_) => None,
    }
}

/// Whether `step` is the decision that `event` calls for in `state`.
///
/// Errors of the repository, the generator and the tracker end the run
/// unchanged. Trouble with the cache only warns. An event that the state
/// did not ask for ends the run in a configuration error.
pub open spec fn follows(state: WorkflowState, event: WorkflowEvent, step: WorkflowStep) -> bool {
    match (state, event) {
        (WorkflowState::Summarizing { board }, WorkflowEvent::Summarized(Err(error))) => {
            step.warning is None && fails_with(step, error)
        },
        (WorkflowState::Summarizing { board }, WorkflowEvent::Summarized(Ok(changes))) => {
            &&& step.warning is None
            &&& step.action is LoadCache
            &&& step.state matches WorkflowState::LoadingCache {
                board: kept,
                changes: held,
                cache_key: key,
            }
            &&& kept == board
            &&& held == changes
            &&& key@ == cache_key(changes.summary@, changes.files_changed as nat, Some(board@))
        },
        (
            WorkflowState::LoadingCache { board, changes, cache_key },
            WorkflowEvent::CacheLoaded(loaded),
        ) => {
            &&& match loaded {
                Ok(_) => step.warning is None,
                Err(error) => step.warning == Some(WorkflowWarning::CacheUnavailable(error)),
            }
            &&& match cached_entry(loaded, cache_key@) {
                Some(entry) => goes_to_ticket(board@, draft_of(entry), step),
                None => {
                    &&& step.action == (WorkflowAction::DraftTicket { changes })
                    &&& step.state == (WorkflowState::Drafting {
                        board,
                        cache_key,
                        cache: usable_cache(loaded),
                    })
                },
            }
        },
        (
            WorkflowState::Drafting { board, cache_key, cache },
            WorkflowEvent::Drafted(Err(error)),
        ) => { step.warning is None && fails_with(step, error) },
        (
            WorkflowState::Drafting { board, cache_key, cache: None },
            WorkflowEvent::Drafted(Ok(draft)),
        ) => { step.warning is None && goes_to_ticket(board@, draft@, step) },
        (
            WorkflowState::Drafting { board, cache_key, cache: Some(cache) },
            WorkflowEvent::Drafted(Ok(draft)),
        ) => {
            &&& step.warning is None
            &&& step.state == (WorkflowState::SavingCache { board, draft })
            &&& step.action matches WorkflowAction::SaveCache { cache: updated }
            &&& updated@ == inserted(cache@, entry_of(cache_key@, draft@))
            &&& updated.path() == cache.path()
        },
        (WorkflowState::SavingCache { board, draft }, WorkflowEvent::CacheSaved(saved)) => {
            &&& match saved {
                Ok(_) => step.warning is None,
                Err(error) => step.warning == Some(WorkflowWarning::CacheNotSaved(error)),
            }
            &&& goes_to_ticket(board@, draft@, step)
        },
        (WorkflowState::CreatingTicket { draft }, WorkflowEvent::TicketCreated(Err(error))) => {
            step.warning is None && fails_with(step, error)
        },
        (WorkflowState::CreatingTicket { draft }, WorkflowEvent::TicketCreated(Ok(ticket))) => {
            step.warning is None && goes_to_checkout(draft, ticket, step)
        },
        (WorkflowState::CheckingOut { ticket, branch }, WorkflowEvent::CheckedOut(Err(error))) => {
            step.warning is None && fails_with(step, error)
        },
        (WorkflowState::CheckingOut { ticket, branch }, WorkflowEvent::CheckedOut(Ok(_))) => {
            &&& step.warning is None
            &&& step.state is Finished
            &&& step.action == WorkflowAction::Succeed(TicketWorkflowOutcome { ticket, branch })
        },
        _ => step.warning is None && fails_with_configuration(step, "unexpected workflow event"@),
    }
}

/// A copy of `draft`.
fn copy_draft(draft: &TicketDraft) -> (out: TicketDraft)
    ensures
        out@ == draft@,
{
    TicketDraft {
        title: draft.title.clone(),
        description: draft.description.clone(),
        branch_category: draft.branch_category,
        branch_summary: draft.branch_summary.clone(),
    }
}

/// The run ends with `error`.
fn fail(error: AppError, warning: Option<WorkflowWarning>) -> (step: WorkflowStep)
    ensures
        step.warning == warning,
        fails_with(step, error),
{
    WorkflowStep { state: WorkflowState::Finished, action: WorkflowAction::Fail(error), warning }
}

/// The draft is settled: check its description and ask for the ticket.
fn to_ticket(board: String, draft: TicketDraft, warning: Option<WorkflowWarning>) -> (step:
    WorkflowStep)
    ensures
        step.warning == warning,
        goes_to_ticket(board@, draft@, step),
{
    let description = trim_vec(&chars_of(draft.description.as_str()));
    if description.len() == 0 {
        return WorkflowStep {
            state: WorkflowState::Finished,
            action: WorkflowAction::Fail(
                AppError::LanguageModel("language model returned an empty description".to_owned()),
            ),
            warning,
        };
    }
    let sent = copy_draft(&draft);
    WorkflowStep {
        state: WorkflowState::CreatingTicket { draft },
        action: WorkflowAction::CreateTicket { board, draft: sent },
        warning,
    }
}

/// The ticket exists: check the branch summary and ask for the branch.
fn to_checkout(draft: TicketDraft, ticket: Ticket) -> (step: WorkflowStep)
    ensures
        step.warning is None,
        goes_to_checkout(draft, ticket, step),
{
    let summary = string_of(&trim_vec(&chars_of(draft.branch_summary.as_str())));
    if summary.as_str().is_empty() {
        return WorkflowStep {
            state: WorkflowState::Finished,
            action: WorkflowAction::Fail(
                AppError::LanguageModel(
                    "language model returned an empty branch summary".to_owned(),
                ),
            ),
            warning: None,
        };
    }
    let branch = BranchName::from_parts(
        &draft.branch_category,
        ticket.key.as_str(),
        summary.as_str(),
    );
    let held = BranchName(branch.0.clone());
    WorkflowStep {
        state: WorkflowState::CheckingOut { ticket, branch: held },
        action: WorkflowAction::CheckoutBranch { branch },
        warning: None,
    }
}

/// Decides what follows `event` in `state`.
pub fn step(state: WorkflowState, event: WorkflowEvent) -> (step: WorkflowStep)
    ensures
        follows(state, event, step),
{
    match (state, event) {
        (WorkflowState::Summarizing { board }, WorkflowEvent::Summarized(Err(error))) => fail(
            error,
            None,
        ),
        (WorkflowState::Summarizing { board }, WorkflowEvent::Summarized(Ok(changes))) => {
            let cache_key = TicketDraftCache::compute_key(
                changes.summary.as_str(),
                changes.files_changed,
                Some(board.as_str()),
            );
            WorkflowStep {
                state: WorkflowState::LoadingCache { board, changes, cache_key },
                action: WorkflowAction::LoadCache,
                warning: None,
            }
        },
        (
            WorkflowState::LoadingCache { board, changes, cache_key },
            WorkflowEvent::CacheLoaded(loaded),
        ) => {
            match loaded {
                Ok(cache) => match cache.get(cache_key.as_str()) {
                    Some(draft) => to_ticket(board, draft, None),
                    None => WorkflowStep {
                        state: WorkflowState::Drafting { board, cache_key, cache: Some(cache) },
                        action: WorkflowAction::DraftTicket { changes },
                        warning: None,
                    },
                },
                Err(error) => WorkflowStep {
                    state: WorkflowState::Drafting { board, cache_key, cache: None },
                    action: WorkflowAction::DraftTicket { changes },
                    warning: Some(WorkflowWarning::CacheUnavailable(error)),
                },
            }
        },
        (
            WorkflowState::Drafting { board, cache_key, cache },
            WorkflowEvent::Drafted(Err(error)),
        ) => fail(error, None),
        (
            WorkflowState::Drafting { board, cache_key, cache: None },
            WorkflowEvent::Drafted(Ok(draft)),
        ) => to_ticket(board, draft, None),
        (
            WorkflowState::Drafting { board, cache_key, cache: Some(cache) },
            WorkflowEvent::Drafted(Ok(draft)),
        ) => {
            let mut cache = cache;
            cache.insert(cache_key, &draft);
            WorkflowStep {
                state: WorkflowState::SavingCache { board, draft },
                action: WorkflowAction::SaveCache { cache },
                warning: None,
            }
        },
        (WorkflowState::SavingCache { board, draft }, WorkflowEvent::CacheSaved(saved)) => {
            match saved {
                Ok(_) => to_ticket(board, draft, None),
                Err(error) => to_ticket(
                    board,
                    draft,
                    Some(WorkflowWarning::CacheNotSaved(error)),
                ),
            }
        },
        (WorkflowState::CreatingTicket { draft }, WorkflowEvent::TicketCreated(Err(error))) => {
            fail(error, None)
        },
        (WorkflowState::CreatingTicket { draft }, WorkflowEvent::TicketCreated(Ok(ticket))) => {
            to_checkout(draft, ticket)
        },
        (WorkflowState::CheckingOut { ticket, branch }, WorkflowEvent::CheckedOut(Err(error))) => {
            fail(error, None)
        },
        (WorkflowState::CheckingOut { ticket, branch }, WorkflowEvent::CheckedOut(Ok(_))) => {
            WorkflowStep {
                state: WorkflowState::Finished,
                action: WorkflowAction::Succeed(TicketWorkflowOutcome { ticket, branch }),
                warning: None,
            }
        },
        _ => WorkflowStep {
            state: WorkflowState::Finished,
            action: WorkflowAction::Fail(
                AppError::Configuration("unexpected workflow event".to_owned()),
            ),
            warning: None,
        },
    }
}

} // verus!
