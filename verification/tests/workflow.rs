use std::path::PathBuf;

use ugh::cache::{CacheFile, TicketDraftCache};
use ugh::domain::branch::BranchCategory;
use ugh::domain::change::ChangeSummary;
use ugh::domain::ticket::{Ticket, TicketDraft};
use ugh::error::AppError;
use ugh::infra::llm::{on_response, DraftStep, ModelResponse};
use ugh::workflow::ticket::{
    start, step, TicketWorkflowOutcome, WorkflowAction, WorkflowEvent, WorkflowState,
    WorkflowStep, WorkflowWarning,
};

fn changes() -> ChangeSummary {
    ChangeSummary {
        files_changed: 3,
        summary: "Fix login bug".to_string(),
    }
}

fn draft(description: &str, branch_summary: &str) -> TicketDraft {
    TicketDraft {
        title: "Repair sign-in".to_string(),
        description: description.to_string(),
        branch_category: BranchCategory::Fix,
        branch_summary: branch_summary.to_string(),
    }
}

fn empty_cache() -> TicketDraftCache {
    TicketDraftCache::from_file(PathBuf::from("cache.json"), CacheFile { entries: vec![] })
}

fn unavailable() -> AppError {
    AppError::Configuration("invalid cache file: broken".to_string())
}

/// Runs the workflow against stubs: a repository with the given changes, no
/// usable cache, a model that cannot be reached, and a tracker that answers
/// with the given key.
fn run(board_override: Option<&str>, default_board: Option<&str>, key: &str) -> (
    Result<TicketWorkflowOutcome, AppError>,
    Vec<String>,
) {
    let mut log = Vec::new();
    let mut current = start(
        board_override.map(|b| b.to_string()),
        default_board.map(|b| b.to_string()),
    );
    loop {
        let WorkflowStep { state, action, .. } = current;
        let event = match action {
            WorkflowAction::SummarizeChanges => {
                log.push("summarize".to_string());
                WorkflowEvent::Summarized(Ok(changes()))
            }
            WorkflowAction::LoadCache => {
                log.push("load".to_string());
                WorkflowEvent::CacheLoaded(Err(unavailable()))
            }
            WorkflowAction::DraftTicket { changes } => {
                log.push("draft".to_string());
                match on_response(&ModelResponse::Unreachable, &changes) {
                    DraftStep::Done(draft) => WorkflowEvent::Drafted(Ok(draft)),
                    DraftStep::Parse(_) => unreachable!(),
                }
            }
            WorkflowAction::SaveCache { .. } => {
                log.push("save".to_string());
                WorkflowEvent::CacheSaved(Ok(()))
            }
            WorkflowAction::CreateTicket { board, draft } => {
                log.push(format!("create on {board}: {}", draft.title));
                WorkflowEvent::TicketCreated(Ok(Ticket {
                    key: key.to_string(),
                    url: None,
                }))
            }
            WorkflowAction::CheckoutBranch { branch } => {
                log.push(format!("checkout {}", branch.as_str()));
                WorkflowEvent::CheckedOut(Ok(()))
            }
            WorkflowAction::Succeed(outcome) => return (Ok(outcome), log),
            WorkflowAction::Fail(error) => return (Err(error), log),
        };
        current = step(state, event);
    }
}

#[test]
fn end_to_end_with_heuristic_draft() {
    let (outcome, log) = run(None, Some("TCK"), "TCK-7");
    let outcome = match outcome {
        Ok(outcome) => outcome,
        Err(_) => panic!("the workflow failed"),
    };
    assert_eq!(outcome.ticket.key, "TCK-7");
    assert_eq!(outcome.branch.as_str(), "fix/TCK-7/fix-login-bug");
    assert_eq!(
        log,
        vec![
            "summarize",
            "load",
            "draft",
            "create on TCK: Fix fix login bug",
            "checkout fix/TCK-7/fix-login-bug",
        ]
    );
}

#[test]
fn board_override_wins_over_default() {
    let (outcome, log) = run(Some("OVR"), Some("TCK"), " OVR-1 ");
    let outcome = match outcome {
        Ok(outcome) => outcome,
        Err(_) => panic!("the workflow failed"),
    };
    assert_eq!(outcome.branch.as_str(), "fix/OVR-1/fix-login-bug");
    assert_eq!(log[3], "create on OVR: Fix fix login bug");
}

#[test]
fn aborts_without_a_board_before_any_call() {
    let (outcome, log) = run(None, None, "TCK-7");
    match outcome {
        Err(AppError::Configuration(message)) => assert_eq!(message, "no board configured"),
        _ => panic!("the workflow did not fail with a configuration error"),
    }
    assert!(log.is_empty());
    let first = start(None, None);
    assert!(matches!(first.state, WorkflowState::Finished));
    assert!(first.warning.is_none());
}

#[test]
fn start_asks_for_the_changes() {
    let first = start(None, Some("TCK".to_string()));
    assert!(matches!(first.action, WorkflowAction::SummarizeChanges));
    match first.state {
        WorkflowState::Summarizing { board } => assert_eq!(board, "TCK"),
        _ => panic!("unexpected state"),
    }
}

#[test]
fn repository_error_ends_the_run() {
    let state = WorkflowState::Summarizing {
        board: "TCK".to_string(),
    };
    let event = WorkflowEvent::Summarized(Err(AppError::VersionControl("no repo".to_string())));
    let next = step(state, event);
    assert!(matches!(next.state, WorkflowState::Finished));
    match next.action {
        WorkflowAction::Fail(AppError::VersionControl(message)) => assert_eq!(message, "no repo"),
        _ => panic!("the error was not passed on"),
    }
}

#[test]
fn summary_leads_to_cache_with_key() {
    let state = WorkflowState::Summarizing {
        board: "TCK".to_string(),
    };
    let next = step(state, WorkflowEvent::Summarized(Ok(changes())));
    assert!(matches!(next.action, WorkflowAction::LoadCache));
    match next.state {
        WorkflowState::LoadingCache {
            board,
            changes,
            cache_key,
        } => {
            assert_eq!(board, "TCK");
            assert_eq!(changes.files_changed, 3);
            assert_eq!(
                cache_key,
                TicketDraftCache::compute_key("Fix login bug", 3, Some("TCK"))
            );
        }
        _ => panic!("unexpected state"),
    }
}

#[test]
fn cache_failure_warns_and_goes_on() {
    let state = WorkflowState::LoadingCache {
        board: "TCK".to_string(),
        changes: changes(),
        cache_key: "k".to_string(),
    };
    let next = step(state, WorkflowEvent::CacheLoaded(Err(unavailable())));
    assert!(matches!(
        next.warning,
        Some(WorkflowWarning::CacheUnavailable(AppError::Configuration(_)))
    ));
    assert!(matches!(next.action, WorkflowAction::DraftTicket { .. }));
    assert!(matches!(
        next.state,
        WorkflowState::Drafting { cache: None, .. }
    ));
}

#[test]
fn cache_hit_skips_drafting() {
    let mut cache = empty_cache();
    cache.insert("k".to_string(), &draft("From the cache.", "cached-slug"));
    let state = WorkflowState::LoadingCache {
        board: "TCK".to_string(),
        changes: changes(),
        cache_key: "k".to_string(),
    };
    let next = step(state, WorkflowEvent::CacheLoaded(Ok(cache)));
    assert!(next.warning.is_none());
    match next.action {
        WorkflowAction::CreateTicket { board, draft } => {
            assert_eq!(board, "TCK");
            assert_eq!(draft.description, "From the cache.");
            assert_eq!(draft.branch_summary, "cached-slug");
        }
        _ => panic!("the cached draft was not used"),
    }
}

#[test]
fn cache_miss_drafts_then_saves() {
    let state = WorkflowState::LoadingCache {
        board: "TCK".to_string(),
        changes: changes(),
        cache_key: "k".to_string(),
    };
    let next = step(state, WorkflowEvent::CacheLoaded(Ok(empty_cache())));
    assert!(matches!(next.action, WorkflowAction::DraftTicket { .. }));
    let next = step(next.state, WorkflowEvent::Drafted(Ok(draft("D", "s"))));
    let cache = match next.action {
        WorkflowAction::SaveCache { cache } => cache,
        _ => panic!("the cache was not saved"),
    };
    assert_eq!(cache.entries().len(), 1);
    assert_eq!(cache.get("k").expect("missing").description, "D");
    let failed = AppError::Configuration("failed to write cache: full".to_string());
    let next = step(next.state, WorkflowEvent::CacheSaved(Err(failed)));
    assert!(matches!(
        next.warning,
        Some(WorkflowWarning::CacheNotSaved(_))
    ));
    assert!(matches!(next.action, WorkflowAction::CreateTicket { .. }));
}

#[test]
fn generator_error_ends_the_run() {
    let state = WorkflowState::Drafting {
        board: "TCK".to_string(),
        cache_key: "k".to_string(),
        cache: None,
    };
    let error = AppError::Configuration("Gemini API key not configured".to_string());
    let next = step(state, WorkflowEvent::Drafted(Err(error)));
    match next.action {
        WorkflowAction::Fail(AppError::Configuration(message)) => {
            assert_eq!(message, "Gemini API key not configured")
        }
        _ => panic!("the error was not passed on"),
    }
}

#[test]
fn blank_description_aborts() {
    let state = WorkflowState::Drafting {
        board: "TCK".to_string(),
        cache_key: "k".to_string(),
        cache: None,
    };
    let next = step(state, WorkflowEvent::Drafted(Ok(draft(" \n", "slug"))));
    assert!(matches!(next.state, WorkflowState::Finished));
    match next.action {
        WorkflowAction::Fail(AppError::LanguageModel(message)) => {
            assert_eq!(message, "language model returned an empty description")
        }
        _ => panic!("a blank description was let through"),
    }
}

#[test]
fn blank_description_from_the_cache_aborts() {
    let mut cache = empty_cache();
    cache.insert("k".to_string(), &draft("", "slug"));
    let state = WorkflowState::LoadingCache {
        board: "TCK".to_string(),
        changes: changes(),
        cache_key: "k".to_string(),
    };
    let next = step(state, WorkflowEvent::CacheLoaded(Ok(cache)));
    assert!(matches!(
        next.action,
        WorkflowAction::Fail(AppError::LanguageModel(_))
    ));
}

#[test]
fn tracker_error_ends_the_run() {
    let state = WorkflowState::CreatingTicket {
        draft: draft("D", "s"),
    };
    let error = AppError::IssueTracker("Jira responded with 500: oops".to_string());
    let next = step(state, WorkflowEvent::TicketCreated(Err(error)));
    assert!(matches!(
        next.action,
        WorkflowAction::Fail(AppError::IssueTracker(_))
    ));
}

#[test]
fn blank_branch_summary_aborts_after_the_ticket() {
    let state = WorkflowState::CreatingTicket {
        draft: draft("D", "  "),
    };
    let ticket = Ticket {
        key: "TCK-7".to_string(),
        url: None,
    };
    let next = step(state, WorkflowEvent::TicketCreated(Ok(ticket)));
    match next.action {
        WorkflowAction::Fail(AppError::LanguageModel(message)) => {
            assert_eq!(message, "language model returned an empty branch summary")
        }
        _ => panic!("a blank branch summary was let through"),
    }
}

#[test]
fn branch_is_derived_from_draft_and_ticket() {
    let state = WorkflowState::CreatingTicket {
        draft: draft("D", "  Repair Sign-In!  "),
    };
    let ticket = Ticket {
        key: " TCK-7 ".to_string(),
        url: Some("https://example.test/TCK-7".to_string()),
    };
    let next = step(state, WorkflowEvent::TicketCreated(Ok(ticket)));
    match next.action {
        WorkflowAction::CheckoutBranch { branch } => {
            assert_eq!(branch.as_str(), "fix/TCK-7/repair-sign-in")
        }
        _ => panic!("no branch was asked for"),
    }
    let failed = AppError::VersionControl("git checkout failed".to_string());
    let last = step(next.state, WorkflowEvent::CheckedOut(Err(failed)));
    assert!(matches!(
        last.action,
        WorkflowAction::Fail(AppError::VersionControl(_))
    ));
}

#[test]
fn checkout_success_ends_with_the_outcome() {
    let state = WorkflowState::CreatingTicket {
        draft: draft("D", "slug"),
    };
    let ticket = Ticket {
        key: "TCK-7".to_string(),
        url: Some("u".to_string()),
    };
    let next = step(state, WorkflowEvent::TicketCreated(Ok(ticket)));
    let last = step(next.state, WorkflowEvent::CheckedOut(Ok(())));
    assert!(matches!(last.state, WorkflowState::Finished));
    match last.action {
        WorkflowAction::Succeed(outcome) => {
            assert_eq!(outcome.ticket.key, "TCK-7");
            assert_eq!(outcome.ticket.url, Some("u".to_string()));
            assert_eq!(outcome.branch.as_str(), "fix/TCK-7/slug");
        }
        _ => panic!("the run did not succeed"),
    }
}

#[test]
fn unexpected_event_ends_the_run() {
    let state = WorkflowState::Summarizing {
        board: "TCK".to_string(),
    };
    let next = step(state, WorkflowEvent::CheckedOut(Ok(())));
    assert!(matches!(next.state, WorkflowState::Finished));
    match next.action {
        WorkflowAction::Fail(AppError::Configuration(message)) => {
            assert_eq!(message, "unexpected workflow event")
        }
        _ => panic!("an unexpected event was accepted"),
    }
    let next = step(WorkflowState::Finished, WorkflowEvent::CacheSaved(Ok(())));
    assert!(matches!(next.action, WorkflowAction::Fail(_)));
}
