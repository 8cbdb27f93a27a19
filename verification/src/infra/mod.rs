//! The library's side of each outside collaborator: what is sent to it and
//! what is made of its answer.

pub mod git;
pub mod jira;
pub mod jira_doc;
pub mod llm;
pub mod llm_reply;
pub mod llm_request;
