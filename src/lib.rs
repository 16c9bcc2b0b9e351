//! Verified core of a commit-message assistant: builds the chat-completion
//! request for a staged diff and reconciles the provider's answer into
//! candidate commit messages or a typed error.

pub mod arguments;
pub mod config;
pub mod error;
pub mod git;
pub mod prompt;
pub mod reconcile;
pub mod request;
pub mod text;
