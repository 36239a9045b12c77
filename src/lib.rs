//! A small client for the user-search and user-profile endpoints of the
//! GitHub REST API, and the decisions of the interactive shell around it.
//!
//! The library builds request descriptions, validates header values, decides
//! what a response means, and renders results as text. Transport, JSON decoding
//! and terminal prompts are done by the caller.
pub mod github;
pub mod shell;
