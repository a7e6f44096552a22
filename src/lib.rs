//! A command-line research assistant's orchestration core: conversation
//! history, prompt templating, quick-search formatting, failure hints and the
//! session decisions, each stated and proved with Verus.
pub mod text;
pub mod classify;
pub mod prompt;
pub mod config;
pub mod agent;
pub mod session;
