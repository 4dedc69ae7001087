//! Download orchestration for the attachments of a remote issue: the
//! per-attachment state machine, the single-flight download queue, the
//! decisions of the streaming executor, and the text shown for each state.
pub mod app;
pub mod jira;
pub mod text;
pub mod transfer;
