//! An editor-integration bridge between a language client and a presence
//! service: which document is being edited, what to show for it, and how
//! internal diagnostics reach the editor's log.
//!
//! Everything here works on plain values; connections, locks and the
//! asynchronous runtime live with the caller.

pub mod activity;
pub mod error;
pub mod language;
pub mod relay;
pub mod session;
pub mod text;
pub mod workspace;
