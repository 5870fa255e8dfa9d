//! Clipboard history daemon: a bounded, deduplicated history of copied text,
//! its persisted and wire format, the request protocol spoken with the
//! presentation process, and the failure-escalation policies of the loops
//! that drive them.
pub mod codec;
pub mod config;
pub mod history;
pub mod monitor;
pub mod protocol;
pub mod text;
