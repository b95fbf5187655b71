//! Session-scoped two-stage debug pipeline: a parse stage produces a record,
//! a transform stage maps it, and each outcome is rendered as a field list
//! together with a canonical text.
pub mod debug;
pub mod error;
pub mod record;
pub mod render;
pub mod session;
