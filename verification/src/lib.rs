//! A thread-safe facade over a process-wide, non-reentrant logging subsystem
//! owned by a foreign native library.
//!
//! The foreign subsystem exposes one mutable global configuration (output
//! handler, per-logger severity levels, initialization state) and offers no
//! internal synchronization of its own. This crate holds the verified core of
//! the facade: the lifecycle state machine that makes initialization and
//! teardown idempotent, the rule that drops emission while uninitialized, the
//! marshalling of caller text into the foreign string convention, and the
//! severity code mapping. The surrounding process is expected to keep the
//! [`log_context::GlobalLogState`] behind one exclusive lock and to perform
//! the foreign calls that the verified functions request.

pub mod errors;
pub mod log_context;
pub mod severity;
pub mod text;

pub use errors::LoggingError;
pub use log_context::EmitRequest;
pub use log_context::GlobalLogState;
pub use log_context::InitDecision;
pub use log_context::LevelRequest;
pub use log_context::LocationDescriptor;
pub use log_context::LogContext;
pub use severity::LogSeverity;
pub use text::CText;
