//! Process-wide coordination for graceful shutdown.
//!
//! A [`Shutdown`] handle is created at most once per process, guarded by a
//! [`CreationFlag`]. Creation hands back the handle, which any number of tasks
//! may clone and wait on, together with the single [`Watcher`] that owns the
//! write side of the shutdown notification and fires it exactly once.
mod error;
mod guard;
mod shutdown;

pub use error::AlreadyCreatedError;
pub use guard::{claim_step, lemma_only_first_claim_succeeds, CreationFlag};
pub use shutdown::{Shutdown, Watcher};
