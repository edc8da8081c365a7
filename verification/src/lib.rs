//! A level-triggered reconciliation controller for a cluster-stored `Blog`
//! custom resource.
//!
//! The verified core covers the finalizer lifecycle protocol, the status
//! reconciler, the error/backoff policy and the per-instance driver state
//! machine. The surrounding process (watch transport, store client, run
//! loop) lives outside the library and feeds plain values in and out.

use vstd::prelude::*;

pub mod api;
pub mod manager;
pub mod markdown;

pub use api::Blog;

verus! {

/// The kinds of store rejection the controller distinguishes when a
/// persisted update (finalizer patch or status patch) fails.
#[derive(Clone, Copy, Debug, PartialEq, Eq, Structural)]
pub enum StoreError {
    /// Optimistic-concurrency conflict: another writer got there first.
    Conflict,
    /// The store rejected the document as invalid.
    Validation,
    /// The writer is not authorized for this update.
    Forbidden,
    /// The instance (or its kind's schema) was not found.
    NotFound,
    /// Transport-level failure reaching the store.
    Transport,
}

/// Errors surfaced by one reconciliation pass. Every variant is retried
/// with a fixed delay by the error policy; none escapes the driver.
#[derive(Clone, Copy, Debug, PartialEq, Eq, Structural)]
pub enum Error {
    /// A finalizer-protocol step failed: a marker update was rejected by
    /// the store, or the apply/cleanup callback itself failed.
    FinalizerError(StoreError),
    /// A status document could not be serialized for the patch.
    SerializationError,
}

impl Error {
    /// Human-readable rendering of the error, for the process log.
    pub fn message(&self) -> (r: String)
        ensures
            (self matches Error::FinalizerError(_)) ==> r@ == "Finalizer Error"@,
            (self matches Error::SerializationError) ==> r@ == "SerializationError"@,
    {
        match self {
            Error::FinalizerError(_) => "Finalizer Error".to_owned(),
            Error::SerializationError => "SerializationError".to_owned(),
        }
    }
}

/// What the controller asks the driver to do next with an instance once a
/// reconciliation pass has produced an outcome.
#[derive(Clone, Copy, Debug, PartialEq, Eq, Structural)]
pub enum Action {
    /// Re-reconcile after this many seconds even if no notification arrives.
    Requeue(u64),
    /// Park: do nothing until the next watch notification.
    AwaitChange,
}

} // verus!
