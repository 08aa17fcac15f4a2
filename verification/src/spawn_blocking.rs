//! The blocking bridge: run a plain, non-async closure outside the
//! cooperative scheduler, observed through the same [`TaskHandle`]
//! contract as async work.
//!
//! Cancellation caveat, stated rather than hidden: once a blocking closure
//! has started executing it cannot be interrupted -- dropping its handle
//! before completion discards interest in the result but does not stop the
//! closure from running to completion.

use vstd::prelude::*;

use crate::join_handle::TaskHandle;
use crate::spawn::SpawnError;

verus! {

/// Spawn a blocking closure -- onto a dedicated blocking pool or thread,
/// backend-depending -- and get a [`TaskHandle`] for its result.
pub trait SpawnBlocking<T: Send + 'static> {
    /// Hand the closure off; on success the returned handle is armed.
    fn spawn_blocking<F: FnOnce() -> T + Send + 'static>(&self, func: F) -> (r: Result<
        TaskHandle<T>,
        SpawnError,
    >)
        ensures
            r matches Ok(h) ==> h.armed(),
    ;
}

} // verus!
