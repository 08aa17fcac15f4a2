//! The join handle over a native tokio task.
//!
//! Tokio hands out a joinable, abortable handle of its own; this wrapper
//! gives it the uniform contract: detach disarms cancel-on-drop, dropping
//! while armed aborts the task, joining returns the output.  A task that
//! panicked, or vanished because its runtime was torn down under a live
//! handle, is fatal at the joining side -- loud, never a silent or
//! recoverable result, since it signals a programming error.

use vstd::prelude::*;

use crate::join_handle::AsyncJoinHandle;
use crate::join_handle::JoinOutcome;
use crate::join_handle::TaskHandle;

verus! {

/// A native tokio task handle.
#[verifier::external_type_specification]
#[verifier::external_body]
#[verifier::reject_recursive_types(T)]
pub struct ExTokioNativeHandle<T>(tokio::task::JoinHandle<T>);

/// The error tokio reports when a task did not run to completion; it
/// appears in the output type of the native handle's own poll.
#[verifier::external_type_specification]
#[verifier::external_body]
pub struct ExTokioJoinError(tokio::task::JoinError);

/// Block until a native tokio task has ended and return its output.
///
/// Relies on `futures_executor::block_on` and on the poll behaviour of
/// `tokio::task::JoinHandle`: `Ok` carries the task's output and is
/// returned as is; `Err` (reported through `tokio::task::JoinError`) means
/// the task panicked or vanished without a result (aborted, or its whole
/// runtime torn down under this live handle), and is fatal here, at the
/// joining side -- the uniform contract makes such a join loud, never a
/// silent or recoverable result, since it signals a programming error.
#[verifier::external_body]
fn tokio_join_native<T>(h: tokio::task::JoinHandle<T>) -> T {
    futures_executor::block_on(h).expect("Tokio runtime ended before joining")
}

/// A join handle over a native tokio task, with the uniform detach /
/// cancel-on-drop contract.
#[derive(Debug)]
#[verifier::reject_recursive_types(T)]
pub struct TokioJoinHandle<T> {
    handle: Option<tokio::task::JoinHandle<T>>,
}

impl<T> TokioJoinHandle<T> {
    /// Whether this handle still owns its native handle: set at creation,
    /// cleared exactly when the handle is joined or detached.
    pub closed spec fn armed(&self) -> bool {
        self.handle is Some
    }

    /// Wrap a native tokio handle.
    pub fn new(handle: tokio::task::JoinHandle<T>) -> (r: Self)
        ensures
            r.armed(),
    {
        TokioJoinHandle { handle: Some(handle) }
    }

    /// Take the native handle out, leaving the wrapper disarmed so that
    /// dropping it no longer aborts the task.
    fn disarm(&mut self) -> (r: Option<tokio::task::JoinHandle<T>>)
        ensures
            !final (self).armed(),
            r == old(self).handle,
    {
        let mut slot: Option<tokio::task::JoinHandle<T>> = None;
        core::mem::swap(&mut self.handle, &mut slot);
        slot
    }

    /// Consume the handle while the task runs on: the native handle is
    /// dropped disarmed, which for tokio leaves the task running.
    pub fn detach(self) {
        let mut this = self;
        let _ = this.disarm();
    }

    /// Wrap this handle into the backend-agnostic [`TaskHandle`].
    pub fn into_task_handle(self) -> (r: TaskHandle<T>)
        ensures
            r == TaskHandle::TokioJoinHandle(self),
    {
        TaskHandle::TokioJoinHandle(self)
    }

    /// Block until the task has ended and return its output.  A task that
    /// panicked, or vanished because its runtime was torn down, is fatal
    /// here, at the joining side.
    pub fn join(self) -> (r: JoinOutcome<T>)
        requires
            self.armed(),
        ensures
            r is Ready,
    {
        let mut this = self;
        match this.disarm() {
            Some(h) => JoinOutcome::Ready(tokio_join_native(h)),
            None => unreached(),
        }
    }

    /// Take the native tokio handle out of the wrapper, disarming
    /// cancel-on-drop; `None` exactly when the wrapper was disarmed.
    pub fn into_native(self) -> (r: Option<tokio::task::JoinHandle<T>>)
        ensures
            r is Some <==> self.armed(),
    {
        let mut this = self;
        this.disarm()
    }
}

impl<T> AsyncJoinHandle for TokioJoinHandle<T> {
    /// Delegates to [`TokioJoinHandle::detach`].
    fn detach(self) {
        TokioJoinHandle::detach(self)
    }
}

impl<T> Drop for TokioJoinHandle<T> {
    /// Dropping a still-armed handle aborts the task; a disarmed (joined
    /// or detached) handle leaves it alone.
    ///
    /// Relies on `tokio::task::JoinHandle::abort`: requests that tokio
    /// cancel the task; a task that already completed is unaffected; the
    /// call returns normally.
    #[verifier::external_body]
    fn drop(&mut self)
        opens_invariants none
        no_unwind
    {
        if let Some(h) = &self.handle {
            h.abort();
        }
    }
}

} // verus!
