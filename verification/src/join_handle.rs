//! The uniform join handle: one backend-tagged type through which a spawned
//! unit of work is awaited, detached or cancelled, whatever backend ran it.

use vstd::prelude::*;

use crate::async_global::AsyncGlobalJoinHandle;
use crate::async_std_exec::AsyncStdJoinHandle;
use crate::remote_pair::remote_forget;
use crate::remote_pair::remote_join;
use crate::task_state::FaultKind;
use crate::tokio_jh::TokioJoinHandle;

verus! {

/// A handle that can be dropped without cancelling the underlying unit of
/// work, by detaching first.
pub trait AsyncJoinHandle {
    /// Consume this handle while letting the underlying unit of work run on
    /// to completion.
    fn detach(self);
}

impl<T> AsyncJoinHandle for futures_util::future::RemoteHandle<T> {
    /// Sets the pair's keep-running flag, so the remote runs the unit of
    /// work to completion, then discards the handle.
    fn detach(self) {
        remote_forget(self)
    }
}

/// What joining a handle produced.  Every backend wrapped here surfaces a
/// fault fatally at the joining side, so the joins of this crate prove a
/// `Ready` outcome; the `Fault` shape names the alternative of the
/// uniform interface, mirroring the lifecycle model's raise step.
#[derive(Debug, PartialEq, Eq)]
pub enum JoinOutcome<T> {
    /// The unit of work resolved to this output.
    Ready(T),
    /// The unit of work faulted; the joining side is told which way.
    Fault(FaultKind),
}

/// A backend-agnostic join handle.  Exactly one backend-native handle (or
/// one remote pair handle) is populated.
///
/// Dropping a `TaskHandle` that is still running cancels the underlying
/// unit of work, as far as the backend allows: best-effort and cooperative,
/// taking effect at the work's next poll, except where the backend offers a
/// native abort.  Call [`TaskHandle::detach`] first to let the work run on.
#[must_use]
#[derive(Debug)]
#[verifier::reject_recursive_types(T)]
pub enum TaskHandle<T> {
    /// The fallback cancellable remote pair (see [`crate::remote_pair`]).
    RemoteHandle(futures_util::future::RemoteHandle<T>),
    /// A native tokio task handle.
    TokioJoinHandle(TokioJoinHandle<T>),
    /// A native async-global-executor task handle.
    AsyncJoinHandle(AsyncGlobalJoinHandle<T>),
    /// A native async-std task handle, wrapped abortable.
    AsyncStdJoinHandle(AsyncStdJoinHandle<T>),
}

impl<T> TaskHandle<T> {
    /// Whether this handle still owns its backend handle and may be joined.
    pub open spec fn armed(&self) -> bool {
        match self {
            TaskHandle::RemoteHandle(_) => true,
            TaskHandle::TokioJoinHandle(h) => h.armed(),
            TaskHandle::AsyncJoinHandle(_) => true,
            TaskHandle::AsyncStdJoinHandle(h) => h.armed(),
        }
    }
}

impl<T: Send + 'static> TaskHandle<T> {
    /// Block the calling thread until the underlying unit of work has
    /// resolved, and return its output.
    ///
    /// A fault of a unit of work is fatal here, at the joining side --
    /// a panic is re-raised by the remote pair or the backend itself, a
    /// task that vanished (aborted, or its runtime torn down under this
    /// live handle) raises an equivalent fault -- so a normal return
    /// always carries the output.
    pub fn join(self) -> (r: JoinOutcome<T>)
        requires
            self.armed(),
        ensures
            r is Ready,
    {
        match self {
            TaskHandle::RemoteHandle(h) => JoinOutcome::Ready(remote_join(h)),
            TaskHandle::TokioJoinHandle(h) => h.join(),
            TaskHandle::AsyncJoinHandle(h) => h.join(),
            TaskHandle::AsyncStdJoinHandle(h) => h.join(),
        }
    }
}

impl<T> AsyncJoinHandle for TaskHandle<T> {
    /// Consume the handle while the underlying unit of work runs on: the
    /// remote pair's keep-running flag is set, a native handle is disarmed
    /// so that dropping it no longer cancels.
    fn detach(self) {
        match self {
            TaskHandle::RemoteHandle(h) => remote_forget(h),
            TaskHandle::TokioJoinHandle(h) => h.detach(),
            TaskHandle::AsyncJoinHandle(h) => h.detach(),
            TaskHandle::AsyncStdJoinHandle(h) => h.detach(),
        }
    }
}

} // verus!
