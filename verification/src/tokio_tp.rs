//! An executor that uses a multi-threaded tokio runtime.
//!
//! Runtime construction and configuration stay with the caller (that is
//! backend setup, not this crate's concern): a built
//! `tokio::runtime::Runtime` is handed in and wrapped.  The wrapper can be
//! cloned; the runtime is shared and can only be shut down through the
//! last clone.

use std::sync::Arc;
use vstd::prelude::*;

use crate::block_on::BlockOn;
use crate::join_handle::TaskHandle;
use crate::spawn::Spawn;
use crate::spawn::SpawnError;
use crate::spawn_blocking::SpawnBlocking;
use crate::spawn_handle::SpawnHandle;
use crate::tokio_jh::TokioJoinHandle;
use crate::yield_now::YieldNow;

verus! {

/// A tokio runtime.
#[verifier::external_type_specification]
#[verifier::external_body]
pub struct ExTokioRuntime(tokio::runtime::Runtime);

/// Relies on `tokio::runtime::Runtime::spawn`: hands the unit of work to
/// the runtime's thread pool and returns the native task handle; it
/// accepts every unit of work while the runtime lives, which the shared
/// reference guarantees.
#[verifier::external_body]
pub(crate) fn tokio_rt_spawn<T: Send + 'static>(
    rt: &Arc<tokio::runtime::Runtime>,
    fut: futures_task::FutureObj<'static, T>,
) -> tokio::task::JoinHandle<T> {
    rt.spawn(fut)
}

/// Relies on `tokio::runtime::Runtime::spawn_blocking`: runs the closure
/// on the runtime's dedicated blocking thread pool and returns the native
/// task handle.  Once the closure has started it cannot be interrupted;
/// aborting the handle only prevents a not-yet-started closure from
/// running.
#[verifier::external_body]
pub(crate) fn tokio_rt_spawn_blocking<T: Send + 'static, F: FnOnce() -> T + Send + 'static>(
    rt: &Arc<tokio::runtime::Runtime>,
    func: F,
) -> tokio::task::JoinHandle<T> {
    rt.spawn_blocking(func)
}

/// Relies on `tokio::runtime::Runtime::block_on`: drives the unit of work
/// on the calling thread, returning only once it has resolved, with its
/// output.  Fatal when called from an async context, and a panic of the
/// driven work unwinds here.
#[verifier::external_body]
fn tokio_rt_block_on<T>(
    rt: &Arc<tokio::runtime::Runtime>,
    fut: futures_task::FutureObj<'static, T>,
) -> T {
    rt.block_on(fut)
}

/// Relies on `tokio::task::yield_now` boxed through
/// `futures_task::FutureObj::new`: a unit of work that suspends once and
/// resolves on the next scheduling turn.
#[verifier::external_body]
pub(crate) fn tokio_yield_obj() -> futures_task::FutureObj<'static, ()> {
    futures_task::FutureObj::new(Box::new(tokio::task::yield_now()))
}

/// Relies on `std::sync::Arc::try_unwrap`: returns the runtime when this
/// was the only reference, or hands the same shared reference back.
#[verifier::external_body]
fn runtime_try_unwrap(rt: Arc<tokio::runtime::Runtime>) -> (r: Result<
    tokio::runtime::Runtime,
    Arc<tokio::runtime::Runtime>,
>)
    ensures
        r matches Err(a) ==> a == rt,
{
    Arc::try_unwrap(rt)
}

/// Relies on `tokio::runtime::Runtime::shutdown_timeout`: shuts the
/// runtime down, waiting at most the given span for spawned work to stop.
#[verifier::external_body]
fn tokio_rt_shutdown_timeout(rt: tokio::runtime::Runtime, duration: core::time::Duration) {
    rt.shutdown_timeout(duration)
}

/// Relies on `tokio::runtime::Runtime::shutdown_background`: shuts the
/// runtime down without waiting for spawned work to stop.
#[verifier::external_body]
fn tokio_rt_shutdown_background(rt: tokio::runtime::Runtime) {
    rt.shutdown_background()
}

/// An executor over a multi-threaded tokio runtime.  Clones share one
/// runtime.
#[derive(Clone)]
pub struct TokioTp {
    pool: Arc<tokio::runtime::Runtime>,
}

impl TokioTp {
    /// Wrap a built tokio runtime.  Configuring and building the runtime
    /// is the caller's business; this capability only spawns onto it.
    pub fn new(runtime: tokio::runtime::Runtime) -> Self {
        TokioTp { pool: Arc::new(runtime) }
    }

    /// Run a unit of work to completion on the calling thread, returning
    /// its output.  Fatal when invoked from inside a unit of work already
    /// running on this backend.
    pub fn block_on<T>(&self, f: futures_task::FutureObj<'static, T>) -> T {
        tokio_rt_block_on(&self.pool, f)
    }

    /// Shut the runtime down, waiting at most `duration` for spawned work
    /// to stop.  Works only through the last clone: otherwise nothing is
    /// shut down and the executor is handed back unchanged as the error.
    pub fn shutdown_timeout(self, duration: core::time::Duration) -> (r: Result<(), Self>)
        ensures
            r matches Err(t) ==> t == self,
    {
        match runtime_try_unwrap(self.pool) {
            Ok(rt) => {
                tokio_rt_shutdown_timeout(rt, duration);
                Ok(())
            },
            Err(arc) => Err(TokioTp { pool: arc }),
        }
    }

    /// Shut the runtime down without waiting for spawned work to stop.
    /// Works only through the last clone: otherwise nothing is shut down
    /// and the executor is handed back unchanged as the error.
    pub fn shutdown_background(self) -> (r: Result<(), Self>)
        ensures
            r matches Err(t) ==> t == self,
    {
        match runtime_try_unwrap(self.pool) {
            Ok(rt) => {
                tokio_rt_shutdown_background(rt);
                Ok(())
            },
            Err(arc) => Err(TokioTp { pool: arc }),
        }
    }
}

impl Spawn for TokioTp {
    /// Spawning succeeds as long as the runtime lives, which holding this
    /// executor guarantees: the work is handed off and the native handle
    /// dropped detached.
    fn spawn_obj(&self, future: futures_task::FutureObj<'static, ()>) -> (r: Result<
        (),
        SpawnError,
    >)
        ensures
            r is Ok,
    {
        TokioJoinHandle::new(tokio_rt_spawn(&self.pool, future)).detach();
        Ok(())
    }

    /// A held runtime always accepts.
    fn status(&self) -> (r: Result<(), SpawnError>)
        ensures
            r is Ok,
    {
        Ok(())
    }
}

impl<Out: Send + 'static> SpawnHandle<Out> for TokioTp {
    /// Spawn through tokio's native handle; a held runtime always accepts.
    fn spawn_handle_obj(&self, future: futures_task::FutureObj<'static, Out>) -> (r: Result<
        TaskHandle<Out>,
        SpawnError,
    >)
        ensures
            r is Ok,
            r matches Ok(h) ==> h.armed(),
            r matches Ok(h) ==> h is TokioJoinHandle,
    {
        Ok(TaskHandle::TokioJoinHandle(TokioJoinHandle::new(tokio_rt_spawn(&self.pool, future))))
    }
}

impl<T: Send + 'static> SpawnBlocking<T> for TokioTp {
    /// Run the closure on tokio's blocking thread pool, with the uniform
    /// handle contract.  Once the closure has started executing it cannot
    /// be interrupted: dropping the handle then only discards interest in
    /// the result.
    fn spawn_blocking<F: FnOnce() -> T + Send + 'static>(&self, func: F) -> (r: Result<
        TaskHandle<T>,
        SpawnError,
    >)
        ensures
            r is Ok,
            r matches Ok(h) ==> h.armed(),
            r matches Ok(h) ==> h is TokioJoinHandle,
    {
        Ok(TaskHandle::TokioJoinHandle(TokioJoinHandle::new(tokio_rt_spawn_blocking(&self.pool, func))))
    }
}

impl BlockOn for TokioTp {
    /// Delegates to [`TokioTp::block_on`].
    fn block_on<T>(&self, future: futures_task::FutureObj<'static, T>) -> T {
        TokioTp::block_on(self, future)
    }
}

impl YieldNow for TokioTp {
    /// Delegates to tokio's own yield.
    fn yield_now(&self) -> futures_task::FutureObj<'static, ()> {
        tokio_yield_obj()
    }
}

} // verus!
