//! An executor that uses a tokio runtime together with a
//! `tokio::task::LocalSet`, so that thread-confined units of work can be
//! spawned.
//!
//! As with [`crate::tokio_tp::TokioTp`], runtime construction stays with
//! the caller; a current-thread runtime keeps every unit of work on this
//! thread.

use std::rc::Rc;
use std::sync::Arc;
use vstd::prelude::*;

use crate::join_handle::TaskHandle;
use crate::spawn::obj_into_local;
use crate::spawn::LocalSpawn;
use crate::spawn::Spawn;
use crate::spawn::SpawnError;
use crate::spawn_handle::LocalSpawnHandle;
use crate::spawn_blocking::SpawnBlocking;
use crate::spawn_handle::SpawnHandle;
use crate::tokio_jh::TokioJoinHandle;
use crate::tokio_tp::tokio_rt_spawn_blocking;
use crate::tokio_tp::tokio_yield_obj;
use crate::yield_now::YieldNow;

verus! {

/// A set of thread-confined tokio tasks, driven together.
#[verifier::external_type_specification]
#[verifier::external_body]
pub struct ExTokioLocalSet(tokio::task::LocalSet);

/// Relies on `tokio::task::LocalSet::new`: an empty set of
/// thread-confined tasks.
#[verifier::external_body]
fn tokio_new_local_set() -> tokio::task::LocalSet {
    tokio::task::LocalSet::new()
}

/// Relies on `tokio::task::LocalSet::spawn_local`: adds the
/// thread-confined unit of work to the set, to run whenever the set is
/// driven on this thread, and returns the native task handle; it accepts
/// every unit of work.
#[verifier::external_body]
fn tokio_local_spawn<T: 'static>(
    local: &Rc<tokio::task::LocalSet>,
    fut: futures_task::LocalFutureObj<'static, T>,
) -> tokio::task::JoinHandle<T> {
    local.spawn_local(fut)
}

/// Relies on `tokio::runtime::Runtime::block_on` and
/// `tokio::task::LocalSet::run_until`: drives the unit of work and the
/// whole local set on the calling thread, returning only once the work
/// has resolved, with its output.  Fatal when called from an async
/// context, and a panic of the driven work unwinds here.
#[verifier::external_body]
fn tokio_ct_block_on<T>(
    rt: &Arc<tokio::runtime::Runtime>,
    local: &Rc<tokio::task::LocalSet>,
    fut: futures_task::LocalFutureObj<'static, T>,
) -> T {
    rt.block_on(local.run_until(fut))
}

/// An executor over a tokio runtime plus a local task set: spawns both
/// thread-movable and thread-confined units of work, all driven on the
/// thread that calls [`TokioCt::block_on`].  Clones share one runtime and
/// one set.
#[derive(Clone)]
pub struct TokioCt {
    pool: Arc<tokio::runtime::Runtime>,
    local: Rc<tokio::task::LocalSet>,
}

impl TokioCt {
    /// Wrap a built tokio runtime.  Configuring and building the runtime
    /// is the caller's business; a current-thread runtime keeps every
    /// unit of work on this thread.
    pub fn new(runtime: tokio::runtime::Runtime) -> Self {
        TokioCt { pool: Arc::new(runtime), local: Rc::new(tokio_new_local_set()) }
    }

    /// Run a unit of work to completion on the calling thread, returning
    /// its output; spawned thread-confined work makes progress only
    /// during this call.  Fatal when invoked from inside a unit of work
    /// already running on this backend.
    pub fn block_on<T>(&self, f: futures_task::LocalFutureObj<'static, T>) -> T {
        tokio_ct_block_on(&self.pool, &self.local, f)
    }
}

impl Spawn for TokioCt {
    /// Spawning succeeds as long as the runtime lives, which holding this
    /// executor guarantees: the work joins the local set and the native
    /// handle is dropped detached.
    fn spawn_obj(&self, future: futures_task::FutureObj<'static, ()>) -> (r: Result<
        (),
        SpawnError,
    >)
        ensures
            r is Ok,
    {
        TokioJoinHandle::new(tokio_local_spawn(&self.local, obj_into_local(future))).detach();
        Ok(())
    }

    /// A held runtime always accepts.
    fn status(&self) -> (r: Result<(), SpawnError>)
        ensures
            r is Ok,
    {
        Ok(())
    }
}

impl LocalSpawn for TokioCt {
    /// Spawning a thread-confined unit of work succeeds as long as the
    /// runtime lives, which holding this executor guarantees.
    fn spawn_local_obj(&self, future: futures_task::LocalFutureObj<'static, ()>) -> (r: Result<
        (),
        SpawnError,
    >)
        ensures
            r is Ok,
    {
        TokioJoinHandle::new(tokio_local_spawn(&self.local, future)).detach();
        Ok(())
    }

    /// A held runtime always accepts.
    fn status_local(&self) -> (r: Result<(), SpawnError>)
        ensures
            r is Ok,
    {
        Ok(())
    }
}

impl<Out: Send + 'static> SpawnHandle<Out> for TokioCt {
    /// Spawn through tokio's native handle; a held runtime always accepts.
    fn spawn_handle_obj(&self, future: futures_task::FutureObj<'static, Out>) -> (r: Result<
        TaskHandle<Out>,
        SpawnError,
    >)
        ensures
            r is Ok,
            r matches Ok(h) ==> h.armed(),
            r matches Ok(h) ==> h is TokioJoinHandle,
    {
        Ok(
            TaskHandle::TokioJoinHandle(
                TokioJoinHandle::new(tokio_local_spawn(&self.local, obj_into_local(future))),
            ),
        )
    }
}

impl<Out: Send + 'static> LocalSpawnHandle<Out> for TokioCt {
    /// Spawn a thread-confined unit of work through tokio's native
    /// handle; a held runtime always accepts.
    fn spawn_handle_local_obj(
        &self,
        future: futures_task::LocalFutureObj<'static, Out>,
    ) -> (r: Result<TaskHandle<Out>, SpawnError>)
        ensures
            r is Ok,
            r matches Ok(h) ==> h.armed(),
            r matches Ok(h) ==> h is TokioJoinHandle,
    {
        Ok(TaskHandle::TokioJoinHandle(TokioJoinHandle::new(tokio_local_spawn(&self.local, future))))
    }
}

impl YieldNow for TokioCt {
    /// Delegates to tokio's own yield.
    fn yield_now(&self) -> futures_task::FutureObj<'static, ()> {
        tokio_yield_obj()
    }
}

impl<T: Send + 'static> SpawnBlocking<T> for TokioCt {
    /// Run the closure on the runtime's blocking thread pool, with the
    /// uniform handle contract.  Once the closure has started executing
    /// it cannot be interrupted: dropping the handle then only discards
    /// interest in the result.
    fn spawn_blocking<F: FnOnce() -> T + Send + 'static>(&self, func: F) -> (r: Result<
        TaskHandle<T>,
        SpawnError,
    >)
        ensures
            r is Ok,
            r matches Ok(h) ==> h.armed(),
            r matches Ok(h) ==> h is TokioJoinHandle,
    {
        Ok(
            TaskHandle::TokioJoinHandle(
                TokioJoinHandle::new(tokio_rt_spawn_blocking(&self.pool, func)),
            ),
        )
    }
}

} // verus!
