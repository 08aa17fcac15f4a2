//! An executor that spawns tasks on async-std.  The thread pool is global,
//! so the capability value is zero-sized and lives for the process
//! lifetime.
//!
//! async-std offers no native abort, so a unit of work spawned with a
//! handle is wrapped in `futures-util`'s `Abortable` and the handle keeps
//! the matching `AbortHandle`: dropping the handle while armed aborts the
//! wrapped work at its next poll.

use vstd::prelude::*;

use crate::join_handle::AsyncJoinHandle;
use crate::join_handle::JoinOutcome;
use crate::join_handle::TaskHandle;
use crate::spawn::LocalSpawn;
use crate::spawn::LocalSpawnStatic;
use crate::spawn::Spawn;
use crate::spawn::SpawnError;
use crate::spawn::SpawnStatic;
use crate::spawn_handle::LocalSpawnHandle;
use crate::spawn_handle::SpawnHandle;
use crate::block_on::BlockOn;
use crate::block_on::BlockOnStatic;
use crate::static_runtime::StaticRuntime;
use crate::yield_now::YieldNow;
use crate::yield_now::YieldNowStatic;

verus! {

/// A native async-std task handle.
#[verifier::external_type_specification]
#[verifier::external_body]
#[verifier::reject_recursive_types(T)]
pub struct ExAsNativeHandle<T>(async_std::task::JoinHandle<T>);

/// A unit of work wrapped so that it can be aborted from outside.
#[verifier::external_type_specification]
#[verifier::external_body]
#[verifier::reject_recursive_types(Fut)]
pub struct ExAbortable<Fut>(futures_util::future::Abortable<Fut>);

/// The remote control that aborts an `Abortable` unit of work.
#[verifier::external_type_specification]
#[verifier::external_body]
pub struct ExAbortHandle(futures_util::future::AbortHandle);

/// The marker returned when an `Abortable` unit of work was aborted.
#[verifier::external_type_specification]
#[verifier::external_body]
pub struct ExAborted(futures_util::future::Aborted);

/// Relies on `futures_util::future::AbortHandle`'s derived `Clone`: a
/// clone controls the same `Abortable` unit of work as the original.
pub assume_specification[ <futures_util::future::AbortHandle as core::clone::Clone>::clone ](
    h: &futures_util::future::AbortHandle,
) -> futures_util::future::AbortHandle;

/// Relies on `futures_util::future::abortable`: wraps a thread-movable
/// unit of work so that the paired `AbortHandle` can stop it at its next
/// poll; until `abort` is called the wrapped work behaves as the original.
#[verifier::external_body]
fn as_abortable_obj<T: Send + 'static>(fut: futures_task::FutureObj<'static, T>) -> (r: (
    futures_util::future::Abortable<futures_task::FutureObj<'static, T>>,
    futures_util::future::AbortHandle,
)) {
    let (f, h) = futures_util::future::abortable(fut);
    (f, h)
}

/// Relies on `futures_util::future::abortable`, as [`as_abortable_obj`],
/// for a thread-confined unit of work.
#[verifier::external_body]
fn as_abortable_local_obj<T: 'static>(fut: futures_task::LocalFutureObj<'static, T>) -> (r: (
    futures_util::future::Abortable<futures_task::LocalFutureObj<'static, T>>,
    futures_util::future::AbortHandle,
)) {
    let (f, h) = futures_util::future::abortable(fut);
    (f, h)
}

/// Relies on `async_std::task::spawn`: hands an abortable, thread-movable
/// unit of work to the global async-std pool and returns the native
/// handle; it accepts every unit of work.
#[verifier::external_body]
fn as_spawn_abortable<T: Send + 'static>(
    fut: futures_util::future::Abortable<futures_task::FutureObj<'static, T>>,
) -> (async_std::task::JoinHandle<Result<T, futures_util::future::Aborted>>) {
    async_std::task::spawn(fut)
}

/// Relies on `async_std::task::spawn_local`: hands an abortable,
/// thread-confined unit of work to the executor of the calling thread and
/// returns the native handle; it accepts every unit of work.
#[verifier::external_body]
fn as_spawn_abortable_local<T: 'static>(
    fut: futures_util::future::Abortable<futures_task::LocalFutureObj<'static, T>>,
) -> (async_std::task::JoinHandle<Result<T, futures_util::future::Aborted>>) {
    async_std::task::spawn_local(fut)
}

/// Relies on `async_std::task::spawn`: hands a fire-and-forget unit of
/// work to the global async-std pool; the native handle is dropped, which
/// for async-std leaves the task running.
#[verifier::external_body]
fn as_spawn_unit(fut: futures_task::FutureObj<'static, ()>) {
    let _ = async_std::task::spawn(fut);
}

/// Relies on `async_std::task::spawn_local`: hands a fire-and-forget,
/// thread-confined unit of work to the executor of the calling thread; the
/// native handle is dropped, which for async-std leaves the task running.
#[verifier::external_body]
fn as_spawn_local_unit(fut: futures_task::LocalFutureObj<'static, ()>) {
    let _ = async_std::task::spawn_local(fut);
}

/// Relies on `async_std::task::block_on` and the poll behaviour of
/// `async_std::task::JoinHandle`: drives this thread until the task has
/// ended and returns its output.  A panic of the task is resumed here, at
/// the joining side, and a task that was aborted before completing is
/// fatal here too -- the uniform contract makes both loud, never a silent
/// or recoverable result.
#[verifier::external_body]
fn as_join_native<T: Send + 'static>(
    h: async_std::task::JoinHandle<Result<T, futures_util::future::Aborted>>,
) -> T {
    async_std::task::block_on(h).expect("Task has been aborted")
}

/// Relies on `async_std::task::block_on`: drives the given unit of work on
/// the calling thread, returning only once it has resolved, with its
/// output.
#[verifier::external_body]
fn as_block_on<T>(fut: futures_task::FutureObj<'static, T>) -> T {
    async_std::task::block_on(fut)
}

/// Relies on `async_std::task::yield_now` boxed through
/// `futures_task::FutureObj::new`: a unit of work that suspends once and
/// resolves on the next scheduling turn.
#[verifier::external_body]
fn as_yield_obj() -> futures_task::FutureObj<'static, ()> {
    futures_task::FutureObj::new(Box::new(async_std::task::yield_now()))
}

/// An executor that spawns tasks on async-std.  The thread pool is global,
/// so this capability is zero-sized; it works on any thread.
#[derive(Copy, Clone, Debug, Default)]
pub struct AsyncStd;

impl AsyncStd {
    /// Create a new AsyncStd capability; it is stateless, identifying only
    /// which backend's spawn operation to invoke.
    pub fn new() -> (r: Self)
        ensures
            r == AsyncStd,
    {
        AsyncStd
    }

    /// Run a unit of work to completion on the calling thread, returning
    /// its output.  Fatal when invoked from inside a unit of work already
    /// running on this backend on the same thread.
    pub fn block_on<T>(future: futures_task::FutureObj<'static, T>) -> T {
        as_block_on(future)
    }
}

/// A join handle over a native async-std task wrapped in `Abortable`.
#[derive(Debug)]
#[verifier::reject_recursive_types(T)]
pub struct AsyncStdJoinHandle<T> {
    task: Option<async_std::task::JoinHandle<Result<T, futures_util::future::Aborted>>>,
    a_handle: futures_util::future::AbortHandle,
}

impl<T> AsyncStdJoinHandle<T> {
    /// Whether this handle still owns its native handle: set at creation,
    /// cleared exactly when the handle is joined or detached.
    pub closed spec fn armed(&self) -> bool {
        self.task is Some
    }

    /// Wrap a native async-std handle and the abort control of its task.
    pub fn new(
        task: async_std::task::JoinHandle<Result<T, futures_util::future::Aborted>>,
        a_handle: futures_util::future::AbortHandle,
    ) -> (r: Self)
        ensures
            r.armed(),
    {
        AsyncStdJoinHandle { task: Some(task), a_handle }
    }

    /// Take the native handle out, leaving the wrapper disarmed so that
    /// dropping it no longer aborts the task.
    fn disarm(&mut self) -> (r: Option<
        async_std::task::JoinHandle<Result<T, futures_util::future::Aborted>>,
    >)
        ensures
            !final (self).armed(),
            r == old(self).task,
    {
        let mut slot: Option<
            async_std::task::JoinHandle<Result<T, futures_util::future::Aborted>>,
        > = None;
        core::mem::swap(&mut self.task, &mut slot);
        slot
    }

    /// Consume the handle while the task runs on: the native handle is
    /// dropped disarmed, which for async-std leaves the task running.
    pub fn detach(self) {
        let mut this = self;
        let _ = this.disarm();
    }

    /// Wrap this handle into the backend-agnostic [`TaskHandle`].
    pub fn into_task_handle(self) -> (r: TaskHandle<T>)
        ensures
            r == TaskHandle::AsyncStdJoinHandle(self),
    {
        TaskHandle::AsyncStdJoinHandle(self)
    }

    /// Take the native handle and the abort control out of the wrapper,
    /// disarming cancel-on-drop; the first half is `None` exactly when the
    /// wrapper was disarmed.
    pub fn into_parts(self) -> (r: (
        Option<async_std::task::JoinHandle<Result<T, futures_util::future::Aborted>>>,
        futures_util::future::AbortHandle,
    ))
        ensures
            r.0 is Some <==> self.armed(),
    {
        let mut this = self;
        let task = this.disarm();
        let a_handle = this.a_handle.clone();
        (task, a_handle)
    }
}

impl<T: Send + 'static> AsyncStdJoinHandle<T> {
    /// Block until the task has ended and return its output.  A panic of
    /// the task is re-raised here, at the joining side, by the backend,
    /// and a task that was aborted before completing is fatal here too:
    /// neither ever comes back as a value.
    pub fn join(self) -> (r: JoinOutcome<T>)
        requires
            self.armed(),
        ensures
            r is Ready,
    {
        let mut this = self;
        match this.disarm() {
            Some(h) => JoinOutcome::Ready(as_join_native(h)),
            None => unreached(),
        }
    }
}

impl<T> AsyncJoinHandle for AsyncStdJoinHandle<T> {
    /// Delegates to [`AsyncStdJoinHandle::detach`].
    fn detach(self) {
        AsyncStdJoinHandle::detach(self)
    }
}

impl<T> Drop for AsyncStdJoinHandle<T> {
    /// Dropping a still-armed handle aborts the task; a disarmed (joined
    /// or detached) handle leaves it alone.
    ///
    /// Relies on `futures_util::future::AbortHandle::abort`: the paired
    /// `Abortable` unit of work stops at its next poll; the call returns
    /// normally.
    #[verifier::external_body]
    fn drop(&mut self)
        opens_invariants none
        no_unwind
    {
        if self.task.is_some() {
            self.a_handle.abort();
        }
    }
}

impl<Out: Send + 'static> SpawnHandle<Out> for AsyncStd {
    /// Spawn through the backend's native handle, wrapped abortable since
    /// async-std has no native cancel; the global pool accepts every unit
    /// of work.
    fn spawn_handle_obj(&self, future: futures_task::FutureObj<'static, Out>) -> (r: Result<
        TaskHandle<Out>,
        SpawnError,
    >)
        ensures
            r is Ok,
            r matches Ok(h) ==> h.armed(),
            r matches Ok(h) ==> h is AsyncStdJoinHandle,
    {
        let (fut, a_handle) = as_abortable_obj(future);
        Ok(TaskHandle::AsyncStdJoinHandle(AsyncStdJoinHandle::new(as_spawn_abortable(fut), a_handle)))
    }
}

impl<Out: Send + 'static> LocalSpawnHandle<Out> for AsyncStd {
    /// Spawn through the backend's native handle, wrapped abortable since
    /// async-std has no native cancel; the thread-local executor accepts
    /// every unit of work.
    fn spawn_handle_local_obj(
        &self,
        future: futures_task::LocalFutureObj<'static, Out>,
    ) -> (r: Result<TaskHandle<Out>, SpawnError>)
        ensures
            r is Ok,
            r matches Ok(h) ==> h.armed(),
            r matches Ok(h) ==> h is AsyncStdJoinHandle,
    {
        let (fut, a_handle) = as_abortable_local_obj(future);
        Ok(TaskHandle::AsyncStdJoinHandle(AsyncStdJoinHandle::new(as_spawn_abortable_local(fut), a_handle)))
    }
}

impl Spawn for AsyncStd {
    /// Spawning on the global pool always succeeds: the work is handed
    /// off.
    fn spawn_obj(&self, future: futures_task::FutureObj<'static, ()>) -> (r: Result<
        (),
        SpawnError,
    >)
        ensures
            r is Ok,
    {
        as_spawn_unit(future);
        Ok(())
    }

    /// The global pool cannot be shut down from here: always likely to
    /// accept.
    fn status(&self) -> (r: Result<(), SpawnError>)
        ensures
            r is Ok,
    {
        Ok(())
    }
}

impl LocalSpawn for AsyncStd {
    /// Spawning on the thread-local executor always succeeds: the work is
    /// handed off.
    fn spawn_local_obj(&self, future: futures_task::LocalFutureObj<'static, ()>) -> (r: Result<
        (),
        SpawnError,
    >)
        ensures
            r is Ok,
    {
        as_spawn_local_unit(future);
        Ok(())
    }

    /// The local executor cannot be shut down from here: always likely to
    /// accept.
    fn status_local(&self) -> (r: Result<(), SpawnError>)
        ensures
            r is Ok,
    {
        Ok(())
    }
}

impl SpawnStatic for AsyncStd {
    /// Spawning on the global pool always succeeds.
    fn spawn(future: futures_task::FutureObj<'static, ()>) -> (r: Result<(), SpawnError>)
        ensures
            r is Ok,
    {
        as_spawn_unit(future);
        Ok(())
    }
}

impl LocalSpawnStatic for AsyncStd {
    /// Spawning on the thread-local executor always succeeds.
    fn spawn_local(future: futures_task::LocalFutureObj<'static, ()>) -> (r: Result<
        (),
        SpawnError,
    >)
        ensures
            r is Ok,
    {
        as_spawn_local_unit(future);
        Ok(())
    }
}

impl BlockOn for AsyncStd {
    /// Delegates to async-std's blocking entry point.
    fn block_on<T>(&self, future: futures_task::FutureObj<'static, T>) -> T {
        as_block_on(future)
    }
}

impl BlockOnStatic for AsyncStd {
    /// Delegates to async-std's blocking entry point.
    fn block_on<T>(future: futures_task::FutureObj<'static, T>) -> T {
        as_block_on(future)
    }
}

impl StaticRuntime for AsyncStd {

}

impl YieldNow for AsyncStd {
    /// Delegates to async-std's own yield.
    fn yield_now(&self) -> futures_task::FutureObj<'static, ()> {
        as_yield_obj()
    }
}

impl YieldNowStatic for AsyncStd {
    /// Delegates to async-std's own yield.
    fn yield_now() -> futures_task::FutureObj<'static, ()> {
        as_yield_obj()
    }
}

} // verus!
