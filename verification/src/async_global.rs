//! An executor that spawns tasks on the async-global-executor runtime.  In
//! contrast to self-contained executors this one is not constructed: the
//! thread pool is global, so the capability value is zero-sized and lives
//! for the process lifetime.

use vstd::prelude::*;

use crate::join_handle::AsyncJoinHandle;
use crate::join_handle::JoinOutcome;
use crate::join_handle::TaskHandle;
use crate::spawn::LocalSpawn;
use crate::spawn::LocalSpawnStatic;
use crate::spawn::Spawn;
use crate::spawn::SpawnError;
use crate::spawn::SpawnStatic;
use crate::block_on::BlockOn;
use crate::block_on::BlockOnStatic;
use crate::spawn_handle::LocalSpawnHandle;
use crate::spawn_handle::SpawnHandle;
use crate::static_runtime::StaticRuntime;

verus! {

/// A spawned task of the global executor; dropping it cancels the task.
#[verifier::external_type_specification]
#[verifier::external_body]
#[verifier::reject_recursive_types(T)]
#[verifier::reject_recursive_types(M)]
pub struct ExAgTask<T, M>(async_global_executor::Task<T, M>);

/// Relies on `async_global_executor::spawn`: hands the unit of work to the
/// global thread pool (starting it if need be) and returns the running
/// task; it accepts every unit of work.
#[verifier::external_body]
fn ag_spawn<T: Send + 'static>(fut: futures_task::FutureObj<'static, T>) -> (
    async_global_executor::Task<T>
) {
    async_global_executor::spawn(fut)
}

/// Relies on `async_global_executor::spawn_local`: hands the unit of work
/// to the executor local to this thread (driven by
/// `async_global_executor::block_on` on the same thread) and returns the
/// running task; it accepts every unit of work.
#[verifier::external_body]
fn ag_spawn_local<T: 'static>(fut: futures_task::LocalFutureObj<'static, T>) -> (
    async_global_executor::Task<T>
) {
    async_global_executor::spawn_local(fut)
}

/// Relies on `async_global_executor::Task::detach`: consumes the task
/// handle without cancelling, letting the task run to completion on its
/// executor.
#[verifier::external_body]
fn ag_task_detach<T>(t: async_global_executor::Task<T>) {
    t.detach()
}

/// Relies on `async_global_executor::block_on` and the poll behaviour of
/// `async_global_executor::Task`: drives the local executor on this thread
/// until the task has ended and returns its output.  A panic of the task
/// is resumed here, at the joining side -- the specified, intentionally
/// fatal surfacing of a fault.
#[verifier::external_body]
fn ag_task_join<T>(t: async_global_executor::Task<T>) -> T {
    async_global_executor::block_on(t)
}

/// Relies on `async_global_executor::block_on`: drives the given unit of
/// work (and the executor local to this thread) on the calling thread,
/// returning only once the work has resolved, with its output.
#[verifier::external_body]
fn ag_block_on<T>(fut: futures_task::FutureObj<'static, T>) -> T {
    async_global_executor::block_on(fut)
}

/// An executor that spawns tasks on async-global-executor.  The thread pool
/// is global, so this capability is zero-sized; it works on any thread.
#[derive(Copy, Clone, Debug, Default)]
pub struct AsyncGlobal;

impl AsyncGlobal {
    /// Create a new AsyncGlobal capability; it is stateless, identifying
    /// only which backend's spawn operation to invoke.
    pub fn new() -> (r: Self)
        ensures
            r == AsyncGlobal,
    {
        AsyncGlobal
    }

    /// Run a unit of work to completion on the calling thread, returning
    /// its output.  Fatal when invoked from inside a unit of work already
    /// running on this backend on the same thread.
    pub fn block_on<T>(future: futures_task::FutureObj<'static, T>) -> T {
        ag_block_on(future)
    }
}

/// A join handle over a native async-global-executor task.  Dropping it
/// cancels the task natively; detach is the backend's own detach.
#[derive(Debug)]
#[verifier::reject_recursive_types(T)]
pub struct AsyncGlobalJoinHandle<T> {
    task: async_global_executor::Task<T>,
}

impl<T> AsyncGlobalJoinHandle<T> {
    /// Wrap a native task handle.
    pub fn new(task: async_global_executor::Task<T>) -> Self {
        AsyncGlobalJoinHandle { task }
    }

    /// Consume the handle while the task runs on to completion.
    pub fn detach(self) {
        ag_task_detach(self.task)
    }

    /// Wrap this handle into the backend-agnostic [`TaskHandle`].
    pub fn into_task_handle(self) -> (r: TaskHandle<T>)
        ensures
            r == TaskHandle::AsyncJoinHandle(self),
    {
        TaskHandle::AsyncJoinHandle(self)
    }

    /// Block until the task has ended and return its output; a fault of
    /// the task is re-raised here, at the joining side, by the backend,
    /// so the outcome of a return is always the output.
    pub fn join(self) -> (r: JoinOutcome<T>)
        ensures
            r is Ready,
    {
        JoinOutcome::Ready(ag_task_join(self.task))
    }

    /// Take the native task handle out of the wrapper.
    pub fn into_native(self) -> async_global_executor::Task<T> {
        self.task
    }
}

impl<T> AsyncJoinHandle for AsyncGlobalJoinHandle<T> {
    /// Delegates to [`AsyncGlobalJoinHandle::detach`].
    fn detach(self) {
        AsyncGlobalJoinHandle::detach(self)
    }
}

impl<Out: Send + 'static> SpawnHandle<Out> for AsyncGlobal {
    /// Spawn through the backend's native handle; the global pool accepts
    /// every unit of work.
    fn spawn_handle_obj(&self, future: futures_task::FutureObj<'static, Out>) -> (r: Result<
        TaskHandle<Out>,
        SpawnError,
    >)
        ensures
            r is Ok,
            r matches Ok(h) ==> h.armed(),
            r matches Ok(h) ==> h is AsyncJoinHandle,
    {
        Ok(TaskHandle::AsyncJoinHandle(AsyncGlobalJoinHandle::new(ag_spawn(future))))
    }
}

impl<Out: Send + 'static> LocalSpawnHandle<Out> for AsyncGlobal {
    /// Spawn through the backend's native handle; the thread-local
    /// executor accepts every unit of work.
    fn spawn_handle_local_obj(
        &self,
        future: futures_task::LocalFutureObj<'static, Out>,
    ) -> (r: Result<TaskHandle<Out>, SpawnError>)
        ensures
            r is Ok,
            r matches Ok(h) ==> h.armed(),
            r matches Ok(h) ==> h is AsyncJoinHandle,
    {
        Ok(TaskHandle::AsyncJoinHandle(AsyncGlobalJoinHandle::new(ag_spawn_local(future))))
    }
}

impl Spawn for AsyncGlobal {
    /// Spawning on the global pool always succeeds: the work is handed off.
    fn spawn_obj(&self, future: futures_task::FutureObj<'static, ()>) -> (r: Result<
        (),
        SpawnError,
    >)
        ensures
            r is Ok,
    {
        ag_task_detach(ag_spawn(future));
        Ok(())
    }

    /// The global pool cannot be shut down from here: always likely to
    /// accept.
    fn status(&self) -> (r: Result<(), SpawnError>)
        ensures
            r is Ok,
    {
        Ok(())
    }
}

impl LocalSpawn for AsyncGlobal {
    /// Spawning on the thread-local executor always succeeds: the work is
    /// handed off, to be driven by `block_on` on this thread.
    fn spawn_local_obj(&self, future: futures_task::LocalFutureObj<'static, ()>) -> (r: Result<
        (),
        SpawnError,
    >)
        ensures
            r is Ok,
    {
        ag_task_detach(ag_spawn_local(future));
        Ok(())
    }

    /// The local executor cannot be shut down from here: always likely to
    /// accept.
    fn status_local(&self) -> (r: Result<(), SpawnError>)
        ensures
            r is Ok,
    {
        Ok(())
    }
}

impl SpawnStatic for AsyncGlobal {
    /// Spawning on the global pool always succeeds.
    fn spawn(future: futures_task::FutureObj<'static, ()>) -> (r: Result<(), SpawnError>)
        ensures
            r is Ok,
    {
        ag_task_detach(ag_spawn(future));
        Ok(())
    }
}

impl LocalSpawnStatic for AsyncGlobal {
    /// Spawning on the thread-local executor always succeeds.
    fn spawn_local(future: futures_task::LocalFutureObj<'static, ()>) -> (r: Result<
        (),
        SpawnError,
    >)
        ensures
            r is Ok,
    {
        ag_task_detach(ag_spawn_local(future));
        Ok(())
    }
}

impl BlockOn for AsyncGlobal {
    /// Delegates to the global executor's blocking entry point.
    fn block_on<T>(&self, future: futures_task::FutureObj<'static, T>) -> T {
        ag_block_on(future)
    }
}

impl BlockOnStatic for AsyncGlobal {
    /// Delegates to the global executor's blocking entry point.
    fn block_on<T>(future: futures_task::FutureObj<'static, T>) -> T {
        ag_block_on(future)
    }
}

impl StaticRuntime for AsyncGlobal {

}

} // verus!
