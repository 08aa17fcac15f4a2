//! Spawning a unit of work together with a join handle for its output.
//!
//! [`SpawnHandle`] and [`LocalSpawnHandle`] are implemented per backend
//! from the backend's native handle-returning spawn entry point (preferred,
//! for lower overhead).  [`SpawnExt`] and [`LocalSpawnExt`] build the same
//! facility for *any* fire-and-forget [`Spawn`] / [`LocalSpawn`] backend by
//! constructing a cancellable remote pair around the unit of work and
//! spawning the remote half (the fallback, for backends with no native
//! handle).

use vstd::prelude::*;

use crate::join_handle::TaskHandle;
use crate::remote_pair::remote_pair;
use crate::remote_pair::remote_pair_local;
use crate::spawn::LocalSpawn;
use crate::spawn::Spawn;
use crate::spawn::SpawnError;

verus! {

/// Spawn a thread-movable unit of work and get a [`TaskHandle`] to await
/// its output, through the backend's native handle.
pub trait SpawnHandle<Out: Send + 'static> {
    /// Spawn the unit of work; on success the returned handle is armed:
    /// it owns the means to observe and cancel the work.
    fn spawn_handle_obj(&self, future: futures_task::FutureObj<'static, Out>) -> (r: Result<
        TaskHandle<Out>,
        SpawnError,
    >)
        ensures
            r matches Ok(h) ==> h.armed(),
    ;
}

/// Spawn a thread-confined unit of work and get a [`TaskHandle`] to await
/// its output, through the backend's native handle.
pub trait LocalSpawnHandle<Out: Send + 'static> {
    /// Spawn the unit of work; on success the returned handle is armed:
    /// it owns the means to observe and cancel the work.
    fn spawn_handle_local_obj(
        &self,
        future: futures_task::LocalFutureObj<'static, Out>,
    ) -> (r: Result<TaskHandle<Out>, SpawnError>)
        ensures
            r matches Ok(h) ==> h.armed(),
    ;
}

/// Extension of [`Spawn`]: a join handle for any fire-and-forget backend,
/// via the cancellable remote pair.
pub trait SpawnExt: Spawn {
    /// Pair the unit of work with a remote handle, hand the remote half to
    /// the backend fire-and-forget, and return the handle half.  The
    /// handle is armed exactly when the backend accepted the work;
    /// rejection returns the backend's error unchanged.
    fn spawn_with_handle<Out: Send + 'static>(
        &self,
        future: futures_task::FutureObj<'static, Out>,
    ) -> (r: Result<TaskHandle<Out>, SpawnError>)
        ensures
            r matches Ok(h) ==> h.armed(),
            r matches Ok(h) ==> h is RemoteHandle,
    {
        let (remote, handle) = remote_pair(future);
        match self.spawn_obj(remote) {
            Ok(()) => Ok(TaskHandle::RemoteHandle(handle)),
            Err(e) => Err(e),
        }
    }
}

/// Extension of [`LocalSpawn`]: a join handle for any fire-and-forget
/// thread-confined backend, via the cancellable remote pair.
pub trait LocalSpawnExt: LocalSpawn {
    /// Pair the unit of work with a remote handle, hand the remote half to
    /// the backend fire-and-forget, and return the handle half.  The
    /// handle is armed exactly when the backend accepted the work;
    /// rejection returns the backend's error unchanged.
    fn spawn_local_with_handle<Out: Send + 'static>(
        &self,
        future: futures_task::LocalFutureObj<'static, Out>,
    ) -> (r: Result<TaskHandle<Out>, SpawnError>)
        ensures
            r matches Ok(h) ==> h.armed(),
            r matches Ok(h) ==> h is RemoteHandle,
    {
        let (remote, handle) = remote_pair_local(future);
        match self.spawn_local_obj(remote) {
            Ok(()) => Ok(TaskHandle::RemoteHandle(handle)),
            Err(e) => Err(e),
        }
    }
}

impl<Sp: Spawn> SpawnExt for Sp {

}

impl<Sp: LocalSpawn> LocalSpawnExt for Sp {

}

} // verus!
