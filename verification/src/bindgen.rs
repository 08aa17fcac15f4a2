//! An executor that spawns tasks on the browser-embedded
//! wasm-bindgen-futures executor.  The executor is global and zero-sized;
//! it only actually runs work inside a WebAssembly host.

use vstd::prelude::*;

use crate::join_handle::TaskHandle;
use crate::remote_pair::remote_pair;
use crate::remote_pair::remote_pair_local;
use crate::spawn::obj_into_local;
use crate::spawn::LocalSpawn;
use crate::spawn::Spawn;
use crate::spawn::SpawnError;
use crate::spawn_handle::LocalSpawnHandle;
use crate::spawn_handle::SpawnHandle;
use crate::static_runtime::StaticRuntime;

verus! {

/// Relies on `wasm_bindgen_futures::spawn_local`: hands the unit of work
/// to the host's event loop, which runs it to completion; it accepts
/// every unit of work.  Usable only inside a WebAssembly host.
#[verifier::external_body]
fn wb_spawn_local(fut: futures_task::LocalFutureObj<'static, ()>) {
    wasm_bindgen_futures::spawn_local(fut)
}

/// An executor over the wasm-bindgen-futures event loop.  The executor is
/// global, so this capability is zero-sized; units of work stay on the
/// single host thread.
#[derive(Copy, Clone, Debug, Default)]
pub struct Bindgen;

impl Bindgen {
    /// Create a new Bindgen capability; it is stateless, identifying only
    /// which backend's spawn operation to invoke.
    pub fn new() -> (r: Self)
        ensures
            r == Bindgen,
    {
        Bindgen
    }
}

impl Spawn for Bindgen {
    /// The event loop accepts every unit of work.
    fn spawn_obj(&self, future: futures_task::FutureObj<'static, ()>) -> (r: Result<
        (),
        SpawnError,
    >)
        ensures
            r is Ok,
    {
        wb_spawn_local(obj_into_local(future));
        Ok(())
    }

    /// The event loop always accepts.
    fn status(&self) -> (r: Result<(), SpawnError>)
        ensures
            r is Ok,
    {
        Ok(())
    }
}

impl LocalSpawn for Bindgen {
    /// The event loop accepts every unit of work; everything is
    /// thread-confined on this backend anyway.
    fn spawn_local_obj(&self, future: futures_task::LocalFutureObj<'static, ()>) -> (r: Result<
        (),
        SpawnError,
    >)
        ensures
            r is Ok,
    {
        wb_spawn_local(future);
        Ok(())
    }

    /// The event loop always accepts.
    fn status_local(&self) -> (r: Result<(), SpawnError>)
        ensures
            r is Ok,
    {
        Ok(())
    }
}

impl<Out: Send + 'static> SpawnHandle<Out> for Bindgen {
    /// The event loop hands out no native join handle, so the unit of
    /// work is paired with a cancellable remote pair and the remote half
    /// spawned.
    fn spawn_handle_obj(&self, future: futures_task::FutureObj<'static, Out>) -> (r: Result<
        TaskHandle<Out>,
        SpawnError,
    >)
        ensures
            r is Ok,
            r matches Ok(h) ==> h.armed(),
            r matches Ok(h) ==> h is RemoteHandle,
    {
        let (remote, handle) = remote_pair(future);
        wb_spawn_local(obj_into_local(remote));
        Ok(TaskHandle::RemoteHandle(handle))
    }
}

impl<Out: Send + 'static> LocalSpawnHandle<Out> for Bindgen {
    /// The event loop hands out no native join handle, so the unit of
    /// work is paired with a cancellable remote pair and the remote half
    /// spawned.
    fn spawn_handle_local_obj(
        &self,
        future: futures_task::LocalFutureObj<'static, Out>,
    ) -> (r: Result<TaskHandle<Out>, SpawnError>)
        ensures
            r is Ok,
            r matches Ok(h) ==> h.armed(),
            r matches Ok(h) ==> h is RemoteHandle,
    {
        let (remote, handle) = remote_pair_local(future);
        wb_spawn_local(remote);
        Ok(TaskHandle::RemoteHandle(handle))
    }
}

impl StaticRuntime for Bindgen {

}

} // verus!
