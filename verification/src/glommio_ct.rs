//! Executors over glommio, the io_uring-based single-threaded cooperative
//! runtime.  Every unit of work is pinned to the thread that runs the
//! executor.

use vstd::prelude::*;

use crate::block_on::BlockOn;
use crate::join_handle::TaskHandle;
use crate::remote_pair::remote_pair;
use crate::remote_pair::remote_pair_local;
use crate::spawn::obj_into_local;
use crate::spawn::LocalSpawn;
use crate::spawn::LocalSpawnStatic;
use crate::spawn::Spawn;
use crate::spawn::SpawnError;
use crate::spawn::SpawnStatic;
use crate::spawn_handle::LocalSpawnHandle;
use crate::spawn_handle::SpawnHandle;
use crate::static_runtime::StaticRuntime;

verus! {

/// A glommio executor, confined to the thread that made it.
#[verifier::external_type_specification]
#[verifier::external_body]
pub struct ExGlommioLocalExecutor(glommio::LocalExecutor);

/// Make a glommio executor on the calling thread, pinned to the given CPU
/// if one is named.
///
/// Relies on `glommio::LocalExecutorBuilder::new`, `name` and `make`:
/// building is backend setup and fatal when the system cannot provide an
/// executor (no io_uring support).
#[verifier::external_body]
fn gl_make_executor(binding: Option<usize>, name: &str) -> glommio::LocalExecutor {
    let placement = match binding {
        Some(cpu) => glommio::Placement::Fixed(cpu),
        None => glommio::Placement::Unbound,
    };
    glommio::LocalExecutorBuilder::new(placement)
        .name(name)
        .make()
        .expect("Cannot make a local executor")
}

/// Relies on `glommio::LocalExecutor::run`: drives the unit of work (and
/// everything spawned onto this executor) on the calling thread,
/// returning only once the work has resolved, with its output.
#[verifier::external_body]
fn gl_run<T>(ex: &glommio::LocalExecutor, fut: futures_task::FutureObj<'static, T>) -> T {
    ex.run(fut)
}

/// Relies on `glommio::spawn_local` and `glommio::Task::detach`: hands the
/// unit of work to the executor running on this thread and detaches it so
/// it runs to completion in the background.  Fatal when no glommio
/// executor is running on the calling thread.
#[verifier::external_body]
fn gl_spawn_detach<T: 'static>(fut: futures_task::LocalFutureObj<'static, T>) {
    let _ = glommio::spawn_local(fut).detach();
}

/// A builder for one-shot glommio executors: pick a CPU pin, then run a
/// unit of work to completion with [`GlommioCtBuilder::block_on`].
#[derive(Clone, Debug)]
pub struct GlommioCtBuilder {
    binding: Option<usize>,
    name: String,
}

impl GlommioCtBuilder {
    /// The CPU this builder pins its executors to, if any.
    pub closed spec fn binding_spec(&self) -> Option<usize> {
        self.binding
    }

    /// The name the builder gives its executors.
    pub closed spec fn name_spec(&self) -> Seq<char> {
        self.name@
    }

    /// Create a new builder: unpinned, with a placeholder name.
    pub fn new() -> (r: Self)
        ensures
            r.binding_spec() is None,
            r.name_spec() == "unnamed"@,
    {
        broadcast use vstd::string::to_string_from_display_ensures_for_str;

        GlommioCtBuilder { binding: None, name: "unnamed".to_string() }
    }

    /// Pin the executors this builder makes to the provided CPU.  The
    /// largest CPU value supported by libc is 1023.
    pub fn pin_to_cpu(&mut self, cpu: usize)
        ensures
            final (self).binding_spec() == Some(cpu),
            final (self).name_spec() == old(self).name_spec(),
    {
        self.binding = Some(cpu);
    }

    /// Run a unit of work to completion on a fresh glommio executor on
    /// the calling thread, returning its output.  Fatal when the system
    /// cannot provide an executor.
    pub fn block_on<T>(&self, future: futures_task::FutureObj<'static, T>) -> T {
        let ex = gl_make_executor(self.binding, self.name.as_str());
        gl_run(&ex, future)
    }
}

/// The spawn capability of a glommio executor.  Zero-sized: glommio keeps
/// the running executor on the current thread, so this is usable only
/// from within a unit of work already running under
/// [`GlommioCtBuilder::block_on`] (fatal elsewhere).
#[derive(Copy, Clone, Debug, Default)]
pub struct GlommioCt {}

impl GlommioCt {
    /// Create the capability; it is stateless, naming the executor of the
    /// calling thread.
    pub fn new() -> (r: Self)
        ensures
            r == (GlommioCt {  }),
    {
        GlommioCt {}
    }
}

impl LocalSpawn for GlommioCt {
    /// Spawning succeeds whenever it returns: the executor of this thread
    /// accepts every unit of work.
    fn spawn_local_obj(&self, future: futures_task::LocalFutureObj<'static, ()>) -> (r: Result<
        (),
        SpawnError,
    >)
        ensures
            r is Ok,
    {
        gl_spawn_detach(future);
        Ok(())
    }

    /// A running executor always accepts.
    fn status_local(&self) -> (r: Result<(), SpawnError>)
        ensures
            r is Ok,
    {
        Ok(())
    }
}

impl Spawn for GlommioCt {
    /// Everything on glommio is thread-confined anyway: the thread-movable
    /// unit of work is spawned on this thread's executor.
    fn spawn_obj(&self, future: futures_task::FutureObj<'static, ()>) -> (r: Result<
        (),
        SpawnError,
    >)
        ensures
            r is Ok,
    {
        gl_spawn_detach(obj_into_local(future));
        Ok(())
    }

    /// A running executor always accepts.
    fn status(&self) -> (r: Result<(), SpawnError>)
        ensures
            r is Ok,
    {
        Ok(())
    }
}

impl<Out: Send + 'static> LocalSpawnHandle<Out> for GlommioCt {
    /// Glommio has no native joinable handle here, so the unit of work is
    /// paired with a cancellable remote pair and the remote half spawned.
    fn spawn_handle_local_obj(
        &self,
        future: futures_task::LocalFutureObj<'static, Out>,
    ) -> (r: Result<TaskHandle<Out>, SpawnError>)
        ensures
            r is Ok,
            r matches Ok(h) ==> h.armed(),
            r matches Ok(h) ==> h is RemoteHandle,
    {
        let (remote, handle) = remote_pair_local(future);
        gl_spawn_detach(remote);
        Ok(TaskHandle::RemoteHandle(handle))
    }
}

impl<Out: Send + 'static> SpawnHandle<Out> for GlommioCt {
    /// Glommio has no native joinable handle here, so the unit of work is
    /// paired with a cancellable remote pair and the remote half spawned.
    fn spawn_handle_obj(&self, future: futures_task::FutureObj<'static, Out>) -> (r: Result<
        TaskHandle<Out>,
        SpawnError,
    >)
        ensures
            r is Ok,
            r matches Ok(h) ==> h.armed(),
            r matches Ok(h) ==> h is RemoteHandle,
    {
        let (remote, handle) = remote_pair(future);
        gl_spawn_detach(obj_into_local(remote));
        Ok(TaskHandle::RemoteHandle(handle))
    }
}

impl BlockOn for GlommioCtBuilder {
    /// Delegates to [`GlommioCtBuilder::block_on`]: a fresh executor per
    /// call.
    fn block_on<T>(&self, future: futures_task::FutureObj<'static, T>) -> T {
        GlommioCtBuilder::block_on(self, future)
    }
}

/// The glommio backend as a process-wide capability, for callers that
/// address the executor of the current thread without holding a value.
#[derive(Copy, Clone, Debug, Default)]
pub struct Glommio;

impl StaticRuntime for Glommio {

}

impl SpawnStatic for Glommio {
    /// The executor running on this thread accepts every unit of work;
    /// fatal when none is running.
    fn spawn(future: futures_task::FutureObj<'static, ()>) -> (r: Result<(), SpawnError>)
        ensures
            r is Ok,
    {
        gl_spawn_detach(obj_into_local(future));
        Ok(())
    }
}

impl LocalSpawnStatic for Glommio {
    /// The executor running on this thread accepts every unit of work;
    /// fatal when none is running.
    fn spawn_local(future: futures_task::LocalFutureObj<'static, ()>) -> (r: Result<
        (),
        SpawnError,
    >)
        ensures
            r is Ok,
    {
        gl_spawn_detach(future);
        Ok(())
    }
}

impl StaticRuntime for GlommioCt {

}

} // verus!
