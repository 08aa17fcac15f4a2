//! The single-threaded pool of futures-executor as a backend: its spawner
//! queues thread-confined units of work, which run when the pool itself is
//! driven.  It hands out no native join handle, so handles come from the
//! cancellable remote pair via
//! [`crate::spawn_handle::LocalSpawnExt::spawn_local_with_handle`].

use vstd::prelude::*;

use crate::spawn::LocalSpawn;
use crate::spawn::SpawnError;

verus! {

/// The spawner of a futures-executor local pool.
#[verifier::external_type_specification]
#[verifier::external_body]
pub struct ExLocalSpawner(futures_executor::LocalSpawner);

/// Relies on `futures_executor::LocalSpawner`'s spawn entry
/// (`futures_task::LocalSpawn::spawn_local_obj`): queues the unit of work
/// on the pool, to run when the pool is driven; it fails exactly when the
/// pool has been dropped, which is reported here as a shut-down error.
#[verifier::external_body]
fn lp_spawn_local(
    sp: &futures_executor::LocalSpawner,
    fut: futures_task::LocalFutureObj<'static, ()>,
) -> Result<(), SpawnError> {
    match futures_task::LocalSpawn::spawn_local_obj(sp, fut) {
        Ok(()) => Ok(()),
        Err(_) => Err(SpawnError::shutdown()),
    }
}

/// Relies on `futures_executor::LocalSpawner`'s status probe
/// (`futures_task::LocalSpawn::status_local`): advisory, an error exactly
/// when the pool has been dropped.
#[verifier::external_body]
fn lp_status_local(sp: &futures_executor::LocalSpawner) -> Result<(), SpawnError> {
    match futures_task::LocalSpawn::status_local(sp) {
        Ok(()) => Ok(()),
        Err(_) => Err(SpawnError::shutdown()),
    }
}

impl LocalSpawn for futures_executor::LocalSpawner {
    /// Queue the unit of work on the pool; rejected only when the pool is
    /// gone.
    fn spawn_local_obj(&self, future: futures_task::LocalFutureObj<'static, ()>) -> Result<
        (),
        SpawnError,
    > {
        lp_spawn_local(self, future)
    }

    /// Advisory: an error exactly when the pool is gone.
    fn status_local(&self) -> Result<(), SpawnError> {
        lp_status_local(self)
    }
}

} // verus!
