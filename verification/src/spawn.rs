//! The spawn capability: traits for pushing a unit of work onto an executor,
//! and the error reported when the executor cannot accept it.
//!
//! A unit of work is carried as a [`futures_task::FutureObj`] (thread-movable)
//! or [`futures_task::LocalFutureObj`] (confined to its originating thread).
//! Both are opaque here: the crate never looks inside a unit of work, it only
//! hands it to a backend and observes the result through a join handle.

use vstd::prelude::*;

verus! {

/// A boxed, thread-movable unit of work with output `T`.
#[verifier::external_type_specification]
#[verifier::external_body]
#[verifier::reject_recursive_types(T)]
pub struct ExFutureObj<'a, T>(futures_task::FutureObj<'a, T>);

/// A boxed unit of work with output `T` that must stay on its thread.
#[verifier::external_type_specification]
#[verifier::external_body]
#[verifier::reject_recursive_types(T)]
pub struct ExLocalFutureObj<'a, T>(futures_task::LocalFutureObj<'a, T>);

/// Relies on `futures_task::LocalFutureObj::from`: re-wraps a
/// thread-movable unit of work as a thread-confined one, unchanged.
#[verifier::external_body]
pub(crate) fn obj_into_local<T>(fut: futures_task::FutureObj<'static, T>) -> futures_task::LocalFutureObj<
    'static,
    T,
> {
    futures_task::LocalFutureObj::from(fut)
}

/// The `Spawn` trait allows for pushing thread-movable, fire-and-forget
/// units of work onto an executor that will run them to completion.
///
/// `Ok` means the work has been handed off, not that it has run.  Failure is
/// reported only when the backend is not currently able to accept new work,
/// for example because it has been shut down.
pub trait Spawn {
    /// Spawn a unit of work that will be run to completion.
    fn spawn_obj(&self, future: futures_task::FutureObj<'static, ()>) -> Result<(), SpawnError>;

    /// Advisory probe: whether a subsequent spawn is likely (not guaranteed)
    /// to succeed.
    fn status(&self) -> Result<(), SpawnError>;
}

/// Like [`Spawn`], but for a process-wide backend addressed by type alone
/// (a zero-sized capability).
pub trait SpawnStatic {
    /// Spawn a unit of work that will be run to completion.
    fn spawn(future: futures_task::FutureObj<'static, ()>) -> Result<(), SpawnError>;
}

/// Like [`LocalSpawn`], but for a process-wide backend addressed by type
/// alone (a zero-sized capability).
pub trait LocalSpawnStatic {
    /// Spawn a thread-confined unit of work that will be run to completion.
    fn spawn_local(future: futures_task::LocalFutureObj<'static, ()>) -> Result<(), SpawnError>;
}

/// Like [`Spawn`], but for units of work that must stay on the thread they
/// were created on.
pub trait LocalSpawn {
    /// Spawn a thread-confined unit of work that will be run to completion.
    fn spawn_local_obj(
        &self,
        future: futures_task::LocalFutureObj<'static, ()>,
    ) -> Result<(), SpawnError>;

    /// Advisory probe: whether a subsequent spawn is likely (not guaranteed)
    /// to succeed.
    fn status_local(&self) -> Result<(), SpawnError>;
}

/// An error that occurred during spawning.
///
/// The only condition the wrapped executors report is that the backend has
/// been shut down and no longer accepts new work, so every value of this
/// type answers `true` to [`SpawnError::is_shutdown`].
#[derive(Copy, Clone, Debug)]
pub struct SpawnError {
    _priv: (),
}

impl SpawnError {
    /// Create a spawn error.
    pub fn new() -> (r: Self)
        ensures
            r.is_shutdown_spec(),
    {
        SpawnError { _priv: () }
    }

    /// Spawning failed because the executor has been shut down.
    pub fn shutdown() -> (r: Self)
        ensures
            r.is_shutdown_spec(),
    {
        SpawnError { _priv: () }
    }

    /// Whether this error reports a shut-down executor.
    pub open spec fn is_shutdown_spec(&self) -> bool {
        true
    }

    /// Check whether spawning failed due to the executor being shut down.
    pub fn is_shutdown(&self) -> (r: bool)
        ensures
            r == self.is_shutdown_spec(),
    {
        true
    }

    /// A human-readable account of the error.
    pub fn message(&self) -> (r: String)
        ensures
            r@ == "Executor is shutdown"@,
    {
        broadcast use vstd::string::to_string_from_display_ensures_for_str;

        "Executor is shutdown".to_string()
    }
}

} // verus!
