//! The blocking entry point of an executor: drive one top-level unit of
//! work on the calling thread and return only once it has resolved.
//!
//! Fatal if invoked recursively from within a unit of work already
//! running on that same backend: the backends panic rather than deadlock
//! silently.

use vstd::prelude::*;

verus! {

/// The entry point of an executor held as a value.
pub trait BlockOn {
    /// Run the unit of work to completion on the calling thread and
    /// return its output.
    fn block_on<T>(&self, future: futures_task::FutureObj<'static, T>) -> T;
}

/// The entry point of a process-wide executor, addressed by type alone.
pub trait BlockOnStatic {
    /// Run the unit of work to completion on the calling thread and
    /// return its output.
    fn block_on<T>(future: futures_task::FutureObj<'static, T>) -> T;
}

} // verus!
