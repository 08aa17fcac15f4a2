//! Marking a backend as a process-wide runtime: a zero-sized, freely
//! copyable capability whose lifetime is the process lifetime, so that
//! generic code can pick an executor by type alone.

use vstd::prelude::*;

verus! {

/// A process-wide runtime capability: copyable, shareable across threads,
/// and alive for the whole process.
pub trait StaticRuntime: Copy + Send + Sync + 'static {

}

/// Names the process-wide runtime a piece of generic code runs under.
pub trait WithRuntime {
    /// The backend this type runs its units of work on.
    type Runtime: StaticRuntime;
}

} // verus!
