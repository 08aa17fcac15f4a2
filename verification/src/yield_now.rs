//! Cooperative yielding: give up the scheduler slot once and resume on
//! the next scheduling turn.  Purely delegates to the backend.

use vstd::prelude::*;

verus! {

/// A runtime that can yield, addressed through a capability value.
pub trait YieldNow {
    /// A unit of work that suspends once and then resolves.
    fn yield_now(&self) -> futures_task::FutureObj<'static, ()>;
}

/// A process-wide runtime that can yield, addressed by type alone.
pub trait YieldNowStatic {
    /// A unit of work that suspends once and then resolves.
    fn yield_now() -> futures_task::FutureObj<'static, ()>;
}

} // verus!
