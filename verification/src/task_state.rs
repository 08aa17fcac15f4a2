//! The lifecycle model of a task handle.
//!
//! Every join handle in this crate, whatever backend it wraps, follows one
//! state machine: it starts **Running**; `detach` moves it to **Detached**
//! (the underlying work keeps running, cancel-on-drop is disarmed); a poll
//! that produces the output or a fault moves it to **Completed**; dropping
//! it while still Running moves it to **Cancelled** and requests
//! cancellation of the underlying work.  Observing a handle once it is
//! Completed or Cancelled is handle misuse, a programming error surfaced
//! loudly rather than silently swallowed.
//!
//! The functions here are the single place where these transition rules are
//! written down; the concrete handle types drive their backends according to
//! them, and the lemmas at the end state the guarantees that hold of every
//! backend.

use vstd::prelude::*;

verus! {

/// The lifecycle state of a task handle.
#[derive(Copy, Clone, Debug, PartialEq, Eq, Structural)]
pub enum LifeState {
    /// Initial: the handle owns the means to observe and cancel the work.
    Running,
    /// `detach` was called: dropping the handle no longer cancels the work.
    Detached,
    /// A poll produced the output or a fault; nothing more may be observed.
    Completed,
    /// The handle was dropped while Running; cancellation was requested.
    Cancelled,
}

/// The kind of fault a join can surface instead of an output.
#[derive(Copy, Clone, Debug, PartialEq, Eq, Structural)]
pub enum FaultKind {
    /// The unit of work terminated by an unrecoverable internal fault
    /// (a panic), captured where it occurred and re-raised at the joining
    /// side.
    Panicked,
    /// The backing channel or native handle reports the work vanished
    /// without a result (backend torn down mid-flight).  Treated like a
    /// panic at the observing side.
    Lost,
}

/// What the backing channel or native handle reported at one poll.
pub enum PollEvent<T> {
    /// No result yet.
    Pending,
    /// The unit of work resolved to its output.
    Output(T),
    /// The unit of work faulted.
    Fault(FaultKind),
}

/// What a poll of the handle does in response to a [`PollEvent`].
pub enum PollStep<T> {
    /// Suspend; poll again later.
    NotReady,
    /// Return the output to the caller.
    Return(T),
    /// Re-raise the fault at the joining side.
    Raise(FaultKind),
    /// The handle was observed after completion or cancellation: a
    /// programming error, intentionally fatal.
    Misuse,
}

/// Whether a handle in state `s` may still be observed at all.
pub open spec fn observable(s: LifeState) -> bool {
    s == LifeState::Running || s == LifeState::Detached
}

/// The state after one poll that saw event `ev` in state `s`.
pub open spec fn spec_poll_state<T>(s: LifeState, ev: PollEvent<T>) -> LifeState {
    if !observable(s) {
        s
    } else {
        match ev {
            PollEvent::Pending => s,
            PollEvent::Output(_) => LifeState::Completed,
            PollEvent::Fault(_) => LifeState::Completed,
        }
    }
}

/// What one poll that saw event `ev` in state `s` does.
pub open spec fn spec_poll_step<T>(s: LifeState, ev: PollEvent<T>) -> PollStep<T> {
    if !observable(s) {
        PollStep::Misuse
    } else {
        match ev {
            PollEvent::Pending => PollStep::NotReady,
            PollEvent::Output(v) => PollStep::Return(v),
            PollEvent::Fault(k) => PollStep::Raise(k),
        }
    }
}

/// One poll of the handle: from the current state and what the backend
/// reported, decide the next state and the action towards the caller.
pub fn poll_transition<T>(s: LifeState, ev: PollEvent<T>) -> (r: (LifeState, PollStep<T>))
    ensures
        r.0 == spec_poll_state(s, ev),
        r.1 == spec_poll_step(s, ev),
{
    match s {
        LifeState::Running | LifeState::Detached => match ev {
            PollEvent::Pending => (s, PollStep::NotReady),
            PollEvent::Output(v) => (LifeState::Completed, PollStep::Return(v)),
            PollEvent::Fault(k) => (LifeState::Completed, PollStep::Raise(k)),
        },
        _ => (s, PollStep::Misuse),
    }
}

/// Detaching moves a running handle to Detached; it is a consuming
/// operation, so a detached handle can only be dropped afterwards.
pub fn detach_transition(s: LifeState) -> (r: LifeState)
    requires
        s == LifeState::Running,
    ensures
        r == LifeState::Detached,
{
    LifeState::Detached
}

/// Whether dropping a handle in state `s` must request cancellation of the
/// underlying unit of work.
pub open spec fn spec_drop_cancels(s: LifeState) -> bool {
    s == LifeState::Running
}

/// On drop: only a handle still Running cancels its work; a detached or
/// completed handle leaves the work alone.
pub fn drop_transition(s: LifeState) -> (r: (LifeState, bool))
    ensures
        r.0 == if s == LifeState::Running {
            LifeState::Cancelled
        } else {
            s
        },
        r.1 == spec_drop_cancels(s),
{
    if s == LifeState::Running {
        (LifeState::Cancelled, true)
    } else {
        (s, false)
    }
}

/// Awaiting a handle yields exactly the output of the unit of work, and the
/// handle may not be polled again afterwards: once a poll has returned the
/// output, the handle is Completed and every further poll is misuse.
pub proof fn lemma_output_once<T>(s: LifeState, v: T, ev2: PollEvent<T>)
    requires
        observable(s),
    ensures
        spec_poll_step(s, PollEvent::Output(v)) == PollStep::Return(v),
        spec_poll_state(s, PollEvent::Output(v)) == LifeState::Completed,
        spec_poll_step(spec_poll_state(s, PollEvent::Output(v)), ev2) == PollStep::<T>::Misuse,
{
}

/// A fault in the unit of work is re-raised at the joining side, as the
/// fault it was: a panic as a panic, a vanished task like a panic.
pub proof fn lemma_fault_reraised<T>(s: LifeState, k: FaultKind)
    requires
        observable(s),
    ensures
        spec_poll_step::<T>(s, PollEvent::Fault(k)) == PollStep::<T>::Raise(k),
        spec_poll_state::<T>(s, PollEvent::Fault(k)) == LifeState::Completed,
{
}

} // verus!
