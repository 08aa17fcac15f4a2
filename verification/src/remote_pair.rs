//! The cancellable remote pair: the fallback join mechanism used when a
//! backend has no native joinable or abortable handle.
//!
//! At pairing time a one-shot result channel and a shared keep-running flag
//! (initially `false`) are created.  The *remote* half owns the unit of
//! work, the channel's sender and the flag, and is handed to the backend to
//! run; the *handle* half owns the receiver and the same flag and is given
//! to the caller.  The protocol, each time the remote is polled:
//!
//! 1. if the handle side has signalled cancellation intent (its receiver
//!    was dropped) and the keep-running flag is still `false`, the remote
//!    resolves at once without running the inner work any further;
//! 2. otherwise the inner work is polled, wrapped so that a panic is
//!    captured as a value instead of unwinding the backend;
//! 3. on completion the captured result is sent through the channel.
//!
//! Detaching sets the flag to `true` (monotonic, never reversed), so a
//! later drop of the receiver is no longer read as a cancellation request.
//!
//! The decision rules are stated and verified here
//! ([`remote_poll_action`], [`handle_read_event`]); the channel, flag and
//! unwind capture themselves are the one-shot remote pair of `futures-util`
//! ([`futures_util::future::RemoteHandle`]), reached through the trusted
//! items at the end of this file.

use vstd::prelude::*;

use crate::task_state::spec_drop_cancels;
use crate::task_state::spec_poll_state;
use crate::task_state::spec_poll_step;
use crate::task_state::observable;
use crate::task_state::FaultKind;
use crate::task_state::LifeState;
use crate::task_state::PollEvent;
use crate::task_state::PollStep;

verus! {

/// What the remote half does at one poll, before touching the inner work.
#[derive(Copy, Clone, Debug, PartialEq, Eq, Structural)]
pub enum RemoteAction {
    /// Cancellation was requested and not overridden by detach: resolve at
    /// once, without polling the inner unit of work again.
    ResolveCancelled,
    /// Poll the inner unit of work (and send its result once it resolves).
    RunInner,
}

/// The decision rule of the remote half: honour a cancellation request
/// only while the keep-running flag is still unset.
pub open spec fn spec_remote_action(cancel_requested: bool, keep_running: bool) -> RemoteAction {
    if cancel_requested && !keep_running {
        RemoteAction::ResolveCancelled
    } else {
        RemoteAction::RunInner
    }
}

/// One poll of the remote half: from whether the handle side has signalled
/// cancellation intent and whether the keep-running flag is set, decide
/// whether the inner unit of work is polled at all.
pub fn remote_poll_action(cancel_requested: bool, keep_running: bool) -> (r: RemoteAction)
    ensures
        r == spec_remote_action(cancel_requested, keep_running),
{
    if cancel_requested && !keep_running {
        RemoteAction::ResolveCancelled
    } else {
        RemoteAction::RunInner
    }
}

/// The message the remote half sends through the one-shot channel.
pub enum ChannelMsg<T> {
    /// The unit of work resolved to its output.
    Value(T),
    /// The unit of work panicked; the capture travels to the handle side.
    Captured,
}

/// What the handle half finds when it reads the one-shot channel.
pub enum ChannelRead<T> {
    /// Nothing sent yet.
    ReadPending,
    /// The remote's message arrived.
    Msg(ChannelMsg<T>),
    /// The sender was dropped without ever sending: the remote was
    /// discarded before completing (for example at backend shutdown).
    SenderGone,
}

/// What one channel read means for the handle: a value is
/// the output; a captured panic is re-raised at the joining side; a sender
/// dropped without sending is treated identically to a panic.
pub open spec fn spec_handle_read_event<T>(r: ChannelRead<T>) -> PollEvent<T> {
    match r {
        ChannelRead::ReadPending => PollEvent::Pending,
        ChannelRead::Msg(ChannelMsg::Value(v)) => PollEvent::Output(v),
        ChannelRead::Msg(ChannelMsg::Captured) => PollEvent::Fault(FaultKind::Panicked),
        ChannelRead::SenderGone => PollEvent::Fault(FaultKind::Lost),
    }
}

/// Translate one read of the one-shot channel into the event the handle's
/// lifecycle machine reacts to.
pub fn handle_read_event<T>(r: ChannelRead<T>) -> (ev: PollEvent<T>)
    ensures
        ev == spec_handle_read_event(r),
{
    match r {
        ChannelRead::ReadPending => PollEvent::Pending,
        ChannelRead::Msg(ChannelMsg::Value(v)) => PollEvent::Output(v),
        ChannelRead::Msg(ChannelMsg::Captured) => PollEvent::Fault(FaultKind::Panicked),
        ChannelRead::SenderGone => PollEvent::Fault(FaultKind::Lost),
    }
}

/// Awaiting a remote-pair handle yields exactly the output the unit of
/// work sent, after which the handle is completed and every further poll
/// is misuse.
pub proof fn lemma_pair_output_exact<T>(s: LifeState, v: T, ev2: PollEvent<T>)
    requires
        observable(s),
    ensures
        spec_poll_step(s, spec_handle_read_event(ChannelRead::Msg(ChannelMsg::Value(v))))
            == PollStep::Return(v),
        spec_poll_state(s, spec_handle_read_event(ChannelRead::Msg(ChannelMsg::Value(v))))
            == LifeState::Completed,
        spec_poll_step(LifeState::Completed, ev2) == PollStep::<T>::Misuse,
{
}

/// A captured panic of the unit of work, or a remote discarded before it
/// could send, is re-raised at the joining side as the fault it was --
/// not at spawn time and not silently swallowed.
pub proof fn lemma_pair_fault_raised<T>(s: LifeState)
    requires
        observable(s),
    ensures
        spec_poll_step::<T>(s, spec_handle_read_event::<T>(ChannelRead::Msg(ChannelMsg::Captured)))
            == PollStep::<T>::Raise(FaultKind::Panicked),
        spec_poll_step::<T>(s, spec_handle_read_event::<T>(ChannelRead::SenderGone))
            == PollStep::<T>::Raise(FaultKind::Lost),
{
}

/// Detach, then drop: the drop of a detached handle requests no
/// cancellation, and with the keep-running flag set the remote runs the
/// inner unit of work to completion whatever the handle side did.
pub proof fn lemma_detach_then_drop_runs_to_completion(cancel_requested: bool)
    ensures
        !spec_drop_cancels(LifeState::Detached),
        spec_remote_action(cancel_requested, true) == RemoteAction::RunInner,
{
}

/// Drop without detach: the drop of a running handle requests
/// cancellation, and the remote, seeing the dropped receiver with the
/// keep-running flag still unset, resolves without polling the inner unit
/// of work again.
pub proof fn lemma_drop_without_detach_cancels()
    ensures
        spec_drop_cancels(LifeState::Running),
        spec_remote_action(true, false) == RemoteAction::ResolveCancelled,
{
}

/// The handle half of a one-shot remote pair, resolving to the output of
/// the paired unit of work.
#[verifier::external_type_specification]
#[verifier::external_body]
#[verifier::reject_recursive_types(T)]
pub struct ExRemoteHandle<T>(futures_util::future::RemoteHandle<T>);

/// Pair a thread-movable unit of work with a remote handle.
///
/// Relies on `futures_util::FutureExt::remote_handle`: the returned remote
/// future owns the unit of work, captures a panic of it as a value, and
/// sends the result over a one-shot channel to the returned handle; it
/// honours cancellation (receiver dropped while the keep-running flag is
/// unset) at each poll.  The remote is boxed back into a spawnable unit of
/// work via `futures_task::FutureObj::new`.
#[verifier::external_body]
pub(crate) fn remote_pair<T: Send + 'static>(fut: futures_task::FutureObj<'static, T>) -> (r: (
    futures_task::FutureObj<'static, ()>,
    futures_util::future::RemoteHandle<T>,
))
{
    let (remote, handle) = futures_util::FutureExt::remote_handle(fut);
    (futures_task::FutureObj::new(Box::new(remote)), handle)
}

/// Pair a thread-confined unit of work with a remote handle.
///
/// Relies on `futures_util::FutureExt::remote_handle` as [`remote_pair`]
/// does; the remote stays thread-confined and is boxed back into a local
/// unit of work via `futures_task::LocalFutureObj::new`.
#[verifier::external_body]
pub(crate) fn remote_pair_local<T: Send + 'static>(
    fut: futures_task::LocalFutureObj<'static, T>,
) -> (r: (futures_task::LocalFutureObj<'static, ()>, futures_util::future::RemoteHandle<T>))
{
    let (remote, handle) = futures_util::FutureExt::remote_handle(fut);
    (futures_task::LocalFutureObj::new(Box::new(remote)), handle)
}

/// Set the pair's keep-running flag, then discard the handle.
///
/// Relies on `futures_util::future::RemoteHandle::forget`: it stores `true`
/// into the shared keep-running flag (monotonic, never reset), so the
/// remote runs the unit of work to completion even after the receiver is
/// gone.
#[verifier::external_body]
pub(crate) fn remote_forget<T>(h: futures_util::future::RemoteHandle<T>) {
    h.forget()
}

/// Block the calling thread until the paired unit of work has resolved and
/// return its output.
///
/// Relies on `futures_executor::block_on` and on the poll behaviour of
/// `futures_util::future::RemoteHandle`: a sent value is returned as is; a
/// captured panic of the unit of work, or a remote discarded before
/// completion, is resumed as a panic here, at the joining side -- that
/// re-raise is the specified, intentionally fatal surfacing of a fault.
#[verifier::external_body]
pub(crate) fn remote_join<T: 'static>(h: futures_util::future::RemoteHandle<T>) -> T {
    futures_executor::block_on(h)
}

} // verus!
