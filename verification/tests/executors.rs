//! End-to-end scenarios: spawning real units of work on the wrapped
//! backends and observing them through the uniform handle.

use std::sync::atomic::AtomicUsize;
use std::sync::atomic::Ordering;
use std::sync::Arc;
use std::time::Duration;

use async_executors::AsyncGlobal;
use async_executors::AsyncJoinHandle;
use async_executors::AsyncStd;
use async_executors::JoinOutcome;
use async_executors::LocalSpawnHandle;
use async_executors::Spawn;
use async_executors::SpawnExt;
use async_executors::SpawnHandle;
use async_executors::TokioCt;
use async_executors::TokioTp;

use futures_task::FutureObj;
use futures_task::LocalFutureObj;

fn obj<T, F>(fut: F) -> FutureObj<'static, T>
where
    F: std::future::Future<Output = T> + Send + 'static,
{
    FutureObj::new(Box::new(fut))
}

fn local_obj<T, F>(fut: F) -> LocalFutureObj<'static, T>
where
    F: std::future::Future<Output = T> + 'static,
{
    LocalFutureObj::new(Box::new(fut))
}

fn settle(ms: u64) {
    async_std::task::block_on(async move {
        async_std::task::sleep(Duration::from_millis(ms)).await;
    });
}

#[test]
fn round_trip_unit_async_std() {
    let exec = AsyncStd::new();
    let handle = exec.spawn_handle_obj(obj(async {})).expect("spawn");
    assert_eq!(handle.join(), JoinOutcome::Ready(()));
}

#[test]
fn round_trip_integer_async_global() {
    let exec = AsyncGlobal::new();
    let handle = exec.spawn_handle_obj(obj(async { 7u64 })).expect("spawn");
    assert_eq!(handle.join(), JoinOutcome::Ready(7u64));
}

#[test]
fn round_trip_string_remote_pair() {
    let exec = AsyncStd::new();
    let handle = exec
        .spawn_with_handle(obj(async { String::from("hello") }))
        .expect("spawn");
    assert_eq!(handle.join(), JoinOutcome::Ready(String::from("hello")));
}

#[test]
fn round_trip_integer_tokio_tp() {
    let rt = tokio::runtime::Builder::new_multi_thread()
        .worker_threads(2)
        .build()
        .expect("runtime");
    let exec = TokioTp::new(rt);
    let handle = exec.spawn_handle_obj(obj(async { 41i32 + 1 })).expect("spawn");
    assert_eq!(handle.join(), JoinOutcome::Ready(42i32));
}

#[test]
fn round_trip_local_tokio_ct() {
    let rt = tokio::runtime::Builder::new_current_thread()
        .build()
        .expect("runtime");
    let exec = TokioCt::new(rt);
    let handle = exec
        .spawn_handle_local_obj(local_obj(async { 11u8 }))
        .expect("spawn");
    // Drive the local set for a moment so the spawned task completes.
    exec.block_on(local_obj(async {
        async_std::task::sleep(Duration::from_millis(200)).await;
    }));
    assert_eq!(handle.join(), JoinOutcome::Ready(11u8));
}

#[test]
fn oneshot_ready_and_five() {
    let (tx, rx) = futures_channel::oneshot::channel();
    let exec = AsyncGlobal::new();
    let handle = exec
        .spawn_handle_obj(obj(async move {
            tx.send("ready").expect("send ready");
            5i32
        }))
        .expect("spawn");
    assert_eq!(handle.join(), JoinOutcome::Ready(5i32));
    let got = futures_executor::block_on(rx).expect("receive");
    assert_eq!(got, "ready");
}

#[test]
fn detach_lets_the_work_finish() {
    let done = Arc::new(AtomicUsize::new(0));
    let probe = done.clone();
    let exec = AsyncStd::new();
    let handle = exec
        .spawn_with_handle(obj(async move {
            async_std::task::sleep(Duration::from_millis(100)).await;
            probe.store(1, Ordering::SeqCst);
        }))
        .expect("spawn");
    handle.detach();
    let mut waited: u64 = 0;
    while done.load(Ordering::SeqCst) == 0 && waited < 10_000 {
        settle(50);
        waited += 50;
    }
    assert_eq!(done.load(Ordering::SeqCst), 1);
}

#[test]
fn dropped_handle_cancels_the_work() {
    let reached = Arc::new(AtomicUsize::new(0));
    let probe = reached.clone();
    let exec = AsyncStd::new();
    let handle = exec
        .spawn_with_handle(obj(async move {
            futures_util::future::pending::<()>().await;
            probe.store(1, Ordering::SeqCst);
        }))
        .expect("spawn");
    drop(handle);
    settle(300);
    assert_eq!(reached.load(Ordering::SeqCst), 0);
}

#[test]
fn dropped_native_handle_aborts_the_work() {
    let reached = Arc::new(AtomicUsize::new(0));
    let probe = reached.clone();
    let rt = tokio::runtime::Builder::new_multi_thread()
        .worker_threads(1)
        .build()
        .expect("runtime");
    let exec = TokioTp::new(rt);
    let handle = exec
        .spawn_handle_obj(obj(async move {
            futures_util::future::pending::<()>().await;
            probe.store(1, Ordering::SeqCst);
        }))
        .expect("spawn");
    drop(handle);
    settle(300);
    assert_eq!(reached.load(Ordering::SeqCst), 0);
}

#[test]
fn thousand_detached_increments() {
    let counter = Arc::new(AtomicUsize::new(0));
    let exec = AsyncStd::new();
    let mut i: usize = 0;
    while i < 1000 {
        let c = counter.clone();
        let handle = exec
            .spawn_with_handle(obj(async move {
                c.fetch_add(1, Ordering::SeqCst);
            }))
            .expect("spawn");
        handle.detach();
        i += 1;
    }
    let mut waited: u64 = 0;
    while counter.load(Ordering::SeqCst) < 1000 && waited < 15_000 {
        settle(50);
        waited += 50;
    }
    assert_eq!(counter.load(Ordering::SeqCst), 1000);
}

#[test]
fn fire_and_forget_spawn_runs() {
    let done = Arc::new(AtomicUsize::new(0));
    let probe = done.clone();
    let exec = AsyncStd::new();
    exec.spawn_obj(obj(async move {
        probe.store(7, Ordering::SeqCst);
    }))
    .expect("spawn");
    let mut waited: u64 = 0;
    while done.load(Ordering::SeqCst) == 0 && waited < 10_000 {
        settle(50);
        waited += 50;
    }
    assert_eq!(done.load(Ordering::SeqCst), 7);
}

#[test]
fn block_on_returns_the_output() {
    assert_eq!(AsyncStd::block_on(obj(async { 3u8 + 4 })), 7u8);
    assert_eq!(AsyncGlobal::block_on(obj(async { 30u8 })), 30u8);
}

#[test]
fn blocking_closure_round_trip() {
    let rt = tokio::runtime::Builder::new_multi_thread()
        .worker_threads(1)
        .build()
        .expect("runtime");
    let exec = TokioTp::new(rt);
    let handle =
        async_executors::SpawnBlocking::spawn_blocking(&exec, || 9u8 * 3).expect("spawn");
    assert_eq!(handle.join(), JoinOutcome::Ready(27u8));
}

#[test]
fn shutdown_works_only_through_the_last_clone() {
    let rt = tokio::runtime::Builder::new_multi_thread()
        .worker_threads(1)
        .build()
        .expect("runtime");
    let exec = TokioTp::new(rt);
    let second = exec.clone();
    let back = exec.shutdown_background().err().expect("still shared");
    drop(second);
    assert!(back.shutdown_background().is_ok());
}

#[test]
fn local_pool_remote_pair_round_trip() {
    let mut pool = futures_executor::LocalPool::new();
    let spawner = pool.spawner();
    let handle = async_executors::LocalSpawnExt::spawn_local_with_handle(
        &spawner,
        local_obj(async { 21u8 }),
    )
    .expect("spawn");
    pool.run_until_stalled();
    assert_eq!(handle.join(), JoinOutcome::Ready(21u8));
}

#[test]
fn static_spawn_runs() {
    let done = Arc::new(AtomicUsize::new(0));
    let probe = done.clone();
    <AsyncStd as async_executors::SpawnStatic>::spawn(obj(async move {
        probe.store(3, Ordering::SeqCst);
    }))
    .expect("spawn");
    let mut waited: u64 = 0;
    while done.load(Ordering::SeqCst) == 0 && waited < 10_000 {
        settle(50);
        waited += 50;
    }
    assert_eq!(done.load(Ordering::SeqCst), 3);
}

#[test]
fn spawn_error_message() {
    let e = async_executors::SpawnError::shutdown();
    assert_eq!(e.message(), "Executor is shutdown");
}

#[test]
fn yield_now_resolves() {
    let exec = AsyncStd::new();
    AsyncStd::block_on(obj(async move {
        async_executors::YieldNow::yield_now(&exec).await;
    }));
}

#[test]
fn into_native_hands_the_task_back() {
    let rt = tokio::runtime::Builder::new_multi_thread()
        .worker_threads(1)
        .build()
        .expect("runtime");
    let native = rt.spawn(async { 6u8 + 1 });
    let taken = async_executors::TokioJoinHandle::new(native)
        .into_native()
        .expect("armed handle hands its task back");
    assert_eq!(futures_executor::block_on(taken).expect("join"), 7u8);
    drop(rt);
}

#[test]
fn native_handle_wraps_into_task_handle() {
    let rt = tokio::runtime::Builder::new_multi_thread()
        .worker_threads(1)
        .build()
        .expect("runtime");
    let native = rt.spawn(async { 5u16 * 5 });
    let handle = async_executors::TokioJoinHandle::new(native).into_task_handle();
    assert_eq!(handle.join(), JoinOutcome::Ready(25u16));
    drop(rt);
}

#[test]
fn round_trip_local_async_std() {
    let exec = AsyncStd::new();
    let handle = exec
        .spawn_handle_local_obj(local_obj(async { 17u8 }))
        .expect("spawn");
    assert_eq!(handle.join(), JoinOutcome::Ready(17u8));
}

#[test]
fn round_trip_local_async_global() {
    let exec = AsyncGlobal::new();
    let handle = exec
        .spawn_handle_local_obj(local_obj(async { 19u8 }))
        .expect("spawn");
    assert_eq!(handle.join(), JoinOutcome::Ready(19u8));
}

#[test]
fn into_parts_hands_the_task_back() {
    let exec = AsyncStd::new();
    let handle = exec.spawn_handle_obj(obj(async { 23u8 })).expect("spawn");
    let inner = match handle {
        async_executors::TaskHandle::AsyncStdJoinHandle(s) => s,
        _ => unreachable!("async-std spawns its native handle kind"),
    };
    let (task, a_handle) = inner.into_parts();
    let rejoined =
        async_executors::AsyncStdJoinHandle::new(task.expect("armed handle"), a_handle);
    assert_eq!(rejoined.join(), JoinOutcome::Ready(23u8));
}
