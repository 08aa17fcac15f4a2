//! The glommio-backed executors: building, running and spawning, where
//! the system offers io_uring.

use std::sync::atomic::AtomicUsize;
use std::sync::atomic::Ordering;
use std::sync::Arc;
use std::time::Duration;

use async_executors::Glommio;
use async_executors::GlommioCt;
use async_executors::GlommioCtBuilder;
use async_executors::JoinOutcome;
use async_executors::LocalSpawnHandle;
use async_executors::SpawnStatic;
use futures_task::FutureObj;
use futures_task::LocalFutureObj;

fn obj<T, F>(fut: F) -> FutureObj<'static, T>
where
    F: std::future::Future<Output = T> + Send + 'static,
{
    FutureObj::new(Box::new(fut))
}

fn local_obj<T, F>(fut: F) -> LocalFutureObj<'static, T>
where
    F: std::future::Future<Output = T> + 'static,
{
    LocalFutureObj::new(Box::new(fut))
}

#[test]
fn builder_runs_a_unit_of_work() {
    let builder = GlommioCtBuilder::new();
    let out = builder.block_on(obj(async { 5u8 + 6 }));
    assert_eq!(out, 11u8);
}

#[test]
fn static_spawn_runs_inside_the_executor() {
    let flag = Arc::new(AtomicUsize::new(0));
    let probe = flag.clone();
    let builder = GlommioCtBuilder::new();
    builder.block_on(obj(async move {
        <Glommio as SpawnStatic>::spawn(obj(async move {
            probe.store(9, Ordering::SeqCst);
        }))
        .expect("spawn");
        async_std::task::sleep(Duration::from_millis(100)).await;
    }));
    assert_eq!(flag.load(Ordering::SeqCst), 9);
}

#[test]
fn remote_pair_round_trip_on_glommio() {
    let builder = GlommioCtBuilder::new();
    let handle = builder.block_on(obj(async move {
        let h = GlommioCt::new()
            .spawn_handle_local_obj(local_obj(async { 13u8 }))
            .expect("spawn");
        async_std::task::sleep(Duration::from_millis(100)).await;
        h
    }));
    assert_eq!(handle.join(), JoinOutcome::Ready(13u8));
}
