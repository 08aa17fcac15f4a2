//! Passing an executor to generic code that only knows the spawn
//! capability: once as `&impl Spawn`, once as a clonable value.

use async_executors::AsyncStd;
use async_executors::Spawn;
use futures_task::FutureObj;

fn obj<T, F>(fut: F) -> FutureObj<'static, T>
where
    F: std::future::Future<Output = T> + Send + 'static,
{
    FutureObj::new(Box::new(fut))
}

fn increment(x: u8, exec: &impl Spawn, mut tx: futures_channel::mpsc::Sender<u8>) {
    exec.spawn_obj(obj(async move {
        tx.try_send(x + 1).expect("send");
    }))
    .expect("spawn");
}

fn increment_by_value(x: u8, exec: impl Spawn + Clone, mut tx: futures_channel::mpsc::Sender<u8>) {
    let exec2 = exec.clone();
    exec2
        .spawn_obj(obj(async move {
            tx.try_send(x + 1).expect("send");
        }))
        .expect("spawn");
}

// pass an executor to a function that takes exec: `&impl Spawn`
#[test]
fn test_spawn() {
    let (tx, mut rx) = futures_channel::mpsc::channel(1);
    let exec = AsyncStd::default();

    increment(4, &exec, tx);

    let result = futures_executor::block_on(futures_util::StreamExt::next(&mut rx)).expect("Some");

    assert_eq!(5u8, result);
}

// pass an executor to a function that takes exec: `impl Spawn + Clone`
#[test]
fn test_spawn_with_clone() {
    let (tx, mut rx) = futures_channel::mpsc::channel(1);
    let exec = AsyncStd::default();

    increment_by_value(4, exec, tx);

    let result = futures_executor::block_on(futures_util::StreamExt::next(&mut rx)).expect("Some");

    assert_eq!(5u8, result);
}
