//! A uniform task-handle and spawning abstraction over several async
//! executor backends.
//!
//! Application code submits units of asynchronous work to a chosen backend
//! (a multi-threaded pool, a single-threaded cooperative runtime, ...) and
//! manipulates the resulting in-flight task through one consistent join
//! handle, regardless of which backend runs it.  The handle offers awaiting
//! the output, detaching (let the task run on after the handle is gone) and
//! cancel-on-drop.  Backends without a native joinable or abortable handle
//! are served by a fallback built from a one-shot result channel plus a
//! shared keep-running flag.
//!
//! The lifecycle rules of the handle -- when a poll returns the output, when
//! a fault is re-raised, what detaching and dropping do -- are stated and
//! proved over an explicit state model in [`task_state`].

pub mod async_global;
pub mod async_std_exec;
pub mod bindgen;
pub mod block_on;
pub mod glommio_ct;
pub mod join_handle;
pub mod localpool;
pub mod remote_pair;
pub mod spawn;
pub mod spawn_blocking;
pub mod spawn_handle;
pub mod static_runtime;
pub mod task_state;
pub mod tokio_ct;
pub mod tokio_jh;
pub mod tokio_tp;
pub mod yield_now;

pub use async_global::AsyncGlobal;
pub use async_global::AsyncGlobalJoinHandle;
pub use async_std_exec::AsyncStd;
pub use async_std_exec::AsyncStdJoinHandle;
pub use bindgen::Bindgen;
pub use block_on::BlockOn;
pub use block_on::BlockOnStatic;
pub use glommio_ct::Glommio;
pub use glommio_ct::GlommioCt;
pub use glommio_ct::GlommioCtBuilder;
pub use join_handle::AsyncJoinHandle;
pub use join_handle::JoinOutcome;
pub use join_handle::TaskHandle;
pub use remote_pair::ChannelMsg;
pub use remote_pair::ChannelRead;
pub use remote_pair::RemoteAction;
pub use spawn::LocalSpawn;
pub use spawn::LocalSpawnStatic;
pub use spawn::Spawn;
pub use spawn::SpawnError;
pub use spawn::SpawnStatic;
pub use spawn_blocking::SpawnBlocking;
pub use spawn_handle::LocalSpawnExt;
pub use spawn_handle::LocalSpawnHandle;
pub use spawn_handle::SpawnExt;
pub use spawn_handle::SpawnHandle;
pub use static_runtime::StaticRuntime;
pub use static_runtime::WithRuntime;
pub use task_state::FaultKind;
pub use task_state::LifeState;
pub use task_state::PollEvent;
pub use task_state::PollStep;
pub use tokio_ct::TokioCt;
pub use tokio_jh::TokioJoinHandle;
pub use tokio_tp::TokioTp;
pub use yield_now::YieldNow;
pub use yield_now::YieldNowStatic;
