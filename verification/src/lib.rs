//! Runtimes for the parts of a program, each with threads, cores and a priority
//! of its own.
//!
//! A [`RuntimeManagerConfig`] describes tokio runtimes by name, and the names
//! by which the program asks for them. [`RuntimeManager::new`] builds the
//! runtimes; [`RuntimeManager::get_tokio`] finds the runtime that a name stands
//! for. Each thread of a runtime first takes on its priority and its cores
//! ([`worker::WorkerStart`]). A [`NativeThreadRuntime`] decides which native
//! threads may be started, how they are called and where they run.

pub mod machine;
pub mod manager;
pub mod names;
pub mod policy;
pub mod supported_runtimes;
pub mod thread_name;
pub mod tokio_builder;
pub mod worker;

pub use machine::{CORE_LIMIT, MAX_PRIORITY};
pub use manager::{ManagerError, RuntimeManager, RuntimeManagerConfig};
pub use names::NameMap;
pub use policy::CoreAllocation;
pub use supported_runtimes::{
    JoinHandle, NativeConfig, NativeThreadRuntime, SpawnError, SpawnOrder, TokioConfig,
    TokioRuntime,
};
