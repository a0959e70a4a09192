//! The sandboxed execution engine: one container per run, strict limits, a
//! timeout, no network, and a registry of what is running.

pub mod container;
pub mod engine;
pub mod execution;
pub mod laws;
pub mod manager;
pub mod model;
pub mod registry;
pub mod types;

pub use manager::DockerManager;
pub use types::{
    ContainerInfo, ContainerStatus, ExecutionRequest, ExecutionResult, ExecutionStep,
    ExecutionTrace, IoEvent,
};
