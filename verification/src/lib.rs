//! Task-lifecycle control plane for a container-runtime shim.
//!
//! A [`local::Local`] service owns a registry of task records, one per
//! sandboxed workload.  Each record ([`instance_data::InstanceData`]) drives
//! its workload through a strict lifecycle state machine
//! ([`task_state::TaskState`]) and delegates the actual work to a pluggable
//! workload handle ([`instance::Instance`]).  Lifecycle events are published
//! into an event log that the embedding program drains and delivers.

pub mod error;
pub mod events;
pub mod instance;
pub mod instance_data;
pub mod local;
pub mod protocol;
pub mod task_state;
pub mod timestamp;
