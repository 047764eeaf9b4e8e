//! Subsystems: the parts of a program that run beside each other and are stopped together.
//!
//! A root system is configured with [`build_root`]. Subsystems are spawned below it, and below
//! each other. All of them are asked to stop when the root system ends, when one of them fails,
//! when the process receives a signal, or when any of them says so. The run ends with the first
//! failure or with an exit code.
//!
//! This crate decides what happens; it runs no tasks itself.
pub mod completion;
pub mod crash;
pub mod error;
pub mod event_text;
pub mod exit;
pub mod frames;
pub mod id;
pub mod json;
pub mod laws;
pub mod metrics;
pub mod registry;
pub mod requests;
pub mod root;
pub mod signal;
pub mod stdin;
pub mod subsystem;
pub mod task;
pub mod text;
pub mod token;
pub mod wait;

pub use completion::Completion;
pub use crash::{CrashHolder, SubsystemResult};
pub use error::{
    GenErr, GenericError, IntoGenericError, IntoGenericResult, IntoSubsystemResult, SubsystemError,
};
pub use exit::{ExitCode, Infallible, IntoExitCode, IntoExitCodeResult};
pub use id::SubsystemId;
pub use metrics::{MetricsEvent, Outcome, TaskInfo, TaskType};
pub use registry::SubsystemMap;
pub use root::{build_default_root, build_root, Launch, RootBuilder};
pub use signal::{SignalAction, SignalHandler, UnixSignal};
pub use stdin::{StdinAction, StdinHandler, StdinInput};
pub use subsystem::{LocalShutdown, MonitorAction, MonitorEvent, SpawnPlan, Subsystem};
pub use wait::ShutdownWait;
