//! Supervision of one long-running sidecar process: choosing its network
//! port, tracking whether it runs, relaying its output as events, and
//! interpreting the probes made for an external command-line tool.
//!
//! Everything here is a pure decision: the caller performs the outside work
//! (spawning, killing, waiting, publishing) and reports what happened.

pub mod bridge;
pub mod cli;
pub mod launch;
pub mod lifecycle;
pub mod port;
pub mod supervisor;
pub mod text;

pub use bridge::BackendEvent;
pub use bridge::BridgeAction;
pub use bridge::EventBridge;
pub use bridge::SidecarEvent;
pub use cli::CLIStatus;
pub use cli::Probe;
pub use cli::ProbeOutput;
pub use cli::Tool;
pub use launch::LaunchPlan;
pub use lifecycle::BackendStatus;
pub use lifecycle::StartDecision;
pub use port::PortAllocator;
pub use supervisor::ProcessSupervisor;
pub use supervisor::SpawnOutcome;
pub use supervisor::SupervisorError;
