//! The supervisor's shared record and the steps taken on it.
//!
//! The record is meant to live behind one lock. Each method is one short
//! critical section: it decides and records, and leaves spawning, killing
//! and waiting to the caller, who does them with the lock released.

use vstd::prelude::*;
use crate::lifecycle::BackendStatus;
use crate::lifecycle::Lifecycle;
use crate::lifecycle::StartDecision;
use crate::port::DEFAULT_PORT;
use crate::text::joined;

verus! {

/// How spawning the sidecar went, as reported by the caller that was told to
/// launch it.
pub enum SpawnOutcome<H> {
    /// The sidecar runs; this is its process handle.
    Launched(H),
    /// The sidecar's command could not be set up.
    CommandUnavailable(String),
    /// The sidecar's command was set up and could not be spawned.
    SpawnRefused(String),
}

/// Why a start or a stop failed. Each holds the reason given by the
/// operating system or the host.
#[derive(Debug, PartialEq, Eq)]
pub enum SupervisorError {
    /// The sidecar's command could not be set up.
    SidecarCommand(String),
    /// The sidecar could not be spawned.
    Spawn(String),
    /// The sidecar could not be killed.
    Kill(String),
}

/// A [`SupervisorError`] with its reason as plain text.
pub enum SupervisorErrorView {
    SidecarCommand(Seq<char>),
    Spawn(Seq<char>),
    Kill(Seq<char>),
}

impl View for SupervisorError {
    type V = SupervisorErrorView;

    open spec fn view(&self) -> SupervisorErrorView {
        match *self {
            SupervisorError::SidecarCommand(reason) => SupervisorErrorView::SidecarCommand(
                reason@,
            ),
            SupervisorError::Spawn(reason) => SupervisorErrorView::Spawn(reason@),
            SupervisorError::Kill(reason) => SupervisorErrorView::Kill(reason@),
        }
    }
}

/// The message that a caller is shown for `error`.
pub open spec fn message_of(error: SupervisorErrorView) -> Seq<char> {
    match error {
        SupervisorErrorView::SidecarCommand(reason) => "Failed to create sidecar command: "@
            + reason,
        SupervisorErrorView::Spawn(reason) => "Failed to spawn sidecar: "@ + reason,
        SupervisorErrorView::Kill(reason) => "Failed to kill backend: "@ + reason,
    }
}

impl SupervisorError {
    /// The message that a caller is shown.
    pub fn message(&self) -> (text: String)
        ensures
            text@ == message_of(self@),
    {
        match self {
            SupervisorError::SidecarCommand(reason) => joined(
                "Failed to create sidecar command: ",
                reason.as_str(),
            ),
            SupervisorError::Spawn(reason) => joined("Failed to spawn sidecar: ", reason.as_str()),
            SupervisorError::Kill(reason) => joined("Failed to kill backend: ", reason.as_str()),
        }
    }
}

/// What the caller reports back after a start attempt, and what becomes of
/// it: the error that the start request ends with, if spawning failed.
pub open spec fn spawn_error<H>(outcome: SpawnOutcome<H>) -> Option<SupervisorErrorView> {
    match outcome {
        SpawnOutcome::Launched(handle) => None,
        SpawnOutcome::CommandUnavailable(reason) => Some(
            SupervisorErrorView::SidecarCommand(reason@),
        ),
        SpawnOutcome::SpawnRefused(reason) => Some(SupervisorErrorView::Spawn(reason@)),
    }
}

/// The state after the caller reported `outcome` of spawning on `port`.
pub open spec fn after_spawn<H>(state: Lifecycle<H>, port: u16, outcome: SpawnOutcome<H>)
    -> Lifecycle<H> {
    match outcome {
        SpawnOutcome::Launched(handle) => state.after_launch(port, handle),
        _ => state.after_failed_start(),
    }
}

/// The supervisor's record of its sidecar: the process handle, the port and
/// whether it runs. `H` is the type of the process handle, which the
/// supervisor keeps and hands back and never looks into.
pub struct ProcessSupervisor<H> {
    child: Option<H>,
    port: u16,
    running: bool,
    starting: bool,
}

impl<H> View for ProcessSupervisor<H> {
    type V = Lifecycle<H>;

    closed spec fn view(&self) -> Lifecycle<H> {
        Lifecycle {
            handle: self.child,
            port: self.port,
            running: self.running,
            starting: self.starting,
        }
    }
}

impl<H> ProcessSupervisor<H> {
    /// A supervisor with no sidecar, on the default port.
    pub fn new() -> (supervisor: Self)
        ensures
            supervisor@ == Lifecycle::<H>::initial(),
            supervisor@.wf(),
    {
        ProcessSupervisor { child: None, port: DEFAULT_PORT, running: false, starting: false }
    }

    /// Whether a sidecar runs, and the port last assigned.
    pub fn status(&self) -> (status: BackendStatus)
        ensures
            status == self@.status(),
    {
        BackendStatus { running: self.running, port: self.port }
    }

    /// The port last assigned to a sidecar, or the default before the first.
    pub fn port(&self) -> (port: u16)
        ensures
            port == self@.port,
    {
        self.port
    }

    /// Answers a start request. A running sidecar's port is handed out as it
    /// is. A stopped supervisor notes the attempt and tells this caller, and
    /// no other until the attempt has ended, to launch the sidecar and then
    /// to call [`Self::finish_start`].
    pub fn begin_start(&mut self) -> (decision: StartDecision)
        ensures
            decision == old(self)@.start_decision(),
            final(self)@ == old(self)@.after_begin_start(),
            old(self)@.wf() ==> final(self)@.wf(),
    {
        if self.running {
            StartDecision::AlreadyRunning(self.port)
        } else if self.starting {
            StartDecision::InProgress
        } else {
            self.starting = true;
            StartDecision::Launch
        }
    }

    /// Ends a start attempt. A spawned sidecar's handle and port are
    /// recorded and the port is returned. After a failure the attempt is
    /// dropped, handle, port and running flag stay as they were, and the
    /// error says what failed.
    pub fn finish_start(&mut self, port: u16, outcome: SpawnOutcome<H>) -> (result: Result<
        u16,
        SupervisorError,
    >)
        ensures
            final(self)@ == after_spawn(old(self)@, port, outcome),
            match result {
                Ok(committed) => outcome is Launched && committed == port,
                Err(error) => spawn_error(outcome) == Some(error@),
            },
            old(self)@.wf() ==> final(self)@.wf(),
    {
        match outcome {
            SpawnOutcome::Launched(handle) => {
                self.child = Some(handle);
                self.port = port;
                self.running = true;
                self.starting = false;
                Ok(port)
            },
            SpawnOutcome::CommandUnavailable(reason) => {
                self.starting = false;
                Err(SupervisorError::SidecarCommand(reason))
            },
            SpawnOutcome::SpawnRefused(reason) => {
                self.starting = false;
                Err(SupervisorError::Spawn(reason))
            },
        }
    }

    /// Gives up the sidecar's handle, for the caller to kill the process,
    /// and marks the sidecar as not running whether or not there was one.
    pub fn stop(&mut self) -> (handle: Option<H>)
        ensures
            handle == old(self)@.handle,
            final(self)@ == old(self)@.after_stop(),
            !final(self)@.running,
            old(self)@.wf() ==> final(self)@.wf(),
    {
        let handle: Option<H> = self.child.take();
        self.running = false;
        handle
    }

    /// Records that the sidecar exited on its own: its handle is dropped and
    /// it no longer counts as running.
    pub fn note_terminated(&mut self)
        ensures
            final(self)@ == old(self)@.after_exit(),
            !final(self)@.running,
            old(self)@.wf() ==> final(self)@.wf(),
    {
        self.child = None;
        self.running = false;
    }
}

impl<H> Default for ProcessSupervisor<H> {
    fn default() -> (supervisor: Self)
        ensures
            supervisor@ == Lifecycle::<H>::initial(),
    {
        ProcessSupervisor::new()
    }
}

/// What a stop request ends with, given how killing the sidecar went. The
/// supervisor's record is reset before the kill and stays so either way.
pub fn kill_report(outcome: Result<(), String>) -> (result: Result<(), SupervisorError>)
    ensures
        match outcome {
            Ok(done) => result is Ok,
            Err(reason) => result is Err && result->Err_0@ == SupervisorErrorView::Kill(reason@),
        },
{
    match outcome {
        Ok(done) => Ok(()),
        Err(reason) => Err(SupervisorError::Kill(reason)),
    }
}

} // verus!
