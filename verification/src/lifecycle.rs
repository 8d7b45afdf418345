//! The life cycle of the sidecar as a state machine over plain values.
//!
//! A [`Lifecycle`] is what the supervisor knows at one moment. Each step that
//! the supervisor takes under its lock is a function from one `Lifecycle` to
//! the next. The laws at the end of the file speak of single steps and of
//! whole interleavings of steps.

use vstd::prelude::*;
use crate::port::DEFAULT_PORT;

verus! {

/// What a status query reports.
#[derive(Clone, Copy, Debug, PartialEq, Eq, Structural)]
pub struct BackendStatus {
    pub running: bool,
    pub port: u16,
}

/// The answer to a caller that asks for the sidecar to be started.
#[derive(Clone, Copy, Debug, PartialEq, Eq, Structural)]
pub enum StartDecision {
    /// The sidecar runs already and listens on this port. Nothing is spawned.
    AlreadyRunning(u16),
    /// The caller holds the only start attempt: it spawns the sidecar and
    /// reports how that went.
    Launch,
    /// Another caller's start attempt is under way: wait and ask again.
    InProgress,
}

/// Where the supervisor stands. A stop and an exit lead from running to
/// stopped in one step: the record is reset in the same critical section
/// that gives up the handle, so nothing in between is ever seen.
#[derive(Clone, Copy, Debug, PartialEq, Eq, Structural)]
pub enum Phase {
    /// No sidecar runs and none is being started.
    Stopped,
    /// One caller is spawning the sidecar.
    Starting,
    /// The sidecar runs and its handle is held.
    Running,
}

/// What the supervisor knows at one moment.
pub struct Lifecycle<H> {
    /// The running sidecar's process handle.
    pub handle: Option<H>,
    /// The port last given to a sidecar, or the default before the first.
    pub port: u16,
    /// Whether a sidecar is believed to run.
    pub running: bool,
    /// Whether a start attempt is under way.
    pub starting: bool,
}

impl<H> Lifecycle<H> {
    /// A sidecar counts as running exactly while its handle is held, and no
    /// start attempt is under way while one runs.
    pub open spec fn wf(self) -> bool {
        &&& self.running <==> self.handle is Some
        &&& self.starting ==> !self.running
    }

    /// The state at initialization: stopped, on the default port.
    pub open spec fn initial() -> Self {
        Lifecycle { handle: None, port: DEFAULT_PORT, running: false, starting: false }
    }

    /// Where the supervisor stands.
    pub open spec fn phase(self) -> Phase {
        if self.running {
            Phase::Running
        } else if self.starting {
            Phase::Starting
        } else {
            Phase::Stopped
        }
    }

    /// What a status query reports.
    pub open spec fn status(self) -> BackendStatus {
        BackendStatus { running: self.running, port: self.port }
    }

    /// What a caller who asks for a start is told.
    pub open spec fn start_decision(self) -> StartDecision {
        match self.phase() {
            Phase::Running => StartDecision::AlreadyRunning(self.port),
            Phase::Starting => StartDecision::InProgress,
            Phase::Stopped => StartDecision::Launch,
        }
    }

    /// The state after a caller asked for a start: a stopped supervisor
    /// notes the attempt, any other is left as it is.
    pub open spec fn after_begin_start(self) -> Self {
        if self.phase() == Phase::Stopped {
            Lifecycle { starting: true, ..self }
        } else {
            self
        }
    }

    /// The state after the sidecar was spawned on `port`.
    pub open spec fn after_launch(self, port: u16, handle: H) -> Self {
        Lifecycle { handle: Some(handle), port, running: true, starting: false }
    }

    /// The state after a start attempt failed.
    pub open spec fn after_failed_start(self) -> Self {
        Lifecycle { starting: false, ..self }
    }

    /// The state after a stop request: the handle is given up and the
    /// sidecar no longer counts as running. The port is kept.
    pub open spec fn after_stop(self) -> Self {
        Lifecycle { handle: None, running: false, ..self }
    }

    /// The state after the sidecar was seen to exit on its own.
    pub open spec fn after_exit(self) -> Self {
        Lifecycle { handle: None, running: false, ..self }
    }
}

/// One step taken on the supervisor's record, under its lock.
pub enum Step<H> {
    /// A caller asks for a start.
    BeginStart,
    /// The caller that was told to launch reports the spawned sidecar.
    Launched { port: u16, handle: H },
    /// The caller that was told to launch reports that spawning failed.
    StartFailed,
    /// A caller asks for a stop.
    Stop,
    /// The event bridge reports that the sidecar exited on its own.
    Exit,
}

impl<H> Step<H> {
    /// Whether the step is part of a start request.
    pub open spec fn of_start(self) -> bool {
        self is BeginStart || self is Launched || self is StartFailed
    }
}

/// Whether `steps` are those of start requests alone: nobody asks for a
/// stop and the sidecar does not exit.
pub open spec fn only_starts<H>(steps: Seq<Step<H>>) -> bool {
    forall|i: int| 0 <= i < steps.len() ==> (#[trigger] steps[i]).of_start()
}

impl<H> Lifecycle<H> {
    /// The state after one step.
    pub open spec fn after_step(self, step: Step<H>) -> Self {
        match step {
            Step::BeginStart => self.after_begin_start(),
            Step::Launched { port, handle } => self.after_launch(port, handle),
            Step::StartFailed => self.after_failed_start(),
            Step::Stop => self.after_stop(),
            Step::Exit => self.after_exit(),
        }
    }

    /// Whether `step` can occur now: only the caller that was told to launch
    /// reports an outcome, so an outcome needs an attempt under way. Every
    /// other step can occur at any time.
    pub open spec fn permits(self, step: Step<H>) -> bool {
        step is Launched || step is StartFailed ==> self.phase() == Phase::Starting
    }

    /// The port that `step` makes known to the caller who took it, if any.
    pub open spec fn reports(self, step: Step<H>) -> Option<u16> {
        match step {
            Step::BeginStart => match self.start_decision() {
                StartDecision::AlreadyRunning(port) => Some(port),
                _ => None,
            },
            Step::Launched { port, handle } => Some(port),
            _ => None,
        }
    }

    /// The state after `steps`, taken in order.
    pub open spec fn after_all(self, steps: Seq<Step<H>>) -> Self
        decreases steps.len(),
    {
        if steps.len() == 0 {
            self
        } else {
            self.after_step(steps[0]).after_all(steps.drop_first())
        }
    }

    /// Whether each of `steps` can occur when its turn comes.
    pub open spec fn permits_all(self, steps: Seq<Step<H>>) -> bool
        decreases steps.len(),
    {
        steps.len() > 0 ==> self.permits(steps[0]) && self.after_step(steps[0]).permits_all(
            steps.drop_first(),
        )
    }

    /// How many callers are told to launch in the course of `steps`.
    pub open spec fn launch_grants(self, steps: Seq<Step<H>>) -> nat
        decreases steps.len(),
    {
        if steps.len() == 0 {
            0
        } else {
            let granted: nat = if steps[0] is BeginStart && self.start_decision()
                == StartDecision::Launch {
                1
            } else {
                0
            };
            granted + self.after_step(steps[0]).launch_grants(steps.drop_first())
        }
    }

    /// The ports made known to callers in the course of `steps`, in order.
    pub open spec fn reported_ports(self, steps: Seq<Step<H>>) -> Seq<u16>
        decreases steps.len(),
    {
        if steps.len() == 0 {
            Seq::empty()
        } else {
            let rest = self.after_step(steps[0]).reported_ports(steps.drop_first());
            match self.reports(steps[0]) {
                Some(port) => seq![port] + rest,
                None => rest,
            }
        }
    }
}

/// How many sidecars `steps` spawn.
pub open spec fn spawned<H>(steps: Seq<Step<H>>) -> nat
    decreases steps.len(),
{
    if steps.len() == 0 {
        0
    } else {
        let one: nat = if steps[0] is Launched {
            1
        } else {
            0
        };
        one + spawned(steps.drop_first())
    }
}

/// How many spawn failures `steps` report.
pub open spec fn failures<H>(steps: Seq<Step<H>>) -> nat
    decreases steps.len(),
{
    if steps.len() == 0 {
        0
    } else {
        let one: nat = if steps[0] is StartFailed {
            1
        } else {
            0
        };
        one + failures(steps.drop_first())
    }
}

/// The count that stands for a flag.
pub open spec fn count(flag: bool) -> nat {
    if flag {
        1
    } else {
        0
    }
}

/// The initial state is well formed, and every step keeps a well-formed
/// state well formed.
pub proof fn law_steps_keep_well_formed<H>(state: Lifecycle<H>, port: u16, handle: H)
    requires
        state.wf(),
    ensures
        Lifecycle::<H>::initial().wf(),
        Lifecycle::<H>::initial().phase() == Phase::Stopped,
        state.after_begin_start().wf(),
        state.after_launch(port, handle).wf(),
        state.after_failed_start().wf(),
        state.after_stop().wf(),
        state.after_exit().wf(),
{
}

/// Whatever steps are taken, in whatever order, a well-formed state stays
/// well formed: so every state that a supervisor reaches from its initial
/// one.
pub proof fn law_reachable_states_are_well_formed<H>(state: Lifecycle<H>, steps: Seq<Step<H>>)
    requires
        state.wf(),
    ensures
        state.after_all(steps).wf(),
        Lifecycle::<H>::initial().after_all(steps).wf(),
    decreases steps.len(),
{
    if steps.len() > 0 {
        law_reachable_states_are_well_formed(state.after_step(steps[0]), steps.drop_first());
        law_reachable_states_are_well_formed(
            Lifecycle::<H>::initial().after_step(steps[0]),
            steps.drop_first(),
        );
    }
}

/// The phases follow one another as the state machine says: a start leads
/// from stopped over starting to running, or back to stopped when spawning
/// fails; a stop or an exit leads from running to stopped.
pub proof fn law_phase_transitions<H>(state: Lifecycle<H>, port: u16, handle: H)
    requires
        state.wf(),
    ensures
        state.phase() == Phase::Stopped ==> state.after_begin_start().phase() == Phase::Starting,
        state.phase() != Phase::Stopped ==> state.after_begin_start() == state,
        state.after_launch(port, handle).phase() == Phase::Running,
        state.phase() == Phase::Starting ==> state.after_failed_start().phase() == Phase::Stopped,
        state.phase() == Phase::Running ==> state.after_stop().phase() == Phase::Stopped,
        state.phase() == Phase::Running ==> state.after_exit().phase() == Phase::Stopped,
        state.phase() != Phase::Running ==> state.after_stop() == state,
        state.phase() != Phase::Running ==> state.after_exit() == state,
{
}

/// The port changes only when a sidecar is spawned: asking for a start, a
/// failed start, a stop and an exit all leave it as it was.
pub proof fn law_port_changes_only_on_launch<H>(state: Lifecycle<H>, port: u16, handle: H)
    ensures
        state.after_begin_start().port == state.port,
        state.after_failed_start().port == state.port,
        state.after_stop().port == state.port,
        state.after_exit().port == state.port,
        state.after_launch(port, handle).port == port,
{
}

/// A start request that finds the sidecar running is answered with the port
/// it runs on and changes nothing.
pub proof fn law_start_while_running<H>(state: Lifecycle<H>)
    requires
        state.running,
    ensures
        state.start_decision() == StartDecision::AlreadyRunning(state.port),
        state.after_begin_start() == state,
{
}

/// After a start from the stopped state has spawned the sidecar on `port`, a
/// second start request is answered with that same port, spawns nothing and
/// leaves the first sidecar's handle in place.
pub proof fn law_second_start_repeats_first<H>(state: Lifecycle<H>, port: u16, handle: H)
    requires
        state.wf(),
        state.phase() == Phase::Stopped,
    ensures
        state.start_decision() == StartDecision::Launch,
        ({
            let first = state.after_begin_start().after_launch(port, handle);
            &&& first.status() == BackendStatus { running: true, port }
            &&& first.start_decision() == StartDecision::AlreadyRunning(port)
            &&& first.after_begin_start() == first
            &&& first.handle == Some(handle)
        }),
{
}

/// A failed start attempt leaves the state as it was before the attempt.
pub proof fn law_failed_start_restores<H>(state: Lifecycle<H>)
    requires
        state.wf(),
        state.phase() == Phase::Stopped,
    ensures
        state.after_begin_start().after_failed_start() == state,
{
}

/// After a stop the sidecar does not count as running, whatever the state
/// was. Where none ran, the stop changes nothing: so on a supervisor that
/// never started one.
pub proof fn law_stop_leaves_stopped<H>(state: Lifecycle<H>)
    ensures
        !state.after_stop().status().running,
        state.after_stop().handle is None,
        state.after_stop().port == state.port,
        state.wf() && !state.running ==> state.after_stop() == state,
        Lifecycle::<H>::initial().after_stop() == Lifecycle::<H>::initial(),
{
}

/// Whatever happened before, once a stop was asked for the sidecar does not
/// count as running, and neither once it was seen to exit.
pub proof fn law_not_running_after_stop_or_exit<H>(state: Lifecycle<H>, steps: Seq<Step<H>>)
    ensures
        !state.after_all(steps.push(Step::Stop)).status().running,
        !state.after_all(steps.push(Step::Exit)).status().running,
    decreases steps.len(),
{
    let stop = steps.push(Step::Stop);
    let exit = steps.push(Step::Exit);
    if steps.len() > 0 {
        assert(stop.drop_first() =~= steps.drop_first().push(Step::Stop));
        assert(exit.drop_first() =~= steps.drop_first().push(Step::Exit));
        law_not_running_after_stop_or_exit(state.after_step(steps[0]), steps.drop_first());
    } else {
        assert(state.after_all(stop) == state.after_stop().after_all(stop.drop_first()));
        assert(state.after_all(exit) == state.after_exit().after_all(exit.drop_first()));
    }
}

/// When the sidecar exits on its own, it no longer counts as running and
/// its port stays known.
pub proof fn law_exit_leaves_stopped<H>(state: Lifecycle<H>)
    ensures
        !state.after_exit().status().running,
        state.after_exit().handle is None,
        state.after_exit().port == state.port,
        state.after_exit().starting == state.starting,
{
}

/// What holds of any interleaving of start attempts, from any well-formed
/// state.
proof fn lemma_start_attempts<H>(state: Lifecycle<H>, steps: Seq<Step<H>>)
    requires
        state.wf(),
        only_starts(steps),
        state.permits_all(steps),
    ensures
        state.running ==> state.after_all(steps) == state,
        spawned(steps) + count(state.running) == count(state.after_all(steps).running),
        state.launch_grants(steps) + count(state.starting) == spawned(steps) + failures(steps)
            + count(state.after_all(steps).starting),
        forall|k: int|
            0 <= k < state.reported_ports(steps).len() ==> #[trigger] state.reported_ports(
                steps,
            )[k] == state.after_all(steps).port,
    decreases steps.len(),
{
    if steps.len() > 0 {
        let next = state.after_step(steps[0]);
        let rest = steps.drop_first();
        assert(steps[0].of_start());
        assert forall|i: int| 0 <= i < rest.len() implies (#[trigger] rest[i]).of_start() by {
            assert(rest[i] == steps[i + 1]);
        }
        lemma_start_attempts(next, rest);
        let tail = next.reported_ports(rest);
        assert forall|k: int| 0 <= k < state.reported_ports(steps).len() implies (
        #[trigger] state.reported_ports(steps)[k]) == state.after_all(steps).port by {
            if let Some(port) = state.reports(steps[0]) {
                // A port is only made known by a state that runs on it or is
                // about to: from there on the state no longer changes.
                assert(next.running && next.port == port);
                if k > 0 {
                    assert(state.reported_ports(steps)[k] == tail[k - 1]);
                }
            }
        }
    }
}

/// However many start requests arrive at a stopped supervisor, and however
/// they interleave, at most one sidecar is spawned, and every port that any
/// caller learns is the one port that the state holds in the end. A caller
/// is told to launch only while no attempt is under way: as long as no
/// spawn fails, one caller is told so and no other.
pub proof fn law_concurrent_starts_spawn_once<H>(state: Lifecycle<H>, steps: Seq<Step<H>>)
    requires
        state.wf(),
        state.phase() == Phase::Stopped,
        only_starts(steps),
        state.permits_all(steps),
    ensures
        spawned(steps) <= 1,
        spawned(steps) == 1 <==> state.after_all(steps).running,
        state.launch_grants(steps) == spawned(steps) + failures(steps) + count(
            state.after_all(steps).starting,
        ),
        failures(steps) == 0 ==> state.launch_grants(steps) <= 1,
        steps.len() > 0 ==> state.launch_grants(steps) >= 1,
        forall|k: int|
            0 <= k < state.reported_ports(steps).len() ==> #[trigger] state.reported_ports(
                steps,
            )[k] == state.after_all(steps).port,
{
    lemma_start_attempts(state, steps);
    law_reachable_states_are_well_formed(state, steps);
}

} // verus!
