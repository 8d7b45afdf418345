//! How the sidecar is launched: its program, its arguments, and how long a
//! caller waits for it to come up.

use vstd::prelude::*;
use vstd::string::*;
use crate::port::is_assignable;
use crate::port::PortAllocator;
use crate::text::decimal;
use crate::text::decimal_text;

verus! {

/// Seconds that a start request waits after the sidecar was spawned, before
/// the caller is given the port. Nothing is probed: the wait is blind.
pub const READINESS_DELAY_SECS: u64 = 2;

/// Everything needed to spawn the sidecar.
#[derive(Debug, PartialEq, Eq)]
pub struct LaunchPlan {
    /// Name of the sidecar program.
    pub program: String,
    /// Its command-line arguments.
    pub arguments: Vec<String>,
    /// The port that the arguments tell it to bind.
    pub port: u16,
}

/// A [`LaunchPlan`] over plain values.
pub struct LaunchPlanView {
    pub program: Seq<char>,
    pub arguments: Seq<Seq<char>>,
    pub port: u16,
}

impl View for LaunchPlan {
    type V = LaunchPlanView;

    open spec fn view(&self) -> LaunchPlanView {
        LaunchPlanView {
            program: self.program@,
            arguments: self.arguments.deep_view(),
            port: self.port,
        }
    }
}

/// The launch of the sidecar on `port`: the program is `python-backend`,
/// called with `--port` and the port in decimal.
pub open spec fn sidecar_launch(port: u16) -> LaunchPlanView {
    LaunchPlanView {
        program: "python-backend"@,
        arguments: seq!["--port"@, decimal(port as nat)],
        port,
    }
}

/// The plan to launch the sidecar on `port`.
pub fn launch_plan_for(port: u16) -> (plan: LaunchPlan)
    ensures
        plan@ == sidecar_launch(port),
{
    let mut arguments: Vec<String> = Vec::new();
    arguments.push(String::from_str("--port"));
    arguments.push(decimal_text(port));
    assert(arguments.deep_view() =~= seq!["--port"@, decimal(port as nat)]);
    LaunchPlan { program: String::from_str("python-backend"), arguments, port }
}

/// Picks a port and plans the launch of the sidecar on it. Which port is
/// picked depends on the machine; it is assignable in every case, and the
/// plan is the one for that port.
pub fn plan_launch() -> (plan: LaunchPlan)
    ensures
        is_assignable(plan.port),
        plan@ == sidecar_launch(plan.port),
{
    let port: u16 = PortAllocator::pick();
    launch_plan_for(port)
}

} // verus!
