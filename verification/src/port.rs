//! Choice of the network port that the sidecar is told to bind.

use vstd::prelude::*;

verus! {

/// Port used when no free port could be found.
pub const DEFAULT_PORT: u16 = 8000;

/// Lowest port that is ever handed to the sidecar: everything below is
/// reserved for system services, and zero is no port at all.
pub const LOWEST_ASSIGNABLE_PORT: u16 = 1024;

/// Whether `port` may be handed to the sidecar.
pub open spec fn is_assignable(port: u16) -> bool {
    port >= LOWEST_ASSIGNABLE_PORT
}

/// The port that results from one allocation attempt: the candidate when
/// there is one and it is assignable, the default otherwise.
pub open spec fn settled_port(candidate: Option<u16>) -> u16 {
    match candidate {
        Some(port) => if is_assignable(port) {
            port
        } else {
            DEFAULT_PORT
        },
        None => DEFAULT_PORT,
    }
}

/// Settles an allocation attempt. A missing or unusable candidate counts as
/// a failed allocation and yields [`DEFAULT_PORT`].
pub fn port_or_default(candidate: Option<u16>) -> (port: u16)
    ensures
        port == settled_port(candidate),
{
    match candidate {
        Some(port) => {
            if port >= LOWEST_ASSIGNABLE_PORT {
                port
            } else {
                DEFAULT_PORT
            }
        },
        None => DEFAULT_PORT,
    }
}

/// Calls `portpicker::pick_unused_port`, which probes the machine for a port
/// that is free on TCP and UDP. The outcome depends on chance and on the
/// machine, so nothing is claimed of it.
#[verifier::external_body]
fn probe_unused_port() -> (candidate: Option<u16>) {
    portpicker::pick_unused_port()
}

/// Picks ports for the sidecar.
pub struct PortAllocator {}

impl PortAllocator {
    /// Looks for an unused port and falls back to [`DEFAULT_PORT`] when none
    /// is found. Whatever the probe reports, the result is assignable.
    pub fn pick() -> (port: u16)
        ensures
            is_assignable(port),
            port != 0,
    {
        let candidate: Option<u16> = probe_unused_port();
        port_or_default(candidate)
    }
}

/// A settled port is never zero and never below the assignable range; it is
/// the candidate itself or the default.
pub proof fn law_settled_port_in_range(candidate: Option<u16>)
    ensures
        is_assignable(settled_port(candidate)),
        settled_port(candidate) != 0,
        LOWEST_ASSIGNABLE_PORT <= settled_port(candidate) <= u16::MAX,
        settled_port(candidate) == DEFAULT_PORT || candidate == Some(settled_port(candidate)),
        candidate is None ==> settled_port(candidate) == DEFAULT_PORT,
{
}

} // verus!
