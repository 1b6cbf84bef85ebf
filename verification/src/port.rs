//! The sidecar's port: how it is chosen, and how the user interface learns it.

use vstd::prelude::*;
use crate::error::StartupError;

verus! {

/// `portpicker::pick_unused_port` looks for a port that can be bound at the
/// moment of the call, for TCP and UDP, on IPv4 and IPv6. It tries ten ports
/// drawn at random from 15000 to 24999, then up to ten that the operating
/// system proposes, and gives up with `None` when none of them was free.
/// Which port it returns depends on chance and on the state of the machine,
/// so nothing is claimed of the result. It takes no argument, and it panics
/// only where the operating system cannot seed the random number generator.
pub assume_specification[ portpicker::pick_unused_port ]() -> (probe: Option<portpicker::Port>)
;

/// What startup makes of a probe for a free port: the port, where one was
/// found, and otherwise the failure [`StartupError::NoFreePort`].
pub open spec fn allocation(probe: Option<u16>) -> Result<u16, StartupError> {
    match probe {
        Some(port) => Ok(port),
        None => Err(StartupError::NoFreePort),
    }
}

/// Turns the outcome of a probe for a free port into the outcome of port
/// allocation. A probe that found nothing is fatal: there is no retry.
pub fn port_from_probe(probe: Option<u16>) -> (allocated: Result<u16, StartupError>)
    ensures
        allocated == allocation(probe),
{
    match probe {
        Some(port) => Ok(port),
        None => Err(StartupError::NoFreePort),
    }
}

/// Finds a free TCP port for the sidecar.
///
/// Probes the operating system once. Whatever the probe brings back decides
/// the outcome as [`port_from_probe`] says: the only way to fail is
/// [`StartupError::NoFreePort`].
pub fn find_free_port() -> (allocated: Result<u16, StartupError>)
    ensures
        allocated matches Err(e) ==> e == StartupError::NoFreePort,
{
    let probe = portpicker::pick_unused_port();
    port_from_probe(probe)
}

/// Holds the sidecar's port so that the user interface can query it.
///
/// The port is set when the value is made and never changes afterwards.
#[derive(Clone, Copy, Debug, PartialEq, Eq, Structural)]
pub struct ApiPort {
    port: u16,
}

impl View for ApiPort {
    type V = u16;

    closed spec fn view(&self) -> u16 {
        self.port
    }
}

impl ApiPort {
    /// Stores an allocated port.
    pub fn new(port: u16) -> (state: ApiPort)
        ensures
            state@ == port,
    {
        ApiPort { port }
    }
}

/// Returns the sidecar's port to the user interface.
///
/// A plain read: the state is left as it is, so every call on the same state
/// returns the same port.
pub fn get_api_port(state: &ApiPort) -> (port: u16)
    ensures
        port == state@,
{
    state.port
}

} // verus!
