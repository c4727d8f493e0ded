//! The port that a daemon listens on.

use vstd::prelude::*;
use crate::error::{LaunchError, LaunchErrorView};

verus! {

/// A TCP or UDP port.
pub type Port = u16;

/// Calls `portpicker::pick_unused_port`, which tries ports at random, then
/// asks the operating system, and gives up after that. Which port comes back,
/// and whether any does, depends on chance and on the machine: nothing is
/// claimed of the result.
#[verifier::external_body]
fn probe_unused_port() -> (port: Option<Port>) {
    portpicker::pick_unused_port()
}

/// The port for a daemon: the one that the caller fixed, as it is; else the
/// one that was found free; and an error where none was.
pub open spec fn spec_choose_port(fixed: Option<Port>, found: Option<Port>) -> Result<
    Port,
    LaunchErrorView,
> {
    match fixed {
        Some(port) => Ok(port),
        None => match found {
            Some(port) => Ok(port),
            None => Err(LaunchErrorView::NoFreePort),
        },
    }
}

/// The view of a port or the error in its place.
pub open spec fn port_view(result: Result<Port, LaunchError>) -> Result<Port, LaunchErrorView> {
    match result {
        Ok(port) => Ok(port),
        Err(error) => Err(error@),
    }
}

/// The port for a daemon, given what was fixed and what was found free.
pub fn choose_port(fixed: Option<Port>, found: Option<Port>) -> (result: Result<Port, LaunchError>)
    ensures
        port_view(result) == spec_choose_port(fixed, found),
{
    match fixed {
        Some(port) => Ok(port),
        None => match found {
            Some(port) => Ok(port),
            None => Err(LaunchError::NoFreePort),
        },
    }
}

/// The port for a daemon. A fixed port is taken as it is, and no port is
/// looked for; without one, a free port is looked for on this machine.
pub fn pick_unused_port(fixed_port: Option<Port>) -> (result: Result<Port, LaunchError>)
    ensures
        exists|found: Option<Port>| port_view(result) == spec_choose_port(fixed_port, found),
        fixed_port is Some ==> port_view(result) == Ok::<Port, LaunchErrorView>(fixed_port->0),
{
    let found = match fixed_port {
        Some(_) => None,
        None => probe_unused_port(),
    };
    let result = choose_port(fixed_port, found);
    assert(port_view(result) == spec_choose_port(fixed_port, found));
    result
}

} // verus!
