//! Decision logic behind the one-shot command surface: each non-interactive
//! command performs exactly one scan-or-kill-or-config operation, and the
//! decisions it takes on the returned values live here, verified.

use vstd::prelude::*;

use crate::port_info::PortInfo;
use crate::port_info::WatchedPort;
use crate::port_info::watched_contains_port;
use crate::port_filter::watched_slice_contains;

verus! {

/// The index of the first record bound to `port`, if any: the record a kill
/// command targets.
pub fn find_port(ports: &[PortInfo], port: u16) -> (r: Option<usize>)
    ensures
        (r matches Some(i) ==> i < ports@.len() && ports@[i as int].port == port && forall|j: int|
            0 <= j < i ==> ports@[j].port != port),
        r is None ==> forall|j: int| 0 <= j < ports@.len() ==> ports@[j].port != port,
{
    let mut i: usize = 0;
    while i < ports.len()
        invariant
            i <= ports@.len(),
            forall|j: int| 0 <= j < i ==> ports@[j].port != port,
        decreases ports@.len() - i,
    {
        if ports[i].port == port {
            return Some(i);
        }
        i += 1;
    }
    None
}

/// What a watch-add command should do for a port, given the current watched
/// snapshot and the requested notification settings.
#[derive(Clone, Copy, PartialEq, Eq, Structural, Debug)]
pub enum WatchAddPlan {
    /// The port is already watched: report so and change nothing.
    AlreadyWatched,
    /// Add the port; additionally update the notification settings when they
    /// differ from the defaults (both on).
    Add { adjust_notifications: bool },
}

/// Decides a watch-add command.
pub fn plan_watch_add(watched: &[WatchedPort], port: u16, on_start: bool, on_stop: bool) -> (r:
    WatchAddPlan)
    ensures
        watched_contains_port(watched@, port) ==> r is AlreadyWatched,
        !watched_contains_port(watched@, port) ==> r == (WatchAddPlan::Add {
            adjust_notifications: !on_start || !on_stop,
        }),
{
    if watched_slice_contains(watched, port) {
        WatchAddPlan::AlreadyWatched
    } else {
        WatchAddPlan::Add { adjust_notifications: !on_start || !on_stop }
    }
}

} // verus!
