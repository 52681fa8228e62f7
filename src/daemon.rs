//! Decisions of the daemon outside any one connection: the root check at
//! startup, the permissions of the socket, the accept loop and the
//! supervision of the launching process.

use vstd::prelude::*;
use crate::connection::{Frame, Phase, live_frame, spec_step};
use crate::protocol::Request;

verus! {

/// Why the daemon refuses to start.
#[derive(Clone, Copy, Debug, PartialEq, Eq, Structural)]
pub enum StartupError {
    /// The daemon was not started as root.
    NotRoot,
}

/// The daemon runs only as root (uid 0).
pub fn check_root(uid: u32) -> (r: Result<(), StartupError>)
    ensures
        r is Ok <==> uid == 0,
        r is Err ==> r == Err::<(), StartupError>(StartupError::NotRoot),
{
    if uid == 0 {
        Ok(())
    } else {
        Err(StartupError::NotRoot)
    }
}

pub const MODE_OWNER_ONLY: u32 = 0o600;
pub const MODE_OWNER_AND_GROUP: u32 = 0o660;
pub const MODE_EVERYONE: u32 = 0o666;

pub open spec fn spec_socket_mode(effective_uid: Option<u32>, group_assigned: bool) -> u32 {
    match effective_uid {
        None => MODE_OWNER_ONLY,
        Some(_) => if group_assigned {
            MODE_OWNER_AND_GROUP
        } else {
            MODE_EVERYONE
        },
    }
}

/// File mode of the socket after binding. Without an effective uid only
/// root may connect. With one, the socket's group is set to that user's
/// primary group (`group_assigned` says whether resolving the group and
/// changing the owner worked): group members may connect, and if that failed
/// everyone may.
pub fn socket_mode(effective_uid: Option<u32>, group_assigned: bool) -> (r: u32)
    ensures
        r == spec_socket_mode(effective_uid, group_assigned),
{
    match effective_uid {
        None => MODE_OWNER_ONLY,
        Some(_) => if group_assigned {
            MODE_OWNER_AND_GROUP
        } else {
            MODE_EVERYONE
        },
    }
}

/// Interval of the accept loop's check of the shutdown flag.
pub const SHUTDOWN_POLL_MS: u64 = 100;

/// Interval of the check that the launching process still runs.
pub const PARENT_POLL_MS: u64 = 2000;

/// What woke the accept loop.
#[derive(Clone, Copy, Debug, PartialEq, Eq, Structural)]
pub enum LoopEvent {
    /// A client connected.
    Accepted,
    /// Accepting failed.
    AcceptFailed,
    /// The periodic tick.
    Tick,
    /// The runtime's interrupt signal arrived.
    Interrupt,
}

/// What the accept loop does next.
#[derive(Clone, Copy, Debug, PartialEq, Eq, Structural)]
pub enum LoopAction {
    /// Hand the new connection to a task of its own.
    Serve,
    /// Wait for the next event.
    Continue,
    /// Stop accepting and remove the socket file.
    Stop,
}

#[derive(Clone, Copy, Debug, PartialEq, Eq, Structural)]
pub struct LoopDecision {
    pub action: LoopAction,
    /// Raise the daemon-wide shutdown flag.
    pub raise_shutdown: bool,
}

pub open spec fn spec_accept_step(shutdown_requested: bool, event: LoopEvent) -> LoopDecision {
    if event == LoopEvent::Interrupt {
        LoopDecision { action: LoopAction::Stop, raise_shutdown: true }
    } else if shutdown_requested {
        LoopDecision { action: LoopAction::Stop, raise_shutdown: false }
    } else if event == LoopEvent::Accepted {
        LoopDecision { action: LoopAction::Serve, raise_shutdown: false }
    } else {
        LoopDecision { action: LoopAction::Continue, raise_shutdown: false }
    }
}

/// The accept loop's answer to an event, given the shutdown flag as read
/// when the event came. Once the flag is up no connection is served.
pub fn accept_step(shutdown_requested: bool, event: LoopEvent) -> (r: LoopDecision)
    ensures
        r == spec_accept_step(shutdown_requested, event),
{
    match event {
        LoopEvent::Interrupt => LoopDecision { action: LoopAction::Stop, raise_shutdown: true },
        _ => {
            if shutdown_requested {
                LoopDecision { action: LoopAction::Stop, raise_shutdown: false }
            } else {
                match event {
                    LoopEvent::Accepted => LoopDecision { action: LoopAction::Serve, raise_shutdown: false },
                    _ => LoopDecision { action: LoopAction::Continue, raise_shutdown: false },
                }
            }
        },
    }
}

/// What the parent monitor does after one check.
#[derive(Clone, Copy, Debug, PartialEq, Eq, Structural)]
pub enum MonitorAction {
    /// Check again after the interval.
    KeepWatching,
    /// Raise the shutdown flag and stop watching.
    RequestShutdown,
}

pub open spec fn spec_monitor_step(parent_alive: bool) -> MonitorAction {
    if parent_alive {
        MonitorAction::KeepWatching
    } else {
        MonitorAction::RequestShutdown
    }
}

/// The parent monitor's answer to one liveness check.
pub fn monitor_step(parent_alive: bool) -> (r: MonitorAction)
    ensures
        r == spec_monitor_step(parent_alive),
{
    if parent_alive {
        MonitorAction::KeepWatching
    } else {
        MonitorAction::RequestShutdown
    }
}

/// When the launching process is gone, the monitor raises the shutdown flag,
/// and from then on every event of the accept loop, a tick included, stops
/// the loop and removes the socket: no new connection is served.
pub proof fn lemma_parent_death_stops_daemon(event: LoopEvent)
    ensures
        spec_monitor_step(false) == MonitorAction::RequestShutdown,
        spec_accept_step(true, event).action == LoopAction::Stop,
        spec_accept_step(true, LoopEvent::Tick).action == LoopAction::Stop,
{
}

/// A `Shutdown` request raises the shutdown flag, after which the accept loop
/// stops at its next event and removes the socket.
pub proof fn lemma_shutdown_request_stops_daemon(event: LoopEvent)
    ensures
        spec_step(Phase::AwaitingMessage, live_frame(Frame::Message(Request::Shutdown))).1.request_shutdown,
        spec_accept_step(true, event).action == LoopAction::Stop,
{
}

} // verus!
