//! Waiting for the wireless link: first for the association, then for an
//! address, both under one timeout.

use vstd::prelude::*;

verus! {

/// Pause between two checks of the association, in milliseconds.
pub const LINK_POLL_MS: u32 = 250;

/// Pause between two checks of the address, in milliseconds.
pub const ADDRESS_POLL_MS: u32 = 150;

/// Why the link did not come up.
#[derive(Clone, Copy, Debug, PartialEq, Eq)]
pub enum WifiErr {
    /// The station was not associated in time.
    TimeoutConnect,
    /// The station got no address in time.
    TimeoutIp,
}

/// What the connection attempt waits for.
#[derive(Clone, Copy, Debug, PartialEq, Eq)]
pub enum WifiPhase {
    /// The station is not associated yet.
    Connecting,
    /// The station is associated and has no address yet.
    AwaitingIp,
}

/// What the caller saw. `elapsed_ms` is the time since the attempt began.
#[derive(Clone, Copy, Debug, PartialEq, Eq)]
pub enum WifiEvent {
    /// Whether the station is associated.
    Link { connected: bool, elapsed_ms: u64 },
    /// The station's address.
    Address { ip: [u8; 4], elapsed_ms: u64 },
}

/// What the caller does next.
#[derive(Clone, Copy, Debug, PartialEq, Eq)]
pub enum WifiStep {
    /// Wait, then report whether the station is associated.
    PollLink { wait_ms: u32 },
    /// Wait, then report the station's address.
    PollAddress { wait_ms: u32 },
    /// The attempt is over.
    Done(Result<(), WifiErr>),
}

/// The address 0.0.0.0, which stands for "none yet".
pub open spec fn unassigned(ip: [u8; 4]) -> bool {
    ip@[0] == 0 && ip@[1] == 0 && ip@[2] == 0 && ip@[3] == 0
}

/// The next phase and step of a connection attempt with a timeout of
/// `timeout_ms`. An event that the phase does not wait for has the phase's
/// check repeated at once.
pub open spec fn spec_connect(timeout_ms: u64, phase: WifiPhase, event: WifiEvent) -> (
    WifiPhase,
    WifiStep,
) {
    match (phase, event) {
        (WifiPhase::Connecting, WifiEvent::Link { connected, elapsed_ms }) => if connected {
            (WifiPhase::AwaitingIp, WifiStep::PollAddress { wait_ms: 0 })
        } else if elapsed_ms > timeout_ms {
            (phase, WifiStep::Done(Err(WifiErr::TimeoutConnect)))
        } else {
            (phase, WifiStep::PollLink { wait_ms: LINK_POLL_MS })
        },
        (WifiPhase::AwaitingIp, WifiEvent::Address { ip, elapsed_ms }) => if !unassigned(ip) {
            (phase, WifiStep::Done(Ok(())))
        } else if elapsed_ms > timeout_ms {
            (phase, WifiStep::Done(Err(WifiErr::TimeoutIp)))
        } else {
            (phase, WifiStep::PollAddress { wait_ms: ADDRESS_POLL_MS })
        },
        (WifiPhase::Connecting, _) => (phase, WifiStep::PollLink { wait_ms: 0 }),
        (WifiPhase::AwaitingIp, _) => (phase, WifiStep::PollAddress { wait_ms: 0 }),
    }
}

/// Decides how a connection attempt goes on after `event`.
///
/// The attempt succeeds as soon as the associated station has an address
/// other than 0.0.0.0. It fails once a check comes out negative after more
/// than `timeout_ms`: with `TimeoutConnect` while the station is not
/// associated, with `TimeoutIp` while it has no address.
pub fn connect_to_wifi_with_timeout(timeout_ms: u64, phase: WifiPhase, event: WifiEvent) -> (next: (
    WifiPhase,
    WifiStep,
))
    ensures
        next == spec_connect(timeout_ms, phase, event),
{
    match phase {
        WifiPhase::Connecting => match event {
            WifiEvent::Link { connected, elapsed_ms } => {
                if connected {
                    (WifiPhase::AwaitingIp, WifiStep::PollAddress { wait_ms: 0 })
                } else if elapsed_ms > timeout_ms {
                    (phase, WifiStep::Done(Err(WifiErr::TimeoutConnect)))
                } else {
                    (phase, WifiStep::PollLink { wait_ms: LINK_POLL_MS })
                }
            },
            WifiEvent::Address { .. } => (phase, WifiStep::PollLink { wait_ms: 0 }),
        },
        WifiPhase::AwaitingIp => match event {
            WifiEvent::Address { ip, elapsed_ms } => {
                let none_yet = ip[0] == 0 && ip[1] == 0 && ip[2] == 0 && ip[3] == 0;
                if !none_yet {
                    (phase, WifiStep::Done(Ok(())))
                } else if elapsed_ms > timeout_ms {
                    (phase, WifiStep::Done(Err(WifiErr::TimeoutIp)))
                } else {
                    (phase, WifiStep::PollAddress { wait_ms: ADDRESS_POLL_MS })
                }
            },
            WifiEvent::Link { .. } => (phase, WifiStep::PollAddress { wait_ms: 0 }),
        },
    }
}

} // verus!
