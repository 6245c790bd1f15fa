//! The USB side of the gateway: an Ethernet adapter towards the host.

use vstd::prelude::*;

verus! {

/// Number of USB classes that the device offers.
pub const NUM_CLASSES: usize = 1;

/// Bit rate announced to the host in either direction, in bits per second.
pub const CONNECTION_SPEED: u32 = 1_000_000;

/// State of the Ethernet class as the host sees it.
#[derive(Debug, Clone, Copy, PartialEq, Eq, Structural)]
pub enum DeviceState {
    Disabled,
    Disconnected,
    Connected,
}

/// What the Ethernet class is to tell the host next.
#[derive(Debug, Clone, Copy, PartialEq, Eq, Structural)]
pub enum LinkAction {
    /// Nothing.
    Keep,
    /// Announce the connection speed.
    SetConnectionSpeed { download: u32, upload: u32 },
    /// Announce that the network is connected.
    Connect,
}

/// The next step towards a connected link, taken whenever the bus has had
/// something for the class: a disconnected adapter first announces its
/// speed and, once that is known, the connection. In any other state there
/// is nothing to do.
pub fn handle_signal(state: DeviceState, speed_announced: bool) -> (action: LinkAction)
    ensures
        action == match state {
            DeviceState::Disconnected => if speed_announced {
                LinkAction::Connect
            } else {
                LinkAction::SetConnectionSpeed {
                    download: CONNECTION_SPEED,
                    upload: CONNECTION_SPEED,
                }
            },
            _ => LinkAction::Keep,
        },
{
    match state {
        DeviceState::Disconnected => {
            if !speed_announced {
                LinkAction::SetConnectionSpeed {
                    download: CONNECTION_SPEED,
                    upload: CONNECTION_SPEED,
                }
            } else {
                LinkAction::Connect
            }
        },
        DeviceState::Disabled | DeviceState::Connected => LinkAction::Keep,
    }
}

/// Whether the network stack is to be polled: only a connected adapter
/// carries traffic.
pub fn carries_traffic(state: DeviceState) -> (polled: bool)
    ensures
        polled == (state is Connected),
{
    match state {
        DeviceState::Connected => true,
        DeviceState::Disabled | DeviceState::Disconnected => false,
    }
}

} // verus!
