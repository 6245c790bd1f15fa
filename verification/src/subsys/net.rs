//! The network side of the gateway: an interface configured by DHCP.

use vstd::prelude::*;

verus! {

/// An IPv4 address, one field per octet.
#[derive(Debug, Clone, Copy, PartialEq, Eq, Structural)]
pub struct Ipv4Address(pub u8, pub u8, pub u8, pub u8);

/// An IPv4 address with the length of its network prefix.
#[derive(Debug, Clone, Copy, PartialEq, Eq, Structural)]
pub struct Ipv4Cidr {
    pub address: Ipv4Address,
    pub prefix_len: u8,
}

/// What the DHCP client reports when it is polled.
#[derive(Debug, Clone, Copy, PartialEq, Eq, Structural)]
pub enum DhcpEvent {
    /// A configuration has been acquired or modified.
    Configured { address: Ipv4Cidr, router: Option<Ipv4Address> },
    /// The configuration has been lost.
    Deconfigured,
}

/// What becomes of the interface: its address, and its default route or the
/// absence of one.
#[derive(Debug, Clone, Copy, PartialEq, Eq, Structural)]
pub struct IfaceUpdate {
    pub address: Ipv4Cidr,
    pub default_route: Option<Ipv4Address>,
}

/// The address of an interface without configuration: 0.0.0.0/0.
pub open spec fn unspecified() -> Ipv4Cidr {
    Ipv4Cidr { address: Ipv4Address(0, 0, 0, 0), prefix_len: 0 }
}

/// What an event of the DHCP client means for the interface.
pub open spec fn update_for(event: DhcpEvent) -> IfaceUpdate {
    match event {
        DhcpEvent::Configured { address, router } => IfaceUpdate { address, default_route: router },
        DhcpEvent::Deconfigured => IfaceUpdate { address: unspecified(), default_route: None },
    }
}

/// Turns what the DHCP client reports into the update of the interface: a
/// configuration is taken over as it is, with the router as default route; a
/// lost configuration leaves the unspecified address and no default route.
/// Without an event the interface stays as it is.
pub fn dhcp_poll(event: Option<DhcpEvent>) -> (update: Option<IfaceUpdate>)
    ensures
        update == match event {
            Some(event) => Some(update_for(event)),
            None => None,
        },
{
    match event {
        None => None,
        Some(DhcpEvent::Configured { address, router }) => Some(
            IfaceUpdate { address, default_route: router },
        ),
        Some(DhcpEvent::Deconfigured) => {
            let zero = Ipv4Cidr { address: Ipv4Address(0, 0, 0, 0), prefix_len: 0 };
            Some(IfaceUpdate { address: zero, default_route: None })
        },
    }
}

} // verus!
