use co2_sensor::subsys::net::{dhcp_poll, DhcpEvent, IfaceUpdate, Ipv4Address, Ipv4Cidr};
use co2_sensor::subsys::usb::{
    carries_traffic, handle_signal, DeviceState, LinkAction, CONNECTION_SPEED, NUM_CLASSES,
};

#[test]
fn a_disconnected_adapter_announces_speed_then_connection() {
    assert_eq!(
        handle_signal(DeviceState::Disconnected, false),
        LinkAction::SetConnectionSpeed {
            download: 1_000_000,
            upload: 1_000_000
        }
    );
    assert_eq!(
        handle_signal(DeviceState::Disconnected, true),
        LinkAction::Connect
    );
    assert_eq!(handle_signal(DeviceState::Connected, true), LinkAction::Keep);
    assert_eq!(handle_signal(DeviceState::Connected, false), LinkAction::Keep);
    assert_eq!(handle_signal(DeviceState::Disabled, false), LinkAction::Keep);
    assert_eq!(handle_signal(DeviceState::Disabled, true), LinkAction::Keep);
    assert_eq!(CONNECTION_SPEED, 1_000_000);
    assert_eq!(NUM_CLASSES, 1);
}

#[test]
fn only_a_connected_adapter_carries_traffic() {
    assert!(carries_traffic(DeviceState::Connected));
    assert!(!carries_traffic(DeviceState::Disconnected));
    assert!(!carries_traffic(DeviceState::Disabled));
}

#[test]
fn dhcp_configuration_is_taken_over() {
    let address = Ipv4Cidr {
        address: Ipv4Address(192, 168, 7, 2),
        prefix_len: 24,
    };
    let router = Ipv4Address(192, 168, 7, 1);
    assert_eq!(
        dhcp_poll(Some(DhcpEvent::Configured {
            address,
            router: Some(router)
        })),
        Some(IfaceUpdate {
            address,
            default_route: Some(router)
        })
    );
    assert_eq!(
        dhcp_poll(Some(DhcpEvent::Configured {
            address,
            router: None
        })),
        Some(IfaceUpdate {
            address,
            default_route: None
        })
    );
}

#[test]
fn lost_configuration_leaves_the_unspecified_address() {
    assert_eq!(
        dhcp_poll(Some(DhcpEvent::Deconfigured)),
        Some(IfaceUpdate {
            address: Ipv4Cidr {
                address: Ipv4Address(0, 0, 0, 0),
                prefix_len: 0
            },
            default_route: None
        })
    );
    assert_eq!(dhcp_poll(None), None);
}
