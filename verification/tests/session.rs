use show2::descriptor::{ConfigDescriptor, DeviceDescriptor, Direction, EndpointDescriptor, Interface, InterfaceDescriptor, TransferType};
use show2::endpoints::Endpoint;
use show2::error::DriverError;
use show2::matcher::match_device_vid_pid;
use show2::session::{choose_interface, OdroidShow2};

fn bulk(direction: Direction, address: u8) -> EndpointDescriptor {
    EndpointDescriptor { transfer_type: TransferType::Bulk, direction, address }
}

fn bulk_pair_interface(interface_number: u8, in_address: u8, out_address: u8) -> Interface {
    Interface {
        descriptors: vec![InterfaceDescriptor {
            interface_number,
            setting_number: 0,
            endpoints: vec![bulk(Direction::In, in_address), bulk(Direction::Out, out_address)],
        }],
    }
}

fn two_interface_config() -> ConfigDescriptor {
    ConfigDescriptor {
        number: 1,
        num_interfaces: 2,
        interfaces: vec![bulk_pair_interface(0, 0x81, 0x01), bulk_pair_interface(1, 0x82, 0x02)],
    }
}

#[test]
fn no_explicit_index_with_two_interfaces_is_ambiguous() {
    assert_eq!(choose_interface(None, 2), Err(DriverError::AmbiguousInterface(2)));
}

#[test]
fn no_explicit_index_with_zero_interfaces_is_ambiguous() {
    assert_eq!(choose_interface(None, 0), Err(DriverError::AmbiguousInterface(0)));
}

#[test]
fn single_interface_is_chosen_implicitly() {
    assert_eq!(choose_interface(None, 1), Ok(0));
}

#[test]
fn explicit_index_is_always_taken() {
    assert_eq!(choose_interface(Some(0), 2), Ok(0));
    assert_eq!(choose_interface(Some(1), 2), Ok(1));
    assert_eq!(choose_interface(Some(4), 1), Ok(4));
}

#[test]
fn session_bundles_descriptors_and_endpoints() {
    let descriptor = DeviceDescriptor { vendor_id: 0x10c4, product_id: 0xea60, usb_version: (2, 0, 0) };
    let session = OdroidShow2::new(descriptor, two_interface_config(), 1).unwrap();
    assert_eq!(session.descriptor, descriptor);
    assert_eq!(session.interface_channel.channel, 1);
    assert_eq!(session.io_in, Endpoint { config: 1, iface: 1, setting: 0, address: 0x82 });
    assert_eq!(session.io_out, Endpoint { config: 1, iface: 1, setting: 0, address: 0x02 });
}

#[test]
fn session_without_bulk_endpoints_fails() {
    let descriptor = DeviceDescriptor { vendor_id: 0x10c4, product_id: 0xea60, usb_version: (2, 0, 0) };
    let cfg = ConfigDescriptor {
        number: 1,
        num_interfaces: 1,
        interfaces: vec![Interface {
            descriptors: vec![InterfaceDescriptor {
                interface_number: 0,
                setting_number: 0,
                endpoints: vec![EndpointDescriptor {
                    transfer_type: TransferType::Interrupt,
                    direction: Direction::In,
                    address: 0x83,
                }],
            }],
        }],
    };
    assert_eq!(OdroidShow2::new(descriptor, cfg, 0), Err(DriverError::EndpointsNotFound));
}

#[test]
fn two_interface_device_binds_with_either_explicit_index() {
    let devices = vec![
        DeviceDescriptor { vendor_id: 0x1d6b, product_id: 0x0002, usb_version: (2, 0, 0) },
        DeviceDescriptor { vendor_id: 0x10c4, product_id: 0xea60, usb_version: (2, 0, 0) },
    ];
    let index = match_device_vid_pid(0x10c4, 0xea60, &devices).unwrap();
    assert_eq!(index, 1);
    let cfg = two_interface_config();

    // Without an explicit interface index the bind must stop, naming
    // the count of interfaces to choose from.
    assert_eq!(choose_interface(None, cfg.num_interfaces), Err(DriverError::AmbiguousInterface(2)));

    // With either explicit index it succeeds.
    for iface in [0u8, 1u8] {
        let chosen = choose_interface(Some(iface), cfg.num_interfaces).unwrap();
        let session = OdroidShow2::new(devices[index], cfg.clone(), chosen).unwrap();
        assert_eq!(session.interface_channel.channel, iface);
    }
}
