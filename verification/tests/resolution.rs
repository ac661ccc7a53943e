use show2::descriptor::{ConfigDescriptor, Direction, EndpointDescriptor, Interface, InterfaceDescriptor, TransferType};
use show2::endpoints::{Endpoint, InterfaceWrapper};

fn ep(transfer_type: TransferType, direction: Direction, address: u8) -> EndpointDescriptor {
    EndpointDescriptor { transfer_type, direction, address }
}

fn bulk_in(address: u8) -> EndpointDescriptor {
    ep(TransferType::Bulk, Direction::In, address)
}

fn bulk_out(address: u8) -> EndpointDescriptor {
    ep(TransferType::Bulk, Direction::Out, address)
}

fn setting(interface_number: u8, setting_number: u8, endpoints: Vec<EndpointDescriptor>) -> InterfaceDescriptor {
    InterfaceDescriptor { interface_number, setting_number, endpoints }
}

fn one_interface_config(settings: Vec<InterfaceDescriptor>) -> ConfigDescriptor {
    ConfigDescriptor {
        number: 1,
        num_interfaces: 1,
        interfaces: vec![Interface { descriptors: settings }],
    }
}

#[test]
fn resolves_unique_bulk_pair() {
    let cfg = one_interface_config(vec![setting(0, 0, vec![bulk_in(0x81), bulk_out(0x02)])]);
    let r = InterfaceWrapper::new(0).get_io_endpoints(&cfg);
    assert_eq!(
        r,
        Some((
            Endpoint { config: 1, iface: 0, setting: 0, address: 0x81 },
            Endpoint { config: 1, iface: 0, setting: 0, address: 0x02 },
        ))
    );
}

#[test]
fn missing_bulk_in_fails() {
    let cfg = one_interface_config(vec![setting(0, 0, vec![bulk_out(0x02)])]);
    assert_eq!(InterfaceWrapper::new(0).get_io_endpoints(&cfg), None);
}

#[test]
fn missing_bulk_out_fails() {
    let cfg = one_interface_config(vec![setting(0, 0, vec![bulk_in(0x81)])]);
    assert_eq!(InterfaceWrapper::new(0).get_io_endpoints(&cfg), None);
}

#[test]
fn non_bulk_endpoints_are_ignored() {
    let cfg = one_interface_config(vec![setting(0, 0, vec![
        ep(TransferType::Interrupt, Direction::In, 0x83),
        ep(TransferType::Control, Direction::Out, 0x00),
        ep(TransferType::Isochronous, Direction::In, 0x84),
        bulk_in(0x81),
        bulk_out(0x02),
    ])]);
    let r = InterfaceWrapper::new(0).get_io_endpoints(&cfg);
    assert_eq!(
        r,
        Some((
            Endpoint { config: 1, iface: 0, setting: 0, address: 0x81 },
            Endpoint { config: 1, iface: 0, setting: 0, address: 0x02 },
        ))
    );
}

#[test]
fn first_bulk_endpoint_of_each_direction_wins() {
    let cfg = one_interface_config(vec![setting(0, 0, vec![
        bulk_in(0x81),
        bulk_in(0x82),
        bulk_out(0x01),
        bulk_out(0x02),
    ])]);
    let r = InterfaceWrapper::new(0).get_io_endpoints(&cfg);
    assert_eq!(
        r,
        Some((
            Endpoint { config: 1, iface: 0, setting: 0, address: 0x81 },
            Endpoint { config: 1, iface: 0, setting: 0, address: 0x01 },
        ))
    );
}

#[test]
fn scan_crosses_alternate_settings() {
    let cfg = one_interface_config(vec![
        setting(2, 0, vec![bulk_in(0x81)]),
        setting(2, 1, vec![bulk_out(0x02)]),
    ]);
    let r = InterfaceWrapper::new(0).get_io_endpoints(&cfg);
    assert_eq!(
        r,
        Some((
            Endpoint { config: 1, iface: 2, setting: 0, address: 0x81 },
            Endpoint { config: 1, iface: 2, setting: 1, address: 0x02 },
        ))
    );
}

#[test]
fn interface_index_out_of_range_fails() {
    let cfg = one_interface_config(vec![setting(0, 0, vec![bulk_in(0x81), bulk_out(0x02)])]);
    assert_eq!(InterfaceWrapper::new(1).get_io_endpoints(&cfg), None);
    assert_eq!(InterfaceWrapper::new(7).get_io_endpoints(&cfg), None);
}

#[test]
fn interface_wrapper_keeps_its_channel() {
    assert_eq!(InterfaceWrapper::new(3).channel, 3);
}
