use vstd::prelude::*;

verus! {

/// The four USB transfer types. Only `Bulk` endpoints take part in the
/// Show2 protocol; the others are ignored during resolution.
#[derive(Debug, Clone, Copy, PartialEq, Eq)]
pub enum TransferType {
    Control,
    Isochronous,
    Bulk,
    Interrupt,
}

/// Direction of an endpoint: `In` is device-to-host, `Out` is
/// host-to-device.
#[derive(Debug, Clone, Copy, PartialEq, Eq)]
pub enum Direction {
    In,
    Out,
}

/// What the driver reads of one endpoint descriptor: its transfer
/// type, its direction, and its address.
#[derive(Debug, Clone, Copy, PartialEq, Eq)]
pub struct EndpointDescriptor {
    pub transfer_type: TransferType,
    pub direction: Direction,
    pub address: u8,
}

/// One alternate setting of an interface: the interface and setting
/// numbers it carries, and its endpoint descriptors in descriptor
/// order.
#[derive(Debug, Clone, PartialEq, Eq)]
pub struct InterfaceDescriptor {
    pub interface_number: u8,
    pub setting_number: u8,
    pub endpoints: Vec<EndpointDescriptor>,
}

/// One interface of a configuration: its alternate settings in
/// descriptor order.
#[derive(Debug, Clone, PartialEq, Eq)]
pub struct Interface {
    pub descriptors: Vec<InterfaceDescriptor>,
}

/// What the driver reads of a configuration descriptor: the
/// configuration number, the interface count the descriptor itself
/// announces, and the interfaces in descriptor order.
#[derive(Debug, Clone, PartialEq, Eq)]
pub struct ConfigDescriptor {
    pub number: u8,
    pub num_interfaces: u8,
    pub interfaces: Vec<Interface>,
}

/// What the driver reads of a device descriptor: the vendor and
/// product identifiers that matching goes by, and the USB release
/// the device reports, as (major, minor, sub-minor).
#[derive(Debug, Clone, Copy, PartialEq, Eq)]
pub struct DeviceDescriptor {
    pub vendor_id: u16,
    pub product_id: u16,
    pub usb_version: (u8, u8, u8),
}

} // verus!
