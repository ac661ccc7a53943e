use vstd::prelude::*;
use crate::descriptor::{ConfigDescriptor, DeviceDescriptor};
use crate::endpoints::{resolved_endpoints, Endpoint, InterfaceWrapper};
use crate::error::DriverError;

verus! {

/// Which interface a session claims: the caller's explicit choice if
/// one was given; otherwise the device must expose exactly one
/// interface, and that one is taken. Any other count is ambiguous and
/// is reported, so the caller can be told to pick explicitly.
pub fn choose_interface(interface_channel: Option<u8>, num_interfaces: u8) -> (r: Result<u8, DriverError>)
    ensures
        (interface_channel matches Some(i) ==> r == Ok::<u8, DriverError>(i)),
        (interface_channel is None && num_interfaces == 1 ==> r == Ok::<u8, DriverError>(0u8)),
        (interface_channel is None && num_interfaces != 1
            ==> r == Err::<u8, DriverError>(DriverError::AmbiguousInterface(num_interfaces))),
{
    match interface_channel {
        Some(i) => Ok(i),
        None => {
            if num_interfaces != 1 {
                Err(DriverError::AmbiguousInterface(num_interfaces))
            } else {
                Ok(0)
            }
        }
    }
}

/// A bound Show2 device: the descriptors read from it, the interface
/// chosen for it, and the bulk endpoints resolved on that interface.
/// The open OS-level handle that transfers run over is owned by the
/// embedding program, which pairs it with this record for the
/// session's lifetime and releases the claimed interface when the
/// pair goes out of use.
#[derive(Debug, Clone, PartialEq, Eq)]
pub struct OdroidShow2 {
    pub descriptor: DeviceDescriptor,
    pub config_descriptor: ConfigDescriptor,
    pub interface_channel: InterfaceWrapper,
    pub io_out: Endpoint,
    pub io_in: Endpoint,
}

impl OdroidShow2 {
    /// Bundles a session once the device is matched and its interface
    /// chosen: resolves the bulk endpoints of `interface_idx` and
    /// fails with `EndpointsNotFound` if either direction is missing.
    pub fn new(descriptor: DeviceDescriptor, config_descriptor: ConfigDescriptor, interface_idx: u8) -> (r: Result<Self, DriverError>)
        ensures
            (r is Ok <==> resolved_endpoints(config_descriptor, interface_idx as int) is Some),
            (r matches Ok(s) ==> resolved_endpoints(config_descriptor, interface_idx as int) matches Some(pair)
                && s.io_in == pair.0
                && s.io_out == pair.1
                && s.descriptor == descriptor
                && s.config_descriptor == config_descriptor
                && s.interface_channel.channel == interface_idx),
            (r matches Err(e) ==> e == DriverError::EndpointsNotFound),
    {
        let interface_channel = InterfaceWrapper::new(interface_idx);
        match interface_channel.get_io_endpoints(&config_descriptor) {
            Some((io_in, io_out)) => Ok(OdroidShow2 {
                descriptor: descriptor,
                config_descriptor: config_descriptor,
                interface_channel: interface_channel,
                io_out: io_out,
                io_in: io_in,
            }),
            None => Err(DriverError::EndpointsNotFound),
        }
    }
}

} // verus!
