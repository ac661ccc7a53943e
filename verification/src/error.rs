use vstd::prelude::*;

verus! {

/// Every way the driver can fail. Each variant is terminal for the
/// operation that raised it; the only retrying the driver ever does is
/// the bounded poll loop of the ready-to-receive check.
///
/// `AmbiguousInterface` carries the number of interfaces the device
/// exposes, so the caller can be told to pick one explicitly.
#[derive(Debug, Clone, Copy, PartialEq, Eq)]
pub enum DriverError {
    /// No attached device carried the requested vendor/product pair.
    DeviceNotFound,
    /// The matched device would not yield its active configuration
    /// descriptor.
    ConfigDescriptorUnavailable,
    /// The device was found but a handle to it could not be opened;
    /// on most hosts this means a missing driver binding.
    OpenFailed,
    /// No interface index was given and the device does not expose
    /// exactly one interface; the count found is carried along.
    AmbiguousInterface(u8),
    /// The chosen interface is already claimed elsewhere.
    InterfaceClaimFailed,
    /// The chosen interface has no bulk-IN or no bulk-OUT endpoint.
    EndpointsNotFound,
    /// The payload does not fit the single-byte length field.
    PayloadTooLarge,
    /// The device answered with an unexpected byte or byte count.
    ProtocolError,
    /// The caller's overall timeout elapsed before the device replied.
    Timeout,
}

} // verus!
