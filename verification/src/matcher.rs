use vstd::prelude::*;
use crate::descriptor::DeviceDescriptor;
use crate::error::DriverError;

verus! {

/// Whether a device descriptor carries the requested vendor and
/// product identifiers.
pub open spec fn device_matches(d: DeviceDescriptor, vid: u16, pid: u16) -> bool {
    d.vendor_id == vid && d.product_id == pid
}

/// Index of the first descriptor in `devices` that matches
/// `vid`/`pid`, or `None` if the whole list goes by without a match.
pub open spec fn first_matching_device(devices: Seq<DeviceDescriptor>, vid: u16, pid: u16) -> Option<int>
    decreases devices.len(),
{
    if devices.len() == 0 {
        None
    } else if device_matches(devices[0], vid, pid) {
        Some(0int)
    } else {
        match first_matching_device(devices.drop_first(), vid, pid) {
            Option::Some(i) => Some(i + 1),
            Option::None => None,
        }
    }
}

/// Law: a device list in which no entry carries the requested
/// vendor/product pair yields no match.
pub proof fn lemma_no_match_not_found(devices: Seq<DeviceDescriptor>, vid: u16, pid: u16)
    requires
        forall|j: int| 0 <= j < devices.len() ==> !device_matches(devices[j], vid, pid),
    ensures
        first_matching_device(devices, vid, pid) is None,
    decreases devices.len(),
{
    if devices.len() > 0 {
        lemma_no_match_not_found(devices.drop_first(), vid, pid);
    }
}

/// Law: if entry `m` matches and no entry before it does, matching
/// lands exactly on `m`.
pub proof fn lemma_first_match_found(devices: Seq<DeviceDescriptor>, vid: u16, pid: u16, m: int)
    requires
        0 <= m < devices.len(),
        device_matches(devices[m], vid, pid),
        forall|j: int| 0 <= j < m ==> !device_matches(devices[j], vid, pid),
    ensures
        first_matching_device(devices, vid, pid) == Some(m),
    decreases m,
{
    if m > 0 {
        lemma_first_match_found(devices.drop_first(), vid, pid, m - 1);
    }
}

/// Law: with exactly one matching entry among many, matching returns
/// exactly that entry.
pub proof fn lemma_unique_match_found(devices: Seq<DeviceDescriptor>, vid: u16, pid: u16, m: int)
    requires
        0 <= m < devices.len(),
        device_matches(devices[m], vid, pid),
        forall|j: int| 0 <= j < devices.len() && j != m ==> !device_matches(devices[j], vid, pid),
    ensures
        first_matching_device(devices, vid, pid) == Some(m),
{
    lemma_first_match_found(devices, vid, pid, m);
}

/// Scans the enumerated device descriptors and returns the index of
/// the first one matching `vid`/`pid`, or `DeviceNotFound` if the
/// enumeration completes with no match. Reads nothing but the
/// descriptors handed in; no device state is changed.
pub fn match_device_vid_pid(vid: u16, pid: u16, devices: &Vec<DeviceDescriptor>) -> (r: Result<usize, DriverError>)
    ensures
        (r matches Ok(i) ==> first_matching_device(devices@, vid, pid) == Some(i as int)),
        (r matches Ok(i) ==> i < devices@.len() && device_matches(devices@[i as int], vid, pid)
            && (forall|j: int| 0 <= j < i ==> !device_matches(devices@[j], vid, pid))),
        (r matches Err(e) ==> e == DriverError::DeviceNotFound
            && first_matching_device(devices@, vid, pid) is None
            && (forall|j: int| 0 <= j < devices@.len() ==> !device_matches(devices@[j], vid, pid))),
{
    let n = devices.len();
    let mut i: usize = 0;
    while i < n
        invariant
            n == devices@.len(),
            i <= n,
            forall|j: int| 0 <= j < i ==> !device_matches(devices@[j], vid, pid),
        decreases n - i,
    {
        let d = &devices[i];
        if d.vendor_id == vid && d.product_id == pid {
            proof {
                lemma_first_match_found(devices@, vid, pid, i as int);
            }
            return Ok(i);
        }
        i = i + 1;
    }
    proof {
        lemma_no_match_not_found(devices@, vid, pid);
    }
    Err(DriverError::DeviceNotFound)
}

} // verus!
