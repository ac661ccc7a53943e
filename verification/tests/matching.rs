use show2::descriptor::DeviceDescriptor;
use show2::error::DriverError;
use show2::matcher::match_device_vid_pid;

fn dev(vendor_id: u16, product_id: u16) -> DeviceDescriptor {
    DeviceDescriptor { vendor_id, product_id, usb_version: (2, 0, 0) }
}

#[test]
fn empty_list_is_not_found() {
    let devices: Vec<DeviceDescriptor> = vec![];
    assert_eq!(match_device_vid_pid(0x10c4, 0xea60, &devices), Err(DriverError::DeviceNotFound));
}

#[test]
fn list_without_match_is_not_found() {
    let devices = vec![dev(0x1d6b, 0x0002), dev(0x8087, 0x0024), dev(0x046d, 0xc077)];
    assert_eq!(match_device_vid_pid(0x10c4, 0xea60, &devices), Err(DriverError::DeviceNotFound));
}

#[test]
fn partial_id_agreement_is_no_match() {
    let devices = vec![dev(0x10c4, 0x0001), dev(0x0001, 0xea60)];
    assert_eq!(match_device_vid_pid(0x10c4, 0xea60, &devices), Err(DriverError::DeviceNotFound));
}

#[test]
fn unique_match_among_many_is_returned() {
    let devices = vec![
        dev(0x1d6b, 0x0002),
        dev(0x8087, 0x0024),
        dev(0x10c4, 0xea60),
        dev(0x046d, 0xc077),
    ];
    assert_eq!(match_device_vid_pid(0x10c4, 0xea60, &devices), Ok(2));
}

#[test]
fn first_of_two_matches_is_returned() {
    let devices = vec![dev(0x1d6b, 0x0002), dev(0x10c4, 0xea60), dev(0x10c4, 0xea60)];
    assert_eq!(match_device_vid_pid(0x10c4, 0xea60, &devices), Ok(1));
}
