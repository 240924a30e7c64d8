use rog_control::hid_raw::{
    _ior, _iowr, hidiocgfeature, hidiocgrawinfo, hidiocsfeature, Endpoint, FileMode, HidRaw, HidScan,
    HidrawDevinfo, IoctlAttempt, Opening, PlatformError, UsbParent, WriteAttempt,
};

fn endpoint(node: Option<&str>, product: Option<&[u8]>, bcd: Option<&str>) -> Endpoint<u32> {
    Endpoint {
        devpath: b"/devices/usb1/hidraw0".to_vec(),
        syspath: b"/sys/devices/usb1/hidraw0".to_vec(),
        devnode: node.map(|n| n.as_bytes().to_vec()),
        bcd_device: Some(b"99".to_vec()),
        parent: Ok(Some(UsbParent {
            id_product: product.map(|p| p.to_vec()),
            bcd_device: bcd.map(|b| b.as_bytes().to_vec()),
        })),
    }
}

fn opened(opening: Opening) -> HidRaw {
    match opening.opened::<u32>(Ok(())) {
        Ok(device) => device,
        Err(_) => unreachable!(),
    }
}

fn i2c_device() -> HidRaw {
    match HidRaw::from_i2c_device(endpoint(Some("/dev/hidraw3"), None, None), "19b6") {
        Ok(opening) => opened(opening),
        Err(_) => unreachable!(),
    }
}

#[test]
fn raw_info_request_number() {
    assert_eq!(hidiocgrawinfo(), 0x80084803);
    assert_eq!(_ior(0x48, 0x03, 8), 0x80084803);
}

#[test]
fn feature_request_numbers() {
    assert_eq!(hidiocsfeature(2), 0xc0024806);
    assert_eq!(hidiocsfeature(10), 0xc00a4806);
    assert_eq!(hidiocgfeature(23), 0xc0174807);
    assert_eq!(_iowr(0x48, 0x07, 23), 0xc0174807);
}

#[test]
fn request_fields_can_be_read_back() {
    for size in [0usize, 1, 2, 10, 23, 64, 0x3fff] {
        let req = hidiocgfeature(size);
        assert_eq!(req >> 30, 3);
        assert_eq!((req >> 16) & 0x3fff, size as u32);
        assert_eq!((req >> 8) & 0xff, b'H' as u32);
        assert_eq!(req & 0xff, 7);
    }
}

#[test]
fn oversized_request_spills_into_the_direction() {
    assert_eq!(hidiocsfeature(0x4000), 0xc0004806);
    assert_eq!(_ior(0x48, 0x06, 0x4000), 0xc0004806);
}

#[test]
fn search_takes_the_first_match() {
    let scan = HidScan::Endpoints(vec![
        endpoint(Some("/dev/hidraw0"), Some(b"1866"), None),
        endpoint(None, Some(b"19b6"), None),
        endpoint(Some("/dev/hidraw1"), None, None),
        endpoint(Some("/dev/hidraw2"), Some(b"19b6"), Some("512")),
        endpoint(Some("/dev/hidraw3"), Some(b"19b6"), Some("7")),
    ]);
    match HidRaw::new(scan, "19b6") {
        Ok(opening) => {
            assert_eq!(opening.mode, FileMode::Write);
            let device = opened(opening);
            assert_eq!(device.prod_id(), "19b6");
            assert_eq!(device.devfs_path(), b"/dev/hidraw2");
        }
        Err(_) => panic!("the device is there"),
    }
}

#[test]
fn search_reports_a_missing_product() {
    let scan = HidScan::Endpoints(vec![endpoint(Some("/dev/hidraw0"), Some(b"1866"), None)]);
    match HidRaw::new(scan, "19b6") {
        Err(PlatformError::MissingFunction(message)) => {
            assert_eq!(message, "hidraw dev 19b6 not found")
        }
        _ => panic!("there is no such device"),
    }
}

#[test]
fn search_ends_at_an_endpoint_without_answer() {
    let mut broken = endpoint(Some("/dev/hidraw0"), None, None);
    broken.parent = Err(13);
    let scan = HidScan::Endpoints(vec![
        broken,
        endpoint(Some("/dev/hidraw2"), Some(b"19b6"), None),
    ]);
    match HidRaw::new(scan, "19b6") {
        Err(PlatformError::IoPath(path, 13)) => assert_eq!(path, "/devices/usb1/hidraw0"),
        _ => panic!("the lookup failed"),
    }
}

#[test]
fn search_passes_endpoints_that_are_not_usb() {
    let mut other = endpoint(Some("/dev/hidraw0"), None, None);
    other.parent = Ok(None);
    let scan = HidScan::Endpoints(vec![
        other,
        endpoint(Some("/dev/hidraw2"), Some(b"19b6"), None),
    ]);
    match HidRaw::new(scan, "19b6") {
        Ok(opening) => assert_eq!(opened(opening).devfs_path(), b"/dev/hidraw2"),
        Err(_) => panic!("the device is there"),
    }
}

#[test]
fn failed_enumeration_is_reported() {
    assert!(matches!(
        HidRaw::new(HidScan::EnumeratorFailed(1u32), "x"),
        Err(PlatformError::Udev("enumerator failed", 1))
    ));
    assert!(matches!(
        HidRaw::new(HidScan::MatchFailed(2u32), "x"),
        Err(PlatformError::Udev("match_subsystem failed", 2))
    ));
    match HidRaw::new(HidScan::ScanFailed(3u32), "x") {
        Err(PlatformError::IoPath(path, 3)) => assert_eq!(path, "enumerator"),
        _ => panic!("the scan failed"),
    }
}

#[test]
fn device_from_endpoint_has_a_readable_product() {
    match HidRaw::from_device(endpoint(Some("/dev/hidraw1"), Some(b"19\xffb6"), None)) {
        Ok(opening) => assert_eq!(opened(opening).prod_id(), "19\u{fffd}b6"),
        Err(_) => panic!("the endpoint is complete"),
    }
    match HidRaw::from_device(endpoint(Some("/dev/hidraw1"), Some(b"19b6"), None)) {
        Ok(opening) => assert_eq!(opened(opening).prod_id(), "19b6"),
        Err(_) => panic!("the endpoint is complete"),
    }
}

#[test]
fn device_from_incomplete_endpoint_is_refused() {
    for incomplete in [
        endpoint(None, Some(b"19b6"), None),
        endpoint(Some("/dev/hidraw1"), None, None),
    ] {
        match HidRaw::from_device(incomplete) {
            Err(PlatformError::MissingFunction(message)) => {
                assert_eq!(message, "hidraw dev no dev path")
            }
            _ => panic!("the endpoint is incomplete"),
        }
    }
    let mut broken = endpoint(Some("/dev/hidraw0"), None, None);
    broken.parent = Err(5);
    assert!(matches!(HidRaw::from_device(broken), Err(PlatformError::IoPath(_, 5))));
}

#[test]
fn i2c_device_needs_a_device_file() {
    match HidRaw::from_i2c_device(endpoint(None, None, None), "19b6") {
        Err(PlatformError::MissingFunction(message)) => {
            assert_eq!(message, "I2C-HID endpoint has no devnode")
        }
        _ => panic!("there is no device file"),
    }
    let device = i2c_device();
    assert_eq!(device.prod_id(), "19b6");
    assert_eq!(device.devfs_path(), b"/dev/hidraw3");
}

#[test]
fn failure_to_open_names_the_file_of_an_i2c_device() {
    match HidRaw::from_i2c_device(endpoint(Some("/dev/hidraw3"), None, None), "19b6") {
        Ok(opening) => {
            assert_eq!(opening.mode, FileMode::ReadWriteNonBlocking);
            match opening.opened(Err(2u32)) {
                Err(PlatformError::IoPath(path, 2)) => assert_eq!(path, "/dev/hidraw3"),
                _ => panic!("the file was not opened"),
            }
        }
        Err(_) => unreachable!(),
    }
    match HidRaw::from_device(endpoint(Some("/dev/hidraw1"), Some(b"19b6"), None)) {
        Ok(opening) => assert!(matches!(opening.opened(Err(2u32)), Err(PlatformError::Io(2)))),
        Err(_) => unreachable!(),
    }
}

#[test]
fn busy_file_is_passed_over_by_writes_only() {
    let device = i2c_device();
    assert!(device.write_result::<u32>(WriteAttempt::Busy).is_ok());
    assert!(device.write_result::<u32>(WriteAttempt::Written).is_ok());
    match device.write_result(WriteAttempt::Failed(5u32)) {
        Err(PlatformError::IoPath(path, 5)) => assert_eq!(path, "/dev/hidraw3"),
        _ => panic!("the write failed"),
    }
    match device.set_feature_result::<u32>(IoctlAttempt::Busy) {
        Err(PlatformError::MissingFunction(message)) => assert_eq!(message, "hidraw file busy"),
        _ => panic!("the file is in use"),
    }
    assert!(device.get_feature_result::<u32>(IoctlAttempt::Busy).is_err());
}

#[test]
fn ioctl_results() {
    let device = i2c_device();
    assert!(device.set_feature_result(IoctlAttempt::Returned(10, 0u32)).is_ok());
    assert!(matches!(
        device.set_feature_result(IoctlAttempt::Returned(-1, 22u32)),
        Err(PlatformError::IoPath(_, 22))
    ));
    assert!(matches!(device.get_feature_result(IoctlAttempt::Returned(23, 0u32)), Ok(23)));
    assert!(matches!(device.get_feature_result(IoctlAttempt::Returned(0, 0u32)), Ok(0)));
    let filled = HidrawDevinfo { bustype: 0x18, vendor: 0x0b05, product: 0x19b6 };
    match device.raw_info(IoctlAttempt::Returned(0, 0u32), filled) {
        Ok(info) => {
            assert_eq!(info.bustype, 0x18);
            assert_eq!(info.vendor, 0x0b05);
            assert_eq!(info.product, 0x19b6);
        }
        Err(_) => panic!("the ioctl succeeded"),
    }
    let empty = HidrawDevinfo { bustype: 0, vendor: 0, product: 0 };
    assert!(device.raw_info(IoctlAttempt::Returned(-1, 25u32), empty).is_err());
}

#[test]
fn feature_calls_carry_their_bytes() {
    let device = i2c_device();
    let write = device.write_bytes(&[0x5d, 0xb9]);
    assert_eq!(write.path, b"/dev/hidraw3");
    assert_eq!(write.bytes, vec![0x5d, 0xb9]);
    let call = device.raw_info_call();
    assert_eq!(call.request, 0x80084803);
    assert_eq!(call.buffer, vec![0; 8]);
    let call = device.set_feature_report(&[0x46, 0x00]);
    assert_eq!(call.request, 0xc0024806);
    assert_eq!(call.buffer, vec![0x46, 0x00]);
    let call = device.get_feature_report(&[0x41, 0, 0]);
    assert_eq!(call.request, 0xc0034807);
    assert_eq!((call.request >> 16) & 0x3fff, call.buffer.len() as u32);
    assert_eq!(call.buffer, vec![0x41, 0, 0]);
}

#[test]
fn wakeup_attribute() {
    let write = i2c_device().set_wakeup_disabled();
    assert_eq!(write.syspath, b"/sys/devices/usb1/hidraw0");
    assert_eq!(write.name, "power/wakeup");
    assert_eq!(write.value, "disabled");
    assert_eq!(HidRaw::subsystem(), "hidraw");
}
