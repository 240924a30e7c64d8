use rog_control::dmi::{DmiScan, DmiSource, DMIID};

#[test]
fn dmi_sysfs_properties_not_unknown() {
    let answers = DMIID::queries().iter().map(|q| Some(format!("value of {}", q.name).into_bytes())).collect();
    let dmi = DMIID::new(DmiScan::Device(answers)).unwrap();

    assert_ne!(dmi.id_model, "Unknown".to_string());
    assert_ne!(dmi.dmi_family, "Unknown".to_string());
    assert_ne!(dmi.dmi_vendor, "Unknown".to_string());
    assert_ne!(dmi.board_name, "Unknown".to_string());
    assert_ne!(dmi.board_vendor, "Unknown".to_string());
    assert_ne!(dmi.product_family, "Unknown".to_string());
    assert_ne!(dmi.product_name, "Unknown".to_string());

    assert_eq!(dmi.id_model, "value of ID_MODEL");
    assert_eq!(dmi.dmi_family, "value of DMI_FAMILY");
    assert_eq!(dmi.dmi_vendor, "value of DMI_VENDOR");
    assert_eq!(dmi.board_name, "value of board_name");
    assert_eq!(dmi.board_vendor, "value of board_vendor");
    assert_eq!(dmi.bios_date, "value of bios_date");
    assert_eq!(dmi.bios_release, "value of bios_release");
    assert_eq!(dmi.bios_vendor, "value of bios_vendor");
    assert_eq!(dmi.bios_version, "value of bios_version");
    assert_eq!(dmi.product_family, "value of product_family");
    assert_eq!(dmi.product_name, "value of product_name");
}

#[test]
fn missing_answers_are_unknown() {
    let mut answers = vec![None; 11];
    answers[3] = Some(b"G533\xffQS".to_vec());
    let dmi = DMIID::new(DmiScan::Device(answers)).unwrap();
    assert_eq!(dmi.board_name, "G533\u{fffd}QS");
    assert_eq!(dmi.id_model, "Unknown");
    assert_eq!(dmi.product_name, "Unknown");

    let dmi = DMIID::new(DmiScan::Device(Vec::new())).unwrap();
    assert_eq!(dmi.bios_version, "Unknown");
}

#[test]
fn failed_scans_say_why() {
    let cause = || "permission denied".to_string();
    assert_eq!(
        DMIID::new(DmiScan::EnumeratorFailed(cause())),
        Err("dmi enumerator failed: permission denied".to_string())
    );
    assert_eq!(
        DMIID::new(DmiScan::MatchFailed(cause())),
        Err("dmi match_subsystem failed: permission denied".to_string())
    );
    assert_eq!(
        DMIID::new(DmiScan::ScanFailed(cause())),
        Err("dmi scan_devices failed: permission denied".to_string())
    );
    assert_eq!(DMIID::new(DmiScan::NoDevice), Err("dmi not found".to_string()));
}

#[test]
fn queries_tell_properties_from_attributes() {
    let queries = DMIID::queries();
    assert_eq!(DMIID::subsystem(), "dmi");
    assert!(queries[..3].iter().all(|q| q.source == DmiSource::Property));
    assert!(queries[3..].iter().all(|q| q.source == DmiSource::Attribute));
}
