use rog_control::gpu::{
    Answer, CtrlGpu, Detected, Detection, GfxPower, GfxVendor, PciDevice, Question, SwitchReading,
};

struct Machine {
    dgpu_disable: SwitchReading,
    devices: Option<Vec<(bool, GfxVendor, &'static str)>>,
    existing: Vec<&'static str>,
    status: Option<GfxPower>,
    gpu_mux: SwitchReading,
}

fn plain() -> Machine {
    Machine {
        dgpu_disable: SwitchReading::Absent,
        devices: Some(vec![
            (false, GfxVendor::Other(0x1002), "/sys/bus/pci/devices/0000:05:00.0"),
            (true, GfxVendor::Nvidia, "/sys/bus/pci/devices/0000:01:00.0"),
            (true, GfxVendor::Other(0x8086), "/sys/bus/pci/devices/0000:03:00.0"),
        ]),
        existing: vec!["/sys/bus/pci/devices/0000:01:00.0/power/runtime_status"],
        status: Some(GfxPower::Suspended),
        gpu_mux: SwitchReading::Absent,
    }
}

fn detect(machine: &Machine) -> (Detected, usize) {
    let mut detection = Detection::start();
    let mut asked = 0;
    while let Some(question) = detection.question() {
        asked += 1;
        let answer = match question {
            Question::DgpuDisable => Answer::Switch(machine.dgpu_disable),
            Question::Devices => Answer::Devices(machine.devices.as_ref().map(|devices| {
                devices
                    .iter()
                    .map(|(is_dgpu, vendor, path)| PciDevice {
                        is_dgpu: *is_dgpu,
                        vendor: *vendor,
                        dev_path: path.as_bytes().to_vec(),
                    })
                    .collect()
            })),
            Question::PathExists(path) => {
                Answer::Exists(machine.existing.iter().any(|p| p.as_bytes() == path))
            }
            Question::RuntimeStatus(device) => {
                assert_eq!(device, 1);
                Answer::Status(machine.status)
            }
            Question::GpuMux => Answer::Switch(machine.gpu_mux),
        };
        detection = detection.answered(answer);
    }
    match detection {
        Detection::Done(detected) => (detected, asked),
        _ => unreachable!(),
    }
}

#[test]
fn first_discrete_gpu_is_found() {
    let (detected, asked) = detect(&plain());
    assert_eq!(asked, 4);
    assert_eq!(detected.power, GfxPower::Suspended);
    assert_eq!(detected.vendor, GfxVendor::Nvidia);
    assert_eq!(
        detected.runtime_status_path.unwrap(),
        b"/sys/bus/pci/devices/0000:01:00.0/power/runtime_status"
    );
}

#[test]
fn disabled_gpu_is_not_scanned_for() {
    let mut machine = plain();
    machine.dgpu_disable = SwitchReading::Reads(true);
    let (detected, asked) = detect(&machine);
    assert_eq!(asked, 1);
    assert_eq!(detected.power, GfxPower::AsusDisabled);
    assert_eq!(detected.vendor, GfxVendor::AsusDgpuDisabled);
    assert!(detected.runtime_status_path.is_none());
}

#[test]
fn switch_that_is_off_or_unreadable_is_ignored() {
    for reading in [SwitchReading::Reads(false), SwitchReading::Unreadable] {
        let mut machine = plain();
        machine.dgpu_disable = reading;
        assert_eq!(detect(&machine).0.vendor, GfxVendor::Nvidia);
    }
}

#[test]
fn unreadable_status_is_unknown() {
    let mut machine = plain();
    machine.status = None;
    machine.existing.clear();
    let (detected, _) = detect(&machine);
    assert_eq!(detected.power, GfxPower::Unknown);
    assert_eq!(detected.vendor, GfxVendor::Nvidia);
    assert!(detected.runtime_status_path.is_none());
}

#[test]
fn mux_is_asked_last() {
    let mut machine = plain();
    machine.devices = Some(vec![(false, GfxVendor::Other(0x1002), "/sys/x")]);
    machine.gpu_mux = SwitchReading::Reads(true);
    let (detected, asked) = detect(&machine);
    assert_eq!(asked, 3);
    assert_eq!(detected.power, GfxPower::AsusMuxDiscreet);
    assert_eq!(detected.vendor, GfxVendor::Nvidia);
}

#[test]
fn failed_detection_is_unknown() {
    let mut machine = plain();
    machine.devices = None;
    machine.gpu_mux = SwitchReading::Unreadable;
    let (detected, _) = detect(&machine);
    assert_eq!(detected.power, GfxPower::Unknown);
    assert_eq!(detected.vendor, GfxVendor::Unknown);
}

#[test]
fn wrong_answers_count_as_failures() {
    let detection = Detection::start().answered(Answer::Status(Some(GfxPower::Active)));
    assert!(matches!(detection.question(), Some(Question::Devices)));
    let detection = detection.answered(Answer::Exists(true));
    assert!(matches!(detection.question(), Some(Question::GpuMux)));
}

#[test]
fn redetection_tells_changes() {
    let mut ctrl = CtrlGpu::new(detect(&plain()).0);
    assert_eq!(ctrl.power_status(), GfxPower::Suspended);
    assert_eq!(ctrl.vendor(), GfxVendor::Nvidia);
    assert!(!ctrl.redetect(detect(&plain()).0));

    let mut pathless = plain();
    pathless.existing.clear();
    assert!(!ctrl.redetect(detect(&pathless).0));
    assert!(ctrl.runtime_status_path().is_none());

    let mut active = plain();
    active.status = Some(GfxPower::Active);
    assert!(ctrl.redetect(detect(&active).0));
    assert_eq!(ctrl.power_status(), GfxPower::Active);
    assert!(!ctrl.redetect(detect(&active).0));
}

#[test]
fn mode_names() {
    let with = |power| {
        CtrlGpu::new(Detected { power, vendor: GfxVendor::Nvidia, runtime_status_path: None })
    };
    let off = SwitchReading::Reads(false);
    let on = SwitchReading::Reads(true);
    assert_eq!(with(GfxPower::Active).mode(on, on), "Integrated");
    assert_eq!(with(GfxPower::Active).mode(off, on), "Ultimate");
    assert_eq!(with(GfxPower::Active).mode(off, off), "Optimus");
    assert_eq!(with(GfxPower::Suspended).mode(SwitchReading::Absent, SwitchReading::Unreadable), "Optimus");
    assert_eq!(with(GfxPower::Off).mode(off, off), "Optimus");
    assert_eq!(with(GfxPower::Unknown).mode(off, off), "Unknown");
    assert_eq!(with(GfxPower::AsusMuxDiscreet).mode(off, off), "Unknown");
}
