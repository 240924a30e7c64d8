//! The discrete GPU: what it is, whether it is powered, and the mode that follows.

use vstd::prelude::*;
use vstd::string::StringSliceAdditionalSpecFns;

use crate::paths::{join, joined, path_view};
use crate::text::copy_bytes;

verus! {

/// The object path under which the graphics interface is served.
pub const GPU_ZBUS_PATH: &'static str = "/xyz/ljones/Gpu";

/// Runtime power status of the discrete GPU.
#[derive(Debug, Clone, Copy, PartialEq, Eq, Structural)]
pub enum GfxPower {
    Active,
    Suspended,
    Off,
    AsusDisabled,
    AsusMuxDiscreet,
    Unknown,
}

/// Vendor of the discrete GPU. `Other` holds a PCI vendor id.
#[derive(Debug, Clone, Copy, PartialEq, Eq, Structural)]
pub enum GfxVendor {
    Nvidia,
    AsusDgpuDisabled,
    Other(u16),
    Unknown,
}

/// What reading a firmware switch gave: there is no such switch, it could not be read, or
/// it reads on or off.
#[derive(Debug, Clone, Copy, PartialEq, Eq, Structural)]
pub enum SwitchReading {
    Absent,
    Unreadable,
    Reads(bool),
}

/// A device on the PCI bus.
pub struct PciDevice {
    pub is_dgpu: bool,
    pub vendor: GfxVendor,
    pub dev_path: Vec<u8>,
}

/// What is known of the GPU: its power status, its vendor and, where there is one, the
/// file that tells its power status.
pub struct Detected {
    pub power: GfxPower,
    pub vendor: GfxVendor,
    pub runtime_status_path: Option<Vec<u8>>,
}

/// The mathematical value of a `Detected`.
pub struct DetectedView {
    pub power: GfxPower,
    pub vendor: GfxVendor,
    pub runtime_status_path: Option<Seq<u8>>,
}

impl View for Detected {
    type V = DetectedView;

    open spec fn view(&self) -> DetectedView {
        DetectedView {
            power: self.power,
            vendor: self.vendor,
            runtime_status_path: path_view(self.runtime_status_path),
        }
    }
}

/// What the detection needs to know next.
pub enum Question {
    /// Read the switch that takes the discrete GPU off the bus.
    DgpuDisable,
    /// List the devices on the PCI bus.
    Devices,
    /// Does this file exist?
    PathExists(Vec<u8>),
    /// Read the runtime power status of the device at this place of the list.
    RuntimeStatus(usize),
    /// Read the switch that wires the display to the discrete GPU.
    GpuMux,
}

/// The host's answer. An answer to another question than the one that was asked counts as
/// a failure to find out.
pub enum Answer {
    Switch(SwitchReading),
    /// `None` where the bus could not be listed.
    Devices(Option<Vec<PciDevice>>),
    Exists(bool),
    /// `None` where the status could not be read.
    Status(Option<GfxPower>),
}

/// How far the detection has come.
pub enum Detection {
    DgpuDisable,
    Devices,
    RuntimePath { device: usize, vendor: GfxVendor, candidate: Vec<u8> },
    RuntimeStatus { device: usize, vendor: GfxVendor, path: Option<Vec<u8>> },
    GpuMux,
    Done(Detected),
}

/// The mathematical value of a `Detection`.
pub enum DetectionView {
    DgpuDisable,
    Devices,
    RuntimePath { device: int, vendor: GfxVendor, candidate: Seq<u8> },
    RuntimeStatus { device: int, vendor: GfxVendor, path: Option<Seq<u8>> },
    GpuMux,
    Done(DetectedView),
}

/// The mathematical value of a `Question`.
pub enum QuestionView {
    DgpuDisable,
    Devices,
    PathExists(Seq<u8>),
    RuntimeStatus(int),
    GpuMux,
}

impl View for Question {
    type V = QuestionView;

    open spec fn view(&self) -> QuestionView {
        match *self {
            Question::DgpuDisable => QuestionView::DgpuDisable,
            Question::Devices => QuestionView::Devices,
            Question::PathExists(path) => QuestionView::PathExists(path@),
            Question::RuntimeStatus(device) => QuestionView::RuntimeStatus(device as int),
            Question::GpuMux => QuestionView::GpuMux,
        }
    }
}

impl View for Detection {
    type V = DetectionView;

    open spec fn view(&self) -> DetectionView {
        match *self {
            Detection::DgpuDisable => DetectionView::DgpuDisable,
            Detection::Devices => DetectionView::Devices,
            Detection::RuntimePath { device, vendor, candidate } => DetectionView::RuntimePath {
                device: device as int,
                vendor,
                candidate: candidate@,
            },
            Detection::RuntimeStatus { device, vendor, path } => DetectionView::RuntimeStatus {
                device: device as int,
                vendor,
                path: path_view(path),
            },
            Detection::GpuMux => DetectionView::GpuMux,
            Detection::Done(detected) => DetectionView::Done(detected@),
        }
    }
}

/// The place of the first discrete GPU among `devices`.
pub open spec fn first_dgpu(devices: Seq<PciDevice>) -> Option<int>
    decreases devices.len(),
{
    if devices.len() == 0 {
        None
    } else {
        match first_dgpu(devices.drop_last()) {
            Some(i) => Some(i),
            None => if devices.last().is_dgpu {
                Some(devices.len() - 1)
            } else {
                None
            },
        }
    }
}

/// The first discrete GPU is one, and no device before it is; where there is no first one,
/// no device is.
pub proof fn law_first_dgpu_is_first(devices: Seq<PciDevice>)
    ensures
        match first_dgpu(devices) {
            Some(i) => {
                &&& 0 <= i < devices.len()
                &&& devices[i].is_dgpu
                &&& forall|j: int| 0 <= j < i ==> !(#[trigger] devices[j]).is_dgpu
            },
            None => forall|j: int| 0 <= j < devices.len() ==> !(#[trigger] devices[j]).is_dgpu,
        },
    decreases devices.len(),
{
    if devices.len() > 0 {
        let shorter = devices.drop_last();
        law_first_dgpu_is_first(shorter);
        assert(forall|j: int| 0 <= j < shorter.len() ==> shorter[j] == #[trigger] devices[j]);
    }
}

/// The file that tells the power status of the device at `dev_path`.
pub open spec fn runtime_status_path(dev_path: Seq<u8>) -> Seq<u8> {
    joined(joined(dev_path, "power".spec_bytes()), "runtime_status".spec_bytes())
}

/// The discrete GPU was taken off the bus.
pub open spec fn detected_disabled() -> DetectedView {
    DetectedView {
        power: GfxPower::AsusDisabled,
        vendor: GfxVendor::AsusDgpuDisabled,
        runtime_status_path: None,
    }
}

/// The display is wired to a discrete GPU that is not on the bus.
pub open spec fn detected_mux() -> DetectedView {
    DetectedView {
        power: GfxPower::AsusMuxDiscreet,
        vendor: GfxVendor::Nvidia,
        runtime_status_path: None,
    }
}

/// Nothing was found.
pub open spec fn detected_nothing() -> DetectedView {
    DetectedView {
        power: GfxPower::Unknown,
        vendor: GfxVendor::Unknown,
        runtime_status_path: None,
    }
}

/// A discrete GPU on the bus; a status that could not be read is `Unknown`.
pub open spec fn detected_dgpu(
    vendor: GfxVendor,
    status: Option<GfxPower>,
    path: Option<Seq<u8>>,
) -> DetectedView {
    DetectedView {
        power: match status {
            Some(power) => power,
            None => GfxPower::Unknown,
        },
        vendor,
        runtime_status_path: path,
    }
}

/// What is to be found out in a state, if anything.
pub open spec fn question_in(state: DetectionView) -> Option<QuestionView> {
    match state {
        DetectionView::DgpuDisable => Some(QuestionView::DgpuDisable),
        DetectionView::Devices => Some(QuestionView::Devices),
        DetectionView::RuntimePath { device, vendor, candidate } => Some(
            QuestionView::PathExists(candidate),
        ),
        DetectionView::RuntimeStatus { device, vendor, path } => Some(
            QuestionView::RuntimeStatus(device),
        ),
        DetectionView::GpuMux => Some(QuestionView::GpuMux),
        DetectionView::Done(_) => None,
    }
}

/// The state that an answer leads to.
pub open spec fn detection_after(state: DetectionView, answer: Answer) -> DetectionView {
    match state {
        DetectionView::DgpuDisable => if answer == Answer::Switch(SwitchReading::Reads(true)) {
            DetectionView::Done(detected_disabled())
        } else {
            DetectionView::Devices
        },
        DetectionView::Devices => match answer {
            Answer::Devices(Some(devices)) => match first_dgpu(devices@) {
                Some(i) => DetectionView::RuntimePath {
                    device: i,
                    vendor: devices@[i].vendor,
                    candidate: runtime_status_path(devices@[i].dev_path@),
                },
                None => DetectionView::GpuMux,
            },
            _ => DetectionView::GpuMux,
        },
        DetectionView::RuntimePath { device, vendor, candidate } => DetectionView::RuntimeStatus {
            device,
            vendor,
            path: if answer == Answer::Exists(true) {
                Some(candidate)
            } else {
                None
            },
        },
        DetectionView::RuntimeStatus { device, vendor, path } => DetectionView::Done(
            match answer {
                Answer::Status(status) => detected_dgpu(vendor, status, path),
                _ => detected_dgpu(vendor, None, path),
            },
        ),
        DetectionView::GpuMux => if answer == Answer::Switch(SwitchReading::Reads(true)) {
            DetectionView::Done(detected_mux())
        } else {
            DetectionView::Done(detected_nothing())
        },
        DetectionView::Done(detected) => DetectionView::Done(detected),
    }
}

/// Finds the first discrete GPU.
fn find_dgpu(devices: &Vec<PciDevice>) -> (place: Option<usize>)
    ensures
        match place {
            Some(i) => i < devices@.len() && first_dgpu(devices@) == Some(i as int),
            None => first_dgpu(devices@) is None,
        },
{
    for i in 0..devices.len()
        invariant
            first_dgpu(devices@.subrange(0, i as int)) is None,
    {
        let ghost longer = devices@.subrange(0, i + 1);
        assert(longer.drop_last() == devices@.subrange(0, i as int));
        if devices[i].is_dgpu {
            proof {
                lemma_first_dgpu_stays(devices@, i + 1);
            }
            return Some(i);
        }
    }
    assert(devices@.subrange(0, devices@.len() as int) == devices@);
    None
}

/// Devices further down the list do not change which discrete GPU comes first.
proof fn lemma_first_dgpu_stays(devices: Seq<PciDevice>, n: int)
    requires
        0 <= n <= devices.len(),
        first_dgpu(devices.subrange(0, n)) is Some,
    ensures
        first_dgpu(devices) == first_dgpu(devices.subrange(0, n)),
    decreases devices.len() - n,
{
    if n < devices.len() {
        assert(devices.subrange(0, n + 1).drop_last() == devices.subrange(0, n));
        lemma_first_dgpu_stays(devices, n + 1);
    } else {
        assert(devices.subrange(0, n) == devices);
    }
}

impl Detection {
    /// Where every detection begins: at the switch that hides the GPU, because a hidden
    /// GPU is not on the bus.
    pub fn start() -> (detection: Detection)
        ensures
            detection@ == DetectionView::DgpuDisable,
    {
        Detection::DgpuDisable
    }

    /// What the host has to find out next; `None` once the detection is done.
    pub fn question(&self) -> (question: Option<Question>)
        ensures
            match question {
                Some(asked) => question_in(self@) == Some(asked@),
                None => question_in(self@) is None,
            },
    {
        match self {
            Detection::DgpuDisable => Some(Question::DgpuDisable),
            Detection::Devices => Some(Question::Devices),
            Detection::RuntimePath { device: _, vendor: _, candidate } => Some(
                Question::PathExists(copy_bytes(candidate.as_slice())),
            ),
            Detection::RuntimeStatus { device, vendor: _, path: _ } => Some(
                Question::RuntimeStatus(*device),
            ),
            Detection::GpuMux => Some(Question::GpuMux),
            Detection::Done(_) => None,
        }
    }

    /// Goes on with the answer to `question`.
    pub fn answered(self, answer: Answer) -> (next: Detection)
        ensures
            next@ == detection_after(self@, answer),
    {
        match self {
            Detection::DgpuDisable => {
                if matches!(answer, Answer::Switch(SwitchReading::Reads(true))) {
                    Detection::Done(
                        Detected {
                            power: GfxPower::AsusDisabled,
                            vendor: GfxVendor::AsusDgpuDisabled,
                            runtime_status_path: None,
                        },
                    )
                } else {
                    Detection::Devices
                }
            },
            Detection::Devices => match answer {
                Answer::Devices(Some(devices)) => match find_dgpu(&devices) {
                    Some(device) => {
                        let power_dir = join(
                            devices[device].dev_path.as_slice(),
                            "power".as_bytes(),
                        );
                        Detection::RuntimePath {
                            device,
                            vendor: devices[device].vendor,
                            candidate: join(power_dir.as_slice(), "runtime_status".as_bytes()),
                        }
                    },
                    None => Detection::GpuMux,
                },
                _ => Detection::GpuMux,
            },
            Detection::RuntimePath { device, vendor, candidate } => {
                let found = matches!(answer, Answer::Exists(true));
                Detection::RuntimeStatus {
                    device,
                    vendor,
                    path: if found {
                        Some(candidate)
                    } else {
                        None
                    },
                }
            },
            Detection::RuntimeStatus { device: _, vendor, path } => {
                let power = match answer {
                    Answer::Status(Some(power)) => power,
                    _ => GfxPower::Unknown,
                };
                Detection::Done(Detected { power, vendor, runtime_status_path: path })
            },
            Detection::GpuMux => {
                if matches!(answer, Answer::Switch(SwitchReading::Reads(true))) {
                    Detection::Done(
                        Detected {
                            power: GfxPower::AsusMuxDiscreet,
                            vendor: GfxVendor::Nvidia,
                            runtime_status_path: None,
                        },
                    )
                } else {
                    Detection::Done(
                        Detected {
                            power: GfxPower::Unknown,
                            vendor: GfxVendor::Unknown,
                            runtime_status_path: None,
                        },
                    )
                }
            },
            Detection::Done(detected) => Detection::Done(detected),
        }
    }
}

/// Everything that the host could find out at one moment.
pub struct World {
    pub dgpu_disable: SwitchReading,
    pub devices: Option<Vec<PciDevice>>,
    pub exists: spec_fn(Seq<u8>) -> bool,
    pub status: spec_fn(int) -> Option<GfxPower>,
    pub gpu_mux: SwitchReading,
}

/// The true answer to a question.
pub open spec fn answer_in(world: World, question: QuestionView) -> Answer {
    match question {
        QuestionView::DgpuDisable => Answer::Switch(world.dgpu_disable),
        QuestionView::Devices => Answer::Devices(world.devices),
        QuestionView::PathExists(path) => Answer::Exists((world.exists)(path)),
        QuestionView::RuntimeStatus(device) => Answer::Status((world.status)(device)),
        QuestionView::GpuMux => Answer::Switch(world.gpu_mux),
    }
}

/// What the detection is meant to find: a GPU that was taken off the bus, else the first
/// discrete GPU on the bus, else the one that the display is wired to, else nothing.
pub open spec fn detected_in(world: World) -> DetectedView {
    let place = match world.devices {
        Some(devices) => first_dgpu(devices@),
        None => None,
    };
    if world.dgpu_disable == SwitchReading::Reads(true) {
        detected_disabled()
    } else if place is Some {
        let device = world.devices->0@[place->0];
        let path = runtime_status_path(device.dev_path@);
        detected_dgpu(
            device.vendor,
            (world.status)(place->0),
            if (world.exists)(path) {
                Some(path)
            } else {
                None
            },
        )
    } else if world.gpu_mux == SwitchReading::Reads(true) {
        detected_mux()
    } else {
        detected_nothing()
    }
}

/// The state after `steps` truthful answers.
pub open spec fn detection_run(state: DetectionView, world: World, steps: nat) -> DetectionView
    decreases steps,
{
    if steps == 0 {
        state
    } else {
        match question_in(state) {
            Some(question) => detection_run(
                detection_after(state, answer_in(world, question)),
                world,
                (steps - 1) as nat,
            ),
            None => state,
        }
    }
}

/// Answered truthfully, the detection is over after at most four answers and has found
/// what there is to find.
pub proof fn law_detection_finds_the_gpu(world: World)
    ensures
        detection_run(DetectionView::DgpuDisable, world, 4) == DetectionView::Done(
            detected_in(world),
        ),
{
    reveal_with_fuel(detection_run, 6);
}

/// A detection that finds out nothing is not fatal: power status and vendor are then unknown.
pub proof fn law_failed_detection_is_unknown(world: World)
    requires
        world.devices is None,
        !(world.dgpu_disable is Reads),
        !(world.gpu_mux is Reads),
    ensures
        detected_in(world) == detected_nothing(),
{
}

/// A GPU that was taken off the bus is not looked for there: one answer ends the detection.
pub proof fn law_hidden_gpu_is_not_scanned_for(world: World)
    requires
        world.dgpu_disable == SwitchReading::Reads(true),
    ensures
        detection_run(DetectionView::DgpuDisable, world, 1) == DetectionView::Done(
            detected_disabled(),
        ),
{
    reveal_with_fuel(detection_run, 3);
}

/// The GPU controller: what was last found of the discrete GPU.
pub struct CtrlGpu {
    power_status: GfxPower,
    vendor: GfxVendor,
    dgpu_runtime_status_path: Option<Vec<u8>>,
}

impl View for CtrlGpu {
    type V = DetectedView;

    closed spec fn view(&self) -> DetectedView {
        DetectedView {
            power: self.power_status,
            vendor: self.vendor,
            runtime_status_path: path_view(self.dgpu_runtime_status_path),
        }
    }
}

/// Whether a client would notice the step from one to the other: another power status or
/// another vendor. The path alone is not visible.
pub open spec fn status_changed(before: DetectedView, after: DetectedView) -> bool {
    before.power != after.power || before.vendor != after.vendor
}

/// A detection that finds the same again is no change.
pub proof fn law_same_detection_is_no_change(ctrl: DetectedView, detected: DetectedView)
    ensures
        !status_changed(detected, detected),
        status_changed(ctrl, detected) == status_changed(detected, ctrl),
{
}

/// The name of the GPU mode that the firmware switches and the power status amount to.
pub open spec fn mode_name(
    dgpu_disable: SwitchReading,
    gpu_mux: SwitchReading,
    power: GfxPower,
) -> Seq<char> {
    if dgpu_disable == SwitchReading::Reads(true) {
        "Integrated"@
    } else if gpu_mux == SwitchReading::Reads(true) {
        "Ultimate"@
    } else if power == GfxPower::Active || power == GfxPower::Suspended || power == GfxPower::Off {
        "Optimus"@
    } else {
        "Unknown"@
    }
}

impl CtrlGpu {
    /// A controller that knows what was detected.
    pub fn new(detected: Detected) -> (ctrl: CtrlGpu)
        ensures
            ctrl@ == detected@,
    {
        CtrlGpu {
            power_status: detected.power,
            vendor: detected.vendor,
            dgpu_runtime_status_path: detected.runtime_status_path,
        }
    }

    /// Takes over what was detected anew (after a hotplug, say). True if the power status
    /// or the vendor changed.
    pub fn redetect(&mut self, detected: Detected) -> (changed: bool)
        ensures
            final(self)@ == detected@,
            changed == status_changed(old(self)@, detected@),
    {
        let changed = detected.power != self.power_status || detected.vendor != self.vendor;
        self.power_status = detected.power;
        self.vendor = detected.vendor;
        self.dgpu_runtime_status_path = detected.runtime_status_path;
        changed
    }

    /// Takes over a power status that was read from the status file. True if it is news.
    pub(crate) fn update_power(&mut self, power: GfxPower) -> (changed: bool)
        ensures
            final(self)@ == (DetectedView { power, ..old(self)@ }),
            changed == (old(self)@.power != power),
    {
        let changed = power != self.power_status;
        self.power_status = power;
        changed
    }

    /// The current GPU power status.
    pub fn power_status(&self) -> (power: GfxPower)
        ensures
            power == self@.power,
    {
        self.power_status
    }

    /// The GPU vendor.
    pub fn vendor(&self) -> (vendor: GfxVendor)
        ensures
            vendor == self@.vendor,
    {
        self.vendor
    }

    /// The file that tells the power status, where there is one.
    pub fn runtime_status_path(&self) -> (path: Option<Vec<u8>>)
        ensures
            path_view(path) == self@.runtime_status_path,
    {
        match &self.dgpu_runtime_status_path {
            Some(path) => Some(copy_bytes(path.as_slice())),
            None => None,
        }
    }

    /// The current GPU mode: `Integrated` where the discrete GPU is off the bus, `Ultimate`
    /// where the display is wired to it, `Optimus` where it is on the bus in any power
    /// state, else `Unknown`.
    pub fn mode(&self, dgpu_disable: SwitchReading, gpu_mux: SwitchReading) -> (mode: String)
        ensures
            mode@ == mode_name(dgpu_disable, gpu_mux, self@.power),
    {
        if dgpu_disable == SwitchReading::Reads(true) {
            return "Integrated".to_owned();
        }
        if gpu_mux == SwitchReading::Reads(true) {
            return "Ultimate".to_owned();
        }
        match self.power_status {
            GfxPower::Active | GfxPower::Suspended | GfxPower::Off => "Optimus".to_owned(),
            _ => "Unknown".to_owned(),
        }
    }
}


/// A firmware switch that reads on decides the mode, whatever the power status: the one that
/// hides the GPU before the one that wires the display to it. Without them, a GPU that is on
/// the bus in any power state makes for a hybrid, and anything else is unknown.
pub proof fn law_switches_decide_the_mode(
    dgpu_disable: SwitchReading,
    gpu_mux: SwitchReading,
    power: GfxPower,
)
    ensures
        mode_name(SwitchReading::Reads(true), gpu_mux, power) == "Integrated"@,
        dgpu_disable != SwitchReading::Reads(true) ==> {
            &&& mode_name(dgpu_disable, SwitchReading::Reads(true), power) == "Ultimate"@
            &&& gpu_mux != SwitchReading::Reads(true) ==> {
                &&& mode_name(dgpu_disable, gpu_mux, GfxPower::Active) == "Optimus"@
                &&& mode_name(dgpu_disable, gpu_mux, GfxPower::Suspended) == "Optimus"@
                &&& mode_name(dgpu_disable, gpu_mux, GfxPower::Off) == "Optimus"@
                &&& mode_name(dgpu_disable, gpu_mux, GfxPower::AsusDisabled) == "Unknown"@
                &&& mode_name(dgpu_disable, gpu_mux, GfxPower::AsusMuxDiscreet) == "Unknown"@
                &&& mode_name(dgpu_disable, gpu_mux, GfxPower::Unknown) == "Unknown"@
            }
        },
{
}

/// Detection and mode agree: the GPU that a detection finds hidden makes the mode integrated,
/// and the one that it finds only behind the display makes it ultimate, with the same
/// readings of the switches.
pub proof fn law_detection_agrees_with_the_mode(world: World, detected: DetectedView)
    requires
        detection_run(DetectionView::DgpuDisable, world, 4) == DetectionView::Done(detected),
    ensures
        world.dgpu_disable == SwitchReading::Reads(true) ==> {
            &&& detected.power == GfxPower::AsusDisabled
            &&& mode_name(world.dgpu_disable, world.gpu_mux, detected.power) == "Integrated"@
        },
        world.dgpu_disable != SwitchReading::Reads(true) && world.devices is None && world.gpu_mux
            == SwitchReading::Reads(true) ==> {
            &&& detected.power == GfxPower::AsusMuxDiscreet
            &&& mode_name(world.dgpu_disable, world.gpu_mux, detected.power) == "Ultimate"@
        },
{
    reveal_with_fuel(detection_run, 6);
}

/// The status file of a device is `power/runtime_status` in its directory.
pub proof fn law_status_file_is_below_the_device(dev_path: Seq<u8>)
    ensures
        dev_path.len() > 0 && dev_path.last() != 0x2f ==> runtime_status_path(dev_path) == dev_path
            + seq![0x2fu8, 0x70u8, 0x6fu8, 0x77u8, 0x65u8, 0x72u8, 0x2fu8, 0x72u8, 0x75u8, 0x6eu8, 0x74u8, 0x69u8, 0x6du8, 0x65u8, 0x5fu8, 0x73u8, 0x74u8, 0x61u8, 0x74u8, 0x75u8, 0x73u8],
        dev_path.len() == 0 || dev_path.last() == 0x2f ==> runtime_status_path(dev_path) == dev_path
            + seq![0x70u8, 0x6fu8, 0x77u8, 0x65u8, 0x72u8, 0x2fu8, 0x72u8, 0x75u8, 0x6eu8, 0x74u8, 0x69u8, 0x6du8, 0x65u8, 0x5fu8, 0x73u8, 0x74u8, 0x61u8, 0x74u8, 0x75u8, 0x73u8],
{
    let power = "power";
    let status = "runtime_status";
    reveal_strlit("power");
    reveal_strlit("runtime_status");
    assert(power.is_ascii()) by {
        assert(forall|i: int| 0 <= i < power@.len() ==> (power@[i] as u32) < 128);
    }
    assert(status.is_ascii()) by {
        assert(forall|i: int| 0 <= i < status@.len() ==> (status@[i] as u32) < 128);
    }
    assert(power.spec_bytes() =~= seq![0x70u8, 0x6fu8, 0x77u8, 0x65u8, 0x72u8]);
    assert(status.spec_bytes() =~= seq![0x72u8, 0x75u8, 0x6eu8, 0x74u8, 0x69u8, 0x6du8, 0x65u8, 0x5fu8, 0x73u8, 0x74u8, 0x61u8, 0x74u8, 0x75u8, 0x73u8]);
    if dev_path.len() > 0 && dev_path.last() != 0x2f {
        assert(joined(dev_path, power.spec_bytes()) =~= dev_path + seq![0x2fu8, 0x70u8, 0x6fu8, 0x77u8, 0x65u8, 0x72u8]);
        assert(runtime_status_path(dev_path) =~= dev_path + seq![0x2fu8, 0x70u8, 0x6fu8, 0x77u8, 0x65u8, 0x72u8, 0x2fu8, 0x72u8, 0x75u8, 0x6eu8, 0x74u8, 0x69u8, 0x6du8, 0x65u8, 0x5fu8, 0x73u8, 0x74u8, 0x61u8, 0x74u8, 0x75u8, 0x73u8]);
    } else {
        assert(joined(dev_path, power.spec_bytes()) =~= dev_path + seq![0x70u8, 0x6fu8, 0x77u8, 0x65u8, 0x72u8]);
        assert(runtime_status_path(dev_path) =~= dev_path + seq![0x70u8, 0x6fu8, 0x77u8, 0x65u8, 0x72u8, 0x2fu8, 0x72u8, 0x75u8, 0x6eu8, 0x74u8, 0x69u8, 0x6du8, 0x65u8, 0x5fu8, 0x73u8, 0x74u8, 0x61u8, 0x74u8, 0x75u8, 0x73u8]);
    }
}

/// What a detection finds of the first discrete GPU on the bus, as long as none is hidden: its
/// own vendor, its own power status where that can be read, and the file `power/runtime_status`
/// in its directory where there is one.
pub proof fn law_first_gpu_on_the_bus_is_detected(
    world: World,
    devices: Vec<PciDevice>,
    i: int,
    detected: DetectedView,
)
    requires
        detection_run(DetectionView::DgpuDisable, world, 4) == DetectionView::Done(detected),
        world.dgpu_disable != SwitchReading::Reads(true),
        world.devices == Some(devices),
        0 <= i < devices@.len(),
        devices@[i].is_dgpu,
        forall|j: int| 0 <= j < i ==> !(#[trigger] devices@[j]).is_dgpu,
    ensures
        detected.vendor == devices@[i].vendor,
        (world.status)(i) matches Some(power) ==> detected.power == power,
        (world.status)(i) is None ==> detected.power == GfxPower::Unknown,
        ({
            let path = runtime_status_path(devices@[i].dev_path@);
            &&& devices@[i].dev_path@.len() > 0 && devices@[i].dev_path@.last() != 0x2f ==> path
                == devices@[i].dev_path@ + seq![0x2fu8, 0x70u8, 0x6fu8, 0x77u8, 0x65u8, 0x72u8, 0x2fu8, 0x72u8, 0x75u8, 0x6eu8, 0x74u8, 0x69u8, 0x6du8, 0x65u8, 0x5fu8, 0x73u8, 0x74u8, 0x61u8, 0x74u8, 0x75u8, 0x73u8]
            &&& (world.exists)(path) ==> detected.runtime_status_path == Some(path)
            &&& !(world.exists)(path) ==> detected.runtime_status_path is None
        }),
{
    reveal_with_fuel(detection_run, 6);
    law_first_dgpu_is_first(devices@);
    let place = first_dgpu(devices@);
    assert(place == Some(i)) by {
        assert(devices@[i].is_dgpu);
        if place is Some && place->0 < i {
            assert(!devices@[place->0].is_dgpu);
        }
    }
    if devices@[i].dev_path@.len() > 0 && devices@[i].dev_path@.last() != 0x2f {
        law_status_file_is_below_the_device(devices@[i].dev_path@);
    }
}

/// What a detection finds where no discrete GPU is on the bus: the hidden one, the one behind
/// the display, or nothing; none of them has a status file.
pub proof fn law_absent_gpu_has_no_file(world: World, detected: DetectedView)
    requires
        detection_run(DetectionView::DgpuDisable, world, 4) == DetectionView::Done(detected),
        world.dgpu_disable == SwitchReading::Reads(true) || world.devices is None || forall|j: int|
            0 <= j < world.devices->0@.len() ==> !(#[trigger] world.devices->0@[j]).is_dgpu,
    ensures
        detected.runtime_status_path is None,
        world.dgpu_disable == SwitchReading::Reads(true) ==> detected.power == GfxPower::AsusDisabled
            && detected.vendor == GfxVendor::AsusDgpuDisabled,
        world.dgpu_disable != SwitchReading::Reads(true) ==> {
            &&& world.gpu_mux == SwitchReading::Reads(true) ==> detected.power
                == GfxPower::AsusMuxDiscreet && detected.vendor == GfxVendor::Nvidia
            &&& world.gpu_mux != SwitchReading::Reads(true) ==> detected.power == GfxPower::Unknown
                && detected.vendor == GfxVendor::Unknown
        },
{
    reveal_with_fuel(detection_run, 6);
    if let Some(devices) = world.devices {
        law_first_dgpu_is_first(devices@);
    }
}

/// An answer that does not fit the question counts as a failure to find out, and an answer
/// after the end changes nothing.
pub proof fn law_unfit_answers_find_out_nothing(
    answer: Answer,
    device: int,
    vendor: GfxVendor,
    path: Option<Seq<u8>>,
    candidate: Seq<u8>,
    detected: DetectedView,
)
    ensures
        !(answer is Switch) ==> detection_after(DetectionView::DgpuDisable, answer)
            == DetectionView::Devices,
        !(answer is Devices) ==> detection_after(DetectionView::Devices, answer)
            == DetectionView::GpuMux,
        !(answer is Exists) ==> detection_after(
            DetectionView::RuntimePath { device, vendor, candidate },
            answer,
        ) == (DetectionView::RuntimeStatus { device, vendor, path: None }),
        !(answer is Status) ==> (detection_after(
            DetectionView::RuntimeStatus { device, vendor, path },
            answer,
        ) matches DetectionView::Done(found) && found.power == GfxPower::Unknown && found.vendor
            == vendor && found.runtime_status_path == path),
        !(answer is Switch) ==> (detection_after(DetectionView::GpuMux, answer) matches
            DetectionView::Done(found) && found.power == GfxPower::Unknown && found.vendor
            == GfxVendor::Unknown && found.runtime_status_path is None),
        detection_after(DetectionView::Done(detected), answer) == DetectionView::Done(detected),
        question_in(DetectionView::Done(detected)) is None,
{
}

/// A change is one of the power status or of the vendor; the path alone is none.
pub proof fn law_changes_are_of_power_or_vendor(before: DetectedView, after: DetectedView)
    ensures
        before.power != after.power ==> status_changed(before, after),
        before.vendor != after.vendor ==> status_changed(before, after),
        before.power == after.power && before.vendor == after.vendor ==> !status_changed(
            before,
            after,
        ),
{
}


/// What each state of a detection asks: about the device and the file that it has come to.
pub proof fn law_states_ask_their_questions(
    device: int,
    vendor: GfxVendor,
    candidate: Seq<u8>,
    path: Option<Seq<u8>>,
)
    ensures
        question_in(DetectionView::DgpuDisable) == Some(QuestionView::DgpuDisable),
        question_in(DetectionView::Devices) == Some(QuestionView::Devices),
        question_in(DetectionView::RuntimePath { device, vendor, candidate }) == Some(
            QuestionView::PathExists(candidate),
        ),
        question_in(DetectionView::RuntimeStatus { device, vendor, path }) == Some(
            QuestionView::RuntimeStatus(device),
        ),
        question_in(DetectionView::GpuMux) == Some(QuestionView::GpuMux),
{
}

} // verus!
