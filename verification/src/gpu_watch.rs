//! The watch over the discrete GPU: it follows the file that tells the power status, waits
//! for a GPU to be plugged in where there is no such file, and reports every change.

use inotify::{EventMask, WatchMask};
use vstd::prelude::*;

use crate::gpu::{status_changed, CtrlGpu, Detected, DetectedView, GfxPower};
use crate::paths::path_view;
use crate::text::same_bytes;

verus! {

/// The name of the interface whose signal reports a change.
pub const GPU_INTERFACE: &'static str = "xyz.ljones.Gpu";

/// The name of that signal.
pub const POWER_STATUS_CHANGED: &'static str = "PowerStatusChanged";

/// The subsystem in which a GPU is plugged in.
pub const HOTPLUG_SUBSYSTEM: &'static str = "pci";

/// Inotify: the file was modified.
pub const MODIFY: u32 = 0x2;

/// Inotify: the watched file itself was deleted.
pub const DELETE_SELF: u32 = 0x400;

/// Seconds to wait before the watch is set up again.
pub const SETUP_PAUSE: u64 = 3;

/// Seconds to wait before the wait for a hotplug is set up again.
pub const HOTPLUG_PAUSE: u64 = 30;

/// Calls `WatchMask::union` (the `|` of `inotify::WatchMask`): the result has the bits of
/// both masks.
#[verifier::external_body]
fn watch_mask_union(left: u32, right: u32) -> (mask: u32)
    ensures
        mask == left | right,
{
    WatchMask::from_bits_retain(left).union(WatchMask::from_bits_retain(right)).bits()
}

/// Calls `inotify::EventMask::contains`: true if `mask` has every bit of `flag`.
#[verifier::external_body]
fn event_mask_contains(mask: u32, flag: u32) -> (contained: bool)
    ensures
        contained == (mask & flag == flag),
{
    EventMask::from_bits_retain(mask).contains(EventMask::from_bits_retain(flag))
}

/// What the watch is waiting for.
#[derive(Debug, Clone, Copy, PartialEq, Eq, Structural)]
pub enum Phase {
    /// An inotify instance.
    Creating,
    /// The watch on the status file.
    Adding,
    /// A detection, because the status file could not be watched.
    Retrying,
    /// The report of a change, before a pause.
    ReportingThenPausing,
    /// The stream of events.
    Opening,
    /// The next event.
    Listening,
    /// The power status.
    Reading,
    /// The report of a change, before the next event.
    ReportingThenListening,
    /// A detection, because the watch is over or a GPU was plugged in.
    Redetecting,
    /// The report of a change, before the watch begins anew.
    ReportingThenRestarting,
    /// A hotplug.
    AwaitingHotplug,
    /// The end of a pause.
    Pausing,
}

/// What the host has to do next.
pub enum WatchAction {
    CreateInotify,
    AddWatch { path: Vec<u8>, mask: u32 },
    OpenStream,
    NextEvent,
    ReadStatus { path: Vec<u8> },
    Detect,
    Emit(GfxPower),
    Sleep(u64),
    AwaitHotplug,
}

/// The mathematical value of a `WatchAction`.
pub enum WatchActionView {
    CreateInotify,
    AddWatch { path: Seq<u8>, mask: u32 },
    OpenStream,
    NextEvent,
    ReadStatus { path: Seq<u8> },
    Detect,
    Emit(GfxPower),
    Sleep(u64),
    AwaitHotplug,
}

impl View for WatchAction {
    type V = WatchActionView;

    open spec fn view(&self) -> WatchActionView {
        match *self {
            WatchAction::CreateInotify => WatchActionView::CreateInotify,
            WatchAction::AddWatch { path, mask } => WatchActionView::AddWatch { path: path@, mask },
            WatchAction::OpenStream => WatchActionView::OpenStream,
            WatchAction::NextEvent => WatchActionView::NextEvent,
            WatchAction::ReadStatus { path } => WatchActionView::ReadStatus { path: path@ },
            WatchAction::Detect => WatchActionView::Detect,
            WatchAction::Emit(power) => WatchActionView::Emit(power),
            WatchAction::Sleep(seconds) => WatchActionView::Sleep(seconds),
            WatchAction::AwaitHotplug => WatchActionView::AwaitHotplug,
        }
    }
}

/// How the last action went.
pub enum WatchEvent {
    Succeeded,
    /// The action failed, or the stream of events broke off or ended.
    Failed,
    /// An inotify event with this mask.
    Inotify(u32),
    /// The status file reads this.
    Status(GfxPower),
    /// What a detection found.
    Detected(Detected),
}

/// The mathematical value of a `Watcher`.
pub struct WatcherView {
    pub ctrl: DetectedView,
    pub phase: Phase,
}

/// A watch under way.
pub struct Watcher {
    ctrl: CtrlGpu,
    phase: Phase,
}

impl View for Watcher {
    type V = WatcherView;

    closed spec fn view(&self) -> WatcherView {
        WatcherView { ctrl: self.ctrl@, phase: self.phase }
    }
}

impl WatcherView {
    /// A phase that follows the status file has a status file to follow.
    pub open spec fn wf(self) -> bool {
        match self.phase {
            Phase::Creating
            | Phase::Adding
            | Phase::Opening
            | Phase::Listening
            | Phase::Reading
            | Phase::ReportingThenListening => self.ctrl.runtime_status_path is Some,
            Phase::AwaitingHotplug => self.ctrl.runtime_status_path is None,
            _ => true,
        }
    }

    /// The same controller in another phase.
    pub open spec fn at(self, phase: Phase) -> WatcherView {
        WatcherView { phase, ..self }
    }
}

/// The watch from its beginning: follow the status file, or wait for a GPU to be plugged in.
pub open spec fn begun(ctrl: DetectedView) -> (WatcherView, WatchActionView) {
    if ctrl.runtime_status_path is Some {
        (WatcherView { ctrl, phase: Phase::Creating }, WatchActionView::CreateInotify)
    } else {
        (WatcherView { ctrl, phase: Phase::AwaitingHotplug }, WatchActionView::AwaitHotplug)
    }
}

/// What follows a detection: the report of a change in phase `reporting`, else `quiet`.
pub open spec fn after_detection(
    watch: WatcherView,
    event: WatchEvent,
    reporting: Phase,
    quiet: spec_fn(DetectedView) -> (WatcherView, WatchActionView),
) -> (WatcherView, WatchActionView) {
    match event {
        WatchEvent::Detected(detected) => if status_changed(watch.ctrl, detected@) {
            (
                WatcherView { ctrl: detected@, phase: reporting },
                WatchActionView::Emit(detected@.power),
            )
        } else {
            quiet(detected@)
        },
        _ => quiet(watch.ctrl),
    }
}

/// A pause before the watch begins anew.
pub open spec fn paused(ctrl: DetectedView, seconds: u64) -> (WatcherView, WatchActionView) {
    (WatcherView { ctrl, phase: Phase::Pausing }, WatchActionView::Sleep(seconds))
}

/// The power status that an outcome of reading stands for.
pub open spec fn status_read(event: WatchEvent) -> GfxPower {
    match event {
        WatchEvent::Status(power) => power,
        _ => GfxPower::Unknown,
    }
}

/// The next state of a watch and what the host has to do in it.
pub open spec fn watch_after(watch: WatcherView, event: WatchEvent) -> (
    WatcherView,
    WatchActionView,
) {
    let path = watch.ctrl.runtime_status_path->0;
    match watch.phase {
        Phase::Creating => if event is Succeeded {
            (
                watch.at(Phase::Adding),
                WatchActionView::AddWatch { path, mask: MODIFY | DELETE_SELF },
            )
        } else {
            paused(watch.ctrl, SETUP_PAUSE)
        },
        Phase::Adding => if event is Succeeded {
            (watch.at(Phase::Opening), WatchActionView::OpenStream)
        } else {
            (watch.at(Phase::Retrying), WatchActionView::Detect)
        },
        Phase::Retrying => after_detection(
            watch,
            event,
            Phase::ReportingThenPausing,
            |ctrl: DetectedView| paused(ctrl, SETUP_PAUSE),
        ),
        Phase::ReportingThenPausing => paused(watch.ctrl, SETUP_PAUSE),
        Phase::Opening => if event is Succeeded {
            (watch.at(Phase::Listening), WatchActionView::NextEvent)
        } else {
            paused(watch.ctrl, SETUP_PAUSE)
        },
        Phase::Listening => match event {
            WatchEvent::Inotify(mask) if mask & DELETE_SELF != DELETE_SELF => (
                watch.at(Phase::Reading),
                WatchActionView::ReadStatus { path },
            ),
            _ => (watch.at(Phase::Redetecting), WatchActionView::Detect),
        },
        Phase::Reading => if status_read(event) != watch.ctrl.power {
            (
                WatcherView {
                    ctrl: DetectedView { power: status_read(event), ..watch.ctrl },
                    phase: Phase::ReportingThenListening,
                },
                WatchActionView::Emit(status_read(event)),
            )
        } else {
            (watch.at(Phase::Listening), WatchActionView::NextEvent)
        },
        Phase::ReportingThenListening => (watch.at(Phase::Listening), WatchActionView::NextEvent),
        Phase::Redetecting => after_detection(
            watch,
            event,
            Phase::ReportingThenRestarting,
            |ctrl: DetectedView| begun(ctrl),
        ),
        Phase::ReportingThenRestarting => begun(watch.ctrl),
        Phase::AwaitingHotplug => if event is Succeeded {
            (watch.at(Phase::Redetecting), WatchActionView::Detect)
        } else {
            paused(watch.ctrl, HOTPLUG_PAUSE)
        },
        Phase::Pausing => begun(watch.ctrl),
    }
}

impl CtrlGpu {
    /// Starts to watch on behalf of this controller: the watch, which has a copy of the
    /// controller, and what the host has to do first.
    pub fn start_watcher(&self) -> (started: (Watcher, WatchAction))
        ensures
            (started.0@, started.1@) == begun(self@),
            started.0@.wf(),
    {
        let known = Detected {
            power: self.power_status(),
            vendor: self.vendor(),
            runtime_status_path: self.runtime_status_path(),
        };
        let mut watcher = Watcher { ctrl: CtrlGpu::new(known), phase: Phase::Pausing };
        let action = watcher.begin();
        (watcher, action)
    }
}

impl Watcher {
    /// The controller as the watch knows it now.
    pub fn ctrl(&self) -> (ctrl: &CtrlGpu)
        ensures
            ctrl@ == self@.ctrl,
    {
        &self.ctrl
    }

    fn begin(&mut self) -> (action: WatchAction)
        ensures
            (final(self)@, action@) == begun(old(self)@.ctrl),
            final(self)@.wf(),
    {
        match self.ctrl.runtime_status_path() {
            Some(_) => {
                self.phase = Phase::Creating;
                WatchAction::CreateInotify
            },
            None => {
                self.phase = Phase::AwaitingHotplug;
                WatchAction::AwaitHotplug
            },
        }
    }

    fn pause(&mut self, seconds: u64) -> (action: WatchAction)
        ensures
            (final(self)@, action@) == paused(old(self)@.ctrl, seconds),
    {
        self.phase = Phase::Pausing;
        WatchAction::Sleep(seconds)
    }

    /// The status file; there is one in every phase that follows it.
    fn followed_path(&self) -> (path: Vec<u8>)
        requires
            self@.ctrl.runtime_status_path is Some,
        ensures
            Some(path@) == self@.ctrl.runtime_status_path,
    {
        self.ctrl.runtime_status_path().unwrap()
    }

    /// Takes over a detection; true if there is a change to report.
    fn take_over(&mut self, event: WatchEvent) -> (changed: bool)
        ensures
            final(self)@.phase == old(self)@.phase,
            event matches WatchEvent::Detected(detected) ==> final(self)@.ctrl == detected@
                && changed == status_changed(old(self)@.ctrl, detected@),
            !(event is Detected) ==> !changed && final(self)@.ctrl == old(self)@.ctrl,
    {
        match event {
            WatchEvent::Detected(detected) => self.ctrl.redetect(detected),
            _ => false,
        }
    }

    /// Goes on with the outcome of the last action.
    pub fn step(&mut self, event: WatchEvent) -> (action: WatchAction)
        requires
            old(self)@.wf(),
        ensures
            (final(self)@, action@) == watch_after(old(self)@, event),
            final(self)@.wf(),
    {
        match self.phase {
            Phase::Creating => {
                if matches!(event, WatchEvent::Succeeded) {
                    self.phase = Phase::Adding;
                    WatchAction::AddWatch {
                        path: self.followed_path(),
                        mask: watch_mask_union(MODIFY, DELETE_SELF),
                    }
                } else {
                    self.pause(SETUP_PAUSE)
                }
            },
            Phase::Adding => {
                if matches!(event, WatchEvent::Succeeded) {
                    self.phase = Phase::Opening;
                    WatchAction::OpenStream
                } else {
                    self.phase = Phase::Retrying;
                    WatchAction::Detect
                }
            },
            Phase::Retrying => {
                if self.take_over(event) {
                    self.phase = Phase::ReportingThenPausing;
                    WatchAction::Emit(self.ctrl.power_status())
                } else {
                    self.pause(SETUP_PAUSE)
                }
            },
            Phase::ReportingThenPausing => self.pause(SETUP_PAUSE),
            Phase::Opening => {
                if matches!(event, WatchEvent::Succeeded) {
                    self.phase = Phase::Listening;
                    WatchAction::NextEvent
                } else {
                    self.pause(SETUP_PAUSE)
                }
            },
            Phase::Listening => {
                let modified = match event {
                    WatchEvent::Inotify(mask) => !event_mask_contains(mask, DELETE_SELF),
                    _ => false,
                };
                if modified {
                    self.phase = Phase::Reading;
                    WatchAction::ReadStatus { path: self.followed_path() }
                } else {
                    self.phase = Phase::Redetecting;
                    WatchAction::Detect
                }
            },
            Phase::Reading => {
                let power = match event {
                    WatchEvent::Status(power) => power,
                    _ => GfxPower::Unknown,
                };
                if self.ctrl.update_power(power) {
                    self.phase = Phase::ReportingThenListening;
                    WatchAction::Emit(power)
                } else {
                    self.phase = Phase::Listening;
                    WatchAction::NextEvent
                }
            },
            Phase::ReportingThenListening => {
                self.phase = Phase::Listening;
                WatchAction::NextEvent
            },
            Phase::Redetecting => {
                if self.take_over(event) {
                    self.phase = Phase::ReportingThenRestarting;
                    WatchAction::Emit(self.ctrl.power_status())
                } else {
                    self.begin()
                }
            },
            Phase::ReportingThenRestarting => self.begin(),
            Phase::AwaitingHotplug => {
                if matches!(event, WatchEvent::Succeeded) {
                    self.phase = Phase::Redetecting;
                    WatchAction::Detect
                } else {
                    self.pause(HOTPLUG_PAUSE)
                }
            },
            Phase::Pausing => self.begin(),
        }
    }
}

/// A signal is emitted exactly when the power status or the vendor changes, and it carries
/// the new power status.
pub proof fn law_every_change_is_reported(watch: WatcherView, event: WatchEvent)
    requires
        watch.wf(),
    ensures
        watch_after(watch, event).1 is Emit <==> status_changed(
            watch.ctrl,
            watch_after(watch, event).0.ctrl,
        ),
        watch_after(watch, event).1 matches WatchActionView::Emit(power) ==> power
            == watch_after(watch, event).0.ctrl.power,
{
}

/// Whatever happens, a watch that follows a status file goes on to have one to follow, and
/// the only file it watches or reads is the one that its controller knows.
pub proof fn law_only_the_known_file_is_followed(watch: WatcherView, event: WatchEvent)
    requires
        watch.wf(),
    ensures
        watch_after(watch, event).0.wf(),
        watch_after(watch, event).1 matches WatchActionView::AddWatch { path, mask } ==> Some(path)
            == watch_after(watch, event).0.ctrl.runtime_status_path,
        watch_after(watch, event).1 matches WatchActionView::ReadStatus { path } ==> Some(path)
            == watch_after(watch, event).0.ctrl.runtime_status_path,
{
}

/// The watch changes what it knows of the GPU only by a detection or by reading the status
/// file; the latter leaves vendor and path alone.
pub proof fn law_knowledge_comes_from_outcomes(watch: WatcherView, event: WatchEvent)
    requires
        watch.wf(),
        !(event is Detected),
    ensures
        watch_after(watch, event).0.ctrl.vendor == watch.ctrl.vendor,
        watch_after(watch, event).0.ctrl.runtime_status_path == watch.ctrl.runtime_status_path,
        watch.phase != Phase::Reading ==> watch_after(watch, event).0.ctrl == watch.ctrl,
{
}

/// When the status file is deleted, the stream breaks off or it ends, the GPU is detected
/// anew and the watch begins again with what was found, after the report of a change.
pub proof fn law_lost_file_restarts_the_watch(
    watch: WatcherView,
    loss: WatchEvent,
    detected: Detected,
    reported: WatchEvent,
)
    requires
        watch.wf(),
        watch.phase == Phase::Listening,
        loss matches WatchEvent::Inotify(mask) ==> mask & DELETE_SELF == DELETE_SELF,
    ensures
        ({
            let lost = watch_after(watch, loss);
            let found = watch_after(lost.0, WatchEvent::Detected(detected));
            &&& lost.1 == WatchActionView::Detect
            &&& if status_changed(watch.ctrl, detected@) {
                &&& found.1 == WatchActionView::Emit(detected@.power)
                &&& watch_after(found.0, reported) == begun(detected@)
            } else {
                found == begun(detected@)
            }
        }),
{
}

/// A setup that fails is tried again after a pause: three seconds for the watch on the
/// status file, thirty for the wait for a hotplug.
pub proof fn law_failed_setup_is_retried(watch: WatcherView, failure: WatchEvent, rest: WatchEvent)
    requires
        watch.wf(),
        watch.phase == Phase::Creating || watch.phase == Phase::Opening || watch.phase
            == Phase::AwaitingHotplug,
        !(failure is Succeeded),
    ensures
        watch_after(watch, failure).1 == WatchActionView::Sleep(
            if watch.phase == Phase::AwaitingHotplug {
                HOTPLUG_PAUSE
            } else {
                SETUP_PAUSE
            },
        ),
        watch_after(watch_after(watch, failure).0, rest) == begun(watch.ctrl),
{
}

/// The wait for a hotplug. Each state but the last is what the host has to do next.
#[derive(Debug, Clone, Copy, PartialEq, Eq, Structural)]
pub enum HotplugWait {
    CreateMonitor,
    MatchSubsystem,
    Listen,
    CreatePoll,
    Register,
    Poll,
    /// The wait is over: with a device added, or because it could not be kept up.
    Over(bool),
}

/// How a step of the wait went. `Actions` holds the action of each device event that was
/// pending when the poll returned, where the event has one.
pub enum HotplugEvent {
    Succeeded,
    Failed,
    Actions(Vec<Option<Vec<u8>>>),
}

/// The action of an event that adds a device: the three letters of `add`.
pub open spec fn is_add(action: Option<Vec<u8>>) -> bool {
    action matches Some(name) && name@ == seq![0x61u8, 0x64u8, 0x64u8]
}

/// What a step of the wait leads to.
pub open spec fn hotplug_after(wait: HotplugWait, event: HotplugEvent) -> HotplugWait {
    match wait {
        HotplugWait::Over(hotplugged) => HotplugWait::Over(hotplugged),
        HotplugWait::Poll => match event {
            HotplugEvent::Actions(actions) => if exists|i: int|
                0 <= i < actions@.len() && is_add(#[trigger] actions@[i]) {
                HotplugWait::Over(true)
            } else {
                HotplugWait::Poll
            },
            _ => HotplugWait::Over(false),
        },
        _ => if event is Succeeded {
            match wait {
                HotplugWait::CreateMonitor => HotplugWait::MatchSubsystem,
                HotplugWait::MatchSubsystem => HotplugWait::Listen,
                HotplugWait::Listen => HotplugWait::CreatePoll,
                HotplugWait::CreatePoll => HotplugWait::Register,
                _ => HotplugWait::Poll,
            }
        } else {
            HotplugWait::Over(false)
        },
    }
}

/// Whether one of the events adds a device.
fn any_added(actions: &Vec<Option<Vec<u8>>>) -> (added: bool)
    ensures
        added == exists|i: int| 0 <= i < actions@.len() && is_add(#[trigger] actions@[i]),
{
    let add: [u8; 3] = [0x61, 0x64, 0x64];
    assert(add@ == seq![0x61u8, 0x64u8, 0x64u8]);
    for i in 0..actions.len()
        invariant
            add@ == seq![0x61u8, 0x64u8, 0x64u8],
            forall|j: int| 0 <= j < i ==> !is_add(#[trigger] actions@[j]),
    {
        if let Some(name) = &actions[i] {
            if same_bytes(name.as_slice(), add.as_slice()) {
                assert(is_add(actions@[i as int]));
                return true;
            }
        }
    }
    false
}

impl HotplugWait {
    /// The first step of a wait.
    pub fn start() -> (wait: HotplugWait)
        ensures
            wait == HotplugWait::CreateMonitor,
    {
        HotplugWait::CreateMonitor
    }

    /// Goes on with the outcome of the last step.
    pub fn step(self, event: HotplugEvent) -> (next: HotplugWait)
        ensures
            next == hotplug_after(self, event),
    {
        let succeeded = matches!(event, HotplugEvent::Succeeded);
        match self {
            HotplugWait::Over(hotplugged) => HotplugWait::Over(hotplugged),
            HotplugWait::Poll => match event {
                HotplugEvent::Actions(actions) => if any_added(&actions) {
                    HotplugWait::Over(true)
                } else {
                    HotplugWait::Poll
                },
                _ => HotplugWait::Over(false),
            },
            _ if !succeeded => HotplugWait::Over(false),
            HotplugWait::CreateMonitor => HotplugWait::MatchSubsystem,
            HotplugWait::MatchSubsystem => HotplugWait::Listen,
            HotplugWait::Listen => HotplugWait::CreatePoll,
            HotplugWait::CreatePoll => HotplugWait::Register,
            HotplugWait::Register => HotplugWait::Poll,
        }
    }
}

/// A wait ends well only with a device added: no other step leads there.
pub proof fn law_hotplug_needs_an_added_device(wait: HotplugWait, event: HotplugEvent)
    requires
        !(wait is Over),
    ensures
        hotplug_after(wait, event) == HotplugWait::Over(true) <==> wait is Poll && (event matches
            HotplugEvent::Actions(actions) && exists|i: int|
            0 <= i < actions@.len() && is_add(#[trigger] actions@[i])),
{
}


/// What was read is what is known: after the status file was read, the power status is exactly
/// what it says, and unknown where it could not be read. The signal is emitted, with that
/// status, exactly when it differs from the one known before; else the next event is awaited.
pub proof fn law_what_is_read_is_known(watch: WatcherView, event: WatchEvent, power: GfxPower)
    requires
        watch.phase == Phase::Reading,
        event == WatchEvent::Status(power) || !(event is Status) && power == GfxPower::Unknown,
    ensures
        ({
            let (after, action) = watch_after(watch, event);
            &&& after.ctrl.power == power
            &&& after.ctrl.vendor == watch.ctrl.vendor
            &&& after.ctrl.runtime_status_path == watch.ctrl.runtime_status_path
            &&& power != watch.ctrl.power ==> action == WatchActionView::Emit(power)
            &&& power == watch.ctrl.power ==> action == WatchActionView::NextEvent && after.phase
                == Phase::Listening
        }),
{
}

/// What is detected is known: after a detection that was asked for, the controller knows what
/// it found and nothing else. The signal is emitted exactly when the power status or the vendor
/// differs from before, and carries the new power status.
pub proof fn law_what_is_detected_is_known(watch: WatcherView, detected: Detected)
    requires
        watch.phase == Phase::Retrying || watch.phase == Phase::Redetecting,
    ensures
        ({
            let (after, action) = watch_after(watch, WatchEvent::Detected(detected));
            &&& after.ctrl.power == detected.power
            &&& after.ctrl.vendor == detected.vendor
            &&& after.ctrl.runtime_status_path == path_view(detected.runtime_status_path)
            &&& detected.power != watch.ctrl.power || detected.vendor != watch.ctrl.vendor
                ==> action == WatchActionView::Emit(detected.power)
            &&& detected.power == watch.ctrl.power && detected.vendor == watch.ctrl.vendor ==> !(
            action is Emit)
        }),
{
}

/// While the status file is followed, an event that does not delete it has it read, and one
/// that deletes it, an error or the end has the GPU detected anew. The file that is read is the
/// one that is known.
pub proof fn law_events_are_followed_up(watch: WatcherView, event: WatchEvent, path: Seq<u8>)
    requires
        watch.phase == Phase::Listening,
        watch.ctrl.runtime_status_path == Some(path),
    ensures
        ({
            let (after, action) = watch_after(watch, event);
            let kept = event matches WatchEvent::Inotify(mask) && mask & 0x400 != 0x400;
            &&& after.ctrl == watch.ctrl
            &&& kept ==> after.phase == Phase::Reading && action == WatchActionView::ReadStatus {
                path,
            }
            &&& !kept ==> after.phase == Phase::Redetecting && action == WatchActionView::Detect
        }),
{
}

/// A watch is set up in three steps, each after the one before has succeeded: the instance, the
/// watch for changes and deletion of the known file, and the stream. Then events come.
pub proof fn law_watch_is_set_up_in_order(ctrl: DetectedView, path: Seq<u8>)
    requires
        ctrl.runtime_status_path == Some(path),
    ensures
        ({
            let (created, first) = begun(ctrl);
            let (added, second) = watch_after(created, WatchEvent::Succeeded);
            let (opened, third) = watch_after(added, WatchEvent::Succeeded);
            let (listening, fourth) = watch_after(opened, WatchEvent::Succeeded);
            &&& first == WatchActionView::CreateInotify
            &&& second == (WatchActionView::AddWatch { path, mask: 0x402 })
            &&& third == WatchActionView::OpenStream
            &&& fourth == WatchActionView::NextEvent
            &&& listening.phase == Phase::Listening
            &&& listening.ctrl == ctrl
        }),
{
    assert(0x2u32 | 0x400u32 == 0x402u32) by (bit_vector);
}

/// Where there is no status file, a hotplug is awaited; when it comes, the GPU is detected
/// anew, and when it cannot be awaited, thirty seconds pass before the next try.
pub proof fn law_hotplug_is_awaited_without_a_file(ctrl: DetectedView, event: WatchEvent)
    requires
        ctrl.runtime_status_path is None,
    ensures
        ({
            let (waiting, first) = begun(ctrl);
            let (after, action) = watch_after(waiting, event);
            &&& first == WatchActionView::AwaitHotplug
            &&& after.ctrl == ctrl
            &&& event is Succeeded ==> after.phase == Phase::Redetecting && action
                == WatchActionView::Detect
            &&& !(event is Succeeded) ==> after.phase == Phase::Pausing && action
                == WatchActionView::Sleep(30)
        }),
{
}

/// A watch that cannot be set up pauses for three seconds; one whose file cannot be watched
/// has the GPU detected anew first, and reports a change before it pauses.
pub proof fn law_setup_pauses_are_three_seconds(
    watch: WatcherView,
    failure: WatchEvent,
    detected: Detected,
    reported: WatchEvent,
)
    requires
        !(failure is Succeeded),
    ensures
        watch.phase == Phase::Creating || watch.phase == Phase::Opening ==> watch_after(
            watch,
            failure,
        ) == (
            WatcherView { phase: Phase::Pausing, ctrl: watch.ctrl },
            WatchActionView::Sleep(3),
        ),
        watch.phase == Phase::Adding ==> ({
            let (retrying, action) = watch_after(watch, failure);
            let (found, next) = watch_after(retrying, WatchEvent::Detected(detected));
            &&& action == WatchActionView::Detect
            &&& retrying.ctrl == watch.ctrl
            &&& !(next is Emit) ==> found.phase == Phase::Pausing && next == WatchActionView::Sleep(
                3,
            )
            &&& next is Emit ==> watch_after(found, reported) == (
                WatcherView { phase: Phase::Pausing, ctrl: found.ctrl },
                WatchActionView::Sleep(3),
            )
        }),
{
}

/// After a pause, and after a redetection (once its change, if any, was reported), the watch
/// begins anew with what is then known; after a report on a file that is still followed, the
/// next event is awaited. Whether a report went out does not matter.
pub proof fn law_watch_goes_on(watch: WatcherView, event: WatchEvent, detected: Detected)
    ensures
        watch.phase == Phase::Pausing || watch.phase == Phase::ReportingThenRestarting
            ==> watch_after(watch, event) == begun(watch.ctrl),
        watch.phase == Phase::Redetecting && !(watch_after(
            watch,
            WatchEvent::Detected(detected),
        ).1 is Emit) ==> watch_after(watch, WatchEvent::Detected(detected)) == begun(detected@),
        watch.phase == Phase::Redetecting && watch_after(
            watch,
            WatchEvent::Detected(detected),
        ).1 is Emit ==> watch_after(watch, WatchEvent::Detected(detected)).0.phase
            == Phase::ReportingThenRestarting,
        watch.phase == Phase::Reading && watch_after(watch, event).1 is Emit ==> watch_after(
            watch,
            event,
        ).0.phase == Phase::ReportingThenListening,
        watch.phase == Phase::ReportingThenListening ==> watch_after(watch, event) == (
            WatcherView { phase: Phase::Listening, ctrl: watch.ctrl },
            WatchActionView::NextEvent,
        ),
        begun(watch.ctrl).0.ctrl == watch.ctrl,
{
}

/// The wait for a hotplug takes five steps to set up, in order, and any failure on the way or
/// in the wait itself ends it without a device.
pub proof fn law_hotplug_wait_in_order(event: HotplugEvent)
    ensures
        event is Succeeded ==> {
            &&& hotplug_after(HotplugWait::CreateMonitor, event) == HotplugWait::MatchSubsystem
            &&& hotplug_after(HotplugWait::MatchSubsystem, event) == HotplugWait::Listen
            &&& hotplug_after(HotplugWait::Listen, event) == HotplugWait::CreatePoll
            &&& hotplug_after(HotplugWait::CreatePoll, event) == HotplugWait::Register
            &&& hotplug_after(HotplugWait::Register, event) == HotplugWait::Poll
        },
        !(event is Succeeded) ==> {
            &&& hotplug_after(HotplugWait::CreateMonitor, event) == HotplugWait::Over(false)
            &&& hotplug_after(HotplugWait::MatchSubsystem, event) == HotplugWait::Over(false)
            &&& hotplug_after(HotplugWait::Listen, event) == HotplugWait::Over(false)
            &&& hotplug_after(HotplugWait::CreatePoll, event) == HotplugWait::Over(false)
            &&& hotplug_after(HotplugWait::Register, event) == HotplugWait::Over(false)
        },
        !(event is Actions) ==> hotplug_after(HotplugWait::Poll, event) == HotplugWait::Over(false),
        hotplug_after(HotplugWait::Over(true), event) == HotplugWait::Over(true),
        hotplug_after(HotplugWait::Over(false), event) == HotplugWait::Over(false),
{
}

/// The wait ends with a device as soon as one of the pending events has the action `add`,
/// letter for letter; events with any other action, or none, keep it waiting.
pub proof fn law_an_added_device_ends_the_wait(actions: Vec<Option<Vec<u8>>>, i: int, name: Vec<u8>)
    ensures
        0 <= i < actions@.len() && actions@[i] == Some(name) && name@.len() == 3 && name@[0] == 0x61
            && name@[1] == 0x64 && name@[2] == 0x64 ==> hotplug_after(
            HotplugWait::Poll,
            HotplugEvent::Actions(actions),
        ) == HotplugWait::Over(true),
        (forall|j: int|
            0 <= j < actions@.len() ==> (#[trigger] actions@[j] matches Some(other) ==> !(
            other@.len() == 3 && other@[0] == 0x61 && other@[1] == 0x64 && other@[2] == 0x64)))
            ==> hotplug_after(HotplugWait::Poll, HotplugEvent::Actions(actions))
            == HotplugWait::Poll,
{
    if 0 <= i < actions@.len() && actions@[i] == Some(name) && name@.len() == 3 && name@[0] == 0x61
        && name@[1] == 0x64 && name@[2] == 0x64 {
        assert(name@ =~= seq![0x61u8, 0x64u8, 0x64u8]);
        assert(is_add(actions@[i]));
    }
}


/// The names and numbers by which the message bus, the kernel and the clock are addressed.
pub proof fn law_watch_names_and_numbers()
    ensures
        crate::gpu::GPU_ZBUS_PATH@ == "/xyz/ljones/Gpu"@,
        GPU_INTERFACE@ == "xyz.ljones.Gpu"@,
        POWER_STATUS_CHANGED@ == "PowerStatusChanged"@,
        HOTPLUG_SUBSYSTEM@ == "pci"@,
        MODIFY == 0x2,
        DELETE_SELF == 0x400,
        SETUP_PAUSE == 3,
        HOTPLUG_PAUSE == 30,
{
}

} // verus!
