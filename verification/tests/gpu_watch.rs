use inotify::{EventMask, WatchMask};
use rog_control::gpu::{CtrlGpu, Detected, GfxPower, GfxVendor};
use rog_control::gpu_watch::{
    HotplugEvent, HotplugWait, WatchAction, WatchEvent, Watcher, DELETE_SELF, MODIFY,
};

const STATUS: &[u8] = b"/sys/bus/pci/devices/0000:01:00.0/power/runtime_status";

fn found(power: GfxPower, has_path: bool) -> Detected {
    Detected {
        power,
        vendor: GfxVendor::Nvidia,
        runtime_status_path: if has_path { Some(STATUS.to_vec()) } else { None },
    }
}

fn listening() -> Watcher {
    let (mut watcher, action) = CtrlGpu::new(found(GfxPower::Active, true)).start_watcher();
    assert!(matches!(action, WatchAction::CreateInotify));
    match watcher.step(WatchEvent::Succeeded) {
        WatchAction::AddWatch { path, mask } => {
            assert_eq!(path, STATUS);
            assert_eq!(mask, (WatchMask::MODIFY | WatchMask::DELETE_SELF).bits());
        }
        _ => panic!("the watch is added next"),
    }
    assert!(matches!(watcher.step(WatchEvent::Succeeded), WatchAction::OpenStream));
    assert!(matches!(watcher.step(WatchEvent::Succeeded), WatchAction::NextEvent));
    watcher
}

#[test]
fn masks_are_those_of_inotify() {
    assert_eq!(MODIFY, WatchMask::MODIFY.bits());
    assert_eq!(DELETE_SELF, WatchMask::DELETE_SELF.bits());
    assert_eq!(DELETE_SELF, EventMask::DELETE_SELF.bits());
}

#[test]
fn modified_status_is_read_and_reported_once() {
    let mut watcher = listening();
    match watcher.step(WatchEvent::Inotify(EventMask::MODIFY.bits())) {
        WatchAction::ReadStatus { path } => assert_eq!(path, STATUS),
        _ => panic!("the status is read next"),
    }
    assert!(matches!(
        watcher.step(WatchEvent::Status(GfxPower::Suspended)),
        WatchAction::Emit(GfxPower::Suspended)
    ));
    assert_eq!(watcher.ctrl().power_status(), GfxPower::Suspended);
    assert!(matches!(watcher.step(WatchEvent::Failed), WatchAction::NextEvent));
    watcher.step(WatchEvent::Inotify(MODIFY));
    assert!(matches!(
        watcher.step(WatchEvent::Status(GfxPower::Suspended)),
        WatchAction::NextEvent
    ));
}

#[test]
fn status_that_cannot_be_read_is_unknown() {
    let mut watcher = listening();
    watcher.step(WatchEvent::Inotify(MODIFY));
    assert!(matches!(watcher.step(WatchEvent::Failed), WatchAction::Emit(GfxPower::Unknown)));
}

#[test]
fn deleted_status_file_restarts_the_watch() {
    let mut watcher = listening();
    assert!(matches!(
        watcher.step(WatchEvent::Inotify(EventMask::DELETE_SELF.bits() | MODIFY)),
        WatchAction::Detect
    ));
    assert!(matches!(
        watcher.step(WatchEvent::Detected(found(GfxPower::Off, false))),
        WatchAction::Emit(GfxPower::Off)
    ));
    assert!(matches!(watcher.step(WatchEvent::Succeeded), WatchAction::AwaitHotplug));
}

#[test]
fn broken_stream_without_change_is_not_reported() {
    let mut watcher = listening();
    assert!(matches!(watcher.step(WatchEvent::Failed), WatchAction::Detect));
    assert!(matches!(
        watcher.step(WatchEvent::Detected(found(GfxPower::Active, true))),
        WatchAction::CreateInotify
    ));
}

#[test]
fn setup_is_retried_after_three_seconds() {
    let (mut watcher, _) = CtrlGpu::new(found(GfxPower::Active, true)).start_watcher();
    assert!(matches!(watcher.step(WatchEvent::Failed), WatchAction::Sleep(3)));
    assert!(matches!(watcher.step(WatchEvent::Succeeded), WatchAction::CreateInotify));
    watcher.step(WatchEvent::Succeeded);
    watcher.step(WatchEvent::Succeeded);
    assert!(matches!(watcher.step(WatchEvent::Failed), WatchAction::Sleep(3)));
}

#[test]
fn failed_watch_detects_then_pauses() {
    let (mut watcher, _) = CtrlGpu::new(found(GfxPower::Active, true)).start_watcher();
    watcher.step(WatchEvent::Succeeded);
    assert!(matches!(watcher.step(WatchEvent::Failed), WatchAction::Detect));
    assert!(matches!(
        watcher.step(WatchEvent::Detected(found(GfxPower::Unknown, true))),
        WatchAction::Emit(GfxPower::Unknown)
    ));
    assert!(matches!(watcher.step(WatchEvent::Succeeded), WatchAction::Sleep(3)));
    assert!(matches!(watcher.step(WatchEvent::Succeeded), WatchAction::CreateInotify));
}

#[test]
fn without_a_status_file_a_hotplug_is_awaited() {
    let (mut watcher, action) = CtrlGpu::new(found(GfxPower::AsusDisabled, false)).start_watcher();
    assert!(matches!(action, WatchAction::AwaitHotplug));
    assert!(matches!(watcher.step(WatchEvent::Failed), WatchAction::Sleep(30)));
    assert!(matches!(watcher.step(WatchEvent::Succeeded), WatchAction::AwaitHotplug));
    assert!(matches!(watcher.step(WatchEvent::Succeeded), WatchAction::Detect));
    assert!(matches!(
        watcher.step(WatchEvent::Detected(found(GfxPower::Active, true))),
        WatchAction::Emit(GfxPower::Active)
    ));
    assert!(matches!(watcher.step(WatchEvent::Succeeded), WatchAction::CreateInotify));
}

fn action(name: &str) -> Option<Vec<u8>> {
    Some(name.as_bytes().to_vec())
}

#[test]
fn hotplug_wait_ends_with_an_added_device() {
    let mut wait = HotplugWait::start();
    for expected in [
        HotplugWait::CreateMonitor,
        HotplugWait::MatchSubsystem,
        HotplugWait::Listen,
        HotplugWait::CreatePoll,
        HotplugWait::Register,
    ] {
        assert_eq!(wait, expected);
        assert_eq!(wait.step(HotplugEvent::Failed), HotplugWait::Over(false));
        wait = wait.step(HotplugEvent::Succeeded);
    }
    assert_eq!(wait, HotplugWait::Poll);
    assert_eq!(wait.step(HotplugEvent::Actions(Vec::new())), HotplugWait::Poll);
    assert_eq!(
        wait.step(HotplugEvent::Actions(vec![action("remove"), None, action("adds"), action("ad")])),
        HotplugWait::Poll
    );
    assert_eq!(
        wait.step(HotplugEvent::Actions(vec![action("bind"), action("add")])),
        HotplugWait::Over(true)
    );
    assert_eq!(wait.step(HotplugEvent::Failed), HotplugWait::Over(false));
}
