use std::collections::{BTreeMap, BTreeSet};

use rog_control::autostart::{
    config_dir_below, update_autostart, update_autostart_below, AutostartAction, AutostartEvent,
    AutostartOutcome,
};
use rog_control::config::Config;

/// An in-memory file system that can be told to refuse changes.
struct Disk {
    dirs: BTreeSet<Vec<u8>>,
    files: BTreeMap<Vec<u8>, String>,
    read_only: bool,
}

impl Disk {
    fn new() -> Disk {
        Disk { dirs: BTreeSet::new(), files: BTreeMap::new(), read_only: false }
    }

    fn holds(&self, path: &[u8]) -> bool {
        self.dirs.contains(path) || self.files.contains_key(path)
    }

    fn update(&mut self, home: Option<&str>, enable: bool) -> AutostartOutcome {
        let home = home.map(|path| path.as_bytes().to_vec());
        let (mut update, mut action) = update_autostart_below(home, enable);
        loop {
            let event = match action {
                AutostartAction::Finish(outcome) => return outcome,
                AutostartAction::FindPath(path) => AutostartEvent::Exists(self.holds(&path)),
                _ if self.read_only => AutostartEvent::Failed,
                AutostartAction::CreateDirs(path) => {
                    self.dirs.insert(path);
                    AutostartEvent::Succeeded
                }
                AutostartAction::WriteFile { path, content } => {
                    self.files.insert(path, content);
                    AutostartEvent::Succeeded
                }
                AutostartAction::RemoveFile(path) => {
                    self.files.remove(&path);
                    AutostartEvent::Succeeded
                }
            };
            action = update.step(event);
        }
    }
}

const HOME: &str = "/home/user/.config";
const ENTRY: &[u8] = b"/home/user/.config/autostart/rog-control-center.desktop";

#[test]
fn test_update_autostart() {
    let mut disk = Disk::new();

    assert_eq!(disk.update(Some(HOME), true), AutostartOutcome::Written);
    assert!(disk.holds(ENTRY));
    let content = disk.files[ENTRY].clone();
    assert!(content.contains("Name=ROG Control Center"));
    assert!(content.contains("Exec=rog-control-center"));

    assert_eq!(disk.update(Some(HOME), false), AutostartOutcome::Removed);
    assert!(!disk.holds(ENTRY));
}

#[test]
fn desktop_entry_is_written_in_full() {
    let mut disk = Disk::new();
    disk.dirs.insert(b"/home/user/.config/autostart".to_vec());
    disk.update(Some(HOME), true);
    assert_eq!(
        disk.files[ENTRY],
        "[Desktop Entry]\n\
         Version=1.0\n\
         Type=Application\n\
         Name=ROG Control Center\n\
         Comment=Make your ASUS ROG Laptop go Brrrrr!\n\
         Categories=Settings;\n\
         Icon=rog-control-center\n\
         Exec=rog-control-center\n\
         Terminal=false\n"
    );
}

#[test]
fn disabling_without_an_entry_does_nothing() {
    let mut disk = Disk::new();
    assert_eq!(disk.update(Some(HOME), false), AutostartOutcome::NothingToRemove);
    assert!(disk.dirs.is_empty());
    assert!(disk.files.is_empty());
}

#[test]
fn without_a_config_dir_nothing_is_done() {
    let mut disk = Disk::new();
    assert_eq!(disk.update(None, true), AutostartOutcome::NoConfigDir);
    assert_eq!(disk.update(None, false), AutostartOutcome::NoConfigDir);
    assert!(disk.files.is_empty());
}

#[test]
fn refused_changes_are_reported() {
    let mut disk = Disk::new();
    disk.read_only = true;
    assert_eq!(disk.update(Some(HOME), true), AutostartOutcome::DirNotCreated);
    disk.dirs.insert(b"/home/user/.config/autostart".to_vec());
    assert_eq!(disk.update(Some(HOME), true), AutostartOutcome::NotWritten);
    disk.files.insert(ENTRY.to_vec(), String::new());
    assert_eq!(disk.update(Some(HOME), false), AutostartOutcome::NotRemoved);
}

#[test]
fn update_starts_below_the_users_config_dir() {
    match (dirs::config_dir(), update_autostart(true).1) {
        (Some(home), AutostartAction::FindPath(path)) => {
            let expected = home.join("autostart");
            assert_eq!(path, expected.into_os_string().into_encoded_bytes());
        }
        (None, AutostartAction::Finish(AutostartOutcome::NoConfigDir)) => {}
        _ => panic!("another directory was taken"),
    }
}

#[test]
fn settings_are_kept_below_the_users_config_dir() {
    assert_eq!(config_dir_below(Some(HOME.as_bytes().to_vec())), b"/home/user/.config/rog");
    assert_eq!(config_dir_below(None), b"rog");
    let expected = dirs::config_dir().unwrap_or_default().join("rog");
    assert_eq!(Config::<()>::config_dir(), expected.into_os_string().into_encoded_bytes());
}

#[test]
fn only_a_missing_settings_directory_is_created() {
    let dir = b"/home/user/.config/rog".to_vec();
    assert_eq!(Config::<()>::dir_to_create(dir.clone(), true), None);
    assert_eq!(Config::<()>::dir_to_create(dir.clone(), false), Some(dir));
}
