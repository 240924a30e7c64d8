//! Where the user's configuration is kept, and the entry that starts the control centre
//! with the desktop.

use vstd::prelude::*;
use vstd::string::StringSliceAdditionalSpecFns;

use crate::config::{Config, CFG_DIR};
use crate::paths::{join, joined, path_view};

verus! {

/// The desktop entry of the control centre.
pub const DESKTOP_ENTRY: &'static str =
    "[Desktop Entry]\nVersion=1.0\nType=Application\nName=ROG Control Center\nComment=Make your ASUS ROG Laptop go Brrrrr!\nCategories=Settings;\nIcon=rog-control-center\nExec=rog-control-center\nTerminal=false\n";

/// Calls `dirs::config_dir`: the user's configuration directory as raw bytes.
///
/// Which directory that is, and whether there is one, depends on the environment and on the
/// user database. Where there is one, its path is not empty.
#[verifier::external_body]
fn user_config_dir() -> (dir: Option<Vec<u8>>)
    ensures
        dir matches Some(path) ==> path@.len() > 0,
{
    match dirs::config_dir() {
        Some(path) => Some(path.into_os_string().into_encoded_bytes()),
        None => None,
    }
}

/// The directory of the settings below a user's configuration directory. Without one it is
/// taken relative to the current directory.
pub open spec fn settings_dir(home: Option<Seq<u8>>) -> Seq<u8> {
    match home {
        Some(path) => joined(path, "rog".spec_bytes()),
        None => joined(Seq::empty(), "rog".spec_bytes()),
    }
}

/// The directory of the settings below `home`.
pub fn config_dir_below(home: Option<Vec<u8>>) -> (dir: Vec<u8>)
    ensures
        dir@ == settings_dir(path_view(home)),
{
    let base: Vec<u8> = match home {
        Some(path) => path,
        None => Vec::new(),
    };
    join(base.as_slice(), CFG_DIR.as_bytes())
}

impl<N> Config<N> {
    /// The directory of this user's settings.
    pub fn config_dir() -> (dir: Vec<u8>)
        ensures
            exists|home: Option<Seq<u8>>|
                dir@ == #[trigger] settings_dir(home) && (home matches Some(path) ==> path.len()
                    > 0),
    {
        let home = user_config_dir();
        let ghost found = path_view(home);
        let dir = config_dir_below(home);
        assert(dir@ == settings_dir(found));
        dir
    }

    /// The directory that the host has to create before the settings can be written, if any.
    pub fn dir_to_create(dir: Vec<u8>, dir_exists: bool) -> (missing: Option<Vec<u8>>)
        ensures
            missing == if dir_exists {
                None
            } else {
                Some(dir)
            },
    {
        if dir_exists {
            None
        } else {
            Some(dir)
        }
    }
}

/// The directory of the entries that start with the desktop.
pub open spec fn autostart_dir(home: Seq<u8>) -> Seq<u8> {
    joined(home, "autostart".spec_bytes())
}

/// The file of the control centre's own entry.
pub open spec fn desktop_file(home: Seq<u8>) -> Seq<u8> {
    joined(autostart_dir(home), "rog-control-center.desktop".spec_bytes())
}

/// What an update of the entry is waiting for.
#[derive(Debug, Clone, Copy, PartialEq, Eq, Structural)]
pub enum AutostartPhase {
    FindingDir,
    CreatingDir,
    Writing,
    FindingFile,
    Removing,
    Over(AutostartOutcome),
}

/// How an update of the entry ended.
#[derive(Debug, Clone, Copy, PartialEq, Eq, Structural)]
pub enum AutostartOutcome {
    NoConfigDir,
    DirNotCreated,
    Written,
    NotWritten,
    Removed,
    NotRemoved,
    NothingToRemove,
}

/// What the host has to do next.
pub enum AutostartAction {
    /// Does this path exist?
    FindPath(Vec<u8>),
    /// Create this directory and what it stands in.
    CreateDirs(Vec<u8>),
    WriteFile { path: Vec<u8>, content: String },
    RemoveFile(Vec<u8>),
    Finish(AutostartOutcome),
}

/// The mathematical value of an `AutostartAction`.
pub enum AutostartActionView {
    FindPath(Seq<u8>),
    CreateDirs(Seq<u8>),
    WriteFile { path: Seq<u8>, content: Seq<char> },
    RemoveFile(Seq<u8>),
    Finish(AutostartOutcome),
}

impl View for AutostartAction {
    type V = AutostartActionView;

    open spec fn view(&self) -> AutostartActionView {
        match *self {
            AutostartAction::FindPath(path) => AutostartActionView::FindPath(path@),
            AutostartAction::CreateDirs(path) => AutostartActionView::CreateDirs(path@),
            AutostartAction::WriteFile { path, content } => AutostartActionView::WriteFile {
                path: path@,
                content: content@,
            },
            AutostartAction::RemoveFile(path) => AutostartActionView::RemoveFile(path@),
            AutostartAction::Finish(outcome) => AutostartActionView::Finish(outcome),
        }
    }
}

/// How the last action went.
#[derive(Debug, Clone, Copy, PartialEq, Eq, Structural)]
pub enum AutostartEvent {
    Exists(bool),
    Succeeded,
    Failed,
}

/// An update of the entry under way.
pub struct Autostart {
    home: Vec<u8>,
    phase: AutostartPhase,
}

/// The mathematical value of an `Autostart`: the user's configuration directory and the
/// phase.
pub struct AutostartView {
    pub home: Seq<u8>,
    pub phase: AutostartPhase,
}

impl View for Autostart {
    type V = AutostartView;

    closed spec fn view(&self) -> AutostartView {
        AutostartView { home: self.home@, phase: self.phase }
    }
}

/// What the host has to do in a phase.
pub open spec fn action_in(update: AutostartView) -> AutostartActionView {
    match update.phase {
        AutostartPhase::FindingDir => AutostartActionView::FindPath(autostart_dir(update.home)),
        AutostartPhase::CreatingDir => AutostartActionView::CreateDirs(autostart_dir(update.home)),
        AutostartPhase::Writing => AutostartActionView::WriteFile {
            path: desktop_file(update.home),
            content: DESKTOP_ENTRY@,
        },
        AutostartPhase::FindingFile => AutostartActionView::FindPath(desktop_file(update.home)),
        AutostartPhase::Removing => AutostartActionView::RemoveFile(desktop_file(update.home)),
        AutostartPhase::Over(outcome) => AutostartActionView::Finish(outcome),
    }
}

/// The phase in which an update begins.
pub open spec fn first_phase(has_home: bool, enable: bool) -> AutostartPhase {
    if !has_home {
        AutostartPhase::Over(AutostartOutcome::NoConfigDir)
    } else if enable {
        AutostartPhase::FindingDir
    } else {
        AutostartPhase::FindingFile
    }
}

/// The phase that the outcome of an action leads to.
pub open spec fn phase_after(phase: AutostartPhase, event: AutostartEvent) -> AutostartPhase {
    match phase {
        AutostartPhase::FindingDir => if event == AutostartEvent::Exists(true) {
            AutostartPhase::Writing
        } else {
            AutostartPhase::CreatingDir
        },
        AutostartPhase::CreatingDir => if event == AutostartEvent::Succeeded {
            AutostartPhase::Writing
        } else {
            AutostartPhase::Over(AutostartOutcome::DirNotCreated)
        },
        AutostartPhase::Writing => AutostartPhase::Over(
            if event == AutostartEvent::Succeeded {
                AutostartOutcome::Written
            } else {
                AutostartOutcome::NotWritten
            },
        ),
        AutostartPhase::FindingFile => if event == AutostartEvent::Exists(true) {
            AutostartPhase::Removing
        } else {
            AutostartPhase::Over(AutostartOutcome::NothingToRemove)
        },
        AutostartPhase::Removing => AutostartPhase::Over(
            if event == AutostartEvent::Succeeded {
                AutostartOutcome::Removed
            } else {
                AutostartOutcome::NotRemoved
            },
        ),
        AutostartPhase::Over(outcome) => AutostartPhase::Over(outcome),
    }
}

/// Adds or removes the entry below this user's configuration directory: the update, and
/// what the host has to do first. Without such a directory there is nothing to do.
pub fn update_autostart(enable: bool) -> (started: (Autostart, AutostartAction))
    ensures
        started.1@ == action_in(started.0@),
        exists|has_home: bool|
            started.0@.phase == #[trigger] first_phase(has_home, enable) && (has_home
                ==> started.0@.home.len() > 0),
{
    let home = user_config_dir();
    let ghost has_home = home is Some;
    let started = update_autostart_below(home, enable);
    assert(started.0@.phase == first_phase(has_home, enable));
    started
}

/// Adds or removes the entry below `home`.
pub fn update_autostart_below(home: Option<Vec<u8>>, enable: bool) -> (started: (
    Autostart,
    AutostartAction,
))
    ensures
        started.0@.phase == first_phase(home is Some, enable),
        home matches Some(path) ==> started.0@.home == path@,
        started.1@ == action_in(started.0@),
{
    let update = match home {
        None => Autostart {
            home: Vec::new(),
            phase: AutostartPhase::Over(AutostartOutcome::NoConfigDir),
        },
        Some(path) => Autostart {
            home: path,
            phase: if enable {
                AutostartPhase::FindingDir
            } else {
                AutostartPhase::FindingFile
            },
        },
    };
    let action = update.action();
    (update, action)
}

impl Autostart {
    fn dir(&self) -> (path: Vec<u8>)
        ensures
            path@ == autostart_dir(self@.home),
    {
        join(self.home.as_slice(), "autostart".as_bytes())
    }

    fn file(&self) -> (path: Vec<u8>)
        ensures
            path@ == desktop_file(self@.home),
    {
        join(self.dir().as_slice(), "rog-control-center.desktop".as_bytes())
    }

    /// What the host has to do now.
    pub fn action(&self) -> (action: AutostartAction)
        ensures
            action@ == action_in(self@),
    {
        match self.phase {
            AutostartPhase::FindingDir => AutostartAction::FindPath(self.dir()),
            AutostartPhase::CreatingDir => AutostartAction::CreateDirs(self.dir()),
            AutostartPhase::Writing => AutostartAction::WriteFile {
                path: self.file(),
                content: DESKTOP_ENTRY.to_owned(),
            },
            AutostartPhase::FindingFile => AutostartAction::FindPath(self.file()),
            AutostartPhase::Removing => AutostartAction::RemoveFile(self.file()),
            AutostartPhase::Over(outcome) => AutostartAction::Finish(outcome),
        }
    }

    /// Goes on with the outcome of the last action.
    pub fn step(&mut self, event: AutostartEvent) -> (action: AutostartAction)
        ensures
            final(self)@.home == old(self)@.home,
            final(self)@.phase == phase_after(old(self)@.phase, event),
            action@ == action_in(final(self)@),
    {
        let succeeded = event == AutostartEvent::Succeeded;
        let found = event == AutostartEvent::Exists(true);
        self.phase = match self.phase {
            AutostartPhase::FindingDir => if found {
                AutostartPhase::Writing
            } else {
                AutostartPhase::CreatingDir
            },
            AutostartPhase::CreatingDir => if succeeded {
                AutostartPhase::Writing
            } else {
                AutostartPhase::Over(AutostartOutcome::DirNotCreated)
            },
            AutostartPhase::Writing => if succeeded {
                AutostartPhase::Over(AutostartOutcome::Written)
            } else {
                AutostartPhase::Over(AutostartOutcome::NotWritten)
            },
            AutostartPhase::FindingFile => if found {
                AutostartPhase::Removing
            } else {
                AutostartPhase::Over(AutostartOutcome::NothingToRemove)
            },
            AutostartPhase::Removing => if succeeded {
                AutostartPhase::Over(AutostartOutcome::Removed)
            } else {
                AutostartPhase::Over(AutostartOutcome::NotRemoved)
            },
            AutostartPhase::Over(outcome) => AutostartPhase::Over(outcome),
        };
        self.action()
    }
}

/// The files that matter to an entry: the paths that exist, and what the files among them
/// hold.
pub struct Files {
    pub dirs: Set<Seq<u8>>,
    pub contents: Map<Seq<u8>, Seq<char>>,
}

impl Files {
    /// Whether there is a directory or a file at `path`.
    pub open spec fn holds(self, path: Seq<u8>) -> bool {
        self.dirs.contains(path) || self.contents.contains_key(path)
    }

    /// The files after an action that the system carries out, and what it reports.
    pub open spec fn after(self, action: AutostartActionView) -> (Files, AutostartEvent) {
        match action {
            AutostartActionView::FindPath(path) => (self, AutostartEvent::Exists(self.holds(path))),
            AutostartActionView::CreateDirs(path) => (
                Files { dirs: self.dirs.insert(path), ..self },
                AutostartEvent::Succeeded,
            ),
            AutostartActionView::WriteFile { path, content } => (
                Files { contents: self.contents.insert(path, content), ..self },
                AutostartEvent::Succeeded,
            ),
            AutostartActionView::RemoveFile(path) => (
                Files { contents: self.contents.remove(path), ..self },
                AutostartEvent::Succeeded,
            ),
            AutostartActionView::Finish(_) => (self, AutostartEvent::Succeeded),
        }
    }
}

/// The files after `steps` actions of an update, and its phase then.
pub open spec fn update_run(update: AutostartView, files: Files, steps: nat) -> (
    AutostartPhase,
    Files,
)
    decreases steps,
{
    if steps == 0 {
        (update.phase, files)
    } else {
        let (next_files, event) = files.after(action_in(update));
        update_run(
            AutostartView { home: update.home, phase: phase_after(update.phase, event) },
            next_files,
            (steps - 1) as nat,
        )
    }
}

/// The files after a whole update that the system carries out.
pub open spec fn updated(home: Seq<u8>, enable: bool, files: Files) -> (AutostartPhase, Files) {
    update_run(AutostartView { home, phase: first_phase(true, enable) }, files, 3)
}

/// The desktop file is not the directory that it stands in.
proof fn lemma_desktop_file_is_below(home: Seq<u8>)
    ensures
        desktop_file(home) != autostart_dir(home),
{
    let name = "rog-control-center.desktop";
    reveal_strlit("rog-control-center.desktop");
    assert(name.is_ascii()) by {
        assert(forall|i: int| 0 <= i < name@.len() ==> (name@[i] as u32) < 128);
    }
    assert(name.spec_bytes().len() == 26);
    assert(name.spec_bytes()[0] == 0x72);
    assert(desktop_file(home).len() > autostart_dir(home).len());
}

/// Enabling leaves the desktop entry in its file; no other file changes.
pub proof fn law_enabling_writes_the_entry(home: Seq<u8>, files: Files)
    ensures
        updated(home, true, files).0 == AutostartPhase::Over(AutostartOutcome::Written),
        updated(home, true, files).1.contents == files.contents.insert(
            desktop_file(home),
            DESKTOP_ENTRY@,
        ),
        updated(home, true, files).1.holds(autostart_dir(home)),
{
    reveal_with_fuel(update_run, 4);
}

/// Disabling leaves no entry; no other file changes, and no directory does.
pub proof fn law_disabling_removes_the_entry(home: Seq<u8>, files: Files)
    requires
        !files.dirs.contains(desktop_file(home)),
    ensures
        updated(home, false, files).0 is Over,
        !updated(home, false, files).1.holds(desktop_file(home)),
        updated(home, false, files).1.contents == files.contents.remove(desktop_file(home)),
        updated(home, false, files).1.dirs == files.dirs,
{
    reveal_with_fuel(update_run, 4);
    assert(!files.contents.contains_key(desktop_file(home)) ==> files.contents
        == files.contents.remove(desktop_file(home)));
}

/// Disabling undoes enabling: the files are then what they were, where there was no entry.
pub proof fn law_disabling_undoes_enabling(home: Seq<u8>, files: Files)
    requires
        !files.holds(desktop_file(home)),
    ensures
        updated(home, false, updated(home, true, files).1).1.contents == files.contents,
{
    law_enabling_writes_the_entry(home, files);
    lemma_desktop_file_is_below(home);
    reveal_with_fuel(update_run, 4);
    let between = updated(home, true, files).1;
    assert(!between.dirs.contains(desktop_file(home)));
    law_disabling_removes_the_entry(home, between);
    assert(updated(home, false, between).1.contents == files.contents);
}

/// Without a configuration directory nothing is done.
pub proof fn law_no_config_dir_does_nothing(home: Seq<u8>, enable: bool)
    ensures
        action_in(AutostartView { home, phase: first_phase(false, enable) })
            == AutostartActionView::Finish(AutostartOutcome::NoConfigDir),
{
}


/// The settings and the desktop entry have their places below the user's configuration
/// directory: `rog`, and `autostart` with `rog-control-center.desktop` in it. Without such a
/// directory the settings are in `rog`.
pub proof fn law_places_below_home(home: Seq<u8>)
    ensures
        home.len() > 0 && home.last() != 0x2f ==> {
            &&& settings_dir(Some(home)) == home + seq![0x2fu8, 0x72u8, 0x6fu8, 0x67u8]
            &&& autostart_dir(home) == home + seq![0x2fu8, 0x61u8, 0x75u8, 0x74u8, 0x6fu8, 0x73u8, 0x74u8, 0x61u8, 0x72u8, 0x74u8]
        },
        home.len() == 0 || home.last() == 0x2f ==> {
            &&& settings_dir(Some(home)) == home + seq![0x72u8, 0x6fu8, 0x67u8]
            &&& autostart_dir(home) == home + seq![0x61u8, 0x75u8, 0x74u8, 0x6fu8, 0x73u8, 0x74u8, 0x61u8, 0x72u8, 0x74u8]
        },
        settings_dir(None) == seq![0x72u8, 0x6fu8, 0x67u8],
        desktop_file(home) == autostart_dir(home) + seq![0x2fu8, 0x72u8, 0x6fu8, 0x67u8, 0x2du8, 0x63u8, 0x6fu8, 0x6eu8, 0x74u8, 0x72u8, 0x6fu8, 0x6cu8, 0x2du8, 0x63u8, 0x65u8, 0x6eu8, 0x74u8, 0x65u8, 0x72u8, 0x2eu8, 0x64u8, 0x65u8, 0x73u8, 0x6bu8, 0x74u8, 0x6fu8, 0x70u8],
{
    let dir = "rog";
    let autostart = "autostart";
    let name = "rog-control-center.desktop";
    reveal_strlit("rog");
    reveal_strlit("autostart");
    reveal_strlit("rog-control-center.desktop");
    assert(dir.is_ascii()) by {
        assert(forall|i: int| 0 <= i < dir@.len() ==> (dir@[i] as u32) < 128);
    }
    assert(autostart.is_ascii()) by {
        assert(forall|i: int| 0 <= i < autostart@.len() ==> (autostart@[i] as u32) < 128);
    }
    assert(name.is_ascii()) by {
        assert(forall|i: int| 0 <= i < name@.len() ==> (name@[i] as u32) < 128);
    }
    assert(dir.spec_bytes() =~= seq![0x72u8, 0x6fu8, 0x67u8]);
    assert(autostart.spec_bytes() =~= seq![0x61u8, 0x75u8, 0x74u8, 0x6fu8, 0x73u8, 0x74u8, 0x61u8, 0x72u8, 0x74u8]);
    assert(name.spec_bytes() =~= seq![0x72u8, 0x6fu8, 0x67u8, 0x2du8, 0x63u8, 0x6fu8, 0x6eu8, 0x74u8, 0x72u8, 0x6fu8, 0x6cu8, 0x2du8, 0x63u8, 0x65u8, 0x6eu8, 0x74u8, 0x65u8, 0x72u8, 0x2eu8, 0x64u8, 0x65u8, 0x73u8, 0x6bu8, 0x74u8, 0x6fu8, 0x70u8]);
    assert(settings_dir(None) =~= seq![0x72u8, 0x6fu8, 0x67u8]);
    if home.len() > 0 && home.last() != 0x2f {
        assert(settings_dir(Some(home)) =~= home + seq![0x2fu8, 0x72u8, 0x6fu8, 0x67u8]);
        assert(autostart_dir(home) =~= home + seq![0x2fu8, 0x61u8, 0x75u8, 0x74u8, 0x6fu8, 0x73u8, 0x74u8, 0x61u8, 0x72u8, 0x74u8]);
    } else {
        assert(settings_dir(Some(home)) =~= home + seq![0x72u8, 0x6fu8, 0x67u8]);
        assert(autostart_dir(home) =~= home + seq![0x61u8, 0x75u8, 0x74u8, 0x6fu8, 0x73u8, 0x74u8, 0x61u8, 0x72u8, 0x74u8]);
    }
    assert(desktop_file(home) =~= autostart_dir(home) + seq![0x2fu8, 0x72u8, 0x6fu8, 0x67u8, 0x2du8, 0x63u8, 0x6fu8, 0x6eu8, 0x74u8, 0x72u8, 0x6fu8, 0x6cu8, 0x2du8, 0x63u8, 0x65u8, 0x6eu8, 0x74u8, 0x65u8, 0x72u8, 0x2eu8, 0x64u8, 0x65u8, 0x73u8, 0x6bu8, 0x74u8, 0x6fu8, 0x70u8]);
}

/// What each phase of an update asks for: the directory is looked for and created, the entry
/// is written, looked for and removed, each at its own path.
pub proof fn law_phases_act_on_their_paths(home: Seq<u8>, outcome: AutostartOutcome)
    ensures
        action_in(AutostartView { home, phase: AutostartPhase::FindingDir })
            == AutostartActionView::FindPath(autostart_dir(home)),
        action_in(AutostartView { home, phase: AutostartPhase::CreatingDir })
            == AutostartActionView::CreateDirs(autostart_dir(home)),
        action_in(AutostartView { home, phase: AutostartPhase::Writing }) == (
        AutostartActionView::WriteFile { path: desktop_file(home), content: DESKTOP_ENTRY@ }),
        action_in(AutostartView { home, phase: AutostartPhase::FindingFile })
            == AutostartActionView::FindPath(desktop_file(home)),
        action_in(AutostartView { home, phase: AutostartPhase::Removing })
            == AutostartActionView::RemoveFile(desktop_file(home)),
        action_in(AutostartView { home, phase: AutostartPhase::Over(outcome) })
            == AutostartActionView::Finish(outcome),
{
}

/// The entry is written only where its directory is there or could be created, and removed
/// only where it is there. Each failure has its own outcome and ends the update, and nothing
/// follows the end.
pub proof fn law_failures_end_the_update(event: AutostartEvent, outcome: AutostartOutcome)
    ensures
        first_phase(true, true) == AutostartPhase::FindingDir,
        first_phase(true, false) == AutostartPhase::FindingFile,
        event == AutostartEvent::Exists(true) ==> {
            &&& phase_after(AutostartPhase::FindingDir, event) == AutostartPhase::Writing
            &&& phase_after(AutostartPhase::FindingFile, event) == AutostartPhase::Removing
        },
        event != AutostartEvent::Exists(true) ==> {
            &&& phase_after(AutostartPhase::FindingDir, event) == AutostartPhase::CreatingDir
            &&& phase_after(AutostartPhase::FindingFile, event) == AutostartPhase::Over(
                AutostartOutcome::NothingToRemove,
            )
        },
        event == AutostartEvent::Succeeded ==> {
            &&& phase_after(AutostartPhase::CreatingDir, event) == AutostartPhase::Writing
            &&& phase_after(AutostartPhase::Writing, event) == AutostartPhase::Over(
                AutostartOutcome::Written,
            )
            &&& phase_after(AutostartPhase::Removing, event) == AutostartPhase::Over(
                AutostartOutcome::Removed,
            )
        },
        event != AutostartEvent::Succeeded ==> {
            &&& phase_after(AutostartPhase::CreatingDir, event) == AutostartPhase::Over(
                AutostartOutcome::DirNotCreated,
            )
            &&& phase_after(AutostartPhase::Writing, event) == AutostartPhase::Over(
                AutostartOutcome::NotWritten,
            )
            &&& phase_after(AutostartPhase::Removing, event) == AutostartPhase::Over(
                AutostartOutcome::NotRemoved,
            )
        },
        phase_after(AutostartPhase::Over(outcome), event) == AutostartPhase::Over(outcome),
{
}

} // verus!
