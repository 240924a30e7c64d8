//! The settings of the control centre.

use vstd::prelude::*;
use vstd::std_specs::convert::FromSpecImpl;

verus! {

/// The directory below the user's configuration directory that holds the settings.
pub const CFG_DIR: &'static str = "rog";

/// The file that holds the settings.
pub const CFG_FILE_NAME: &'static str = "rog-control-center.cfg";

/// The settings. `N` says which notifications are enabled.
#[derive(Debug, Clone)]
pub struct Config<N> {
    pub run_in_background: bool,
    pub startup_in_background: bool,
    pub enable_tray_icon: bool,
    pub enable_autostart: bool,
    pub ac_command: String,
    pub bat_command: String,
    pub dark_mode: bool,
    /// Meant for devices like the ROG Ally.
    pub start_fullscreen: bool,
    pub fullscreen_width: u32,
    pub fullscreen_height: u32,
    /// Comes last in the file.
    pub notifications: N,
}

/// The settings as version 4.6.1 kept them.
#[derive(Debug, Clone)]
pub struct Config461<N> {
    pub run_in_background: bool,
    pub startup_in_background: bool,
    pub ac_command: String,
    pub bat_command: String,
    pub enable_dgpu_notifications: bool,
    pub dark_mode: bool,
    /// Comes last in the file.
    pub enabled_notifications: N,
}

impl<N> Config<N> {
    /// Whether the settings that older versions did not have are at their defaults.
    pub open spec fn has_window_defaults(self) -> bool {
        &&& self.enable_tray_icon
        &&& !self.enable_autostart
        &&& self.dark_mode
        &&& !self.start_fullscreen
        &&& self.fullscreen_width == 1920
        &&& self.fullscreen_height == 1080
    }
}

impl<N: Default> Config<N> {
    /// Whether these are the settings of a fresh installation.
    pub open spec fn is_fresh(self) -> bool {
        &&& self.has_window_defaults()
        &&& self.run_in_background
        &&& !self.startup_in_background
        &&& self.ac_command@ == Seq::<char>::empty()
        &&& self.bat_command@ == Seq::<char>::empty()
        &&& call_ensures(N::default, (), self.notifications)
    }
}

impl<N: Default> Default for Config<N> {
    fn default() -> (config: Self)
        ensures
            config.is_fresh(),
    {
        Config {
            run_in_background: true,
            startup_in_background: false,
            enable_tray_icon: true,
            enable_autostart: false,
            dark_mode: true,
            start_fullscreen: false,
            fullscreen_width: 1920,
            fullscreen_height: 1080,
            notifications: N::default(),
            ac_command: String::new(),
            bat_command: String::new(),
        }
    }
}

impl<N: Default> Config<N> {
    /// The settings of a fresh installation.
    pub fn new() -> (config: Self)
        ensures
            config.is_fresh(),
    {
        Config::default()
    }
}

impl<N> Config<N> {
    /// The name of the file that holds the settings.
    pub fn file_name(&self) -> (name: String)
        ensures
            name@ == "rog-control-center.cfg"@,
    {
        CFG_FILE_NAME.to_owned()
    }
}

/// The settings that those of version 4.6.1 amount to: what both versions have is kept,
/// but dark mode is switched on; the rest is at its default.
pub open spec fn migrated<N>(c: Config461<N>) -> Config<N> {
    Config {
        run_in_background: c.run_in_background,
        startup_in_background: c.startup_in_background,
        enable_tray_icon: true,
        enable_autostart: false,
        ac_command: c.ac_command,
        bat_command: c.bat_command,
        dark_mode: true,
        start_fullscreen: false,
        fullscreen_width: 1920,
        fullscreen_height: 1080,
        notifications: c.enabled_notifications,
    }
}

impl<N> FromSpecImpl<Config461<N>> for Config<N> {
    open spec fn obeys_from_spec() -> bool {
        true
    }

    open spec fn from_spec(c: Config461<N>) -> Config<N> {
        migrated(c)
    }
}

impl<N> From<Config461<N>> for Config<N> {
    fn from(c: Config461<N>) -> (config: Self)
        ensures
            config == migrated(c),
    {
        Config {
            run_in_background: c.run_in_background,
            startup_in_background: c.startup_in_background,
            enable_tray_icon: true,
            enable_autostart: false,
            ac_command: c.ac_command,
            bat_command: c.bat_command,
            dark_mode: true,
            start_fullscreen: false,
            fullscreen_width: 1920,
            fullscreen_height: 1080,
            notifications: c.enabled_notifications,
        }
    }
}

/// A migration keeps the user's commands, background settings and notifications, and sets
/// everything else as a fresh installation does.
pub proof fn law_migration_keeps_the_users_choices<N>(c: Config461<N>)
    ensures
        migrated(c).run_in_background == c.run_in_background,
        migrated(c).startup_in_background == c.startup_in_background,
        migrated(c).ac_command == c.ac_command,
        migrated(c).bat_command == c.bat_command,
        migrated(c).notifications == c.enabled_notifications,
        migrated(c).has_window_defaults(),
{
}


/// What the settings of a fresh installation say.
pub proof fn law_fresh_settings<N: Default>(config: Config<N>)
    requires
        config.is_fresh(),
    ensures
        config.run_in_background,
        !config.startup_in_background,
        config.enable_tray_icon,
        !config.enable_autostart,
        config.ac_command@.len() == 0,
        config.bat_command@.len() == 0,
        config.dark_mode,
        !config.start_fullscreen,
        config.fullscreen_width == 1920,
        config.fullscreen_height == 1080,
        call_ensures(N::default, (), config.notifications),
{
}

/// What older settings did not have is off or at its usual size after a migration, but for
/// the tray icon and dark mode, which are on; what else the older settings said does not
/// matter.
pub proof fn law_migration_sets_the_rest<N>(c: Config461<N>)
    ensures
        migrated(c).enable_tray_icon,
        !migrated(c).enable_autostart,
        migrated(c).dark_mode,
        !migrated(c).start_fullscreen,
        migrated(c).fullscreen_width == 1920,
        migrated(c).fullscreen_height == 1080,
{
}

} // verus!
