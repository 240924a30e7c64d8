use rog_control::config::{Config, Config461};

#[derive(Debug, Clone, Default, PartialEq)]
struct Notifications {
    enabled: bool,
}

#[test]
fn fresh_settings() {
    for config in [Config::<Notifications>::default(), Config::<Notifications>::new()] {
        assert!(config.run_in_background);
        assert!(!config.startup_in_background);
        assert!(config.enable_tray_icon);
        assert!(!config.enable_autostart);
        assert_eq!(config.ac_command, "");
        assert_eq!(config.bat_command, "");
        assert!(config.dark_mode);
        assert!(!config.start_fullscreen);
        assert_eq!(config.fullscreen_width, 1920);
        assert_eq!(config.fullscreen_height, 1080);
        assert_eq!(config.notifications, Notifications::default());
        assert_eq!(config.file_name(), "rog-control-center.cfg");
    }
}

#[test]
fn migration_keeps_the_users_choices() {
    let old = Config461 {
        run_in_background: false,
        startup_in_background: true,
        ac_command: "plugged".to_string(),
        bat_command: "unplugged".to_string(),
        enable_dgpu_notifications: true,
        dark_mode: false,
        enabled_notifications: Notifications { enabled: true },
    };
    let config: Config<Notifications> = old.into();
    assert!(!config.run_in_background);
    assert!(config.startup_in_background);
    assert_eq!(config.ac_command, "plugged");
    assert_eq!(config.bat_command, "unplugged");
    assert!(config.notifications.enabled);
    assert!(config.enable_tray_icon);
    assert!(!config.enable_autostart);
    assert!(config.dark_mode);
    assert!(!config.start_fullscreen);
    assert_eq!(config.fullscreen_width, 1920);
    assert_eq!(config.fullscreen_height, 1080);
}
