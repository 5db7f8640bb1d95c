use usage_monitor::config::{AppConfig, CONFIG_DIR_NAME, CONFIG_FILE_NAME};
use usage_monitor::settings::{PollingSettings, ThemeColors, ThemeSettings};
use usage_monitor::state::PollingState;
use usage_monitor::tray::{create_system_tray, menu_command, TrayCommand};

#[test]
fn test_polling_state() {
    let mut state = PollingState::new();
    assert!(!state.is_enabled());

    state.start();
    assert!(state.is_enabled());

    state.stop();
    assert!(!state.is_enabled());
}

#[test]
fn polling_state_start_and_stop_repeat() {
    let mut state = PollingState::new();
    state.stop();
    assert!(!state.is_enabled());
    state.start();
    state.start();
    assert!(state.is_enabled());
}

#[test]
fn app_config_default() {
    let c = AppConfig::default();
    assert_eq!(c.polling_interval_secs, 300);
    assert_eq!(c.start_on_login, false);
    assert_eq!(CONFIG_DIR_NAME, "ClaudeUsageMonitor");
    assert_eq!(CONFIG_FILE_NAME, "config.json");
}

#[test]
fn start_request_with_and_without_interval() {
    let c = AppConfig { polling_interval_secs: 120, start_on_login: true };
    let r = c.start_request(Some(45));
    assert_eq!(r.interval_secs, 45);
    assert_eq!(r.persist, Some(AppConfig { polling_interval_secs: 45, start_on_login: true }));
    let r = c.start_request(None);
    assert_eq!(r.interval_secs, 120);
    assert_eq!(r.persist, None);
}

#[test]
fn theme_and_polling_defaults() {
    let colors = ThemeColors::default();
    assert_eq!(colors.primary_start, "#667eea");
    assert_eq!(colors.primary_end, "#764ba2");
    assert_eq!(colors.accent, "#22c55e");
    assert_eq!(colors.warning, "#f97316");
    assert_eq!(colors.critical, "#ef4444");
    let theme = ThemeSettings::default();
    assert_eq!(theme.preset, "default");
    assert_eq!(theme.custom.accent, "#22c55e");
    assert_eq!(PollingSettings::default().interval, 300);
}

#[test]
fn tray_is_absent() {
    assert_eq!(create_system_tray(), None);
}

#[test]
fn tray_menu_commands() {
    assert_eq!(menu_command("show"), TrayCommand::Show);
    assert_eq!(menu_command("hide"), TrayCommand::Hide);
    assert_eq!(menu_command("always_on_top"), TrayCommand::ToggleAlwaysOnTop);
    assert_eq!(menu_command("refresh"), TrayCommand::Refresh);
    assert_eq!(menu_command("quit"), TrayCommand::Quit);
    assert_eq!(menu_command("Quit"), TrayCommand::Nothing);
    assert_eq!(menu_command(""), TrayCommand::Nothing);
}
