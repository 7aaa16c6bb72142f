use razer_battery::reader::{BatteryError, BatteryReading};
use razer_battery::tray::{
    icon_color, icon_label, rgb, tray_command, AppState, DisplayKey, IconClick, MenuItem,
    TrayCommand, TrayEvent, MENU_QUIT, MENU_REFRESH, MENU_STARTUP, MENU_UNINSTALL, TIMER_ID,
};

#[test]
fn rgb_packs_red_green_blue() {
    assert_eq!(rgb(1, 2, 3), 0x030201);
    assert_eq!(rgb(255, 255, 255), 0xffffff);
    assert_eq!(rgb(0, 0, 0), 0);
}

#[test]
fn icon_colors_follow_thresholds() {
    assert_eq!(icon_color(None), rgb(64, 68, 72));
    assert_eq!(icon_color(Some(0)), rgb(198, 52, 45));
    assert_eq!(icon_color(Some(15)), rgb(198, 52, 45));
    assert_eq!(icon_color(Some(16)), rgb(198, 130, 35));
    assert_eq!(icon_color(Some(35)), rgb(198, 130, 35));
    assert_eq!(icon_color(Some(36)), rgb(35, 145, 82));
    assert_eq!(icon_color(Some(100)), 0x52_91_23);
}

#[test]
fn icon_label_shows_percent_or_question_mark() {
    assert_eq!(icon_label(Some(BatteryReading { percent: 100, raw: 255 })), "100");
    assert_eq!(icon_label(Some(BatteryReading { percent: 7, raw: 18 })), "7");
    assert_eq!(icon_label(Some(BatteryReading { percent: 42, raw: 107 })), "42");
    assert_eq!(icon_label(None), "?");
}

#[test]
fn icon_is_redrawn_only_when_display_changes() {
    let mut state = AppState::new(true);
    assert_eq!(state.current_display_key(), DisplayKey::Unknown);
    assert!(state.refresh(Ok(BatteryReading { percent: 50, raw: 128 })));
    assert_eq!(state.display_key, DisplayKey::Battery(50));
    assert!(!state.refresh(Ok(BatteryReading { percent: 50, raw: 127 })));
    assert!(state.refresh(Ok(BatteryReading { percent: 51, raw: 130 })));
    assert!(state.refresh(Err(BatteryError::new("lost".to_string()))));
    assert_eq!(state.display_key, DisplayKey::Error);
    assert!(!state.refresh(Err(BatteryError::new("still lost".to_string()))));
    assert_eq!(state.error.as_deref(), Some("still lost"));
    assert!(state.reading.is_none());
    assert!(state.startup_enabled);
}

#[test]
fn tooltip_shows_percent_error_or_unknown() {
    let mut state = AppState::new(false);
    assert_eq!(state.tooltip(), "Razer Battery Display: battery unknown");
    state.refresh(Ok(BatteryReading { percent: 88, raw: 224 }));
    assert_eq!(state.tooltip(), "Razer Viper V4 Pro: 88%");
    state.refresh(Err(BatteryError::new("no mouse".to_string())));
    assert_eq!(state.tooltip(), "Razer Battery Display: no mouse");
}

#[test]
fn menu_lists_commands_with_startup_check() {
    let state = AppState::new(true);
    let items = state.menu_items();
    assert_eq!(items.len(), 5);
    let described: Vec<String> = items
        .iter()
        .map(|item| match item {
            MenuItem::Command { id, label, checked } => format!("{id}:{label}:{checked}"),
            MenuItem::Separator => "-".to_string(),
        })
        .collect();
    assert_eq!(
        described,
        vec![
            format!("{MENU_REFRESH}:Refresh:false"),
            format!("{MENU_STARTUP}:Start with Windows:true"),
            "-".to_string(),
            format!("{MENU_UNINSTALL}:Uninstall:false"),
            format!("{MENU_QUIT}:Quit:false"),
        ]
    );
    let unchecked = AppState::new(false).menu_items();
    assert!(matches!(unchecked[1], MenuItem::Command { checked: false, .. }));
}

#[test]
fn startup_toggle_only_follows_saved_setting() {
    let mut state = AppState::new(false);
    state.toggle_startup(false);
    assert!(!state.startup_enabled);
    state.toggle_startup(true);
    assert!(state.startup_enabled);
    state.toggle_startup(true);
    assert!(!state.startup_enabled);
}

#[test]
fn messages_map_to_commands() {
    assert_eq!(tray_command(TrayEvent::Icon(IconClick::RightButtonUp)), TrayCommand::ShowMenu);
    assert_eq!(tray_command(TrayEvent::Icon(IconClick::LeftButtonUp)), TrayCommand::Refresh);
    assert_eq!(tray_command(TrayEvent::Icon(IconClick::LeftDoubleClick)), TrayCommand::ShowTooltip);
    assert_eq!(tray_command(TrayEvent::Icon(IconClick::Other)), TrayCommand::Handled);
    assert_eq!(tray_command(TrayEvent::Command(MENU_REFRESH)), TrayCommand::Refresh);
    assert_eq!(tray_command(TrayEvent::Command(MENU_STARTUP)), TrayCommand::ToggleStartup);
    assert_eq!(tray_command(TrayEvent::Command(MENU_UNINSTALL)), TrayCommand::Uninstall);
    assert_eq!(tray_command(TrayEvent::Command(MENU_QUIT | 0x10000)), TrayCommand::DestroyWindow);
    assert_eq!(tray_command(TrayEvent::Command(7)), TrayCommand::Handled);
    assert_eq!(tray_command(TrayEvent::Timer(TIMER_ID)), TrayCommand::Refresh);
    assert_eq!(tray_command(TrayEvent::Timer(2)), TrayCommand::Handled);
    assert_eq!(tray_command(TrayEvent::Close), TrayCommand::DestroyWindow);
    assert_eq!(tray_command(TrayEvent::Destroy), TrayCommand::RemoveIconAndQuit);
    assert_eq!(tray_command(TrayEvent::Other), TrayCommand::Default);
}
