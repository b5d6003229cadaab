use traymonitor::settings::{plan_poll, AppSettings, AppTheme, PollPlan};
use traymonitor::tray::TrayItem;

fn configured() -> AppSettings {
    let mut s = AppSettings::default();
    s.server_url = "http://localhost:8810".to_string();
    s.user = "admin".to_string();
    s.token = "admin".to_string();
    s
}

#[test]
fn defaults_are_unconfigured() {
    let s = AppSettings::default();
    assert!(s.enable_notifications);
    assert_eq!(s.notifications_total, 100);
    assert_eq!(s.theme, AppTheme::System);
    assert_eq!(s.poll_interval_in_secs, 10);
    assert!(!s.paused);
    assert!(!s.is_configured());
    assert_eq!(AppTheme::default(), AppTheme::System);
}

#[test]
fn configuration_needs_url_user_and_token() {
    assert!(configured().is_configured());
    let mut s = configured();
    s.token = String::new();
    assert!(!s.is_configured());
    assert_eq!(configured().get_dashboard_url(), "http://localhost:8810/lite");
}

#[test]
fn poll_plan_waits_then_fetches() {
    assert_eq!(plan_poll(&AppSettings::default()), PollPlan::AwaitConfiguration(10));
    let mut s = configured();
    s.poll_interval_in_secs = 30;
    assert_eq!(plan_poll(&s), PollPlan::Fetch(30));
    s.paused = true;
    assert_eq!(plan_poll(&s), PollPlan::AwaitResume(30));
}

#[test]
fn test_tray_item_from_menu_id() {
    let tray_item = TrayItem::from_menu_id("show_configurations").unwrap();
    assert_eq!(tray_item, TrayItem::ShowConfigurations);

    let result = TrayItem::from_menu_id("invalid_item");
    assert!(result.is_err());
}

#[test]
fn tray_ids_round_trip() {
    for item in [
        TrayItem::ShowConfigurations,
        TrayItem::ViewBuilds,
        TrayItem::ClearBuilds,
        TrayItem::ViewAlerts,
        TrayItem::ClearAlerts,
        TrayItem::Preferences,
        TrayItem::Quit,
    ] {
        assert_eq!(TrayItem::from_menu_id(item.as_str()), Ok(item));
    }
    assert_eq!(
        TrayItem::from_menu_id("nope"),
        Err("Invalid tray item id \"nope\"".to_string())
    );
}
