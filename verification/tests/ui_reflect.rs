use secc::coordinator::Event;
use secc::state::{AccessMode, BindMode};
use secc::ui::{menu_checks, menu_command, tray_icon, command_event, MenuCommand, Theme, TrayIcon};

#[test]
fn active_auto_socks_checks() {
    let m = menu_checks(true, AccessMode::Auto, BindMode::Socks);
    assert!(m.auto_checked && !m.auto_enabled);
    assert!(!m.proxy_checked && m.proxy_enabled);
    assert!(!m.direct_checked && m.direct_enabled);
    assert!(m.socks_checked && !m.socks_enabled);
    assert!(!m.http_checked && m.http_enabled);
}

#[test]
fn inactive_state_selects_direct() {
    let m = menu_checks(false, AccessMode::Proxy, BindMode::Http);
    assert!(m.direct_checked && !m.direct_enabled);
    assert!(!m.auto_checked && m.auto_enabled);
    assert!(!m.proxy_checked && m.proxy_enabled);
    assert!(m.http_checked && !m.http_enabled);
    assert!(!m.socks_checked && m.socks_enabled);
}

#[test]
fn tray_icon_follows_activity_and_theme() {
    assert_eq!(tray_icon(true, Some(Theme::Dark)), Some(TrayIcon::DarkActive));
    assert_eq!(tray_icon(false, Some(Theme::Dark)), Some(TrayIcon::DarkInactive));
    assert_eq!(tray_icon(true, Some(Theme::Light)), Some(TrayIcon::LightActive));
    assert_eq!(tray_icon(false, Some(Theme::Light)), Some(TrayIcon::LightInactive));
    assert_eq!(tray_icon(true, None), None);
    assert_eq!(tray_icon(false, None), None);
}

#[test]
fn menu_ids_map_to_commands() {
    assert_eq!(menu_command("auto_model"), Some(MenuCommand::SelectAuto));
    assert_eq!(menu_command("proxy_model"), Some(MenuCommand::SelectProxy));
    assert_eq!(menu_command("direct_model"), Some(MenuCommand::SelectDirect));
    assert_eq!(menu_command("socks_model"), Some(MenuCommand::SelectSocks));
    assert_eq!(menu_command("http_model"), Some(MenuCommand::SelectHttp));
    assert_eq!(menu_command("setting"), Some(MenuCommand::OpenSettings));
    assert_eq!(menu_command("quit"), Some(MenuCommand::Quit));
    assert_eq!(menu_command("unknown_item"), None);
}

#[test]
fn commands_map_to_coordinator_events() {
    assert!(matches!(
        command_event(MenuCommand::SelectAuto),
        Some(Event::SetAccessMode(AccessMode::Auto))
    ));
    assert!(matches!(
        command_event(MenuCommand::SelectProxy),
        Some(Event::SetAccessMode(AccessMode::Proxy))
    ));
    assert!(matches!(
        command_event(MenuCommand::SelectDirect),
        Some(Event::RequestStop)
    ));
    assert!(matches!(
        command_event(MenuCommand::SelectSocks),
        Some(Event::SetBindMode(BindMode::Socks))
    ));
    assert!(matches!(
        command_event(MenuCommand::SelectHttp),
        Some(Event::SetBindMode(BindMode::Http))
    ));
    assert!(command_event(MenuCommand::OpenSettings).is_none());
    assert!(command_event(MenuCommand::Quit).is_none());
}
