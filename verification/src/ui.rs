//! What the tray reflects. The checkable menu items and the tray icon are a
//! pure function of the coordinator's state; the UI layer recomputes them
//! from state-change notifications instead of toggling sibling widgets from
//! each callback site.

use vstd::prelude::*;

use crate::coordinator::Event;
use crate::state::{str_eq, AccessMode, BindMode};

verus! {

/// The checked and enabled flags of the five checkable tray menu items. The
/// selected item of each group is checked and disabled (clicking it again
/// would do nothing); every other item is unchecked and enabled.
#[derive(Clone, Copy, Debug, PartialEq, Eq, Structural)]
pub struct MenuChecks {
    pub auto_checked: bool,
    pub auto_enabled: bool,
    pub proxy_checked: bool,
    pub proxy_enabled: bool,
    pub direct_checked: bool,
    pub direct_enabled: bool,
    pub socks_checked: bool,
    pub socks_enabled: bool,
    pub http_checked: bool,
    pub http_enabled: bool,
}

/// Renders the menu state: with no active agent the Direct item is selected;
/// otherwise the current access mode's item is. The bind group follows the
/// current bind mode independently.
pub fn menu_checks(active: bool, access: AccessMode, bind: BindMode) -> (r: MenuChecks)
    ensures
        r.auto_checked == (active && access is Auto),
        r.proxy_checked == (active && access is Proxy),
        r.direct_checked == !active,
        r.socks_checked == (bind is Socks),
        r.http_checked == (bind is Http),
        r.auto_enabled == !r.auto_checked,
        r.proxy_enabled == !r.proxy_checked,
        r.direct_enabled == !r.direct_checked,
        r.socks_enabled == !r.socks_checked,
        r.http_enabled == !r.http_checked,
{
    let auto_checked = active && matches!(access, AccessMode::Auto);
    let proxy_checked = active && matches!(access, AccessMode::Proxy);
    let direct_checked = !active;
    let socks_checked = matches!(bind, BindMode::Socks);
    let http_checked = matches!(bind, BindMode::Http);
    MenuChecks {
        auto_checked,
        auto_enabled: !auto_checked,
        proxy_checked,
        proxy_enabled: !proxy_checked,
        direct_checked,
        direct_enabled: !direct_checked,
        socks_checked,
        socks_enabled: !socks_checked,
        http_checked,
        http_enabled: !http_checked,
    }
}

/// The window theme, as far as the icon choice cares.
#[derive(Clone, Copy, Debug, PartialEq, Eq, Structural)]
pub enum Theme {
    Light,
    Dark,
}

/// The tray icon variants the application ships.
#[derive(Clone, Copy, Debug, PartialEq, Eq, Structural)]
pub enum TrayIcon {
    DarkActive,
    DarkInactive,
    LightActive,
    LightInactive,
}

/// Chooses the tray icon for an activity state and theme; with an unknown
/// theme the icon is left as it is.
pub fn tray_icon(active: bool, theme: Option<Theme>) -> (r: Option<TrayIcon>)
    ensures
        r == match theme {
            Some(Theme::Dark) => if active {
                Some(TrayIcon::DarkActive)
            } else {
                Some(TrayIcon::DarkInactive)
            },
            Some(Theme::Light) => if active {
                Some(TrayIcon::LightActive)
            } else {
                Some(TrayIcon::LightInactive)
            },
            None => None::<TrayIcon>,
        },
{
    match (active, theme) {
        (true, Some(Theme::Dark)) => Some(TrayIcon::DarkActive),
        (false, Some(Theme::Dark)) => Some(TrayIcon::DarkInactive),
        (true, Some(Theme::Light)) => Some(TrayIcon::LightActive),
        (false, Some(Theme::Light)) => Some(TrayIcon::LightInactive),
        _ => None,
    }
}

/// A click on one of the tray menu items.
#[derive(Clone, Copy, Debug, PartialEq, Eq, Structural)]
pub enum MenuCommand {
    SelectAuto,
    SelectProxy,
    SelectDirect,
    SelectSocks,
    SelectHttp,
    OpenSettings,
    Quit,
}

pub open spec fn spec_menu_command(id: Seq<char>) -> Option<MenuCommand> {
    if id == "auto_model"@ {
        Some(MenuCommand::SelectAuto)
    } else if id == "proxy_model"@ {
        Some(MenuCommand::SelectProxy)
    } else if id == "direct_model"@ {
        Some(MenuCommand::SelectDirect)
    } else if id == "socks_model"@ {
        Some(MenuCommand::SelectSocks)
    } else if id == "http_model"@ {
        Some(MenuCommand::SelectHttp)
    } else if id == "setting"@ {
        Some(MenuCommand::OpenSettings)
    } else if id == "quit"@ {
        Some(MenuCommand::Quit)
    } else {
        None
    }
}

/// Maps a clicked menu item id to its command; unknown ids map to nothing.
pub fn menu_command(id: &str) -> (r: Option<MenuCommand>)
    ensures
        r == spec_menu_command(id@),
{
    if str_eq(id, "auto_model") {
        Some(MenuCommand::SelectAuto)
    } else if str_eq(id, "proxy_model") {
        Some(MenuCommand::SelectProxy)
    } else if str_eq(id, "direct_model") {
        Some(MenuCommand::SelectDirect)
    } else if str_eq(id, "socks_model") {
        Some(MenuCommand::SelectSocks)
    } else if str_eq(id, "http_model") {
        Some(MenuCommand::SelectHttp)
    } else if str_eq(id, "setting") {
        Some(MenuCommand::OpenSettings)
    } else if str_eq(id, "quit") {
        Some(MenuCommand::Quit)
    } else {
        None
    }
}

/// The coordinator event a menu command triggers. Opening the settings
/// window and quitting are the caller's own affairs, not transitions.
pub fn command_event(cmd: MenuCommand) -> (r: Option<Event>)
    ensures
        r == match cmd {
            MenuCommand::SelectAuto => Some(Event::SetAccessMode(AccessMode::Auto)),
            MenuCommand::SelectProxy => Some(Event::SetAccessMode(AccessMode::Proxy)),
            MenuCommand::SelectDirect => Some(Event::RequestStop),
            MenuCommand::SelectSocks => Some(Event::SetBindMode(BindMode::Socks)),
            MenuCommand::SelectHttp => Some(Event::SetBindMode(BindMode::Http)),
            MenuCommand::OpenSettings => None::<Event>,
            MenuCommand::Quit => None::<Event>,
        },
{
    match cmd {
        MenuCommand::SelectAuto => Some(Event::SetAccessMode(AccessMode::Auto)),
        MenuCommand::SelectProxy => Some(Event::SetAccessMode(AccessMode::Proxy)),
        MenuCommand::SelectDirect => Some(Event::RequestStop),
        MenuCommand::SelectSocks => Some(Event::SetBindMode(BindMode::Socks)),
        MenuCommand::SelectHttp => Some(Event::SetBindMode(BindMode::Http)),
        MenuCommand::OpenSettings => None,
        MenuCommand::Quit => None,
    }
}

} // verus!
