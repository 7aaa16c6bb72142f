//! The tray icon's state and decisions: what it shows, when it is redrawn,
//! what its menu holds, and what each window message asks for.
use vstd::prelude::*;
use crate::reader::{BatteryError, BatteryReading};
use crate::text::{
    decimal, lemma_decimal_reads_back, owned, push_decimal, push_str, spec_parse_u32,
};

verus! {

/// Id of the tray icon.
pub const TRAY_UID: u32 = 1;
/// Id of the poll timer.
pub const TIMER_ID: usize = 1;
/// Milliseconds between two battery polls (5 minutes).
pub const POLL_MS: u32 = 300000;
/// Menu command: read the battery now.
pub const MENU_REFRESH: usize = 1001;
/// Menu command: turn starting with Windows on or off.
pub const MENU_STARTUP: usize = 1002;
/// Menu command: uninstall.
pub const MENU_UNINSTALL: usize = 1003;
/// Menu command: quit.
pub const MENU_QUIT: usize = 1004;

/// A GDI colour (`COLORREF`): red in the low byte, then green, then blue.
pub open spec fn spec_rgb(r: u8, g: u8, b: u8) -> u32 {
    (r + 256 * g + 65536 * b) as u32
}

/// The icon's background: grey when no level is known, red up to 15 %,
/// orange up to 35 %, green above.
pub open spec fn spec_icon_color(percent: Option<u8>) -> u32 {
    match percent {
        None => spec_rgb(64, 68, 72),
        Some(p) => if p <= 15 {
            spec_rgb(198, 52, 45)
        } else if p <= 35 {
            spec_rgb(198, 130, 35)
        } else {
            spec_rgb(35, 145, 82)
        },
    }
}

/// A GDI colour from its red, green and blue parts.
pub fn rgb(r: u8, g: u8, b: u8) -> (c: u32)
    ensures
        c == spec_rgb(r, g, b),
{
    let c = (r as u32) | ((g as u32) << 8) | ((b as u32) << 16);
    assert(((r as u32) | ((g as u32) << 8) | ((b as u32) << 16)) == r + 256 * g + 65536 * b)
        by (bit_vector);
    c
}

/// The background colour of the icon for a percentage, if one is known.
pub fn icon_color(percent: Option<u8>) -> (c: u32)
    ensures
        c == spec_icon_color(percent),
{
    match percent {
        None => rgb(64, 68, 72),
        Some(p) => if p <= 15 {
            rgb(198, 52, 45)
        } else if p <= 35 {
            rgb(198, 130, 35)
        } else {
            rgb(35, 145, 82)
        },
    }
}

/// The text drawn on the icon: the percentage, or `?`.
pub open spec fn spec_icon_label(reading: Option<BatteryReading>) -> Seq<char> {
    match reading {
        Some(r) => decimal(r.percent as nat),
        None => "?"@,
    }
}

/// The text drawn on the icon.
pub fn icon_label(reading: Option<BatteryReading>) -> (label: String)
    ensures
        label@ == spec_icon_label(reading),
{
    match reading {
        Some(r) => {
            let mut label = String::new();
            push_decimal(&mut label, r.percent);
            assert(label@ =~= decimal(r.percent as nat));
            label
        },
        None => owned("?"),
    }
}

/// What the icon shows, which decides whether it must be redrawn.
#[derive(Debug, Clone, Copy, PartialEq, Eq, Structural)]
pub enum DisplayKey {
    Unknown,
    Battery(u8),
    Error,
}

/// The state of the tray: the last reading or error, what the icon shows,
/// and whether the app starts with Windows.
pub struct AppState {
    pub reading: Option<BatteryReading>,
    pub error: Option<String>,
    pub display_key: DisplayKey,
    pub startup_enabled: bool,
}

/// What the icon should show for a reading and an error.
pub open spec fn spec_display_key(reading: Option<BatteryReading>, has_error: bool) -> DisplayKey {
    match reading {
        Some(r) => DisplayKey::Battery(r.percent),
        None => if has_error {
            DisplayKey::Error
        } else {
            DisplayKey::Unknown
        },
    }
}

/// The tooltip: the percentage, or the error, or that the level is unknown.
pub open spec fn spec_tooltip(reading: Option<BatteryReading>, error: Option<Seq<char>>) -> Seq<
    char,
> {
    match reading {
        Some(r) => "Razer Viper V4 Pro: "@ + decimal(r.percent as nat) + "%"@,
        None => "Razer Battery Display: "@ + match error {
            Some(e) => e,
            None => "battery unknown"@,
        },
    }
}

/// The error of a state by its text.
pub open spec fn error_view(error: Option<String>) -> Option<Seq<char>> {
    match error {
        Some(e) => Some(e@),
        None => None,
    }
}

/// An entry of the tray menu.
pub enum MenuItem {
    /// A command with its id, label and check mark.
    Command { id: usize, label: String, checked: bool },
    Separator,
}

/// The model of a menu entry.
pub enum MenuItemModel {
    Command { id: usize, label: Seq<char>, checked: bool },
    Separator,
}

impl View for MenuItem {
    type V = MenuItemModel;

    open spec fn view(&self) -> MenuItemModel {
        match self {
            MenuItem::Command { id, label, checked } => MenuItemModel::Command {
                id: *id,
                label: label@,
                checked: *checked,
            },
            MenuItem::Separator => MenuItemModel::Separator,
        }
    }
}

/// The tray menu: Refresh, Start with Windows (checked when on), a
/// separator, Uninstall, Quit.
pub open spec fn spec_menu(startup_enabled: bool) -> Seq<MenuItemModel> {
    seq![
        MenuItemModel::Command { id: MENU_REFRESH, label: "Refresh"@, checked: false },
        MenuItemModel::Command {
            id: MENU_STARTUP,
            label: "Start with Windows"@,
            checked: startup_enabled,
        },
        MenuItemModel::Separator,
        MenuItemModel::Command { id: MENU_UNINSTALL, label: "Uninstall"@, checked: false },
        MenuItemModel::Command { id: MENU_QUIT, label: "Quit"@, checked: false },
    ]
}

/// A mouse event on the tray icon.
#[derive(Debug, Clone, Copy, PartialEq, Eq, Structural)]
pub enum IconClick {
    RightButtonUp,
    LeftButtonUp,
    LeftDoubleClick,
    Other,
}

/// A window message, as far as the tray cares.
#[derive(Debug, Clone, Copy, PartialEq, Eq, Structural)]
pub enum TrayEvent {
    /// The icon's callback message.
    Icon(IconClick),
    /// `WM_COMMAND` with its `wparam`.
    Command(usize),
    /// `WM_TIMER` with its timer id.
    Timer(usize),
    /// `WM_CLOSE`.
    Close,
    /// `WM_DESTROY`.
    Destroy,
    /// Any other message.
    Other,
}

/// What the window does about a message.
#[derive(Debug, Clone, Copy, PartialEq, Eq, Structural)]
pub enum TrayCommand {
    ShowMenu,
    Refresh,
    ShowTooltip,
    ToggleStartup,
    Uninstall,
    DestroyWindow,
    RemoveIconAndQuit,
    Handled,
    Default,
}

/// What each message asks for: the icon's right click opens the menu, a left
/// click refreshes, a double click shows the tooltip; menu commands are
/// told apart by the low word of `wparam`; the poll timer refreshes; close
/// destroys the window, and destroying it removes the icon and quits.
pub open spec fn spec_tray_command(event: TrayEvent) -> TrayCommand {
    match event {
        TrayEvent::Icon(IconClick::RightButtonUp) => TrayCommand::ShowMenu,
        TrayEvent::Icon(IconClick::LeftButtonUp) => TrayCommand::Refresh,
        TrayEvent::Icon(IconClick::LeftDoubleClick) => TrayCommand::ShowTooltip,
        TrayEvent::Icon(IconClick::Other) => TrayCommand::Handled,
        TrayEvent::Command(wparam) => {
            let id = wparam % 65536;
            if id == MENU_REFRESH {
                TrayCommand::Refresh
            } else if id == MENU_STARTUP {
                TrayCommand::ToggleStartup
            } else if id == MENU_UNINSTALL {
                TrayCommand::Uninstall
            } else if id == MENU_QUIT {
                TrayCommand::DestroyWindow
            } else {
                TrayCommand::Handled
            }
        },
        TrayEvent::Timer(id) => if id == TIMER_ID {
            TrayCommand::Refresh
        } else {
            TrayCommand::Handled
        },
        TrayEvent::Close => TrayCommand::DestroyWindow,
        TrayEvent::Destroy => TrayCommand::RemoveIconAndQuit,
        TrayEvent::Other => TrayCommand::Default,
    }
}

/// What the window does about a message.
pub fn tray_command(event: TrayEvent) -> (command: TrayCommand)
    ensures
        command == spec_tray_command(event),
{
    match event {
        TrayEvent::Icon(click) => match click {
            IconClick::RightButtonUp => TrayCommand::ShowMenu,
            IconClick::LeftButtonUp => TrayCommand::Refresh,
            IconClick::LeftDoubleClick => TrayCommand::ShowTooltip,
            IconClick::Other => TrayCommand::Handled,
        },
        TrayEvent::Command(wparam) => {
            let id = wparam & 0xffff;
            assert(wparam & 0xffff == wparam % 65536) by (bit_vector);
            if id == MENU_REFRESH {
                TrayCommand::Refresh
            } else if id == MENU_STARTUP {
                TrayCommand::ToggleStartup
            } else if id == MENU_UNINSTALL {
                TrayCommand::Uninstall
            } else if id == MENU_QUIT {
                TrayCommand::DestroyWindow
            } else {
                TrayCommand::Handled
            }
        },
        TrayEvent::Timer(id) => if id == TIMER_ID {
            TrayCommand::Refresh
        } else {
            TrayCommand::Handled
        },
        TrayEvent::Close => TrayCommand::DestroyWindow,
        TrayEvent::Destroy => TrayCommand::RemoveIconAndQuit,
        TrayEvent::Other => TrayCommand::Default,
    }
}

impl AppState {
    /// A state with no reading yet.
    pub fn new(startup_enabled: bool) -> (s: Self)
        ensures
            s.reading is None,
            s.error is None,
            s.display_key == DisplayKey::Unknown,
            s.startup_enabled == startup_enabled,
    {
        AppState { reading: None, error: None, display_key: DisplayKey::Unknown, startup_enabled }
    }

    /// What the icon should show now.
    pub fn current_display_key(&self) -> (key: DisplayKey)
        ensures
            key == spec_display_key(self.reading, self.error is Some),
    {
        match self.reading {
            Some(reading) => DisplayKey::Battery(reading.percent),
            None => if self.error.is_some() {
                DisplayKey::Error
            } else {
                DisplayKey::Unknown
            },
        }
    }

    /// Takes the outcome of a battery read; says whether the icon must be
    /// redrawn, which is exactly when what it shows changes.
    pub fn refresh(&mut self, result: Result<BatteryReading, BatteryError>) -> (redraw: bool)
        ensures
            final(self).startup_enabled == old(self).startup_enabled,
            match result {
                Ok(r) => final(self).reading == Some(r) && final(self).error is None,
                Err(e) => final(self).reading is None && error_view(final(self).error) == Some(e@),
            },
            final(self).display_key == spec_display_key(
                final(self).reading,
                final(self).error is Some,
            ),
            redraw == (final(self).display_key != old(self).display_key),
    {
        match result {
            Ok(reading) => {
                self.reading = Some(reading);
                self.error = None;
            },
            Err(err) => {
                self.reading = None;
                self.error = Some(err.message());
            },
        }
        let next_key = self.current_display_key();
        if next_key != self.display_key {
            self.display_key = next_key;
            true
        } else {
            false
        }
    }

    /// The tooltip text.
    pub fn tooltip(&self) -> (tip: String)
        ensures
            tip@ == spec_tooltip(self.reading, error_view(self.error)),
    {
        let mut tip = String::new();
        match self.reading {
            Some(reading) => {
                push_str(&mut tip, "Razer Viper V4 Pro: ");
                push_decimal(&mut tip, reading.percent);
                push_str(&mut tip, "%");
            },
            None => {
                push_str(&mut tip, "Razer Battery Display: ");
                match &self.error {
                    Some(e) => push_str(&mut tip, e.as_str()),
                    None => push_str(&mut tip, "battery unknown"),
                }
            },
        }
        assert(tip@ =~= spec_tooltip(self.reading, error_view(self.error)));
        tip
    }

    /// The tray menu.
    pub fn menu_items(&self) -> (items: Vec<MenuItem>)
        ensures
            items@.map_values(|m: MenuItem| m@) == spec_menu(self.startup_enabled),
    {
        let mut items: Vec<MenuItem> = Vec::new();
        items.push(MenuItem::Command { id: MENU_REFRESH, label: owned("Refresh"), checked: false });
        items.push(
            MenuItem::Command {
                id: MENU_STARTUP,
                label: owned("Start with Windows"),
                checked: self.startup_enabled,
            },
        );
        items.push(MenuItem::Separator);
        items.push(
            MenuItem::Command { id: MENU_UNINSTALL, label: owned("Uninstall"), checked: false },
        );
        items.push(MenuItem::Command { id: MENU_QUIT, label: owned("Quit"), checked: false });
        assert(items@.map_values(|m: MenuItem| m@) =~= spec_menu(self.startup_enabled));
        items
    }

    /// Takes whether the flipped startup setting was saved; only a saved
    /// setting is shown.
    pub fn toggle_startup(&mut self, saved: bool)
        ensures
            final(self).startup_enabled == (if saved {
                !old(self).startup_enabled
            } else {
                old(self).startup_enabled
            }),
            final(self).reading == old(self).reading,
            final(self).error == old(self).error,
            final(self).display_key == old(self).display_key,
    {
        if saved {
            self.startup_enabled = !self.startup_enabled;
        }
    }
}


/// With a reading, the tooltip is `Razer Viper V4 Pro: `, then a number that
/// reads back as the reading's percentage, then `%`.
pub proof fn lemma_tooltip_shows_percent(reading: BatteryReading, error: Option<Seq<char>>)
    ensures
        ({
            let t = spec_tooltip(Some(reading), error);
            &&& t.len() >= 22
            &&& t.subrange(0, 20) == "Razer Viper V4 Pro: "@
            &&& t.last() == '%'
            &&& spec_parse_u32(t.subrange(20, t.len() - 1)) == Ok::<u32, Seq<char>>(
                reading.percent as u32,
            )
        }),
{
    reveal_strlit("Razer Viper V4 Pro: ");
    reveal_strlit("%");
    let digits = decimal(reading.percent as nat);
    lemma_decimal_reads_back(reading.percent as nat);
    let t = spec_tooltip(Some(reading), error);
    assert(t == "Razer Viper V4 Pro: "@ + digits + "%"@);
    assert(t.subrange(0, 20) =~= "Razer Viper V4 Pro: "@);
    assert(t.subrange(20, t.len() - 1) =~= digits);
}

/// The icon's background by level: red from 0 to 15 %, orange from 16 to
/// 35 %, green from 36 % up, grey when no level is known.
pub proof fn lemma_icon_color_by_level(percent: u8)
    ensures
        percent <= 15 ==> spec_icon_color(Some(percent)) == 0x2D34C6,
        16 <= percent <= 35 ==> spec_icon_color(Some(percent)) == 0x2382C6,
        36 <= percent ==> spec_icon_color(Some(percent)) == 0x529123,
        spec_icon_color(None) == 0x484440,
{
}

} // verus!
