//! The tray icon: its two-item menu, rebuilt whenever the pin state
//! changes, and what its events ask for.

use vstd::prelude::*;
use vstd::string::*;

use crate::effect::Effect;

verus! {

/// A menu item that carries a check mark.
#[derive(Debug)]
pub struct CheckItem {
    pub id: String,
    pub text: String,
    pub enabled: bool,
    pub checked: bool,
}

/// A menu item without a check mark.
#[derive(Debug)]
pub struct PlainItem {
    pub id: String,
    pub text: String,
    pub enabled: bool,
}

/// The tray's context menu: the pin item above the quit item.
#[derive(Debug)]
pub struct TrayMenu {
    pub pin: CheckItem,
    pub quit: PlainItem,
}

/// The tray icon as it is handed to the host.
#[derive(Debug)]
pub struct TrayIcon {
    pub id: String,
    pub tooltip: String,
    pub menu: TrayMenu,
    pub show_menu_on_left_click: bool,
}

/// A mouse button, as tray events name it.
#[derive(Clone, Copy, Debug, PartialEq, Eq, Structural)]
pub enum MouseButton {
    Left,
    Right,
    Middle,
}

/// Whether a mouse button went down or came up.
#[derive(Clone, Copy, Debug, PartialEq, Eq, Structural)]
pub enum MouseButtonState {
    Up,
    Down,
}

/// What happened on the tray icon.
#[derive(Clone, Copy, Debug, PartialEq, Eq, Structural)]
pub enum TrayEvent {
    /// A button was pressed or released on the icon.
    Click { button: MouseButton, button_state: MouseButtonState },
    /// Anything else: the pointer entering, moving or leaving, a double
    /// click.
    Other,
}

/// What a click on a menu item asks for.
#[derive(Clone, Copy, Debug, PartialEq, Eq, Structural)]
pub enum MenuAction {
    /// End the process with the given code.
    Exit { code: i32 },
    /// Flip the main window's always-on-top flag.
    TogglePin,
    /// The item is not one of this menu.
    Ignore,
}

impl TrayMenu {
    /// Whether this is the tray's menu with the pin item checked as given:
    /// both items enabled, under their fixed ids and texts.
    pub open spec fn shows(&self, is_pinned: bool) -> bool {
        &&& self.pin.id@ == "toggle_pin"@
        &&& self.pin.text@ == "\u{7f6e}\u{9876}\u{7a97}\u{53e3}"@
        &&& self.pin.enabled
        &&& self.pin.checked == is_pinned
        &&& self.quit.id@ == "quit"@
        &&& self.quit.text@ == "\u{9000}\u{51fa}"@
        &&& self.quit.enabled
    }

    /// Whether the pin item carries its check mark.
    pub fn pin_checked(&self) -> (checked: bool)
        ensures
            checked == self.pin.checked,
    {
        self.pin.checked
    }
}

impl TrayIcon {
    /// Whether this is the tray icon of a fresh start: its fixed id and
    /// tooltip, the menu with the pin item unchecked, and no menu on a left
    /// click.
    pub open spec fn is_fresh(&self) -> bool {
        &&& self.id@ == "main-tray"@
        &&& self.tooltip@ == "Entropy"@
        &&& self.menu.shows(false)
        &&& !self.show_menu_on_left_click
    }
}

/// What a menu item's id asks for: `quit` ends the process with code 0,
/// `toggle_pin` flips the pin, and any other id is ignored.
pub open spec fn menu_action_of(id: Seq<char>) -> MenuAction {
    if id == "quit"@ {
        MenuAction::Exit { code: 0 }
    } else if id == "toggle_pin"@ {
        MenuAction::TogglePin
    } else {
        MenuAction::Ignore
    }
}

/// Whether a tray event is the release of the left button on the icon.
pub open spec fn is_left_release(event: TrayEvent) -> bool {
    event == (TrayEvent::Click { button: MouseButton::Left, button_state: MouseButtonState::Up })
}

/// Builds the tray menu with the pin item checked as given. The check mark
/// of a menu that is showing cannot be changed, so every change of the pin
/// state replaces the menu by the one built here.
pub fn update_pin_menu_state(is_pinned: bool) -> (menu: TrayMenu)
    ensures
        menu.shows(is_pinned),
        menu.pin.checked == is_pinned,
{
    TrayMenu {
        pin: CheckItem {
            id: String::from_str("toggle_pin"),
            text: String::from_str("\u{7f6e}\u{9876}\u{7a97}\u{53e3}"),
            enabled: true,
            checked: is_pinned,
        },
        quit: PlainItem {
            id: String::from_str("quit"),
            text: String::from_str("\u{9000}\u{51fa}"),
            enabled: true,
        },
    }
}

/// Describes the tray icon of a fresh start, its pin item unchecked.
pub fn create_tray() -> (icon: TrayIcon)
    ensures
        icon.is_fresh(),
{
    TrayIcon {
        id: String::from_str("main-tray"),
        tooltip: String::from_str("Entropy"),
        menu: update_pin_menu_state(false),
        show_menu_on_left_click: false,
    }
}

/// Decides what a click on the menu item with the given id asks for.
pub fn on_menu_event(id: &str) -> (action: MenuAction)
    ensures
        action == menu_action_of(id@),
{
    let id = String::from_str(id);
    if id == String::from_str("quit") {
        MenuAction::Exit { code: 0 }
    } else if id == String::from_str("toggle_pin") {
        MenuAction::TogglePin
    } else {
        MenuAction::Ignore
    }
}

/// Flips the pin, given the main window's always-on-top flag as the host
/// reported it (`None` where it could not be read, which counts as off).
/// The window takes the opposite flag, and the front-end is told of it.
pub fn toggle_pin(always_on_top: Option<bool>) -> (effects: Vec<Effect>)
    ensures
        effects@ == seq![
            Effect::SetAlwaysOnTop(always_on_top != Some(true)),
            Effect::EmitPinState(always_on_top != Some(true)),
        ],
{
    let pinned = match always_on_top {
        Some(flag) => !flag,
        None => true,
    };
    let mut effects: Vec<Effect> = Vec::new();
    effects.push(Effect::SetAlwaysOnTop(pinned));
    effects.push(Effect::EmitPinState(pinned));
    effects
}

/// Decides whether a tray event toggles the main window's visibility: only
/// the release of the left button does.
pub fn on_tray_icon_event(event: TrayEvent) -> (toggles: bool)
    ensures
        toggles == is_left_release(event),
{
    match event {
        TrayEvent::Click { button: MouseButton::Left, button_state: MouseButtonState::Up } => true,
        _ => false,
    }
}

/// Shows the main window if it is hidden and hides it if it shows, given
/// its visibility as the host reported it (`None` where it could not be
/// read, which counts as hidden). A window that is shown also gets the
/// focus.
pub fn toggle_visibility(visible: Option<bool>) -> (effects: Vec<Effect>)
    ensures
        effects@ == if visible == Some(true) {
            seq![Effect::Hide]
        } else {
            seq![Effect::Show, Effect::SetFocus]
        },
{
    let mut effects: Vec<Effect> = Vec::new();
    let shown = match visible {
        Some(flag) => flag,
        None => false,
    };
    if shown {
        effects.push(Effect::Hide);
    } else {
        effects.push(Effect::Show);
        effects.push(Effect::SetFocus);
    }
    effects
}

} // verus!
