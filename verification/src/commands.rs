//! The remaining entry points of the front-end and the global shortcut.

use vstd::prelude::*;
use vstd::string::*;

use crate::effect::Effect;

verus! {

/// A key combination.
#[derive(Clone, Copy, Debug, PartialEq, Eq, Structural)]
pub struct Shortcut {
    pub control: bool,
    pub shift: bool,
    pub alt: bool,
    pub meta: bool,
    /// The letter key, in upper case.
    pub key: char,
}

/// Whether the keys of a shortcut went down or came up.
#[derive(Clone, Copy, Debug, PartialEq, Eq, Structural)]
pub enum ShortcutState {
    Pressed,
    Released,
}

/// The greeting for the given name.
pub open spec fn greeting_of(name: Seq<char>) -> Seq<char> {
    "Hello, "@ + name + "! You've been greeted from Rust!"@
}

/// Greets the given name.
pub fn greet(name: &str) -> (greeting: String)
    ensures
        greeting@ == greeting_of(name@),
{
    String::from_str("Hello, ").concat(name).concat("! You've been greeted from Rust!")
}

/// Brings the main window before the user: shown, restored from the
/// minimised state and focused, in this order.
pub fn force_show_window() -> (effects: Vec<Effect>)
    ensures
        effects@ == seq![Effect::Show, Effect::Unminimize, Effect::SetFocus],
{
    let mut effects: Vec<Effect> = Vec::new();
    effects.push(Effect::Show);
    effects.push(Effect::Unminimize);
    effects.push(Effect::SetFocus);
    effects
}

/// The process-wide shortcut that toggles the main window's visibility:
/// Control, Shift and P.
pub fn global_shortcut() -> (shortcut: Shortcut)
    ensures
        shortcut == (Shortcut { control: true, shift: true, alt: false, meta: false, key: 'P' }),
{
    Shortcut { control: true, shift: true, alt: false, meta: false, key: 'P' }
}

/// Decides whether an event of the global shortcut toggles the main
/// window's visibility: the press does, the release does not.
pub fn on_shortcut(state: ShortcutState) -> (toggles: bool)
    ensures
        toggles == (state == ShortcutState::Pressed),
{
    match state {
        ShortcutState::Pressed => true,
        ShortcutState::Released => false,
    }
}

} // verus!
