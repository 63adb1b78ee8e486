//! The remembered geometry of the window and the transitions on it.

use vstd::prelude::*;

use crate::effect::Effect;

verus! {

/// Width of the main layout, in logical pixels.
pub const MAIN_WIDTH: u32 = 385;

/// Height of the main layout, in logical pixels.
pub const MAIN_HEIGHT: u32 = 640;

/// Width of the mini layout, in logical pixels.
pub const MINI_WIDTH: u32 = 180;

/// Height of the mini layout, in logical pixels.
pub const MINI_HEIGHT: u32 = 44;

/// A remembered screen position. While `initialized` is false nothing was
/// ever recorded and the coordinates carry no meaning.
#[derive(Clone, Copy, Debug, PartialEq, Eq, Structural)]
pub struct WindowPosition {
    pub x: i32,
    pub y: i32,
    pub initialized: bool,
}

impl WindowPosition {
    /// The slot in which nothing was recorded yet.
    pub open spec fn unset() -> WindowPosition {
        WindowPosition { x: 0, y: 0, initialized: false }
    }

    /// The slot that remembers the place `(x, y)`.
    pub open spec fn recorded(x: i32, y: i32) -> WindowPosition {
        WindowPosition { x, y, initialized: true }
    }

    /// A slot that remembers the place `(x, y)`.
    pub fn at(x: i32, y: i32) -> (slot: WindowPosition)
        ensures
            slot == WindowPosition::recorded(x, y),
    {
        WindowPosition { x, y, initialized: true }
    }
}

impl Default for WindowPosition {
    fn default() -> (slot: WindowPosition)
        ensures
            slot == WindowPosition::unset(),
    {
        WindowPosition { x: 0, y: 0, initialized: false }
    }
}

/// The two remembered positions and the layout that is showing. The slot of
/// the showing layout is the active one: it follows the window as it moves.
#[derive(Clone, Copy, Debug, PartialEq, Eq, Structural)]
pub struct WindowState {
    pub main_pos: WindowPosition,
    pub mini_pos: WindowPosition,
    pub is_mini: bool,
}

impl Default for WindowState {
    fn default() -> (state: WindowState)
        ensures
            state == WindowState::initial(),
    {
        WindowState {
            main_pos: WindowPosition { x: 0, y: 0, initialized: false },
            mini_pos: WindowPosition { x: 0, y: 0, initialized: false },
            is_mini: false,
        }
    }
}

impl WindowState {
    /// The record of a first start: main layout, nothing remembered.
    pub open spec fn initial() -> WindowState {
        WindowState {
            main_pos: WindowPosition::unset(),
            mini_pos: WindowPosition::unset(),
            is_mini: false,
        }
    }

    /// The slot of the given layout.
    pub open spec fn slot(self, mini: bool) -> WindowPosition {
        if mini {
            self.mini_pos
        } else {
            self.main_pos
        }
    }

    /// The record with the slot of the given layout replaced.
    pub open spec fn with_slot(self, mini: bool, slot: WindowPosition) -> WindowState {
        if mini {
            WindowState { mini_pos: slot, ..self }
        } else {
            WindowState { main_pos: slot, ..self }
        }
    }

    /// The record after the window was seen at `(x, y)`: the active slot
    /// remembers that place, the rest is as before.
    pub open spec fn moved(self, x: i32, y: i32) -> WindowState {
        self.with_slot(self.is_mini, WindowPosition::recorded(x, y))
    }

    /// The record after a switch to the given layout with the window at
    /// `(x, y)`: the layout that is left remembers that place, then the
    /// other layout shows.
    pub open spec fn toggled(self, x: i32, y: i32, target_is_mini: bool) -> WindowState {
        WindowState { is_mini: target_is_mini, ..self.moved(x, y) }
    }

    /// The record that a start works with, given what was read from the
    /// state file (`None` where the file is missing or cannot be read as a
    /// record): the slots as stored, and always the main layout.
    pub open spec fn restored(loaded: Option<WindowState>) -> WindowState {
        match loaded {
            Some(stored) => WindowState { is_mini: false, ..stored },
            None => WindowState::initial(),
        }
    }

    /// What brings the window into the given layout: its size, no resizing,
    /// its place above the others, and the remembered position if `slot`
    /// holds one. The mini layout always stays on top; the main layout
    /// follows the user's pin.
    pub open spec fn layout_effects(
        target_is_mini: bool,
        pin_if_main: bool,
        slot: WindowPosition,
    ) -> Seq<Effect> {
        let fixed = seq![
            if target_is_mini {
                Effect::SetSize { width: MINI_WIDTH, height: MINI_HEIGHT }
            } else {
                Effect::SetSize { width: MAIN_WIDTH, height: MAIN_HEIGHT }
            },
            Effect::SetResizable(false),
            Effect::SetAlwaysOnTop(target_is_mini || pin_if_main),
        ];
        if slot.initialized {
            fixed.push(Effect::SetPosition { x: slot.x, y: slot.y })
        } else {
            fixed
        }
    }

    /// What a switch asks of the host once the record is `self`: the layout
    /// of the showing mode, then the record written to disk.
    pub open spec fn toggle_effects(self, pin_if_main: bool) -> Seq<Effect> {
        WindowState::layout_effects(self.is_mini, pin_if_main, self.slot(self.is_mini)).push(
            Effect::Persist(self),
        )
    }

    /// What a start asks of the host once the record is `self`: the main
    /// layout, unpinned, at the remembered place or else centred.
    pub open spec fn startup_effects(self) -> Seq<Effect> {
        seq![
            Effect::SetSize { width: MAIN_WIDTH, height: MAIN_HEIGHT },
            Effect::SetResizable(false),
            Effect::SetAlwaysOnTop(false),
            if self.main_pos.initialized {
                Effect::SetPosition { x: self.main_pos.x, y: self.main_pos.y }
            } else {
                Effect::Center
            },
        ]
    }

    /// The slot that follows the window at present.
    pub fn active_slot(&self) -> (slot: WindowPosition)
        ensures
            slot == self.slot(self.is_mini),
    {
        if self.is_mini {
            self.mini_pos
        } else {
            self.main_pos
        }
    }

    /// Takes note that the window now stands at `(x, y)`. The active slot
    /// remembers the place and the other slot is left alone; the one effect
    /// returned writes the new record to disk.
    pub fn record_move(&mut self, x: i32, y: i32) -> (effects: Vec<Effect>)
        ensures
            *final(self) == old(self).moved(x, y),
            final(self).is_mini == old(self).is_mini,
            final(self).slot(old(self).is_mini) == WindowPosition::recorded(x, y),
            final(self).slot(!old(self).is_mini) == old(self).slot(!old(self).is_mini),
            effects@ == seq![Effect::Persist(*final(self))],
    {
        if self.is_mini {
            self.mini_pos = WindowPosition::at(x, y);
        } else {
            self.main_pos = WindowPosition::at(x, y);
        }
        let mut effects: Vec<Effect> = Vec::new();
        effects.push(Effect::Persist(*self));
        effects
    }

    /// Switches to the mini layout (`target_is_mini`) or to the main one,
    /// with the window standing at `(x, y)` as the switch begins.
    ///
    /// The slot of the layout that is left captures `(x, y)`, then the
    /// target layout shows. The effects returned resize the window to the
    /// target's fixed size, forbid resizing, set always-on-top (always for
    /// mini, `pin_if_main` for main), move the window to the target's slot
    /// if one is remembered, and write the record to disk, in this order.
    pub fn toggle_mode(&mut self, x: i32, y: i32, target_is_mini: bool, pin_if_main: bool) -> (effects:
        Vec<Effect>)
        ensures
            *final(self) == old(self).toggled(x, y, target_is_mini),
            final(self).is_mini == target_is_mini,
            final(self).slot(old(self).is_mini) == WindowPosition::recorded(x, y),
            final(self).slot(!old(self).is_mini) == old(self).slot(!old(self).is_mini),
            effects@ == final(self).toggle_effects(pin_if_main),
    {
        if self.is_mini {
            self.mini_pos = WindowPosition::at(x, y);
        } else {
            self.main_pos = WindowPosition::at(x, y);
        }
        self.is_mini = target_is_mini;
        let mut effects: Vec<Effect> = Vec::new();
        if target_is_mini {
            effects.push(Effect::SetSize { width: MINI_WIDTH, height: MINI_HEIGHT });
        } else {
            effects.push(Effect::SetSize { width: MAIN_WIDTH, height: MAIN_HEIGHT });
        }
        effects.push(Effect::SetResizable(false));
        effects.push(Effect::SetAlwaysOnTop(target_is_mini || pin_if_main));
        let slot = self.active_slot();
        if slot.initialized {
            effects.push(Effect::SetPosition { x: slot.x, y: slot.y });
        }
        effects.push(Effect::Persist(*self));
        effects
    }

    /// Begins a run from what the state file held, `None` where it is
    /// missing or malformed. The record returned keeps the stored slots and
    /// always shows the main layout; without a stored record it is the
    /// initial one. The effects bring the window into the main layout,
    /// unpinned, at the remembered main position or else centred.
    pub fn startup(loaded: Option<WindowState>) -> (begun: (WindowState, Vec<Effect>))
        ensures
            begun.0 == WindowState::restored(loaded),
            !begun.0.is_mini,
            loaded is None ==> begun.0 == WindowState::initial(),
            begun.1@ == begun.0.startup_effects(),
    {
        let state = match loaded {
            Some(stored) => WindowState {
                main_pos: stored.main_pos,
                mini_pos: stored.mini_pos,
                is_mini: false,
            },
            None => WindowState::default(),
        };
        let mut effects: Vec<Effect> = Vec::new();
        effects.push(Effect::SetSize { width: MAIN_WIDTH, height: MAIN_HEIGHT });
        effects.push(Effect::SetResizable(false));
        effects.push(Effect::SetAlwaysOnTop(false));
        if state.main_pos.initialized {
            effects.push(Effect::SetPosition { x: state.main_pos.x, y: state.main_pos.y });
        } else {
            effects.push(Effect::Center);
        }
        (state, effects)
    }
}

} // verus!
