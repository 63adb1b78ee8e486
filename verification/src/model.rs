//! A model of the host, and what the effects of each transition do to it.
//!
//! The model is the yardstick for the effect lists of the other modules:
//! it says what a host that obeys every effect looks like afterwards. The
//! laws below are stated over it and hold of every record and every host.

use vstd::prelude::*;

use crate::effect::Effect;
use crate::state::{
    WindowPosition, WindowState, MAIN_HEIGHT, MAIN_WIDTH, MINI_HEIGHT, MINI_WIDTH,
};

verus! {

/// Where the window stands.
pub enum Placement {
    /// At a place in physical pixels.
    At { x: i32, y: i32 },
    /// In the centre of its screen.
    Centered,
}

/// The host as far as effects change it: the window, the state file and
/// the last pin state told to the front-end.
pub struct Host {
    pub width: u32,
    pub height: u32,
    pub resizable: bool,
    pub always_on_top: bool,
    pub placement: Placement,
    pub visible: bool,
    pub minimized: bool,
    pub focused: bool,
    pub open: bool,
    pub stored: Option<WindowState>,
    pub announced_pin: Option<bool>,
}

/// One switch of layout: where the window stood as it began, the layout
/// asked for and the pin to restore in the main layout.
pub struct Toggle {
    pub x: i32,
    pub y: i32,
    pub target_is_mini: bool,
    pub pin_if_main: bool,
}

impl Host {
    /// The host after it obeyed one effect.
    pub open spec fn after(self, effect: Effect) -> Host {
        match effect {
            Effect::SetSize { width, height } => Host { width, height, ..self },
            Effect::SetResizable(resizable) => Host { resizable, ..self },
            Effect::SetAlwaysOnTop(always_on_top) => Host { always_on_top, ..self },
            Effect::SetPosition { x, y } => Host { placement: Placement::At { x, y }, ..self },
            Effect::Center => Host { placement: Placement::Centered, ..self },
            Effect::Show => Host { visible: true, ..self },
            Effect::Hide => Host { visible: false, ..self },
            Effect::Unminimize => Host { minimized: false, ..self },
            Effect::SetFocus => Host { focused: true, ..self },
            Effect::Close => Host { open: false, ..self },
            Effect::Persist(state) => Host { stored: Some(state), ..self },
            Effect::EmitPinState(pinned) => Host { announced_pin: Some(pinned), ..self },
        }
    }

    /// The host after it obeyed a list of effects from front to back.
    pub open spec fn after_all(self, effects: Seq<Effect>) -> Host
        decreases effects.len(),
    {
        if effects.len() == 0 {
            self
        } else {
            self.after_all(effects.drop_last()).after(effects.last())
        }
    }

    /// Obeying a list and then one more effect is obeying the longer list.
    pub proof fn lemma_after_push(self, effects: Seq<Effect>, effect: Effect)
        ensures
            self.after_all(effects.push(effect)) == self.after_all(effects).after(effect),
    {
        assert(effects.push(effect).drop_last() =~= effects);
    }

    /// What the effects of bringing a layout about do to the host.
    pub proof fn lemma_after_layout(
        self,
        target_is_mini: bool,
        pin_if_main: bool,
        slot: WindowPosition,
    )
        ensures
            ({
                let done = self.after_all(
                    WindowState::layout_effects(target_is_mini, pin_if_main, slot),
                );
                &&& done.width == if target_is_mini {
                    MINI_WIDTH
                } else {
                    MAIN_WIDTH
                }
                &&& done.height == if target_is_mini {
                    MINI_HEIGHT
                } else {
                    MAIN_HEIGHT
                }
                &&& !done.resizable
                &&& done.always_on_top == (target_is_mini || pin_if_main)
                &&& done.placement == if slot.initialized {
                    Placement::At { x: slot.x, y: slot.y }
                } else {
                    self.placement
                }
                &&& done.visible == self.visible
                &&& done.minimized == self.minimized
                &&& done.focused == self.focused
                &&& done.open == self.open
                &&& done.stored == self.stored
                &&& done.announced_pin == self.announced_pin
            }),
    {
        let size = if target_is_mini {
            Effect::SetSize { width: MINI_WIDTH, height: MINI_HEIGHT }
        } else {
            Effect::SetSize { width: MAIN_WIDTH, height: MAIN_HEIGHT }
        };
        let top = Effect::SetAlwaysOnTop(target_is_mini || pin_if_main);
        let none = Seq::<Effect>::empty();
        self.lemma_after_push(none, size);
        self.lemma_after_push(none.push(size), Effect::SetResizable(false));
        self.lemma_after_push(none.push(size).push(Effect::SetResizable(false)), top);
        let fixed = none.push(size).push(Effect::SetResizable(false)).push(top);
        assert(self.after_all(none) == self);
        if slot.initialized {
            let place = Effect::SetPosition { x: slot.x, y: slot.y };
            self.lemma_after_push(fixed, place);
            assert(WindowState::layout_effects(target_is_mini, pin_if_main, slot) =~= fixed.push(
                place,
            ));
        } else {
            assert(WindowState::layout_effects(target_is_mini, pin_if_main, slot) =~= fixed);
        }
    }
}

/// The record after a run of switches, one after the other.
pub open spec fn toggled_through(state: WindowState, toggles: Seq<Toggle>) -> WindowState
    decreases toggles.len(),
{
    if toggles.len() == 0 {
        state
    } else {
        let last = toggles.last();
        toggled_through(state, toggles.drop_last()).toggled(last.x, last.y, last.target_is_mini)
    }
}

/// A switch captures the window's place in the slot of the layout that is
/// left and leaves the other slot alone, whatever layout it leads to.
pub proof fn law_toggle_captures_outgoing_position(
    state: WindowState,
    x: i32,
    y: i32,
    target_is_mini: bool,
)
    ensures
        state.toggled(x, y, target_is_mini).slot(state.is_mini) == WindowPosition::recorded(x, y),
        state.toggled(x, y, target_is_mini).slot(!state.is_mini) == state.slot(!state.is_mini),
        state.toggled(x, y, target_is_mini).is_mini == target_is_mini,
{
}

/// In every run of switches, each switch captures the place at which the
/// window stood as it began, in the slot of the layout that showed before
/// it.
pub proof fn law_every_toggle_captures_outgoing_position(
    state: WindowState,
    toggles: Seq<Toggle>,
    i: int,
)
    requires
        0 <= i < toggles.len(),
    ensures
        ({
            let before = toggled_through(state, toggles.take(i));
            let after = toggled_through(state, toggles.take(i + 1));
            &&& after.slot(before.is_mini) == WindowPosition::recorded(toggles[i].x, toggles[i].y)
            &&& after.slot(!before.is_mini) == before.slot(!before.is_mini)
            &&& after.is_mini == toggles[i].target_is_mini
        }),
{
    assert(toggles.take(i + 1).drop_last() =~= toggles.take(i));
    assert(toggles.take(i + 1).last() == toggles[i]);
}

/// After a switch to the mini layout the window measures 180 by 44, cannot
/// be resized and stays on top, whatever pin was passed.
pub proof fn law_mini_layout(state: WindowState, host: Host, x: i32, y: i32, pin_if_main: bool)
    ensures
        ({
            let done = host.after_all(state.toggled(x, y, true).toggle_effects(pin_if_main));
            &&& done.width == 180
            &&& done.height == 44
            &&& !done.resizable
            &&& done.always_on_top
        }),
{
    let next = state.toggled(x, y, true);
    host.lemma_after_layout(true, pin_if_main, next.slot(true));
    host.lemma_after_push(
        WindowState::layout_effects(true, pin_if_main, next.slot(true)),
        Effect::Persist(next),
    );
}

/// After a switch to the main layout the window measures 385 by 640,
/// cannot be resized and is on top exactly if the pin passed says so.
pub proof fn law_main_layout(state: WindowState, host: Host, x: i32, y: i32, pinned: bool)
    ensures
        ({
            let done = host.after_all(state.toggled(x, y, false).toggle_effects(pinned));
            &&& done.width == 385
            &&& done.height == 640
            &&& !done.resizable
            &&& done.always_on_top == pinned
        }),
{
    let next = state.toggled(x, y, false);
    host.lemma_after_layout(false, pinned, next.slot(false));
    host.lemma_after_push(
        WindowState::layout_effects(false, pinned, next.slot(false)),
        Effect::Persist(next),
    );
}

/// A switch moves the window to the place that the record remembers for
/// the target layout once the outgoing place is captured, and leaves the
/// window where it is if that slot remembers none.
pub proof fn law_toggle_restores_target_position(
    state: WindowState,
    host: Host,
    x: i32,
    y: i32,
    target_is_mini: bool,
    pin_if_main: bool,
)
    ensures
        ({
            let next = state.toggled(x, y, target_is_mini);
            let slot = next.slot(target_is_mini);
            let done = host.after_all(next.toggle_effects(pin_if_main));
            done.placement == if slot.initialized {
                Placement::At { x: slot.x, y: slot.y }
            } else {
                host.placement
            }
        }),
{
    let next = state.toggled(x, y, target_is_mini);
    host.lemma_after_layout(target_is_mini, pin_if_main, next.slot(target_is_mini));
    host.lemma_after_push(
        WindowState::layout_effects(target_is_mini, pin_if_main, next.slot(target_is_mini)),
        Effect::Persist(next),
    );
}

/// A switch to the mini layout moves the window to the mini position that
/// the record remembered before the switch, and leaves the window's place
/// as it is if none was remembered.
///
/// This holds of every switch that begins in the main layout. One that is
/// asked for while the mini layout shows already captures the window's
/// place in the mini slot first, so it holds there only if the window
/// stands at the remembered place, or, with nothing remembered, at the
/// place that was read.
pub proof fn law_mini_position_restored(
    state: WindowState,
    host: Host,
    x: i32,
    y: i32,
    pin_if_main: bool,
)
    requires
        state.is_mini ==> if state.mini_pos.initialized {
            x == state.mini_pos.x && y == state.mini_pos.y
        } else {
            host.placement == (Placement::At { x, y })
        },
    ensures
        ({
            let done = host.after_all(state.toggled(x, y, true).toggle_effects(pin_if_main));
            done.placement == if state.mini_pos.initialized {
                Placement::At { x: state.mini_pos.x, y: state.mini_pos.y }
            } else {
                host.placement
            }
        }),
{
    law_toggle_restores_target_position(state, host, x, y, true, pin_if_main);
}

/// A move touches the active slot only, keeps the layout, and the record
/// on disk is the new one at once.
pub proof fn law_move_updates_active_slot_only(state: WindowState, host: Host, x: i32, y: i32)
    ensures
        state.moved(x, y).slot(state.is_mini) == WindowPosition::recorded(x, y),
        state.moved(x, y).slot(!state.is_mini) == state.slot(!state.is_mini),
        state.moved(x, y).is_mini == state.is_mini,
        host.after_all(seq![Effect::Persist(state.moved(x, y))]).stored == Some(state.moved(x, y)),
{
    host.lemma_after_push(Seq::empty(), Effect::Persist(state.moved(x, y)));
}

/// A switch leaves on disk the very record that it led to.
pub proof fn law_toggle_persists_record(
    state: WindowState,
    host: Host,
    x: i32,
    y: i32,
    target_is_mini: bool,
    pin_if_main: bool,
)
    ensures
        ({
            let next = state.toggled(x, y, target_is_mini);
            host.after_all(next.toggle_effects(pin_if_main)).stored == Some(next)
        }),
{
    let next = state.toggled(x, y, target_is_mini);
    host.lemma_after_push(
        WindowState::layout_effects(target_is_mini, pin_if_main, next.slot(target_is_mini)),
        Effect::Persist(next),
    );
}

/// A start shows the main layout whatever the state file held, keeps both
/// stored slots, and begins from the initial record where the file gave
/// none.
pub proof fn law_startup_is_main(loaded: Option<WindowState>)
    ensures
        !WindowState::restored(loaded).is_mini,
        loaded is None ==> WindowState::restored(loaded) == WindowState::initial(),
        loaded matches Some(stored) ==> {
            &&& WindowState::restored(loaded).main_pos == stored.main_pos
            &&& WindowState::restored(loaded).mini_pos == stored.mini_pos
        },
{
}

/// After a start the window measures 385 by 640, cannot be resized, is not
/// on top, and stands at the remembered main position or else centred.
pub proof fn law_startup_layout(loaded: Option<WindowState>, host: Host)
    ensures
        ({
            let state = WindowState::restored(loaded);
            let done = host.after_all(state.startup_effects());
            &&& done.width == 385
            &&& done.height == 640
            &&& !done.resizable
            &&& !done.always_on_top
            &&& done.placement == if state.main_pos.initialized {
                Placement::At { x: state.main_pos.x, y: state.main_pos.y }
            } else {
                Placement::Centered
            }
        }),
{
    let state = WindowState::restored(loaded);
    let size = Effect::SetSize { width: MAIN_WIDTH, height: MAIN_HEIGHT };
    let place = if state.main_pos.initialized {
        Effect::SetPosition { x: state.main_pos.x, y: state.main_pos.y }
    } else {
        Effect::Center
    };
    let none = Seq::<Effect>::empty();
    host.lemma_after_push(none, size);
    host.lemma_after_push(none.push(size), Effect::SetResizable(false));
    host.lemma_after_push(
        none.push(size).push(Effect::SetResizable(false)),
        Effect::SetAlwaysOnTop(false),
    );
    host.lemma_after_push(
        none.push(size).push(Effect::SetResizable(false)).push(Effect::SetAlwaysOnTop(false)),
        place,
    );
    assert(host.after_all(none) == host);
    assert(state.startup_effects() =~= none.push(size).push(Effect::SetResizable(false)).push(
        Effect::SetAlwaysOnTop(false),
    ).push(place));
}

} // verus!
