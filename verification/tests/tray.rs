use entropy_shell::commands::{
    force_show_window, global_shortcut, greet, on_shortcut, Shortcut, ShortcutState,
};
use entropy_shell::effect::Effect;
use entropy_shell::tray::{
    create_tray, on_menu_event, on_tray_icon_event, toggle_pin, toggle_visibility,
    update_pin_menu_state, MenuAction, MouseButton, MouseButtonState, TrayEvent,
};

#[test]
fn rebuilt_menu_is_checked_when_pinned() {
    let menu = update_pin_menu_state(true);
    assert!(menu.pin_checked());
    assert!(menu.pin.checked);
}

#[test]
fn rebuilt_menu_is_unchecked_when_not_pinned() {
    let menu = update_pin_menu_state(false);
    assert!(!menu.pin_checked());
    assert!(!menu.pin.checked);
}

#[test]
fn menu_items_are_fixed() {
    for pinned in [false, true] {
        let menu = update_pin_menu_state(pinned);
        assert_eq!(menu.pin.id, "toggle_pin");
        assert_eq!(menu.pin.text, "\u{7f6e}\u{9876}\u{7a97}\u{53e3}");
        assert!(menu.pin.enabled);
        assert_eq!(menu.quit.id, "quit");
        assert_eq!(menu.quit.text, "\u{9000}\u{51fa}");
        assert!(menu.quit.enabled);
    }
}

#[test]
fn fresh_tray_is_unchecked() {
    let icon = create_tray();
    assert_eq!(icon.id, "main-tray");
    assert_eq!(icon.tooltip, "Entropy");
    assert!(!icon.show_menu_on_left_click);
    assert!(!icon.menu.pin_checked());
    assert_eq!(icon.menu.pin.id, "toggle_pin");
    assert_eq!(icon.menu.quit.id, "quit");
}

#[test]
fn menu_ids_map_to_actions() {
    assert_eq!(on_menu_event("quit"), MenuAction::Exit { code: 0 });
    assert_eq!(on_menu_event("toggle_pin"), MenuAction::TogglePin);
    assert_eq!(on_menu_event(""), MenuAction::Ignore);
    assert_eq!(on_menu_event("Quit"), MenuAction::Ignore);
    assert_eq!(on_menu_event("toggle_pin "), MenuAction::Ignore);
}

#[test]
fn pin_toggle_flips_the_flag_and_tells_the_front_end() {
    assert_eq!(
        toggle_pin(Some(false)),
        vec![Effect::SetAlwaysOnTop(true), Effect::EmitPinState(true)]
    );
    assert_eq!(
        toggle_pin(Some(true)),
        vec![Effect::SetAlwaysOnTop(false), Effect::EmitPinState(false)]
    );
    assert_eq!(toggle_pin(None), vec![Effect::SetAlwaysOnTop(true), Effect::EmitPinState(true)]);
}

#[test]
fn only_left_release_toggles_visibility() {
    let buttons = [MouseButton::Left, MouseButton::Right, MouseButton::Middle];
    let states = [MouseButtonState::Up, MouseButtonState::Down];
    for button in buttons {
        for button_state in states {
            let expected = button == MouseButton::Left && button_state == MouseButtonState::Up;
            assert_eq!(on_tray_icon_event(TrayEvent::Click { button, button_state }), expected);
        }
    }
    assert!(!on_tray_icon_event(TrayEvent::Other));
}

#[test]
fn visibility_toggle() {
    assert_eq!(toggle_visibility(Some(true)), vec![Effect::Hide]);
    assert_eq!(toggle_visibility(Some(false)), vec![Effect::Show, Effect::SetFocus]);
    assert_eq!(toggle_visibility(None), vec![Effect::Show, Effect::SetFocus]);
}

#[test]
fn force_show_shows_restores_and_focuses() {
    assert_eq!(force_show_window(), vec![Effect::Show, Effect::Unminimize, Effect::SetFocus]);
}

#[test]
fn greeting() {
    assert_eq!(greet("Ada"), "Hello, Ada! You've been greeted from Rust!");
    assert_eq!(greet(""), "Hello, ! You've been greeted from Rust!");
}

#[test]
fn shortcut_is_control_shift_p() {
    assert_eq!(
        global_shortcut(),
        Shortcut { control: true, shift: true, alt: false, meta: false, key: 'P' }
    );
}

#[test]
fn shortcut_toggles_on_press_only() {
    assert!(on_shortcut(ShortcutState::Pressed));
    assert!(!on_shortcut(ShortcutState::Released));
}
