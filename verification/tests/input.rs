use lattice::input::{
    buttons_after, cursor_icon, key_event, keycode_to_js, logical_key_to_js_key, mouse_button_js,
    mouse_input, named_key_to_js_string, touch_input, CursorIcon, Key, KeyCode, ModifierState,
    MouseButton, NamedKey, PhysicalKey, PointerEventKind, PointerLockState, PointerType, PointerUpdate,
    ResizeEventData, TouchPhase,
};

#[test]
fn physical_keys_map_to_browser_fields() {
    assert_eq!(keycode_to_js(KeyCode::KeyA), ("a".to_string(), "KeyA".to_string(), 65, 0));
    assert_eq!(keycode_to_js(KeyCode::Digit7), ("7".to_string(), "Digit7".to_string(), 55, 0));
    assert_eq!(keycode_to_js(KeyCode::ShiftRight), ("Shift".to_string(), "ShiftRight".to_string(), 16, 2));
    assert_eq!(keycode_to_js(KeyCode::SuperLeft), ("Meta".to_string(), "MetaLeft".to_string(), 91, 1));
    assert_eq!(keycode_to_js(KeyCode::Space), (" ".to_string(), "Space".to_string(), 32, 0));
    assert_eq!(keycode_to_js(KeyCode::Backslash), ("\\".to_string(), "Backslash".to_string(), 220, 0));
    assert_eq!(keycode_to_js(KeyCode::NumpadEnter), ("Enter".to_string(), "NumpadEnter".to_string(), 13, 3));
    assert_eq!(keycode_to_js(KeyCode::F12), ("F12".to_string(), "F12".to_string(), 123, 0));
    assert_eq!(keycode_to_js(KeyCode::Other), ("Unidentified".to_string(), "Unidentified".to_string(), 0, 0));
}

#[test]
fn logical_keys() {
    assert_eq!(named_key_to_js_string(NamedKey::Super), "Meta");
    assert_eq!(named_key_to_js_string(NamedKey::Space), " ");
    assert_eq!(named_key_to_js_string(NamedKey::Other), "Unidentified");
    assert_eq!(logical_key_to_js_key(&Key::Character("@".to_string())), "@");
    assert_eq!(logical_key_to_js_key(&Key::Named(NamedKey::ArrowUp)), "ArrowUp");
    assert_eq!(logical_key_to_js_key(&Key::Dead), "Dead");
    assert_eq!(logical_key_to_js_key(&Key::Unidentified), "Unidentified");
}

#[test]
fn key_events_use_logical_key_and_modifiers() {
    let mods = ModifierState { ctrl: false, shift: true, alt: false, meta: false };
    let e = key_event(PhysicalKey::Code(KeyCode::Digit2), &Key::Character("@".to_string()), false, mods);
    assert_eq!(e.key, "@");
    assert_eq!(e.code, "Digit2");
    assert_eq!((e.key_code, e.location), (50, 0));
    assert!(e.shift_key && !e.ctrl_key);
    let u = key_event(PhysicalKey::Unidentified, &Key::Unidentified, true, ModifierState::default());
    assert_eq!((u.code.as_str(), u.key_code, u.location, u.repeat), ("Unidentified", 0, 0, true));
}

#[test]
fn mouse_buttons() {
    assert_eq!(mouse_button_js(MouseButton::Left), (0, 1));
    assert_eq!(mouse_button_js(MouseButton::Middle), (1, 4));
    assert_eq!(mouse_button_js(MouseButton::Right), (2, 2));
    assert_eq!(mouse_button_js(MouseButton::Back), (3, 8));
    assert_eq!(mouse_button_js(MouseButton::Forward), (4, 16));
    assert_eq!(mouse_button_js(MouseButton::Other(6)), (6, 64));
    assert_eq!(mouse_button_js(MouseButton::Other(40)), (40, 1 << 15));
}

#[test]
fn press_and_release_bookkeeping() {
    assert_eq!(buttons_after(0b100, 1, true), 0b101);
    assert_eq!(buttons_after(0b101, 1, false), 0b100);
    assert_eq!(buttons_after(buttons_after(6, 2, true), 2, false), 4);
    let down = mouse_input(0, MouseButton::Right, true);
    assert_eq!((down.kind, down.button, down.buttons, down.context_menu), (PointerEventKind::Down, 2, 2, None));
    let up = mouse_input(3, MouseButton::Right, false);
    assert_eq!((up.kind, up.button, up.buttons, up.context_menu), (PointerEventKind::Up, 2, 1, Some(2)));
    assert_eq!((up.pointer_id, up.pointer_type, up.is_primary), (0, PointerType::Mouse, true));
    assert_eq!(PointerType::Mouse.name(), "mouse");
    assert_eq!(PointerType::Touch.name(), "touch");
    assert!(mouse_input(1, MouseButton::Left, false).context_menu.is_none());
}

#[test]
fn touches() {
    let s = touch_input(TouchPhase::Started, 0);
    assert_eq!((s.pointer_type, s.button), (PointerType::Touch, 0));
    assert_eq!((s.kind, s.buttons, s.is_primary, s.update), (PointerEventKind::Down, 1, true, PointerUpdate::PressAt));
    let m = touch_input(TouchPhase::Moved, 3);
    assert_eq!((m.kind, m.buttons, m.is_primary, m.update), (PointerEventKind::Move, 1, false, PointerUpdate::MoveTo));
    let e = touch_input(TouchPhase::Ended, 3);
    assert_eq!((e.kind, e.buttons, e.update), (PointerEventKind::Up, 0, PointerUpdate::Remove));
    let c = touch_input(TouchPhase::Cancelled, 0);
    assert_eq!((c.kind, c.buttons, c.update), (PointerEventKind::Cancel, 0, PointerUpdate::Remove));
}

#[test]
fn cursor_styles() {
    assert_eq!(cursor_icon("pointer"), CursorIcon::Pointer);
    assert_eq!(cursor_icon("grab"), CursorIcon::Grab);
    assert_eq!(cursor_icon("crosshair"), CursorIcon::Default);
}

#[test]
fn pointer_lock_requests_apply_between_frames() {
    let mut s = PointerLockState::new();
    assert!(s.forwards_cursor_moves());
    assert!(s.request_pointer_lock());
    s.set_cursor_style("grab");
    assert!(!s.is_pointer_locked());
    let ch = s.apply_requests();
    assert_eq!(ch.cursor, Some(CursorIcon::Grab));
    assert!(ch.locked && !ch.unlocked);
    assert!(s.is_pointer_locked());
    assert!(s.forwards_raw_motion());
    assert!(!s.forwards_cursor_moves());
    s.exit_pointer_lock();
    let ch2 = s.apply_requests();
    assert!(!ch2.locked && ch2.unlocked);
    assert_eq!(ch2.cursor, None);
    assert!(!s.is_pointer_locked());
    s.request_pointer_lock();
    s.exit_pointer_lock();
    let both = s.apply_requests();
    assert!(both.locked && both.unlocked);
    assert!(!s.is_pointer_locked());
}

#[test]
fn resize_is_recorded_and_reported() {
    let mut s = PointerLockState::new();
    assert_eq!(s.handle_resize(1280, 720), ResizeEventData { width: 1280, height: 720 });
    assert_eq!((s.window_width, s.window_height), (1280, 720));
}
