use bear_lib_terminal::terminal::{
    codes, get_key, get_mouse_move, get_mouse_scroll, keycode_raw, to_event, to_key_event,
    to_keycode, Event, KeyCode, StateSnapshot,
};

fn snap() -> StateSnapshot {
    StateSnapshot {
        width: 80,
        height: 25,
        mouse_x: 12,
        mouse_y: 7,
        mouse_wheel: -3,
        ctrl: false,
        shift: true,
    }
}

#[test]
fn close_and_resize_sentinels() {
    assert_eq!(to_event(codes::TK_CLOSE, &snap()), Some(Event::Close));
    assert_eq!(
        to_event(codes::TK_RESIZED, &snap()),
        Some(Event::Resize { width: 80, height: 25 })
    );
}

#[test]
fn mouse_sentinels_take_payload_from_state() {
    assert_eq!(
        to_event(codes::TK_MOUSE_MOVE, &snap()),
        Some(Event::MouseMove { x: 12, y: 7 })
    );
    assert_eq!(
        to_event(codes::TK_MOUSE_SCROLL, &snap()),
        Some(Event::MouseScroll { delta: -3 })
    );
}

#[test]
fn key_press_decodes() {
    assert_eq!(
        to_event(codes::TK_A, &snap()),
        Some(Event::KeyPressed { key: KeyCode::A, ctrl: false, shift: true })
    );
    assert_eq!(
        to_key_event(codes::TK_SPACE, true, false),
        Some(Event::KeyPressed { key: KeyCode::Space, ctrl: true, shift: false })
    );
}

#[test]
fn key_release_decodes_to_same_key() {
    for key in [
        KeyCode::A,
        KeyCode::Z,
        KeyCode::Row0,
        KeyCode::Enter,
        KeyCode::F12,
        KeyCode::NumPeriod,
        KeyCode::MouseFifth,
    ] {
        let base = keycode_raw(key);
        assert_eq!(
            to_key_event(base, false, false),
            Some(Event::KeyPressed { key, ctrl: false, shift: false })
        );
        assert_eq!(
            to_key_event(base | codes::TK_KEY_RELEASED, false, false),
            Some(Event::KeyReleased { key, ctrl: false, shift: false })
        );
    }
}

#[test]
fn shift_and_control_are_special_cased() {
    assert_eq!(to_key_event(codes::TK_SHIFT, false, false), Some(Event::ShiftPressed));
    assert_eq!(
        to_key_event(codes::TK_SHIFT | codes::TK_KEY_RELEASED, false, false),
        Some(Event::ShiftReleased)
    );
    assert_eq!(to_key_event(codes::TK_CONTROL, false, false), Some(Event::ControlPressed));
    assert_eq!(
        to_key_event(codes::TK_CONTROL | codes::TK_KEY_RELEASED, false, false),
        Some(Event::ControlReleased)
    );
    assert_eq!(
        to_event(codes::TK_SHIFT | codes::TK_KEY_RELEASED, &snap()),
        Some(Event::ShiftReleased)
    );
}

#[test]
fn unrecognized_codes_decode_to_no_event() {
    for code in [0, 0x02, 0x32, 0x39, 0x53, 0x64, 0x6F, 0x8D, 0x9999, -1, -0x100, i32::MAX] {
        assert_eq!(to_event(code, &snap()), None, "code {code:#x}");
    }
}

#[test]
fn keycode_mapping_round_trips() {
    let keys = [
        KeyCode::A,
        KeyCode::M,
        KeyCode::Z,
        KeyCode::Row1,
        KeyCode::Row0,
        KeyCode::Grave,
        KeyCode::Minus,
        KeyCode::Equals,
        KeyCode::LeftBracket,
        KeyCode::RightBracket,
        KeyCode::Backslash,
        KeyCode::Semicolon,
        KeyCode::Apostrophe,
        KeyCode::Comma,
        KeyCode::Period,
        KeyCode::Slash,
        KeyCode::F1,
        KeyCode::F12,
        KeyCode::Enter,
        KeyCode::Escape,
        KeyCode::Backspace,
        KeyCode::Tab,
        KeyCode::Space,
        KeyCode::Pause,
        KeyCode::Insert,
        KeyCode::Home,
        KeyCode::PageUp,
        KeyCode::Delete,
        KeyCode::End,
        KeyCode::PageDown,
        KeyCode::Right,
        KeyCode::Left,
        KeyCode::Down,
        KeyCode::Up,
        KeyCode::NumDivide,
        KeyCode::NumMultiply,
        KeyCode::NumMinus,
        KeyCode::NumPlus,
        KeyCode::NumEnter,
        KeyCode::Num1,
        KeyCode::Num0,
        KeyCode::NumPeriod,
        KeyCode::MouseLeft,
        KeyCode::MouseRight,
        KeyCode::MouseMiddle,
        KeyCode::MouseFourth,
        KeyCode::MouseFifth,
    ];
    for key in keys {
        assert_eq!(to_keycode(keycode_raw(key)), Some(key));
    }
}

#[test]
fn keycode_constants_exact() {
    assert_eq!(keycode_raw(KeyCode::A), 0x04);
    assert_eq!(keycode_raw(KeyCode::Z), 0x1D);
    assert_eq!(keycode_raw(KeyCode::Row1), 0x1E);
    assert_eq!(keycode_raw(KeyCode::Row0), 0x27);
    assert_eq!(keycode_raw(KeyCode::F1), 0x3A);
    assert_eq!(keycode_raw(KeyCode::NumEnter), 0x58);
    assert_eq!(keycode_raw(KeyCode::MouseLeft), 0x80);
    assert_eq!(keycode_raw(KeyCode::MouseFifth), 0x84);
    assert_eq!(to_keycode(0x04), Some(KeyCode::A));
    assert_eq!(to_keycode(0x2C), Some(KeyCode::Space));
    assert_eq!(to_keycode(0x32), None);
    assert_eq!(to_keycode(codes::TK_SHIFT), None);
    assert_eq!(to_keycode(codes::TK_CONTROL), None);
}

#[test]
fn get_key_wraps_press_and_release() {
    assert_eq!(
        get_key(false, KeyCode::Q, true, false),
        Event::KeyPressed { key: KeyCode::Q, ctrl: true, shift: false }
    );
    assert_eq!(
        get_key(true, KeyCode::Q, false, true),
        Event::KeyReleased { key: KeyCode::Q, ctrl: false, shift: true }
    );
}

#[test]
fn mouse_helpers_read_snapshot() {
    assert_eq!(get_mouse_move(&snap()), Event::MouseMove { x: 12, y: 7 });
    assert_eq!(get_mouse_scroll(&snap()), Event::MouseScroll { delta: -3 });
}
