//! Pure translation between the native library's flat integer code space
//! and the structured event/key types.
//!
//! The native library reports events as bare integer codes; payloads (resize
//! dimensions, mouse coordinates, modifier keys) live in its queryable state.
//! The decoders here take that state as an explicit [`StateSnapshot`], so
//! the translation itself is a function of plain values.

pub mod codes;
pub mod config;
mod input;

use vstd::prelude::*;

pub use input::{Event, KeyCode};

verus! {

/// The integer constant from the native library's code space that stands
/// for `k`.
pub open spec fn spec_keycode_raw(k: KeyCode) -> i32 {
    match k {
        KeyCode::A => codes::TK_A,
        KeyCode::B => codes::TK_B,
        KeyCode::C => codes::TK_C,
        KeyCode::D => codes::TK_D,
        KeyCode::E => codes::TK_E,
        KeyCode::F => codes::TK_F,
        KeyCode::G => codes::TK_G,
        KeyCode::H => codes::TK_H,
        KeyCode::I => codes::TK_I,
        KeyCode::J => codes::TK_J,
        KeyCode::K => codes::TK_K,
        KeyCode::L => codes::TK_L,
        KeyCode::M => codes::TK_M,
        KeyCode::N => codes::TK_N,
        KeyCode::O => codes::TK_O,
        KeyCode::P => codes::TK_P,
        KeyCode::Q => codes::TK_Q,
        KeyCode::R => codes::TK_R,
        KeyCode::S => codes::TK_S,
        KeyCode::T => codes::TK_T,
        KeyCode::U => codes::TK_U,
        KeyCode::V => codes::TK_V,
        KeyCode::W => codes::TK_W,
        KeyCode::X => codes::TK_X,
        KeyCode::Y => codes::TK_Y,
        KeyCode::Z => codes::TK_Z,
        KeyCode::Row1 => codes::TK_1,
        KeyCode::Row2 => codes::TK_2,
        KeyCode::Row3 => codes::TK_3,
        KeyCode::Row4 => codes::TK_4,
        KeyCode::Row5 => codes::TK_5,
        KeyCode::Row6 => codes::TK_6,
        KeyCode::Row7 => codes::TK_7,
        KeyCode::Row8 => codes::TK_8,
        KeyCode::Row9 => codes::TK_9,
        KeyCode::Row0 => codes::TK_0,
        KeyCode::Enter => codes::TK_ENTER,
        KeyCode::Escape => codes::TK_ESCAPE,
        KeyCode::Backspace => codes::TK_BACKSPACE,
        KeyCode::Tab => codes::TK_TAB,
        KeyCode::Space => codes::TK_SPACE,
        KeyCode::Minus => codes::TK_MINUS,
        KeyCode::Equals => codes::TK_EQUALS,
        KeyCode::LeftBracket => codes::TK_LBRACKET,
        KeyCode::RightBracket => codes::TK_RBRACKET,
        KeyCode::Backslash => codes::TK_BACKSLASH,
        KeyCode::Semicolon => codes::TK_SEMICOLON,
        KeyCode::Apostrophe => codes::TK_APOSTROPHE,
        KeyCode::Grave => codes::TK_GRAVE,
        KeyCode::Comma => codes::TK_COMMA,
        KeyCode::Period => codes::TK_PERIOD,
        KeyCode::Slash => codes::TK_SLASH,
        KeyCode::F1 => codes::TK_F1,
        KeyCode::F2 => codes::TK_F2,
        KeyCode::F3 => codes::TK_F3,
        KeyCode::F4 => codes::TK_F4,
        KeyCode::F5 => codes::TK_F5,
        KeyCode::F6 => codes::TK_F6,
        KeyCode::F7 => codes::TK_F7,
        KeyCode::F8 => codes::TK_F8,
        KeyCode::F9 => codes::TK_F9,
        KeyCode::F10 => codes::TK_F10,
        KeyCode::F11 => codes::TK_F11,
        KeyCode::F12 => codes::TK_F12,
        KeyCode::Pause => codes::TK_PAUSE,
        KeyCode::Insert => codes::TK_INSERT,
        KeyCode::Home => codes::TK_HOME,
        KeyCode::PageUp => codes::TK_PAGEUP,
        KeyCode::Delete => codes::TK_DELETE,
        KeyCode::End => codes::TK_END,
        KeyCode::PageDown => codes::TK_PAGEDOWN,
        KeyCode::Right => codes::TK_RIGHT,
        KeyCode::Left => codes::TK_LEFT,
        KeyCode::Down => codes::TK_DOWN,
        KeyCode::Up => codes::TK_UP,
        KeyCode::NumDivide => codes::TK_KP_DIVIDE,
        KeyCode::NumMultiply => codes::TK_KP_MULTIPLY,
        KeyCode::NumMinus => codes::TK_KP_MINUS,
        KeyCode::NumPlus => codes::TK_KP_PLUS,
        KeyCode::NumEnter => codes::TK_KP_ENTER,
        KeyCode::Num1 => codes::TK_KP_1,
        KeyCode::Num2 => codes::TK_KP_2,
        KeyCode::Num3 => codes::TK_KP_3,
        KeyCode::Num4 => codes::TK_KP_4,
        KeyCode::Num5 => codes::TK_KP_5,
        KeyCode::Num6 => codes::TK_KP_6,
        KeyCode::Num7 => codes::TK_KP_7,
        KeyCode::Num8 => codes::TK_KP_8,
        KeyCode::Num9 => codes::TK_KP_9,
        KeyCode::Num0 => codes::TK_KP_0,
        KeyCode::NumPeriod => codes::TK_KP_PERIOD,
        KeyCode::MouseLeft => codes::TK_MOUSE_LEFT,
        KeyCode::MouseRight => codes::TK_MOUSE_RIGHT,
        KeyCode::MouseMiddle => codes::TK_MOUSE_MIDDLE,
        KeyCode::MouseFourth => codes::TK_MOUSE_X1,
        KeyCode::MouseFifth => codes::TK_MOUSE_X2,
    }
}

/// The key whose constant in the native library's code space is `code`, if
/// any.
pub open spec fn spec_to_keycode(code: i32) -> Option<KeyCode> {
    if code == codes::TK_A {
        Some(KeyCode::A)
    } else if code == codes::TK_B {
        Some(KeyCode::B)
    } else if code == codes::TK_C {
        Some(KeyCode::C)
    } else if code == codes::TK_D {
        Some(KeyCode::D)
    } else if code == codes::TK_E {
        Some(KeyCode::E)
    } else if code == codes::TK_F {
        Some(KeyCode::F)
    } else if code == codes::TK_G {
        Some(KeyCode::G)
    } else if code == codes::TK_H {
        Some(KeyCode::H)
    } else if code == codes::TK_I {
        Some(KeyCode::I)
    } else if code == codes::TK_J {
        Some(KeyCode::J)
    } else if code == codes::TK_K {
        Some(KeyCode::K)
    } else if code == codes::TK_L {
        Some(KeyCode::L)
    } else if code == codes::TK_M {
        Some(KeyCode::M)
    } else if code == codes::TK_N {
        Some(KeyCode::N)
    } else if code == codes::TK_O {
        Some(KeyCode::O)
    } else if code == codes::TK_P {
        Some(KeyCode::P)
    } else if code == codes::TK_Q {
        Some(KeyCode::Q)
    } else if code == codes::TK_R {
        Some(KeyCode::R)
    } else if code == codes::TK_S {
        Some(KeyCode::S)
    } else if code == codes::TK_T {
        Some(KeyCode::T)
    } else if code == codes::TK_U {
        Some(KeyCode::U)
    } else if code == codes::TK_V {
        Some(KeyCode::V)
    } else if code == codes::TK_W {
        Some(KeyCode::W)
    } else if code == codes::TK_X {
        Some(KeyCode::X)
    } else if code == codes::TK_Y {
        Some(KeyCode::Y)
    } else if code == codes::TK_Z {
        Some(KeyCode::Z)
    } else if code == codes::TK_1 {
        Some(KeyCode::Row1)
    } else if code == codes::TK_2 {
        Some(KeyCode::Row2)
    } else if code == codes::TK_3 {
        Some(KeyCode::Row3)
    } else if code == codes::TK_4 {
        Some(KeyCode::Row4)
    } else if code == codes::TK_5 {
        Some(KeyCode::Row5)
    } else if code == codes::TK_6 {
        Some(KeyCode::Row6)
    } else if code == codes::TK_7 {
        Some(KeyCode::Row7)
    } else if code == codes::TK_8 {
        Some(KeyCode::Row8)
    } else if code == codes::TK_9 {
        Some(KeyCode::Row9)
    } else if code == codes::TK_0 {
        Some(KeyCode::Row0)
    } else if code == codes::TK_ENTER {
        Some(KeyCode::Enter)
    } else if code == codes::TK_ESCAPE {
        Some(KeyCode::Escape)
    } else if code == codes::TK_BACKSPACE {
        Some(KeyCode::Backspace)
    } else if code == codes::TK_TAB {
        Some(KeyCode::Tab)
    } else if code == codes::TK_SPACE {
        Some(KeyCode::Space)
    } else if code == codes::TK_MINUS {
        Some(KeyCode::Minus)
    } else if code == codes::TK_EQUALS {
        Some(KeyCode::Equals)
    } else if code == codes::TK_LBRACKET {
        Some(KeyCode::LeftBracket)
    } else if code == codes::TK_RBRACKET {
        Some(KeyCode::RightBracket)
    } else if code == codes::TK_BACKSLASH {
        Some(KeyCode::Backslash)
    } else if code == codes::TK_SEMICOLON {
        Some(KeyCode::Semicolon)
    } else if code == codes::TK_APOSTROPHE {
        Some(KeyCode::Apostrophe)
    } else if code == codes::TK_GRAVE {
        Some(KeyCode::Grave)
    } else if code == codes::TK_COMMA {
        Some(KeyCode::Comma)
    } else if code == codes::TK_PERIOD {
        Some(KeyCode::Period)
    } else if code == codes::TK_SLASH {
        Some(KeyCode::Slash)
    } else if code == codes::TK_F1 {
        Some(KeyCode::F1)
    } else if code == codes::TK_F2 {
        Some(KeyCode::F2)
    } else if code == codes::TK_F3 {
        Some(KeyCode::F3)
    } else if code == codes::TK_F4 {
        Some(KeyCode::F4)
    } else if code == codes::TK_F5 {
        Some(KeyCode::F5)
    } else if code == codes::TK_F6 {
        Some(KeyCode::F6)
    } else if code == codes::TK_F7 {
        Some(KeyCode::F7)
    } else if code == codes::TK_F8 {
        Some(KeyCode::F8)
    } else if code == codes::TK_F9 {
        Some(KeyCode::F9)
    } else if code == codes::TK_F10 {
        Some(KeyCode::F10)
    } else if code == codes::TK_F11 {
        Some(KeyCode::F11)
    } else if code == codes::TK_F12 {
        Some(KeyCode::F12)
    } else if code == codes::TK_PAUSE {
        Some(KeyCode::Pause)
    } else if code == codes::TK_INSERT {
        Some(KeyCode::Insert)
    } else if code == codes::TK_HOME {
        Some(KeyCode::Home)
    } else if code == codes::TK_PAGEUP {
        Some(KeyCode::PageUp)
    } else if code == codes::TK_DELETE {
        Some(KeyCode::Delete)
    } else if code == codes::TK_END {
        Some(KeyCode::End)
    } else if code == codes::TK_PAGEDOWN {
        Some(KeyCode::PageDown)
    } else if code == codes::TK_RIGHT {
        Some(KeyCode::Right)
    } else if code == codes::TK_LEFT {
        Some(KeyCode::Left)
    } else if code == codes::TK_DOWN {
        Some(KeyCode::Down)
    } else if code == codes::TK_UP {
        Some(KeyCode::Up)
    } else if code == codes::TK_KP_DIVIDE {
        Some(KeyCode::NumDivide)
    } else if code == codes::TK_KP_MULTIPLY {
        Some(KeyCode::NumMultiply)
    } else if code == codes::TK_KP_MINUS {
        Some(KeyCode::NumMinus)
    } else if code == codes::TK_KP_PLUS {
        Some(KeyCode::NumPlus)
    } else if code == codes::TK_KP_ENTER {
        Some(KeyCode::NumEnter)
    } else if code == codes::TK_KP_1 {
        Some(KeyCode::Num1)
    } else if code == codes::TK_KP_2 {
        Some(KeyCode::Num2)
    } else if code == codes::TK_KP_3 {
        Some(KeyCode::Num3)
    } else if code == codes::TK_KP_4 {
        Some(KeyCode::Num4)
    } else if code == codes::TK_KP_5 {
        Some(KeyCode::Num5)
    } else if code == codes::TK_KP_6 {
        Some(KeyCode::Num6)
    } else if code == codes::TK_KP_7 {
        Some(KeyCode::Num7)
    } else if code == codes::TK_KP_8 {
        Some(KeyCode::Num8)
    } else if code == codes::TK_KP_9 {
        Some(KeyCode::Num9)
    } else if code == codes::TK_KP_0 {
        Some(KeyCode::Num0)
    } else if code == codes::TK_KP_PERIOD {
        Some(KeyCode::NumPeriod)
    } else if code == codes::TK_MOUSE_LEFT {
        Some(KeyCode::MouseLeft)
    } else if code == codes::TK_MOUSE_RIGHT {
        Some(KeyCode::MouseRight)
    } else if code == codes::TK_MOUSE_MIDDLE {
        Some(KeyCode::MouseMiddle)
    } else if code == codes::TK_MOUSE_X1 {
        Some(KeyCode::MouseFourth)
    } else if code == codes::TK_MOUSE_X2 {
        Some(KeyCode::MouseFifth)
    } else {
        None
    }
}

/// The integer constant the native library uses for the given key, as
/// handed to its state-query call.
pub fn keycode_raw(k: KeyCode) -> (r: i32)
    ensures
        r == spec_keycode_raw(k),
{
    match k {
        KeyCode::A => codes::TK_A,
        KeyCode::B => codes::TK_B,
        KeyCode::C => codes::TK_C,
        KeyCode::D => codes::TK_D,
        KeyCode::E => codes::TK_E,
        KeyCode::F => codes::TK_F,
        KeyCode::G => codes::TK_G,
        KeyCode::H => codes::TK_H,
        KeyCode::I => codes::TK_I,
        KeyCode::J => codes::TK_J,
        KeyCode::K => codes::TK_K,
        KeyCode::L => codes::TK_L,
        KeyCode::M => codes::TK_M,
        KeyCode::N => codes::TK_N,
        KeyCode::O => codes::TK_O,
        KeyCode::P => codes::TK_P,
        KeyCode::Q => codes::TK_Q,
        KeyCode::R => codes::TK_R,
        KeyCode::S => codes::TK_S,
        KeyCode::T => codes::TK_T,
        KeyCode::U => codes::TK_U,
        KeyCode::V => codes::TK_V,
        KeyCode::W => codes::TK_W,
        KeyCode::X => codes::TK_X,
        KeyCode::Y => codes::TK_Y,
        KeyCode::Z => codes::TK_Z,
        KeyCode::Row1 => codes::TK_1,
        KeyCode::Row2 => codes::TK_2,
        KeyCode::Row3 => codes::TK_3,
        KeyCode::Row4 => codes::TK_4,
        KeyCode::Row5 => codes::TK_5,
        KeyCode::Row6 => codes::TK_6,
        KeyCode::Row7 => codes::TK_7,
        KeyCode::Row8 => codes::TK_8,
        KeyCode::Row9 => codes::TK_9,
        KeyCode::Row0 => codes::TK_0,
        KeyCode::Enter => codes::TK_ENTER,
        KeyCode::Escape => codes::TK_ESCAPE,
        KeyCode::Backspace => codes::TK_BACKSPACE,
        KeyCode::Tab => codes::TK_TAB,
        KeyCode::Space => codes::TK_SPACE,
        KeyCode::Minus => codes::TK_MINUS,
        KeyCode::Equals => codes::TK_EQUALS,
        KeyCode::LeftBracket => codes::TK_LBRACKET,
        KeyCode::RightBracket => codes::TK_RBRACKET,
        KeyCode::Backslash => codes::TK_BACKSLASH,
        KeyCode::Semicolon => codes::TK_SEMICOLON,
        KeyCode::Apostrophe => codes::TK_APOSTROPHE,
        KeyCode::Grave => codes::TK_GRAVE,
        KeyCode::Comma => codes::TK_COMMA,
        KeyCode::Period => codes::TK_PERIOD,
        KeyCode::Slash => codes::TK_SLASH,
        KeyCode::F1 => codes::TK_F1,
        KeyCode::F2 => codes::TK_F2,
        KeyCode::F3 => codes::TK_F3,
        KeyCode::F4 => codes::TK_F4,
        KeyCode::F5 => codes::TK_F5,
        KeyCode::F6 => codes::TK_F6,
        KeyCode::F7 => codes::TK_F7,
        KeyCode::F8 => codes::TK_F8,
        KeyCode::F9 => codes::TK_F9,
        KeyCode::F10 => codes::TK_F10,
        KeyCode::F11 => codes::TK_F11,
        KeyCode::F12 => codes::TK_F12,
        KeyCode::Pause => codes::TK_PAUSE,
        KeyCode::Insert => codes::TK_INSERT,
        KeyCode::Home => codes::TK_HOME,
        KeyCode::PageUp => codes::TK_PAGEUP,
        KeyCode::Delete => codes::TK_DELETE,
        KeyCode::End => codes::TK_END,
        KeyCode::PageDown => codes::TK_PAGEDOWN,
        KeyCode::Right => codes::TK_RIGHT,
        KeyCode::Left => codes::TK_LEFT,
        KeyCode::Down => codes::TK_DOWN,
        KeyCode::Up => codes::TK_UP,
        KeyCode::NumDivide => codes::TK_KP_DIVIDE,
        KeyCode::NumMultiply => codes::TK_KP_MULTIPLY,
        KeyCode::NumMinus => codes::TK_KP_MINUS,
        KeyCode::NumPlus => codes::TK_KP_PLUS,
        KeyCode::NumEnter => codes::TK_KP_ENTER,
        KeyCode::Num1 => codes::TK_KP_1,
        KeyCode::Num2 => codes::TK_KP_2,
        KeyCode::Num3 => codes::TK_KP_3,
        KeyCode::Num4 => codes::TK_KP_4,
        KeyCode::Num5 => codes::TK_KP_5,
        KeyCode::Num6 => codes::TK_KP_6,
        KeyCode::Num7 => codes::TK_KP_7,
        KeyCode::Num8 => codes::TK_KP_8,
        KeyCode::Num9 => codes::TK_KP_9,
        KeyCode::Num0 => codes::TK_KP_0,
        KeyCode::NumPeriod => codes::TK_KP_PERIOD,
        KeyCode::MouseLeft => codes::TK_MOUSE_LEFT,
        KeyCode::MouseRight => codes::TK_MOUSE_RIGHT,
        KeyCode::MouseMiddle => codes::TK_MOUSE_MIDDLE,
        KeyCode::MouseFourth => codes::TK_MOUSE_X1,
        KeyCode::MouseFifth => codes::TK_MOUSE_X2,
    }
}

/// Translate a raw key code into the key it stands for; unrecognized codes
/// yield `None`.
pub fn to_keycode(code: i32) -> (r: Option<KeyCode>)
    ensures
        r == spec_to_keycode(code),
{
    if code == codes::TK_A {
        Some(KeyCode::A)
    } else if code == codes::TK_B {
        Some(KeyCode::B)
    } else if code == codes::TK_C {
        Some(KeyCode::C)
    } else if code == codes::TK_D {
        Some(KeyCode::D)
    } else if code == codes::TK_E {
        Some(KeyCode::E)
    } else if code == codes::TK_F {
        Some(KeyCode::F)
    } else if code == codes::TK_G {
        Some(KeyCode::G)
    } else if code == codes::TK_H {
        Some(KeyCode::H)
    } else if code == codes::TK_I {
        Some(KeyCode::I)
    } else if code == codes::TK_J {
        Some(KeyCode::J)
    } else if code == codes::TK_K {
        Some(KeyCode::K)
    } else if code == codes::TK_L {
        Some(KeyCode::L)
    } else if code == codes::TK_M {
        Some(KeyCode::M)
    } else if code == codes::TK_N {
        Some(KeyCode::N)
    } else if code == codes::TK_O {
        Some(KeyCode::O)
    } else if code == codes::TK_P {
        Some(KeyCode::P)
    } else if code == codes::TK_Q {
        Some(KeyCode::Q)
    } else if code == codes::TK_R {
        Some(KeyCode::R)
    } else if code == codes::TK_S {
        Some(KeyCode::S)
    } else if code == codes::TK_T {
        Some(KeyCode::T)
    } else if code == codes::TK_U {
        Some(KeyCode::U)
    } else if code == codes::TK_V {
        Some(KeyCode::V)
    } else if code == codes::TK_W {
        Some(KeyCode::W)
    } else if code == codes::TK_X {
        Some(KeyCode::X)
    } else if code == codes::TK_Y {
        Some(KeyCode::Y)
    } else if code == codes::TK_Z {
        Some(KeyCode::Z)
    } else if code == codes::TK_1 {
        Some(KeyCode::Row1)
    } else if code == codes::TK_2 {
        Some(KeyCode::Row2)
    } else if code == codes::TK_3 {
        Some(KeyCode::Row3)
    } else if code == codes::TK_4 {
        Some(KeyCode::Row4)
    } else if code == codes::TK_5 {
        Some(KeyCode::Row5)
    } else if code == codes::TK_6 {
        Some(KeyCode::Row6)
    } else if code == codes::TK_7 {
        Some(KeyCode::Row7)
    } else if code == codes::TK_8 {
        Some(KeyCode::Row8)
    } else if code == codes::TK_9 {
        Some(KeyCode::Row9)
    } else if code == codes::TK_0 {
        Some(KeyCode::Row0)
    } else if code == codes::TK_ENTER {
        Some(KeyCode::Enter)
    } else if code == codes::TK_ESCAPE {
        Some(KeyCode::Escape)
    } else if code == codes::TK_BACKSPACE {
        Some(KeyCode::Backspace)
    } else if code == codes::TK_TAB {
        Some(KeyCode::Tab)
    } else if code == codes::TK_SPACE {
        Some(KeyCode::Space)
    } else if code == codes::TK_MINUS {
        Some(KeyCode::Minus)
    } else if code == codes::TK_EQUALS {
        Some(KeyCode::Equals)
    } else if code == codes::TK_LBRACKET {
        Some(KeyCode::LeftBracket)
    } else if code == codes::TK_RBRACKET {
        Some(KeyCode::RightBracket)
    } else if code == codes::TK_BACKSLASH {
        Some(KeyCode::Backslash)
    } else if code == codes::TK_SEMICOLON {
        Some(KeyCode::Semicolon)
    } else if code == codes::TK_APOSTROPHE {
        Some(KeyCode::Apostrophe)
    } else if code == codes::TK_GRAVE {
        Some(KeyCode::Grave)
    } else if code == codes::TK_COMMA {
        Some(KeyCode::Comma)
    } else if code == codes::TK_PERIOD {
        Some(KeyCode::Period)
    } else if code == codes::TK_SLASH {
        Some(KeyCode::Slash)
    } else if code == codes::TK_F1 {
        Some(KeyCode::F1)
    } else if code == codes::TK_F2 {
        Some(KeyCode::F2)
    } else if code == codes::TK_F3 {
        Some(KeyCode::F3)
    } else if code == codes::TK_F4 {
        Some(KeyCode::F4)
    } else if code == codes::TK_F5 {
        Some(KeyCode::F5)
    } else if code == codes::TK_F6 {
        Some(KeyCode::F6)
    } else if code == codes::TK_F7 {
        Some(KeyCode::F7)
    } else if code == codes::TK_F8 {
        Some(KeyCode::F8)
    } else if code == codes::TK_F9 {
        Some(KeyCode::F9)
    } else if code == codes::TK_F10 {
        Some(KeyCode::F10)
    } else if code == codes::TK_F11 {
        Some(KeyCode::F11)
    } else if code == codes::TK_F12 {
        Some(KeyCode::F12)
    } else if code == codes::TK_PAUSE {
        Some(KeyCode::Pause)
    } else if code == codes::TK_INSERT {
        Some(KeyCode::Insert)
    } else if code == codes::TK_HOME {
        Some(KeyCode::Home)
    } else if code == codes::TK_PAGEUP {
        Some(KeyCode::PageUp)
    } else if code == codes::TK_DELETE {
        Some(KeyCode::Delete)
    } else if code == codes::TK_END {
        Some(KeyCode::End)
    } else if code == codes::TK_PAGEDOWN {
        Some(KeyCode::PageDown)
    } else if code == codes::TK_RIGHT {
        Some(KeyCode::Right)
    } else if code == codes::TK_LEFT {
        Some(KeyCode::Left)
    } else if code == codes::TK_DOWN {
        Some(KeyCode::Down)
    } else if code == codes::TK_UP {
        Some(KeyCode::Up)
    } else if code == codes::TK_KP_DIVIDE {
        Some(KeyCode::NumDivide)
    } else if code == codes::TK_KP_MULTIPLY {
        Some(KeyCode::NumMultiply)
    } else if code == codes::TK_KP_MINUS {
        Some(KeyCode::NumMinus)
    } else if code == codes::TK_KP_PLUS {
        Some(KeyCode::NumPlus)
    } else if code == codes::TK_KP_ENTER {
        Some(KeyCode::NumEnter)
    } else if code == codes::TK_KP_1 {
        Some(KeyCode::Num1)
    } else if code == codes::TK_KP_2 {
        Some(KeyCode::Num2)
    } else if code == codes::TK_KP_3 {
        Some(KeyCode::Num3)
    } else if code == codes::TK_KP_4 {
        Some(KeyCode::Num4)
    } else if code == codes::TK_KP_5 {
        Some(KeyCode::Num5)
    } else if code == codes::TK_KP_6 {
        Some(KeyCode::Num6)
    } else if code == codes::TK_KP_7 {
        Some(KeyCode::Num7)
    } else if code == codes::TK_KP_8 {
        Some(KeyCode::Num8)
    } else if code == codes::TK_KP_9 {
        Some(KeyCode::Num9)
    } else if code == codes::TK_KP_0 {
        Some(KeyCode::Num0)
    } else if code == codes::TK_KP_PERIOD {
        Some(KeyCode::NumPeriod)
    } else if code == codes::TK_MOUSE_LEFT {
        Some(KeyCode::MouseLeft)
    } else if code == codes::TK_MOUSE_RIGHT {
        Some(KeyCode::MouseRight)
    } else if code == codes::TK_MOUSE_MIDDLE {
        Some(KeyCode::MouseMiddle)
    } else if code == codes::TK_MOUSE_X1 {
        Some(KeyCode::MouseFourth)
    } else if code == codes::TK_MOUSE_X2 {
        Some(KeyCode::MouseFifth)
    } else {
        None
    }
}

/// Every key's constant lies in the key/mouse-button range, below the
/// release flag bit, and is distinct from the Shift and Control constants.
pub proof fn lemma_keycode_raw_bounds(k: KeyCode)
    ensures
        0x04 <= spec_keycode_raw(k) <= 0x84,
        spec_keycode_raw(k) != codes::TK_SHIFT,
        spec_keycode_raw(k) != codes::TK_CONTROL,
{
    match k {
        KeyCode::A => {},
        KeyCode::B => {},
        KeyCode::C => {},
        KeyCode::D => {},
        KeyCode::E => {},
        KeyCode::F => {},
        KeyCode::G => {},
        KeyCode::H => {},
        KeyCode::I => {},
        KeyCode::J => {},
        KeyCode::K => {},
        KeyCode::L => {},
        KeyCode::M => {},
        KeyCode::N => {},
        KeyCode::O => {},
        KeyCode::P => {},
        KeyCode::Q => {},
        KeyCode::R => {},
        KeyCode::S => {},
        KeyCode::T => {},
        KeyCode::U => {},
        KeyCode::V => {},
        KeyCode::W => {},
        KeyCode::X => {},
        KeyCode::Y => {},
        KeyCode::Z => {},
        KeyCode::Row1 => {},
        KeyCode::Row2 => {},
        KeyCode::Row3 => {},
        KeyCode::Row4 => {},
        KeyCode::Row5 => {},
        KeyCode::Row6 => {},
        KeyCode::Row7 => {},
        KeyCode::Row8 => {},
        KeyCode::Row9 => {},
        KeyCode::Row0 => {},
        KeyCode::Enter => {},
        KeyCode::Escape => {},
        KeyCode::Backspace => {},
        KeyCode::Tab => {},
        KeyCode::Space => {},
        KeyCode::Minus => {},
        KeyCode::Equals => {},
        KeyCode::LeftBracket => {},
        KeyCode::RightBracket => {},
        KeyCode::Backslash => {},
        KeyCode::Semicolon => {},
        KeyCode::Apostrophe => {},
        KeyCode::Grave => {},
        KeyCode::Comma => {},
        KeyCode::Period => {},
        KeyCode::Slash => {},
        KeyCode::F1 => {},
        KeyCode::F2 => {},
        KeyCode::F3 => {},
        KeyCode::F4 => {},
        KeyCode::F5 => {},
        KeyCode::F6 => {},
        KeyCode::F7 => {},
        KeyCode::F8 => {},
        KeyCode::F9 => {},
        KeyCode::F10 => {},
        KeyCode::F11 => {},
        KeyCode::F12 => {},
        KeyCode::Pause => {},
        KeyCode::Insert => {},
        KeyCode::Home => {},
        KeyCode::PageUp => {},
        KeyCode::Delete => {},
        KeyCode::End => {},
        KeyCode::PageDown => {},
        KeyCode::Right => {},
        KeyCode::Left => {},
        KeyCode::Down => {},
        KeyCode::Up => {},
        KeyCode::NumDivide => {},
        KeyCode::NumMultiply => {},
        KeyCode::NumMinus => {},
        KeyCode::NumPlus => {},
        KeyCode::NumEnter => {},
        KeyCode::Num1 => {},
        KeyCode::Num2 => {},
        KeyCode::Num3 => {},
        KeyCode::Num4 => {},
        KeyCode::Num5 => {},
        KeyCode::Num6 => {},
        KeyCode::Num7 => {},
        KeyCode::Num8 => {},
        KeyCode::Num9 => {},
        KeyCode::Num0 => {},
        KeyCode::NumPeriod => {},
        KeyCode::MouseLeft => {},
        KeyCode::MouseRight => {},
        KeyCode::MouseMiddle => {},
        KeyCode::MouseFourth => {},
        KeyCode::MouseFifth => {},
    }
}

/// Law: the key-to-code and code-to-key mappings are mutually inverse --
/// decoding a key's own constant gives back exactly that key.
pub proof fn lemma_keycode_roundtrip(k: KeyCode)
    ensures
        spec_to_keycode(spec_keycode_raw(k)) == Some(k),
{
    match k {
        KeyCode::A => {},
        KeyCode::B => {},
        KeyCode::C => {},
        KeyCode::D => {},
        KeyCode::E => {},
        KeyCode::F => {},
        KeyCode::G => {},
        KeyCode::H => {},
        KeyCode::I => {},
        KeyCode::J => {},
        KeyCode::K => {},
        KeyCode::L => {},
        KeyCode::M => {},
        KeyCode::N => {},
        KeyCode::O => {},
        KeyCode::P => {},
        KeyCode::Q => {},
        KeyCode::R => {},
        KeyCode::S => {},
        KeyCode::T => {},
        KeyCode::U => {},
        KeyCode::V => {},
        KeyCode::W => {},
        KeyCode::X => {},
        KeyCode::Y => {},
        KeyCode::Z => {},
        KeyCode::Row1 => {},
        KeyCode::Row2 => {},
        KeyCode::Row3 => {},
        KeyCode::Row4 => {},
        KeyCode::Row5 => {},
        KeyCode::Row6 => {},
        KeyCode::Row7 => {},
        KeyCode::Row8 => {},
        KeyCode::Row9 => {},
        KeyCode::Row0 => {},
        KeyCode::Enter => {},
        KeyCode::Escape => {},
        KeyCode::Backspace => {},
        KeyCode::Tab => {},
        KeyCode::Space => {},
        KeyCode::Minus => {},
        KeyCode::Equals => {},
        KeyCode::LeftBracket => {},
        KeyCode::RightBracket => {},
        KeyCode::Backslash => {},
        KeyCode::Semicolon => {},
        KeyCode::Apostrophe => {},
        KeyCode::Grave => {},
        KeyCode::Comma => {},
        KeyCode::Period => {},
        KeyCode::Slash => {},
        KeyCode::F1 => {},
        KeyCode::F2 => {},
        KeyCode::F3 => {},
        KeyCode::F4 => {},
        KeyCode::F5 => {},
        KeyCode::F6 => {},
        KeyCode::F7 => {},
        KeyCode::F8 => {},
        KeyCode::F9 => {},
        KeyCode::F10 => {},
        KeyCode::F11 => {},
        KeyCode::F12 => {},
        KeyCode::Pause => {},
        KeyCode::Insert => {},
        KeyCode::Home => {},
        KeyCode::PageUp => {},
        KeyCode::Delete => {},
        KeyCode::End => {},
        KeyCode::PageDown => {},
        KeyCode::Right => {},
        KeyCode::Left => {},
        KeyCode::Down => {},
        KeyCode::Up => {},
        KeyCode::NumDivide => {},
        KeyCode::NumMultiply => {},
        KeyCode::NumMinus => {},
        KeyCode::NumPlus => {},
        KeyCode::NumEnter => {},
        KeyCode::Num1 => {},
        KeyCode::Num2 => {},
        KeyCode::Num3 => {},
        KeyCode::Num4 => {},
        KeyCode::Num5 => {},
        KeyCode::Num6 => {},
        KeyCode::Num7 => {},
        KeyCode::Num8 => {},
        KeyCode::Num9 => {},
        KeyCode::Num0 => {},
        KeyCode::NumPeriod => {},
        KeyCode::MouseLeft => {},
        KeyCode::MouseRight => {},
        KeyCode::MouseMiddle => {},
        KeyCode::MouseFourth => {},
        KeyCode::MouseFifth => {},
    }
}

/// The queryable live terminal state that event decoding draws payloads
/// from: resize dimensions, mouse position, wheel delta and the modifier
/// keys as they are at decode time.
#[derive(Clone, Copy, Debug, Eq, Hash, PartialEq)]
pub struct StateSnapshot {
    /// Terminal width in cells.
    pub width: i32,
    /// Terminal height in cells.
    pub height: i32,
    /// Mouse cursor cell column.
    pub mouse_x: i32,
    /// Mouse cursor cell row.
    pub mouse_y: i32,
    /// Last mouse-wheel delta.
    pub mouse_wheel: i32,
    /// Whether Control is currently pressed.
    pub ctrl: bool,
    /// Whether Shift is currently pressed.
    pub shift: bool,
}

/// The event a key code decodes to: a press or a release of `key`,
/// annotated with the modifier state.
pub open spec fn spec_get_key(released: bool, key: KeyCode, ctrl: bool, shift: bool) -> Event {
    if released {
        Event::KeyReleased { key, ctrl, shift }
    } else {
        Event::KeyPressed { key, ctrl, shift }
    }
}

/// What a raw key code decodes to: the Shift and Control constants map to
/// their dedicated events, every other recognized base code to a generic
/// key event, anything else to `None`. The release flag bit selects between
/// press and release.
pub open spec fn spec_to_key_event(code: i32, ctrl: bool, shift: bool) -> Option<Event> {
    let key = code & !codes::TK_KEY_RELEASED;
    let released = (code & codes::TK_KEY_RELEASED) == codes::TK_KEY_RELEASED;
    if key == codes::TK_SHIFT {
        Some(if released { Event::ShiftReleased } else { Event::ShiftPressed })
    } else if key == codes::TK_CONTROL {
        Some(if released { Event::ControlReleased } else { Event::ControlPressed })
    } else {
        match spec_to_keycode(key) {
            Some(k) => Some(spec_get_key(released, k, ctrl, shift)),
            None => None,
        }
    }
}

/// What a raw event code decodes to, payloads drawn from the snapshot.
pub open spec fn spec_to_event(code: i32, snap: StateSnapshot) -> Option<Event> {
    if code == codes::TK_CLOSE {
        Some(Event::Close)
    } else if code == codes::TK_RESIZED {
        Some(Event::Resize { width: snap.width, height: snap.height })
    } else if code == codes::TK_MOUSE_MOVE {
        Some(Event::MouseMove { x: snap.mouse_x, y: snap.mouse_y })
    } else if code == codes::TK_MOUSE_SCROLL {
        Some(Event::MouseScroll { delta: snap.mouse_wheel })
    } else {
        spec_to_key_event(code, snap.ctrl, snap.shift)
    }
}

/// Whether `code` is one the decoder knows: a sentinel, a modifier, or a
/// recognized key code, in either press or release form.
pub open spec fn spec_event_recognized(code: i32) -> bool {
    ||| code == codes::TK_CLOSE
    ||| code == codes::TK_RESIZED
    ||| code == codes::TK_MOUSE_MOVE
    ||| code == codes::TK_MOUSE_SCROLL
    ||| (code & !codes::TK_KEY_RELEASED) == codes::TK_SHIFT
    ||| (code & !codes::TK_KEY_RELEASED) == codes::TK_CONTROL
    ||| spec_to_keycode(code & !codes::TK_KEY_RELEASED) is Some
}

/// Wrap a decoded key into its press or release event.
pub fn get_key(released: bool, key: KeyCode, ctrl: bool, shift: bool) -> (r: Event)
    ensures
        r == spec_get_key(released, key, ctrl, shift),
{
    if released {
        Event::KeyReleased { key, ctrl, shift }
    } else {
        Event::KeyPressed { key, ctrl, shift }
    }
}

/// The mouse-move event for the cursor position recorded in the snapshot.
pub fn get_mouse_move(snap: &StateSnapshot) -> (r: Event)
    ensures
        r == (Event::MouseMove { x: snap.mouse_x, y: snap.mouse_y }),
{
    Event::MouseMove { x: snap.mouse_x, y: snap.mouse_y }
}

/// The mouse-scroll event for the wheel delta recorded in the snapshot.
pub fn get_mouse_scroll(snap: &StateSnapshot) -> (r: Event)
    ensures
        r == (Event::MouseScroll { delta: snap.mouse_wheel }),
{
    Event::MouseScroll { delta: snap.mouse_wheel }
}

/// Decode a raw key code into its event, the modifier flags taken from the
/// live state at decode time.
pub fn to_key_event(code: i32, ctrl: bool, shift: bool) -> (r: Option<Event>)
    ensures
        r == spec_to_key_event(code, ctrl, shift),
{
    let key = code & !codes::TK_KEY_RELEASED;
    let released = (code & codes::TK_KEY_RELEASED) == codes::TK_KEY_RELEASED;

    if key == codes::TK_SHIFT {
        Some(if released { Event::ShiftReleased } else { Event::ShiftPressed })
    } else if key == codes::TK_CONTROL {
        Some(if released { Event::ControlReleased } else { Event::ControlPressed })
    } else {
        match to_keycode(key) {
            Some(converted) => Some(get_key(released, converted, ctrl, shift)),
            None => None,
        }
    }
}

/// Decode a raw event code into an event, payloads drawn from the snapshot.
///
/// Returns `None` exactly on the codes the decoder does not recognize: an
/// unknown code is "no event", not an error.
pub fn to_event(code: i32, snap: &StateSnapshot) -> (r: Option<Event>)
    ensures
        r == spec_to_event(code, *snap),
        r is Some <==> spec_event_recognized(code),
{
    if code == codes::TK_CLOSE {
        Some(Event::Close)
    } else if code == codes::TK_RESIZED {
        Some(Event::Resize { width: snap.width, height: snap.height })
    } else if code == codes::TK_MOUSE_MOVE {
        Some(get_mouse_move(snap))
    } else if code == codes::TK_MOUSE_SCROLL {
        Some(get_mouse_scroll(snap))
    } else {
        to_key_event(code, snap.ctrl, snap.shift)
    }
}

/// Law: a key's own constant decodes to a press of exactly that key.
pub proof fn lemma_key_press_decodes(k: KeyCode, ctrl: bool, shift: bool)
    ensures
        spec_to_key_event(spec_keycode_raw(k), ctrl, shift) == Some(
            Event::KeyPressed { key: k, ctrl, shift },
        ),
{
    lemma_keycode_raw_bounds(k);
    lemma_keycode_roundtrip(k);
    let v = spec_keycode_raw(k);
    assert(v & !0x100i32 == v && (v & 0x100i32) != 0x100i32) by (bit_vector)
        requires
            0x04 <= v <= 0x84,
    ;
}

/// Law: a key's constant with the release flag bit set decodes to a release
/// of exactly the key its press form decodes to.
pub proof fn lemma_key_release_decodes(k: KeyCode, ctrl: bool, shift: bool)
    ensures
        spec_to_key_event(spec_keycode_raw(k) | codes::TK_KEY_RELEASED, ctrl, shift) == Some(
            Event::KeyReleased { key: k, ctrl, shift },
        ),
{
    lemma_keycode_raw_bounds(k);
    lemma_keycode_roundtrip(k);
    let v = spec_keycode_raw(k);
    assert((v | 0x100i32) & !0x100i32 == v && ((v | 0x100i32) & 0x100i32) == 0x100i32)
        by (bit_vector)
        requires
            0x04 <= v <= 0x84,
    ;
}

/// Law: the Shift constant with the release flag bit set decodes to the
/// dedicated `ShiftReleased` event, not to a generic key release; the
/// Control constant likewise.
pub proof fn lemma_modifier_release_decodes(ctrl: bool, shift: bool)
    ensures
        spec_to_key_event(codes::TK_SHIFT | codes::TK_KEY_RELEASED, ctrl, shift) == Some(
            Event::ShiftReleased,
        ),
        spec_to_key_event(codes::TK_CONTROL | codes::TK_KEY_RELEASED, ctrl, shift) == Some(
            Event::ControlReleased,
        ),
{
    assert((0x70i32 | 0x100i32) & !0x100i32 == 0x70i32 && ((0x70i32 | 0x100i32) & 0x100i32)
        == 0x100i32) by (bit_vector);
    assert((0x71i32 | 0x100i32) & !0x100i32 == 0x71i32 && ((0x71i32 | 0x100i32) & 0x100i32)
        == 0x100i32) by (bit_vector);
}

} // verus!
