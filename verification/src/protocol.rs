//! Wire codec: fixed 19-byte frames carrying one input event each.
//!
//! Layout: byte 0 is the frame flag, byte 1 the key code, byte 2 the event
//! sub-flag, bytes 3..11 and 11..19 hold the two event deltas as big-endian
//! IEEE-754 doubles. The library never interprets a delta as a number: it
//! carries each one as the 64-bit pattern of the double, so the payload is
//! framed bit-exactly. Every byte table is total with an Unknown fallback,
//! so decoding never fails, whatever a datagram holds.

use vstd::prelude::*;

verus! {

/// Length in bytes of every frame on the wire.
pub const PROTOCOL_LEN: usize = 19;

/// Frame flag: what kind of frame this is.
#[derive(Debug, Clone, Copy, PartialEq, Eq, Structural)]
pub enum Flag {
    /// A keyboard or mouse event follows.
    KeyMouse,
    /// Clipboard transfer; reserved on the wire, no handler exists.
    CopyPaste,
    /// A client announces itself and asks to be registered.
    ClientInitConnection,
    /// Any flag byte outside the table.
    Unknown,
}

/// Wire code of a flag.
pub open spec fn spec_flag_code(f: Flag) -> u8 {
    match f {
        Flag::KeyMouse => 0x01,
        Flag::CopyPaste => 0x02,
        Flag::ClientInitConnection => 0x03,
        Flag::Unknown => 0x00,
    }
}

/// Flag decoded from a byte; anything outside the table is Unknown.
pub open spec fn spec_flag_of_byte(b: u8) -> Flag {
    match b {
        0x01u8 => Flag::KeyMouse,
        0x02u8 => Flag::CopyPaste,
        0x03u8 => Flag::ClientInitConnection,
        _ => Flag::Unknown,
    }
}

pub fn flag_code(f: Flag) -> (b: u8)
    ensures
        b == spec_flag_code(f),
{
    match f {
        Flag::KeyMouse => 0x01,
        Flag::CopyPaste => 0x02,
        Flag::ClientInitConnection => 0x03,
        Flag::Unknown => 0x00,
    }
}

pub fn flag_of_byte(b: u8) -> (f: Flag)
    ensures
        f == spec_flag_of_byte(b),
{
    match b {
        0x01 => Flag::KeyMouse,
        0x02 => Flag::CopyPaste,
        0x03 => Flag::ClientInitConnection,
        _ => Flag::Unknown,
    }
}

/// Symbolic key, mouse button, or pointer-move marker carried in byte 1.
///
/// The wire codes follow the virtual-key code table where one exists;
/// variants without a code share the Unknown fallback byte 0x00.
#[derive(Debug, Clone, Copy, PartialEq, Eq, Structural)]
pub enum KeyMouse {
    Alt,
    AltGr,
    Backspace,
    CapsLock,
    ControlLeft,
    ControlRight,
    Delete,
    DownArrow,
    End,
    Escape,
    F1,
    F10,
    F11,
    F12,
    F2,
    F3,
    F4,
    F5,
    F6,
    F7,
    F8,
    F9,
    Home,
    LeftArrow,
    /// also known as "windows", "super", and "command"
    MetaLeft,
    /// also known as "windows", "super", and "command"
    MetaRight,
    PageDown,
    PageUp,
    Return,
    RightArrow,
    ShiftLeft,
    ShiftRight,
    Space,
    Tab,
    UpArrow,
    PrintScreen,
    ScrollLock,
    Pause,
    NumLock,
    BackQuote,
    Num1,
    Num2,
    Num3,
    Num4,
    Num5,
    Num6,
    Num7,
    Num8,
    Num9,
    Num0,
    Minus,
    Equal,
    KeyQ,
    KeyW,
    KeyE,
    KeyR,
    KeyT,
    KeyY,
    KeyU,
    KeyI,
    KeyO,
    KeyP,
    LeftBracket,
    RightBracket,
    KeyA,
    KeyS,
    KeyD,
    KeyF,
    KeyG,
    KeyH,
    KeyJ,
    KeyK,
    KeyL,
    SemiColon,
    Quote,
    BackSlash,
    IntlBackslash,
    KeyZ,
    KeyX,
    KeyC,
    KeyV,
    KeyB,
    KeyN,
    KeyM,
    Comma,
    Dot,
    Slash,
    Insert,
    KpReturn,
    KpMinus,
    KpPlus,
    KpMultiply,
    KpDivide,
    Kp0,
    Kp1,
    Kp2,
    Kp3,
    Kp4,
    Kp5,
    Kp6,
    Kp7,
    Kp8,
    Kp9,
    KpDelete,
    Function,
    MouseMove,
    MouseLeft,
    MouseRight,
    MouseMiddle,
    /// Any key byte outside the table.
    Unknown,
}

/// Wire code of a key; a key without one encodes as the Unknown byte 0x00.
pub open spec fn spec_key_code(k: KeyMouse) -> u8 {
    match k {
        KeyMouse::Alt => 0x12,
        KeyMouse::Backspace => 0x08,
        KeyMouse::CapsLock => 0x14,
        KeyMouse::ControlLeft => 0xA2,
        KeyMouse::ControlRight => 0xA3,
        KeyMouse::Delete => 0x2E,
        KeyMouse::DownArrow => 0x28,
        KeyMouse::End => 0x23,
        KeyMouse::Escape => 0x1B,
        KeyMouse::F1 => 0x70,
        KeyMouse::F2 => 0x71,
        KeyMouse::F3 => 0x72,
        KeyMouse::F4 => 0x73,
        KeyMouse::F5 => 0x74,
        KeyMouse::F6 => 0x75,
        KeyMouse::F7 => 0x76,
        KeyMouse::F8 => 0x77,
        KeyMouse::F9 => 0x78,
        KeyMouse::F10 => 0x79,
        KeyMouse::F11 => 0x7A,
        KeyMouse::F12 => 0x7B,
        KeyMouse::Home => 0x24,
        KeyMouse::LeftArrow => 0x25,
        KeyMouse::MetaLeft => 0xA4,
        KeyMouse::MetaRight => 0xA5,
        KeyMouse::PageDown => 0x22,
        KeyMouse::PageUp => 0x21,
        KeyMouse::Return => 0x0D,
        KeyMouse::RightArrow => 0x27,
        KeyMouse::ShiftLeft => 0xA0,
        KeyMouse::ShiftRight => 0xA1,
        KeyMouse::Space => 0x20,
        KeyMouse::Tab => 0x09,
        KeyMouse::UpArrow => 0x26,
        KeyMouse::PrintScreen => 0x2C,
        KeyMouse::ScrollLock => 0x91,
        KeyMouse::Pause => 0x13,
        KeyMouse::NumLock => 0x90,
        KeyMouse::BackQuote => 0xC0,
        KeyMouse::Num0 => 0x30,
        KeyMouse::Num1 => 0x31,
        KeyMouse::Num2 => 0x32,
        KeyMouse::Num3 => 0x33,
        KeyMouse::Num4 => 0x34,
        KeyMouse::Num5 => 0x35,
        KeyMouse::Num6 => 0x36,
        KeyMouse::Num7 => 0x37,
        KeyMouse::Num8 => 0x38,
        KeyMouse::Num9 => 0x39,
        KeyMouse::KeyA => 0x41,
        KeyMouse::KeyB => 0x42,
        KeyMouse::KeyC => 0x43,
        KeyMouse::KeyD => 0x44,
        KeyMouse::KeyE => 0x45,
        KeyMouse::KeyF => 0x46,
        KeyMouse::KeyG => 0x47,
        KeyMouse::KeyH => 0x48,
        KeyMouse::KeyI => 0x49,
        KeyMouse::KeyJ => 0x4A,
        KeyMouse::KeyK => 0x4B,
        KeyMouse::KeyL => 0x4C,
        KeyMouse::KeyM => 0x4D,
        KeyMouse::KeyN => 0x4E,
        KeyMouse::KeyO => 0x4F,
        KeyMouse::KeyP => 0x50,
        KeyMouse::KeyQ => 0x51,
        KeyMouse::KeyR => 0x52,
        KeyMouse::KeyS => 0x53,
        KeyMouse::KeyT => 0x54,
        KeyMouse::KeyU => 0x55,
        KeyMouse::KeyV => 0x56,
        KeyMouse::KeyW => 0x57,
        KeyMouse::KeyX => 0x58,
        KeyMouse::KeyY => 0x59,
        KeyMouse::KeyZ => 0x5A,
        KeyMouse::Minus => 0xBD,
        KeyMouse::Comma => 0xBC,
        KeyMouse::Dot => 0xBE,
        KeyMouse::Insert => 0x2D,
        KeyMouse::Kp0 => 0x60,
        KeyMouse::Kp1 => 0x61,
        KeyMouse::Kp2 => 0x62,
        KeyMouse::Kp3 => 0x63,
        KeyMouse::Kp4 => 0x64,
        KeyMouse::Kp5 => 0x65,
        KeyMouse::Kp6 => 0x66,
        KeyMouse::Kp7 => 0x67,
        KeyMouse::Kp8 => 0x68,
        KeyMouse::Kp9 => 0x69,
        KeyMouse::MouseMove => 0x07,
        KeyMouse::MouseLeft => 0x01,
        KeyMouse::MouseRight => 0x02,
        KeyMouse::MouseMiddle => 0x04,
        _ => 0x00,
    }
}

/// Key decoded from a byte; anything outside the table is Unknown.
pub open spec fn spec_key_of_byte(b: u8) -> KeyMouse {
    match b {
        0x12u8 => KeyMouse::Alt,
        0x08u8 => KeyMouse::Backspace,
        0x14u8 => KeyMouse::CapsLock,
        0xA2u8 => KeyMouse::ControlLeft,
        0xA3u8 => KeyMouse::ControlRight,
        0x2Eu8 => KeyMouse::Delete,
        0x28u8 => KeyMouse::DownArrow,
        0x23u8 => KeyMouse::End,
        0x1Bu8 => KeyMouse::Escape,
        0x70u8 => KeyMouse::F1,
        0x71u8 => KeyMouse::F2,
        0x72u8 => KeyMouse::F3,
        0x73u8 => KeyMouse::F4,
        0x74u8 => KeyMouse::F5,
        0x75u8 => KeyMouse::F6,
        0x76u8 => KeyMouse::F7,
        0x77u8 => KeyMouse::F8,
        0x78u8 => KeyMouse::F9,
        0x79u8 => KeyMouse::F10,
        0x7Au8 => KeyMouse::F11,
        0x7Bu8 => KeyMouse::F12,
        0x24u8 => KeyMouse::Home,
        0x25u8 => KeyMouse::LeftArrow,
        0xA4u8 => KeyMouse::MetaLeft,
        0xA5u8 => KeyMouse::MetaRight,
        0x22u8 => KeyMouse::PageDown,
        0x21u8 => KeyMouse::PageUp,
        0x0Du8 => KeyMouse::Return,
        0x27u8 => KeyMouse::RightArrow,
        0xA0u8 => KeyMouse::ShiftLeft,
        0xA1u8 => KeyMouse::ShiftRight,
        0x20u8 => KeyMouse::Space,
        0x09u8 => KeyMouse::Tab,
        0x26u8 => KeyMouse::UpArrow,
        0x2Cu8 => KeyMouse::PrintScreen,
        0x91u8 => KeyMouse::ScrollLock,
        0x13u8 => KeyMouse::Pause,
        0x90u8 => KeyMouse::NumLock,
        0xC0u8 => KeyMouse::BackQuote,
        0x30u8 => KeyMouse::Num0,
        0x31u8 => KeyMouse::Num1,
        0x32u8 => KeyMouse::Num2,
        0x33u8 => KeyMouse::Num3,
        0x34u8 => KeyMouse::Num4,
        0x35u8 => KeyMouse::Num5,
        0x36u8 => KeyMouse::Num6,
        0x37u8 => KeyMouse::Num7,
        0x38u8 => KeyMouse::Num8,
        0x39u8 => KeyMouse::Num9,
        0x41u8 => KeyMouse::KeyA,
        0x42u8 => KeyMouse::KeyB,
        0x43u8 => KeyMouse::KeyC,
        0x44u8 => KeyMouse::KeyD,
        0x45u8 => KeyMouse::KeyE,
        0x46u8 => KeyMouse::KeyF,
        0x47u8 => KeyMouse::KeyG,
        0x48u8 => KeyMouse::KeyH,
        0x49u8 => KeyMouse::KeyI,
        0x4Au8 => KeyMouse::KeyJ,
        0x4Bu8 => KeyMouse::KeyK,
        0x4Cu8 => KeyMouse::KeyL,
        0x4Du8 => KeyMouse::KeyM,
        0x4Eu8 => KeyMouse::KeyN,
        0x4Fu8 => KeyMouse::KeyO,
        0x50u8 => KeyMouse::KeyP,
        0x51u8 => KeyMouse::KeyQ,
        0x52u8 => KeyMouse::KeyR,
        0x53u8 => KeyMouse::KeyS,
        0x54u8 => KeyMouse::KeyT,
        0x55u8 => KeyMouse::KeyU,
        0x56u8 => KeyMouse::KeyV,
        0x57u8 => KeyMouse::KeyW,
        0x58u8 => KeyMouse::KeyX,
        0x59u8 => KeyMouse::KeyY,
        0x5Au8 => KeyMouse::KeyZ,
        0xBDu8 => KeyMouse::Minus,
        0xBCu8 => KeyMouse::Comma,
        0xBEu8 => KeyMouse::Dot,
        0x2Du8 => KeyMouse::Insert,
        0x60u8 => KeyMouse::Kp0,
        0x61u8 => KeyMouse::Kp1,
        0x62u8 => KeyMouse::Kp2,
        0x63u8 => KeyMouse::Kp3,
        0x64u8 => KeyMouse::Kp4,
        0x65u8 => KeyMouse::Kp5,
        0x66u8 => KeyMouse::Kp6,
        0x67u8 => KeyMouse::Kp7,
        0x68u8 => KeyMouse::Kp8,
        0x69u8 => KeyMouse::Kp9,
        0x07u8 => KeyMouse::MouseMove,
        0x01u8 => KeyMouse::MouseLeft,
        0x02u8 => KeyMouse::MouseRight,
        0x04u8 => KeyMouse::MouseMiddle,
        _ => KeyMouse::Unknown,
    }
}

/// True of a key that survives the wire: its code decodes back to it.
/// Keys without a wire code share byte 0x00 with Unknown and come back
/// as Unknown.
pub open spec fn spec_key_wire_exact(k: KeyMouse) -> bool {
    spec_key_of_byte(spec_key_code(k)) == k
}

pub fn key_code(k: KeyMouse) -> (b: u8)
    ensures
        b == spec_key_code(k),
{
    match k {
        KeyMouse::Alt => 0x12,
        KeyMouse::Backspace => 0x08,
        KeyMouse::CapsLock => 0x14,
        KeyMouse::ControlLeft => 0xA2,
        KeyMouse::ControlRight => 0xA3,
        KeyMouse::Delete => 0x2E,
        KeyMouse::DownArrow => 0x28,
        KeyMouse::End => 0x23,
        KeyMouse::Escape => 0x1B,
        KeyMouse::F1 => 0x70,
        KeyMouse::F2 => 0x71,
        KeyMouse::F3 => 0x72,
        KeyMouse::F4 => 0x73,
        KeyMouse::F5 => 0x74,
        KeyMouse::F6 => 0x75,
        KeyMouse::F7 => 0x76,
        KeyMouse::F8 => 0x77,
        KeyMouse::F9 => 0x78,
        KeyMouse::F10 => 0x79,
        KeyMouse::F11 => 0x7A,
        KeyMouse::F12 => 0x7B,
        KeyMouse::Home => 0x24,
        KeyMouse::LeftArrow => 0x25,
        KeyMouse::MetaLeft => 0xA4,
        KeyMouse::MetaRight => 0xA5,
        KeyMouse::PageDown => 0x22,
        KeyMouse::PageUp => 0x21,
        KeyMouse::Return => 0x0D,
        KeyMouse::RightArrow => 0x27,
        KeyMouse::ShiftLeft => 0xA0,
        KeyMouse::ShiftRight => 0xA1,
        KeyMouse::Space => 0x20,
        KeyMouse::Tab => 0x09,
        KeyMouse::UpArrow => 0x26,
        KeyMouse::PrintScreen => 0x2C,
        KeyMouse::ScrollLock => 0x91,
        KeyMouse::Pause => 0x13,
        KeyMouse::NumLock => 0x90,
        KeyMouse::BackQuote => 0xC0,
        KeyMouse::Num0 => 0x30,
        KeyMouse::Num1 => 0x31,
        KeyMouse::Num2 => 0x32,
        KeyMouse::Num3 => 0x33,
        KeyMouse::Num4 => 0x34,
        KeyMouse::Num5 => 0x35,
        KeyMouse::Num6 => 0x36,
        KeyMouse::Num7 => 0x37,
        KeyMouse::Num8 => 0x38,
        KeyMouse::Num9 => 0x39,
        KeyMouse::KeyA => 0x41,
        KeyMouse::KeyB => 0x42,
        KeyMouse::KeyC => 0x43,
        KeyMouse::KeyD => 0x44,
        KeyMouse::KeyE => 0x45,
        KeyMouse::KeyF => 0x46,
        KeyMouse::KeyG => 0x47,
        KeyMouse::KeyH => 0x48,
        KeyMouse::KeyI => 0x49,
        KeyMouse::KeyJ => 0x4A,
        KeyMouse::KeyK => 0x4B,
        KeyMouse::KeyL => 0x4C,
        KeyMouse::KeyM => 0x4D,
        KeyMouse::KeyN => 0x4E,
        KeyMouse::KeyO => 0x4F,
        KeyMouse::KeyP => 0x50,
        KeyMouse::KeyQ => 0x51,
        KeyMouse::KeyR => 0x52,
        KeyMouse::KeyS => 0x53,
        KeyMouse::KeyT => 0x54,
        KeyMouse::KeyU => 0x55,
        KeyMouse::KeyV => 0x56,
        KeyMouse::KeyW => 0x57,
        KeyMouse::KeyX => 0x58,
        KeyMouse::KeyY => 0x59,
        KeyMouse::KeyZ => 0x5A,
        KeyMouse::Minus => 0xBD,
        KeyMouse::Comma => 0xBC,
        KeyMouse::Dot => 0xBE,
        KeyMouse::Insert => 0x2D,
        KeyMouse::Kp0 => 0x60,
        KeyMouse::Kp1 => 0x61,
        KeyMouse::Kp2 => 0x62,
        KeyMouse::Kp3 => 0x63,
        KeyMouse::Kp4 => 0x64,
        KeyMouse::Kp5 => 0x65,
        KeyMouse::Kp6 => 0x66,
        KeyMouse::Kp7 => 0x67,
        KeyMouse::Kp8 => 0x68,
        KeyMouse::Kp9 => 0x69,
        KeyMouse::MouseMove => 0x07,
        KeyMouse::MouseLeft => 0x01,
        KeyMouse::MouseRight => 0x02,
        KeyMouse::MouseMiddle => 0x04,
        _ => 0x00,
    }
}

pub fn key_of_byte(b: u8) -> (k: KeyMouse)
    ensures
        k == spec_key_of_byte(b),
{
    match b {
        0x12 => KeyMouse::Alt,
        0x08 => KeyMouse::Backspace,
        0x14 => KeyMouse::CapsLock,
        0xA2 => KeyMouse::ControlLeft,
        0xA3 => KeyMouse::ControlRight,
        0x2E => KeyMouse::Delete,
        0x28 => KeyMouse::DownArrow,
        0x23 => KeyMouse::End,
        0x1B => KeyMouse::Escape,
        0x70 => KeyMouse::F1,
        0x71 => KeyMouse::F2,
        0x72 => KeyMouse::F3,
        0x73 => KeyMouse::F4,
        0x74 => KeyMouse::F5,
        0x75 => KeyMouse::F6,
        0x76 => KeyMouse::F7,
        0x77 => KeyMouse::F8,
        0x78 => KeyMouse::F9,
        0x79 => KeyMouse::F10,
        0x7A => KeyMouse::F11,
        0x7B => KeyMouse::F12,
        0x24 => KeyMouse::Home,
        0x25 => KeyMouse::LeftArrow,
        0xA4 => KeyMouse::MetaLeft,
        0xA5 => KeyMouse::MetaRight,
        0x22 => KeyMouse::PageDown,
        0x21 => KeyMouse::PageUp,
        0x0D => KeyMouse::Return,
        0x27 => KeyMouse::RightArrow,
        0xA0 => KeyMouse::ShiftLeft,
        0xA1 => KeyMouse::ShiftRight,
        0x20 => KeyMouse::Space,
        0x09 => KeyMouse::Tab,
        0x26 => KeyMouse::UpArrow,
        0x2C => KeyMouse::PrintScreen,
        0x91 => KeyMouse::ScrollLock,
        0x13 => KeyMouse::Pause,
        0x90 => KeyMouse::NumLock,
        0xC0 => KeyMouse::BackQuote,
        0x30 => KeyMouse::Num0,
        0x31 => KeyMouse::Num1,
        0x32 => KeyMouse::Num2,
        0x33 => KeyMouse::Num3,
        0x34 => KeyMouse::Num4,
        0x35 => KeyMouse::Num5,
        0x36 => KeyMouse::Num6,
        0x37 => KeyMouse::Num7,
        0x38 => KeyMouse::Num8,
        0x39 => KeyMouse::Num9,
        0x41 => KeyMouse::KeyA,
        0x42 => KeyMouse::KeyB,
        0x43 => KeyMouse::KeyC,
        0x44 => KeyMouse::KeyD,
        0x45 => KeyMouse::KeyE,
        0x46 => KeyMouse::KeyF,
        0x47 => KeyMouse::KeyG,
        0x48 => KeyMouse::KeyH,
        0x49 => KeyMouse::KeyI,
        0x4A => KeyMouse::KeyJ,
        0x4B => KeyMouse::KeyK,
        0x4C => KeyMouse::KeyL,
        0x4D => KeyMouse::KeyM,
        0x4E => KeyMouse::KeyN,
        0x4F => KeyMouse::KeyO,
        0x50 => KeyMouse::KeyP,
        0x51 => KeyMouse::KeyQ,
        0x52 => KeyMouse::KeyR,
        0x53 => KeyMouse::KeyS,
        0x54 => KeyMouse::KeyT,
        0x55 => KeyMouse::KeyU,
        0x56 => KeyMouse::KeyV,
        0x57 => KeyMouse::KeyW,
        0x58 => KeyMouse::KeyX,
        0x59 => KeyMouse::KeyY,
        0x5A => KeyMouse::KeyZ,
        0xBD => KeyMouse::Minus,
        0xBC => KeyMouse::Comma,
        0xBE => KeyMouse::Dot,
        0x2D => KeyMouse::Insert,
        0x60 => KeyMouse::Kp0,
        0x61 => KeyMouse::Kp1,
        0x62 => KeyMouse::Kp2,
        0x63 => KeyMouse::Kp3,
        0x64 => KeyMouse::Kp4,
        0x65 => KeyMouse::Kp5,
        0x66 => KeyMouse::Kp6,
        0x67 => KeyMouse::Kp7,
        0x68 => KeyMouse::Kp8,
        0x69 => KeyMouse::Kp9,
        0x07 => KeyMouse::MouseMove,
        0x01 => KeyMouse::MouseLeft,
        0x02 => KeyMouse::MouseRight,
        0x04 => KeyMouse::MouseMiddle,
        _ => KeyMouse::Unknown,
    }
}

/// Event carried in bytes 2..19 of a frame.
#[derive(Debug, Clone, Copy, PartialEq, Eq, Structural)]
pub enum Event {
    /// A key or button went down.
    Press,
    /// A key or button came up.
    Release,
    /// Pointer or wheel motion. Each field holds the 64-bit pattern of a
    /// big-endian IEEE-754 double; the codec frames the pattern bit-exactly
    /// and never reads it as a number.
    Move(u64, u64),
    /// Any sub-flag byte outside the table, or a truncated frame.
    Unknown,
}

/// Wire code of an event, byte 2 of the frame.
pub open spec fn spec_event_code(e: Event) -> u8 {
    match e {
        Event::Press => 0x01,
        Event::Release => 0x02,
        Event::Move(dx, dy) => 0x03,
        Event::Unknown => 0x00,
    }
}

/// First delta of a move, 0 for every other event (the frame is zero-filled).
pub open spec fn spec_event_dx(e: Event) -> u64 {
    match e {
        Event::Move(dx, dy) => dx,
        _ => 0,
    }
}

/// Second delta of a move, 0 for every other event.
pub open spec fn spec_event_dy(e: Event) -> u64 {
    match e {
        Event::Move(dx, dy) => dy,
        _ => 0,
    }
}

/// The eight bytes of a 64-bit value, most significant first.
pub open spec fn spec_be_bytes(n: u64) -> Seq<u8> {
    seq![
        ((n >> 56) & 0xff) as u8,
        ((n >> 48) & 0xff) as u8,
        ((n >> 40) & 0xff) as u8,
        ((n >> 32) & 0xff) as u8,
        ((n >> 24) & 0xff) as u8,
        ((n >> 16) & 0xff) as u8,
        ((n >> 8) & 0xff) as u8,
        (n & 0xff) as u8,
    ]
}

/// The 64-bit value read from eight bytes, most significant first.
pub open spec fn spec_u64_of_be(s: Seq<u8>) -> u64
    recommends
        s.len() == 8,
{
    ((s[0] as u64) << 56) | ((s[1] as u64) << 48) | ((s[2] as u64) << 40)
        | ((s[3] as u64) << 32) | ((s[4] as u64) << 24) | ((s[5] as u64) << 16)
        | ((s[6] as u64) << 8) | (s[7] as u64)
}

/// Splitting a value into its eight bytes and reading them back is the
/// identity: the framed bit pattern survives the wire exactly.
pub proof fn lemma_be_round_trip(n: u64)
    ensures
        spec_u64_of_be(spec_be_bytes(n)) == n,
{
    assert(((((n >> 56) & 0xff) as u8 as u64) << 56)
        | ((((n >> 48) & 0xff) as u8 as u64) << 48)
        | ((((n >> 40) & 0xff) as u8 as u64) << 40)
        | ((((n >> 32) & 0xff) as u8 as u64) << 32)
        | ((((n >> 24) & 0xff) as u8 as u64) << 24)
        | ((((n >> 16) & 0xff) as u8 as u64) << 16)
        | ((((n >> 8) & 0xff) as u8 as u64) << 8)
        | ((n & 0xff) as u8 as u64) == n) by (bit_vector);
}

/// One frame of the wire protocol.
#[derive(Debug, Clone, Copy, PartialEq, Eq, Structural)]
pub struct Protocol {
    pub flag: Flag,
    pub key_mouse: KeyMouse,
    pub event: Event,
}

/// The 19 bytes that encode a frame: flag, key, event sub-flag, then the
/// two deltas big-endian, zero-filled when the event is not a move.
pub open spec fn spec_encode(p: Protocol) -> Seq<u8> {
    seq![spec_flag_code(p.flag), spec_key_code(p.key_mouse), spec_event_code(p.event)]
        + spec_be_bytes(spec_event_dx(p.event)) + spec_be_bytes(spec_event_dy(p.event))
}

/// The event read from a whole frame. The delta payload is read only when
/// the buffer has exactly the protocol length; anything shorter, longer,
/// or with a sub-flag outside the table is Unknown.
pub open spec fn spec_decode_event(s: Seq<u8>) -> Event {
    if s.len() == PROTOCOL_LEN {
        if s[2] == 0x01 {
            Event::Press
        } else if s[2] == 0x02 {
            Event::Release
        } else if s[2] == 0x03 {
            Event::Move(
                spec_u64_of_be(s.subrange(3, 11)),
                spec_u64_of_be(s.subrange(11, 19)),
            )
        } else {
            Event::Unknown
        }
    } else {
        Event::Unknown
    }
}

/// The frame read from any buffer. Each field a buffer is too short to
/// hold decodes to Unknown; no input is rejected.
pub open spec fn spec_decode(s: Seq<u8>) -> Protocol {
    Protocol {
        flag: if s.len() > 0 {
            spec_flag_of_byte(s[0])
        } else {
            Flag::Unknown
        },
        key_mouse: if s.len() > 1 {
            spec_key_of_byte(s[1])
        } else {
            KeyMouse::Unknown
        },
        event: spec_decode_event(s),
    }
}

impl Protocol {
    /// Encode this frame into its 19 wire bytes.
    pub fn to_arr(self) -> (buf: [u8; PROTOCOL_LEN])
        ensures
            buf@ == spec_encode(self),
    {
        let mut buf = [0u8; PROTOCOL_LEN];
        buf[0] = flag_code(self.flag);
        buf[1] = key_code(self.key_mouse);
        match self.event {
            Event::Press => {
                buf[2] = 0x01;
            }
            Event::Release => {
                buf[2] = 0x02;
            }
            Event::Move(dx, dy) => {
                buf[2] = 0x03;
                write_be_bytes(&mut buf, 3, dx);
                write_be_bytes(&mut buf, 11, dy);
            }
            Event::Unknown => {
                buf[2] = 0x00;
            }
        }
        proof {
            if !(self.event is Move) {
                assert(spec_be_bytes(0) =~= seq![0u8, 0u8, 0u8, 0u8, 0u8, 0u8, 0u8, 0u8])
                    by (bit_vector);
            }
            assert(buf@ =~= spec_encode(self));
        }
        buf
    }

    /// Decode a frame from any buffer; never fails, unknown falls back.
    pub fn from_bytes(buf: &[u8]) -> (p: Protocol)
        ensures
            p == spec_decode(buf@),
    {
        let flag = if buf.len() > 0 {
            flag_of_byte(buf[0])
        } else {
            Flag::Unknown
        };
        let key_mouse = if buf.len() > 1 {
            key_of_byte(buf[1])
        } else {
            KeyMouse::Unknown
        };
        let event = if buf.len() == PROTOCOL_LEN {
            match buf[2] {
                0x01 => Event::Press,
                0x02 => Event::Release,
                0x03 => Event::Move(read_be_u64(buf, 3), read_be_u64(buf, 11)),
                _ => Event::Unknown,
            }
        } else {
            Event::Unknown
        };
        Protocol { flag, key_mouse, event }
    }
}

/// Write the eight big-endian bytes of `n` at `start`.
fn write_be_bytes(buf: &mut [u8; PROTOCOL_LEN], start: usize, n: u64)
    requires
        start + 8 <= PROTOCOL_LEN,
    ensures
        final(buf)@.subrange(start as int, start + 8) == spec_be_bytes(n),
        forall|i: int|
            0 <= i < PROTOCOL_LEN && !(start <= i < start + 8)
                ==> final(buf)@[i] == old(buf)@[i],
{
    buf[start] = ((n >> 56) & 0xff) as u8;
    buf[start + 1] = ((n >> 48) & 0xff) as u8;
    buf[start + 2] = ((n >> 40) & 0xff) as u8;
    buf[start + 3] = ((n >> 32) & 0xff) as u8;
    buf[start + 4] = ((n >> 24) & 0xff) as u8;
    buf[start + 5] = ((n >> 16) & 0xff) as u8;
    buf[start + 6] = ((n >> 8) & 0xff) as u8;
    buf[start + 7] = (n & 0xff) as u8;
    assert(buf@.subrange(start as int, start + 8) =~= spec_be_bytes(n));
}

/// Read a 64-bit value from eight big-endian bytes at `start`.
fn read_be_u64(buf: &[u8], start: usize) -> (n: u64)
    requires
        start + 8 <= buf@.len(),
    ensures
        n == spec_u64_of_be(buf@.subrange(start as int, start + 8)),
{
    ((buf[start] as u64) << 56) | ((buf[start + 1] as u64) << 48)
        | ((buf[start + 2] as u64) << 40) | ((buf[start + 3] as u64) << 32)
        | ((buf[start + 4] as u64) << 24) | ((buf[start + 5] as u64) << 16)
        | ((buf[start + 6] as u64) << 8) | (buf[start + 7] as u64)
}

/// Round trip: a frame decodes from its own encoding unchanged, as long as
/// its key has a wire code of its own. A key that shares the Unknown
/// fallback byte comes back as Unknown; every flag and every event,
/// including both move deltas bit for bit, always survives.
pub proof fn lemma_encode_decode(p: Protocol)
    requires
        spec_key_wire_exact(p.key_mouse),
    ensures
        spec_decode(spec_encode(p)) == p,
{
    let s = spec_encode(p);
    assert(s.len() == PROTOCOL_LEN);
    assert(s[0] == spec_flag_code(p.flag));
    assert(s[1] == spec_key_code(p.key_mouse));
    assert(s[2] == spec_event_code(p.event));
    assert(spec_flag_of_byte(spec_flag_code(p.flag)) == p.flag);
    match p.event {
        Event::Move(dx, dy) => {
            assert(s.subrange(3, 11) =~= spec_be_bytes(dx));
            assert(s.subrange(11, 19) =~= spec_be_bytes(dy));
            lemma_be_round_trip(dx);
            lemma_be_round_trip(dy);
        }
        _ => {}
    }
}

/// The byte tables never fail: a byte that is no known symbol's code
/// decodes to the Unknown variant. Stated as a partial inverse: whenever a
/// byte decodes to a known flag or key, that byte is the symbol's own wire
/// code, so every byte outside the tables falls back to Unknown.
pub proof fn lemma_unknown_fallback(b: u8)
    ensures
        !(b == 0x01 || b == 0x02 || b == 0x03) ==> spec_flag_of_byte(b) is Unknown,
        spec_flag_of_byte(b) is Unknown || spec_flag_code(spec_flag_of_byte(b)) == b,
        spec_key_of_byte(b) is Unknown || spec_key_code(spec_key_of_byte(b)) == b,
{
}

} // verus!
