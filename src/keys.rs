use vstd::prelude::*;

verus! {

/// A key of the GUI library's input model, as far as the toolkit bridge produces it.
#[derive(Clone, Copy, Debug, PartialEq, Eq, Structural)]
pub enum Key {
    ArrowDown,
    ArrowLeft,
    ArrowRight,
    ArrowUp,
    Escape,
    Tab,
    Backspace,
    Enter,
    Space,
    Insert,
    Delete,
    Home,
    End,
    PageUp,
    PageDown,
    Num0,
    Num1,
    Num2,
    Num3,
    Num4,
    Num5,
    Num6,
    Num7,
    Num8,
    Num9,
    A,
    B,
    C,
    D,
    E,
    F,
    G,
    H,
    I,
    J,
    K,
    L,
    M,
    N,
    O,
    P,
    Q,
    R,
    S,
    T,
    U,
    V,
    W,
    X,
    Y,
    Z,
}

/// Toolkit key code of the left key.
pub const KEY_LEFT: i32 = 0xff51;

/// Toolkit key code of the up key.
pub const KEY_UP: i32 = 0xff52;

/// Toolkit key code of the right key.
pub const KEY_RIGHT: i32 = 0xff53;

/// Toolkit key code of the down key.
pub const KEY_DOWN: i32 = 0xff54;

/// Toolkit key code of the escape key.
pub const KEY_ESCAPE: i32 = 0xff1b;

/// Toolkit key code of the tab key.
pub const KEY_TAB: i32 = 0xff09;

/// Toolkit key code of the backspace key.
pub const KEY_BACKSPACE: i32 = 0xff08;

/// Toolkit key code of the insert key.
pub const KEY_INSERT: i32 = 0xff63;

/// Toolkit key code of the home key.
pub const KEY_HOME: i32 = 0xff50;

/// Toolkit key code of the delete key.
pub const KEY_DELETE: i32 = 0xffff;

/// Toolkit key code of the end key.
pub const KEY_END: i32 = 0xff57;

/// Toolkit key code of the page down key.
pub const KEY_PAGE_DOWN: i32 = 0xff56;

/// Toolkit key code of the page up key.
pub const KEY_PAGE_UP: i32 = 0xff55;

/// Toolkit key code of the enter key.
pub const KEY_ENTER: i32 = 0xff0d;

/// What the toolkit's `Key::to_char` gives for a key code: nothing in the
/// surrogate range, otherwise the character of the code's low byte.
pub open spec fn spec_key_byte(code: i32) -> Option<u8> {
    if 0xD800 <= code && code <= 0xDFFF {
        None
    } else {
        Some(code as u8)
    }
}

/// The key that a character of a key code stands for, if the input model has one.
pub open spec fn spec_key_of_byte(b: u8) -> Option<Key> {
    if b == 0x20 {
        Some(Key::Space)
    } else if b == 0x61 {
        Some(Key::A)
    } else if b == 0x62 {
        Some(Key::B)
    } else if b == 0x63 {
        Some(Key::C)
    } else if b == 0x64 {
        Some(Key::D)
    } else if b == 0x65 {
        Some(Key::E)
    } else if b == 0x66 {
        Some(Key::F)
    } else if b == 0x67 {
        Some(Key::G)
    } else if b == 0x68 {
        Some(Key::H)
    } else if b == 0x69 {
        Some(Key::I)
    } else if b == 0x6a {
        Some(Key::J)
    } else if b == 0x6b {
        Some(Key::K)
    } else if b == 0x6c {
        Some(Key::L)
    } else if b == 0x6d {
        Some(Key::M)
    } else if b == 0x6e {
        Some(Key::N)
    } else if b == 0x6f {
        Some(Key::O)
    } else if b == 0x70 {
        Some(Key::P)
    } else if b == 0x71 {
        Some(Key::Q)
    } else if b == 0x72 {
        Some(Key::R)
    } else if b == 0x73 {
        Some(Key::S)
    } else if b == 0x74 {
        Some(Key::T)
    } else if b == 0x75 {
        Some(Key::U)
    } else if b == 0x76 {
        Some(Key::V)
    } else if b == 0x77 {
        Some(Key::W)
    } else if b == 0x78 {
        Some(Key::X)
    } else if b == 0x79 {
        Some(Key::Y)
    } else if b == 0x7a {
        Some(Key::Z)
    } else if b == 0x30 {
        Some(Key::Num0)
    } else if b == 0x31 {
        Some(Key::Num1)
    } else if b == 0x32 {
        Some(Key::Num2)
    } else if b == 0x33 {
        Some(Key::Num3)
    } else if b == 0x34 {
        Some(Key::Num4)
    } else if b == 0x35 {
        Some(Key::Num5)
    } else if b == 0x36 {
        Some(Key::Num6)
    } else if b == 0x37 {
        Some(Key::Num7)
    } else if b == 0x38 {
        Some(Key::Num8)
    } else if b == 0x39 {
        Some(Key::Num9)
    } else {
        None
    }
}

/// The key that a named (non-character) toolkit key code stands for.
pub open spec fn spec_named_key(code: i32) -> Option<Key> {
    if code == KEY_LEFT {
        Some(Key::ArrowLeft)
    } else if code == KEY_UP {
        Some(Key::ArrowUp)
    } else if code == KEY_RIGHT {
        Some(Key::ArrowRight)
    } else if code == KEY_DOWN {
        Some(Key::ArrowDown)
    } else if code == KEY_ESCAPE {
        Some(Key::Escape)
    } else if code == KEY_TAB {
        Some(Key::Tab)
    } else if code == KEY_BACKSPACE {
        Some(Key::Backspace)
    } else if code == KEY_INSERT {
        Some(Key::Insert)
    } else if code == KEY_HOME {
        Some(Key::Home)
    } else if code == KEY_DELETE {
        Some(Key::Delete)
    } else if code == KEY_END {
        Some(Key::End)
    } else if code == KEY_PAGE_DOWN {
        Some(Key::PageDown)
    } else if code == KEY_PAGE_UP {
        Some(Key::PageUp)
    } else if code == KEY_ENTER {
        Some(Key::Enter)
    } else {
        None
    }
}

/// The key of the input model for a toolkit key code: a named key first, then
/// the key of the code's character.
pub open spec fn spec_translate_key(code: i32) -> Option<Key> {
    match spec_named_key(code) {
        Some(k) => Some(k),
        None => match spec_key_byte(code) {
            Some(b) => spec_key_of_byte(b),
            None => None,
        },
    }
}

/// The toolkit's `Key::to_char`, as a byte: the low byte of the code, outside
/// the surrogate range.
fn key_byte(code: i32) -> (r: Option<u8>)
    ensures
        r == spec_key_byte(code),
{
    if 0xD800 <= code && code <= 0xDFFF {
        None
    } else {
        Some(code as u8)
    }
}

fn key_of_byte(b: u8) -> (r: Option<Key>)
    ensures
        r == spec_key_of_byte(b),
{
    match b {
        0x20 => Some(Key::Space),
        0x61 => Some(Key::A),
        0x62 => Some(Key::B),
        0x63 => Some(Key::C),
        0x64 => Some(Key::D),
        0x65 => Some(Key::E),
        0x66 => Some(Key::F),
        0x67 => Some(Key::G),
        0x68 => Some(Key::H),
        0x69 => Some(Key::I),
        0x6a => Some(Key::J),
        0x6b => Some(Key::K),
        0x6c => Some(Key::L),
        0x6d => Some(Key::M),
        0x6e => Some(Key::N),
        0x6f => Some(Key::O),
        0x70 => Some(Key::P),
        0x71 => Some(Key::Q),
        0x72 => Some(Key::R),
        0x73 => Some(Key::S),
        0x74 => Some(Key::T),
        0x75 => Some(Key::U),
        0x76 => Some(Key::V),
        0x77 => Some(Key::W),
        0x78 => Some(Key::X),
        0x79 => Some(Key::Y),
        0x7a => Some(Key::Z),
        0x30 => Some(Key::Num0),
        0x31 => Some(Key::Num1),
        0x32 => Some(Key::Num2),
        0x33 => Some(Key::Num3),
        0x34 => Some(Key::Num4),
        0x35 => Some(Key::Num5),
        0x36 => Some(Key::Num6),
        0x37 => Some(Key::Num7),
        0x38 => Some(Key::Num8),
        0x39 => Some(Key::Num9),
        _ => None,
    }
}

/// Translates a toolkit key code into a key of the input model; codes that
/// the model has no key for give `None`.
pub fn translate_virtual_key_code(key: i32) -> (r: Option<Key>)
    ensures
        r == spec_translate_key(key),
{
    match key {
        KEY_LEFT => Some(Key::ArrowLeft),
        KEY_UP => Some(Key::ArrowUp),
        KEY_RIGHT => Some(Key::ArrowRight),
        KEY_DOWN => Some(Key::ArrowDown),
        KEY_ESCAPE => Some(Key::Escape),
        KEY_TAB => Some(Key::Tab),
        KEY_BACKSPACE => Some(Key::Backspace),
        KEY_INSERT => Some(Key::Insert),
        KEY_HOME => Some(Key::Home),
        KEY_DELETE => Some(Key::Delete),
        KEY_END => Some(Key::End),
        KEY_PAGE_DOWN => Some(Key::PageDown),
        KEY_PAGE_UP => Some(Key::PageUp),
        KEY_ENTER => Some(Key::Enter),
        _ => match key_byte(key) {
            Some(b) => key_of_byte(b),
            None => None,
        },
    }
}

} // verus!
