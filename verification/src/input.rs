//! Input primitives: physical scan codes, key press state, and the logical
//! identities of keys, for keyboard events raised by the windowing backend.

use vstd::prelude::*;

verus! {

/// Identifies a physical key by its hardware scan code.
pub type ScanCode = u32;

/// Describes the input state of a key: pressed or released.
#[derive(Clone, Copy, Debug, PartialEq, Eq, Structural)]
pub enum ElementState {
    /// The key went down.
    Pressed,
    /// The key came up.
    Released,
}

/// Identifies the semantic meaning of a key, where the windowing backend can
/// resolve one. Use this when what the key means matters more than where it
/// sits; use the scan code when the physical location matters, as for
/// movement controls.
#[derive(Clone, Copy, Debug, PartialEq, Eq, Structural)]
#[allow(missing_docs)]
pub enum VirtualKeyCode {
    Key1,
    Key2,
    Key3,
    Key4,
    Key5,
    Key6,
    Key7,
    Key8,
    Key9,
    Key0,
    A,
    B,
    C,
    D,
    E,
    F,
    G,
    H,
    I,
    J,
    K,
    L,
    M,
    N,
    O,
    P,
    Q,
    R,
    S,
    T,
    U,
    V,
    W,
    X,
    Y,
    Z,
    Escape,
    F1,
    F2,
    F3,
    F4,
    F5,
    F6,
    F7,
    F8,
    F9,
    F10,
    F11,
    F12,
    Insert,
    Home,
    Delete,
    End,
    PageDown,
    PageUp,
    Left,
    Up,
    Right,
    Down,
    Backspace,
    Return,
    Space,
    Tab,
    LShift,
    RShift,
    LControl,
    RControl,
    LAlt,
    RAlt,
}

} // verus!
