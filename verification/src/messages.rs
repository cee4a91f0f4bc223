//! Plain message types the engine exchanges with its surrounding shell.

use vstd::prelude::*;

verus! {

/// Describes the size of a texture or window frame.
#[derive(Debug, Copy, Clone, PartialEq, Eq, Structural)]
pub struct FrameSize {
    pub width: u32,
    pub height: u32,
}

/// Describes whether a key was pressed or released.
#[derive(Debug, Copy, Clone, PartialEq, Eq, Structural)]
pub enum KeyState {
    Pressed,
    Released,
}

/// Describes the key codes the engine reacts to.
#[derive(Debug, Copy, Clone, PartialEq, Eq, Structural)]
pub enum KeyCode {
    Escape,
    C,
    Other,
}

/// Describes a keyboard input event.
#[derive(Debug, Copy, Clone, PartialEq, Eq, Structural)]
pub struct KeyboardEvent {
    pub state: KeyState,
    pub virtual_keycode: Option<KeyCode>,
}

/// A request the engine makes of the application shell about the flow of
/// control.
#[derive(Debug, Copy, Clone, PartialEq, Eq, Structural)]
pub enum FlowControl {
    Exit,
    Continue,
}

} // verus!
