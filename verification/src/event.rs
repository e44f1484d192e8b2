//! The window events that the renderer reacts to.

use vstd::prelude::*;

use crate::color::Coordinate;

verus! {

/// Whether a button or key went down or came up.
#[derive(Clone, Copy, Debug, PartialEq, Eq, Structural)]
pub enum ElementState {
    Pressed,
    Released,
}

/// A button of the pointer. `Left` is the primary button.
#[derive(Clone, Copy, Debug, PartialEq, Eq, Structural)]
pub enum MouseButton {
    Left,
    Right,
    Middle,
    Other(u16),
}

/// A key, by its meaning. Only the space bar has one here: it selects the
/// shader variant.
#[derive(Clone, Copy, Debug, PartialEq, Eq, Structural)]
pub enum Key {
    Space,
    Other,
}

/// One event of the window, reduced to what the renderer reads of it.
#[derive(Clone, Copy, Debug, PartialEq, Eq, Structural)]
pub enum InputEvent {
    /// The pointer came onto the surface.
    CursorEntered,
    /// The pointer left the surface.
    CursorLeft,
    /// A pointer button changed.
    MouseInput { state: ElementState, button: MouseButton },
    /// The pointer moved to (`x`, `y`), in pixels from the top-left corner
    /// of the surface.
    CursorMoved { x: Coordinate, y: Coordinate },
    /// A key changed.
    KeyboardInput { state: ElementState, key: Key },
    /// Any other event.
    Other,
}

} // verus!
