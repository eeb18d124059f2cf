use vstd::prelude::*;

verus! {

/// Mouse button of a tray-icon click, as the toolkit classifies it.
#[derive(Clone, Copy, Debug, PartialEq, Eq, Structural)]
pub enum MouseButton {
    Left,
    Right,
    Middle,
}

/// Whether the mouse button was pressed or released.
#[derive(Clone, Copy, Debug, PartialEq, Eq, Structural)]
pub enum MouseButtonState {
    Up,
    Down,
}

/// A tray-icon interaction event. Only clicks carry decision logic; the
/// pointer merely entering, moving over, or leaving the icon is inert.
#[derive(Clone, Copy, Debug, PartialEq, Eq, Structural)]
pub enum TrayEvent {
    Click { button: MouseButton, button_state: MouseButtonState },
    Enter,
    Move,
    Leave,
}

/// What probing the main window reports to the menu dispatcher: the window
/// may be absent from the toolkit's registry, present with its visibility
/// read successfully, or present with the visibility read failing.
#[derive(Clone, Copy, Debug, PartialEq, Eq, Structural)]
pub enum WindowProbe {
    /// No window with the main label exists.
    Absent,
    /// The window exists and the toolkit reported this visibility.
    Reported(bool),
    /// The window exists but the visibility read failed.
    ReadFailed,
}

} // verus!
