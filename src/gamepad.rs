use vstd::prelude::*;

use crate::dialog::Message;

verus! {

/// A gamepad button, named by its position on a standard layout.
#[derive(Debug, Clone, Copy, PartialEq, Eq, Structural)]
pub enum PadButton {
    South,
    East,
    North,
    West,
    C,
    Z,
    LeftTrigger,
    LeftTrigger2,
    RightTrigger,
    RightTrigger2,
    Select,
    Start,
    Mode,
    LeftThumb,
    RightThumb,
    DPadUp,
    DPadDown,
    DPadLeft,
    DPadRight,
    Unknown,
}

/// A hardware event reported by the gamepad subsystem, reduced to what the
/// dialog distinguishes.
#[derive(Debug, Clone, Copy, PartialEq, Eq, Structural)]
pub enum GamepadEvent {
    Connected,
    Disconnected,
    ButtonPressed(PadButton),
    ButtonReleased(PadButton),
    /// Axis motion, analog changes, repeats and filtered events.
    Other,
}

/// The dialog message that a gamepad event stands for, if any. Presses are
/// ignored and only releases act, so that holding a button fires once.
pub open spec fn message_for_event(event: GamepadEvent) -> Option<Message> {
    match event {
        GamepadEvent::Connected => Some(Message::GamepadConnected),
        GamepadEvent::Disconnected => Some(Message::GamepadDisconnected),
        GamepadEvent::ButtonReleased(b) => Some(Message::GamepadButton(b)),
        GamepadEvent::ButtonPressed(_) => None,
        GamepadEvent::Other => None,
    }
}

/// Translates a gamepad event into the message it feeds into the dialog.
pub fn gamepad_message(event: GamepadEvent) -> (r: Option<Message>)
    ensures
        r == message_for_event(event),
{
    match event {
        GamepadEvent::Connected => Some(Message::GamepadConnected),
        GamepadEvent::Disconnected => Some(Message::GamepadDisconnected),
        GamepadEvent::ButtonReleased(b) => Some(Message::GamepadButton(b)),
        GamepadEvent::ButtonPressed(_) => None,
        GamepadEvent::Other => None,
    }
}

} // verus!
