use vstd::prelude::*;

use crate::gamepad::PadButton;
use crate::result::{DialogResult, ResultSlot};

verus! {

/// Which actions the dialog offers.
#[derive(Debug, Clone, Copy, PartialEq, Eq, Structural)]
pub enum DialogType {
    /// Two buttons, Cancel and OK.
    Confirmation,
    /// One button, OK.
    Alert,
}

/// Per-invocation configuration; never changed while the window is open.
pub struct DialogFlags {
    pub title: String,
    pub message: String,
    pub dialog_type: DialogType,
}

/// Lifecycle of an open dialog window.
#[derive(Debug, Clone, Copy, PartialEq, Eq, Structural)]
pub enum Phase {
    /// The icon font is still loading; the buttons already work.
    Initializing,
    /// Waiting for a decision.
    AwaitingInput,
    /// A close directive was issued; decisions are no longer taken.
    Closing,
}

/// One unit of the merged stream of window and gamepad events.
#[derive(Debug, Clone, Copy, PartialEq, Eq, Structural)]
pub enum Message {
    FontLoaded,
    CancelPressed,
    OKPressed,
    GamepadButton(PadButton),
    GamepadConnected,
    GamepadDisconnected,
    /// The window's own close control (for instance the title bar button).
    CloseRequested,
}

/// What the window loop must do after a message was handled.
#[derive(Debug, Clone, Copy, PartialEq, Eq, Structural)]
pub enum Action {
    Nothing,
    CloseWindow,
}

/// The state of one open dialog window.
pub struct Dialog {
    has_gamepad: bool,
    flags: DialogFlags,
    phase: Phase,
}

/// The mathematical model of a [`Dialog`].
pub struct DialogModel {
    pub title: Seq<char>,
    pub message: Seq<char>,
    pub dialog_type: DialogType,
    pub has_gamepad: bool,
    pub phase: Phase,
}

impl View for Dialog {
    type V = DialogModel;

    closed spec fn view(&self) -> DialogModel {
        DialogModel {
            title: self.flags.title@,
            message: self.flags.message@,
            dialog_type: self.flags.dialog_type,
            has_gamepad: self.has_gamepad,
            phase: self.phase,
        }
    }
}

/// The message asks to accept: the OK button, or the gamepad's South button.
pub open spec fn is_ok_request(msg: Message) -> bool {
    msg == Message::OKPressed || msg == Message::GamepadButton(PadButton::South)
}

/// The message asks to decline: the Cancel button, or the gamepad's East button.
pub open spec fn is_cancel_request(msg: Message) -> bool {
    msg == Message::CancelPressed || msg == Message::GamepadButton(PadButton::East)
}

/// A message that leaves phase and result alone: a gamepad button without a
/// binding, or a gamepad arriving or leaving.
pub open spec fn is_neutral(msg: Message) -> bool {
    ||| (msg matches Message::GamepadButton(b) && b != PadButton::South && b != PadButton::East)
    ||| msg == Message::GamepadConnected
    ||| msg == Message::GamepadDisconnected
}

/// One step of the dialog: from the model and the slot's value before a
/// message to the model, the slot's value and the directive after it.
pub open spec fn step(m: DialogModel, r: DialogResult, msg: Message) -> (DialogModel, DialogResult, Action) {
    if msg == Message::GamepadConnected {
        (DialogModel { has_gamepad: true, ..m }, r, Action::Nothing)
    } else if msg == Message::GamepadDisconnected {
        (DialogModel { has_gamepad: false, ..m }, r, Action::Nothing)
    } else if m.phase == Phase::Closing {
        (m, r, Action::Nothing)
    } else if msg == Message::FontLoaded {
        (DialogModel { phase: Phase::AwaitingInput, ..m }, r, Action::Nothing)
    } else if is_ok_request(msg) {
        (DialogModel { phase: Phase::Closing, ..m }, DialogResult::OK, Action::CloseWindow)
    } else if is_cancel_request(msg) && m.dialog_type == DialogType::Confirmation {
        (DialogModel { phase: Phase::Closing, ..m }, DialogResult::Cancel, Action::CloseWindow)
    } else if msg == Message::CloseRequested {
        (DialogModel { phase: Phase::Closing, ..m }, r, Action::CloseWindow)
    } else {
        (m, r, Action::Nothing)
    }
}

/// The model and the slot's value after handling `msgs` in order.
pub open spec fn run(m: DialogModel, r: DialogResult, msgs: Seq<Message>) -> (DialogModel, DialogResult)
    decreases msgs.len(),
{
    if msgs.len() == 0 {
        (m, r)
    } else {
        let (m1, r1) = run(m, r, msgs.drop_last());
        let (m2, r2, _a) = step(m1, r1, msgs.last());
        (m2, r2)
    }
}

/// Whether a gamepad is present after `msgs`, starting from `present`: the
/// last connect or disconnect message decides.
pub open spec fn gamepad_present_after(present: bool, msgs: Seq<Message>) -> bool
    decreases msgs.len(),
{
    if msgs.len() == 0 {
        present
    } else if msgs.last() == Message::GamepadConnected {
        true
    } else if msgs.last() == Message::GamepadDisconnected {
        false
    } else {
        gamepad_present_after(present, msgs.drop_last())
    }
}

impl Dialog {
    /// A freshly opened window, waiting for its icon font.
    pub fn new(flags: DialogFlags, has_gamepad: bool) -> (d: Dialog)
        ensures
            d@ == (DialogModel {
                title: flags.title@,
                message: flags.message@,
                dialog_type: flags.dialog_type,
                has_gamepad,
                phase: Phase::Initializing,
            }),
    {
        Dialog { has_gamepad, flags, phase: Phase::Initializing }
    }

    /// The window title.
    pub fn title(&self) -> (r: String)
        ensures
            r@ == self@.title,
    {
        self.flags.title.clone()
    }

    /// The message text.
    pub fn message(&self) -> (r: String)
        ensures
            r@ == self@.message,
    {
        self.flags.message.clone()
    }

    pub fn dialog_type(&self) -> (r: DialogType)
        ensures
            r == self@.dialog_type,
    {
        self.flags.dialog_type
    }

    /// Whether a gamepad is known to be connected.
    pub fn has_gamepad(&self) -> (r: bool)
        ensures
            r == self@.has_gamepad,
    {
        self.has_gamepad
    }

    pub fn phase(&self) -> (r: Phase)
        ensures
            r == self@.phase,
    {
        self.phase
    }

    /// Handles one message: updates the state, commits a decision to `slot`
    /// on a terminal message, and says whether the window must close.
    pub fn update(&mut self, slot: &mut ResultSlot, message: Message) -> (a: Action)
        ensures
            (final(self)@, final(slot)@, a) == step(old(self)@, old(slot)@, message),
    {
        match message {
            Message::GamepadConnected => {
                self.has_gamepad = true;
                return Action::Nothing;
            },
            Message::GamepadDisconnected => {
                self.has_gamepad = false;
                return Action::Nothing;
            },
            _ => {},
        }
        if self.phase == Phase::Closing {
            return Action::Nothing;
        }
        match message {
            Message::FontLoaded => {
                self.phase = Phase::AwaitingInput;
                Action::Nothing
            },
            Message::OKPressed | Message::GamepadButton(PadButton::South) => {
                slot.commit(DialogResult::OK);
                self.phase = Phase::Closing;
                Action::CloseWindow
            },
            Message::CancelPressed | Message::GamepadButton(PadButton::East) => {
                if self.flags.dialog_type == DialogType::Confirmation {
                    slot.commit(DialogResult::Cancel);
                    self.phase = Phase::Closing;
                    Action::CloseWindow
                } else {
                    Action::Nothing
                }
            },
            Message::CloseRequested => {
                self.phase = Phase::Closing;
                Action::CloseWindow
            },
            _ => Action::Nothing,
        }
    }
}

} // verus!
