use vstd::prelude::*;

use crate::dialog::{Dialog, DialogType, Message};
use crate::icons::Icon;

verus! {

/// One button of the dialog as it is to be drawn.
pub struct ButtonView {
    /// The message that pressing the button sends.
    pub action: Message,
    pub label: String,
    /// The gamepad glyph drawn before the label, when a gamepad is present.
    pub hint: Option<Icon>,
}

/// Everything the window draws for a dialog state.
pub struct DialogView {
    pub icon: Icon,
    pub message: String,
    /// The buttons from left to right.
    pub buttons: Vec<ButtonView>,
}

/// The large icon beside the message.
pub open spec fn dialog_icon(t: DialogType) -> Icon {
    match t {
        DialogType::Confirmation => Icon::InfoSquareRounded,
        DialogType::Alert => Icon::AlertSquareRounded,
    }
}

/// An alert offers OK alone; a confirmation offers Cancel and OK.
pub open spec fn button_count(t: DialogType) -> nat {
    match t {
        DialogType::Confirmation => 2,
        DialogType::Alert => 1,
    }
}

/// Whether the button at `i` (from the left) is the Cancel button.
pub open spec fn is_cancel_slot(t: DialogType, i: int) -> bool {
    t == DialogType::Confirmation && i == 0
}

/// The message of the button at `i`.
pub open spec fn button_action(t: DialogType, i: int) -> Message {
    if is_cancel_slot(t, i) {
        Message::CancelPressed
    } else {
        Message::OKPressed
    }
}

/// The label of the button at `i`.
pub open spec fn button_label(t: DialogType, i: int) -> Seq<char> {
    if is_cancel_slot(t, i) {
        seq!['C', 'a', 'n', 'c', 'e', 'l']
    } else {
        seq!['O', 'K']
    }
}

/// The glyph before the label of the button at `i`: the gamepad button bound
/// to it (East declines, South accepts), shown only while a gamepad is present.
pub open spec fn button_hint(t: DialogType, has_gamepad: bool, i: int) -> Option<Icon> {
    if !has_gamepad {
        None
    } else if is_cancel_slot(t, i) {
        Some(Icon::XboxB)
    } else {
        Some(Icon::XboxA)
    }
}

fn make_button(t: DialogType, has_gamepad: bool, i: usize) -> (b: ButtonView)
    requires
        i < button_count(t),
    ensures
        b.action == button_action(t, i as int),
        b.label@ == button_label(t, i as int),
        b.hint == button_hint(t, has_gamepad, i as int),
{
    let cancel = t == DialogType::Confirmation && i == 0;
    let label = if cancel {
        proof {
            reveal_strlit("Cancel");
        }
        "Cancel".to_string()
    } else {
        proof {
            reveal_strlit("OK");
        }
        "OK".to_string()
    };
    let hint = if !has_gamepad {
        None
    } else if cancel {
        Some(Icon::XboxB)
    } else {
        Some(Icon::XboxA)
    };
    let action = if cancel {
        Message::CancelPressed
    } else {
        Message::OKPressed
    };
    ButtonView { action, label, hint }
}

impl Dialog {
    /// What the window shows for the current state: the kind's icon, the
    /// message, and the buttons with gamepad hints while a gamepad is present.
    pub fn layout(&self) -> (r: DialogView)
        ensures
            r.icon == dialog_icon(self@.dialog_type),
            r.message@ == self@.message,
            r.buttons@.len() == button_count(self@.dialog_type),
            forall|i: int|
                0 <= i < r.buttons@.len() ==> {
                    &&& (#[trigger] r.buttons@[i]).action == button_action(self@.dialog_type, i)
                    &&& r.buttons@[i].label@ == button_label(self@.dialog_type, i)
                    &&& r.buttons@[i].hint == button_hint(self@.dialog_type, self@.has_gamepad, i)
                },
    {
        let t = self.dialog_type();
        let has_gamepad = self.has_gamepad();
        let icon = match t {
            DialogType::Confirmation => Icon::InfoSquareRounded,
            DialogType::Alert => Icon::AlertSquareRounded,
        };
        let count: usize = match t {
            DialogType::Confirmation => 2,
            DialogType::Alert => 1,
        };
        let mut buttons: Vec<ButtonView> = Vec::new();
        let mut i: usize = 0;
        while i < count
            invariant
                count == button_count(t),
                i <= count,
                buttons@.len() == i,
                forall|j: int|
                    0 <= j < i ==> {
                        &&& (#[trigger] buttons@[j]).action == button_action(t, j)
                        &&& buttons@[j].label@ == button_label(t, j)
                        &&& buttons@[j].hint == button_hint(t, has_gamepad, j)
                    },
            decreases count - i,
        {
            buttons.push(make_button(t, has_gamepad, i));
            i = i + 1;
        }
        DialogView { icon, message: self.message(), buttons }
    }
}

} // verus!
