use vstd::prelude::*;

use crate::dialog::{Dialog, DialogFlags, DialogModel, DialogType, Phase};
use crate::result::{DialogResult, ResultSlot};

verus! {

/// Begins one dialog invocation: clears `slot`, so that nothing committed by
/// an earlier invocation can be read back, and builds the state of the new
/// window from its configuration and from whether a gamepad was found.
pub fn open_dialog(
    slot: &mut ResultSlot,
    dialog_type: DialogType,
    title: &str,
    message: &str,
    has_gamepad: bool,
) -> (d: Dialog)
    ensures
        final(slot)@ == DialogResult::Undefined,
        d@ == (DialogModel {
            title: title@,
            message: message@,
            dialog_type,
            has_gamepad,
            phase: Phase::Initializing,
        }),
{
    slot.reset();
    let flags = DialogFlags { title: title.to_string(), message: message.to_string(), dialog_type };
    Dialog::new(flags, has_gamepad)
}

} // verus!
