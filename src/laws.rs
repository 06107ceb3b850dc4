use vstd::prelude::*;

use crate::dialog::{is_neutral, is_ok_request, is_cancel_request, gamepad_present_after, run, step, Action, DialogModel, DialogType, Message, Phase};
use crate::result::DialogResult;
use crate::icons::Icon;
use crate::view::{button_action, button_count, button_hint};

verus! {

proof fn neutral_run_keeps_phase_and_result(m: DialogModel, r: DialogResult, msgs: Seq<Message>)
    requires
        forall|i: int| 0 <= i < msgs.len() ==> is_neutral(#[trigger] msgs[i]),
    ensures
        run(m, r, msgs).0.phase == m.phase,
        run(m, r, msgs).0.dialog_type == m.dialog_type,
        run(m, r, msgs).1 == r,
    decreases msgs.len(),
{
    if msgs.len() > 0 {
        let init = msgs.drop_last();
        assert forall|i: int| 0 <= i < init.len() implies is_neutral(#[trigger] init[i]) by {
            assert(init[i] == msgs[i]);
        }
        neutral_run_keeps_phase_and_result(m, r, init);
        assert(is_neutral(msgs[msgs.len() - 1]));
    }
}

/// Unbound gamepad buttons and gamepads coming and going, followed by one
/// request to accept, commit `OK` and close the dialog, provided it was not
/// already closing.
pub proof fn accept_after_neutral_messages(
    m: DialogModel,
    r: DialogResult,
    msgs: Seq<Message>,
    ok: Message,
)
    requires
        m.phase != Phase::Closing,
        forall|i: int| 0 <= i < msgs.len() ==> is_neutral(#[trigger] msgs[i]),
        is_ok_request(ok),
    ensures
        run(m, r, msgs.push(ok)).1 == DialogResult::OK,
        run(m, r, msgs.push(ok)).0.phase == Phase::Closing,
{
    neutral_run_keeps_phase_and_result(m, r, msgs);
    assert(msgs.push(ok).drop_last() =~= msgs);
}

/// An alert has no Cancel button, and a request to decline leaves it, and
/// the committed result, as they were.
pub proof fn alert_has_no_cancel(m: DialogModel, r: DialogResult, msg: Message)
    requires
        m.dialog_type == DialogType::Alert,
        is_cancel_request(msg),
    ensures
        step(m, r, msg).0 == m,
        step(m, r, msg).1 == r,
        step(m, r, msg).2 == Action::Nothing,
        forall|i: int|
            0 <= i < button_count(DialogType::Alert) ==> #[trigger] button_action(DialogType::Alert, i)
                != Message::CancelPressed,
{
}

/// Once the dialog is closing, no message changes the committed result or
/// reopens it.
pub proof fn closing_is_final(m: DialogModel, r: DialogResult, msgs: Seq<Message>)
    requires
        m.phase == Phase::Closing,
    ensures
        run(m, r, msgs).1 == r,
        run(m, r, msgs).0.phase == Phase::Closing,
    decreases msgs.len(),
{
    if msgs.len() > 0 {
        closing_is_final(m, r, msgs.drop_last());
    }
}

/// After any messages, whether a gamepad is present is what the last connect
/// or disconnect message said (or what it was, if there was none).
pub proof fn gamepad_flag_follows_last_event(m: DialogModel, r: DialogResult, msgs: Seq<Message>)
    ensures
        run(m, r, msgs).0.has_gamepad == gamepad_present_after(m.has_gamepad, msgs),
    decreases msgs.len(),
{
    if msgs.len() > 0 {
        gamepad_flag_follows_last_event(m, r, msgs.drop_last());
    }
}

/// A gamepad that connects and then disconnects leaves the buttons with
/// their text labels alone.
pub proof fn disconnect_restores_text_labels(m: DialogModel, r: DialogResult)
    ensures
        ({
            let after = run(m, r, seq![Message::GamepadConnected, Message::GamepadDisconnected]).0;
            &&& !after.has_gamepad
            &&& forall|i: int|
                0 <= i < button_count(after.dialog_type) ==> #[trigger] button_hint(
                    after.dialog_type,
                    after.has_gamepad,
                    i,
                ) == None::<Icon>
        }),
{
    let msgs = seq![Message::GamepadConnected, Message::GamepadDisconnected];
    gamepad_flag_follows_last_event(m, r, msgs);
    assert(msgs.drop_last() =~= seq![Message::GamepadConnected]);
}

} // verus!
