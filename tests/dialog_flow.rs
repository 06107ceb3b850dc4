use gamepad_dialog::dialog::{Action, Dialog, DialogFlags, DialogType, Message, Phase};
use gamepad_dialog::gamepad::{gamepad_message, GamepadEvent, PadButton};
use gamepad_dialog::icons::Icon;
use gamepad_dialog::result::{DialogResult, ResultSlot};
use gamepad_dialog::session::open_dialog;

fn flags(dialog_type: DialogType) -> DialogFlags {
    DialogFlags { title: "T".to_string(), message: "M".to_string(), dialog_type }
}

#[test]
fn fresh_slot_reads_undefined() {
    let slot = ResultSlot::new();
    assert_eq!(slot.read(), DialogResult::Undefined);
    let mut used = ResultSlot::new();
    used.commit(DialogResult::Cancel);
    used.reset();
    assert_eq!(used.read(), DialogResult::Undefined);
}

#[test]
fn commit_overwrites_slot() {
    let mut slot = ResultSlot::new();
    slot.commit(DialogResult::Cancel);
    slot.commit(DialogResult::OK);
    assert_eq!(slot.read(), DialogResult::OK);
}

#[test]
fn alert_ok_click_returns_ok() {
    let mut slot = ResultSlot::new();
    let mut d = open_dialog(&mut slot, DialogType::Alert, "T", "M", false);
    assert_eq!(d.update(&mut slot, Message::OKPressed), Action::CloseWindow);
    assert_eq!(slot.read(), DialogResult::OK);
    assert_eq!(d.phase(), Phase::Closing);
}

#[test]
fn confirmation_east_release_returns_cancel() {
    let mut slot = ResultSlot::new();
    let mut d = open_dialog(&mut slot, DialogType::Confirmation, "T", "M", true);
    let msg = gamepad_message(GamepadEvent::ButtonReleased(PadButton::East)).unwrap();
    assert_eq!(d.update(&mut slot, msg), Action::CloseWindow);
    assert_eq!(slot.read(), DialogResult::Cancel);
}

#[test]
fn confirmation_window_close_returns_undefined() {
    let mut slot = ResultSlot::new();
    let mut d = open_dialog(&mut slot, DialogType::Confirmation, "T", "M", false);
    assert_eq!(d.update(&mut slot, Message::CloseRequested), Action::CloseWindow);
    assert_eq!(slot.read(), DialogResult::Undefined);
    assert_eq!(d.phase(), Phase::Closing);
}

#[test]
fn second_invocation_does_not_see_first_result() {
    let mut slot = ResultSlot::new();
    let mut first = open_dialog(&mut slot, DialogType::Alert, "T", "M", false);
    first.update(&mut slot, Message::OKPressed);
    assert_eq!(slot.read(), DialogResult::OK);
    let _second = open_dialog(&mut slot, DialogType::Confirmation, "T", "M", false);
    assert_eq!(slot.read(), DialogResult::Undefined);
}

#[test]
fn neutral_messages_then_ok_commit_ok() {
    let mut slot = ResultSlot::new();
    let mut d = Dialog::new(flags(DialogType::Confirmation), false);
    let msgs = [
        Message::GamepadButton(PadButton::North),
        Message::GamepadConnected,
        Message::GamepadButton(PadButton::Start),
        Message::GamepadDisconnected,
        Message::GamepadButton(PadButton::DPadLeft),
    ];
    for m in msgs {
        assert_eq!(d.update(&mut slot, m), Action::Nothing);
        assert_eq!(slot.read(), DialogResult::Undefined);
        assert_eq!(d.phase(), Phase::Initializing);
    }
    assert_eq!(d.update(&mut slot, Message::GamepadButton(PadButton::South)), Action::CloseWindow);
    assert_eq!(slot.read(), DialogResult::OK);
    assert_eq!(d.phase(), Phase::Closing);
}

#[test]
fn alert_ignores_cancel() {
    let mut slot = ResultSlot::new();
    let mut d = Dialog::new(flags(DialogType::Alert), true);
    assert_eq!(d.update(&mut slot, Message::CancelPressed), Action::Nothing);
    assert_eq!(d.update(&mut slot, Message::GamepadButton(PadButton::East)), Action::Nothing);
    assert_eq!(slot.read(), DialogResult::Undefined);
    assert_eq!(d.phase(), Phase::Initializing);
    let v = d.layout();
    assert_eq!(v.buttons.len(), 1);
    assert_eq!(v.buttons[0].action, Message::OKPressed);
}

#[test]
fn closing_ignores_later_decisions() {
    let mut slot = ResultSlot::new();
    let mut d = Dialog::new(flags(DialogType::Confirmation), false);
    d.update(&mut slot, Message::CancelPressed);
    assert_eq!(slot.read(), DialogResult::Cancel);
    assert_eq!(d.update(&mut slot, Message::OKPressed), Action::Nothing);
    assert_eq!(d.update(&mut slot, Message::GamepadButton(PadButton::South)), Action::Nothing);
    assert_eq!(d.update(&mut slot, Message::CloseRequested), Action::Nothing);
    assert_eq!(d.update(&mut slot, Message::FontLoaded), Action::Nothing);
    assert_eq!(slot.read(), DialogResult::Cancel);
    assert_eq!(d.phase(), Phase::Closing);
}

#[test]
fn gamepad_flag_follows_last_event() {
    let mut slot = ResultSlot::new();
    let mut d = Dialog::new(flags(DialogType::Confirmation), false);
    d.update(&mut slot, Message::GamepadConnected);
    assert!(d.has_gamepad());
    let v = d.layout();
    assert_eq!(v.buttons[0].hint, Some(Icon::XboxB));
    assert_eq!(v.buttons[1].hint, Some(Icon::XboxA));
    d.update(&mut slot, Message::GamepadDisconnected);
    assert!(!d.has_gamepad());
    let v = d.layout();
    assert_eq!(v.buttons[0].hint, None);
    assert_eq!(v.buttons[1].hint, None);
    assert_eq!(v.buttons[0].label, "Cancel");
    assert_eq!(v.buttons[1].label, "OK");
}

#[test]
fn font_loaded_moves_to_awaiting_input() {
    let mut slot = ResultSlot::new();
    let mut d = Dialog::new(flags(DialogType::Alert), false);
    assert_eq!(d.phase(), Phase::Initializing);
    assert_eq!(d.update(&mut slot, Message::FontLoaded), Action::Nothing);
    assert_eq!(d.phase(), Phase::AwaitingInput);
    assert_eq!(slot.read(), DialogResult::Undefined);
}

#[test]
fn confirmation_layout_has_cancel_then_ok() {
    let d = Dialog::new(flags(DialogType::Confirmation), false);
    let v = d.layout();
    assert_eq!(v.icon, Icon::InfoSquareRounded);
    assert_eq!(v.message, "M");
    assert_eq!(v.buttons.len(), 2);
    assert_eq!(v.buttons[0].action, Message::CancelPressed);
    assert_eq!(v.buttons[1].action, Message::OKPressed);
    assert_eq!(d.title(), "T");
    assert_eq!(d.message(), "M");
    assert_eq!(d.dialog_type(), DialogType::Confirmation);
}

#[test]
fn alert_layout_uses_alert_icon() {
    let d = Dialog::new(flags(DialogType::Alert), true);
    let v = d.layout();
    assert_eq!(v.icon, Icon::AlertSquareRounded);
    assert_eq!(v.buttons.len(), 1);
    assert_eq!(v.buttons[0].label, "OK");
    assert_eq!(v.buttons[0].hint, Some(Icon::XboxA));
}

#[test]
fn gamepad_events_translate() {
    assert_eq!(gamepad_message(GamepadEvent::Connected), Some(Message::GamepadConnected));
    assert_eq!(gamepad_message(GamepadEvent::Disconnected), Some(Message::GamepadDisconnected));
    assert_eq!(
        gamepad_message(GamepadEvent::ButtonReleased(PadButton::South)),
        Some(Message::GamepadButton(PadButton::South))
    );
    assert_eq!(gamepad_message(GamepadEvent::ButtonPressed(PadButton::South)), None);
    assert_eq!(gamepad_message(GamepadEvent::Other), None);
}

#[test]
fn icon_code_points() {
    assert_eq!(Icon::AlertSquareRounded.as_char(), '\u{f810}');
    assert_eq!(Icon::InfoSquareRounded.as_char(), '\u{f635}');
    assert_eq!(Icon::PlaystationCircle.as_char(), '\u{f2ad}');
    assert_eq!(Icon::PlaystationX.as_char(), '\u{f2b0}');
    assert_eq!(Icon::XboxA.as_char(), '\u{f2b6}');
    assert_eq!(Icon::XboxB.as_char(), '\u{f2b7}');
    assert_eq!(Icon::XboxY.as_char(), '\u{f2b9}');
}
