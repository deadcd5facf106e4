use multipad::packet::AxisId;
use multipad::packet::ButtonId;
use multipad::replay::DPadButton;
use multipad::replay::GamePadButton;
use multipad::replay::PositionId;
use multipad::replay::UinputButton;
use multipad::replay::handle_axis;
use multipad::replay::handle_bu;

fn known_buttons() -> Vec<(ButtonId, UinputButton)> {
    vec![
        (ButtonId::South, UinputButton::GamePad(GamePadButton::South)),
        (ButtonId::East, UinputButton::GamePad(GamePadButton::East)),
        (ButtonId::North, UinputButton::GamePad(GamePadButton::North)),
        (ButtonId::West, UinputButton::GamePad(GamePadButton::West)),
        (ButtonId::C, UinputButton::GamePad(GamePadButton::C)),
        (ButtonId::Z, UinputButton::GamePad(GamePadButton::Z)),
        (ButtonId::LeftTrigger, UinputButton::GamePad(GamePadButton::TL2)),
        (ButtonId::LeftTrigger2, UinputButton::GamePad(GamePadButton::TL)),
        (ButtonId::RightTrigger, UinputButton::GamePad(GamePadButton::TR2)),
        (ButtonId::RightTrigger2, UinputButton::GamePad(GamePadButton::TR)),
        (ButtonId::Select, UinputButton::GamePad(GamePadButton::Select)),
        (ButtonId::Start, UinputButton::GamePad(GamePadButton::Start)),
        (ButtonId::Mode, UinputButton::GamePad(GamePadButton::Mode)),
        (ButtonId::LeftThumb, UinputButton::GamePad(GamePadButton::ThumbL)),
        (ButtonId::RightThumb, UinputButton::GamePad(GamePadButton::ThumbR)),
        (ButtonId::DPadUp, UinputButton::DPad(DPadButton::Up)),
        (ButtonId::DPadDown, UinputButton::DPad(DPadButton::Down)),
        (ButtonId::DPadLeft, UinputButton::DPad(DPadButton::Left)),
        (ButtonId::DPadRight, UinputButton::DPad(DPadButton::Right)),
    ]
}

#[test]
fn button_equivalence_table() {
    for (button, device) in known_buttons() {
        assert_eq!(UinputButton::from(button), device);
    }
    assert_eq!(UinputButton::from(ButtonId::Unknown), UinputButton::Unknown);
}

#[test]
fn round_trip_press_and_release() {
    // Every known button replays a press as one press and a release as one
    // release of the same device button.
    for (button, device) in known_buttons() {
        assert_eq!(handle_bu(button, true), Some((device, true)));
        assert_eq!(handle_bu(button, false), Some((device, false)));
    }
}

#[test]
fn unknown_button_replays_as_nothing() {
    assert_eq!(handle_bu(ButtonId::Unknown, true), None);
    assert_eq!(handle_bu(ButtonId::Unknown, false), None);
}

#[test]
fn axis_vocabulary_maps_to_positions() {
    assert_eq!(handle_axis(AxisId::LeftStickX, 1), Some((PositionId::X, 1)));
    assert_eq!(handle_axis(AxisId::LeftStickY, -2), Some((PositionId::Y, -2)));
    assert_eq!(handle_axis(AxisId::LeftZ, 3), Some((PositionId::Z, 3)));
    assert_eq!(handle_axis(AxisId::RightStickX, 4), Some((PositionId::RX, 4)));
    assert_eq!(handle_axis(AxisId::RightStickY, 5), Some((PositionId::RY, 5)));
    assert_eq!(handle_axis(AxisId::RightZ, 6), Some((PositionId::RZ, 6)));
}

#[test]
fn axis_value_is_not_rescaled() {
    assert_eq!(
        handle_axis(AxisId::LeftStickX, 32767),
        Some((PositionId::X, 32767))
    );
    assert_eq!(
        handle_axis(AxisId::RightZ, -32768),
        Some((PositionId::RZ, -32768))
    );
}

#[test]
fn foreign_axes_are_dropped() {
    assert_eq!(handle_axis(AxisId::DPadX, 10), None);
    assert_eq!(handle_axis(AxisId::DPadY, 10), None);
    assert_eq!(handle_axis(AxisId::Unknown, 10), None);
}
