//! The reverse half of the event translator: mapping a received wire packet
//! to the action to replay on the virtual output device. The mapping tables
//! here agree bit for bit with the forward half in `packet`: what can be
//! pressed can be released.

use vstd::prelude::*;

use crate::packet::AxisId;
use crate::packet::ButtonId;
use crate::packet::PhysicalEvent;
use crate::packet::ServerPacket;
use crate::packet::spec_translate;

verus! {

/// A game-pad button of the virtual output device.
#[derive(Clone, Copy, PartialEq, Eq, Structural, Debug)]
pub enum GamePadButton {
    South,
    East,
    North,
    West,
    C,
    Z,
    TL,
    TL2,
    TR,
    TR2,
    Select,
    Start,
    Mode,
    ThumbL,
    ThumbR,
}

/// A directional-pad button of the virtual output device.
#[derive(Clone, Copy, PartialEq, Eq, Structural, Debug)]
pub enum DPadButton {
    Up,
    Down,
    Left,
    Right,
}

/// The virtual-device equivalent of a physical button: a game-pad button, a
/// directional-pad button, or none (an unknown button is ignored with a
/// warning, never an error).
#[derive(Clone, Copy, PartialEq, Eq, Structural, Debug)]
pub enum UinputButton {
    GamePad(GamePadButton),
    DPad(DPadButton),
    Unknown,
}

/// An absolute-position axis of the virtual output device.
#[derive(Clone, Copy, PartialEq, Eq, Structural, Debug)]
pub enum PositionId {
    X,
    Y,
    Z,
    RX,
    RY,
    RZ,
}

/// The static button equivalence table: which virtual-device button stands
/// for each physical button.
pub open spec fn spec_uinput_button(button: ButtonId) -> UinputButton {
    match button {
        ButtonId::South => UinputButton::GamePad(GamePadButton::South),
        ButtonId::East => UinputButton::GamePad(GamePadButton::East),
        ButtonId::North => UinputButton::GamePad(GamePadButton::North),
        ButtonId::West => UinputButton::GamePad(GamePadButton::West),
        ButtonId::C => UinputButton::GamePad(GamePadButton::C),
        ButtonId::Z => UinputButton::GamePad(GamePadButton::Z),
        ButtonId::LeftTrigger => UinputButton::GamePad(GamePadButton::TL2),
        ButtonId::LeftTrigger2 => UinputButton::GamePad(GamePadButton::TL),
        ButtonId::RightTrigger => UinputButton::GamePad(GamePadButton::TR2),
        ButtonId::RightTrigger2 => UinputButton::GamePad(GamePadButton::TR),
        ButtonId::Select => UinputButton::GamePad(GamePadButton::Select),
        ButtonId::Start => UinputButton::GamePad(GamePadButton::Start),
        ButtonId::Mode => UinputButton::GamePad(GamePadButton::Mode),
        ButtonId::LeftThumb => UinputButton::GamePad(GamePadButton::ThumbL),
        ButtonId::RightThumb => UinputButton::GamePad(GamePadButton::ThumbR),
        ButtonId::DPadUp => UinputButton::DPad(DPadButton::Up),
        ButtonId::DPadDown => UinputButton::DPad(DPadButton::Down),
        ButtonId::DPadLeft => UinputButton::DPad(DPadButton::Left),
        ButtonId::DPadRight => UinputButton::DPad(DPadButton::Right),
        ButtonId::Unknown => UinputButton::Unknown,
    }
}

impl From<ButtonId> for UinputButton {
    /// Looks a physical button up in the equivalence table.
    fn from(button: ButtonId) -> (r: Self) {
        match button {
            ButtonId::South => Self::GamePad(GamePadButton::South),
            ButtonId::East => Self::GamePad(GamePadButton::East),
            ButtonId::North => Self::GamePad(GamePadButton::North),
            ButtonId::West => Self::GamePad(GamePadButton::West),
            ButtonId::C => Self::GamePad(GamePadButton::C),
            ButtonId::Z => Self::GamePad(GamePadButton::Z),
            ButtonId::LeftTrigger => Self::GamePad(GamePadButton::TL2),
            ButtonId::LeftTrigger2 => Self::GamePad(GamePadButton::TL),
            ButtonId::RightTrigger => Self::GamePad(GamePadButton::TR2),
            ButtonId::RightTrigger2 => Self::GamePad(GamePadButton::TR),
            ButtonId::Select => Self::GamePad(GamePadButton::Select),
            ButtonId::Start => Self::GamePad(GamePadButton::Start),
            ButtonId::Mode => Self::GamePad(GamePadButton::Mode),
            ButtonId::LeftThumb => Self::GamePad(GamePadButton::ThumbL),
            ButtonId::RightThumb => Self::GamePad(GamePadButton::ThumbR),
            ButtonId::DPadUp => Self::DPad(DPadButton::Up),
            ButtonId::DPadDown => Self::DPad(DPadButton::Down),
            ButtonId::DPadLeft => Self::DPad(DPadButton::Left),
            ButtonId::DPadRight => Self::DPad(DPadButton::Right),
            ButtonId::Unknown => Self::Unknown,
        }
    }
}

impl vstd::std_specs::convert::FromSpecImpl<ButtonId> for UinputButton {
    open spec fn obeys_from_spec() -> bool {
        true
    }

    open spec fn from_spec(button: ButtonId) -> Self {
        spec_uinput_button(button)
    }
}

/// What a button update replays as: press or release the equivalent device
/// button, or nothing when the button is unknown (the caller logs a warning
/// in that case).
pub open spec fn spec_button_action(button: ButtonId, is_pressed: bool) -> Option<
    (UinputButton, bool),
> {
    if spec_uinput_button(button) is Unknown {
        None
    } else {
        Some((spec_uinput_button(button), is_pressed))
    }
}

/// Replay decision for a button update: the device button to press (`true`)
/// or release (`false`), or `None` for an unknown button, which is ignored
/// with a warning and never raises an error.
pub fn handle_bu(button: ButtonId, is_pressed: bool) -> (r: Option<(UinputButton, bool)>)
    ensures
        r == spec_button_action(button, is_pressed),
        r matches Some((device, _)) ==> device !is Unknown,
{
    match UinputButton::from(button) {
        UinputButton::Unknown => None,
        device => Some((device, is_pressed)),
    }
}

/// The accepted axis vocabulary: which absolute-position axis of the virtual
/// device stands for each physical axis. An axis outside the table has no
/// counterpart and its changes are silently dropped.
pub open spec fn spec_position(axis: AxisId) -> Option<PositionId> {
    match axis {
        AxisId::LeftStickX => Some(PositionId::X),
        AxisId::LeftStickY => Some(PositionId::Y),
        AxisId::LeftZ => Some(PositionId::Z),
        AxisId::RightStickX => Some(PositionId::RX),
        AxisId::RightStickY => Some(PositionId::RY),
        AxisId::RightZ => Some(PositionId::RZ),
        _ => None,
    }
}

/// Replay decision for an axis change: the device axis to set to the raw
/// quantized value (no re-scaling on this side), or `None` for an axis
/// outside the accepted vocabulary, which is silently dropped.
pub fn handle_axis(axis: AxisId, value: i16) -> (r: Option<(PositionId, i16)>)
    ensures
        spec_position(axis) matches Some(p) ==> r == Some((p, value)),
        spec_position(axis) is None ==> r is None,
{
    let position = match axis {
        AxisId::LeftStickX => PositionId::X,
        AxisId::LeftStickY => PositionId::Y,
        AxisId::LeftZ => PositionId::Z,
        AxisId::RightStickX => PositionId::RX,
        AxisId::RightStickY => PositionId::RY,
        AxisId::RightZ => PositionId::RZ,
        _ => {
            return None;
        },
    };
    Some((position, value))
}

/// Round-trip mapping. For every button of the defined vocabulary,
/// translating a press and then a release yields two wire packets whose
/// replay is exactly one press and then one release of the same matching
/// device button.
pub proof fn lemma_button_round_trip(button: ButtonId)
    requires
        button != ButtonId::Unknown,
    ensures
        spec_translate(PhysicalEvent::ButtonPressed(button)) == Some(
            ServerPacket::ButtonUpdate(button, true),
        ),
        spec_translate(PhysicalEvent::ButtonReleased(button)) == Some(
            ServerPacket::ButtonUpdate(button, false),
        ),
        spec_button_action(button, true) == Some((spec_uinput_button(button), true)),
        spec_button_action(button, false) == Some((spec_uinput_button(button), false)),
        spec_uinput_button(button) !is Unknown,
{
}

/// Unknown-input tolerance. A button update for the unknown button replays
/// as no device call at all, whether a press or a release, and raises no
/// error.
pub proof fn lemma_unknown_button_ignored(is_pressed: bool)
    ensures
        spec_button_action(ButtonId::Unknown, is_pressed) is None,
{
}

} // verus!
