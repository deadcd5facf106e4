//! Wire messages and the forward half of the event translator: mapping a
//! captured physical input event to the packet that crosses the transport.

use vstd::prelude::*;

verus! {

/// A button of the physical controller's fixed vocabulary.
#[derive(Clone, Copy, PartialEq, Eq, Structural, Debug)]
pub enum ButtonId {
    South,
    East,
    North,
    West,
    C,
    Z,
    LeftTrigger,
    LeftTrigger2,
    RightTrigger,
    RightTrigger2,
    Select,
    Start,
    Mode,
    LeftThumb,
    RightThumb,
    DPadUp,
    DPadDown,
    DPadLeft,
    DPadRight,
    Unknown,
}

/// An axis of the physical controller's fixed vocabulary.
#[derive(Clone, Copy, PartialEq, Eq, Structural, Debug)]
pub enum AxisId {
    LeftStickX,
    LeftStickY,
    LeftZ,
    RightStickX,
    RightStickY,
    RightZ,
    DPadX,
    DPadY,
    Unknown,
}

/// A captured input event, as the capture edge hands it to the translator.
/// An axis reading arrives pre-scaled: the capture edge multiplies the raw
/// reading in `[-1.0, 1.0]` by `32767` and rounds; quantization then clamps.
/// Events of any other kind are collapsed into `Other` and dropped.
#[derive(Clone, Copy, PartialEq, Eq, Structural, Debug)]
pub enum PhysicalEvent {
    ButtonPressed(ButtonId),
    ButtonReleased(ButtonId),
    AxisChanged(AxisId, i32),
    Other,
}

/// A packet sent by a client. The channel is one-way in this deployment:
/// clients only receive and the server never listens, so no value of this
/// type is ever sent; the single variant only marks the inbound direction
/// as unused.
#[derive(Clone, Copy, PartialEq, Eq, Structural, Debug)]
pub enum ClientPacket {
    NoMessage,
}

/// A packet sent by the server: the only data crossing the transport.
#[derive(Clone, Copy, PartialEq, Eq, Structural, Debug)]
pub enum ServerPacket {
    ButtonUpdate(ButtonId, bool),
    AxisChange(AxisId, i16),
}

/// The name of a client: one of exactly four values, each naming the trigger
/// button that selects it.
#[derive(Clone, Copy, PartialEq, Eq, Structural, Hash, Debug)]
pub enum ClientName {
    LeftTrigger,
    LeftTrigger2,
    RightTrigger,
    RightTrigger2,
}

/// Largest value a quantized axis reading may take.
pub const AXIS_MAX: i32 = 32767;

/// Smallest value a quantized axis reading may take.
pub const AXIS_MIN: i32 = -32768;

/// What a quantized axis reading is: the scaled integer reading clamped to
/// the signed 16-bit range.
pub open spec fn spec_quantize(scaled: int) -> i16 {
    if scaled < AXIS_MIN as int {
        AXIS_MIN as i16
    } else if scaled > AXIS_MAX as int {
        AXIS_MAX as i16
    } else {
        scaled as i16
    }
}

/// Quantizes a scaled axis reading for the wire. The capture edge multiplies
/// the raw reading in `[-1.0, 1.0]` by `32767` and rounds; this clamps the
/// result into the signed 16-bit range, so the same scaled reading always
/// yields the same wire value.
pub fn quantize(scaled: i32) -> (r: i16)
    ensures
        r == spec_quantize(scaled as int),
{
    if scaled < AXIS_MIN {
        AXIS_MIN as i16
    } else if scaled > AXIS_MAX {
        AXIS_MAX as i16
    } else {
        scaled as i16
    }
}

/// Quantization is the identity on scaled readings already in the signed
/// 16-bit range; in particular every reading scaled from `[-1.0, 1.0]`
/// (so in `[-32767, 32767]`) passes through unchanged.
pub proof fn lemma_quantize_identity(scaled: int)
    requires
        AXIS_MIN as int <= scaled <= AXIS_MAX as int,
    ensures
        spec_quantize(scaled) == scaled,
{
}

/// What the forward half of the event translator yields for each captured
/// event: button state changes and quantized axis changes cross the wire,
/// every other event kind is dropped.
pub open spec fn spec_translate(event: PhysicalEvent) -> Option<ServerPacket> {
    match event {
        PhysicalEvent::ButtonPressed(b) => Some(ServerPacket::ButtonUpdate(b, true)),
        PhysicalEvent::ButtonReleased(b) => Some(ServerPacket::ButtonUpdate(b, false)),
        PhysicalEvent::AxisChanged(a, scaled) => Some(
            ServerPacket::AxisChange(a, spec_quantize(scaled as int)),
        ),
        PhysicalEvent::Other => None,
    }
}

impl ServerPacket {
    /// Forward mapping of the event translator: a press or release becomes a
    /// button update, an axis reading is quantized, and any other event kind
    /// is rejected (the caller drops it, it is not an error).
    pub fn try_from(event: PhysicalEvent) -> (r: Result<ServerPacket, ()>)
        ensures
            spec_translate(event) matches Some(p) ==> r == Ok::<ServerPacket, ()>(p),
            spec_translate(event) is None ==> r == Err::<ServerPacket, ()>(()),
    {
        match event {
            PhysicalEvent::ButtonPressed(b) => Ok(ServerPacket::ButtonUpdate(b, true)),
            PhysicalEvent::ButtonReleased(b) => Ok(ServerPacket::ButtonUpdate(b, false)),
            PhysicalEvent::AxisChanged(a, scaled) => Ok(
                ServerPacket::AxisChange(a, quantize(scaled)),
            ),
            PhysicalEvent::Other => Err(()),
        }
    }
}

/// Which client, if any, a button selects: the partial injection from the
/// four trigger buttons to the four client names. Every other button maps to
/// "not a selector".
pub open spec fn spec_selector(button: ButtonId) -> Option<ClientName> {
    match button {
        ButtonId::LeftTrigger => Some(ClientName::LeftTrigger),
        ButtonId::LeftTrigger2 => Some(ClientName::LeftTrigger2),
        ButtonId::RightTrigger => Some(ClientName::RightTrigger),
        ButtonId::RightTrigger2 => Some(ClientName::RightTrigger2),
        _ => None,
    }
}

impl ClientName {
    /// Recognizes a client-selection button: the four trigger buttons name
    /// the four clients, every other button is rejected.
    pub fn try_from(button: ButtonId) -> (r: Result<ClientName, ()>)
        ensures
            spec_selector(button) matches Some(c) ==> r == Ok::<ClientName, ()>(c),
            spec_selector(button) is None ==> r == Err::<ClientName, ()>(()),
    {
        match button {
            ButtonId::LeftTrigger => Ok(ClientName::LeftTrigger),
            ButtonId::LeftTrigger2 => Ok(ClientName::LeftTrigger2),
            ButtonId::RightTrigger => Ok(ClientName::RightTrigger),
            ButtonId::RightTrigger2 => Ok(ClientName::RightTrigger2),
            _ => Err(()),
        }
    }
}

/// The button-to-client mapping is a partial injection: two buttons that
/// select the same client are the same button.
pub proof fn lemma_selector_injective(b1: ButtonId, b2: ButtonId)
    requires
        spec_selector(b1) is Some,
        spec_selector(b1) == spec_selector(b2),
    ensures
        b1 == b2,
{
}

} // verus!
