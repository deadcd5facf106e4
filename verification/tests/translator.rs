use multipad::packet::AxisId;
use multipad::packet::ButtonId;
use multipad::packet::ClientName;
use multipad::packet::PhysicalEvent;
use multipad::packet::ServerPacket;
use multipad::packet::quantize;

/// What the capture edge does with a raw axis reading in `[-1.0, 1.0]`
/// before handing it to the library.
fn scale(v: f32) -> i32 {
    (v * 32767.0).round() as i32
}

#[test]
fn quantize_of_full_deflection_is_extreme() {
    assert_eq!(quantize(scale(-1.0)), -32767);
    assert_eq!(quantize(scale(1.0)), 32767);
    assert_eq!(quantize(scale(0.0)), 0);
}

#[test]
fn quantize_is_deterministic() {
    let reading = scale(0.25);
    assert_eq!(quantize(reading), quantize(reading));
    assert_eq!(quantize(scale(0.5)), quantize(scale(0.5)));
}

#[test]
fn quantize_passes_in_range_readings_through() {
    assert_eq!(quantize(scale(0.5)), 16384);
    assert_eq!(quantize(-12345), -12345);
    assert_eq!(quantize(32767), 32767);
    assert_eq!(quantize(-32768), -32768);
}

#[test]
fn quantize_clamps_out_of_range_readings() {
    assert_eq!(quantize(40000), 32767);
    assert_eq!(quantize(32768), 32767);
    assert_eq!(quantize(-40000), -32768);
    assert_eq!(quantize(-32769), -32768);
}

#[test]
fn press_translates_to_button_update() {
    assert_eq!(
        ServerPacket::try_from(PhysicalEvent::ButtonPressed(ButtonId::South)),
        Ok(ServerPacket::ButtonUpdate(ButtonId::South, true))
    );
}

#[test]
fn release_translates_to_button_update() {
    assert_eq!(
        ServerPacket::try_from(PhysicalEvent::ButtonReleased(ButtonId::DPadLeft)),
        Ok(ServerPacket::ButtonUpdate(ButtonId::DPadLeft, false))
    );
}

#[test]
fn axis_change_translates_quantized() {
    assert_eq!(
        ServerPacket::try_from(PhysicalEvent::AxisChanged(AxisId::RightStickY, scale(-1.0))),
        Ok(ServerPacket::AxisChange(AxisId::RightStickY, -32767))
    );
    assert_eq!(
        ServerPacket::try_from(PhysicalEvent::AxisChanged(AxisId::LeftZ, 40000)),
        Ok(ServerPacket::AxisChange(AxisId::LeftZ, 32767))
    );
}

#[test]
fn other_events_are_rejected() {
    assert_eq!(ServerPacket::try_from(PhysicalEvent::Other), Err(()));
}

#[test]
fn triggers_name_clients() {
    assert_eq!(
        ClientName::try_from(ButtonId::LeftTrigger),
        Ok(ClientName::LeftTrigger)
    );
    assert_eq!(
        ClientName::try_from(ButtonId::LeftTrigger2),
        Ok(ClientName::LeftTrigger2)
    );
    assert_eq!(
        ClientName::try_from(ButtonId::RightTrigger),
        Ok(ClientName::RightTrigger)
    );
    assert_eq!(
        ClientName::try_from(ButtonId::RightTrigger2),
        Ok(ClientName::RightTrigger2)
    );
}

#[test]
fn non_triggers_name_no_client() {
    assert_eq!(ClientName::try_from(ButtonId::South), Err(()));
    assert_eq!(ClientName::try_from(ButtonId::DPadUp), Err(()));
    assert_eq!(ClientName::try_from(ButtonId::Unknown), Err(()));
}
