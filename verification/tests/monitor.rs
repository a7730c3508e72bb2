use monitor_core::monitor::{decimal_text, DisplayInfo, VcpValue, VcpWrite, VCP_INPUT_SELECT};
use monitor_core::{InputSource, Monitor, MonitorError};

fn display(id: &str, serial_number: Option<&str>, serial: Option<u32>) -> DisplayInfo {
    DisplayInfo {
        id: id.to_string(),
        serial_number: serial_number.map(|s| s.to_string()),
        serial,
        model_name: None,
        manufacturer_id: None,
    }
}

fn answer(sh: u8, sl: u8) -> VcpValue {
    VcpValue { ty: 0, mh: 0, ml: 0x17, sh, sl }
}

fn one() -> Monitor {
    Monitor::enumerate(vec![display("vendorX", None, None)]).remove(0)
}

#[test]
fn decimal_numerals() {
    assert_eq!(decimal_text(0), "0");
    assert_eq!(decimal_text(7), "7");
    assert_eq!(decimal_text(9), "9");
    assert_eq!(decimal_text(10), "10");
    assert_eq!(decimal_text(111), "111");
    assert_eq!(decimal_text(1234567890), "1234567890");
    assert_eq!(decimal_text(4294967295), "4294967295");
    assert_eq!(decimal_text(u64::MAX), "18446744073709551615");
}

#[test]
fn decimal_numerals_agree_with_formatting() {
    for n in 0..5000u64 {
        assert_eq!(decimal_text(n), format!("{}", n));
    }
}

#[test]
fn enumerate_numbers_the_displays_in_order() {
    let monitors = Monitor::enumerate(vec![
        display("a", None, None),
        display("b", None, None),
        display("c", None, None),
    ]);
    assert_eq!(monitors.len(), 3);
    for (position, monitor) in monitors.iter().enumerate() {
        assert_eq!(monitor.index, position);
    }
    assert_eq!(monitors[0].info.id, "a");
    assert_eq!(monitors[1].info.id, "b");
    assert_eq!(monitors[2].info.id, "c");
}

#[test]
fn enumerate_of_no_display_is_empty() {
    assert!(Monitor::enumerate(Vec::new()).is_empty());
}

#[test]
fn identity_prefers_the_serial_number() {
    let monitors = Monitor::enumerate(vec![display("vendorX", Some("ABC123"), Some(111))]);
    assert_eq!(monitors[0].id(), "vendorX-ABC123");
}

#[test]
fn identity_falls_back_to_the_numeric_serial() {
    let monitors = Monitor::enumerate(vec![
        display("vendorX", None, Some(111)),
        display("vendorY", None, Some(222)),
    ]);
    assert_eq!(monitors[0].id(), "vendorX-111");
    assert_eq!(monitors[1].id(), "vendorY-222");
}

#[test]
fn identity_falls_back_to_the_position() {
    let monitors = Monitor::enumerate(vec![
        display("i2c", None, None),
        display("i2c", None, None),
        display("i2c", Some("S"), None),
    ]);
    assert_eq!(monitors[0].id(), "i2c-0");
    assert_eq!(monitors[1].id(), "i2c-1");
    assert_eq!(monitors[2].id(), "i2c-S");
}

#[test]
fn identity_with_largest_serial_and_empty_parts() {
    let monitors = Monitor::enumerate(vec![
        display("", None, Some(u32::MAX)),
        display("x", Some(""), Some(5)),
        display("x", None, Some(0)),
    ]);
    assert_eq!(monitors[0].id(), "-4294967295");
    assert_eq!(monitors[1].id(), "x-");
    assert_eq!(monitors[2].id(), "x-0");
}

#[test]
fn metadata_is_handed_out_as_reported() {
    let mut info = display("vendorX", None, None);
    info.model_name = Some("U2720Q".to_string());
    let monitors = Monitor::enumerate(vec![info]);
    assert_eq!(monitors[0].model_name(), Some("U2720Q".to_string()));
    assert_eq!(monitors[0].manufacturer_id(), None);

    let mut info = display("vendorX", None, None);
    info.manufacturer_id = Some("DEL".to_string());
    let monitors = Monitor::enumerate(vec![info]);
    assert_eq!(monitors[0].model_name(), None);
    assert_eq!(monitors[0].manufacturer_id(), Some("DEL".to_string()));
}

#[test]
fn current_input_is_decoded_from_the_value_bytes() {
    let monitor = one();
    assert_eq!(monitor.get_current_input(Ok(answer(0, 0x11))), Ok(InputSource::HDMI1));
    assert_eq!(monitor.get_current_input(Ok(answer(0, 0x0F))), Ok(InputSource::DisplayPort1));
    assert_eq!(monitor.get_current_input(Ok(answer(0, 0x17))), Ok(InputSource::USBC3));
    assert_eq!(monitor.get_current_input(Ok(answer(0, 0x01))), Ok(InputSource::VGA1));
}

#[test]
fn current_input_takes_the_high_byte_into_account() {
    let monitor = one();
    assert_eq!(monitor.get_current_input(Ok(answer(1, 0x11))), Ok(InputSource::Unknown));
    assert_eq!(monitor.get_current_input(Ok(answer(0x11, 0))), Ok(InputSource::Unknown));
    assert_eq!(monitor.get_current_input(Ok(answer(0xFF, 0xFF))), Ok(InputSource::Unknown));
}

#[test]
fn current_input_ignores_type_and_maximum_bytes() {
    let monitor = one();
    let reply = VcpValue { ty: 1, mh: 0x11, ml: 0x12, sh: 0, sl: 0x10 };
    assert_eq!(monitor.get_current_input(Ok(reply)), Ok(InputSource::DisplayPort2));
}

#[test]
fn current_input_of_unnamed_code_is_unknown() {
    let monitor = one();
    assert_eq!(monitor.get_current_input(Ok(answer(0, 0))), Ok(InputSource::Unknown));
    assert_eq!(monitor.get_current_input(Ok(answer(0, 0x18))), Ok(InputSource::Unknown));
    assert_eq!(monitor.get_current_input(Ok(answer(0, 0xFF))), Ok(InputSource::Unknown));
}

#[test]
fn failed_read_is_a_communication_error() {
    let monitor = one();
    assert_eq!(
        monitor.get_current_input(Err("timed out".to_string())),
        Err(MonitorError::DdcError("timed out".to_string()))
    );
}

#[test]
fn switching_writes_the_code_to_the_input_select_register() {
    let monitor = one();
    assert_eq!(VCP_INPUT_SELECT, 0x60);
    assert_eq!(
        monitor.input_select_write(InputSource::HDMI1),
        VcpWrite { feature: 0x60, value: 0x11 }
    );
    assert_eq!(
        monitor.input_select_write(InputSource::USBC2),
        VcpWrite { feature: 0x60, value: 0x16 }
    );
    assert_eq!(
        monitor.input_select_write(InputSource::Unknown),
        VcpWrite { feature: 0x60, value: 0xFF }
    );
}

#[test]
fn acknowledged_write_is_success() {
    assert_eq!(one().set_input(Ok(())), Ok(()));
}

#[test]
fn failed_write_is_a_communication_error() {
    assert_eq!(
        one().set_input(Err("NACK".to_string())),
        Err(MonitorError::DdcError("NACK".to_string()))
    );
}

#[test]
fn available_inputs_are_the_fixed_six() {
    assert_eq!(
        one().get_available_inputs(),
        Ok(vec![
            InputSource::HDMI1,
            InputSource::HDMI2,
            InputSource::DisplayPort1,
            InputSource::DisplayPort2,
            InputSource::USBC1,
            InputSource::USBC2,
        ])
    );
}

#[test]
fn error_messages() {
    assert_eq!(
        MonitorError::DdcError("bus busy".to_string()).message(),
        "Failed to communicate with monitor: bus busy"
    );
    assert_eq!(
        MonitorError::DdcError(String::new()).message(),
        "Failed to communicate with monitor: "
    );
    assert_eq!(MonitorError::NotFound.message(), "Monitor not found");
    assert_eq!(
        MonitorError::NotSupported.message(),
        "Operation not supported by this monitor"
    );
}
