use monitor_core::monitor::{DisplayInfo, VcpValue, VcpWrite};
use monitor_core::{Config, InputSource, Session};

fn display(id: &str, serial: Option<u32>) -> DisplayInfo {
    DisplayInfo {
        id: id.to_string(),
        serial_number: None,
        serial,
        model_name: None,
        manufacturer_id: None,
    }
}

fn two() -> Vec<DisplayInfo> {
    vec![display("vendorX", Some(111)), display("vendorY", Some(222))]
}

fn answer(sl: u8) -> VcpValue {
    VcpValue { ty: 0, mh: 0, ml: 0, sh: 0, sl }
}

#[test]
fn new_session_has_no_monitor() {
    let session = Session::new(Config::new());
    assert_eq!(session.monitor_count(), 0);
    assert!(session.monitor(0).is_none());
    assert_eq!(session.current_input_request(0), None);
    assert_eq!(session.monitor_get_current_input(0, None), InputSource::Unknown);
    assert!(!session.monitor_set_input(0, None));
    let list = session.monitor_get_available_inputs(0);
    assert!(list.inputs.is_none());
    assert_eq!(list.count, 0);
}

#[test]
fn enumerate_hands_out_one_record_per_display() {
    let mut session = Session::new(Config::new());
    let mut displays = two();
    displays[0].model_name = Some("U2720Q".to_string());
    displays[1].manufacturer_id = Some("DEL".to_string());
    let list = session.monitor_enumerate(displays);
    assert_eq!(list.count, 2);
    assert_eq!(list.monitors.len(), 2);
    assert_eq!(list.monitors[0].id, "vendorX-111");
    assert_eq!(list.monitors[0].model_name, Some("U2720Q".to_string()));
    assert_eq!(list.monitors[0].manufacturer_id, None);
    assert_eq!(list.monitors[1].id, "vendorY-222");
    assert_eq!(list.monitors[1].model_name, None);
    assert_eq!(list.monitors[1].manufacturer_id, Some("DEL".to_string()));
    assert_eq!(session.monitor_count(), 2);
    assert_eq!(session.monitor(1).unwrap().id(), "vendorY-222");
    assert_eq!(session.monitor(1).unwrap().index, 1);
}

#[test]
fn enumerate_of_nothing_is_an_empty_list() {
    let mut session = Session::new(Config::new());
    session.monitor_enumerate(two());
    let list = session.monitor_enumerate(Vec::new());
    assert_eq!(list.count, 0);
    assert!(list.monitors.is_empty());
    assert_eq!(session.monitor_count(), 0);
}

#[test]
fn current_input_at_a_valid_position() {
    let mut session = Session::new(Config::new());
    let list = session.monitor_enumerate(two());
    assert_eq!(list.count, 2);
    assert_eq!(session.current_input_request(0), Some(0x60));
    assert_eq!(
        session.monitor_get_current_input(0, Some(Ok(answer(0x0F)))),
        InputSource::DisplayPort1
    );
    assert_eq!(
        session.monitor_get_current_input(0, Some(Err("bus failure".to_string()))),
        InputSource::Unknown
    );
    assert_eq!(session.monitor_get_current_input(0, None), InputSource::Unknown);
    drop(list);
    assert_eq!(
        session.monitor_get_current_input(1, Some(Ok(answer(0x12)))),
        InputSource::HDMI2
    );
}

#[test]
fn current_input_out_of_range_is_unknown_whatever_the_reply() {
    let mut session = Session::new(Config::new());
    session.monitor_enumerate(two());
    assert_eq!(session.current_input_request(2), None);
    assert_eq!(
        session.monitor_get_current_input(2, Some(Ok(answer(0x11)))),
        InputSource::Unknown
    );
    assert_eq!(
        session.monitor_get_current_input(usize::MAX, Some(Ok(answer(0x11)))),
        InputSource::Unknown
    );
}

#[test]
fn stale_position_after_a_display_went_away_fails_closed() {
    let mut session = Session::new(Config::new());
    let first = session.monitor_enumerate(two());
    let captured = first.monitors[1].id.clone();
    assert_eq!(captured, "vendorY-222");
    assert_eq!(
        session.set_input_request(1, InputSource::HDMI1),
        Some(VcpWrite { feature: 0x60, value: 0x11 })
    );

    let second = session.monitor_enumerate(vec![display("vendorX", Some(111))]);
    assert_eq!(second.count, 1);
    assert_eq!(session.set_input_request(1, InputSource::HDMI1), None);
    assert!(!session.monitor_set_input(1, None));
    assert!(!session.monitor_set_input(1, Some(Ok(()))));
    assert!(session.monitor_set_input(0, Some(Ok(()))));
}

#[test]
fn set_input_reports_only_an_acknowledged_write() {
    let mut session = Session::new(Config::new());
    session.monitor_enumerate(two());
    assert_eq!(
        session.set_input_request(0, InputSource::DisplayPort2),
        Some(VcpWrite { feature: 0x60, value: 0x10 })
    );
    assert!(session.monitor_set_input(0, Some(Ok(()))));
    assert!(!session.monitor_set_input(0, Some(Err("NACK".to_string()))));
    assert!(!session.monitor_set_input(0, None));
}

#[test]
fn available_inputs_by_position() {
    let mut session = Session::new(Config::new());
    session.monitor_enumerate(two());
    let list = session.monitor_get_available_inputs(1);
    assert_eq!(list.count, 6);
    assert_eq!(
        list.inputs,
        Some(vec![
            InputSource::HDMI1,
            InputSource::HDMI2,
            InputSource::DisplayPort1,
            InputSource::DisplayPort2,
            InputSource::USBC1,
            InputSource::USBC2,
        ])
    );
    let none = session.monitor_get_available_inputs(2);
    assert_eq!(none.count, 0);
    assert_eq!(none.inputs, None);
}

#[test]
fn alias_through_the_boundary() {
    let mut session = Session::new(Config::new());
    assert!(session.config_set_alias(Some("vendorX-111"), 0x11, Some("Desk HDMI")));
    assert_eq!(
        session.config_get_alias(Some("vendorX-111"), 0x11),
        Some("Desk HDMI".to_string())
    );
    assert_eq!(session.config().get_alias("vendorX-111", 0x11), Some("Desk HDMI"));
    assert!(session.config_remove_alias(Some("vendorX-111"), 0x11));
    assert_eq!(session.config_get_alias(Some("vendorX-111"), 0x11), None);
}

#[test]
fn missing_identity_or_alias_is_refused() {
    let mut session = Session::new(Config::new());
    session.config_set_alias(Some("m"), 1, Some("kept"));
    assert!(!session.config_set_alias(None, 1, Some("x")));
    assert!(!session.config_set_alias(Some("m"), 1, None));
    assert!(!session.config_set_alias(None, 1, None));
    assert_eq!(session.config_get_alias(Some("m"), 1), Some("kept".to_string()));
    assert_eq!(session.config_get_alias(None, 1), None);
    assert!(!session.config_remove_alias(None, 1));
    assert_eq!(session.config_get_alias(Some("m"), 1), Some("kept".to_string()));
    assert!(!session.config_is_favorite(None, 1));
    assert!(!session.config_add_favorite(None, 1));
    assert!(!session.config_remove_favorite(None, 1));
    assert_eq!(session.config_get_favorites().count, 0);
}

#[test]
fn favorites_through_the_boundary() {
    let mut session = Session::new(Config::new());
    assert!(session.config_add_favorite(Some("b"), 2));
    assert!(session.config_add_favorite(Some("a"), 1));
    assert!(session.config_add_favorite(Some("b"), 2));
    assert!(session.config_is_favorite(Some("a"), 1));
    assert!(!session.config_is_favorite(Some("a"), 2));
    let list = session.config_get_favorites();
    assert_eq!(list.count, 2);
    assert_eq!(list.favorites.len(), 2);
    assert_eq!(list.favorites[0].monitor_id, "b");
    assert_eq!(list.favorites[0].input_value, 2);
    assert_eq!(list.favorites[1].monitor_id, "a");
    assert_eq!(list.favorites[1].input_value, 1);
    assert!(session.config_remove_favorite(Some("b"), 2));
    assert!(session.config_remove_favorite(Some("b"), 2));
    let list = session.config_get_favorites();
    assert_eq!(list.count, 1);
    assert_eq!(list.favorites[0].monitor_id, "a");
}

#[test]
fn reload_replaces_the_configuration_and_keeps_the_monitors() {
    let mut session = Session::new(Config::new());
    session.monitor_enumerate(two());
    session.config_set_alias(Some("m"), 1, Some("old"));
    let mut fresh = Config::new();
    fresh.set_alias("m", 2, "new".to_string());
    session.config_reload(fresh);
    assert_eq!(session.config_get_alias(Some("m"), 1), None);
    assert_eq!(session.config_get_alias(Some("m"), 2), Some("new".to_string()));
    assert_eq!(session.monitor_count(), 2);
}

#[test]
fn enumerate_keeps_the_configuration() {
    let mut session = Session::new(Config::new());
    session.config_set_alias(Some("vendorX-111"), 0x11, Some("Desk HDMI"));
    session.monitor_enumerate(two());
    assert_eq!(
        session.config_get_alias(Some("vendorX-111"), 0x11),
        Some("Desk HDMI".to_string())
    );
}

#[test]
fn a_change_counts_only_when_applied_and_saved() {
    assert!(Session::config_saved(true, Some(Ok(()))));
    assert!(!Session::config_saved(true, Some(Err("disk full".to_string()))));
    assert!(!Session::config_saved(true, None));
    assert!(!Session::config_saved(false, Some(Ok(()))));
    assert!(!Session::config_saved(false, None));
}
