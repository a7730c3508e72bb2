use monitor_core::listing::{
    apply_settings, monitor_entries, quick_switch_entries, InputEntry, MonitorData,
};
use monitor_core::monitor::DisplayInfo;
use monitor_core::{Config, InputSource, Monitor, MonitorError};

fn display(id: &str, model: Option<&str>, maker: Option<&str>) -> DisplayInfo {
    DisplayInfo {
        id: id.to_string(),
        serial_number: None,
        serial: Some(111),
        model_name: model.map(|s| s.to_string()),
        manufacturer_id: maker.map(|s| s.to_string()),
    }
}

fn data(id: &str, name: &str, index: usize, current: Option<InputSource>) -> MonitorData {
    MonitorData {
        id: id.to_string(),
        name: name.to_string(),
        index,
        current_input: current,
        available_inputs: vec![InputSource::HDMI1, InputSource::DisplayPort1],
    }
}

fn entry(alias: Option<&str>, is_favorite: bool, is_current: bool) -> InputEntry {
    InputEntry {
        monitor_index: 0,
        input: InputSource::HDMI1,
        alias: alias.map(|s| s.to_string()),
        is_favorite,
        is_current,
        monitor_name: "Left".to_string(),
    }
}

#[test]
fn gather_names_the_monitor_by_model_then_maker_then_number() {
    let monitors = Monitor::enumerate(vec![
        display("a", Some("U2720Q"), Some("DEL")),
        display("b", None, Some("DEL")),
        display("c", None, None),
    ]);
    let names: Vec<String> = monitors
        .iter()
        .map(|m| MonitorData::gather(m, m.index + 1, Ok(InputSource::HDMI1), Ok(Vec::new())).name)
        .collect();
    assert_eq!(names, vec!["U2720Q", "DEL", "Monitor 3"]);
    let zero = MonitorData::gather(&monitors[2], 0, Ok(InputSource::HDMI1), Ok(Vec::new()));
    assert_eq!(zero.name, "Monitor 0");
    let twelve = MonitorData::gather(&monitors[2], 12, Ok(InputSource::HDMI1), Ok(Vec::new()));
    assert_eq!(twelve.name, "Monitor 12");
}

#[test]
fn gather_keeps_identity_position_and_answers() {
    let monitors = Monitor::enumerate(vec![display("a", None, None), display("b", None, None)]);
    let got = MonitorData::gather(
        &monitors[1],
        2,
        Ok(InputSource::DisplayPort1),
        Ok(vec![InputSource::HDMI1, InputSource::HDMI2]),
    );
    assert_eq!(got.id, "b-111");
    assert_eq!(got.index, 1);
    assert_eq!(got.current_input, Some(InputSource::DisplayPort1));
    assert_eq!(got.available_inputs, vec![InputSource::HDMI1, InputSource::HDMI2]);
}

#[test]
fn gather_degrades_on_failure() {
    let monitors = Monitor::enumerate(vec![display("a", None, None)]);
    let got = MonitorData::gather(
        &monitors[0],
        1,
        Err(MonitorError::DdcError("timeout".to_string())),
        Err(MonitorError::NotSupported),
    );
    assert_eq!(got.current_input, None);
    assert!(got.available_inputs.is_empty());
}

#[test]
fn monitor_entries_follow_the_offered_inputs() {
    let mut config = Config::new();
    config.set_alias("a-111", 0x11, "Desk".to_string());
    config.add_favorite("a-111", 0x0F);
    let monitor = data("a-111", "Left", 4, Some(InputSource::DisplayPort1));
    let entries = monitor_entries(&monitor, &config);
    assert_eq!(entries.len(), 2);
    assert_eq!(entries[0].input, InputSource::HDMI1);
    assert_eq!(entries[0].alias, Some("Desk".to_string()));
    assert!(!entries[0].is_favorite);
    assert!(!entries[0].is_current);
    assert_eq!(entries[0].monitor_index, 4);
    assert_eq!(entries[0].monitor_name, "Left");
    assert_eq!(entries[1].input, InputSource::DisplayPort1);
    assert_eq!(entries[1].alias, None);
    assert!(entries[1].is_favorite);
    assert!(entries[1].is_current);
}

#[test]
fn monitor_without_inputs_has_no_entries() {
    let mut monitor = data("a", "Left", 0, None);
    monitor.available_inputs.clear();
    assert!(monitor_entries(&monitor, &Config::new()).is_empty());
}

#[test]
fn quick_switch_follows_the_favorites_and_skips_absent_monitors() {
    let mut config = Config::new();
    config.add_favorite("b-222", 0x0F);
    config.add_favorite("gone-1", 0x11);
    config.add_favorite("a-111", 0x11);
    config.set_alias("a-111", 0x11, "Desk".to_string());
    let monitors = vec![
        data("a-111", "Left", 0, Some(InputSource::HDMI1)),
        data("b-222", "Right", 1, Some(InputSource::HDMI1)),
    ];
    let entries = quick_switch_entries(&monitors, &config);
    assert_eq!(entries.len(), 2);
    assert_eq!(entries[0].monitor_index, 1);
    assert_eq!(entries[0].input, InputSource::DisplayPort1);
    assert_eq!(entries[0].monitor_name, "Right");
    assert!(entries[0].is_favorite);
    assert!(!entries[0].is_current);
    assert_eq!(entries[0].alias, None);
    assert_eq!(entries[1].monitor_index, 0);
    assert_eq!(entries[1].input, InputSource::HDMI1);
    assert_eq!(entries[1].alias, Some("Desk".to_string()));
    assert!(entries[1].is_current);
}

#[test]
fn quick_switch_takes_the_first_monitor_with_the_identity() {
    let mut config = Config::new();
    config.add_favorite("same", 0x11);
    let monitors = vec![data("other", "A", 0, None), data("same", "B", 1, None), data("same", "C", 2, None)];
    let entries = quick_switch_entries(&monitors, &config);
    assert_eq!(entries.len(), 1);
    assert_eq!(entries[0].monitor_index, 1);
    assert_eq!(entries[0].monitor_name, "B");
}

#[test]
fn quick_switch_of_an_unnamed_code_is_the_unknown_input() {
    let mut config = Config::new();
    config.add_favorite("a", 0x30);
    config.set_alias("a", 0x30, "Odd".to_string());
    let entries = quick_switch_entries(&vec![data("a", "Left", 0, None)], &config);
    assert_eq!(entries.len(), 1);
    assert_eq!(entries[0].input, InputSource::Unknown);
    assert_eq!(entries[0].alias, None);
    assert!(!entries[0].is_favorite);
}

#[test]
fn quick_switch_without_favorites_or_monitors_is_empty() {
    let mut config = Config::new();
    assert!(quick_switch_entries(&vec![data("a", "Left", 0, None)], &config).is_empty());
    config.add_favorite("a", 0x11);
    assert!(quick_switch_entries(&Vec::new(), &config).is_empty());
}

#[test]
fn display_name_is_the_alias_or_the_label() {
    assert_eq!(entry(Some("Desk"), false, false).display_name(), "Desk");
    assert_eq!(entry(None, false, false).display_name(), "HDMI 1");
    assert_eq!(entry(Some(""), true, true).display_name(), "");
}

#[test]
fn list_labels() {
    assert_eq!(entry(None, false, false).list_label(), "HDMI 1");
    assert_eq!(entry(None, false, true).list_label(), "HDMI 1");
    assert_eq!(entry(Some("Desk"), true, false).list_label(), "\u{2b50} Desk");
    assert_eq!(entry(Some("Desk"), false, true).quick_list_label(), "Desk \u{2192} Left");
    assert_eq!(entry(None, true, false).quick_list_label(), "HDMI 1 \u{2192} Left");
}

#[test]
fn menu_labels() {
    assert_eq!(entry(None, false, false).menu_label(), "  HDMI 1");
    assert_eq!(entry(None, false, true).menu_label(), "  HDMI 1 \u{2713}");
    assert_eq!(entry(Some("Desk"), true, false).menu_label(), "  \u{2b50} Desk");
    assert_eq!(entry(Some("Desk"), true, true).menu_label(), "  \u{2b50} Desk \u{2713}");
}

#[test]
fn quick_menu_labels() {
    assert_eq!(entry(None, true, false).quick_menu_label(), "  \u{2b50} HDMI 1 (Left)");
    assert_eq!(
        entry(Some("Desk"), true, true).quick_menu_label(),
        "  \u{2b50} Desk (Left) \u{2713}"
    );
    assert_eq!(entry(None, false, true).quick_menu_label(), "  HDMI 1 (Left) \u{2713}");
}

#[test]
fn settings_labels() {
    assert_eq!(entry(Some("Desk"), true, true).settings_label(), "\u{2713} HDMI 1");
    assert_eq!(entry(Some("Desk"), true, false).settings_label(), "  HDMI 1");
}

#[test]
fn settings_with_alias_and_favorite() {
    let mut config = Config::new();
    apply_settings(&mut config, "a", InputSource::HDMI1, "Desk", true);
    assert_eq!(config.get_alias("a", 0x11), Some("Desk"));
    assert!(config.is_favorite("a", 0x11));
}

#[test]
fn settings_with_empty_alias_take_the_alias_away() {
    let mut config = Config::new();
    config.set_alias("a", 0x11, "Desk".to_string());
    config.add_favorite("a", 0x11);
    apply_settings(&mut config, "a", InputSource::HDMI1, "", false);
    assert_eq!(config.get_alias("a", 0x11), None);
    assert!(!config.is_favorite("a", 0x11));
    apply_settings(&mut config, "b", InputSource::HDMI1, "", false);
    assert!(config.monitors().iter().all(|(id, _)| id != "b"));
}

#[test]
fn settings_leave_other_inputs_alone() {
    let mut config = Config::new();
    config.set_alias("a", 0x12, "Console".to_string());
    config.add_favorite("a", 0x12);
    apply_settings(&mut config, "a", InputSource::HDMI1, "Desk", false);
    assert_eq!(config.get_alias("a", 0x12), Some("Console"));
    assert!(config.is_favorite("a", 0x12));
    assert_eq!(config.get_favorites().len(), 1);
}
