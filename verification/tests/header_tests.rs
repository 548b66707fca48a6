use basic_plugin::header::preset_options;
use basic_plugin::header::HeaderState;

#[test]
fn fresh_header_shows_the_default_preset() {
    let h = HeaderState::new();
    assert_eq!(h.as_string(), "Default");
}

#[test]
fn picking_a_preset_updates_the_header() {
    let mut h = HeaderState::new();
    h.select_preset("Preset-2".to_string());
    assert_eq!(h.as_string(), "Preset-2");
}

#[test]
fn the_picker_offers_three_presets() {
    let options = preset_options();
    assert_eq!(options, vec!["Default", "Preset-1", "Preset-2"]);
}
