use co2_panel::protocol::{
    byte_to_f32_bits, encode_line, EventKind, PanelConfig, PanelEvent, UnitSystem,
    DEFAULT_SOCKET_PATH,
};

#[test]
fn byte_bits_match_f32_for_every_byte() {
    for n in 0..=255u8 {
        assert_eq!(byte_to_f32_bits(n), (n as f32).to_bits(), "byte {}", n);
    }
}

#[test]
fn byte_bits_exact_values() {
    assert_eq!(byte_to_f32_bits(0), 0);
    assert_eq!(byte_to_f32_bits(1), 0x3F80_0000);
    assert_eq!(byte_to_f32_bits(100), 0x42C8_0000);
    assert_eq!(f32::from_bits(byte_to_f32_bits(85)), 85.0);
}

#[test]
fn default_config_is_factory_setting() {
    let c = PanelConfig::default();
    assert_eq!(c.app_name, "CO2 Panel");
    assert_eq!(c.socket_path, DEFAULT_SOCKET_PATH);
    assert_eq!(c.socket_path, "/tmp/co2-panel.sock");
    assert!(c.fullscreen);
    assert_eq!(c.update_interval_ms, 1000);
    assert_eq!(c.unit_system, UnitSystem::Metric);
    assert_eq!(c.brightness_percent, 80);
    assert_eq!(f32::from_bits(c.co2.warn), 800.0);
    assert_eq!(f32::from_bits(c.co2.alarm), 1200.0);
    assert_eq!(f32::from_bits(c.humidity.warn), 65.0);
    assert_eq!(f32::from_bits(c.humidity.alarm), 80.0);
    assert_eq!(f32::from_bits(c.temperature.warn), 28.0);
    assert_eq!(f32::from_bits(c.temperature.alarm), 35.0);
    assert_eq!(f32::from_bits(c.pressure.warn), 1030.0);
    assert_eq!(f32::from_bits(c.pressure.alarm), 1050.0);
}

#[test]
fn encode_line_appends_newline() {
    assert_eq!(encode_line("{\"type\":\"get_event\"}"), "{\"type\":\"get_event\"}\n");
    assert_eq!(encode_line(""), "\n");
}

#[test]
fn panel_event_keeps_value_bits() {
    let e = PanelEvent { kind: EventKind::BrightnessChanged, value: 55.0f32.to_bits() };
    assert_eq!(f32::from_bits(e.value), 55.0);
}
