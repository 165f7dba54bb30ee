use co2_panel::panel::{
    bool_value, get_value, set_value, AppState, EditTarget, Measurements, MAX_EVENTS,
};
use co2_panel::protocol::{
    ClientMessage, EventKind, Limits, PanelConfig, PanelEvent, ServerMessage, UnitSystem,
    ValueKind,
};

fn bits(v: f32) -> u32 {
    v.to_bits()
}

fn drain(state: &mut AppState) -> Vec<PanelEvent> {
    let mut out = Vec::new();
    loop {
        match state.handle_message(ClientMessage::GetEvent).0 {
            ServerMessage::Event { event: Some(e) } => out.push(e),
            ServerMessage::Event { event: None } => return out,
            other => panic!("unexpected {:?}", other),
        }
    }
}

#[test]
fn initial_state_matches_factory_config() {
    let s = AppState::default();
    assert_eq!(s.unit_system, UnitSystem::Metric);
    assert_eq!(s.brightness_percent, 80);
    assert!(!s.buzzer_enabled);
    assert_eq!(s.edit_target, EditTarget::Units);
    assert!(s.events.is_empty());
    assert_eq!(s.values, Measurements::default());
    assert_eq!(s.config, PanelConfig::default());
}

#[test]
fn set_then_get_value() {
    let mut m = Measurements::default();
    assert_eq!(get_value(&m, ValueKind::Co2), None);
    set_value(&mut m, ValueKind::Co2, bits(820.0));
    set_value(&mut m, ValueKind::Temperature, bits(22.5));
    assert_eq!(get_value(&m, ValueKind::Co2), Some(bits(820.0)));
    assert_eq!(get_value(&m, ValueKind::Temperature), Some(bits(22.5)));
    assert_eq!(get_value(&m, ValueKind::Humidity), None);
    assert_eq!(get_value(&m, ValueKind::Pressure), None);
    set_value(&mut m, ValueKind::Co2, bits(900.0));
    assert_eq!(get_value(&m, ValueKind::Co2), Some(bits(900.0)));
}

#[test]
fn messages_set_and_get_values() {
    let mut s = AppState::default();
    let (r, b) = s.handle_message(ClientMessage::GetValue { kind: ValueKind::Humidity });
    assert_eq!(r, ServerMessage::Value { kind: ValueKind::Humidity, value: None });
    assert_eq!(b, None);
    let (r, b) = s.handle_message(ClientMessage::SetValue { kind: ValueKind::Humidity, value: bits(48.0) });
    assert_eq!(r, ServerMessage::Ack);
    assert_eq!(b, None);
    let (r, _) = s.handle_message(ClientMessage::GetValue { kind: ValueKind::Humidity });
    assert_eq!(r, ServerMessage::Value { kind: ValueKind::Humidity, value: Some(bits(48.0)) });
    let (r, _) = s.handle_message(ClientMessage::GetValue { kind: ValueKind::Pressure });
    assert_eq!(r, ServerMessage::Value { kind: ValueKind::Pressure, value: None });
}

#[test]
fn configure_takes_units_and_brightness() {
    let mut s = AppState::default();
    let mut config = PanelConfig::default();
    config.unit_system = UnitSystem::Imperial;
    config.brightness_percent = 40;
    config.app_name = "Lernpanel".to_string();
    config.co2 = Limits { warn: bits(700.0), alarm: bits(1000.0) };
    let (r, b) = s.handle_message(ClientMessage::Configure { config: config.clone() });
    assert_eq!(r, ServerMessage::Ack);
    assert_eq!(b, Some(40));
    assert_eq!(s.unit_system, UnitSystem::Imperial);
    assert_eq!(s.brightness_percent, 40);
    assert_eq!(s.config, config);
}

#[test]
fn get_event_when_empty() {
    let mut s = AppState::default();
    let (r, b) = s.handle_message(ClientMessage::GetEvent);
    assert_eq!(r, ServerMessage::Event { event: None });
    assert_eq!(b, None);
}

#[test]
fn event_queue_keeps_newest_events() {
    let mut s = AppState::default();
    for i in 0..40u8 {
        s.push_event(EventKind::UpPressed, i as u32);
        assert!(s.events.len() <= MAX_EVENTS);
    }
    assert_eq!(s.events.len(), 32);
    let events = drain(&mut s);
    assert_eq!(events.len(), 32);
    for (i, e) in events.iter().enumerate() {
        assert_eq!(e.value, (i + 8) as u32);
    }
}

#[test]
fn unit_button_switches_target_and_reports() {
    let mut s = AppState::default();
    s.press_unit();
    assert_eq!(s.edit_target, EditTarget::Brightness);
    s.press_unit();
    assert_eq!(s.edit_target, EditTarget::Units);
    let events = drain(&mut s);
    assert_eq!(
        events,
        vec![
            PanelEvent { kind: EventKind::UnitPressed, value: bits(80.0) },
            PanelEvent { kind: EventKind::UnitPressed, value: bits(0.0) },
        ]
    );
}

#[test]
fn buzzer_button_reports_twice() {
    let mut s = AppState::default();
    s.press_buzzer();
    assert!(s.buzzer_enabled);
    s.press_buzzer();
    assert!(!s.buzzer_enabled);
    let events = drain(&mut s);
    assert_eq!(
        events,
        vec![
            PanelEvent { kind: EventKind::BuzzerPressed, value: bits(1.0) },
            PanelEvent { kind: EventKind::BuzzerChanged, value: bits(1.0) },
            PanelEvent { kind: EventKind::BuzzerPressed, value: bits(0.0) },
            PanelEvent { kind: EventKind::BuzzerChanged, value: bits(0.0) },
        ]
    );
}

#[test]
fn up_down_switch_units() {
    let mut s = AppState::default();
    assert_eq!(s.press_up(), None);
    assert_eq!(s.unit_system, UnitSystem::Imperial);
    assert_eq!(s.press_down(), None);
    assert_eq!(s.unit_system, UnitSystem::Metric);
    let events = drain(&mut s);
    assert_eq!(
        events,
        vec![
            PanelEvent { kind: EventKind::UnitSystemChanged, value: bits(1.0) },
            PanelEvent { kind: EventKind::UpPressed, value: bits(1.0) },
            PanelEvent { kind: EventKind::UnitSystemChanged, value: bits(0.0) },
            PanelEvent { kind: EventKind::DownPressed, value: bits(0.0) },
        ]
    );
}

#[test]
fn up_down_step_brightness_within_bounds() {
    let mut s = AppState::default();
    s.press_unit();
    drain(&mut s);
    assert_eq!(s.press_up(), Some(85));
    assert_eq!(s.brightness_percent, 85);
    assert_eq!(
        drain(&mut s),
        vec![
            PanelEvent { kind: EventKind::BrightnessChanged, value: bits(85.0) },
            PanelEvent { kind: EventKind::UpPressed, value: bits(85.0) },
        ]
    );
    for _ in 0..10 {
        s.press_up();
    }
    assert_eq!(s.brightness_percent, 100);
    for _ in 0..30 {
        s.press_down();
    }
    assert_eq!(s.brightness_percent, 10);
    assert_eq!(s.press_up(), Some(15));
    assert_eq!(s.press_down(), Some(10));
}

#[test]
fn adjust_from_below_range_clamps_up() {
    let mut s = AppState::default();
    let mut config = PanelConfig::default();
    config.brightness_percent = 3;
    s.handle_message(ClientMessage::Configure { config });
    s.edit_target = EditTarget::Brightness;
    assert_eq!(s.adjust_selected_setting(1), Some(10));
    assert_eq!(s.adjust_selected_setting(-1), Some(10));
}

#[test]
fn target_value_follows_selection() {
    let mut s = AppState::default();
    assert_eq!(s.target_value(), bits(0.0));
    s.unit_system = UnitSystem::Imperial;
    assert_eq!(s.target_value(), bits(1.0));
    s.edit_target = EditTarget::Brightness;
    s.brightness_percent = 55;
    assert_eq!(s.target_value(), bits(55.0));
}

#[test]
fn bool_value_is_one_or_zero() {
    assert_eq!(f32::from_bits(bool_value(true)), 1.0);
    assert_eq!(f32::from_bits(bool_value(false)), 0.0);
}
