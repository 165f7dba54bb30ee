use co2_panel::c_api::{
    c_string_or_default, co2_panel_default_config, configure_outcome,
    get_value_outcome, get_value_request, limits_from_c, panel_config_from_c, poll_event_outcome,
    safe_message, set_value_outcome, set_value_request, CallOutcome, Co2PanelEvent,
    Co2PanelEventKind, Co2PanelLimits, Co2PanelStatus, Co2PanelUnitSystem, Co2PanelValueKind,
    PanelFailure,
};
use co2_panel::panel::AppState;
use co2_panel::protocol::{
    ClientMessage, EventKind, Limits, PanelConfig, PanelEvent, ServerMessage, UnitSystem,
    ValueKind,
};

fn bits(v: f32) -> u32 {
    v.to_bits()
}

#[test]
fn status_codes() {
    assert_eq!(Co2PanelStatus::Success.code(), 0);
    assert_eq!(Co2PanelStatus::Error.code(), -1);
    assert_eq!(Co2PanelStatus::NoEvent.code(), 1);
}

#[test]
fn default_c_config_gives_factory_config() {
    let c = co2_panel_default_config();
    assert_eq!(c.app_name, None);
    assert_eq!(c.socket_path, None);
    assert_eq!(c.fullscreen, 1);
    assert_eq!(c.update_interval_ms, 1000);
    assert_eq!(c.unit_system, Co2PanelUnitSystem::Metric);
    assert_eq!(c.brightness_percent, 80);
    assert_eq!(f32::from_bits(c.co2.warn), 800.0);
    assert_eq!(f32::from_bits(c.pressure.alarm), 1050.0);
    assert_eq!(panel_config_from_c(&c), PanelConfig::default());
}

#[test]
fn config_from_c_clamps_and_defaults() {
    let mut c = co2_panel_default_config();
    c.update_interval_ms = 100;
    c.brightness_percent = 200;
    c.fullscreen = 2;
    c.unit_system = Co2PanelUnitSystem::Imperial;
    c.app_name = Some("CO2 Lernpanel".to_string());
    c.co2 = Co2PanelLimits { warn: bits(700.0), alarm: bits(1100.0) };
    let p = panel_config_from_c(&c);
    assert_eq!(p.update_interval_ms, 250);
    assert_eq!(p.brightness_percent, 100);
    assert!(p.fullscreen);
    assert_eq!(p.unit_system, UnitSystem::Imperial);
    assert_eq!(p.app_name, "CO2 Lernpanel");
    assert_eq!(p.socket_path, "/tmp/co2-panel.sock");
    assert_eq!(p.co2, Limits { warn: bits(700.0), alarm: bits(1100.0) });
    c.fullscreen = 0;
    c.update_interval_ms = 250;
    c.brightness_percent = 100;
    let p = panel_config_from_c(&c);
    assert!(!p.fullscreen);
    assert_eq!(p.update_interval_ms, 250);
    assert_eq!(p.brightness_percent, 100);
    c.update_interval_ms = 5000;
    assert_eq!(panel_config_from_c(&c).update_interval_ms, 5000);
}

#[test]
fn string_or_default() {
    assert_eq!(c_string_or_default(&None, "x"), "x");
    assert_eq!(c_string_or_default(&Some("y".to_string()), "x"), "y");
}

#[test]
fn limits_keep_bits() {
    let l = limits_from_c(Co2PanelLimits { warn: bits(1.5), alarm: bits(2.5) });
    assert_eq!(l, Limits { warn: bits(1.5), alarm: bits(2.5) });
}

#[test]
fn conversions() {
    assert_eq!(ValueKind::from(Co2PanelValueKind::Co2), ValueKind::Co2);
    assert_eq!(ValueKind::from(Co2PanelValueKind::Humidity), ValueKind::Humidity);
    assert_eq!(ValueKind::from(Co2PanelValueKind::Temperature), ValueKind::Temperature);
    assert_eq!(ValueKind::from(Co2PanelValueKind::Pressure), ValueKind::Pressure);
    assert_eq!(UnitSystem::from(Co2PanelUnitSystem::Imperial), UnitSystem::Imperial);
    assert_eq!(UnitSystem::from(Co2PanelUnitSystem::Metric), UnitSystem::Metric);
    assert_eq!(Co2PanelEventKind::from(EventKind::BrightnessChanged), Co2PanelEventKind::BrightnessChanged);
    assert_eq!(Co2PanelEventKind::from(EventKind::UnitPressed), Co2PanelEventKind::UnitPressed);
    let e = Co2PanelEvent::from(PanelEvent { kind: EventKind::BuzzerChanged, value: bits(1.0) });
    assert_eq!(e, Co2PanelEvent { kind: Co2PanelEventKind::BuzzerChanged, value: bits(1.0) });
}

#[test]
fn nul_characters_become_spaces() {
    assert_eq!(safe_message("a\0b\0"), "a b ");
    assert_eq!(safe_message("Cannot write to UI: Broken pipe"), "Cannot write to UI: Broken pipe");
    assert_eq!(safe_message(""), "");
    assert_eq!(safe_message("ä\0ß"), "ä ß");
}

#[test]
fn requests() {
    assert_eq!(
        set_value_request(Co2PanelValueKind::Temperature, bits(22.5)),
        ClientMessage::SetValue { kind: ValueKind::Temperature, value: bits(22.5) }
    );
    assert_eq!(get_value_request(Co2PanelValueKind::Co2), ClientMessage::GetValue { kind: ValueKind::Co2 });
}

#[test]
fn set_value_outcomes() {
    assert_eq!(
        set_value_outcome(Ok(ServerMessage::Ack)),
        CallOutcome { status: Co2PanelStatus::Success, output: None, failure: None }
    );
    let o = set_value_outcome(Ok(ServerMessage::Event { event: None }));
    assert_eq!(o.status, Co2PanelStatus::Error);
    assert_eq!(
        o.failure,
        Some(PanelFailure::UnexpectedResponse { response: ServerMessage::Event { event: None } })
    );
    let o = set_value_outcome(Err("Cannot write to UI: broken".to_string()));
    assert_eq!(o.status, Co2PanelStatus::Error);
    assert_eq!(o.failure, Some(PanelFailure::Transport { message: "Cannot write to UI: broken".to_string() }));
}

#[test]
fn get_value_outcomes() {
    let o = get_value_outcome(Ok(ServerMessage::Value { kind: ValueKind::Co2, value: Some(bits(820.0)) }));
    assert_eq!(o, CallOutcome { status: Co2PanelStatus::Success, output: Some(bits(820.0)), failure: None });
    let o = get_value_outcome(Ok(ServerMessage::Value { kind: ValueKind::Co2, value: None }));
    assert_eq!(o, CallOutcome { status: Co2PanelStatus::Error, output: None, failure: Some(PanelFailure::ValueUnavailable) });
    let o = get_value_outcome(Ok(ServerMessage::Ack));
    assert_eq!(o.failure, Some(PanelFailure::UnexpectedResponse { response: ServerMessage::Ack }));
    let o = get_value_outcome(Err("x".to_string()));
    assert_eq!(o.status, Co2PanelStatus::Error);
}

#[test]
fn poll_event_outcomes() {
    let ev = PanelEvent { kind: EventKind::UpPressed, value: bits(85.0) };
    let o = poll_event_outcome(Ok(ServerMessage::Event { event: Some(ev) }));
    assert_eq!(o.status, Co2PanelStatus::Success);
    assert_eq!(o.output, Some(Co2PanelEvent { kind: Co2PanelEventKind::UpPressed, value: bits(85.0) }));
    let o = poll_event_outcome(Ok(ServerMessage::Event { event: None }));
    assert_eq!(o, CallOutcome { status: Co2PanelStatus::NoEvent, output: None, failure: None });
    let o = poll_event_outcome(Ok(ServerMessage::Error { message: "Cannot decode request".to_string() }));
    assert_eq!(o.status, Co2PanelStatus::Error);
    let o = poll_event_outcome(Err("timeout".to_string()));
    assert_eq!(o.failure, Some(PanelFailure::Transport { message: "timeout".to_string() }));
}

#[test]
fn configure_outcomes() {
    assert_eq!(configure_outcome(Ok(ServerMessage::Ack)).status, Co2PanelStatus::Success);
    assert_eq!(configure_outcome(Ok(ServerMessage::Ack)).failure, None);
    let o = configure_outcome(Ok(ServerMessage::Value { kind: ValueKind::Co2, value: None }));
    assert_eq!(o.status, Co2PanelStatus::Error);
    assert_eq!(configure_outcome(Err("Cannot read UI response".to_string())).status, Co2PanelStatus::Error);
}

#[test]
fn c_round_trip_through_panel() {
    let mut s = AppState::default();
    let (reply, _) = s.handle_message(set_value_request(Co2PanelValueKind::Pressure, bits(1012.0)));
    assert_eq!(set_value_outcome(Ok(reply)).status, Co2PanelStatus::Success);
    let (reply, _) = s.handle_message(get_value_request(Co2PanelValueKind::Pressure));
    assert_eq!(get_value_outcome(Ok(reply)).output, Some(bits(1012.0)));
    let (reply, _) = s.handle_message(ClientMessage::GetEvent);
    assert_eq!(poll_event_outcome(Ok(reply)).status, Co2PanelStatus::NoEvent);
}
