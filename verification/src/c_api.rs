use vstd::prelude::*;
use vstd::std_specs::convert::FromSpecImpl;
use crate::protocol::{
    default_config, ClientMessage, EventKind, Limits, PanelConfig, PanelConfigView, PanelEvent,
    ServerMessage, UnitSystem, ValueKind, DEFAULT_SOCKET_PATH,
};
use crate::panel::{after_message, answer, initial_state, AppStateView};
use crate::text::push_char;

verus! {

/// What a C call reports (the C values are 0, -1 and 1).
#[derive(Clone, Copy, Debug, PartialEq, Eq, Structural)]
pub enum Co2PanelStatus {
    Success,
    Error,
    NoEvent,
}

impl Co2PanelStatus {
    /// The number that C sees: 0 for success, -1 for an error, 1 when no
    /// event is waiting.
    pub fn code(self) -> (code: i32)
        ensures
            code == (match self {
                Co2PanelStatus::Success => 0i32,
                Co2PanelStatus::Error => -1i32,
                Co2PanelStatus::NoEvent => 1i32,
            }),
    {
        match self {
            Co2PanelStatus::Success => 0,
            Co2PanelStatus::Error => -1,
            Co2PanelStatus::NoEvent => 1,
        }
    }
}

/// A measurement as C names it.
#[derive(Clone, Copy, Debug, PartialEq, Eq, Structural)]
pub enum Co2PanelValueKind {
    Co2,
    Humidity,
    Temperature,
    Pressure,
}

/// A unit system as C names it.
#[derive(Clone, Copy, Debug, PartialEq, Eq, Structural)]
pub enum Co2PanelUnitSystem {
    Metric,
    Imperial,
}

/// A touch event as C names it.
#[derive(Clone, Copy, Debug, PartialEq, Eq, Structural)]
pub enum Co2PanelEventKind {
    UnitPressed,
    UpPressed,
    DownPressed,
    BuzzerPressed,
    UnitSystemChanged,
    BuzzerChanged,
    BrightnessChanged,
}

/// Thresholds as C passes them (`f32` bit patterns).
#[derive(Clone, Copy, Debug, PartialEq, Eq, Structural)]
pub struct Co2PanelLimits {
    pub warn: u32,
    pub alarm: u32,
}

/// A touch event as C receives it (the value an `f32` bit pattern).
#[derive(Clone, Copy, Debug, PartialEq, Eq, Structural)]
pub struct Co2PanelEvent {
    pub kind: Co2PanelEventKind,
    pub value: u32,
}

/// The configuration as a C program fills it in; a name that C leaves as a
/// null pointer is `None`.
#[derive(Clone, Debug, PartialEq, Eq)]
pub struct Co2PanelConfig {
    pub app_name: Option<String>,
    pub socket_path: Option<String>,
    pub fullscreen: u8,
    pub update_interval_ms: u32,
    pub unit_system: Co2PanelUnitSystem,
    pub brightness_percent: u8,
    pub co2: Co2PanelLimits,
    pub humidity: Co2PanelLimits,
    pub temperature: Co2PanelLimits,
    pub pressure: Co2PanelLimits,
}

/// The configuration that C starts from: no names (so the defaults apply),
/// full screen, one update per second, metric units, 80 % brightness and
/// the factory limits.
pub open spec fn default_c_config_holds(c: Co2PanelConfig) -> bool {
    &&& c.app_name is None
    &&& c.socket_path is None
    &&& c.fullscreen == 1
    &&& c.update_interval_ms == 1000
    &&& c.unit_system == Co2PanelUnitSystem::Metric
    &&& c.brightness_percent == 80
    &&& c.co2 == (Co2PanelLimits { warn: 0x4448_0000, alarm: 0x4496_0000 })
    &&& c.humidity == (Co2PanelLimits { warn: 0x4282_0000, alarm: 0x42A0_0000 })
    &&& c.temperature == (Co2PanelLimits { warn: 0x41E0_0000, alarm: 0x420C_0000 })
    &&& c.pressure == (Co2PanelLimits { warn: 0x4480_C000, alarm: 0x4483_4000 })
}

/// The default configuration for C programs.
pub fn co2_panel_default_config() -> (config: Co2PanelConfig)
    ensures
        default_c_config_holds(config),
{
    Co2PanelConfig {
        app_name: None,
        socket_path: None,
        fullscreen: 1,
        update_interval_ms: 1000,
        unit_system: Co2PanelUnitSystem::Metric,
        brightness_percent: 80,
        co2: Co2PanelLimits { warn: 0x4448_0000, alarm: 0x4496_0000 },
        humidity: Co2PanelLimits { warn: 0x4282_0000, alarm: 0x42A0_0000 },
        temperature: Co2PanelLimits { warn: 0x41E0_0000, alarm: 0x420C_0000 },
        pressure: Co2PanelLimits { warn: 0x4480_C000, alarm: 0x4483_4000 },
    }
}

/// A name given by C, or the default when C gave none.
pub open spec fn text_or_default(value: Option<String>, default: Seq<char>) -> Seq<char> {
    match value {
        Some(s) => s@,
        None => default,
    }
}

/// Takes a name given by C, or the default when C gave none.
pub fn c_string_or_default(value: &Option<String>, default: &str) -> (text: String)
    ensures
        text@ == text_or_default(*value, default@),
        value matches Some(given) ==> text@ == given@,
        value is None ==> text@ == default@,
{
    match value {
        Some(s) => s.clone(),
        None => String::from_str(default),
    }
}

/// The thresholds in the protocol's form.
pub fn limits_from_c(limits: Co2PanelLimits) -> (converted: Limits)
    ensures
        converted == (Limits { warn: limits.warn, alarm: limits.alarm }),
{
    Limits { warn: limits.warn, alarm: limits.alarm }
}

/// The protocol's unit system for a C unit system.
pub open spec fn unit_system_of(u: Co2PanelUnitSystem) -> UnitSystem {
    match u {
        Co2PanelUnitSystem::Metric => UnitSystem::Metric,
        Co2PanelUnitSystem::Imperial => UnitSystem::Imperial,
    }
}

/// The protocol's measurement for a C measurement.
pub open spec fn value_kind_of(k: Co2PanelValueKind) -> ValueKind {
    match k {
        Co2PanelValueKind::Co2 => ValueKind::Co2,
        Co2PanelValueKind::Humidity => ValueKind::Humidity,
        Co2PanelValueKind::Temperature => ValueKind::Temperature,
        Co2PanelValueKind::Pressure => ValueKind::Pressure,
    }
}

/// C's name for a protocol event.
pub open spec fn c_event_kind_of(k: EventKind) -> Co2PanelEventKind {
    match k {
        EventKind::UnitPressed => Co2PanelEventKind::UnitPressed,
        EventKind::UpPressed => Co2PanelEventKind::UpPressed,
        EventKind::DownPressed => Co2PanelEventKind::DownPressed,
        EventKind::BuzzerPressed => Co2PanelEventKind::BuzzerPressed,
        EventKind::UnitSystemChanged => Co2PanelEventKind::UnitSystemChanged,
        EventKind::BuzzerChanged => Co2PanelEventKind::BuzzerChanged,
        EventKind::BrightnessChanged => Co2PanelEventKind::BrightnessChanged,
    }
}

/// The configuration that the panel receives for a C configuration: missing
/// names take the defaults, any nonzero `fullscreen` means full screen, the
/// update interval is at least 250 ms and the brightness at most 100 %.
pub open spec fn config_from_c(c: Co2PanelConfig) -> PanelConfigView {
    PanelConfigView {
        app_name: text_or_default(c.app_name, default_config().app_name),
        socket_path: text_or_default(c.socket_path, DEFAULT_SOCKET_PATH@),
        fullscreen: c.fullscreen != 0,
        update_interval_ms: if c.update_interval_ms < 250 { 250 } else { c.update_interval_ms },
        unit_system: unit_system_of(c.unit_system),
        brightness_percent: if c.brightness_percent > 100 { 100 } else { c.brightness_percent },
        co2: Limits { warn: c.co2.warn, alarm: c.co2.alarm },
        humidity: Limits { warn: c.humidity.warn, alarm: c.humidity.alarm },
        temperature: Limits { warn: c.temperature.warn, alarm: c.temperature.alarm },
        pressure: Limits { warn: c.pressure.warn, alarm: c.pressure.alarm },
    }
}

/// Turns a C configuration into the one that the panel receives.
pub fn panel_config_from_c(config: &Co2PanelConfig) -> (panel_config: PanelConfig)
    ensures
        panel_config@ == config_from_c(*config),
        config.app_name matches Some(name) ==> panel_config.app_name@ == name@,
        config.app_name is None ==> panel_config.app_name@ == "CO2 Panel"@,
        config.socket_path matches Some(path) ==> panel_config.socket_path@ == path@,
        config.socket_path is None ==> panel_config.socket_path@ == DEFAULT_SOCKET_PATH@,
        panel_config.fullscreen == (config.fullscreen != 0),
        panel_config.update_interval_ms >= 250,
        config.update_interval_ms >= 250 ==> panel_config.update_interval_ms == config.update_interval_ms,
        config.update_interval_ms < 250 ==> panel_config.update_interval_ms == 250,
        panel_config.brightness_percent <= 100,
        config.brightness_percent <= 100 ==> panel_config.brightness_percent == config.brightness_percent,
        config.brightness_percent > 100 ==> panel_config.brightness_percent == 100,
        config.unit_system == Co2PanelUnitSystem::Metric ==> panel_config.unit_system == UnitSystem::Metric,
        config.unit_system == Co2PanelUnitSystem::Imperial ==> panel_config.unit_system == UnitSystem::Imperial,
        panel_config.co2 == (Limits { warn: config.co2.warn, alarm: config.co2.alarm }),
        panel_config.humidity == (Limits { warn: config.humidity.warn, alarm: config.humidity.alarm }),
        panel_config.temperature == (Limits { warn: config.temperature.warn, alarm: config.temperature.alarm }),
        panel_config.pressure == (Limits { warn: config.pressure.warn, alarm: config.pressure.alarm }),
{
    let default = PanelConfig::default();
    PanelConfig {
        app_name: c_string_or_default(&config.app_name, default.app_name.as_str()),
        socket_path: c_string_or_default(&config.socket_path, DEFAULT_SOCKET_PATH),
        fullscreen: config.fullscreen != 0,
        update_interval_ms: if config.update_interval_ms < 250 {
            250
        } else {
            config.update_interval_ms
        },
        unit_system: UnitSystem::from(config.unit_system),
        brightness_percent: if config.brightness_percent > 100 {
            100
        } else {
            config.brightness_percent
        },
        co2: limits_from_c(config.co2),
        humidity: limits_from_c(config.humidity),
        temperature: limits_from_c(config.temperature),
        pressure: limits_from_c(config.pressure),
    }
}

/// The C default configuration turns into the panel's factory
/// configuration.
pub proof fn lemma_default_configs_agree(c: Co2PanelConfig)
    requires
        default_c_config_holds(c),
    ensures
        config_from_c(c) == default_config(),
{
}

/// Whatever C passes, the panel receives an update interval of at least
/// 250 ms and a brightness of at most 100 %.
pub proof fn lemma_config_from_c_in_range(c: Co2PanelConfig)
    ensures
        config_from_c(c).update_interval_ms >= 250,
        config_from_c(c).brightness_percent <= 100,
{
}

impl From<Co2PanelValueKind> for ValueKind {
    fn from(kind: Co2PanelValueKind) -> (converted: Self)
        ensures
            kind == Co2PanelValueKind::Co2 ==> converted == ValueKind::Co2,
            kind == Co2PanelValueKind::Humidity ==> converted == ValueKind::Humidity,
            kind == Co2PanelValueKind::Temperature ==> converted == ValueKind::Temperature,
            kind == Co2PanelValueKind::Pressure ==> converted == ValueKind::Pressure,
    {
        match kind {
            Co2PanelValueKind::Co2 => ValueKind::Co2,
            Co2PanelValueKind::Humidity => ValueKind::Humidity,
            Co2PanelValueKind::Temperature => ValueKind::Temperature,
            Co2PanelValueKind::Pressure => ValueKind::Pressure,
        }
    }
}

impl FromSpecImpl<Co2PanelValueKind> for ValueKind {
    open spec fn obeys_from_spec() -> bool {
        true
    }

    open spec fn from_spec(kind: Co2PanelValueKind) -> Self {
        value_kind_of(kind)
    }
}

impl From<Co2PanelUnitSystem> for UnitSystem {
    fn from(unit_system: Co2PanelUnitSystem) -> (converted: Self)
        ensures
            unit_system == Co2PanelUnitSystem::Metric ==> converted == UnitSystem::Metric,
            unit_system == Co2PanelUnitSystem::Imperial ==> converted == UnitSystem::Imperial,
    {
        match unit_system {
            Co2PanelUnitSystem::Metric => UnitSystem::Metric,
            Co2PanelUnitSystem::Imperial => UnitSystem::Imperial,
        }
    }
}

impl FromSpecImpl<Co2PanelUnitSystem> for UnitSystem {
    open spec fn obeys_from_spec() -> bool {
        true
    }

    open spec fn from_spec(unit_system: Co2PanelUnitSystem) -> Self {
        unit_system_of(unit_system)
    }
}

impl From<EventKind> for Co2PanelEventKind {
    fn from(kind: EventKind) -> (converted: Self)
        ensures
            kind == EventKind::UnitPressed ==> converted == Co2PanelEventKind::UnitPressed,
            kind == EventKind::UpPressed ==> converted == Co2PanelEventKind::UpPressed,
            kind == EventKind::DownPressed ==> converted == Co2PanelEventKind::DownPressed,
            kind == EventKind::BuzzerPressed ==> converted == Co2PanelEventKind::BuzzerPressed,
            kind == EventKind::UnitSystemChanged ==> converted == Co2PanelEventKind::UnitSystemChanged,
            kind == EventKind::BuzzerChanged ==> converted == Co2PanelEventKind::BuzzerChanged,
            kind == EventKind::BrightnessChanged ==> converted == Co2PanelEventKind::BrightnessChanged,
    {
        match kind {
            EventKind::UnitPressed => Co2PanelEventKind::UnitPressed,
            EventKind::UpPressed => Co2PanelEventKind::UpPressed,
            EventKind::DownPressed => Co2PanelEventKind::DownPressed,
            EventKind::BuzzerPressed => Co2PanelEventKind::BuzzerPressed,
            EventKind::UnitSystemChanged => Co2PanelEventKind::UnitSystemChanged,
            EventKind::BuzzerChanged => Co2PanelEventKind::BuzzerChanged,
            EventKind::BrightnessChanged => Co2PanelEventKind::BrightnessChanged,
        }
    }
}

impl FromSpecImpl<EventKind> for Co2PanelEventKind {
    open spec fn obeys_from_spec() -> bool {
        true
    }

    open spec fn from_spec(kind: EventKind) -> Self {
        c_event_kind_of(kind)
    }
}

impl From<PanelEvent> for Co2PanelEvent {
    fn from(event: PanelEvent) -> (converted: Self)
        ensures
            converted.value == event.value,
            event.kind == EventKind::UnitPressed ==> converted.kind == Co2PanelEventKind::UnitPressed,
            event.kind == EventKind::UpPressed ==> converted.kind == Co2PanelEventKind::UpPressed,
            event.kind == EventKind::DownPressed ==> converted.kind == Co2PanelEventKind::DownPressed,
            event.kind == EventKind::BuzzerPressed ==> converted.kind == Co2PanelEventKind::BuzzerPressed,
            event.kind == EventKind::UnitSystemChanged ==> converted.kind
                == Co2PanelEventKind::UnitSystemChanged,
            event.kind == EventKind::BuzzerChanged ==> converted.kind == Co2PanelEventKind::BuzzerChanged,
            event.kind == EventKind::BrightnessChanged ==> converted.kind
                == Co2PanelEventKind::BrightnessChanged,
    {
        Co2PanelEvent { kind: Co2PanelEventKind::from(event.kind), value: event.value }
    }
}

impl FromSpecImpl<PanelEvent> for Co2PanelEvent {
    open spec fn obeys_from_spec() -> bool {
        true
    }

    open spec fn from_spec(event: PanelEvent) -> Self {
        Co2PanelEvent { kind: c_event_kind_of(event.kind), value: event.value }
    }
}

} // verus!

verus! {

/// `text` with every NUL character replaced by a space, so that it can be
/// handed to C as a NUL-terminated string.
pub open spec fn without_nul(text: Seq<char>) -> Seq<char> {
    text.map_values(|c: char| if c == '\0' { ' ' } else { c })
}

/// A sanitized message has the same length as the original, holds no NUL
/// character, and keeps every other character in place.
pub proof fn lemma_without_nul(text: Seq<char>)
    ensures
        without_nul(text).len() == text.len(),
        forall|i: int| 0 <= i < text.len() ==> without_nul(text)[i] != '\0',
        forall|i: int| 0 <= i < text.len() && text[i] == '\0' ==> without_nul(text)[i] == ' ',
        forall|i: int| 0 <= i < text.len() && text[i] != '\0' ==> without_nul(text)[i] == text[i],
{
}

/// Replaces NUL characters in an error message by spaces.
pub fn safe_message(message: &str) -> (safe: String)
    ensures
        safe@ == without_nul(message@),
{
    broadcast use vstd::string::group_string_axioms;
    let mut safe = String::new();
    for c in it: message.chars()
        invariant
            it.seq() == message@,
            safe@ == without_nul(message@.take(it.index() as int)),
    {
        let replaced = if c == '\0' { ' ' } else { c };
        push_char(&mut safe, replaced);
        assert(message@.take(it.index() + 1) == message@.take(it.index() as int).push(c));
        assert(safe@ =~= without_nul(message@.take(it.index() + 1)));
    }
    assert(message@.take(message@.len() as int) =~= message@);
    safe
}

} // verus!

verus! {

/// Why a C call did not succeed.
#[derive(Clone, Debug, PartialEq, Eq)]
pub enum PanelFailure {
    /// Talking to the panel failed; the text says how.
    Transport { message: String },
    /// The panel answered with a message that does not fit the request.
    UnexpectedResponse { response: ServerMessage },
    /// The panel has not received a value of that kind yet.
    ValueUnavailable,
}

/// What a C call reports: its status, what it writes to the caller's
/// output location (if anything), and the failure that becomes the panel's
/// last error (if any).
#[derive(Clone, Debug, PartialEq, Eq)]
pub struct CallOutcome<T> {
    pub status: Co2PanelStatus,
    pub output: Option<T>,
    pub failure: Option<PanelFailure>,
}

/// A successful call that writes `output`.
pub open spec fn succeeded<T>(output: Option<T>) -> CallOutcome<T> {
    CallOutcome { status: Co2PanelStatus::Success, output, failure: None }
}

/// A failed call.
pub open spec fn failed<T>(failure: PanelFailure) -> CallOutcome<T> {
    CallOutcome { status: Co2PanelStatus::Error, output: None, failure: Some(failure) }
}

/// The failure for an exchange that went wrong or an answer that does not
/// fit.
pub open spec fn mismatch<T>(reply: Result<ServerMessage, String>) -> CallOutcome<T> {
    match reply {
        Ok(response) => failed(PanelFailure::UnexpectedResponse { response }),
        Err(message) => failed(PanelFailure::Transport { message }),
    }
}

/// `set_value` succeeds exactly when the panel acknowledges.
pub open spec fn set_value_result(reply: Result<ServerMessage, String>) -> CallOutcome<()> {
    match reply {
        Ok(ServerMessage::Ack) => succeeded(None),
        _ => mismatch(reply),
    }
}

/// `get_value` succeeds and writes the value exactly when the panel answers
/// with a value; an answer without one is `ValueUnavailable`.
pub open spec fn get_value_result(reply: Result<ServerMessage, String>) -> CallOutcome<u32> {
    match reply {
        Ok(ServerMessage::Value { value: Some(v), .. }) => succeeded(Some(v)),
        Ok(ServerMessage::Value { value: None, .. }) => failed(PanelFailure::ValueUnavailable),
        _ => mismatch(reply),
    }
}

/// `poll_event` succeeds and writes the event when the panel hands one out,
/// reports `NoEvent` when the panel has none, and fails otherwise.
pub open spec fn poll_event_result(reply: Result<ServerMessage, String>) -> CallOutcome<Co2PanelEvent> {
    match reply {
        Ok(ServerMessage::Event { event: Some(e) }) => succeeded(
            Some(Co2PanelEvent { kind: c_event_kind_of(e.kind), value: e.value }),
        ),
        Ok(ServerMessage::Event { event: None }) => CallOutcome {
            status: Co2PanelStatus::NoEvent,
            output: None,
            failure: None,
        },
        _ => mismatch(reply),
    }
}

/// Connecting succeeds exactly when the panel acknowledges the
/// configuration.
pub open spec fn configure_result(reply: Result<ServerMessage, String>) -> CallOutcome<()> {
    match reply {
        Ok(ServerMessage::Ack) => succeeded(None),
        _ => mismatch(reply),
    }
}

fn mismatch_outcome<T>(reply: Result<ServerMessage, String>) -> (outcome: CallOutcome<T>)
    ensures
        outcome == mismatch::<T>(reply),
{
    match reply {
        Ok(response) => CallOutcome {
            status: Co2PanelStatus::Error,
            output: None,
            failure: Some(PanelFailure::UnexpectedResponse { response }),
        },
        Err(message) => CallOutcome {
            status: Co2PanelStatus::Error,
            output: None,
            failure: Some(PanelFailure::Transport { message }),
        },
    }
}

/// The request that `co2_panel_set_value` sends.
pub fn set_value_request(kind: Co2PanelValueKind, value: u32) -> (request: ClientMessage)
    ensures
        request == (ClientMessage::SetValue { kind: value_kind_of(kind), value }),
{
    ClientMessage::SetValue { kind: ValueKind::from(kind), value }
}

/// The request that `co2_panel_get_value` sends.
pub fn get_value_request(kind: Co2PanelValueKind) -> (request: ClientMessage)
    ensures
        request == (ClientMessage::GetValue { kind: value_kind_of(kind) }),
{
    ClientMessage::GetValue { kind: ValueKind::from(kind) }
}

/// What `co2_panel_set_value` reports for the panel's reply.
pub fn set_value_outcome(reply: Result<ServerMessage, String>) -> (outcome: CallOutcome<()>)
    ensures
        outcome == set_value_result(reply),
{
    match reply {
        Ok(ServerMessage::Ack) => CallOutcome {
            status: Co2PanelStatus::Success,
            output: None,
            failure: None,
        },
        _ => mismatch_outcome(reply),
    }
}

/// What `co2_panel_get_value` reports for the panel's reply.
pub fn get_value_outcome(reply: Result<ServerMessage, String>) -> (outcome: CallOutcome<u32>)
    ensures
        outcome == get_value_result(reply),
{
    match reply {
        Ok(ServerMessage::Value { value: Some(v), .. }) => CallOutcome {
            status: Co2PanelStatus::Success,
            output: Some(v),
            failure: None,
        },
        Ok(ServerMessage::Value { value: None, .. }) => CallOutcome {
            status: Co2PanelStatus::Error,
            output: None,
            failure: Some(PanelFailure::ValueUnavailable),
        },
        _ => mismatch_outcome(reply),
    }
}

/// What `co2_panel_poll_event` reports for the panel's reply.
pub fn poll_event_outcome(reply: Result<ServerMessage, String>) -> (outcome: CallOutcome<Co2PanelEvent>)
    ensures
        outcome == poll_event_result(reply),
{
    match reply {
        Ok(ServerMessage::Event { event: Some(e) }) => CallOutcome {
            status: Co2PanelStatus::Success,
            output: Some(Co2PanelEvent::from(e)),
            failure: None,
        },
        Ok(ServerMessage::Event { event: None }) => CallOutcome {
            status: Co2PanelStatus::NoEvent,
            output: None,
            failure: None,
        },
        _ => mismatch_outcome(reply),
    }
}

/// Whether connecting succeeded, for the panel's reply to the configuration.
pub fn configure_outcome(reply: Result<ServerMessage, String>) -> (outcome: CallOutcome<()>)
    ensures
        outcome == configure_result(reply),
{
    match reply {
        Ok(ServerMessage::Ack) => CallOutcome {
            status: Co2PanelStatus::Success,
            output: None,
            failure: None,
        },
        _ => mismatch_outcome(reply),
    }
}

} // verus!

verus! {

/// Through the C interface, a value that `co2_panel_set_value` hands to the
/// panel is what `co2_panel_get_value` reads back, and both calls succeed.
pub proof fn lemma_c_value_round_trip(s: AppStateView, kind: Co2PanelValueKind, value: u32)
    ensures
        set_value_result(Ok(answer(s, ClientMessage::SetValue { kind: value_kind_of(kind), value })))
            == succeeded::<()>(None),
        get_value_result(
            Ok(
                answer(
                    after_message(s, ClientMessage::SetValue { kind: value_kind_of(kind), value }),
                    ClientMessage::GetValue { kind: value_kind_of(kind) },
                ),
            ),
        ) == succeeded(Some(value)),
{
}

/// Before any value of a kind arrives, reading it through the C interface
/// fails with `ValueUnavailable`.
pub proof fn lemma_c_value_unavailable_at_start(kind: Co2PanelValueKind)
    ensures
        get_value_result(Ok(answer(initial_state(), ClientMessage::GetValue { kind: value_kind_of(kind) })))
            == failed::<u32>(PanelFailure::ValueUnavailable),
{
}

/// `co2_panel_poll_event` hands out the oldest queued event in C's form,
/// and reports `NoEvent` when the queue is empty.
pub proof fn lemma_c_poll_event(s: AppStateView)
    ensures
        s.events.len() > 0 ==> poll_event_result(Ok(answer(s, ClientMessage::GetEvent))) == succeeded(
            Some(Co2PanelEvent { kind: c_event_kind_of(s.events[0].kind), value: s.events[0].value }),
        ),
        s.events.len() == 0 ==> poll_event_result(Ok(answer(s, ClientMessage::GetEvent))).status
            == Co2PanelStatus::NoEvent,
{
}

/// The panel acknowledges every configuration, so connecting succeeds
/// whenever the exchange itself does.
pub proof fn lemma_c_configure_accepted(s: AppStateView, config: Co2PanelConfig, c: PanelConfig)
    requires
        c@ == config_from_c(config),
    ensures
        configure_result(Ok(answer(s, ClientMessage::Configure { config: c }))) == succeeded::<()>(None),
{
}

} // verus!

verus! {

/// Converting a C measurement, unit system or event keeps its meaning: each
/// maps to the variant of the same name, so the conversions are one to one.
pub proof fn lemma_conversions_keep_names()
    ensures
        value_kind_of(Co2PanelValueKind::Co2) == ValueKind::Co2,
        value_kind_of(Co2PanelValueKind::Humidity) == ValueKind::Humidity,
        value_kind_of(Co2PanelValueKind::Temperature) == ValueKind::Temperature,
        value_kind_of(Co2PanelValueKind::Pressure) == ValueKind::Pressure,
        unit_system_of(Co2PanelUnitSystem::Metric) == UnitSystem::Metric,
        unit_system_of(Co2PanelUnitSystem::Imperial) == UnitSystem::Imperial,
        c_event_kind_of(EventKind::UnitPressed) == Co2PanelEventKind::UnitPressed,
        c_event_kind_of(EventKind::UpPressed) == Co2PanelEventKind::UpPressed,
        c_event_kind_of(EventKind::DownPressed) == Co2PanelEventKind::DownPressed,
        c_event_kind_of(EventKind::BuzzerPressed) == Co2PanelEventKind::BuzzerPressed,
        c_event_kind_of(EventKind::UnitSystemChanged) == Co2PanelEventKind::UnitSystemChanged,
        c_event_kind_of(EventKind::BuzzerChanged) == Co2PanelEventKind::BuzzerChanged,
        c_event_kind_of(EventKind::BrightnessChanged) == Co2PanelEventKind::BrightnessChanged,
        forall|a: EventKind, b: EventKind| c_event_kind_of(a) == c_event_kind_of(b) ==> a == b,
        forall|a: Co2PanelValueKind, b: Co2PanelValueKind| value_kind_of(a) == value_kind_of(b) ==> a == b,
{
}

/// `co2_panel_poll_event` hands C the event it polled with C's variant of
/// the same name and the same value.
pub proof fn lemma_poll_event_keeps_kind(e: PanelEvent)
    ensures
        poll_event_result(Ok(ServerMessage::Event { event: Some(e) })).status == Co2PanelStatus::Success,
        poll_event_result(Ok(ServerMessage::Event { event: Some(e) })).failure is None,
        poll_event_result(Ok(ServerMessage::Event { event: Some(e) })).output matches Some(c) && c.value
            == e.value && (e.kind == EventKind::UnitPressed ==> c.kind == Co2PanelEventKind::UnitPressed)
            && (e.kind == EventKind::UpPressed ==> c.kind == Co2PanelEventKind::UpPressed) && (e.kind
            == EventKind::DownPressed ==> c.kind == Co2PanelEventKind::DownPressed) && (e.kind
            == EventKind::BuzzerPressed ==> c.kind == Co2PanelEventKind::BuzzerPressed) && (e.kind
            == EventKind::UnitSystemChanged ==> c.kind == Co2PanelEventKind::UnitSystemChanged) && (
        e.kind == EventKind::BuzzerChanged ==> c.kind == Co2PanelEventKind::BuzzerChanged) && (e.kind
            == EventKind::BrightnessChanged ==> c.kind == Co2PanelEventKind::BrightnessChanged),
{
}

/// Whatever C passes, the panel's configuration carries C's names when C
/// gives them (the defaults otherwise), C's unit system, and C's warning and
/// alarm thresholds of every measurement unchanged.
pub proof fn lemma_config_from_c_keeps_settings(c: Co2PanelConfig)
    ensures
        c.app_name matches Some(n) ==> config_from_c(c).app_name == n@,
        c.app_name is None ==> config_from_c(c).app_name == "CO2 Panel"@,
        c.socket_path matches Some(p) ==> config_from_c(c).socket_path == p@,
        c.socket_path is None ==> config_from_c(c).socket_path == "/tmp/co2-panel.sock"@,
        config_from_c(c).fullscreen == (c.fullscreen != 0),
        c.unit_system == Co2PanelUnitSystem::Metric ==> config_from_c(c).unit_system == UnitSystem::Metric,
        c.unit_system == Co2PanelUnitSystem::Imperial ==> config_from_c(c).unit_system
            == UnitSystem::Imperial,
        250 <= c.update_interval_ms ==> config_from_c(c).update_interval_ms == c.update_interval_ms,
        c.brightness_percent <= 100 ==> config_from_c(c).brightness_percent == c.brightness_percent,
        config_from_c(c).co2.warn == c.co2.warn && config_from_c(c).co2.alarm == c.co2.alarm,
        config_from_c(c).humidity.warn == c.humidity.warn && config_from_c(c).humidity.alarm
            == c.humidity.alarm,
        config_from_c(c).temperature.warn == c.temperature.warn && config_from_c(c).temperature.alarm
            == c.temperature.alarm,
        config_from_c(c).pressure.warn == c.pressure.warn && config_from_c(c).pressure.alarm
            == c.pressure.alarm,
{
}

/// Each C call succeeds exactly on its expected answer, reports NoEvent only
/// for an empty event answer, records a failure exactly when it fails, and
/// passes on the transport's message or the unexpected answer as it came.
pub proof fn lemma_outcomes(reply: Result<ServerMessage, String>)
    ensures
        (set_value_result(reply).status == Co2PanelStatus::Success) == (reply == Ok::<
            ServerMessage,
            String,
        >(ServerMessage::Ack)),
        (configure_result(reply).status == Co2PanelStatus::Success) == (reply == Ok::<
            ServerMessage,
            String,
        >(ServerMessage::Ack)),
        (get_value_result(reply).status == Co2PanelStatus::Success) == (reply matches Ok(
            ServerMessage::Value { value: Some(_), .. },
        )),
        reply matches Ok(ServerMessage::Value { value: Some(v), .. }) ==> get_value_result(reply).output
            == Some(v),
        (poll_event_result(reply).status == Co2PanelStatus::NoEvent) == (reply == Ok::<
            ServerMessage,
            String,
        >(ServerMessage::Event { event: None })),
        (get_value_result(reply).failure is None) == (get_value_result(reply).status
            == Co2PanelStatus::Success),
        (set_value_result(reply).failure is None) == (set_value_result(reply).status
            == Co2PanelStatus::Success),
        (poll_event_result(reply).failure is Some) == (poll_event_result(reply).status
            == Co2PanelStatus::Error),
        reply matches Err(m) ==> set_value_result(reply).failure == Some(
            PanelFailure::Transport { message: m },
        ) && get_value_result(reply).failure == Some(PanelFailure::Transport { message: m })
            && poll_event_result(reply).failure == Some(PanelFailure::Transport { message: m })
            && configure_result(reply).failure == Some(PanelFailure::Transport { message: m }),
        reply matches Ok(ServerMessage::Error { message: m }) ==> set_value_result(reply).failure
            == Some(PanelFailure::UnexpectedResponse { response: ServerMessage::Error { message: m } }),
        reply matches Ok(ServerMessage::Value { value: None, .. }) ==> get_value_result(reply).failure
            == Some(PanelFailure::ValueUnavailable),
        reply matches Ok(r) ==> !(r is Ack) ==> set_value_result(reply).failure == Some(
            PanelFailure::UnexpectedResponse { response: r },
        ) && configure_result(reply).failure == Some(PanelFailure::UnexpectedResponse { response: r }),
        reply matches Ok(r) ==> !(r is Value) ==> get_value_result(reply).failure == Some(
            PanelFailure::UnexpectedResponse { response: r },
        ),
        reply matches Ok(r) ==> !(r is Event) ==> poll_event_result(reply).failure == Some(
            PanelFailure::UnexpectedResponse { response: r },
        ),
        poll_event_result(reply).status != Co2PanelStatus::Success ==> poll_event_result(reply).output
            is None,
        get_value_result(reply).status != Co2PanelStatus::Success ==> get_value_result(reply).output
            is None,
{
}

} // verus!
