use std::collections::VecDeque;
use vstd::prelude::*;
use crate::protocol::{
    byte_to_f32_bits, f32_bits_of_byte, default_config, ClientMessage, EventKind, PanelConfig,
    PanelConfigView, PanelEvent, ServerMessage, UnitSystem, ValueKind,
};

verus! {

/// How many touch events the panel keeps for the C program to fetch; older
/// ones are dropped first.
pub const MAX_EVENTS: usize = 32;

/// The setting that the UP and DOWN buttons change.
#[derive(Clone, Copy, Debug, PartialEq, Eq, Structural)]
pub enum EditTarget {
    Units,
    Brightness,
}

/// The latest value of each measurement (`f32` bit patterns), `None` until
/// the C program has sent one.
#[derive(Clone, Copy, Debug, PartialEq, Eq, Structural)]
pub struct Measurements {
    pub co2: Option<u32>,
    pub humidity: Option<u32>,
    pub temperature: Option<u32>,
    pub pressure: Option<u32>,
}

impl Default for Measurements {
    fn default() -> (m: Self)
        ensures
            m == (Measurements { co2: None, humidity: None, temperature: None, pressure: None }),
    {
        Measurements { co2: None, humidity: None, temperature: None, pressure: None }
    }
}

/// The value stored for `kind`.
pub open spec fn measurement(values: Measurements, kind: ValueKind) -> Option<u32> {
    match kind {
        ValueKind::Co2 => values.co2,
        ValueKind::Humidity => values.humidity,
        ValueKind::Temperature => values.temperature,
        ValueKind::Pressure => values.pressure,
    }
}

/// `values` with the entry for `kind` replaced by `value`.
pub open spec fn with_measurement(values: Measurements, kind: ValueKind, value: u32) -> Measurements {
    match kind {
        ValueKind::Co2 => Measurements { co2: Some(value), ..values },
        ValueKind::Humidity => Measurements { humidity: Some(value), ..values },
        ValueKind::Temperature => Measurements { temperature: Some(value), ..values },
        ValueKind::Pressure => Measurements { pressure: Some(value), ..values },
    }
}

/// Stores a new value for one measurement.
pub fn set_value(values: &mut Measurements, kind: ValueKind, value: u32)
    ensures
        *final(values) == with_measurement(*old(values), kind, value),
        final(values).co2 == (if kind == ValueKind::Co2 { Some(value) } else { old(values).co2 }),
        final(values).humidity == (if kind == ValueKind::Humidity {
            Some(value)
        } else {
            old(values).humidity
        }),
        final(values).temperature == (if kind == ValueKind::Temperature {
            Some(value)
        } else {
            old(values).temperature
        }),
        final(values).pressure == (if kind == ValueKind::Pressure {
            Some(value)
        } else {
            old(values).pressure
        }),
{
    match kind {
        ValueKind::Co2 => values.co2 = Some(value),
        ValueKind::Humidity => values.humidity = Some(value),
        ValueKind::Temperature => values.temperature = Some(value),
        ValueKind::Pressure => values.pressure = Some(value),
    }
}

/// The stored value of one measurement.
pub fn get_value(values: &Measurements, kind: ValueKind) -> (value: Option<u32>)
    ensures
        value == measurement(*values, kind),
        kind == ValueKind::Co2 ==> value == values.co2,
        kind == ValueKind::Humidity ==> value == values.humidity,
        kind == ValueKind::Temperature ==> value == values.temperature,
        kind == ValueKind::Pressure ==> value == values.pressure,
{
    match kind {
        ValueKind::Co2 => values.co2,
        ValueKind::Humidity => values.humidity,
        ValueKind::Temperature => values.temperature,
        ValueKind::Pressure => values.pressure,
    }
}

/// Each kind of measurement lives in the field of the same name: storing
/// writes exactly that field and reading reads it.
pub proof fn lemma_measurement_fields(values: Measurements, kind: ValueKind, value: u32)
    ensures
        measurement(values, ValueKind::Co2) == values.co2,
        measurement(values, ValueKind::Humidity) == values.humidity,
        measurement(values, ValueKind::Temperature) == values.temperature,
        measurement(values, ValueKind::Pressure) == values.pressure,
        with_measurement(values, kind, value).co2 == (if kind == ValueKind::Co2 {
            Some(value)
        } else {
            values.co2
        }),
        with_measurement(values, kind, value).humidity == (if kind == ValueKind::Humidity {
            Some(value)
        } else {
            values.humidity
        }),
        with_measurement(values, kind, value).temperature == (if kind == ValueKind::Temperature {
            Some(value)
        } else {
            values.temperature
        }),
        with_measurement(values, kind, value).pressure == (if kind == ValueKind::Pressure {
            Some(value)
        } else {
            values.pressure
        }),
{
}

/// Reading a measurement gives back the value last stored for it, and
/// storing one measurement leaves the others as they were.
pub proof fn lemma_get_after_set(values: Measurements, kind: ValueKind, value: u32, other: ValueKind)
    ensures
        measurement(with_measurement(values, kind, value), kind) == Some(value),
        other != kind ==> measurement(with_measurement(values, kind, value), other)
            == measurement(values, other),
{
}

/// The event queue after `event` arrives: the newest `MAX_EVENTS` events of
/// the old queue followed by `event`, oldest first.
pub open spec fn queue_push(queue: Seq<PanelEvent>, event: PanelEvent) -> Seq<PanelEvent> {
    let all = queue.push(event);
    if all.len() > MAX_EVENTS {
        all.subrange(all.len() - MAX_EVENTS, all.len() as int)
    } else {
        all
    }
}

/// Appends an event and drops the oldest ones beyond `MAX_EVENTS`.
fn push_bounded(events: &mut VecDeque<PanelEvent>, event: PanelEvent)
    ensures
        final(events)@ == queue_push(old(events)@, event),
{
    let ghost all = old(events)@.push(event);
    events.push_back(event);
    let ghost mut dropped: int = 0;
    while events.len() > MAX_EVENTS
        invariant
            0 <= dropped <= all.len(),
            events@ == all.subrange(dropped, all.len() as int),
            dropped > 0 ==> all.len() - dropped >= MAX_EVENTS,
        decreases events@.len(),
    {
        events.pop_front();
        proof {
            dropped = dropped + 1;
        }
    }
    assert(events@ =~= queue_push(old(events)@, event));
}

/// The abstract state of the panel, with its strings and queue taken as
/// sequences.
pub struct AppStateView {
    pub config: PanelConfigView,
    pub values: Measurements,
    pub events: Seq<PanelEvent>,
    pub unit_system: UnitSystem,
    pub buzzer_enabled: bool,
    pub brightness_percent: u8,
    pub edit_target: EditTarget,
}

/// Everything the panel shows and the touch events it has not handed out
/// yet.
pub struct AppState {
    pub config: PanelConfig,
    pub values: Measurements,
    pub events: VecDeque<PanelEvent>,
    pub unit_system: UnitSystem,
    pub buzzer_enabled: bool,
    pub brightness_percent: u8,
    pub edit_target: EditTarget,
}

impl View for AppState {
    type V = AppStateView;

    open spec fn view(&self) -> AppStateView {
        AppStateView {
            config: self.config@,
            values: self.values,
            events: self.events@,
            unit_system: self.unit_system,
            buzzer_enabled: self.buzzer_enabled,
            brightness_percent: self.brightness_percent,
            edit_target: self.edit_target,
        }
    }
}

/// The state at start-up: the factory configuration, no values, no events,
/// the configuration's units and brightness, buzzer off, editing units.
pub open spec fn initial_state() -> AppStateView {
    AppStateView {
        config: default_config(),
        values: Measurements { co2: None, humidity: None, temperature: None, pressure: None },
        events: Seq::empty(),
        unit_system: default_config().unit_system,
        buzzer_enabled: false,
        brightness_percent: default_config().brightness_percent,
        edit_target: EditTarget::Units,
    }
}

impl Default for AppState {
    fn default() -> (state: Self)
        ensures
            state@ == initial_state(),
    {
        let config = PanelConfig::default();
        AppState {
            unit_system: config.unit_system,
            buzzer_enabled: false,
            brightness_percent: config.brightness_percent,
            config,
            values: Measurements::default(),
            events: VecDeque::new(),
            edit_target: EditTarget::Units,
        }
    }
}

/// The other unit system.
pub open spec fn toggled_units(u: UnitSystem) -> UnitSystem {
    match u {
        UnitSystem::Metric => UnitSystem::Imperial,
        UnitSystem::Imperial => UnitSystem::Metric,
    }
}

/// The other edit target.
pub open spec fn toggled_target(t: EditTarget) -> EditTarget {
    match t {
        EditTarget::Units => EditTarget::Brightness,
        EditTarget::Brightness => EditTarget::Units,
    }
}

/// The value reported with an event about the selected setting: 0.0 for
/// metric and 1.0 for imperial while editing units, the brightness in
/// percent while editing brightness.
pub open spec fn target_value_of(s: AppStateView) -> u32 {
    match s.edit_target {
        EditTarget::Units => match s.unit_system {
            UnitSystem::Metric => f32_bits_of_byte(0),
            UnitSystem::Imperial => f32_bits_of_byte(1),
        },
        EditTarget::Brightness => f32_bits_of_byte(s.brightness_percent),
    }
}

/// `s` with one more event queued.
pub open spec fn with_event(s: AppStateView, kind: EventKind, value: u32) -> AppStateView {
    AppStateView { events: queue_push(s.events, PanelEvent { kind, value }), ..s }
}

/// A brightness step of `delta` percent, kept within 10 to 100 percent.
pub open spec fn clamped_brightness(current: u8, delta: int) -> u8 {
    let b = current + delta;
    if b < 10 {
        10
    } else if b > 100 {
        100
    } else {
        b as u8
    }
}

/// The state after UP (`direction` 1) or DOWN (`direction` -1) changes the
/// selected setting: the units flip, or the brightness moves by five percent
/// per step within 10 to 100; each reports the change as an event.
pub open spec fn adjusted(s: AppStateView, direction: int) -> AppStateView {
    match s.edit_target {
        EditTarget::Units => {
            let s1 = AppStateView { unit_system: toggled_units(s.unit_system), ..s };
            with_event(s1, EventKind::UnitSystemChanged, target_value_of(s1))
        },
        EditTarget::Brightness => {
            let b = clamped_brightness(s.brightness_percent, 5 * direction);
            let s1 = AppStateView { brightness_percent: b, ..s };
            with_event(s1, EventKind::BrightnessChanged, f32_bits_of_byte(b))
        },
    }
}

/// The brightness that the display must be set to after an adjustment, if
/// the brightness changed hands.
pub open spec fn adjusted_brightness(s: AppStateView, direction: int) -> Option<u8> {
    match s.edit_target {
        EditTarget::Units => None,
        EditTarget::Brightness => Some(clamped_brightness(s.brightness_percent, 5 * direction)),
    }
}

/// The state after the UNIT button: the other setting is selected and an
/// event carries its value.
pub open spec fn after_unit_button(s: AppStateView) -> AppStateView {
    let s1 = AppStateView { edit_target: toggled_target(s.edit_target), ..s };
    with_event(s1, EventKind::UnitPressed, target_value_of(s1))
}

/// The state after the BUZZER button: the buzzer flips, and two events
/// carry its new state (1.0 on, 0.0 off).
pub open spec fn after_buzzer_button(s: AppStateView) -> AppStateView {
    let on = !s.buzzer_enabled;
    let v = f32_bits_of_byte(if on { 1 } else { 0 });
    let s1 = AppStateView { buzzer_enabled: on, ..s };
    with_event(with_event(s1, EventKind::BuzzerPressed, v), EventKind::BuzzerChanged, v)
}

/// The state after the UP button.
pub open spec fn after_up_button(s: AppStateView) -> AppStateView {
    let s1 = adjusted(s, 1);
    with_event(s1, EventKind::UpPressed, target_value_of(s1))
}

/// The state after the DOWN button.
pub open spec fn after_down_button(s: AppStateView) -> AppStateView {
    let s1 = adjusted(s, -1);
    with_event(s1, EventKind::DownPressed, target_value_of(s1))
}

/// The state after a request from the C program.
pub open spec fn after_message(s: AppStateView, message: ClientMessage) -> AppStateView {
    match message {
        ClientMessage::Configure { config } => AppStateView {
            config: config@,
            unit_system: config.unit_system,
            brightness_percent: config.brightness_percent,
            ..s
        },
        ClientMessage::SetValue { kind, value } => AppStateView {
            values: with_measurement(s.values, kind, value),
            ..s
        },
        ClientMessage::GetValue { .. } => s,
        ClientMessage::GetEvent => AppStateView {
            events: if s.events.len() > 0 { s.events.drop_first() } else { s.events },
            ..s
        },
    }
}

/// The answer to a request from the C program.
pub open spec fn answer(s: AppStateView, message: ClientMessage) -> ServerMessage {
    match message {
        ClientMessage::Configure { .. } => ServerMessage::Ack,
        ClientMessage::SetValue { .. } => ServerMessage::Ack,
        ClientMessage::GetValue { kind } => ServerMessage::Value {
            kind,
            value: measurement(s.values, kind),
        },
        ClientMessage::GetEvent => ServerMessage::Event {
            event: if s.events.len() > 0 { Some(s.events[0]) } else { None },
        },
    }
}

/// The brightness to put on the display after a request: the configured
/// one after `Configure`, none otherwise.
pub open spec fn brightness_after_message(message: ClientMessage) -> Option<u8> {
    match message {
        ClientMessage::Configure { config } => Some(config.brightness_percent),
        _ => None,
    }
}

/// 1.0 for true and 0.0 for false, as `f32` bit patterns.
pub fn bool_value(value: bool) -> (bits: u32)
    ensures
        bits == f32_bits_of_byte(if value { 1 } else { 0 }),
{
    if value {
        byte_to_f32_bits(1)
    } else {
        byte_to_f32_bits(0)
    }
}

impl AppState {
    /// The value of the selected setting, as reported with events.
    pub fn target_value(&self) -> (bits: u32)
        ensures
            bits == target_value_of(self@),
    {
        match self.edit_target {
            EditTarget::Units => match self.unit_system {
                UnitSystem::Metric => byte_to_f32_bits(0),
                UnitSystem::Imperial => byte_to_f32_bits(1),
            },
            EditTarget::Brightness => byte_to_f32_bits(self.brightness_percent),
        }
    }

    /// Queues a touch event for the C program.
    pub fn push_event(&mut self, kind: EventKind, value: u32)
        ensures
            final(self)@ == with_event(old(self)@, kind, value),
    {
        push_bounded(&mut self.events, PanelEvent { kind, value });
    }

    /// Changes the selected setting by `direction` steps; returns the
    /// brightness that the display must now be set to, if it changed hands.
    pub fn adjust_selected_setting(&mut self, direction: i32) -> (apply: Option<u8>)
        requires
            i32::MIN <= 5 * direction <= i32::MAX,
            i32::MIN <= 5 * direction + old(self).brightness_percent <= i32::MAX,
        ensures
            final(self)@ == adjusted(old(self)@, direction as int),
            apply == adjusted_brightness(old(self)@, direction as int),
    {
        match self.edit_target {
            EditTarget::Units => {
                self.unit_system = match self.unit_system {
                    UnitSystem::Metric => UnitSystem::Imperial,
                    UnitSystem::Imperial => UnitSystem::Metric,
                };
                let value = self.target_value();
                self.push_event(EventKind::UnitSystemChanged, value);
                None
            },
            EditTarget::Brightness => {
                let brightness = self.brightness_percent as i32 + direction * 5;
                self.brightness_percent = if brightness < 10 {
                    10
                } else if brightness > 100 {
                    100
                } else {
                    brightness as u8
                };
                let value = byte_to_f32_bits(self.brightness_percent);
                self.push_event(EventKind::BrightnessChanged, value);
                Some(self.brightness_percent)
            },
        }
    }

    /// The UNIT button: switches between editing units and brightness.
    pub fn press_unit(&mut self)
        ensures
            final(self)@ == after_unit_button(old(self)@),
    {
        self.edit_target = match self.edit_target {
            EditTarget::Units => EditTarget::Brightness,
            EditTarget::Brightness => EditTarget::Units,
        };
        let value = self.target_value();
        self.push_event(EventKind::UnitPressed, value);
    }

    /// The BUZZER button: switches the (visual) buzzer on or off.
    pub fn press_buzzer(&mut self)
        ensures
            final(self)@ == after_buzzer_button(old(self)@),
    {
        self.buzzer_enabled = !self.buzzer_enabled;
        let value = bool_value(self.buzzer_enabled);
        self.push_event(EventKind::BuzzerPressed, value);
        self.push_event(EventKind::BuzzerChanged, value);
    }

    /// The UP button; returns the brightness to put on the display, if it
    /// changed hands.
    pub fn press_up(&mut self) -> (apply: Option<u8>)
        ensures
            final(self)@ == after_up_button(old(self)@),
            apply == adjusted_brightness(old(self)@, 1),
    {
        let apply = self.adjust_selected_setting(1);
        let value = self.target_value();
        self.push_event(EventKind::UpPressed, value);
        apply
    }

    /// The DOWN button; returns the brightness to put on the display, if it
    /// changed hands.
    pub fn press_down(&mut self) -> (apply: Option<u8>)
        ensures
            final(self)@ == after_down_button(old(self)@),
            apply == adjusted_brightness(old(self)@, -1),
    {
        let apply = self.adjust_selected_setting(-1);
        let value = self.target_value();
        self.push_event(EventKind::DownPressed, value);
        apply
    }

    /// Carries out a request from the C program; returns the answer and the
    /// brightness to put on the display, if any.
    pub fn handle_message(&mut self, message: ClientMessage) -> (result: (ServerMessage, Option<u8>))
        ensures
            final(self)@ == after_message(old(self)@, message),
            result.0 == answer(old(self)@, message),
            result.1 == brightness_after_message(message),
    {
        match message {
            ClientMessage::Configure { config } => {
                self.unit_system = config.unit_system;
                self.brightness_percent = config.brightness_percent;
                self.config = config;
                (ServerMessage::Ack, Some(self.brightness_percent))
            },
            ClientMessage::SetValue { kind, value } => {
                set_value(&mut self.values, kind, value);
                (ServerMessage::Ack, None)
            },
            ClientMessage::GetValue { kind } => {
                (ServerMessage::Value { kind, value: get_value(&self.values, kind) }, None)
            },
            ClientMessage::GetEvent => {
                let event = self.events.pop_front();
                proof {
                    assert(old(self)@.events.len() > 0 ==> self.events@ =~= old(self)@.events.drop_first());
                }
                (ServerMessage::Event { event }, None)
            },
        }
    }
}

} // verus!
verus! {

/// What a read gives back of a write: after `SetValue` for a kind, asking
/// for that kind answers with the value that was set.
pub proof fn lemma_read_after_write(s: AppStateView, kind: ValueKind, value: u32)
    ensures
        answer(after_message(s, ClientMessage::SetValue { kind, value }), ClientMessage::GetValue { kind })
            == (ServerMessage::Value { kind, value: Some(value) }),
{
}

/// Setting one kind of value leaves the answer for every other kind as it
/// was.
pub proof fn lemma_write_keeps_other_values(s: AppStateView, kind: ValueKind, value: u32, other: ValueKind)
    requires
        other != kind,
    ensures
        answer(after_message(s, ClientMessage::SetValue { kind, value }), ClientMessage::GetValue { kind: other })
            == answer(s, ClientMessage::GetValue { kind: other }),
{
}

/// Asking for a value changes nothing.
pub proof fn lemma_get_value_changes_nothing(s: AppStateView, kind: ValueKind)
    ensures
        after_message(s, ClientMessage::GetValue { kind }) == s,
{
}

/// The queue never holds more than `MAX_EVENTS` events, ends with the event
/// just queued, and while there is room it keeps every earlier event ahead
/// of it in arrival order.
pub proof fn lemma_queue_push(queue: Seq<PanelEvent>, event: PanelEvent)
    ensures
        queue_push(queue, event).len() <= MAX_EVENTS,
        queue_push(queue, event).last() == event,
        queue.len() < MAX_EVENTS ==> queue_push(queue, event) == queue.push(event),
        queue.len() >= MAX_EVENTS ==> queue_push(queue, event) == queue.push(event).subrange(
            queue.len() + 1 - MAX_EVENTS as int,
            queue.len() + 1 as int,
        ),
{
}

/// Every step of the panel, a button or a request, keeps the queue within
/// `MAX_EVENTS` events.
pub proof fn lemma_queue_stays_bounded(s: AppStateView, message: ClientMessage)
    requires
        s.events.len() <= MAX_EVENTS,
    ensures
        after_message(s, message).events.len() <= MAX_EVENTS,
        after_unit_button(s).events.len() <= MAX_EVENTS,
        after_buzzer_button(s).events.len() <= MAX_EVENTS,
        after_up_button(s).events.len() <= MAX_EVENTS,
        after_down_button(s).events.len() <= MAX_EVENTS,
{
}

/// Events are handed out oldest first: `GetEvent` answers the head of the
/// queue and removes it, and an event queued into an empty queue is the
/// next one handed out.
pub proof fn lemma_events_first_in_first_out(s: AppStateView, kind: EventKind, value: u32)
    ensures
        s.events.len() > 0 ==> answer(s, ClientMessage::GetEvent) == (ServerMessage::Event {
            event: Some(s.events[0]),
        }),
        s.events.len() > 0 ==> after_message(s, ClientMessage::GetEvent).events == s.events.drop_first(),
        s.events.len() == 0 ==> answer(s, ClientMessage::GetEvent) == (ServerMessage::Event { event: None }),
        s.events.len() == 0 ==> answer(with_event(s, kind, value), ClientMessage::GetEvent) == (
        ServerMessage::Event { event: Some(PanelEvent { kind, value }) }),
{
}

/// `Configure` takes over the configuration with its unit system and
/// brightness, puts that brightness on the display, and keeps the values
/// and queued events.
pub proof fn lemma_configure_takes_settings(s: AppStateView, config: PanelConfig)
    ensures
        after_message(s, ClientMessage::Configure { config }).config == config@,
        after_message(s, ClientMessage::Configure { config }).unit_system == config.unit_system,
        after_message(s, ClientMessage::Configure { config }).brightness_percent == config.brightness_percent,
        after_message(s, ClientMessage::Configure { config }).values == s.values,
        after_message(s, ClientMessage::Configure { config }).events == s.events,
        brightness_after_message(ClientMessage::Configure { config }) == Some(config.brightness_percent),
{
}

/// Pressing UNIT twice selects the original setting again, and pressing
/// BUZZER twice restores the buzzer. BUZZER reports the new buzzer state as
/// 1.0 (on) or 0.0 (off).
pub proof fn lemma_toggles_undo(s: AppStateView)
    ensures
        after_unit_button(after_unit_button(s)).edit_target == s.edit_target,
        after_buzzer_button(after_buzzer_button(s)).buzzer_enabled == s.buzzer_enabled,
        after_buzzer_button(s).buzzer_enabled == !s.buzzer_enabled,
        after_buzzer_button(s).events.last() == (PanelEvent {
            kind: EventKind::BuzzerChanged,
            value: f32_bits_of_byte(if !s.buzzer_enabled { 1 } else { 0 }),
        }),
{
}

/// While editing units, DOWN undoes UP and UP undoes DOWN.
pub proof fn lemma_units_up_down_undo(s: AppStateView)
    requires
        s.edit_target == EditTarget::Units,
    ensures
        after_down_button(after_up_button(s)).unit_system == s.unit_system,
        after_up_button(after_down_button(s)).unit_system == s.unit_system,
        after_up_button(s).unit_system == toggled_units(s.unit_system),
        adjusted(s, 1).events.last() == (PanelEvent {
            kind: EventKind::UnitSystemChanged,
            value: f32_bits_of_byte(
                if after_up_button(s).unit_system == UnitSystem::Imperial { 1 } else { 0 },
            ),
        }),
{
}

/// While editing brightness, UP and DOWN move it in steps of five percent
/// and keep it within 10 to 100 percent; away from the bounds, DOWN undoes
/// UP and UP undoes DOWN. The display is set to the new brightness, which
/// the queued event reports.
pub proof fn lemma_brightness_steps(s: AppStateView)
    requires
        s.edit_target == EditTarget::Brightness,
    ensures
        10 <= after_up_button(s).brightness_percent <= 100,
        10 <= after_down_button(s).brightness_percent <= 100,
        10 <= s.brightness_percent <= 95 ==> after_up_button(s).brightness_percent
            == s.brightness_percent + 5,
        15 <= s.brightness_percent <= 100 ==> after_down_button(s).brightness_percent
            == s.brightness_percent - 5,
        10 <= s.brightness_percent <= 95 ==> after_down_button(after_up_button(s)).brightness_percent
            == s.brightness_percent,
        15 <= s.brightness_percent <= 100 ==> after_up_button(after_down_button(s)).brightness_percent
            == s.brightness_percent,
        adjusted_brightness(s, 1) == Some(after_up_button(s).brightness_percent),
        adjusted_brightness(s, -1) == Some(after_down_button(s).brightness_percent),
        adjusted(s, 1).events.last() == (PanelEvent {
            kind: EventKind::BrightnessChanged,
            value: f32_bits_of_byte(after_up_button(s).brightness_percent),
        }),
        adjusted(s, -1).events.last() == (PanelEvent {
            kind: EventKind::BrightnessChanged,
            value: f32_bits_of_byte(after_down_button(s).brightness_percent),
        }),
{
}

} // verus!

verus! {

/// Queuing an event changes only the queue, and the queue gains that event.
pub proof fn lemma_with_event(s: AppStateView, kind: EventKind, value: u32)
    ensures
        with_event(s, kind, value).events == queue_push(s.events, PanelEvent { kind, value }),
        with_event(s, kind, value).events.last() == (PanelEvent { kind, value }),
        with_event(s, kind, value).config == s.config,
        with_event(s, kind, value).values == s.values,
        with_event(s, kind, value).unit_system == s.unit_system,
        with_event(s, kind, value).buzzer_enabled == s.buzzer_enabled,
        with_event(s, kind, value).brightness_percent == s.brightness_percent,
        with_event(s, kind, value).edit_target == s.edit_target,
{
}

/// The value reported for the selected setting: 0.0 for metric and 1.0 for
/// imperial while editing units, the brightness percent while editing
/// brightness.
pub proof fn lemma_target_value(s: AppStateView)
    ensures
        s.edit_target == EditTarget::Units && s.unit_system == UnitSystem::Metric ==> target_value_of(s)
            == f32_bits_of_byte(0),
        s.edit_target == EditTarget::Units && s.unit_system == UnitSystem::Imperial ==> target_value_of(s)
            == f32_bits_of_byte(1),
        s.edit_target == EditTarget::Brightness ==> target_value_of(s) == f32_bits_of_byte(
            s.brightness_percent,
        ),
{
}

/// The UNIT button selects the other setting, changes nothing else but the
/// queue, and queues UnitPressed with the newly selected setting's value:
/// 1.0 for imperial and 0.0 for metric units, or the brightness percent.
pub proof fn lemma_unit_button(s: AppStateView)
    ensures
        ({
            let t = after_unit_button(s);
            let v = if s.edit_target == EditTarget::Brightness {
                f32_bits_of_byte(if s.unit_system == UnitSystem::Imperial { 1 } else { 0 })
            } else {
                f32_bits_of_byte(s.brightness_percent)
            };
            &&& s.edit_target == EditTarget::Units ==> t.edit_target == EditTarget::Brightness
            &&& s.edit_target == EditTarget::Brightness ==> t.edit_target == EditTarget::Units
            &&& t.unit_system == s.unit_system
            &&& t.brightness_percent == s.brightness_percent
            &&& t.buzzer_enabled == s.buzzer_enabled
            &&& t.values == s.values
            &&& t.config == s.config
            &&& t.events == queue_push(s.events, PanelEvent { kind: EventKind::UnitPressed, value: v })
            &&& t.events.last() == (PanelEvent { kind: EventKind::UnitPressed, value: v })
        }),
{
}

/// The BUZZER button flips the buzzer, changes nothing else but the queue,
/// and queues BuzzerPressed then BuzzerChanged, both with the new state
/// (1.0 on, 0.0 off).
pub proof fn lemma_buzzer_button(s: AppStateView)
    ensures
        ({
            let t = after_buzzer_button(s);
            let v = f32_bits_of_byte(if s.buzzer_enabled { 0 } else { 1 });
            &&& t.buzzer_enabled == !s.buzzer_enabled
            &&& t.edit_target == s.edit_target
            &&& t.unit_system == s.unit_system
            &&& t.brightness_percent == s.brightness_percent
            &&& t.values == s.values
            &&& t.config == s.config
            &&& t.events == queue_push(
                queue_push(s.events, PanelEvent { kind: EventKind::BuzzerPressed, value: v }),
                PanelEvent { kind: EventKind::BuzzerChanged, value: v },
            )
        }),
{
}

/// While editing units, UP and DOWN flip the unit system and queue
/// UnitSystemChanged then the press (UpPressed or DownPressed), both with
/// the new unit system's value (1.0 imperial, 0.0 metric); nothing else
/// changes and the display brightness is left alone.
pub proof fn lemma_up_down_on_units(s: AppStateView)
    requires
        s.edit_target == EditTarget::Units,
    ensures
        ({
            let now_imperial = s.unit_system == UnitSystem::Metric;
            let u = if now_imperial { UnitSystem::Imperial } else { UnitSystem::Metric };
            let v = f32_bits_of_byte(if now_imperial { 1 } else { 0 });
            let up = after_up_button(s);
            let down = after_down_button(s);
            &&& up.unit_system == u && down.unit_system == u
            &&& up.brightness_percent == s.brightness_percent
            &&& down.brightness_percent == s.brightness_percent
            &&& up.edit_target == s.edit_target && down.edit_target == s.edit_target
            &&& up.buzzer_enabled == s.buzzer_enabled && up.values == s.values && up.config == s.config
            &&& down.buzzer_enabled == s.buzzer_enabled && down.values == s.values && down.config
                == s.config
            &&& up.events == queue_push(
                queue_push(s.events, PanelEvent { kind: EventKind::UnitSystemChanged, value: v }),
                PanelEvent { kind: EventKind::UpPressed, value: v },
            )
            &&& down.events == queue_push(
                queue_push(s.events, PanelEvent { kind: EventKind::UnitSystemChanged, value: v }),
                PanelEvent { kind: EventKind::DownPressed, value: v },
            )
            &&& adjusted_brightness(s, 1) is None && adjusted_brightness(s, -1) is None
        }),
{
}

/// While editing brightness, UP raises and DOWN lowers it by five percent,
/// kept within 10 to 100; the new brightness goes to the display and is the
/// value of both queued events, BrightnessChanged and then the press.
pub proof fn lemma_up_down_on_brightness(s: AppStateView)
    requires
        s.edit_target == EditTarget::Brightness,
    ensures
        ({
            let raised = s.brightness_percent + 5;
            let lowered = s.brightness_percent - 5;
            let b_up: u8 = if raised > 100 { 100 } else if raised < 10 { 10 } else { raised as u8 };
            let b_down: u8 = if lowered < 10 { 10 } else if lowered > 100 { 100 } else { lowered as u8 };
            let up = after_up_button(s);
            let down = after_down_button(s);
            &&& up.brightness_percent == b_up && down.brightness_percent == b_down
            &&& up.unit_system == s.unit_system && down.unit_system == s.unit_system
            &&& up.edit_target == s.edit_target && down.edit_target == s.edit_target
            &&& up.buzzer_enabled == s.buzzer_enabled && up.values == s.values && up.config == s.config
            &&& down.buzzer_enabled == s.buzzer_enabled && down.values == s.values && down.config
                == s.config
            &&& up.events == queue_push(
                queue_push(
                    s.events,
                    PanelEvent { kind: EventKind::BrightnessChanged, value: f32_bits_of_byte(b_up) },
                ),
                PanelEvent { kind: EventKind::UpPressed, value: f32_bits_of_byte(b_up) },
            )
            &&& down.events == queue_push(
                queue_push(
                    s.events,
                    PanelEvent { kind: EventKind::BrightnessChanged, value: f32_bits_of_byte(b_down) },
                ),
                PanelEvent { kind: EventKind::DownPressed, value: f32_bits_of_byte(b_down) },
            )
            &&& down.events.last() == (PanelEvent {
                kind: EventKind::DownPressed,
                value: f32_bits_of_byte(down.brightness_percent),
            })
            &&& up.events.last() == (PanelEvent {
                kind: EventKind::UpPressed,
                value: f32_bits_of_byte(up.brightness_percent),
            })
            &&& adjusted_brightness(s, 1) == Some(b_up)
            &&& adjusted_brightness(s, -1) == Some(b_down)
        }),
{
}

/// What each request does: `SetValue` stores the value in the field of its
/// kind and is acknowledged; `GetValue` answers with the same kind and the
/// value of that kind's field; `GetEvent` answers with the oldest event and
/// removes it; only `Configure` changes the display brightness.
pub proof fn lemma_requests(s: AppStateView, kind: ValueKind, value: u32)
    ensures
        answer(s, ClientMessage::SetValue { kind, value }) == ServerMessage::Ack,
        after_message(s, ClientMessage::SetValue { kind, value }).values == with_measurement(
            s.values,
            kind,
            value,
        ),
        after_message(s, ClientMessage::SetValue { kind, value }).events == s.events,
        after_message(s, ClientMessage::SetValue { kind, value }).unit_system == s.unit_system,
        after_message(s, ClientMessage::SetValue { kind, value }).brightness_percent
            == s.brightness_percent,
        kind == ValueKind::Co2 ==> answer(s, ClientMessage::GetValue { kind }) == (
        ServerMessage::Value { kind: ValueKind::Co2, value: s.values.co2 }),
        kind == ValueKind::Humidity ==> answer(s, ClientMessage::GetValue { kind }) == (
        ServerMessage::Value { kind: ValueKind::Humidity, value: s.values.humidity }),
        kind == ValueKind::Temperature ==> answer(s, ClientMessage::GetValue { kind }) == (
        ServerMessage::Value { kind: ValueKind::Temperature, value: s.values.temperature }),
        kind == ValueKind::Pressure ==> answer(s, ClientMessage::GetValue { kind }) == (
        ServerMessage::Value { kind: ValueKind::Pressure, value: s.values.pressure }),
        s.events.len() > 0 ==> after_message(s, ClientMessage::GetEvent).events.len() + 1
            == s.events.len(),
        after_message(s, ClientMessage::GetEvent).values == s.values,
        brightness_after_message(ClientMessage::SetValue { kind, value }) is None,
        brightness_after_message(ClientMessage::GetValue { kind }) is None,
        brightness_after_message(ClientMessage::GetEvent) is None,
{
}

} // verus!

verus! {

/// For any step count, adjusting the brightness moves it by five percent per
/// step and keeps it within 10 to 100; adjusting the units flips them
/// whatever the step count.
pub proof fn lemma_adjust_any_direction(s: AppStateView, direction: int)
    ensures
        s.edit_target == EditTarget::Brightness ==> ({
            let b = s.brightness_percent + 5 * direction;
            &&& b < 10 ==> adjusted(s, direction).brightness_percent == 10
            &&& b > 100 ==> adjusted(s, direction).brightness_percent == 100
            &&& 10 <= b <= 100 ==> adjusted(s, direction).brightness_percent == b
            &&& adjusted_brightness(s, direction) == Some(adjusted(s, direction).brightness_percent)
            &&& adjusted(s, direction).unit_system == s.unit_system
        }),
        s.edit_target == EditTarget::Units ==> adjusted(s, direction).unit_system != s.unit_system
            && adjusted(s, direction).brightness_percent == s.brightness_percent
            && adjusted_brightness(s, direction) is None,
{
}

} // verus!

verus! {

/// At start-up the panel shows the factory configuration in metric units at
/// 80 % brightness, buzzer off, editing units, with no values and no events.
pub proof fn lemma_initial_state()
    ensures
        initial_state().config == default_config(),
        initial_state().unit_system == UnitSystem::Metric,
        initial_state().brightness_percent == 80,
        !initial_state().buzzer_enabled,
        initial_state().edit_target == EditTarget::Units,
        initial_state().events.len() == 0,
        initial_state().values.co2 is None && initial_state().values.humidity is None
            && initial_state().values.temperature is None && initial_state().values.pressure is None,
{
}

} // verus!
