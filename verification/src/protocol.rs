use vstd::prelude::*;
use vstd::arithmetic::power2::{pow2, lemma2_to64};
use crate::text::push_char;

verus! {

/// The socket on which the panel listens unless configured otherwise.
pub const DEFAULT_SOCKET_PATH: &'static str = "/tmp/co2-panel.sock";

/// Which measurement a value belongs to.
#[derive(Clone, Copy, Debug, PartialEq, Eq, Structural)]
pub enum ValueKind {
    Co2,
    Humidity,
    Temperature,
    Pressure,
}

/// Whether the panel shows metric or imperial units.
#[derive(Clone, Copy, Debug, PartialEq, Eq, Structural)]
pub enum UnitSystem {
    Metric,
    Imperial,
}

/// The touch events that the panel reports to the C program.
#[derive(Clone, Copy, Debug, PartialEq, Eq, Structural)]
pub enum EventKind {
    UnitPressed,
    UpPressed,
    DownPressed,
    BuzzerPressed,
    UnitSystemChanged,
    BuzzerChanged,
    BrightnessChanged,
}

/// Warning and alarm thresholds of one measurement, each the bit pattern of
/// an `f32`.
#[derive(Clone, Copy, Debug, PartialEq, Eq, Structural)]
pub struct Limits {
    pub warn: u32,
    pub alarm: u32,
}

/// The configuration that a C program sends when it connects.
#[derive(Clone, Debug, PartialEq, Eq)]
pub struct PanelConfig {
    pub app_name: String,
    pub socket_path: String,
    pub fullscreen: bool,
    pub update_interval_ms: u32,
    pub unit_system: UnitSystem,
    pub brightness_percent: u8,
    pub co2: Limits,
    pub humidity: Limits,
    pub temperature: Limits,
    pub pressure: Limits,
}

/// A `PanelConfig` with its strings taken as character sequences.
pub struct PanelConfigView {
    pub app_name: Seq<char>,
    pub socket_path: Seq<char>,
    pub fullscreen: bool,
    pub update_interval_ms: u32,
    pub unit_system: UnitSystem,
    pub brightness_percent: u8,
    pub co2: Limits,
    pub humidity: Limits,
    pub temperature: Limits,
    pub pressure: Limits,
}

impl View for PanelConfig {
    type V = PanelConfigView;

    open spec fn view(&self) -> PanelConfigView {
        PanelConfigView {
            app_name: self.app_name@,
            socket_path: self.socket_path@,
            fullscreen: self.fullscreen,
            update_interval_ms: self.update_interval_ms,
            unit_system: self.unit_system,
            brightness_percent: self.brightness_percent,
            co2: self.co2,
            humidity: self.humidity,
            temperature: self.temperature,
            pressure: self.pressure,
        }
    }
}

/// The factory configuration: "CO2 Panel" on the default socket, full
/// screen, one update per second, metric units, 80 % brightness, and the
/// limits CO2 800/1200 ppm, humidity 65/80 %, temperature 28/35 degrees C,
/// pressure 1030/1050 hPa (as `f32` bit patterns).
pub open spec fn default_config() -> PanelConfigView {
    PanelConfigView {
        app_name: "CO2 Panel"@,
        socket_path: DEFAULT_SOCKET_PATH@,
        fullscreen: true,
        update_interval_ms: 1000,
        unit_system: UnitSystem::Metric,
        brightness_percent: 80,
        co2: Limits { warn: 0x4448_0000, alarm: 0x4496_0000 },
        humidity: Limits { warn: 0x4282_0000, alarm: 0x42A0_0000 },
        temperature: Limits { warn: 0x41E0_0000, alarm: 0x420C_0000 },
        pressure: Limits { warn: 0x4480_C000, alarm: 0x4483_4000 },
    }
}

impl Default for PanelConfig {
    fn default() -> (config: Self)
        ensures
            config@ == default_config(),
    {
        PanelConfig {
            app_name: String::from_str("CO2 Panel"),
            socket_path: String::from_str(DEFAULT_SOCKET_PATH),
            fullscreen: true,
            update_interval_ms: 1000,
            unit_system: UnitSystem::Metric,
            brightness_percent: 80,
            co2: Limits { warn: 0x4448_0000, alarm: 0x4496_0000 },
            humidity: Limits { warn: 0x4282_0000, alarm: 0x42A0_0000 },
            temperature: Limits { warn: 0x41E0_0000, alarm: 0x420C_0000 },
            pressure: Limits { warn: 0x4480_C000, alarm: 0x4483_4000 },
        }
    }
}

/// A touch event with its value (the bit pattern of an `f32`).
#[derive(Clone, Copy, Debug, PartialEq, Eq, Structural)]
pub struct PanelEvent {
    pub kind: EventKind,
    pub value: u32,
}

/// A request from the C program to the panel.
#[derive(Clone, Debug, PartialEq, Eq)]
pub enum ClientMessage {
    Configure { config: PanelConfig },
    SetValue { kind: ValueKind, value: u32 },
    GetValue { kind: ValueKind },
    GetEvent,
}

/// The panel's answer to a request (`Ack` is the protocol's plain "ok").
#[derive(Clone, Debug, PartialEq, Eq)]
pub enum ServerMessage {
    Ack,
    Value { kind: ValueKind, value: Option<u32> },
    Event { event: Option<PanelEvent> },
    Error { message: String },
}

/// Frames one encoded message as a line of the protocol: the message text
/// followed by a newline.
pub fn encode_line(message: &str) -> (line: String)
    ensures
        line@ == message@.push('\n'),
{
    let mut line = String::from_str(message);
    push_char(&mut line, '\n');
    line
}

/// A framed message that holds no newline of its own is exactly one line:
/// its only newline is the last character, and the message comes before it.
pub proof fn lemma_frame_is_one_line(message: Seq<char>)
    requires
        !message.contains('\n'),
    ensures
        message.push('\n').last() == '\n',
        message.push('\n').drop_last() == message,
        forall|i: int| 0 <= i < message.len() ==> message.push('\n')[i] != '\n',
{
    assert(message.push('\n').drop_last() =~= message);
}

/// The position of the highest set bit of a nonzero byte (its base-2
/// logarithm, rounded down).
pub open spec fn highest_bit(n: u8) -> nat {
    if n >= 128 {
        7
    } else if n >= 64 {
        6
    } else if n >= 32 {
        5
    } else if n >= 16 {
        4
    } else if n >= 8 {
        3
    } else if n >= 4 {
        2
    } else if n >= 2 {
        1
    } else {
        0
    }
}

/// The IEEE-754 single-precision bit pattern of the whole number `n`: sign
/// 0, biased exponent `127 + e` with `2^e <= n < 2^(e+1)`, and the bits of
/// `n` below its leading one as the top of the 23-bit fraction; zero is the
/// all-zero pattern.
pub open spec fn f32_bits_of_byte(n: u8) -> u32 {
    if n == 0 {
        0
    } else {
        let e = highest_bit(n);
        ((127 + e) * pow2(23) + (n - pow2(e)) * pow2((23 - e) as nat)) as u32
    }
}

/// Bit patterns of whole numbers grow with the numbers (as positive `f32`
/// patterns do), so distinct numbers get distinct patterns; 0, 1 and 100
/// are 0x0000_0000, 0x3F80_0000 and 0x42C8_0000.
pub proof fn lemma_f32_bits_of_byte_order(a: u8, b: u8)
    ensures
        a < b ==> f32_bits_of_byte(a) < f32_bits_of_byte(b),
        f32_bits_of_byte(0) == 0,
        f32_bits_of_byte(1) == 0x3F80_0000,
        f32_bits_of_byte(100) == 0x42C8_0000,
{
    lemma_f32_bits_of_byte_piecewise(a);
    lemma_f32_bits_of_byte_piecewise(b);
    lemma_f32_bits_of_byte_piecewise(0);
    lemma_f32_bits_of_byte_piecewise(1);
    lemma_f32_bits_of_byte_piecewise(100);
}

proof fn lemma_f32_bits_of_byte_piecewise(n: u8)
    ensures
        f32_bits_of_byte(n) == (if n >= 128 {
            0x4300_0000 + (n - 128) * 0x1_0000
        } else if n >= 64 {
            0x4280_0000 + (n - 64) * 0x2_0000
        } else if n >= 32 {
            0x4200_0000 + (n - 32) * 0x4_0000
        } else if n >= 16 {
            0x4180_0000 + (n - 16) * 0x8_0000
        } else if n >= 8 {
            0x4100_0000 + (n - 8) * 0x10_0000
        } else if n >= 4 {
            0x4080_0000 + (n - 4) * 0x20_0000
        } else if n >= 2 {
            0x4000_0000 + (n - 2) * 0x40_0000
        } else if n == 1 {
            0x3F80_0000
        } else {
            0int
        }),
{
    lemma2_to64();
}

/// Encodes a whole number from 0 to 255 as the bit pattern of the `f32`
/// that has its value (what `n as f32` gives).
pub fn byte_to_f32_bits(n: u8) -> (bits: u32)
    ensures
        bits == f32_bits_of_byte(n),
{
    proof {
        lemma2_to64();
    }
    let m = n as u32;
    if n >= 128 {
        0x4300_0000 + (m - 128) * 0x1_0000
    } else if n >= 64 {
        0x4280_0000 + (m - 64) * 0x2_0000
    } else if n >= 32 {
        0x4200_0000 + (m - 32) * 0x4_0000
    } else if n >= 16 {
        0x4180_0000 + (m - 16) * 0x8_0000
    } else if n >= 8 {
        0x4100_0000 + (m - 8) * 0x10_0000
    } else if n >= 4 {
        0x4080_0000 + (m - 4) * 0x20_0000
    } else if n >= 2 {
        0x4000_0000 + (m - 2) * 0x40_0000
    } else if n == 1 {
        0x3F80_0000
    } else {
        0
    }
}

} // verus!
