use chrono::{Datelike, Timelike};
use vstd::prelude::*;
use crate::panel::EditTarget;
use crate::protocol::UnitSystem;
use crate::text::{decimal, push_char, push_decimal, push_zero_padded, zero_padded};

verus! {

/// The unit in which the panel shows the temperature.
pub fn temperature_unit(unit_system: UnitSystem) -> (unit: &'static str)
    ensures
        unit@ == (match unit_system {
            UnitSystem::Metric => "C"@,
            UnitSystem::Imperial => "F"@,
        }),
{
    match unit_system {
        UnitSystem::Metric => "C",
        UnitSystem::Imperial => "F",
    }
}

/// The unit in which the panel shows the ambient pressure.
pub fn pressure_unit(unit_system: UnitSystem) -> (unit: &'static str)
    ensures
        unit@ == (match unit_system {
            UnitSystem::Metric => "hPa"@,
            UnitSystem::Imperial => "inHg"@,
        }),
{
    match unit_system {
        UnitSystem::Metric => "hPa",
        UnitSystem::Imperial => "inHg",
    }
}

/// The name of the setting that UP and DOWN change.
pub fn edit_target_label(target: EditTarget) -> (label: &'static str)
    ensures
        label@ == (match target {
            EditTarget::Units => "Einheiten"@,
            EditTarget::Brightness => "Helligkeit"@,
        }),
{
    match target {
        EditTarget::Units => "Einheiten",
        EditTarget::Brightness => "Helligkeit",
    }
}

/// The name of the unit system in the status line.
pub fn unit_system_label(unit_system: UnitSystem) -> (label: &'static str)
    ensures
        label@ == (match unit_system {
            UnitSystem::Metric => "Metrisch"@,
            UnitSystem::Imperial => "Imperial"@,
        }),
{
    match unit_system {
        UnitSystem::Metric => "Metrisch",
        UnitSystem::Imperial => "Imperial",
    }
}

/// The buzzer's state in the status line.
pub fn buzzer_label(enabled: bool) -> (label: &'static str)
    ensures
        label@ == (if enabled { "Buzzer an"@ } else { "Buzzer aus"@ }),
{
    if enabled {
        "Buzzer an"
    } else {
        "Buzzer aus"
    }
}

/// The brightness in the status line, such as "80%".
pub fn brightness_label(percent: u8) -> (label: String)
    ensures
        label@ == decimal(percent as nat).push('%'),
{
    let mut label = String::new();
    push_decimal(&mut label, percent as u64);
    push_char(&mut label, '%');
    label
}

/// The local wall-clock time, minute precision.
pub struct LocalTime {
    pub year: i32,
    pub month: u32,
    pub day: u32,
    pub hour: u32,
    pub minute: u32,
}

/// Reads the clock with `chrono::Local::now` and takes the calendar fields
/// of the result (`year`, `month`, `day`, `hour`, `minute`). Claimed, as
/// chrono documents its fields: hour 0 to 23, minute 0 to 59, day 1 to 31,
/// month 1 to 12. Which time it is, is not stated.
#[verifier::external_body]
fn local_now() -> (now: LocalTime)
    ensures
        now.hour < 24,
        now.minute < 60,
        1 <= now.day <= 31,
        1 <= now.month <= 12,
{
    let now = chrono::Local::now();
    LocalTime {
        year: now.year(),
        month: now.month(),
        day: now.day(),
        hour: now.hour(),
        minute: now.minute(),
    }
}

/// The time as the panel's header shows it, "HH:MM".
pub open spec fn clock_text_of(hour: nat, minute: nat) -> Seq<char> {
    zero_padded(hour, 2) + seq![':'] + zero_padded(minute, 2)
}

/// The English abbreviation of a month, in capitals.
pub open spec fn month_abbreviation(month: nat) -> Seq<char> {
    if month == 1 {
        "JAN"@
    } else if month == 2 {
        "FEB"@
    } else if month == 3 {
        "MAR"@
    } else if month == 4 {
        "APR"@
    } else if month == 5 {
        "MAY"@
    } else if month == 6 {
        "JUN"@
    } else if month == 7 {
        "JUL"@
    } else if month == 8 {
        "AUG"@
    } else if month == 9 {
        "SEP"@
    } else if month == 10 {
        "OCT"@
    } else if month == 11 {
        "NOV"@
    } else {
        "DEC"@
    }
}

/// A year written with at least four digits; years outside 0 to 9999 carry
/// their sign in front.
pub open spec fn year_text_of(year: int) -> Seq<char> {
    if 0 <= year <= 9999 {
        zero_padded(year as nat, 4)
    } else if year < 0 {
        seq!['-'] + zero_padded((-year) as nat, 4)
    } else {
        seq!['+'] + zero_padded(year as nat, 4)
    }
}

/// The date as the panel's header shows it: "DD.MON", a line break, and the
/// year, such as "07.MAR\n2025".
pub open spec fn date_text_of(day: nat, month: nat, year: int) -> Seq<char> {
    zero_padded(day, 2) + seq!['.'] + month_abbreviation(month) + seq!['\n'] + year_text_of(year)
}

/// Formats the time of the header.
pub fn clock_text(hour: u32, minute: u32) -> (text: String)
    requires
        hour < 24,
        minute < 60,
    ensures
        text@ == clock_text_of(hour as nat, minute as nat),
{
    let mut text = String::new();
    push_zero_padded(&mut text, hour as u64, 2);
    push_char(&mut text, ':');
    push_zero_padded(&mut text, minute as u64, 2);
    assert(text@ =~= clock_text_of(hour as nat, minute as nat));
    text
}

fn month_name(month: u32) -> (name: &'static str)
    ensures
        name@ == month_abbreviation(month as nat),
{
    if month == 1 {
        "JAN"
    } else if month == 2 {
        "FEB"
    } else if month == 3 {
        "MAR"
    } else if month == 4 {
        "APR"
    } else if month == 5 {
        "MAY"
    } else if month == 6 {
        "JUN"
    } else if month == 7 {
        "JUL"
    } else if month == 8 {
        "AUG"
    } else if month == 9 {
        "SEP"
    } else if month == 10 {
        "OCT"
    } else if month == 11 {
        "NOV"
    } else {
        "DEC"
    }
}

/// Formats the date of the header.
pub fn date_text(day: u32, month: u32, year: i32) -> (text: String)
    requires
        1 <= day <= 31,
        1 <= month <= 12,
    ensures
        text@ == date_text_of(day as nat, month as nat, year as int),
{
    let mut text = String::new();
    push_zero_padded(&mut text, day as u64, 2);
    push_char(&mut text, '.');
    text.append(month_name(month));
    push_char(&mut text, '\n');
    let ghost before_year = text@;
    if 0 <= year && year <= 9999 {
        push_zero_padded(&mut text, year as u64, 4);
    } else if year < 0 {
        push_char(&mut text, '-');
        let magnitude: i64 = -(year as i64);
        push_zero_padded(&mut text, magnitude as u64, 4);
    } else {
        push_char(&mut text, '+');
        push_zero_padded(&mut text, year as u64, 4);
    }
    assert(text@ =~= date_text_of(day as nat, month as nat, year as int));
    text
}

/// The two lines of the panel's header.
pub struct HeaderText {
    pub time: String,
    pub date: String,
}

/// Reads the clock and formats the header: whatever time the clock gives,
/// the texts are those of one valid local time.
pub fn header_text() -> (header: HeaderText)
    ensures
        exists|now: LocalTime|
            now.hour < 24 && now.minute < 60 && 1 <= now.day <= 31 && 1 <= now.month <= 12
                && header.time@ == clock_text_of(now.hour as nat, now.minute as nat)
                && header.date@ == date_text_of(now.day as nat, now.month as nat, now.year as int),
{
    let now = local_now();
    let header = HeaderText {
        time: clock_text(now.hour, now.minute),
        date: date_text(now.day, now.month, now.year),
    };
    assert(header.time@ == clock_text_of(now.hour as nat, now.minute as nat));
    header
}

} // verus!
