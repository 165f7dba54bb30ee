use chrono::{NaiveDate, Timelike};
use co2_panel::display::{
    brightness_label, buzzer_label, clock_text, date_text, edit_target_label, header_text,
    pressure_unit, temperature_unit, unit_system_label,
};
use co2_panel::panel::EditTarget;
use co2_panel::protocol::UnitSystem;

#[test]
fn units_per_system() {
    assert_eq!(temperature_unit(UnitSystem::Metric), "C");
    assert_eq!(temperature_unit(UnitSystem::Imperial), "F");
    assert_eq!(pressure_unit(UnitSystem::Metric), "hPa");
    assert_eq!(pressure_unit(UnitSystem::Imperial), "inHg");
}

#[test]
fn status_labels() {
    assert_eq!(edit_target_label(EditTarget::Units), "Einheiten");
    assert_eq!(edit_target_label(EditTarget::Brightness), "Helligkeit");
    assert_eq!(unit_system_label(UnitSystem::Metric), "Metrisch");
    assert_eq!(unit_system_label(UnitSystem::Imperial), "Imperial");
    assert_eq!(buzzer_label(true), "Buzzer an");
    assert_eq!(buzzer_label(false), "Buzzer aus");
    assert_eq!(brightness_label(80), "80%");
    assert_eq!(brightness_label(5), "5%");
    assert_eq!(brightness_label(100), "100%");
    assert_eq!(brightness_label(0), "0%");
}

#[test]
fn clock_text_is_zero_padded() {
    assert_eq!(clock_text(7, 5), "07:05");
    assert_eq!(clock_text(23, 59), "23:59");
    assert_eq!(clock_text(0, 0), "00:00");
}

#[test]
fn date_text_examples() {
    assert_eq!(date_text(7, 3, 2025), "07.MAR\n2025");
    assert_eq!(date_text(31, 12, 999), "31.DEC\n0999");
    assert_eq!(date_text(1, 1, -5), "01.JAN\n-0005");
    assert_eq!(date_text(1, 1, 12345), "01.JAN\n+12345");
    assert_eq!(date_text(1, 1, 10000), "01.JAN\n+10000");
}

#[test]
fn date_text_matches_chrono_format() {
    for year in [-12345, -1, 0, 7, 999, 1999, 2025, 9999, 10000, 262000] {
        for month in 1..=12u32 {
            for day in [1u32, 9, 10, 28] {
                let d = NaiveDate::from_ymd_opt(year, month, day).unwrap();
                let expected = d.format("%d.%b\n%Y").to_string().to_uppercase();
                assert_eq!(date_text(day, month, year), expected);
            }
        }
    }
}

#[test]
fn clock_text_matches_chrono_format() {
    let d = NaiveDate::from_ymd_opt(2025, 3, 7).unwrap();
    for h in 0..24u32 {
        for m in [0u32, 5, 30, 59] {
            let t = d.and_hms_opt(h, m, 0).unwrap();
            assert_eq!(t.hour(), h);
            assert_eq!(clock_text(h, m), t.format("%H:%M").to_string());
        }
    }
}

#[test]
fn header_text_shows_local_time() {
    let before = chrono::Local::now();
    let header = header_text();
    let after = chrono::Local::now();
    let times = [before.format("%H:%M").to_string(), after.format("%H:%M").to_string()];
    let dates = [
        before.format("%d.%b\n%Y").to_string().to_uppercase(),
        after.format("%d.%b\n%Y").to_string().to_uppercase(),
    ];
    assert!(times.contains(&header.time), "{:?} {:?}", header.time, times);
    assert!(dates.contains(&header.date), "{:?} {:?}", header.date, dates);
}
