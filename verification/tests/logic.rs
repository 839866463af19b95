//! Behavior of the rolling temperature history: averages, comfort
//! classification and formatting. Temperatures are in hundredths of a
//! degree Celsius.

use gonk::history::AppLogic;
use gonk::history::Status;
use gonk::history::classify;

#[test]
fn average_none_before_any_sample() {
    let app = AppLogic::new();
    assert_eq!(app.average_temperature(), None);
    assert_eq!(app.current_status(), Status::NoData);
    assert_eq!(app.temperature_status(), "No data");
}

#[test]
fn single_reading_average_and_status() {
    let mut app = AppLogic::new();
    app.record_temperature(2250);
    assert_eq!(app.average_temperature(), Some(2250));
    assert_eq!(app.temperature_status(), "Comfortable");
    let formatted = app.format_temperature(2250);
    assert!(formatted.as_str().contains("22.5"));
    assert!(formatted.as_str().contains("Comfortable"));
}

#[test]
fn multiple_readings_average() {
    let mut app = AppLogic::new();
    app.record_temperature(2000);
    app.record_temperature(2200);
    app.record_temperature(2400);
    assert_eq!(app.average_temperature(), Some(2200));
}

#[test]
fn rolling_buffer_evicts_oldest_first() {
    let mut app = AppLogic::new();
    let values: [i32; 6] = [200, 1200, 2200, 3200, 4200, 10000];
    for v in values {
        app.record_temperature(v);
    }
    // the first value is gone; the average covers the last five:
    // (1200 + 2200 + 3200 + 4200 + 10000) / 5 = 4160
    assert_eq!(app.average_temperature(), Some(4160));
}

#[test]
fn warm_up_divides_by_filled_slots_only() {
    let mut app = AppLogic::new();
    app.record_temperature(1000);
    app.record_temperature(3000);
    // two samples: divisor 2, not the capacity
    assert_eq!(app.average_temperature(), Some(2000));
}

#[test]
fn status_cold_and_hot() {
    let mut app = AppLogic::new();
    app.record_temperature(500);
    assert_eq!(app.temperature_status(), "Cold");

    let mut app = AppLogic::new();
    app.record_temperature(3500);
    assert_eq!(app.temperature_status(), "Hot");
}

#[test]
fn status_all_bands() {
    let cases: [(i32, &str); 5] = [
        (500, "Cold"),
        (1500, "Cool"),
        (2200, "Comfortable"),
        (2800, "Warm"),
        (3500, "Hot"),
    ];
    for (t, label) in cases {
        let mut app = AppLogic::new();
        app.record_temperature(t);
        assert_eq!(app.temperature_status(), label, "for {t}");
    }
}

#[test]
fn status_band_edges() {
    assert_eq!(classify(999), Status::Cold);
    assert_eq!(classify(1000), Status::Cool);
    assert_eq!(classify(1999), Status::Cool);
    assert_eq!(classify(2000), Status::Comfortable);
    assert_eq!(classify(2499), Status::Comfortable);
    assert_eq!(classify(2500), Status::Warm);
    assert_eq!(classify(2999), Status::Warm);
    assert_eq!(classify(3000), Status::Hot);
    assert_eq!(classify(-99900), Status::Cold);
}

#[test]
fn format_exact_text() {
    let mut app = AppLogic::new();
    app.record_temperature(2250);
    assert_eq!(app.format_temperature(2250).as_str(), "22.5C Comfortable");
}

#[test]
fn format_negative_value() {
    let mut app = AppLogic::new();
    app.record_temperature(-99900);
    let s = app.format_temperature(-99900);
    assert_eq!(s.as_str(), "-999.0C Cold");
}

#[test]
fn format_uses_status_of_average_not_of_argument() {
    let mut app = AppLogic::new();
    app.record_temperature(500); // average is cold
    let s = app.format_temperature(3500); // a hot instantaneous reading
    assert_eq!(s.as_str(), "35.0C Cold");
}

#[test]
fn sliding_window_keeps_sliding() {
    let mut app = AppLogic::new();
    for v in [100, 200, 300, 400, 500, 600, 700] {
        app.record_temperature(v);
    }
    // window is [300, 400, 500, 600, 700]
    assert_eq!(app.average_temperature(), Some(500));
}
