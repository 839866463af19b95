//! The shared model: atomic field-group updates and the sentinel policy.

use gonk::model::Model;
use gonk::model::SENSOR_FAULT_CENTI;
use gonk::model::SensorMeasurement;

#[test]
fn boot_model_is_zeroed_with_placeholder_address() {
    let m = Model::new();
    assert_eq!(m.temperature, 0);
    assert_eq!(m.humidity, 0);
    assert_eq!(m.pressure, 0);
    assert_eq!(m.ip_address.as_str(), "UNKNOWN");
}

#[test]
fn successful_reading_replaces_all_sensor_fields() {
    let mut m = Model::new();
    m.apply_reading(Ok(SensorMeasurement { temperature: 2315, humidity: 4437, pressure: 101325 }));
    assert_eq!(m.temperature, 2315);
    assert_eq!(m.humidity, 4437);
    assert_eq!(m.pressure, 101325);
    assert_eq!(m.ip_address.as_str(), "UNKNOWN");
}

#[test]
fn failed_reading_publishes_the_sentinel_everywhere() {
    let mut m = Model::new();
    m.apply_reading(Ok(SensorMeasurement { temperature: 2315, humidity: 4437, pressure: 101325 }));
    m.apply_reading(Err("read failed"));
    assert_eq!(m.temperature, SENSOR_FAULT_CENTI);
    assert_eq!(m.humidity, SENSOR_FAULT_CENTI);
    assert_eq!(m.pressure, SENSOR_FAULT_CENTI);
    assert_eq!(m.temperature, -99900);
}

#[test]
fn next_successful_cycle_overwrites_the_sentinel() {
    let mut m = Model::new();
    m.apply_reading(Err("read failed"));
    assert_eq!(m.temperature, SENSOR_FAULT_CENTI);
    m.apply_reading(Ok(SensorMeasurement { temperature: 2000, humidity: 5000, pressure: 100000 }));
    assert_eq!(m.temperature, 2000);
    assert_eq!(m.humidity, 5000);
    assert_eq!(m.pressure, 100000);
}

#[test]
fn acquired_address_is_published_and_kept() {
    let mut m = Model::new();
    let mut ip: heapless::String<16> = heapless::String::new();
    ip.push_str("10.0.0.42").unwrap();
    m.set_ip_address(ip);
    assert_eq!(m.ip_address.as_str(), "10.0.0.42");
    // sensor updates leave the address alone
    m.apply_reading(Err("read failed"));
    assert_eq!(m.ip_address.as_str(), "10.0.0.42");
}
