//! The shared snapshot of device state.
//!
//! A single [`Model`] instance, created at boot and guarded by a lock in
//! the surrounding program, is the only state shared between tasks: the
//! acquisition task writes the sensor fields, the connectivity manager
//! writes the address, and the renderer only reads. The update functions
//! here write a whole field group at once, so a reader under the same lock
//! never sees values from two different acquisition cycles.
//!
//! Sensor values are carried in hundredths of their unit (degrees Celsius,
//! percent relative humidity, hectopascal).

use vstd::prelude::*;

use crate::text::bytes_to_text16;
use crate::text::text16;

verus! {

/// Out-of-physical-range sentinel published after a failed sensor read:
/// -999.00 in hundredths. It keeps a failure visible on the display
/// without stopping the pipeline.
pub const SENSOR_FAULT_CENTI: i32 = -99900;

/// One successful combined reading, in hundredths of a unit.
#[derive(Clone, Copy, Debug, PartialEq, Eq, Structural)]
pub struct SensorMeasurement {
    /// Degrees Celsius, hundredths.
    pub temperature: i32,
    /// Percent relative humidity, hundredths.
    pub humidity: i32,
    /// Hectopascal, hundredths.
    pub pressure: i32,
}

/// The placeholder address shown until one is acquired.
pub open spec fn unknown_address_bytes() -> Seq<u8> {
    seq![85u8, 78u8, 75u8, 78u8, 79u8, 87u8, 78u8]  // "UNKNOWN"
}

/// Last-known sensor readings and network address.
pub struct Model {
    /// Degrees Celsius, hundredths; [`SENSOR_FAULT_CENTI`] after a failed read.
    pub temperature: i32,
    /// Percent relative humidity, hundredths; same sentinel policy.
    pub humidity: i32,
    /// Hectopascal, hundredths; same sentinel policy.
    pub pressure: i32,
    /// Human-readable acquired address, or "UNKNOWN".
    pub ip_address: heapless::String<16>,
}

impl Model {
    /// The model at boot: zero readings and the placeholder address.
    pub fn new() -> (m: Model)
        ensures
            m.temperature == 0,
            m.humidity == 0,
            m.pressure == 0,
            text16(m.ip_address) == unknown_address_bytes(),
    {
        let mut v: Vec<u8> = Vec::new();
        v.push(85);
        v.push(78);
        v.push(75);
        v.push(78);
        v.push(79);
        v.push(87);
        v.push(78);
        proof {
            assert(v@ =~= unknown_address_bytes());
        }
        let ip = bytes_to_text16(&v);
        Model { temperature: 0, humidity: 0, pressure: 0, ip_address: ip }
    }

    /// Publish one acquisition cycle: a successful reading replaces every
    /// sensor field, a failed one writes the sentinel into every sensor
    /// field — never a mixture — and the address is untouched either way.
    pub fn apply_reading(&mut self, reading: Result<SensorMeasurement, &'static str>)
        ensures
            reading matches Ok(m) ==> final (self).temperature == m.temperature,
            reading matches Ok(m) ==> final (self).humidity == m.humidity,
            reading matches Ok(m) ==> final (self).pressure == m.pressure,
            reading is Err ==> final (self).temperature == SENSOR_FAULT_CENTI,
            reading is Err ==> final (self).humidity == SENSOR_FAULT_CENTI,
            reading is Err ==> final (self).pressure == SENSOR_FAULT_CENTI,
            final (self).ip_address == old(self).ip_address,
    {
        match reading {
            Ok(m) => {
                self.temperature = m.temperature;
                self.humidity = m.humidity;
                self.pressure = m.pressure;
            },
            Err(_) => {
                self.temperature = SENSOR_FAULT_CENTI;
                self.humidity = SENSOR_FAULT_CENTI;
                self.pressure = SENSOR_FAULT_CENTI;
            },
        }
    }

    /// Publish the acquired network address.
    pub fn set_ip_address(&mut self, ip: heapless::String<16>)
        ensures
            final (self).temperature == old(self).temperature,
            final (self).humidity == old(self).humidity,
            final (self).pressure == old(self).pressure,
            final (self).ip_address == ip,
    {
        self.ip_address = ip;
    }
}

} // verus!
