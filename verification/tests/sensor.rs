//! The compensation engine against the data sheet's reference values, and
//! the sensor driver against a scripted bus.

use gonk::history::CentiCelsius;
use gonk::sensor::BMP280Hardware;
use gonk::sensor::CalibrationData;
use gonk::sensor::calibration_from_bytes;
use gonk::sensor::compensate;
use gonk::sensor::decode_raw_temperature;
use gonk::traits::DelayTimer;
use gonk::traits::I2cBus;

/// The calibration words of the data sheet's worked example.
fn reference_calibration() -> CalibrationData {
    CalibrationData {
        dig_t1: 27504,
        dig_t2: 26435,
        dig_t3: -1000,
        dig_p1: 0,
        dig_p2: 0,
        dig_p3: 0,
        dig_p4: 0,
        dig_p5: 0,
        dig_p6: 0,
        dig_p7: 0,
        dig_p8: 0,
        dig_p9: 0,
    }
}

#[test]
fn compensate_reproduces_reference_output() {
    // data sheet worked example: raw 519888 with the reference calibration
    // compensates to 25.08 degrees Celsius
    let c = reference_calibration();
    let t: CentiCelsius = compensate(&c, 519888);
    assert_eq!(t, 2508);
}

#[test]
fn compensate_zero_raw_is_extreme_cold() {
    let c = reference_calibration();
    let t = compensate(&c, 0);
    // var1 = floor((0 - 55008) * 26435 / 2048) = -710028
    // var2 = floor(floor(27504^2 / 4096) * -1000 / 16384) = -11273
    // t = floor((-721301 * 5 + 128) / 256) = -14088
    assert_eq!(t, -14088);
}

#[test]
fn decode_raw_assembles_twenty_bits() {
    assert_eq!(decode_raw_temperature(0x7E, 0xED, 0x00), 519888);
    assert_eq!(decode_raw_temperature(0xFF, 0xFF, 0xF0), 0xFFFFF);
    assert_eq!(decode_raw_temperature(0, 0, 0x0F), 0);
}

#[test]
fn calibration_parses_little_endian_words() {
    let mut raw: Vec<u8> = vec![0u8; 24];
    raw[0] = 0x70; // T1 = 27504 = 0x6B70
    raw[1] = 0x6B;
    raw[2] = 0x43; // T2 = 26435 = 0x6743
    raw[3] = 0x67;
    raw[4] = 0x18; // T3 = -1000 = 0xFC18
    raw[5] = 0xFC;
    raw[6] = 0xDB; // P1 = 36315 = 0x8DDB
    raw[7] = 0x8D;
    raw[8] = 0x90; // P2 = -10768 = 0xD5F0 is wrong; use 0xD590 = -10864
    raw[9] = 0xD5;
    let c = calibration_from_bytes(&raw);
    assert_eq!(c.dig_t1, 27504);
    assert_eq!(c.dig_t2, 26435);
    assert_eq!(c.dig_t3, -1000);
    assert_eq!(c.dig_p1, 36315);
    assert_eq!(c.dig_p2, -10864);
    assert_eq!(c.dig_p3, 0);
}

/// A scripted bus: a register map of the chip, plus switches that make
/// chosen transactions fail.
struct ScriptedBus {
    fail_writes_to: Vec<u8>, // first command bytes whose write fails
    fail_reads_of: Vec<u8>,  // first command bytes whose write_read fails
    acked_addrs: Vec<u8>,    // addresses that acknowledge an empty write
}

impl ScriptedBus {
    fn working() -> ScriptedBus {
        ScriptedBus { fail_writes_to: Vec::new(), fail_reads_of: Vec::new(), acked_addrs: vec![0x76] }
    }
}

impl I2cBus for ScriptedBus {
    fn write(&mut self, addr: u8, bytes: &[u8]) -> Result<(), &'static str> {
        if bytes.is_empty() {
            return if self.acked_addrs.contains(&addr) { Ok(()) } else { Err("nack") };
        }
        if self.fail_writes_to.contains(&bytes[0]) {
            Err("nack")
        } else {
            Ok(())
        }
    }

    fn write_read(
        &mut self,
        _addr: u8,
        bytes: &[u8],
        read_len: usize,
    ) -> Result<Vec<u8>, &'static str> {
        let reg: u8 = bytes[0];
        if self.fail_reads_of.contains(&reg) {
            return Err("nack");
        }
        let mut out: Vec<u8> = vec![0u8; read_len];
        match reg {
            0xD0 => out[0] = 0x58,       // chip id
            0xF3 => out[0] = 0x00,       // status: memory copy finished
            0x88 => {
                // calibration block of the reference example
                out[0] = 0x70;
                out[1] = 0x6B;
                out[2] = 0x43;
                out[3] = 0x67;
                out[4] = 0x18;
                out[5] = 0xFC;
            },
            0xFA => {
                // raw reading 519888
                out[0] = 0x7E;
                out[1] = 0xED;
                out[2] = 0x00;
            },
            _ => {},
        }
        Ok(out)
    }
}

/// A timer that only counts how often it was asked to sleep.
struct CountingDelay {
    sleeps: u32,
}

impl DelayTimer for CountingDelay {
    fn delay_ms(&mut self, _ms: u32) {
        self.sleeps += 1;
    }
}

fn fresh_sensor() -> BMP280Hardware<ScriptedBus, CountingDelay> {
    BMP280Hardware::new(ScriptedBus::working(), CountingDelay { sleeps: 0 })
}

#[test]
fn read_before_init_is_refused() {
    let mut s = fresh_sensor();
    assert_eq!(s.read_temperature(), Err("Sensor not initialized"));
}

#[test]
fn init_then_read_gives_reference_temperature() {
    let mut s = fresh_sensor();
    assert_eq!(s.init(), Ok(()));
    assert_eq!(s.read_temperature(), Ok(2508));
}

#[test]
fn chip_id_comes_from_the_id_register() {
    let mut s = fresh_sensor();
    assert_eq!(s.read_chip_id(), Ok(0x58));
}

#[test]
fn scan_reports_acknowledging_addresses() {
    let mut s = fresh_sensor();
    assert_eq!(s.scan(), vec![0x76]);
}

#[test]
fn init_reports_reset_failure() {
    let mut s = BMP280Hardware::new(
        ScriptedBus {
            fail_writes_to: vec![0xE0],
            fail_reads_of: Vec::new(),
            acked_addrs: Vec::new(),
        },
        CountingDelay { sleeps: 0 },
    );
    assert_eq!(s.init(), Err("Failed to reset sensor"));
}

#[test]
fn init_reports_calibration_read_failure() {
    let mut s = BMP280Hardware::new(
        ScriptedBus {
            fail_writes_to: Vec::new(),
            fail_reads_of: vec![0x88],
            acked_addrs: Vec::new(),
        },
        CountingDelay { sleeps: 0 },
    );
    assert_eq!(s.init(), Err("Failed to read calibration data"));
}

#[test]
fn init_reports_chip_id_read_failure() {
    let mut s = BMP280Hardware::new(
        ScriptedBus {
            fail_writes_to: Vec::new(),
            fail_reads_of: vec![0xD0],
            acked_addrs: Vec::new(),
        },
        CountingDelay { sleeps: 0 },
    );
    assert_eq!(s.init(), Err("i2c read failed"));
}

#[test]
fn init_reports_config_register_failure() {
    let mut s = BMP280Hardware::new(
        ScriptedBus {
            fail_writes_to: vec![0xF5],
            fail_reads_of: Vec::new(),
            acked_addrs: Vec::new(),
        },
        CountingDelay { sleeps: 0 },
    );
    assert_eq!(s.init(), Err("Failed to configure config register"));
}

#[test]
fn init_reports_control_register_failure() {
    let mut s = BMP280Hardware::new(
        ScriptedBus {
            fail_writes_to: vec![0xF4],
            fail_reads_of: Vec::new(),
            acked_addrs: Vec::new(),
        },
        CountingDelay { sleeps: 0 },
    );
    assert_eq!(s.init(), Err("Failed to configure control register"));
}

#[test]
fn early_init_failure_leaves_the_sensor_uninitialized() {
    let mut s = BMP280Hardware::new(
        ScriptedBus {
            fail_writes_to: vec![0xE0],
            fail_reads_of: Vec::new(),
            acked_addrs: Vec::new(),
        },
        CountingDelay { sleeps: 0 },
    );
    assert_eq!(s.init(), Err("Failed to reset sensor"));
    assert_eq!(s.read_temperature(), Err("Sensor not initialized"));
}

#[test]
fn late_init_failure_keeps_the_calibration() {
    let mut s = BMP280Hardware::new(
        ScriptedBus {
            fail_writes_to: vec![0xF4],
            fail_reads_of: Vec::new(),
            acked_addrs: Vec::new(),
        },
        CountingDelay { sleeps: 0 },
    );
    // the calibration block was read before the failing register write,
    // so conversions still work
    assert_eq!(s.init(), Err("Failed to configure control register"));
    assert_eq!(s.read_temperature(), Ok(2508));
}

#[test]
fn read_failure_is_reported_after_init() {
    let mut s = fresh_sensor();
    assert_eq!(s.init(), Ok(()));
    // now cut the raw-temperature register off
    let mut s2 = BMP280Hardware::new(
        ScriptedBus {
            fail_writes_to: Vec::new(),
            fail_reads_of: vec![0xFA],
            acked_addrs: Vec::new(),
        },
        CountingDelay { sleeps: 0 },
    );
    assert_eq!(s2.init(), Ok(()));
    assert_eq!(s2.read_temperature(), Err("I2C read error"));
}
