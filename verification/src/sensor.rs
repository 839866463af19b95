//! Temperature sensor driver and compensation engine.
//!
//! The chip delivers a 20-bit raw reading plus a block of manufacturer
//! calibration words; the data sheet's integer compensation formula turns
//! the two into hundredths of a degree Celsius. The formula is reproduced
//! step for step: the reference's arithmetic right shifts are floor
//! divisions by powers of two, which is what the mathematical `/` of the
//! contracts means for positive divisors.

use vstd::prelude::*;

use crate::history::CentiCelsius;
use crate::num::div_floor_i64;
use crate::traits::DelayTimer;
use crate::traits::I2cBus;

verus! {

/// Manufacturer calibration words, read once from the chip's register
/// block at 0x88 and immutable afterwards.
#[derive(Clone, Copy, Debug, PartialEq, Eq, Structural)]
pub struct CalibrationData {
    pub dig_t1: u16,
    pub dig_t2: i16,
    pub dig_t3: i16,
    pub dig_p1: u16,
    pub dig_p2: i16,
    pub dig_p3: i16,
    pub dig_p4: i16,
    pub dig_p5: i16,
    pub dig_p6: i16,
    pub dig_p7: i16,
    pub dig_p8: i16,
    pub dig_p9: i16,
}

/// The unsigned 16-bit value of two little-endian bytes.
pub open spec fn le_u16(lo: u8, hi: u8) -> u16 {
    (lo + 256 * hi) as u16
}

/// The signed 16-bit value of two little-endian bytes.
pub open spec fn le_i16(lo: u8, hi: u8) -> i16 {
    if lo + 256 * hi < 32768 {
        (lo + 256 * hi) as i16
    } else {
        (lo + 256 * hi - 65536) as i16
    }
}

/// Layout of the 24-byte calibration block: twelve little-endian 16-bit
/// words, T1 and P1 unsigned and the rest signed.
pub open spec fn spec_calibration(raw: Seq<u8>) -> CalibrationData
    recommends
        raw.len() >= 24,
{
    CalibrationData {
        dig_t1: le_u16(raw[0], raw[1]),
        dig_t2: le_i16(raw[2], raw[3]),
        dig_t3: le_i16(raw[4], raw[5]),
        dig_p1: le_u16(raw[6], raw[7]),
        dig_p2: le_i16(raw[8], raw[9]),
        dig_p3: le_i16(raw[10], raw[11]),
        dig_p4: le_i16(raw[12], raw[13]),
        dig_p5: le_i16(raw[14], raw[15]),
        dig_p6: le_i16(raw[16], raw[17]),
        dig_p7: le_i16(raw[18], raw[19]),
        dig_p8: le_i16(raw[20], raw[21]),
        dig_p9: le_i16(raw[22], raw[23]),
    }
}

/// Read one unsigned little-endian word.
fn read_le_u16(raw: &Vec<u8>, i: usize) -> (v: u16)
    requires
        i < 23,
        raw@.len() == 24,
    ensures
        v == le_u16(raw@[i as int], raw@[i as int + 1]),
{
    (raw[i] as u16) + 256 * (raw[i + 1] as u16)
}

/// Read one signed little-endian word.
fn read_le_i16(raw: &Vec<u8>, i: usize) -> (v: i16)
    requires
        i < 23,
        raw@.len() == 24,
    ensures
        v == le_i16(raw@[i as int], raw@[i as int + 1]),
{
    let u: u32 = (raw[i] as u32) + 256 * (raw[i + 1] as u32);
    if u >= 32768 {
        ((u as i32) - 65536) as i16
    } else {
        u as i16
    }
}

/// Decode the 24-byte calibration block.
pub fn calibration_from_bytes(raw: &Vec<u8>) -> (c: CalibrationData)
    requires
        raw@.len() == 24,
    ensures
        c == spec_calibration(raw@),
{
    CalibrationData {
        dig_t1: read_le_u16(raw, 0),
        dig_t2: read_le_i16(raw, 2),
        dig_t3: read_le_i16(raw, 4),
        dig_p1: read_le_u16(raw, 6),
        dig_p2: read_le_i16(raw, 8),
        dig_p3: read_le_i16(raw, 10),
        dig_p4: read_le_i16(raw, 12),
        dig_p5: read_le_i16(raw, 14),
        dig_p6: read_le_i16(raw, 16),
        dig_p7: read_le_i16(raw, 18),
        dig_p8: read_le_i16(raw, 20),
        dig_p9: read_le_i16(raw, 22),
    }
}

/// The 20-bit raw temperature held in three registers: the most
/// significant byte, the least significant byte, and the high nibble of
/// the extra-low byte.
pub open spec fn spec_adc(b0: u8, b1: u8, b2: u8) -> int {
    4096 * b0 + 16 * b1 + b2 / 16
}

/// Assemble the raw reading from its three registers.
pub fn decode_raw_temperature(b0: u8, b1: u8, b2: u8) -> (adc: i32)
    ensures
        adc == spec_adc(b0, b1, b2),
        0 <= adc < 0x100000,
{
    4096 * (b0 as i32) + 16 * (b1 as i32) + ((b2 / 16) as i32)
}

/// First intermediate of the reference formula:
/// `((adc >> 3) - (t1 << 1)) * t2 >> 11`.
pub open spec fn spec_var1(c: CalibrationData, adc: int) -> int {
    ((adc / 8 - 2 * c.dig_t1) * c.dig_t2) / 2048
}

/// Second intermediate of the reference formula:
/// `((((adc >> 4) - t1) * ((adc >> 4) - t1)) >> 12) * t3 >> 14`.
pub open spec fn spec_var2(c: CalibrationData, adc: int) -> int {
    ((adc / 16 - c.dig_t1) * (adc / 16 - c.dig_t1)) / 4096 * c.dig_t3 / 16384
}

/// Fine-resolution intermediate temperature.
pub open spec fn spec_t_fine(c: CalibrationData, adc: int) -> int {
    spec_var1(c, adc) + spec_var2(c, adc)
}

/// Compensated temperature in hundredths of a degree:
/// `(t_fine * 5 + 128) >> 8`.
pub open spec fn spec_compensate(c: CalibrationData, adc: int) -> int {
    (spec_t_fine(c, adc) * 5 + 128) / 256
}

/// The data sheet's integer compensation, bit for bit: every intermediate
/// equals the corresponding step of the reference formula.
pub fn compensate(c: &CalibrationData, adc_t: i32) -> (t: CentiCelsius)
    requires
        0 <= adc_t < 0x100000,
    ensures
        t == spec_compensate(*c, adc_t as int),
{
    let adc: i64 = adc_t as i64;
    let t1: i64 = c.dig_t1 as i64;
    let t2: i64 = c.dig_t2 as i64;
    let t3: i64 = c.dig_t3 as i64;

    let adc8 = div_floor_i64(adc, 8);
    let diff1 = adc8 - 2 * t1;
    proof {
        assert(-0x2_0000_0000 <= diff1 * t2 <= 0x2_0000_0000) by (nonlinear_arith)
            requires
                -0x4_0000 <= diff1 <= 0x4_0000,
                -0x8000 <= t2 <= 0x8000,
        ;
    }
    let v1 = diff1 * t2;
    let var1 = div_floor_i64(v1, 2048);

    let adc16 = div_floor_i64(adc, 16);
    let d = adc16 - t1;
    proof {
        assert(0 <= d * d <= 0x1_0000_0000) by (nonlinear_arith)
            requires
                -0x1_0000 <= d <= 0x1_0000,
        ;
    }
    let sq = d * d;
    let sq12 = div_floor_i64(sq, 4096);
    proof {
        vstd::arithmetic::div_mod::lemma_div_is_ordered(sq as int, 0x1_0000_0000, 4096);
        assert(-0x8_0000_0000 <= sq12 * t3 <= 0x8_0000_0000) by (nonlinear_arith)
            requires
                0 <= sq12 <= 0x10_0000,
                -0x8000 <= t3 <= 0x8000,
        ;
    }
    let v2 = sq12 * t3;
    let var2 = div_floor_i64(v2, 16384);

    let t_fine = var1 + var2;
    let x = t_fine * 5 + 128;
    let centi = div_floor_i64(x, 256);
    proof {
        vstd::arithmetic::div_mod::lemma_div_is_ordered(-0x32_0000_0080, x as int, 256);
        vstd::arithmetic::div_mod::lemma_div_is_ordered(x as int, 0x32_0000_0080, 256);
    }
    centi as i32
}

/// The five initialization error messages are pairwise distinct texts
/// (their lengths already differ), so a message pins down which step
/// failed.
proof fn lemma_init_error_texts_distinct()
    ensures
        "Failed to reset sensor"@ != "Failed to configure config register"@,
        "i2c read failed"@ != "Failed to configure config register"@,
        "Failed to read calibration data"@ != "Failed to configure config register"@,
        "Failed to reset sensor"@ != "Failed to configure control register"@,
        "i2c read failed"@ != "Failed to configure control register"@,
        "Failed to read calibration data"@ != "Failed to configure control register"@,
{
    reveal_strlit("Failed to reset sensor");
    reveal_strlit("i2c read failed");
    reveal_strlit("Failed to read calibration data");
    reveal_strlit("Failed to configure config register");
    reveal_strlit("Failed to configure control register");
    assert("Failed to reset sensor"@.len() == 22);
    assert("i2c read failed"@.len() == 15);
    assert("Failed to read calibration data"@.len() == 31);
    assert("Failed to configure config register"@.len() == 35);
    assert("Failed to configure control register"@.len() == 36);
}

/// Temperature sensor driver: talks to the chip over a bus capability and
/// keeps the calibration constants read at initialization.
pub struct BMP280Hardware<B: I2cBus, D: DelayTimer> {
    i2c: B,
    delay: D,
    calibration: Option<CalibrationData>,
    address: u8,
}

impl<B: I2cBus, D: DelayTimer> BMP280Hardware<B, D> {
    /// The calibration constants, once read.
    pub closed spec fn calibration(&self) -> Option<CalibrationData> {
        self.calibration
    }

    /// The bus address the driver talks to.
    pub closed spec fn address(&self) -> u8 {
        self.address
    }

    /// A driver bound to the chip's default bus address, not yet
    /// initialized.
    pub fn new(i2c: B, delay: D) -> (r: Self)
        ensures
            r.calibration() is None,
            r.address() == 0x76,
    {
        BMP280Hardware { i2c, delay, calibration: None, address: 0x76 }
    }

    /// Probe every assignable bus address and collect, in increasing
    /// order, those that acknowledge an empty write.
    pub fn scan(&mut self) -> (found: Vec<u8>)
        ensures
            final (self).calibration() == old(self).calibration(),
            final (self).address() == old(self).address(),
            forall|i: int| 0 <= i < found@.len() ==> 0x03 <= #[trigger] found@[i] <= 0x77,
            forall|i: int, j: int| 0 <= i < j < found@.len() ==> found@[i] < found@[j],
    {
        let ghost cal0 = self.calibration;
        let ghost a0 = self.address;
        let mut found: Vec<u8> = Vec::new();
        let empty: Vec<u8> = Vec::new();
        let mut addr: u8 = 0x03;
        while addr <= 0x77
            invariant
                self.calibration == cal0,
                self.address == a0,
                0x03 <= addr <= 0x78,
                forall|i: int| 0 <= i < found@.len() ==> 0x03 <= #[trigger] found@[i] < addr,
                forall|i: int, j: int| 0 <= i < j < found@.len() ==> found@[i] < found@[j],
            decreases 0x78 - addr,
        {
            if self.i2c.write(addr, empty.as_slice()).is_ok() {
                found.push(addr);
            }
            addr = addr + 1;
        }
        found
    }

    /// Read the chip identification register.
    pub fn read_chip_id(&mut self) -> (r: Result<u8, &'static str>)
        ensures
            final (self).calibration() == old(self).calibration(),
            final (self).address() == old(self).address(),
            r matches Err(e) ==> e@ == "i2c read failed"@,
    {
        let mut cmd: Vec<u8> = Vec::new();
        cmd.push(0xD0);
        match self.i2c.write_read(self.address, cmd.as_slice(), 1) {
            Ok(v) => Ok(v[0]),
            Err(_) => Err("i2c read failed"),
        }
    }

    /// Bring the chip up: soft reset, wait for its non-volatile memory to
    /// be copied, read the chip id, read the calibration block, then set
    /// the standby/filter and oversampling/mode registers.
    ///
    /// Every failure is reported; none is retried here — the caller's next
    /// cycle is the retry. A failure before the calibration block is read
    /// leaves the stored calibration as it was (in particular, a sensor
    /// that was never initialized still rejects reads); a failure after it
    /// leaves the freshly read calibration in place, as a register
    /// configuration error does not invalidate the constants.
    pub fn init(&mut self) -> (r: Result<(), &'static str>)
        ensures
            final (self).address() == old(self).address(),
            r is Ok ==> final (self).calibration() is Some,
            final (self).calibration() == old(self).calibration() || exists|raw: Seq<u8>|
                raw.len() == 24 && final (self).calibration() == Option::Some(
                    spec_calibration(raw),
                ),
            r matches Err(e) ==> (e@ == "Failed to reset sensor"@ || e@ == "i2c read failed"@
                || e@ == "Failed to read calibration data"@
                || e@ == "Failed to configure config register"@
                || e@ == "Failed to configure control register"@),
            r matches Err(e) && (e@ == "Failed to reset sensor"@ || e@ == "i2c read failed"@ || e@
                == "Failed to read calibration data"@) ==> final (self).calibration() == old(
                self,
            ).calibration(),
            r matches Err(e) && (e@ == "Failed to configure config register"@ || e@
                == "Failed to configure control register"@) ==> final (self).calibration() is Some,
    {
        let ghost cal0 = self.calibration;
        let ghost a0 = self.address;
        proof {
            lemma_init_error_texts_distinct();
        }

        // soft reset: magic word 0xB6 to the reset register 0xE0
        let mut reset: Vec<u8> = Vec::new();
        reset.push(0xE0);
        reset.push(0xB6);
        if self.i2c.write(self.address, reset.as_slice()).is_err() {
            return Err("Failed to reset sensor");
        }
        self.delay.delay_ms(100);

        // wait until the status register 0xF3 reports the non-volatile
        // memory copy finished (bit 0 clear); give up silently after a
        // bounded number of polls and let the chip-id read decide
        let mut status_cmd: Vec<u8> = Vec::new();
        status_cmd.push(0xF3);
        let mut ready = false;
        let mut tries: u32 = 0;
        while tries < 50 && !ready
            invariant
                self.calibration == cal0,
                self.address == a0,
                tries <= 50,
            decreases 50 - tries,
        {
            match self.i2c.write_read(self.address, status_cmd.as_slice(), 1) {
                Ok(v) => {
                    if v[0] & 1 == 0 {
                        ready = true;
                    }
                },
                Err(_) => {},
            }
            if !ready {
                self.delay.delay_ms(20);
            }
            tries = tries + 1;
        }

        // the chip id is read and reported by the caller's diagnostics;
        // here only a failing bus matters
        match self.read_chip_id() {
            Ok(_) => {},
            Err(e) => {
                return Err(e);
            },
        }

        // calibration block: 24 bytes starting at register 0x88
        let mut calib_cmd: Vec<u8> = Vec::new();
        calib_cmd.push(0x88);
        let raw = match self.i2c.write_read(self.address, calib_cmd.as_slice(), 24) {
            Ok(v) => v,
            Err(_) => {
                return Err("Failed to read calibration data");
            },
        };
        let cal = calibration_from_bytes(&raw);
        self.calibration = Some(cal);

        // config register 0xF5: standby 0.5 ms, filter off
        let mut cfg: Vec<u8> = Vec::new();
        cfg.push(0xF5);
        cfg.push(0xA0);
        if self.i2c.write(self.address, cfg.as_slice()).is_err() {
            return Err("Failed to configure config register");
        }
        self.delay.delay_ms(10);

        // control register 0xF4: temperature and pressure oversampling
        // x16, normal mode
        let mut ctrl: Vec<u8> = Vec::new();
        ctrl.push(0xF4);
        ctrl.push(0x3F);
        if self.i2c.write(self.address, ctrl.as_slice()).is_err() {
            return Err("Failed to configure control register");
        }
        self.delay.delay_ms(100);

        Ok(())
    }

    /// One temperature conversion: read the three raw registers starting
    /// at 0xFA and compensate with the stored calibration.
    pub fn read_temperature(&mut self) -> (r: Result<CentiCelsius, &'static str>)
        ensures
            final (self).calibration() == old(self).calibration(),
            final (self).address() == old(self).address(),
            old(self).calibration() is None ==> (r matches Err(e) && e@
                == "Sensor not initialized"@),
            old(self).calibration() is Some ==> (r matches Err(e) ==> e@ == "I2C read error"@),
            old(self).calibration() matches Some(c) ==> (r matches Ok(t) ==> exists|
                b0: u8,
                b1: u8,
                b2: u8,
            |
                t == spec_compensate(c, #[trigger] spec_adc(b0, b1, b2))),
    {
        let cal = match self.calibration {
            Some(c) => c,
            None => {
                return Err("Sensor not initialized");
            },
        };
        let mut cmd: Vec<u8> = Vec::new();
        cmd.push(0xFA);
        let buf = match self.i2c.write_read(self.address, cmd.as_slice(), 3) {
            Ok(v) => v,
            Err(_) => {
                return Err("I2C read error");
            },
        };
        let adc = decode_raw_temperature(buf[0], buf[1], buf[2]);
        let t = compensate(&cal, adc);
        proof {
            assert(t == spec_compensate(cal, spec_adc(buf@[0], buf@[1], buf@[2])));
        }
        Ok(t)
    }
}

} // verus!
