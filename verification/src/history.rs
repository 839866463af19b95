//! Rolling history of recent temperature samples and the statistics
//! derived from it: warm-up-aware average and comfort classification.
//!
//! Temperatures are carried as hundredths of a degree Celsius
//! (`CentiCelsius`), the unit the sensor compensation produces.

use vstd::prelude::*;

use crate::num::div_floor_i64;
use crate::text::bytes_to_text32;
use crate::text::centi_1dp;
use crate::text::lemma_centi_1dp_props;
use crate::text::push_centi_1dp;
use crate::text::text32;

verus! {

/// A temperature in hundredths of a degree Celsius (2250 is 22.50 C).
pub type CentiCelsius = i32;

/// Band boundaries, in hundredths of a degree Celsius.
pub const COLD_BELOW_CENTI: i32 = 1000;
pub const COOL_BELOW_CENTI: i32 = 2000;
pub const COMFORTABLE_BELOW_CENTI: i32 = 2500;
pub const WARM_BELOW_CENTI: i32 = 3000;

/// Comfort classification of an average temperature.
#[derive(Clone, Copy, Debug, PartialEq, Eq, Structural)]
pub enum Status {
    Cold,
    Cool,
    Comfortable,
    Warm,
    Hot,
    NoData,
}

/// The comfort band of a temperature: lower bounds inclusive, upper
/// bounds exclusive, at 10, 20, 25 and 30 degrees Celsius.
pub open spec fn status_of(avg_centi: int) -> Status {
    if avg_centi < COLD_BELOW_CENTI {
        Status::Cold
    } else if avg_centi < COOL_BELOW_CENTI {
        Status::Cool
    } else if avg_centi < COMFORTABLE_BELOW_CENTI {
        Status::Comfortable
    } else if avg_centi < WARM_BELOW_CENTI {
        Status::Warm
    } else {
        Status::Hot
    }
}

/// Classify one temperature into its comfort band.
pub fn classify(avg: CentiCelsius) -> (s: Status)
    ensures
        s == status_of(avg as int),
{
    if avg < COLD_BELOW_CENTI {
        Status::Cold
    } else if avg < COOL_BELOW_CENTI {
        Status::Cool
    } else if avg < COMFORTABLE_BELOW_CENTI {
        Status::Comfortable
    } else if avg < WARM_BELOW_CENTI {
        Status::Warm
    } else {
        Status::Hot
    }
}

/// The comfort bands partition the temperatures: every temperature falls
/// in exactly one of the five bands, and never in `NoData`.
pub proof fn lemma_status_partition(t: int)
    ensures
        (status_of(t) == Status::Cold) <==> t < COLD_BELOW_CENTI,
        (status_of(t) == Status::Cool) <==> COLD_BELOW_CENTI <= t < COOL_BELOW_CENTI,
        (status_of(t) == Status::Comfortable) <==> COOL_BELOW_CENTI <= t
            < COMFORTABLE_BELOW_CENTI,
        (status_of(t) == Status::Warm) <==> COMFORTABLE_BELOW_CENTI <= t < WARM_BELOW_CENTI,
        (status_of(t) == Status::Hot) <==> WARM_BELOW_CENTI <= t,
        status_of(t) != Status::NoData,
{
}

/// Display text of a status.
pub open spec fn status_label(s: Status) -> Seq<char> {
    match s {
        Status::Cold => "Cold"@,
        Status::Cool => "Cool"@,
        Status::Comfortable => "Comfortable"@,
        Status::Warm => "Warm"@,
        Status::Hot => "Hot"@,
        Status::NoData => "No data"@,
    }
}

/// Display text of a status, as ASCII bytes.
pub open spec fn status_bytes(s: Status) -> Seq<u8> {
    match s {
        Status::Cold => seq![67u8, 111u8, 108u8, 100u8],  // "Cold"
        Status::Cool => seq![67u8, 111u8, 111u8, 108u8],  // "Cool"
        Status::Comfortable => seq![
            67u8,
            111u8,
            109u8,
            102u8,
            111u8,
            114u8,
            116u8,
            97u8,
            98u8,
            108u8,
            101u8,
        ],  // "Comfortable"
        Status::Warm => seq![87u8, 97u8, 114u8, 109u8],  // "Warm"
        Status::Hot => seq![72u8, 111u8, 116u8],  // "Hot"
        Status::NoData => seq![78u8, 111u8, 32u8, 100u8, 97u8, 116u8, 97u8],  // "No data"
    }
}

/// The byte text of a status spells its label.
pub proof fn lemma_status_text_agree(s: Status)
    ensures
        status_bytes(s) =~= status_label(s).map_values(|c: char| c as u8),
{
    reveal_strlit("Cold");
    reveal_strlit("Cool");
    reveal_strlit("Comfortable");
    reveal_strlit("Warm");
    reveal_strlit("Hot");
    reveal_strlit("No data");
}

/// Appends the display text of a status.
pub fn push_status(out: &mut Vec<u8>, s: Status)
    ensures
        final (out)@ == old(out)@ + status_bytes(s),
{
    match s {
        Status::Cold => {
            out.push(67);
            out.push(111);
            out.push(108);
            out.push(100);
        },
        Status::Cool => {
            out.push(67);
            out.push(111);
            out.push(111);
            out.push(108);
        },
        Status::Comfortable => {
            out.push(67);
            out.push(111);
            out.push(109);
            out.push(102);
            out.push(111);
            out.push(114);
            out.push(116);
            out.push(97);
            out.push(98);
            out.push(108);
            out.push(101);
        },
        Status::Warm => {
            out.push(87);
            out.push(97);
            out.push(114);
            out.push(109);
        },
        Status::Hot => {
            out.push(72);
            out.push(111);
            out.push(116);
        },
        Status::NoData => {
            out.push(78);
            out.push(111);
            out.push(32);
            out.push(100);
            out.push(97);
            out.push(116);
            out.push(97);
        },
    }
    assert(out@ =~= old(out)@ + status_bytes(s));
}

/// The index in the record log of the newest value written to ring slot
/// `i`, for a log of length `m` (meaningful for `i < min(m, 5)`).
pub open spec fn latest_write(m: int, i: int) -> int {
    if i < m % 5 {
        m - m % 5 + i
    } else {
        m - m % 5 + i - 5
    }
}

/// What ring slot `i` holds after the values of `log` were recorded, in
/// order, into a five-slot ring starting at slot zero.
pub open spec fn slot_value(log: Seq<i32>, i: int) -> Option<i32> {
    if i < log.len() && i < 5 {
        Option::Some(log[latest_write(log.len() as int, i)])
    } else {
        Option::None
    }
}

/// The most recent `min(5, log.len())` recorded values, oldest first.
pub open spec fn window(log: Seq<i32>) -> Seq<i32> {
    if log.len() <= 5 {
        log
    } else {
        log.skip(log.len() - 5)
    }
}

/// Sum of a sequence of samples.
pub open spec fn temp_sum(s: Seq<i32>) -> int
    decreases s.len(),
{
    if s.len() == 0 {
        0
    } else {
        temp_sum(s.drop_last()) + s.last()
    }
}

/// Mean of the retained window, rounded toward negative infinity.
pub open spec fn window_mean(log: Seq<i32>) -> int
    recommends
        log.len() > 0,
{
    temp_sum(window(log)) / window(log).len() as int
}

/// Comfort status derived from a history: `NoData` before any sample.
pub open spec fn history_status(log: Seq<i32>) -> Status {
    if log.len() == 0 {
        Status::NoData
    } else {
        status_of(window_mean(log))
    }
}

/// Display text of one reading: "<temp to 1dp>C <status>".
pub open spec fn format_spec(temp: int, s: Status) -> Seq<u8> {
    centi_1dp(temp) + seq![67u8, 32u8] + status_bytes(s)
}

/// The sum of a sequence of samples is bounded by the extreme values
/// each sample can take.
pub proof fn lemma_temp_sum_bounds(s: Seq<i32>)
    ensures
        -0x8000_0000 * s.len() <= temp_sum(s) <= 0x7fff_ffff * s.len(),
    decreases s.len(),
{
    if s.len() > 0 {
        lemma_temp_sum_bounds(s.drop_last());
    }
}

/// Remainders after division by five, for small values.
proof fn lemma_mod5_small(x: int)
    requires
        0 <= x < 10,
    ensures
        x % 5 == if x < 5 {
            x
        } else {
            x - 5
        },
{
    if x < 5 {
        vstd::arithmetic::div_mod::lemma_fundamental_div_mod_converse(x, 5, 0, x);
    } else {
        vstd::arithmetic::div_mod::lemma_fundamental_div_mod_converse(x, 5, 1, x - 5);
    }
}

/// How the remainder modulo five advances when a counter advances.
proof fn lemma_mod5_plus1(m: int)
    requires
        m >= 0,
    ensures
        (m + 1) % 5 == if m % 5 == 4 {
            0int
        } else {
            m % 5 + 1
        },
{
    vstd::arithmetic::div_mod::lemma_fundamental_div_mod(m, 5);
    if m % 5 == 4 {
        vstd::arithmetic::div_mod::lemma_fundamental_div_mod_converse(m + 1, 5, m / 5 + 1, 0);
    } else {
        vstd::arithmetic::div_mod::lemma_fundamental_div_mod_converse(m + 1, 5, m / 5, m % 5 + 1);
    }
}

/// Walking the ring from the cursor visits the empty slots first and then
/// the retained window, oldest first.
proof fn lemma_ring_order(log: Seq<i32>, j: int)
    requires
        0 <= j < 5,
    ensures
        ({
            let m = log.len() as int;
            let c = m % 5;
            let k = window(log).len() as int;
            slot_value(log, (c + j) % 5) == if j < 5 - k {
                Option::<i32>::None
            } else {
                Option::Some(window(log)[j - (5 - k)])
            }
        }),
{
    let m = log.len() as int;
    let c = m % 5;
    lemma_mod5_small(c + j);
    if m < 5 {
        vstd::arithmetic::div_mod::lemma_small_mod(m as nat, 5);
    } else {
        vstd::arithmetic::div_mod::lemma_fundamental_div_mod(m, 5);
    }
}

/// Rolling five-slot history of temperature samples: a ring of optional
/// slots plus the cursor of the next slot to overwrite.
pub struct AppLogic {
    temperature_readings: Vec<Option<CentiCelsius>>,
    reading_index: usize,
    log: Ghost<Seq<i32>>,
}

impl AppLogic {
    /// Every temperature ever recorded, oldest first.
    pub closed spec fn log(&self) -> Seq<i32> {
        self.log@
    }

    /// The ring holds the newest samples of the log, and the cursor points
    /// at the slot the next sample will overwrite.
    pub closed spec fn wf(&self) -> bool {
        &&& self.temperature_readings@.len() == 5
        &&& self.reading_index as int == self.log@.len() as int % 5
        &&& forall|i: int|
            0 <= i < 5 ==> #[trigger] self.temperature_readings@[i] == slot_value(self.log@, i)
    }

    /// An empty history.
    pub fn new() -> (r: AppLogic)
        ensures
            r.wf(),
            r.log() == Seq::<i32>::empty(),
    {
        let mut v: Vec<Option<CentiCelsius>> = Vec::new();
        v.push(None);
        v.push(None);
        v.push(None);
        v.push(None);
        v.push(None);
        AppLogic { temperature_readings: v, reading_index: 0, log: Ghost(Seq::empty()) }
    }

    /// Record a temperature reading: overwrite the cursor slot and advance
    /// the cursor, evicting the oldest sample once the ring is full.
    pub fn record_temperature(&mut self, temp: CentiCelsius)
        requires
            old(self).wf(),
        ensures
            final (self).wf(),
            final (self).log() == old(self).log().push(temp),
    {
        let ghost log0 = self.log@;
        let ghost m = log0.len() as int;
        let idx = self.reading_index;
        self.temperature_readings[idx] = Some(temp);
        self.reading_index = (idx + 1) % 5;
        proof {
            self.log@ = log0.push(temp);
            lemma_mod5_plus1(m);
            lemma_mod5_small(m % 5 + 1);
            assert forall|i: int|
                0 <= i < 5 implies #[trigger] self.temperature_readings@[i] == slot_value(
                self.log@,
                i,
            ) by {
                if i == m % 5 {
                    assert(latest_write(m + 1, i) == m);
                } else {
                    assert(slot_value(log0, i) == slot_value(self.log@, i));
                }
            }
        }
    }

    /// Average of the retained samples: `None` until a first sample is
    /// recorded, then the mean of the most recent `min(5, recorded)`
    /// samples, oldest evicted first, rounded toward negative infinity.
    pub fn average_temperature(&self) -> (r: Option<CentiCelsius>)
        requires
            self.wf(),
        ensures
            r is Some <==> self.log().len() > 0,
            self.log().len() > 0 ==> r == Option::Some(window_mean(self.log()) as i32)
                && window_mean(self.log()) == window_mean(self.log()) as i32 as int,
    {
        let ghost logv = self.log@;
        let ghost k = window(logv).len() as int;
        let idx = self.reading_index;
        let mut sum: i64 = 0;
        let mut count: u64 = 0;
        let mut j: usize = 0;
        while j < 5
            invariant
                self.wf(),
                logv == self.log@,
                k == window(logv).len() as int,
                idx == self.reading_index,
                0 <= j <= 5,
                count as int == if j as int <= 5 - k {
                    0int
                } else {
                    j as int - (5 - k)
                },
                sum as int == temp_sum(window(logv).take(count as int)),
                -0x8000_0000 * count <= sum as int <= 0x7fff_ffff * count,
            decreases 5 - j,
        {
            let slot = (idx + j) % 5;
            proof {
                lemma_ring_order(logv, j as int);
                lemma_mod5_small(idx as int + j as int);
            }
            match self.temperature_readings[slot] {
                Some(t) => {
                    proof {
                        assert(window(logv).take(count as int + 1).drop_last() =~= window(
                            logv,
                        ).take(count as int));
                        assert(window(logv).take(count as int + 1).last() == t);
                        lemma_temp_sum_bounds(window(logv).take(count as int + 1));
                    }
                    sum = sum + (t as i64);
                    count = count + 1;
                },
                None => {},
            }
            j = j + 1;
        }
        if count == 0 {
            assert(logv.len() == 0);
            None
        } else {
            proof {
                assert(window(logv).take(k) =~= window(logv));
                vstd::arithmetic::div_mod::lemma_div_is_ordered(
                    -0x8000_0000 * count,
                    sum as int,
                    count as int,
                );
                vstd::arithmetic::div_mod::lemma_div_is_ordered(
                    sum as int,
                    0x7fff_ffff * count,
                    count as int,
                );
                vstd::arithmetic::div_mod::lemma_div_multiples_vanish(-0x8000_0000, count as int);
                vstd::arithmetic::div_mod::lemma_div_multiples_vanish(0x7fff_ffff, count as int);
            }
            let avg = div_floor_i64(sum, count);
            Some(avg as i32)
        }
    }

    /// Comfort status of the current average.
    pub fn current_status(&self) -> (s: Status)
        requires
            self.wf(),
        ensures
            s == history_status(self.log()),
    {
        match self.average_temperature() {
            Some(avg) => classify(avg),
            None => Status::NoData,
        }
    }

    /// Comfort status of the current average, as display text.
    pub fn temperature_status(&self) -> (r: &'static str)
        requires
            self.wf(),
        ensures
            r@ == status_label(history_status(self.log())),
    {
        match self.current_status() {
            Status::Cold => "Cold",
            Status::Cool => "Cool",
            Status::Comfortable => "Comfortable",
            Status::Warm => "Warm",
            Status::Hot => "Hot",
            Status::NoData => "No data",
        }
    }

    /// Render one reading together with the comfort status of the current
    /// average, as "<temp>C <status>" in a bounded display string.
    pub fn format_temperature(&self, temp: CentiCelsius) -> (r: heapless::String<32>)
        requires
            self.wf(),
        ensures
            text32(r) == format_spec(temp as int, history_status(self.log())),
    {
        let st = self.current_status();
        let mut out: Vec<u8> = Vec::new();
        push_centi_1dp(&mut out, temp);
        out.push(67);
        out.push(32);
        push_status(&mut out, st);
        proof {
            lemma_centi_1dp_props(temp as int);
            assert(out@ =~= format_spec(temp as int, history_status(self.log@)));
        }
        bytes_to_text32(&out)
    }
}

} // verus!
