//! Display-frame construction and the display-ready wait.
//!
//! Each frame line is built as verified ASCII bytes with an exact
//! contract; drawing goes through the [`Display`] capability trait, whose
//! implementations (panels, or test doubles) lie outside this crate.
//! Rendering failures are the caller's to log and skip — they never stop
//! the render loop.

use vstd::prelude::*;

use crate::history::AppLogic;
use crate::history::CentiCelsius;
use crate::model::Model;
use crate::text::bytes_to_text32;
use crate::text::centi_1dp;
use crate::text::centi_2dp;
use crate::text::lemma_centi_1dp_props;
use crate::text::lemma_centi_2dp_props;
use crate::text::push_centi_1dp;
use crate::text::push_centi_2dp;
use crate::text::text16;
use crate::text::text32;
use crate::text::text32_as_str;
use crate::text::append_text16;
use crate::traits::Display;
use crate::traits::TemperatureSensor;

verus! {

/// Which panel the device carries.
#[derive(Debug, Clone, Copy)]
pub enum DisplayType {
    EPaper,
    SSD1306,
}

/// Height of one text line on the panel, in pixels.
pub const LINE_HEIGHT: i32 = 10;

/// The frame title, "Gonk Sensor Readings".
pub open spec fn title_bytes() -> Seq<u8> {
    seq![
        71u8,
        111u8,
        110u8,
        107u8,
        32u8,
        83u8,
        101u8,
        110u8,
        115u8,
        111u8,
        114u8,
        32u8,
        82u8,
        101u8,
        97u8,
        100u8,
        105u8,
        110u8,
        103u8,
        115u8,
    ]
}

/// The temperature line, "Temp: <value to 2dp> C".
pub open spec fn temp_line_bytes(t: int) -> Seq<u8> {
    seq![84u8, 101u8, 109u8, 112u8, 58u8, 32u8] + centi_2dp(t) + seq![32u8, 67u8]
}

/// The humidity line, "Humidity: <value to 2dp> %".
pub open spec fn humidity_line_bytes(h: int) -> Seq<u8> {
    seq![72u8, 117u8, 109u8, 105u8, 100u8, 105u8, 116u8, 121u8, 58u8, 32u8] + centi_2dp(h) + seq![
        32u8,
        37u8,
    ]
}

/// The address line, "IP: <address>".
pub open spec fn ip_line_bytes(ip: Seq<u8>) -> Seq<u8> {
    seq![73u8, 80u8, 58u8, 32u8] + ip
}

/// The average line, "Avg: <value to 1dp>C".
pub open spec fn average_line_bytes(avg: int) -> Seq<u8> {
    seq![65u8, 118u8, 103u8, 58u8, 32u8] + centi_1dp(avg) + seq![67u8]
}

/// Build the frame title.
pub fn title_line() -> (r: heapless::String<32>)
    ensures
        text32(r) == title_bytes(),
{
    let mut v: Vec<u8> = Vec::new();
    v.push(71);
    v.push(111);
    v.push(110);
    v.push(107);
    v.push(32);
    v.push(83);
    v.push(101);
    v.push(110);
    v.push(115);
    v.push(111);
    v.push(114);
    v.push(32);
    v.push(82);
    v.push(101);
    v.push(97);
    v.push(100);
    v.push(105);
    v.push(110);
    v.push(103);
    v.push(115);
    proof {
        assert(v@ =~= title_bytes());
    }
    bytes_to_text32(&v)
}

/// Build the temperature line of a frame.
pub fn temp_line(t: CentiCelsius) -> (r: heapless::String<32>)
    ensures
        text32(r) == temp_line_bytes(t as int),
{
    let mut v: Vec<u8> = Vec::new();
    v.push(84);
    v.push(101);
    v.push(109);
    v.push(112);
    v.push(58);
    v.push(32);
    push_centi_2dp(&mut v, t);
    v.push(32);
    v.push(67);
    proof {
        lemma_centi_2dp_props(t as int);
        assert(v@ =~= temp_line_bytes(t as int));
    }
    bytes_to_text32(&v)
}

/// Build the humidity line of a frame.
pub fn humidity_line(h: i32) -> (r: heapless::String<32>)
    ensures
        text32(r) == humidity_line_bytes(h as int),
{
    let mut v: Vec<u8> = Vec::new();
    v.push(72);
    v.push(117);
    v.push(109);
    v.push(105);
    v.push(100);
    v.push(105);
    v.push(116);
    v.push(121);
    v.push(58);
    v.push(32);
    push_centi_2dp(&mut v, h);
    v.push(32);
    v.push(37);
    proof {
        lemma_centi_2dp_props(h as int);
        assert(v@ =~= humidity_line_bytes(h as int));
    }
    bytes_to_text32(&v)
}

/// Build the address line of a frame.
pub fn ip_line(ip: &heapless::String<16>) -> (r: heapless::String<32>)
    ensures
        text32(r) == ip_line_bytes(text16(*ip)),
{
    let mut v: Vec<u8> = Vec::new();
    v.push(73);
    v.push(80);
    v.push(58);
    v.push(32);
    proof {
        assert(v@ =~= seq![73u8, 80u8, 58u8, 32u8]);
    }
    let mut r = bytes_to_text32(&v);
    let _ = append_text16(&mut r, ip);
    proof {
        assert(text32(r) =~= ip_line_bytes(text16(*ip)));
    }
    r
}

/// Build the average line shown under a fresh reading.
pub fn average_line(avg: CentiCelsius) -> (r: heapless::String<32>)
    ensures
        text32(r) == average_line_bytes(avg as int),
{
    let mut v: Vec<u8> = Vec::new();
    v.push(65);
    v.push(118);
    v.push(103);
    v.push(58);
    v.push(32);
    push_centi_1dp(&mut v, avg);
    v.push(67);
    proof {
        lemma_centi_1dp_props(avg as int);
        assert(v@ =~= average_line_bytes(avg as int));
    }
    bytes_to_text32(&v)
}

/// One drawing operation of a rendered frame.
pub enum FrameOp {
    /// Draw `text` with its top-left corner at `(x, y)`.
    Text { text: heapless::String<32>, x: i32, y: i32 },
    /// Draw a straight line from `(x0, y0)` to `(x1, y1)`.
    Line { x0: i32, y0: i32, x1: i32, y1: i32 },
}

/// The frame drawn for a snapshot of the shared model, as data: the
/// title, a separator halfway through the line under it, then the
/// temperature, humidity and address lines on successive text lines.
pub fn frame_ops(m: &Model) -> (ops: Vec<FrameOp>)
    ensures
        ops@.len() == 5,
        ops@[0] matches FrameOp::Text { text, x, y } && text32(text) == title_bytes() && x == 0 && y
            == 0,
        ops@[1] matches FrameOp::Line { x0, y0, x1, y1 } && x0 == 0 && y0 == 15 && x1 == 127 && y1
            == 15,
        ops@[2] matches FrameOp::Text { text, x, y } && text32(text) == temp_line_bytes(
            m.temperature as int,
        ) && x == 0 && y == 2 * LINE_HEIGHT,
        ops@[3] matches FrameOp::Text { text, x, y } && text32(text) == humidity_line_bytes(
            m.humidity as int,
        ) && x == 0 && y == 3 * LINE_HEIGHT,
        ops@[4] matches FrameOp::Text { text, x, y } && text32(text) == ip_line_bytes(
            text16(m.ip_address),
        ) && x == 0 && y == 4 * LINE_HEIGHT,
{
    let mut ops: Vec<FrameOp> = Vec::new();
    ops.push(FrameOp::Text { text: title_line(), x: 0, y: 0 });
    ops.push(FrameOp::Line { x0: 0, y0: LINE_HEIGHT + 5, x1: 127, y1: LINE_HEIGHT + 5 });
    ops.push(FrameOp::Text { text: temp_line(m.temperature), x: 0, y: 2 * LINE_HEIGHT });
    ops.push(FrameOp::Text { text: humidity_line(m.humidity), x: 0, y: 3 * LINE_HEIGHT });
    ops.push(FrameOp::Text { text: ip_line(&m.ip_address), x: 0, y: 4 * LINE_HEIGHT });
    ops
}

/// Perform one frame operation on the panel.
fn draw_op<D: Display>(display: &mut D, op: &FrameOp) -> Result<(), &'static str> {
    match op {
        FrameOp::Text { text, x, y } => display.draw_text(text32_as_str(text), *x, *y),
        FrameOp::Line { x0, y0, x1, y1 } => display.draw_line(*x0, *y0, *x1, *y1),
    }
}

/// Render one frame from a snapshot of the shared model: clear the panel,
/// then perform the operations of [`frame_ops`] in order, stopping at the
/// first failure, which is returned for the caller to log — the next
/// cycle retries.
///
/// The snapshot must already have been copied out of the model's lock;
/// drawing is never done while holding it.
pub fn update_display<D: Display>(display: &mut D, m: &Model) -> (r: Result<(), &'static str>) {
    display.clear()?;
    let ops = frame_ops(m);
    let mut i: usize = 0;
    while i < ops.len()
        invariant
            i <= ops@.len(),
        decreases ops@.len() - i,
    {
        draw_op(display, &ops[i])?;
        i = i + 1;
    }
    Ok(())
}

/// One cycle of the sensor-to-display pipeline: read a temperature,
/// record it in the history, and redraw the reading with its running
/// average. A sensor failure returns before anything is recorded; a draw
/// failure returns after the recording — the history keeps the sample
/// either way.
pub fn update_display_with_sensor<D: Display, T: TemperatureSensor>(
    display: &mut D,
    sensor: &mut T,
    app: &mut AppLogic,
) -> (r: Result<(), &'static str>)
    requires
        old(app).wf(),
    ensures
        final (app).wf(),
        final (app).log() == old(app).log() || (exists|t: i32|
            final (app).log() == #[trigger] old(app).log().push(t)),
        r is Ok ==> (exists|t: i32| final (app).log() == #[trigger] old(app).log().push(t)),
{
    let temp = match sensor.read_temperature() {
        Ok(t) => t,
        Err(e) => {
            return Err(e);
        },
    };
    app.record_temperature(temp);
    proof {
        assert(app.log() == old(app).log().push(temp));
    }
    display.clear()?;
    let temp_str = app.format_temperature(temp);
    display.draw_text(text32_as_str(&temp_str), 10, 10)?;
    match app.average_temperature() {
        Some(avg) => {
            let avg_str = average_line(avg);
            display.draw_text(text32_as_str(&avg_str), 10, 25)?;
        },
        None => {},
    }
    display.update()?;
    Ok(())
}

/// Budget for the panel's busy wait at initialization, in milliseconds —
/// the one bounded timeout in the system: initialization reports failure
/// rather than hanging forever.
pub const BUSY_TIMEOUT_MS: u32 = 10_000;

/// Interval between polls of the busy line, in milliseconds.
pub const BUSY_POLL_MS: u32 = 10;

/// Verdict of one busy-line poll.
#[derive(Clone, Copy, Debug, PartialEq, Eq, Structural)]
pub enum ReadyVerdict {
    /// The panel is ready.
    Ready,
    /// Sleep [`BUSY_POLL_MS`] and poll again.
    Wait,
    /// The budget is spent; report initialization failure.
    TimedOut,
}

/// Bounded wait for the panel's busy line to clear.
pub struct ReadyPoll {
    remaining: u32,
}

impl ReadyPoll {
    /// Polls left before the wait times out.
    pub closed spec fn remaining(&self) -> u32 {
        self.remaining
    }

    /// A fresh wait with the full budget.
    pub fn new() -> (r: ReadyPoll)
        ensures
            r.remaining() == BUSY_TIMEOUT_MS / BUSY_POLL_MS,
    {
        ReadyPoll { remaining: BUSY_TIMEOUT_MS / BUSY_POLL_MS }
    }

    /// Judge one sample of the busy line.
    pub fn step(&mut self, busy: bool) -> (v: ReadyVerdict)
        ensures
            !busy ==> v == ReadyVerdict::Ready,
            !busy ==> final (self).remaining() == old(self).remaining(),
            busy && old(self).remaining() > 0 ==> v == ReadyVerdict::Wait,
            busy && old(self).remaining() > 0 ==> final (self).remaining() == old(self).remaining()
                - 1,
            busy && old(self).remaining() == 0 ==> v == ReadyVerdict::TimedOut,
            busy && old(self).remaining() == 0 ==> final (self).remaining() == 0,
    {
        if !busy {
            ReadyVerdict::Ready
        } else if self.remaining > 0 {
            self.remaining = self.remaining - 1;
            ReadyVerdict::Wait
        } else {
            ReadyVerdict::TimedOut
        }
    }
}

} // verus!
