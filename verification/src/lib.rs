//! Core logic of an environmental-sensing device: sensor compensation,
//! a rolling history of temperature readings, a shared snapshot model,
//! display-frame construction, a wireless-connectivity state machine and
//! button debouncing.
//!
//! Hardware drivers are reached only through the capability traits in
//! [`traits`]; everything here is pure logic over plain values.

pub mod button;
pub mod display;
pub mod history;
pub mod link;
pub mod model;
pub mod num;
pub mod report;
pub mod sensor;
pub mod text;
pub mod traits;
