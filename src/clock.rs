//! The game clock origin: the 32-bit millisecond reading taken when the
//! board was last reset. Button presses are reported relative to it.
//!
//! The monotonic clock gives 64-bit readings and press times keep all 64
//! bits. The origin is a `u32`: a reset stores the low 32 bits of the
//! reading. A press is timed as `press_time - origin` in 64 bits, floored at
//! `0`; a gap wider than `u32::MAX` ms is clamped to `u32::MAX`, the largest
//! time a `ButtonPress` can carry.
use vstd::prelude::*;

verus! {

/// The low 32 bits of a 64-bit millisecond reading.
pub open spec fn clock_reading(millis: u64) -> u32 {
    (millis % 0x1_0000_0000) as u32
}

/// The time of a press relative to the origin; `0` for a press that does not
/// come after the origin (it predates the last reset), and `u32::MAX` for one
/// more than `u32::MAX` ms after it.
pub open spec fn since_origin(press_time: u64, origin: u32) -> u32 {
    if press_time > origin {
        if press_time - origin > u32::MAX {
            u32::MAX
        } else {
            (press_time - origin) as u32
        }
    } else {
        0
    }
}

pub fn to_clock_reading(millis: u64) -> (r: u32)
    ensures
        r == clock_reading(millis),
{
    (millis % 0x1_0000_0000) as u32
}

/// The time of the press at `press_time` relative to `origin`, floored at `0`
/// and clamped to `u32::MAX`.
pub fn millis_since_origin(press_time: u64, origin: u32) -> (r: u32)
    ensures
        r == since_origin(press_time, origin),
{
    let gap = press_time.saturating_sub(origin as u64);
    if gap > u32::MAX as u64 {
        u32::MAX
    } else {
        gap as u32
    }
}

pub struct ClockOrigin {
    millis: u32,
}

impl View for ClockOrigin {
    type V = u32;

    closed spec fn view(&self) -> u32 {
        self.millis
    }
}

impl ClockOrigin {
    /// An origin at time `0`, before any reset.
    pub fn new() -> (r: ClockOrigin)
        ensures
            r@ == 0,
    {
        ClockOrigin { millis: 0 }
    }

    pub fn get(&self) -> (r: u32)
        ensures
            r == self@,
    {
        self.millis
    }

    /// Moves the origin to the clock reading `now_millis`.
    pub fn reset(&mut self, now_millis: u64)
        ensures
            final(self)@ == clock_reading(now_millis),
    {
        self.millis = to_clock_reading(now_millis);
    }
}

/// After a reset at time `t`, a press at or before `t` is stale (its relative
/// time is `0`), and a later one is timed exactly `press_time - t` after the
/// origin (clamped to `u32::MAX`). This holds for every reset time that an
/// origin can hold, that is up to `u32::MAX` ms.
pub proof fn lemma_relative_to_reset(t: u64, press_time: u64)
    requires
        t <= u32::MAX,
    ensures
        press_time <= t ==> since_origin(press_time, clock_reading(t)) == 0,
        press_time > t && press_time - t <= u32::MAX ==> since_origin(
            press_time,
            clock_reading(t),
        ) == press_time - t,
        press_time > t && press_time - t > u32::MAX ==> since_origin(
            press_time,
            clock_reading(t),
        ) == u32::MAX,
{
}

} // verus!
