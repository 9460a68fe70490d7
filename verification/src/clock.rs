//! Moments of the monotonic clock, carried opaquely, and the timing of the
//! "look here" pulses (fade in, hold, fade out) the pages show.

use std::time::{Duration, Instant, SystemTime};

use vstd::prelude::*;

verus! {

/// `std::time::Instant`, carried opaquely: a moment of the monotonic clock.
#[verifier::external_type_specification]
#[verifier::external_body]
pub struct ExInstant(Instant);

/// `std::time::SystemTime`, carried opaquely: a reading of the system's
/// wall clock.
#[verifier::external_type_specification]
#[verifier::external_body]
pub struct ExSystemTime(SystemTime);

/// How long a pulse fades in, in milliseconds.
pub const PULSE_FADE_IN_MS: u64 = 200;
/// How long a pulse holds at full strength, in milliseconds.
pub const PULSE_VISIBLE_MS: u64 = 1500;
/// How long a pulse fades out, in milliseconds.
pub const PULSE_FADE_OUT_MS: u64 = 800;

/// `Instant::now`: the current moment. What it returns depends on the
/// clock, so nothing is stated of it.
#[verifier::external_body]
pub(crate) fn instant_now() -> Instant {
    Instant::now()
}

/// `SystemTime::now`: the wall clock's current reading. What it returns
/// depends on the clock, so nothing is stated of it.
#[verifier::external_body]
pub(crate) fn system_now() -> SystemTime {
    SystemTime::now()
}

/// `Instant::elapsed`: the time since `started`. What it returns depends
/// on the clock, so nothing is stated of it.
#[verifier::external_body]
fn elapsed_since(started: &Instant) -> Duration {
    started.elapsed()
}

/// `Duration::as_millis`: the whole milliseconds in `d`. A `Duration` is
/// opaque here, so nothing is stated of the count.
#[verifier::external_body]
fn whole_millis(d: &Duration) -> u128 {
    d.as_millis()
}

/// Whether a pulse that fades in, holds, and fades out for the given
/// durations is still running `elapsed_ms` milliseconds after it started.
pub fn is_pulse_active_at(elapsed_ms: u128, fade_in_ms: u64, visible_ms: u64, fade_out_ms: u64) -> (r:
    bool)
    ensures
        r == (elapsed_ms < fade_in_ms + visible_ms + fade_out_ms),
{
    let total: u128 = fade_in_ms as u128 + visible_ms as u128 + fade_out_ms as u128;
    elapsed_ms < total
}

/// Whether a page's pulse (200 ms in, 1500 ms held, 800 ms out) is still
/// running `elapsed_ms` milliseconds after it started.
pub fn glow_active_after(elapsed_ms: u128) -> (r: bool)
    ensures
        r == (elapsed_ms < 2500),
{
    is_pulse_active_at(elapsed_ms, PULSE_FADE_IN_MS, PULSE_VISIBLE_MS, PULSE_FADE_OUT_MS)
}

/// Whether the pulse started at `started` is still running now. Only how
/// far it has run depends on the clock.
pub(crate) fn pulse_running(started: &Instant) -> bool {
    let elapsed = elapsed_since(started);
    glow_active_after(whole_millis(&elapsed))
}

} // verus!
