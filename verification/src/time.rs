//! The stopwatch driving frame throttling and time-scaled movement: it keeps
//! the instant of the last frame and the milliseconds that passed between
//! the two most recent frames. What the clock reads is the machine's
//! business; what is derived from a reading is verified.

use vstd::prelude::*;

verus! {

#[verifier::external_type_specification]
#[verifier::external_body]
pub struct ExInstant(std::time::Instant);

/// Relies on std::time::Instant::now: an opaque reading of the monotonic
/// clock. Nothing can be promised of its value.
pub assume_specification[ std::time::Instant::now ]() -> std::time::Instant;

/// Relies on std::time::Instant::elapsed: the time since the instant, which
/// depends on when it is called. Nothing can be promised of its value.
pub assume_specification[ std::time::Instant::elapsed ](t: &std::time::Instant) -> std::time::Duration;

/// Relies on std::time::Duration::as_millis: the duration in whole
/// milliseconds.
pub assume_specification[ std::time::Duration::as_millis ](d: &std::time::Duration) -> u128;

/// The frame timer: the instant the previous frame ended, and the
/// milliseconds the frame before it took.
pub struct Stopwatch {
    last_frame_time: std::time::Instant,
    delta: u128,
}

impl Stopwatch {
    /// Starts the stopwatch now, with no frame measured yet.
    pub fn new() -> (r: Stopwatch)
        ensures
            r.delta_millis() == 0,
    {
        Stopwatch { last_frame_time: std::time::Instant::now(), delta: 0 }
    }

    /// The milliseconds between the two most recent frame boundaries.
    pub closed spec fn delta_millis(&self) -> u128 {
        self.delta
    }

    /// Ends the current frame: the stored delta becomes the time since the
    /// previous frame boundary, and the boundary moves to now. The measured
    /// value is the machine's; nothing more can be said of it.
    pub fn update_time(&mut self)
    {
        self.delta = self.last_frame_time.elapsed().as_millis();
        self.last_frame_time = std::time::Instant::now();
    }

    /// The time since the last frame boundary, read without moving it. The
    /// value is the machine's.
    pub fn get_current_delta(&self) -> u128 {
        self.last_frame_time.elapsed().as_millis()
    }

    /// The stored delta of the last measured frame, in milliseconds.
    pub fn get_delta(&self) -> (r: u128)
        ensures
            r == self.delta_millis(),
    {
        self.delta
    }

    /// The stored delta in whole seconds.
    pub fn get_delta_seconds(&self) -> (r: u128)
        ensures
            r == self.delta_millis() / 1000,
    {
        self.delta / 1000
    }

    /// The time since the last frame boundary, as `get_current_delta`: the
    /// frame loop's throttle check. The value is the machine's.
    pub fn check_delta(&self) -> u128 {
        self.last_frame_time.elapsed().as_millis()
    }
}

impl Default for Stopwatch {
    /// A stopwatch started now.
    fn default() -> (r: Stopwatch)
        ensures
            r.delta_millis() == 0,
    {
        Stopwatch::new()
    }
}

} // verus!
