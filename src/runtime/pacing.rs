use vstd::prelude::*;

verus! {

pub const NANOS_PER_SECOND: u64 = 1_000_000_000;

/// The length of one frame at `target_fps` frames per second, in nanoseconds.
pub fn frame_duration_nanos(target_fps: u32) -> (r: u64)
    requires
        target_fps > 0,
    ensures
        r == NANOS_PER_SECOND / (target_fps as u64),
{
    NANOS_PER_SECOND / (target_fps as u64)
}

/// How long to sleep after an iteration that took `elapsed` of a `frame`:
/// the rest of the frame, or nothing after an overrun (there is no catch-up).
pub fn frame_sleep_nanos(frame: u64, elapsed: u64) -> (r: u64)
    ensures
        r == if elapsed < frame { frame - elapsed } else { 0 },
{
    if elapsed < frame {
        frame - elapsed
    } else {
        0
    }
}

} // verus!
