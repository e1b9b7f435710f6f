use vstd::prelude::*;

verus! {

/// Microseconds in one second; times handed to the pacer are in microseconds.
pub const MICROS_PER_SECOND: u64 = 1_000_000;

/// A movie frame is due at `now` when no frame was requested yet, or when at
/// least one frame interval (`1 / framerate` seconds) has passed since the
/// last request. A clock reading earlier than the last request is never due.
pub open spec fn frame_due(framerate: nat, last_request: Option<u64>, now: u64) -> bool {
    match last_request {
        None => true,
        Some(t) => t <= now && (now - t) * framerate >= MICROS_PER_SECOND,
    }
}

/// Decides whether the pacer asks the render loop for another movie frame.
pub fn movie_frame_due(framerate: u32, last_request: Option<u64>, now: u64) -> (r: bool)
    ensures
        r == frame_due(framerate as nat, last_request, now),
{
    match last_request {
        None => true,
        Some(t) => {
            if now < t {
                false
            } else {
                let elapsed: u128 = (now - t) as u128;
                proof {
                    assert(elapsed * (framerate as u128) <= 0xffff_ffff_ffff_ffff_u128 * 0xffff_ffff_u128)
                        by (nonlinear_arith)
                        requires elapsed <= 0xffff_ffff_ffff_ffff_u128, framerate <= 0xffff_ffff_u32;
                }
                elapsed * (framerate as u128) >= MICROS_PER_SECOND as u128
            }
        }
    }
}

} // verus!
