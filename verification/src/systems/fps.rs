use vstd::prelude::*;

verus! {

/// How many frames pass between two refreshes of the FPS text.
pub const FPS_REFRESH_PERIOD: u64 = 20;

/// Whether the FPS text is refreshed on this frame: once every
/// `FPS_REFRESH_PERIOD` frames.
pub fn fps_refresh_due(frame_number: u64) -> (due: bool)
    ensures
        due == (frame_number % FPS_REFRESH_PERIOD == 0),
{
    frame_number % FPS_REFRESH_PERIOD == 0
}

} // verus!
