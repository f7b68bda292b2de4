//! The capture sampler's decisions: what one poll of the screen-capture
//! backend leads to. The backend itself, the sampling thread and its timer
//! live outside the library; each tick they hand in the poll's outcome as
//! plain values and carry out the step returned.

use vstd::prelude::*;

use crate::plug::Capture;

verus! {

/// What one poll of the capture backend yielded.
pub enum FrameResult {
    /// A frame's bytes, packed four to a pixel.
    Frame(Vec<u8>),
    /// Nothing yet; the backend would block.
    WouldBlock,
    /// The session failed.
    Failed,
}

/// What the sampling loop does next.
pub enum SamplerStep {
    /// Hand this frame to the actor.
    Deliver(Capture),
    /// Skip this tick and poll again at the next.
    Skip,
    /// Tear the capture session down and recreate it at the next tick.
    Reset,
}

/// One sampling decision. A would-block poll is retried at the next tick; a
/// failed poll tears the session down for recreation, as does a buffer too
/// small for the display's geometry; a frame is packaged for the actor, its
/// row stride read off the buffer height.
pub fn sampler_step(width: usize, height: usize, outcome: FrameResult) -> (r: SamplerStep)
    requires
        height >= 1,
    ensures
        outcome is WouldBlock ==> r is Skip,
        outcome is Failed ==> r is Reset,
        outcome matches FrameResult::Frame(bytes) ==> {
            &&& (r is Deliver <==> 4 * width <= bytes@.len() as int / (height as int))
            &&& !(4 * width <= bytes@.len() as int / (height as int)) ==> r is Reset
        },
        r matches SamplerStep::Deliver(c) ==> {
            &&& outcome matches FrameResult::Frame(bytes) && c.bytes@ == bytes@
            &&& c.width == width
            &&& c.height == height
            &&& c.rowstride == c.bytes@.len() as int / (height as int)
            &&& c.wf()
        },
{
    match outcome {
        FrameResult::WouldBlock => SamplerStep::Skip,
        FrameResult::Failed => SamplerStep::Reset,
        FrameResult::Frame(bytes) => {
            let rowstride = bytes.len() / height;
            let pixels = match width.checked_mul(4) {
                Some(v) => v,
                None => {
                    return SamplerStep::Reset;
                },
            };
            if pixels > rowstride {
                return SamplerStep::Reset;
            }
            proof {
                assert((bytes@.len() as int / (height as int)) * (height as int) <= bytes@.len())
                    by (nonlinear_arith)
                    requires
                        height >= 1,
                ;
            }
            SamplerStep::Deliver(Capture { width, height, rowstride, bytes })
        },
    }
}

} // verus!
