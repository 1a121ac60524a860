//! Decisions of the render loop.
//!
//! The loop itself runs forever in the embedding program, which performs
//! the outside work of each step: invoking the rasterizer, executing bus
//! actions, sampling input pins.  What is decided here is the order of the
//! steps and the reaction to the sampled inputs, so the discipline of the
//! swapchain (compose, transfer, then swap) is fixed by verified code and
//! not by duplicated loop bodies.

use vstd::prelude::*;
use crate::controller::Orientation;

verus! {

/// The assembly choices of one driving program: buffering mode, whether
/// the diagnostic text overlay is drawn, the orientation set at bring-up,
/// and the fill used to clear the back frame each iteration.
pub struct RenderConfig {
    pub double_buffered: bool,
    pub show_overlay: bool,
    pub initial_orientation: Orientation,
    pub clear_color: u16,
}

/// One step of the render loop, in its fixed order: clear the back frame,
/// have the rasterizer compose into it, optionally overlay diagnostics,
/// transfer the finished frame, exchange the roles, then advance the scene
/// from the sampled inputs.
#[derive(Clone, Copy, Debug, PartialEq, Eq, Structural)]
pub enum Phase {
    Clear,
    Compose,
    Overlay,
    Transfer,
    Swap,
    Advance,
}

/// The step that follows `p`.  The overlay step is skipped when the
/// configuration does not ask for it; the order of the remaining steps
/// never changes.
pub open spec fn spec_next_phase(p: Phase, show_overlay: bool) -> Phase {
    match p {
        Phase::Clear => Phase::Compose,
        Phase::Compose => if show_overlay {
            Phase::Overlay
        } else {
            Phase::Transfer
        },
        Phase::Overlay => Phase::Transfer,
        Phase::Transfer => Phase::Swap,
        Phase::Swap => Phase::Advance,
        Phase::Advance => Phase::Clear,
    }
}

/// Advance the loop to its next step.
pub fn next_phase(p: Phase, show_overlay: bool) -> (r: Phase)
    ensures
        r == spec_next_phase(p, show_overlay),
{
    match p {
        Phase::Clear => Phase::Compose,
        Phase::Compose => if show_overlay {
            Phase::Overlay
        } else {
            Phase::Transfer
        },
        Phase::Overlay => Phase::Transfer,
        Phase::Transfer => Phase::Swap,
        Phase::Swap => Phase::Advance,
        Phase::Advance => Phase::Clear,
    }
}

/// The transfer of a frame happens strictly between composing it and
/// exchanging the buffer roles: from `Compose`, the loop reaches
/// `Transfer` before `Swap`, whether or not the overlay step runs.
pub proof fn lemma_transfer_before_swap(show_overlay: bool)
    ensures
        spec_next_phase(Phase::Compose, show_overlay) != Phase::Swap,
        spec_next_phase(Phase::Transfer, show_overlay) == Phase::Swap,
        spec_next_phase(Phase::Overlay, show_overlay) == Phase::Transfer,
        !show_overlay ==> spec_next_phase(Phase::Compose, show_overlay) == Phase::Transfer,
        show_overlay ==> spec_next_phase(Phase::Compose, show_overlay) == Phase::Overlay,
{
}

/// The scene reaction to the two directional input pins, sampled once per
/// iteration: one pin high moves forward, the other back, any other
/// combination holds position.  The embedding program scales the returned
/// step into its own units.
pub fn steer(a_high: bool, b_high: bool) -> (r: i32)
    ensures
        a_high && !b_high ==> r == 1,
        !a_high && b_high ==> r == -1,
        (a_high == b_high) ==> r == 0,
{
    if a_high && !b_high {
        1
    } else if !a_high && b_high {
        -1
    } else {
        0
    }
}

} // verus!
