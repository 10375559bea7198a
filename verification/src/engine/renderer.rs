//! Renderer Module
//!
//! Text anchoring and the frame sequencing of sprite animations.

use vstd::prelude::*;

verus! {

#[derive(Debug, Clone, Copy, PartialEq, Eq, Structural)]
pub enum TextAnchor {
    TopLeft,
    TopCenter,
    TopRight,
    MiddleLeft,
    MiddleCenter,
    MiddleRight,
    BottomLeft,
    BottomCenter,
    BottomRight,
}

impl Default for TextAnchor {
    fn default() -> (a: Self)
        ensures
            a == TextAnchor::MiddleLeft,
    {
        TextAnchor::MiddleLeft
    }
}

/// The frame after `current` once its time is up, and whether the animation
/// keeps playing: the next frame; past the last frame a looping animation
/// starts over and any other stops on its last frame.
pub open spec fn next_frame(current: nat, frame_count: nat, looping: bool) -> (nat, bool) {
    if current + 1 < frame_count {
        (current + 1, true)
    } else if looping {
        (0, true)
    } else {
        ((frame_count - 1) as nat, false)
    }
}

/// Advances an animation by one frame (see [`next_frame`]).
pub fn advance_frame(current: usize, frame_count: usize, looping: bool) -> (r: (usize, bool))
    requires
        current < frame_count,
    ensures
        (r.0 as nat, r.1) == next_frame(current as nat, frame_count as nat, looping),
{
    let next = current + 1;
    if next >= frame_count {
        if looping {
            (0, true)
        } else {
            (frame_count - 1, false)
        }
    } else {
        (next, true)
    }
}

/// Law (frames stay in range): advancing never leaves the frame list.
pub proof fn law_frame_in_range(current: nat, frame_count: nat, looping: bool)
    requires
        current < frame_count,
    ensures
        next_frame(current, frame_count, looping).0 < frame_count,
        !next_frame(current, frame_count, looping).1 ==> !looping && next_frame(current, frame_count, looping).0
            == frame_count - 1,
{
}

/// The frame reached from `start` after `steps` advances.
pub open spec fn frame_after(start: nat, frame_count: nat, looping: bool, steps: nat) -> nat
    decreases steps,
{
    if steps == 0 {
        start
    } else {
        next_frame(frame_after(start, frame_count, looping, (steps - 1) as nat), frame_count, looping).0
    }
}

/// Law (frames advance one at a time): before the last frame, advancing goes
/// to the next frame and keeps playing, looping or not; from the last frame a
/// looping animation goes back to the first frame, and any other stays on the
/// last frame and stops.
pub proof fn law_frame_steps(current: nat, frame_count: nat, looping: bool)
    requires
        current < frame_count,
    ensures
        current + 1 < frame_count ==> next_frame(current, frame_count, looping) == (current + 1, true),
        current + 1 == frame_count && looping ==> next_frame(current, frame_count, looping) == (0nat, true),
        current + 1 == frame_count && !looping ==> next_frame(current, frame_count, looping) == (current, false),
{
}

/// Law (a looping animation cycles): starting from the first frame, a looping
/// animation is at frame `steps % frame_count` after `steps` advances.
pub proof fn law_looping_cycles(frame_count: nat, steps: nat)
    requires
        frame_count > 0,
    ensures
        frame_after(0, frame_count, true, steps) == steps % frame_count,
    decreases steps,
{
    if steps == 0 {
        assert(0nat % frame_count == 0) by (nonlinear_arith)
            requires
                frame_count > 0,
        ;
    } else {
        law_looping_cycles(frame_count, (steps - 1) as nat);
        let p = (steps - 1) as nat;
        assert(frame_after(0, frame_count, true, steps) == next_frame(p % frame_count, frame_count, true).0);
        assert(p % frame_count < frame_count) by (nonlinear_arith)
            requires
                frame_count > 0,
        ;
        if p % frame_count + 1 < frame_count {
            assert(steps % frame_count == p % frame_count + 1) by (nonlinear_arith)
                requires
                    frame_count > 0,
                    steps == p + 1,
                    p % frame_count + 1 < frame_count,
            ;
        } else {
            assert(steps % frame_count == 0) by (nonlinear_arith)
                requires
                    frame_count > 0,
                    steps == p + 1,
                    p % frame_count + 1 == frame_count,
            ;
        }
    }
}

} // verus!
