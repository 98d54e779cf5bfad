//! The playback metadata carried by an animation container: frame rate,
//! play direction and looping technique, plus the three-field sidecar
//! record that persists them.

use vstd::prelude::*;

verus! {

/// The frame rate of an animation.
///
/// Today only a constant rate exists; the tagged form leaves room for
/// keyframe-driven or dynamic rates later.
#[derive(Clone, Copy, Debug, PartialEq, Eq, Structural)]
pub enum AnimatedFrameRate {
    /// The animation advances frame by frame at this rate, and never changes.
    LinearFramePerSecond(i32),
}

/// The direction in which the animation plays.
#[derive(Clone, Copy, Debug, PartialEq, Eq, Structural)]
pub enum AnimatedPlayDirection {
    Forward,
    Backward,
}

/// How playback repeats once the end of the frame sequence is reached.
#[derive(Clone, Copy, Debug, PartialEq, Eq, Structural)]
pub enum AnimatedLoopingTechnique {
    /// Never end the animation: restart it from the first frame.
    InfiniteLinear,
    /// Never end the animation: reverse at the end, then play forward again.
    InfiniteBouncing,
    /// Loop between the two keyframes given.
    Keyframed { start: i32, end: i32 },
    /// Loop between the two keyframes given, bouncing at each end.
    KeyframedBouncing { start: i32, end: i32 },
    /// End the animation at the last frame; no looping at all.
    NoLoop,
}

/// The exact record stored in a container's sidecar file: the three
/// playback metadata fields, and nothing else. Frame pixel data is never
/// part of it.
#[derive(Clone, Copy, Debug, PartialEq, Eq, Structural)]
pub struct SidecarRecord {
    pub fps: AnimatedFrameRate,
    pub direction: AnimatedPlayDirection,
    pub looping: AnimatedLoopingTechnique,
}

impl SidecarRecord {
    /// The metadata a freshly ingested container starts with: one frame per
    /// second, playing forward, looping forever.
    pub fn initial() -> (r: SidecarRecord)
        ensures
            r == SidecarRecord::spec_initial(),
    {
        SidecarRecord {
            fps: AnimatedFrameRate::LinearFramePerSecond(1),
            direction: AnimatedPlayDirection::Forward,
            looping: AnimatedLoopingTechnique::InfiniteLinear,
        }
    }

    pub open spec fn spec_initial() -> SidecarRecord {
        SidecarRecord {
            fps: AnimatedFrameRate::LinearFramePerSecond(1),
            direction: AnimatedPlayDirection::Forward,
            looping: AnimatedLoopingTechnique::InfiniteLinear,
        }
    }
}

} // verus!
