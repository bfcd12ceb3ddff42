//! The auto-zoom policy: a one-shot fit of the view to the bodies.
//!
//! The front-end measures how far the projected bodies reach into the
//! viewport: for each body it takes `|x| / half_width` and `|y| / half_height`
//! and keeps the maximum over all bodies.  That occupancy ratio is handed in
//! here as a fixed-point number in millionths (`RATIO_ONE` is a ratio of 1).
//! When the bodies spill past the upper bound the view zooms out by half;
//! when they huddle below the lower bound it zooms in by two; otherwise it is
//! left alone.  Zooming multiplies the camera scale, and the occupancy ratio
//! scales along with it.

use vstd::prelude::*;

verus! {

/// Fixed-point unit: an occupancy ratio of 1.0, in millionths.
pub const RATIO_ONE: u64 = 1_000_000;

/// Upper bound on the occupancy ratio; past it the view zooms out (0.9).
pub const SCALE_MAX: u64 = 900_000;

/// Lower bound on the occupancy ratio; below it the view zooms in (0.1).
pub const SCALE_MIN: u64 = 100_000;

/// What auto-zoom does to the camera scale.
#[derive(Debug, Clone, Copy, PartialEq, Eq, Structural)]
pub enum ZoomAction {
    /// Multiply the scale by one half: the bodies reach past the viewport.
    Shrink,
    /// Multiply the scale by two: the bodies stay well inside the viewport.
    Grow,
    /// Leave the scale alone: the bodies fill the viewport acceptably.
    Keep,
}

/// The action taken for the occupancy ratio `ratio`.
pub open spec fn spec_zoom_action(ratio: u64) -> ZoomAction {
    if ratio > SCALE_MAX {
        ZoomAction::Shrink
    } else if ratio < SCALE_MIN {
        ZoomAction::Grow
    } else {
        ZoomAction::Keep
    }
}

/// The occupancy ratio after the action: it halves with the scale, doubles
/// with the scale, or stays.
pub open spec fn spec_ratio_after(ratio: u64) -> int {
    match spec_zoom_action(ratio) {
        ZoomAction::Shrink => ratio as int / 2,
        ZoomAction::Grow => 2 * ratio as int,
        ZoomAction::Keep => ratio as int,
    }
}

/// Decides what auto-zoom does to the camera scale, from the occupancy
/// ratio of the projected bodies (in millionths).
pub fn auto_zoom_action(ratio: u64) -> (r: ZoomAction)
    ensures
        r == spec_zoom_action(ratio),
{
    if ratio > SCALE_MAX {
        ZoomAction::Shrink
    } else if ratio < SCALE_MIN {
        ZoomAction::Grow
    } else {
        ZoomAction::Keep
    }
}

/// Decides the action and also reports the occupancy ratio the view will
/// have once the action is applied and the bodies are projected again.
pub fn auto_zoom_step(ratio: u64) -> (r: (ZoomAction, u64))
    requires
        ratio <= u64::MAX / 2,
    ensures
        r.0 == spec_zoom_action(ratio),
        r.1 == spec_ratio_after(ratio),
{
    let action = auto_zoom_action(ratio);
    let after = match action {
        ZoomAction::Shrink => ratio / 2,
        ZoomAction::Grow => 2 * ratio,
        ZoomAction::Keep => ratio,
    };
    (action, after)
}

/// Auto-zoom settles in one application: if the occupancy ratio is within a
/// factor of two of the acceptable band, the ratio reached by one action
/// lies inside the band, so a second application keeps the view as it is.
///
/// Outside that range a single halving or doubling is not enough and
/// auto-zoom keeps adjusting on later applications.
pub proof fn lemma_auto_zoom_idempotent(ratio: u64)
    requires
        SCALE_MIN / 2 <= ratio <= 2 * SCALE_MAX,
    ensures
        spec_zoom_action(spec_ratio_after(ratio) as u64) == ZoomAction::Keep,
{
}

} // verus!
