//! The collision-detection state machine.
//!
//! Collision is only detected, never resolved: when two bodies come closer
//! than a threshold derived from their masses and densities, the simulation
//! pauses and the pair is reported.  The distance test itself is the
//! front-end's concern; this machine decides when to scan, what a scan
//! result does to the state, and how the detector is switched on and off.

use vstd::prelude::*;

verus! {

/// Whether a collision is currently being reported.
#[derive(Debug, Copy, Clone, PartialEq, Eq, Structural)]
pub enum DetectState {
    /// No collision on display; the detector scans while switched on.
    Idle,
    /// The named pair of bodies collided; the report stays up until the
    /// simulation is resumed.
    Detected(usize, usize),
}

/// The collision detector: an on/off switch and the current report.
#[derive(Debug, Copy, Clone, PartialEq, Eq, Structural)]
pub struct CollisionDetect {
    status: DetectState,
    on: bool,
}

impl Default for CollisionDetect {
    /// A fresh detector: switched on, nothing detected.
    fn default() -> (r: Self)
        ensures
            r.spec_status() == DetectState::Idle,
            r.spec_on(),
    {
        CollisionDetect { status: DetectState::Idle, on: true }
    }
}

impl CollisionDetect {
    /// The current report.
    pub closed spec fn spec_status(self) -> DetectState {
        self.status
    }

    /// Whether the detector is switched on.
    pub closed spec fn spec_on(self) -> bool {
        self.on
    }

    /// A fresh detector: switched on, nothing detected.
    pub fn new() -> (r: Self)
        ensures
            r.spec_status() == DetectState::Idle,
            r.spec_on(),
    {
        Self::default()
    }

    /// Switches the detector off and back on; reports the new position.
    pub fn toggle(&mut self) -> (r: bool)
        ensures
            final(self).spec_on() == !old(self).spec_on(),
            final(self).spec_status() == old(self).spec_status(),
            r == final(self).spec_on(),
    {
        self.on = !self.on;
        self.on
    }

    /// Whether the coming update needs a pair scan: only a detector that is
    /// switched on and not holding a report scans the bodies.
    pub fn needs_scan(&self) -> (r: bool)
        ensures
            r == (self.spec_on() && self.spec_status() == DetectState::Idle),
    {
        match self.status {
            DetectState::Idle => self.on,
            DetectState::Detected(_, _) => false,
        }
    }

    /// One update of the detector.
    ///
    /// `running` says whether the simulation is advancing; `found` is the
    /// result of the pair scan when one was needed (the first colliding
    /// pair in schedule order, or `None`), and is ignored otherwise.
    ///
    /// A detector that is switched off does nothing.  A standing report is
    /// cleared as soon as the simulation runs again.  Otherwise a found
    /// pair is recorded and reported, and the simulation is told to pause:
    /// the result is `Some((a, b))` exactly when the pair `(a, b)` was
    /// detected on this update.
    pub fn update_status(&mut self, running: bool, found: Option<(usize, usize)>) -> (r: Option<
        (usize, usize),
    >)
        ensures
            !old(self).spec_on() ==> *final(self) == *old(self) && r is None,
            old(self).spec_on() && old(self).spec_status() is Detected ==> {
                &&& r is None
                &&& final(self).spec_status() == (if running {
                    DetectState::Idle
                } else {
                    old(self).spec_status()
                })
            },
            old(self).spec_on() && old(self).spec_status() == DetectState::Idle ==> {
                &&& final(self).spec_status() == (match found {
                    Option::Some((a, b)) => DetectState::Detected(a, b),
                    Option::None => DetectState::Idle,
                })
                &&& r == found
            },
            final(self).spec_on() == old(self).spec_on(),
    {
        if !self.on {
            return None;
        }
        if let DetectState::Detected(_, _) = self.status {
            if running {
                self.status = DetectState::Idle;
            }
            return None;
        }
        match found {
            Some((a, b)) => {
                self.status = DetectState::Detected(a, b);
                Some((a, b))
            },
            None => {
                self.status = DetectState::Idle;
                None
            },
        }
    }
}

} // verus!
