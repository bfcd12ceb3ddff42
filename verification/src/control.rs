//! The run-state of the application loop.
//!
//! The front-end translates input events into commands; the commands that
//! touch only plain state — pausing, quitting, and changing the step rate —
//! are decided here.  `step_plan` fixes how many integration steps one frame
//! performs and in which time direction, from the signed step rate.

use vstd::prelude::*;

verus! {

/// The plain run-state of the application: whether the simulation advances,
/// whether the loop should end, and the signed number of integration steps
/// per frame (negative values step backwards in time).
pub struct AppState {
    pub running: bool,
    pub exit: bool,
    pub steps: isize,
}

/// What one frame of simulation has to do: `rounds` groups of `per_round`
/// integration steps each, forwards or backwards in time.  A trail point is
/// recorded after every group.
pub struct StepPlan {
    pub forward: bool,
    pub rounds: usize,
    pub per_round: usize,
}

impl AppState {
    /// The state a fresh application starts in: advancing, not exiting, with
    /// the step rate from the configuration.
    pub fn new(steps: isize) -> (r: AppState)
        ensures
            r.running,
            !r.exit,
            r.steps == steps,
    {
        AppState { running: true, exit: false, steps }
    }

    /// The pause command: advancing flips to paused and back.
    pub fn toggle_pause(&mut self)
        ensures
            final(self).running == !old(self).running,
            final(self).exit == old(self).exit,
            final(self).steps == old(self).steps,
    {
        self.running = !self.running;
    }

    /// The exit command: the loop ends after this frame.
    pub fn request_exit(&mut self)
        ensures
            final(self).exit,
            final(self).running == old(self).running,
            final(self).steps == old(self).steps,
    {
        self.exit = true;
    }

    /// The speed command: adds `d` to the signed step rate.
    pub fn add_speed(&mut self, d: isize)
        requires
            isize::MIN <= old(self).steps + d <= isize::MAX,
        ensures
            final(self).steps == old(self).steps + d,
            final(self).running == old(self).running,
            final(self).exit == old(self).exit,
    {
        self.steps = self.steps + d;
    }
}

/// How many integration steps the coming frame performs, from the signed
/// step rate `steps` and the configured group size `step_per_trail`.
///
/// A zero rate does nothing.  Otherwise the frame runs
/// `|steps| / step_per_trail` groups of `step_per_trail` steps each, in the
/// direction of the sign of `steps`.
pub fn step_plan(steps: isize, step_per_trail: isize) -> (r: Option<StepPlan>)
    requires
        step_per_trail > 0,
        steps > isize::MIN,
    ensures
        match r {
            Option::None => steps == 0,
            Option::Some(p) => {
                &&& steps != 0
                &&& p.forward == (steps > 0)
                &&& p.per_round == step_per_trail
                &&& p.rounds == (if steps > 0 {
                    steps as int
                } else {
                    -(steps as int)
                }) / (step_per_trail as int)
            },
        },
{
    if steps == 0 {
        return None;
    }
    let (forward, total) = if steps > 0 {
        (true, steps)
    } else {
        (false, -steps)
    };
    let rounds = (total / step_per_trail) as usize;
    Some(StepPlan { forward, rounds, per_round: step_per_trail as usize })
}

} // verus!
