//! On/off switches for the interface components.
//!
//! Every drawable component of the front-end (tooltip, help panel, axes, the
//! bodies themselves, ...) can be switched on and off independently.  The
//! switches are plain two-state machines; `UIStatus` bundles one per
//! component.

use vstd::prelude::*;

verus! {

/// State of a single switchable component.
#[derive(Debug, Copy, Clone, PartialEq, Eq, Structural)]
pub enum OnOffStatus {
    On,
    Off,
}

impl Default for OnOffStatus {
    /// A component starts switched on.
    fn default() -> (r: Self)
        ensures
            r == OnOffStatus::On,
    {
        OnOffStatus::On
    }
}

impl OnOffStatus {
    /// The opposite switch position.
    pub open spec fn spec_flipped(self) -> OnOffStatus {
        match self {
            OnOffStatus::On => OnOffStatus::Off,
            OnOffStatus::Off => OnOffStatus::On,
        }
    }

    /// Flips the switch and returns the new position.
    pub fn toggle(&mut self) -> (r: OnOffStatus)
        ensures
            *final(self) == old(self).spec_flipped(),
            r == *final(self),
    {
        let status = match self {
            OnOffStatus::On => OnOffStatus::Off,
            OnOffStatus::Off => OnOffStatus::On,
        };
        *self = status;
        status
    }

    /// Whether the switch is in the `On` position.
    pub fn is_on(&self) -> (r: bool)
        ensures
            r == (*self == OnOffStatus::On),
    {
        match self {
            OnOffStatus::On => true,
            OnOffStatus::Off => false,
        }
    }
}

/// The switchable components of the interface.
#[derive(Debug, Clone, Copy, PartialEq, Eq, Structural)]
pub enum Components {
    Tooltip,
    UI,
    Help,
    Axis,
    Bodies,
    Message,
    Trail,
}

/// One switch per interface component.
#[derive(Debug, Clone, PartialEq, Eq, Structural)]
pub struct UIStatus {
    tooltip: OnOffStatus,
    ui: OnOffStatus,
    help: OnOffStatus,
    axis: OnOffStatus,
    bodies: OnOffStatus,
    message: OnOffStatus,
    trail: OnOffStatus,
}

impl Default for UIStatus {
    /// Every component starts switched on.
    fn default() -> (r: Self)
        ensures
            forall|c: Components| r.spec_component(c) == OnOffStatus::On,
    {
        UIStatus {
            tooltip: OnOffStatus::On,
            ui: OnOffStatus::On,
            help: OnOffStatus::On,
            axis: OnOffStatus::On,
            bodies: OnOffStatus::On,
            message: OnOffStatus::On,
            trail: OnOffStatus::On,
        }
    }
}

impl UIStatus {
    /// The switch that belongs to `which`.
    pub closed spec fn spec_component(self, which: Components) -> OnOffStatus {
        match which {
            Components::Tooltip => self.tooltip,
            Components::UI => self.ui,
            Components::Help => self.help,
            Components::Axis => self.axis,
            Components::Bodies => self.bodies,
            Components::Message => self.message,
            Components::Trail => self.trail,
        }
    }

    /// Whether the component `which` is switched on.
    pub fn is_on(&self, which: Components) -> (r: bool)
        ensures
            r == (self.spec_component(which) == OnOffStatus::On),
    {
        match which {
            Components::Tooltip => self.tooltip.is_on(),
            Components::UI => self.ui.is_on(),
            Components::Help => self.help.is_on(),
            Components::Axis => self.axis.is_on(),
            Components::Message => self.message.is_on(),
            Components::Bodies => self.bodies.is_on(),
            Components::Trail => self.trail.is_on(),
        }
    }

    /// Flips the switch of the component `which` and returns its new
    /// position; every other component keeps its position.
    pub fn toggle(&mut self, which: Components) -> (r: OnOffStatus)
        ensures
            final(self).spec_component(which) == old(self).spec_component(which).spec_flipped(),
            forall|c: Components|
                c != which ==> final(self).spec_component(c) == old(self).spec_component(c),
            r == final(self).spec_component(which),
    {
        match which {
            Components::Tooltip => self.tooltip.toggle(),
            Components::UI => self.ui.toggle(),
            Components::Help => self.help.toggle(),
            Components::Axis => self.axis.toggle(),
            Components::Message => self.message.toggle(),
            Components::Bodies => self.bodies.toggle(),
            Components::Trail => self.trail.toggle(),
        }
    }
}

} // verus!
