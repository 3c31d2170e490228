//! Simulation events.

use vstd::prelude::*;
use vstd::std_specs::cmp::{PartialEqSpecImpl, PartialOrdSpecImpl};
use core::cmp::Ordering;
use crate::sim::signal::{SignalId, SignalLevel};
use crate::sim::timing::Time;

verus! {

/// Where an event comes from.
#[derive(Clone, Copy, Debug)]
pub enum EventSource {
    /// External stimulus.
    Stimulus,
    /// The output of this gate with this number.
    Gate(usize),
    /// The clock generator.
    Clock,
    /// Reset logic.
    Reset,
}

/// A change of one signal at one time. Events are ordered, and equal,
/// by their time alone.
#[derive(Clone, Copy, Debug)]
pub struct Event {
    /// When the event happens.
    pub time: Time,
    /// The signal that changes.
    pub target: SignalId,
    /// Its new level.
    pub value: SignalLevel,
    /// Where the event comes from.
    pub source: EventSource,
}

impl PartialEq for Event {
    fn eq(&self, other: &Event) -> (equal: bool) {
        self.time == other.time
    }
}

impl PartialEqSpecImpl for Event {
    open spec fn obeys_eq_spec() -> bool {
        true
    }

    open spec fn eq_spec(&self, other: &Event) -> bool {
        self.time == other.time
    }
}

impl Eq for Event {

}

impl PartialOrd for Event {
    fn partial_cmp(&self, other: &Event) -> (order: Option<Ordering>) {
        if self.time < other.time {
            Some(Ordering::Less)
        } else if self.time > other.time {
            Some(Ordering::Greater)
        } else {
            Some(Ordering::Equal)
        }
    }
}

impl PartialOrdSpecImpl for Event {
    open spec fn obeys_partial_cmp_spec() -> bool {
        true
    }

    open spec fn partial_cmp_spec(&self, other: &Event) -> Option<Ordering> {
        if self.time < other.time {
            Some(Ordering::Less)
        } else if self.time > other.time {
            Some(Ordering::Greater)
        } else {
            Some(Ordering::Equal)
        }
    }
}

} // verus!
